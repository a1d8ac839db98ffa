//! C#: classes, interfaces, structs, enums, methods (nested in namespaces and
//! classes), `using` directives.
use vstd::prelude::*;
use crate::parser::language::{exports_public, group_exports_public};
use crate::parser::common::{
    callable_exec, callable_item, decl_exec, decl_item, import_exec, import_item, opt_import,
    sig_or_first_line, sig_or_first_line_exec,
};
use crate::parser::language::{
    make_import, one_name, vis_of, visibility, Import, ImportView, LanguageSupport, ParseResult,
    ResultView, SymbolKind, Visibility,
};
use crate::syntax::{
    child_by_field, child_text, lemma_field_child_from, child_text_exec, field_child, field_text, field_text_exec,
    has_child_with_text, has_child_with_text_exec, kind_is, ks1, node_text, text_of, SyntaxNode,
    SyntaxTree,
};
use crate::text::{
    rfind_char_below, rfind_char_exec, str_chars, substr, trim, trim_end_matches,
    trim_end_matches_exec, trim_exec, trim_start_matches, trim_start_matches_exec,
};

verus! {

pub struct CSharpLanguage;

/// The grammar of `tree_sitter_c_sharp` (`LANGUAGE`).
#[verifier::external_body]
fn grammar() -> tree_sitter::Language {
    tree_sitter_c_sharp::LANGUAGE.into()
}

/// The `name` field's text, else the first identifier child's text.
pub open spec fn cs_name(src: Seq<char>, n: SyntaxNode) -> Seq<char> {
    match field_text(src, n, "name"@) {
        Some(t) => t,
        None => child_text(src, n, seq!["identifier"@]),
    }
}

/// Public when a `modifier` child reads `public`.
pub open spec fn cs_vis(src: Seq<char>, n: SyntaxNode) -> Visibility {
    vis_of(has_child_with_text(src, n, "modifier"@, "public"@))
}

/// `using A.B.C;`: namespace before the last dot, name after it.
pub open spec fn cs_using(src: Seq<char>, n: SyntaxNode) -> Option<ImportView> {
    let inner = trim(
        trim_end_matches(trim(trim_start_matches(text_of(src, n), "using"@)), ";"@),
    );
    if inner.len() == 0 {
        None
    } else {
        match rfind_char_below(inner, '.', inner.len() as int) {
            Some(sep) => Some(
                ImportView {
                    source: inner.subrange(0, sep),
                    names: seq![inner.subrange(sep + 1, inner.len() as int)],
                },
            ),
            None => Some(ImportView { source: Seq::empty(), names: seq![inner] }),
        }
    }
}

pub open spec fn cs_type_kind(k: Seq<char>) -> Option<SymbolKind> {
    if k == "interface_declaration"@ {
        Some(SymbolKind::Interface)
    } else if k == "struct_declaration"@ {
        Some(SymbolKind::Struct)
    } else if k == "enum_declaration"@ {
        Some(SymbolKind::Enum)
    } else {
        None
    }
}

pub open spec fn is_container(k: Seq<char>) -> bool {
    k == "namespace_declaration"@ || k == "file_scoped_namespace_declaration"@ || k
        == "declaration_list"@
}

/// What a node contributes, followed by what the nodes it opens contribute
/// (last child first, as the traversal stack pops them).
pub open spec fn cs_node(src: Seq<char>, n: SyntaxNode) -> ResultView
    decreases n, 0nat,
{
    let k = n.kind@;
    if k == "using_directive"@ {
        import_item(cs_using(src, n))
    } else if k == "class_declaration"@ {
        let own = decl_item(src, n, cs_name(src, n), SymbolKind::Class, cs_vis(src, n));
        match field_child(n, "body"@) {
            Some(b) => {
                proof {
                    lemma_field_child_from(n.children@, "body"@, 0);
                }
                own.add(
                cs_rev(src, n.children@[b].children@, n.children@[b].children@.len() as nat),
            )
            },
            None => own,
        }
    } else if let Some(kind) = cs_type_kind(k) {
        decl_item(src, n, cs_name(src, n), kind, cs_vis(src, n))
    } else if k == "method_declaration"@ {
        callable_item(
            n,
            cs_name(src, n),
            SymbolKind::Method,
            cs_vis(src, n),
            sig_or_first_line(src, n, seq!["block"@]),
            child_text(src, n, seq!["block"@]),
        )
    } else if is_container(k) {
        cs_rev(src, n.children@, n.children@.len() as nat)
    } else {
        ResultView::empty()
    }
}

/// The contributions of `ch[k-1]`, ..., `ch[0]`, in that order.
pub open spec fn cs_rev(src: Seq<char>, ch: Seq<SyntaxNode>, k: nat) -> ResultView
    decreases ch, k,
{
    if k == 0 || k > ch.len() {
        ResultView::empty()
    } else {
        cs_node(src, ch[k - 1]).add(cs_rev(src, ch, (k - 1) as nat))
    }
}

impl CSharpLanguage {
    fn extract_name(src: &Vec<char>, n: &SyntaxNode) -> (r: Vec<char>)
        ensures
            r@ == cs_name(src@, *n),
    {
        match field_text_exec(src, n, "name") {
            Some(t) => t,
            None => child_text_exec(src, n, &ks1("identifier")),
        }
    }

    fn extract_visibility(src: &Vec<char>, n: &SyntaxNode) -> (r: Visibility)
        ensures
            r == cs_vis(src@, *n),
    {
        visibility(has_child_with_text_exec(src, n, "modifier", "public"))
    }

    fn extract_using(src: &Vec<char>, n: &SyntaxNode) -> (r: Option<Import>)
        ensures
            opt_import(r) == cs_using(src@, *n),
    {
        let t = node_text(src, n);
        let a = trim_start_matches_exec(&t, "using");
        let b = trim_exec(&a);
        let c = trim_end_matches_exec(&b, ";");
        let inner = trim_exec(&c);
        if inner.len() == 0 {
            return None;
        }
        match rfind_char_exec(&inner, '.') {
            Some(sep) => {
                let ns = substr(&inner, 0, sep);
                let name = substr(&inner, sep + 1, inner.len());
                Some(make_import(&ns, one_name(&name)))
            },
            None => Some(make_import(&Vec::new(), one_name(&inner))),
        }
    }

    fn type_kind(n: &SyntaxNode) -> (r: Option<SymbolKind>)
        ensures
            r == cs_type_kind(n.kind@),
    {
        if kind_is(n, "interface_declaration") {
            Some(SymbolKind::Interface)
        } else if kind_is(n, "struct_declaration") {
            Some(SymbolKind::Struct)
        } else if kind_is(n, "enum_declaration") {
            Some(SymbolKind::Enum)
        } else {
            None
        }
    }

    fn node_items(src: &Vec<char>, n: &SyntaxNode) -> (r: ParseResult)
        ensures
            r@ == cs_node(src@, *n),
        decreases *n, 0nat,
    {
        if kind_is(n, "using_directive") {
            return import_exec(Self::extract_using(src, n));
        }
        if kind_is(n, "class_declaration") {
            let name = Self::extract_name(src, n);
            let vis = Self::extract_visibility(src, n);
            let mut out = decl_exec(src, n, &name, SymbolKind::Class, vis);
            if let Some(b) = child_by_field(n, "body") {
                let body = &n.children[b];
                let rest = Self::rev_items(src, &body.children, body.children.len());
                out.absorb(rest);
            }
            return out;
        }
        match Self::type_kind(n) {
            Some(kind) => {
                let name = Self::extract_name(src, n);
                let vis = Self::extract_visibility(src, n);
                return decl_exec(src, n, &name, kind, vis);
            },
            None => {},
        }
        if kind_is(n, "method_declaration") {
            let name = Self::extract_name(src, n);
            let vis = Self::extract_visibility(src, n);
            let sig = sig_or_first_line_exec(src, n, &ks1("block"));
            let body = child_text_exec(src, n, &ks1("block"));
            callable_exec(n, &name, SymbolKind::Method, vis, &sig, &body)
        } else if kind_is(n, "namespace_declaration") || kind_is(
            n,
            "file_scoped_namespace_declaration",
        ) || kind_is(n, "declaration_list") {
            Self::rev_items(src, &n.children, n.children.len())
        } else {
            ParseResult::empty()
        }
    }

    fn rev_items(src: &Vec<char>, ch: &Vec<SyntaxNode>, k: usize) -> (r: ParseResult)
        requires
            k <= ch@.len(),
        ensures
            r@ == cs_rev(src@, ch@, k as nat),
        decreases ch@, k,
    {
        if k == 0 {
            return ParseResult::empty();
        }
        let mut out = Self::node_items(src, &ch[k - 1]);
        let rest = Self::rev_items(src, ch, k - 1);
        out.absorb(rest);
        out
    }
}

impl LanguageSupport for CSharpLanguage {
    open spec fn spec_name(&self) -> Seq<char> {
        "csharp"@
    }

    open spec fn spec_extract(&self, source: Seq<char>, root: SyntaxNode) -> ResultView {
        cs_rev(source, root.children@, root.children@.len() as nat)
    }

    fn ts_language(&self) -> tree_sitter::Language {
        grammar()
    }

    fn name(&self) -> (r: &str) {
        "csharp"
    }

    fn extract(&self, source: &str, tree: &SyntaxTree) -> (r: ParseResult) {
        let src = str_chars(source);
        Self::rev_items(&src, &tree.root.children, tree.root.children.len())
    }
}

} // verus!

verus! {

proof fn lemma_cs_node_exports(src: Seq<char>, n: SyntaxNode)
    ensures
        exports_public(cs_node(src, n)),
    decreases n, 0nat,
{
    broadcast use group_exports_public;

    lemma_cs_rev_exports(src, n.children@, n.children@.len() as nat);
    lemma_field_child_from(n.children@, "body"@, 0);
    if let Some(b) = field_child(n, "body"@) {
        lemma_cs_rev_exports(src, n.children@[b].children@, n.children@[b].children@.len() as nat);
    }
}

proof fn lemma_cs_rev_exports(src: Seq<char>, ch: Seq<SyntaxNode>, k: nat)
    ensures
        exports_public(cs_rev(src, ch, k)),
    decreases ch, k,
{
    broadcast use group_exports_public;

    if k > 0 && k <= ch.len() {
        lemma_cs_node_exports(src, ch[k - 1]);
        lemma_cs_rev_exports(src, ch, (k - 1) as nat);
    }
}

/// Every export of what C# extraction finds names a public symbol of
/// the same kind: nothing is exported that is not declared public.
pub proof fn law_exports_are_public(source: Seq<char>, root: SyntaxNode)
    ensures
        exports_public(CSharpLanguage.spec_extract(source, root)),
{
    broadcast use group_exports_public;

    lemma_cs_rev_exports(source, root.children@, root.children@.len() as nat);
}

} // verus!
