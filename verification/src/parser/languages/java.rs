//! Java: classes, interfaces, enums, methods and constructors (nested in
//! class bodies), imports.
use vstd::prelude::*;
use crate::parser::language::LanguageSupport;
use crate::parser::language::{exports_public, group_exports_public};
use crate::parser::language::{lemma_add_has, symbol_of, ExportView, SymbolView};
use crate::parser::common::{
    callable_exec, callable_item, decl_exec, decl_item, import_exec, import_item, opt_import,
    sig_or_first_line, sig_or_first_line_exec,
};
use crate::parser::language::{make_import, one_name, vis_of, visibility, Import, ImportView, ParseResult, ResultView, SymbolKind, Visibility};
use crate::syntax::{
    child_text, child_text_exec, find_child, first_child_in, first_line_of, kind_is, ks1, node_text, text_of,
    SyntaxNode, SyntaxTree,
};
use crate::text::{
    contains, contains_exec, ends_with, ends_with_lit, rfind_char_below, rfind_char_exec,
    str_chars, substr, trim, trim_end_matches, trim_end_matches_exec, trim_exec,
    trim_start_matches, trim_start_matches_exec,
};

verus! {

pub struct JavaLanguage;

/// The grammar of `tree_sitter_java` (`LANGUAGE`, converted to a `Language`).
#[verifier::external_body]
fn grammar() -> tree_sitter::Language {
    tree_sitter_java::LANGUAGE.into()
}

pub open spec fn java_name(src: Seq<char>, n: SyntaxNode) -> Seq<char> {
    child_text(src, n, seq!["identifier"@])
}

/// Public when the first `modifiers` child mentions `public`.
pub open spec fn java_vis(src: Seq<char>, n: SyntaxNode) -> Visibility {
    match first_child_in(n.children@, seq!["modifiers"@], 0) {
        Some(k) => vis_of(contains(text_of(src, n.children@[k]), "public"@)),
        None => Visibility::Private,
    }
}

/// The dotted path of an import, without `import`, `static` and `;`.
pub open spec fn dotted_inner(t: Seq<char>, keyword: Seq<char>) -> Seq<char> {
    trim(
        trim_end_matches(
            trim(trim_start_matches(trim(trim_start_matches(t, keyword)), "static"@)),
            ";"@,
        ),
    )
}

/// `a.b.*` imports everything from `a.b`; `a.b.C` imports `C` from `a.b`.
pub open spec fn java_import_of(inner: Seq<char>) -> Option<ImportView> {
    if inner.len() == 0 {
        None
    } else if ends_with(inner, ".*"@) {
        Some(ImportView { source: trim_end_matches(inner, ".*"@), names: seq!["*"@] })
    } else {
        match rfind_char_below(inner, '.', inner.len() as int) {
            Some(sep) => Some(
                ImportView {
                    source: inner.subrange(0, sep),
                    names: seq![inner.subrange(sep + 1, inner.len() as int)],
                },
            ),
            None => Some(ImportView { source: Seq::empty(), names: seq![inner] }),
        }
    }
}

pub open spec fn java_import(src: Seq<char>, n: SyntaxNode) -> Option<ImportView> {
    java_import_of(dotted_inner(text_of(src, n), "import"@))
}

pub open spec fn java_type_kind(k: Seq<char>) -> Option<SymbolKind> {
    if k == "interface_declaration"@ {
        Some(SymbolKind::Interface)
    } else if k == "enum_declaration"@ {
        Some(SymbolKind::Enum)
    } else {
        None
    }
}

pub open spec fn is_java_body(k: Seq<char>) -> bool {
    k == "class_body"@ || k == "interface_body"@ || k == "enum_body"@
}

/// What a node contributes, followed by what the nodes it opens contribute
/// (last child first, as the traversal stack pops them).
pub open spec fn java_node(src: Seq<char>, n: SyntaxNode) -> ResultView
    decreases n, 0nat,
{
    let k = n.kind@;
    if k == "import_declaration"@ {
        import_item(java_import(src, n))
    } else if k == "class_declaration"@ {
        decl_item(src, n, java_name(src, n), SymbolKind::Class, java_vis(src, n)).add(
            java_rev(src, n.children@, n.children@.len() as nat),
        )
    } else if let Some(kind) = java_type_kind(k) {
        decl_item(src, n, java_name(src, n), kind, java_vis(src, n))
    } else if k == "method_declaration"@ || k == "constructor_declaration"@ {
        callable_item(
            n,
            java_name(src, n),
            SymbolKind::Method,
            java_vis(src, n),
            sig_or_first_line(src, n, seq!["block"@]),
            child_text(src, n, seq!["block"@]),
        )
    } else if is_java_body(k) {
        java_rev(src, n.children@, n.children@.len() as nat)
    } else {
        ResultView::empty()
    }
}

/// The contributions of `ch[k-1]`, ..., `ch[0]`, in that order.
pub open spec fn java_rev(src: Seq<char>, ch: Seq<SyntaxNode>, k: nat) -> ResultView
    decreases ch, k,
{
    if k == 0 || k > ch.len() {
        ResultView::empty()
    } else {
        java_node(src, ch[k - 1]).add(java_rev(src, ch, (k - 1) as nat))
    }
}

impl JavaLanguage {
    fn extract_name(src: &Vec<char>, n: &SyntaxNode) -> (r: Vec<char>)
        ensures
            r@ == java_name(src@, *n),
    {
        child_text_exec(src, n, &ks1("identifier"))
    }

    fn extract_visibility(src: &Vec<char>, n: &SyntaxNode) -> (r: Visibility)
        ensures
            r == java_vis(src@, *n),
    {
        match find_child(n, &ks1("modifiers")) {
            Some(k) => {
                let t = node_text(src, &n.children[k]);
                visibility(contains_exec(&t, "public"))
            },
            None => Visibility::Private,
        }
    }

    /// `dotted_inner` of a text.
    pub(crate) fn dotted_inner_exec(t: &Vec<char>, keyword: &str) -> (r: Vec<char>)
        ensures
            r@ == dotted_inner(t@, keyword@),
    {
        let a = trim_start_matches_exec(t, keyword);
        let b = trim_exec(&a);
        let c = trim_start_matches_exec(&b, "static");
        let d = trim_exec(&c);
        let e = trim_end_matches_exec(&d, ";");
        trim_exec(&e)
    }

    /// The import a dotted path stands for (shared with Groovy).
    pub(crate) fn import_of(inner: &Vec<char>) -> (r: Option<Import>)
        ensures
            opt_import(r) == java_import_of(inner@),
    {
        if inner.len() == 0 {
            return None;
        }
        if ends_with_lit(inner, ".*") {
            let src_path = trim_end_matches_exec(inner, ".*");
            let star = str_chars("*");
            return Some(make_import(&src_path, one_name(&star)));
        }
        match rfind_char_exec(inner, '.') {
            Some(sep) => {
                let ns = substr(inner, 0, sep);
                let name = substr(inner, sep + 1, inner.len());
                Some(make_import(&ns, one_name(&name)))
            },
            None => Some(make_import(&Vec::new(), one_name(inner))),
        }
    }

    fn extract_import(src: &Vec<char>, n: &SyntaxNode) -> (r: Option<Import>)
        ensures
            opt_import(r) == java_import(src@, *n),
    {
        let t = node_text(src, n);
        let inner = Self::dotted_inner_exec(&t, "import");
        Self::import_of(&inner)
    }

    fn type_kind(n: &SyntaxNode) -> (r: Option<SymbolKind>)
        ensures
            r == java_type_kind(n.kind@),
    {
        if kind_is(n, "interface_declaration") {
            Some(SymbolKind::Interface)
        } else if kind_is(n, "enum_declaration") {
            Some(SymbolKind::Enum)
        } else {
            None
        }
    }

    fn node_items(src: &Vec<char>, n: &SyntaxNode) -> (r: ParseResult)
        ensures
            r@ == java_node(src@, *n),
        decreases *n, 0nat,
    {
        if kind_is(n, "import_declaration") {
            return import_exec(Self::extract_import(src, n));
        }
        if kind_is(n, "class_declaration") {
            let name = Self::extract_name(src, n);
            let vis = Self::extract_visibility(src, n);
            let mut out = decl_exec(src, n, &name, SymbolKind::Class, vis);
            let rest = Self::rev_items(src, &n.children, n.children.len());
            out.absorb(rest);
            return out;
        }
        match Self::type_kind(n) {
            Some(kind) => {
                let name = Self::extract_name(src, n);
                let vis = Self::extract_visibility(src, n);
                return decl_exec(src, n, &name, kind, vis);
            },
            None => {},
        }
        if kind_is(n, "method_declaration") || kind_is(n, "constructor_declaration") {
            let name = Self::extract_name(src, n);
            let vis = Self::extract_visibility(src, n);
            let sig = sig_or_first_line_exec(src, n, &ks1("block"));
            let body = child_text_exec(src, n, &ks1("block"));
            callable_exec(n, &name, SymbolKind::Method, vis, &sig, &body)
        } else if kind_is(n, "class_body") || kind_is(n, "interface_body") || kind_is(
            n,
            "enum_body",
        ) {
            Self::rev_items(src, &n.children, n.children.len())
        } else {
            ParseResult::empty()
        }
    }

    fn rev_items(src: &Vec<char>, ch: &Vec<SyntaxNode>, k: usize) -> (r: ParseResult)
        requires
            k <= ch@.len(),
        ensures
            r@ == java_rev(src@, ch@, k as nat),
        decreases ch@, k,
    {
        if k == 0 {
            return ParseResult::empty();
        }
        let mut out = Self::node_items(src, &ch[k - 1]);
        let rest = Self::rev_items(src, ch, k - 1);
        out.absorb(rest);
        out
    }
}

/// What extraction finds in a source text with the given tree.
pub open spec fn java_extract(source: Seq<char>, root: SyntaxNode) -> ResultView {
    java_rev(source, root.children@, root.children@.len() as nat)
}

impl LanguageSupport for JavaLanguage {
    open spec fn spec_name(&self) -> Seq<char> {
        "java"@
    }

    open spec fn spec_extract(&self, source: Seq<char>, root: SyntaxNode) -> ResultView {
        java_extract(source, root)
    }

    fn ts_language(&self) -> tree_sitter::Language {
        grammar()
    }

    fn name(&self) -> (r: &str) {
        "java"
    }

    fn extract(&self, source: &str, tree: &SyntaxTree) -> (r: ParseResult) {
        let src = str_chars(source);
        Self::rev_items(&src, &tree.root.children, tree.root.children.len())
    }
}

} // verus!

verus! {

proof fn lemma_java_node_exports(src: Seq<char>, n: SyntaxNode)
    ensures
        exports_public(java_node(src, n)),
    decreases n, 0nat,
{
    broadcast use group_exports_public;

    lemma_java_rev_exports(src, n.children@, n.children@.len() as nat);
}

proof fn lemma_java_rev_exports(src: Seq<char>, ch: Seq<SyntaxNode>, k: nat)
    ensures
        exports_public(java_rev(src, ch, k)),
    decreases ch, k,
{
    broadcast use group_exports_public;

    if k > 0 && k <= ch.len() {
        lemma_java_node_exports(src, ch[k - 1]);
        lemma_java_rev_exports(src, ch, (k - 1) as nat);
    }
}

/// Every export of what Java extraction finds names a public symbol of
/// the same kind: nothing is exported that is not declared public.
pub proof fn law_exports_are_public(source: Seq<char>, root: SyntaxNode)
    ensures
        exports_public(java_extract(source, root)),
{
    broadcast use group_exports_public;

    lemma_java_rev_exports(source, root.children@, root.children@.len() as nat);
}

} // verus!

verus! {

/// What a node among the first `k` children contributes, the gathered
/// contribution of those children holds.
proof fn lemma_java_rev_has(src: Seq<char>, ch: Seq<SyntaxNode>, k: nat, i: int)
    requires
        0 <= i < k <= ch.len(),
    ensures
        forall|x: SymbolView| java_node(src, ch[i]).symbols.contains(x) ==> #[trigger] java_rev(src, ch, k).symbols.contains(x),
        forall|x: ExportView| java_node(src, ch[i]).exports.contains(x) ==> #[trigger] java_rev(src, ch, k).exports.contains(x),
    decreases k,
{
    let a = java_node(src, ch[k - 1]);
    let b = java_rev(src, ch, (k - 1) as nat);
    lemma_add_has(a, b);
    if i < k - 1 {
        lemma_java_rev_has(src, ch, (k - 1) as nat, i);
    }
}

/// An interface declaration declares an interface: extraction reports a
/// symbol of kind `Interface` spanning it, and, when it is public, an export
/// of kind `Interface` under its name.
pub proof fn law_interfaces_are_interfaces(src: Seq<char>, root: SyntaxNode, i: int)
    requires
        0 <= i < root.children@.len(),
        root.children@[i].kind@ == "interface_declaration"@,
    ensures
        ({
            let n = root.children@[i];
            let r = JavaLanguage.spec_extract(src, root);
            exists|s: SymbolView|
                #[trigger] r.symbols.contains(s) && s.kind == SymbolKind::Interface && s.start_line
                    == n.start_line && s.end_line == n.end_line && s.body == text_of(src, n) && (
                s.visibility == Visibility::Public ==> r.exports.contains(
                    ExportView { name: s.name, kind: SymbolKind::Interface },
                ))
        }),
{
    let n = root.children@[i];
    assert("interface_declaration"@.len() == 21) by {
        reveal_strlit("interface_declaration");
    }
    assert("import_declaration"@.len() == 18) by {
        reveal_strlit("import_declaration");
    }
    assert("class_declaration"@.len() == 17) by {
        reveal_strlit("class_declaration");
    }
    assert(n.kind@ != "import_declaration"@);
    assert(n.kind@ != "class_declaration"@);
    let s = symbol_of(
        java_name(src, n),
        SymbolKind::Interface,
        java_vis(src, n),
        first_line_of(src, n),
        text_of(src, n),
        n,
    );
    let e = ExportView { name: s.name, kind: SymbolKind::Interface };
    let piece = java_node(src, n);
    assert(piece.symbols[0] == s);
    assert(piece.symbols.contains(s));
    lemma_java_rev_has(src, root.children@, root.children@.len() as nat, i);
    let r = JavaLanguage.spec_extract(src, root);
    assert(r.symbols.contains(s));
    if s.visibility == Visibility::Public {
        assert(piece.exports[0] == e);
        assert(piece.exports.contains(e));
        assert(r.exports.contains(e));
    }
}

} // verus!
