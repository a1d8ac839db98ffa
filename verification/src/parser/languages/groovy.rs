//! Groovy: functions, classes with their methods, and imports. Declarations
//! are public unless their first line says `private` or `protected`.
use vstd::prelude::*;
use crate::parser::language::{exports_public, group_exports_public, lemma_fold_exports_public};
use crate::parser::common::{
    callable_exec, callable_item, cut_sig_exec, cut_sig_from, decl_exec, decl_item, import_exec,
    import_item, opt_import,
};
use crate::parser::language::{fold_items, fold_nodes, Import, LanguageSupport, ParseResult, ResultView, SymbolKind, Visibility};
use crate::parser::languages::java::{java_import_of, JavaLanguage};
use crate::syntax::{child_text, child_text_exec, kind_is, ks1, ks2, node_text, text_of, SyntaxNode, SyntaxTree};
use crate::text::{
    contains, contains_exec, first_line, first_line_exec, str_chars, to_string, trim,
    trim_end_matches, trim_end_matches_exec, trim_exec, trim_start_matches,
    trim_start_matches_exec,
};

verus! {

pub struct GroovyLanguage;

/// The grammar of `tree_sitter_groovy` (`LANGUAGE`).
#[verifier::external_body]
fn grammar() -> tree_sitter::Language {
    tree_sitter_groovy::LANGUAGE.into()
}

pub open spec fn gv_name(src: Seq<char>, n: SyntaxNode) -> Seq<char> {
    child_text(src, n, seq!["identifier"@])
}

/// Private when the first line holds `private ` or `protected `; public by
/// default.
pub open spec fn gv_vis(src: Seq<char>, n: SyntaxNode) -> Visibility {
    let fl = first_line(text_of(src, n));
    if contains(fl, "private "@) || contains(fl, "protected "@) {
        Visibility::Private
    } else {
        Visibility::Public
    }
}

pub open spec fn gv_body_kinds() -> Seq<Seq<char>> {
    seq!["block"@, "closure"@]
}

/// The import path: the text without `;`, `import` and `static`.
pub open spec fn gv_import_path(t: Seq<char>) -> Seq<char> {
    trim(
        trim_start_matches(
            trim(trim_start_matches(trim(trim_end_matches(trim(t), ";"@)), "import"@)),
            "static"@,
        ),
    )
}

/// A function or method, when it has a name.
pub open spec fn gv_callable(src: Seq<char>, n: SyntaxNode, kind: SymbolKind) -> ResultView {
    let name = gv_name(src, n);
    if name.len() == 0 {
        ResultView::empty()
    } else {
        callable_item(
            n,
            name,
            kind,
            gv_vis(src, n),
            cut_sig_from(n, text_of(src, n), gv_body_kinds(), 0),
            child_text(src, n, gv_body_kinds()),
        )
    }
}

pub open spec fn is_gv_callable(k: Seq<char>) -> bool {
    k == "method_declaration"@ || k == "function_definition"@
}

/// A method inside a class body.
pub open spec fn gv_method(src: Seq<char>, n: SyntaxNode) -> ResultView {
    if is_gv_callable(n.kind@) {
        gv_callable(src, n, SymbolKind::Method)
    } else {
        ResultView::empty()
    }
}

/// The methods of one class body.
pub open spec fn gv_class_body(src: Seq<char>, c: SyntaxNode) -> ResultView {
    if c.kind@ == "class_body"@ {
        fold_items(c.children@, |m: SyntaxNode| gv_method(src, m))
    } else {
        ResultView::empty()
    }
}

/// What a node contributes: a function, a class and its methods, an import,
/// or what its children contribute (last first).
pub open spec fn gv_node(src: Seq<char>, n: SyntaxNode) -> ResultView
    decreases n, 0nat,
{
    let k = n.kind@;
    if is_gv_callable(k) {
        gv_callable(src, n, SymbolKind::Function)
    } else if k == "class_declaration"@ {
        let name = gv_name(src, n);
        if name.len() == 0 {
            ResultView::empty()
        } else {
            decl_item(src, n, name, SymbolKind::Class, gv_vis(src, n)).add(
                fold_items(n.children@, |c: SyntaxNode| gv_class_body(src, c)),
            )
        }
    } else if k == "import_declaration"@ {
        import_item(java_import_of(gv_import_path(text_of(src, n))))
    } else {
        gv_rev(src, n.children@, n.children@.len() as nat)
    }
}

pub open spec fn gv_rev(src: Seq<char>, ch: Seq<SyntaxNode>, k: nat) -> ResultView
    decreases ch, k,
{
    if k == 0 || k > ch.len() {
        ResultView::empty()
    } else {
        gv_node(src, ch[k - 1]).add(gv_rev(src, ch, (k - 1) as nat))
    }
}

impl GroovyLanguage {
    /// The visibility given by the declaration's first line.
    fn determine_visibility(n: &SyntaxNode, src: &Vec<char>) -> (r: Visibility)
        ensures
            r == gv_vis(src@, *n),
    {
        let fl = first_line_exec(&node_text(src, n));
        if contains_exec(&fl, "private ") || contains_exec(&fl, "protected ") {
            Visibility::Private
        } else {
            Visibility::Public
        }
    }

    /// The import of an `import` declaration, if it names anything.
    fn extract_import(n: &SyntaxNode, src: &Vec<char>) -> (r: Option<Import>)
        ensures
            opt_import(r) == java_import_of(gv_import_path(text_of(src@, *n))),
    {
        let t = node_text(src, n);
        let a = trim_exec(&trim_end_matches_exec(&trim_exec(&t), ";"));
        let b = trim_exec(&trim_start_matches_exec(&a, "import"));
        let path = trim_exec(&trim_start_matches_exec(&b, "static"));
        JavaLanguage::import_of(&path)
    }

    /// A class's name: the text of its first identifier child.
    pub fn extract_class_name(n: &SyntaxNode, src: &Vec<char>) -> (r: String)
        ensures
            r@ == gv_name(src@, *n),
    {
        to_string(&child_text_exec(src, n, &ks1("identifier")))
    }




    fn callable(src: &Vec<char>, n: &SyntaxNode, kind: SymbolKind) -> (r: ParseResult)
        ensures
            r@ == gv_callable(src@, *n, kind),
    {
        let name = child_text_exec(src, n, &ks1("identifier"));
        if name.len() == 0 {
            ParseResult::empty()
        } else {
            let vis = Self::determine_visibility(n, src);
            let sig = cut_sig_exec(n, &node_text(src, n), &ks2("block", "closure"));
            let body = child_text_exec(src, n, &ks2("block", "closure"));
            callable_exec(n, &name, kind, vis, &sig, &body)
        }
    }

    fn method_item(src: &Vec<char>, n: &SyntaxNode) -> (r: ParseResult)
        ensures
            r@ == gv_method(src@, *n),
    {
        if kind_is(n, "method_declaration") || kind_is(n, "function_definition") {
            Self::callable(src, n, SymbolKind::Method)
        } else {
            ParseResult::empty()
        }
    }

    fn class_body_items(src: &Vec<char>, c: &SyntaxNode) -> (r: ParseResult)
        ensures
            r@ == gv_class_body(src@, *c),
    {
        if kind_is(c, "class_body") {
            fold_nodes(src, &c.children, Self::method_item, Ghost(|m: SyntaxNode| gv_method(src@, m)))
        } else {
            ParseResult::empty()
        }
    }

    fn node_items(src: &Vec<char>, n: &SyntaxNode) -> (r: ParseResult)
        ensures
            r@ == gv_node(src@, *n),
        decreases *n, 0nat,
    {
        if kind_is(n, "method_declaration") || kind_is(n, "function_definition") {
            Self::callable(src, n, SymbolKind::Function)
        } else if kind_is(n, "class_declaration") {
            let name = child_text_exec(src, n, &ks1("identifier"));
            if name.len() == 0 {
                return ParseResult::empty();
            }
            let vis = Self::determine_visibility(n, src);
            let mut out = decl_exec(src, n, &name, SymbolKind::Class, vis);
            let methods = fold_nodes(
                src,
                &n.children,
                Self::class_body_items,
                Ghost(|c: SyntaxNode| gv_class_body(src@, c)),
            );
            out.absorb(methods);
            out
        } else if kind_is(n, "import_declaration") {
            import_exec(Self::extract_import(n, src))
        } else {
            Self::rev_items(src, &n.children, n.children.len())
        }
    }

    fn rev_items(src: &Vec<char>, ch: &Vec<SyntaxNode>, k: usize) -> (r: ParseResult)
        requires
            k <= ch@.len(),
        ensures
            r@ == gv_rev(src@, ch@, k as nat),
        decreases ch@, k,
    {
        if k == 0 {
            return ParseResult::empty();
        }
        let mut out = Self::node_items(src, &ch[k - 1]);
        let rest = Self::rev_items(src, ch, k - 1);
        out.absorb(rest);
        out
    }
}

impl LanguageSupport for GroovyLanguage {
    open spec fn spec_name(&self) -> Seq<char> {
        "groovy"@
    }

    open spec fn spec_extract(&self, source: Seq<char>, root: SyntaxNode) -> ResultView {
        gv_rev(source, root.children@, root.children@.len() as nat)
    }

    fn ts_language(&self) -> tree_sitter::Language {
        grammar()
    }

    fn name(&self) -> (r: &str) {
        "groovy"
    }

    fn extract(&self, source: &str, tree: &SyntaxTree) -> (r: ParseResult) {
        let src = str_chars(source);
        Self::rev_items(&src, &tree.root.children, tree.root.children.len())
    }
}

} // verus!

verus! {

proof fn lemma_gv_node_exports(src: Seq<char>, n: SyntaxNode)
    ensures
        exports_public(gv_node(src, n)),
    decreases n, 0nat,
{
    broadcast use group_exports_public;

    lemma_gv_rev_exports(src, n.children@, n.children@.len() as nat);
    assert forall|c: SyntaxNode| exports_public(#[trigger] gv_class_body(src, c)) by {
        lemma_fold_exports_public(c.children@, |m: SyntaxNode| gv_method(src, m));
    }
    lemma_fold_exports_public(n.children@, |c: SyntaxNode| gv_class_body(src, c));
}

proof fn lemma_gv_rev_exports(src: Seq<char>, ch: Seq<SyntaxNode>, k: nat)
    ensures
        exports_public(gv_rev(src, ch, k)),
    decreases ch, k,
{
    broadcast use group_exports_public;

    if k > 0 && k <= ch.len() {
        lemma_gv_node_exports(src, ch[k - 1]);
        lemma_gv_rev_exports(src, ch, (k - 1) as nat);
    }
}

/// Every export of what Groovy extraction finds names a public symbol of
/// the same kind: nothing is exported that is not declared public.
pub proof fn law_exports_are_public(source: Seq<char>, root: SyntaxNode)
    ensures
        exports_public(GroovyLanguage.spec_extract(source, root)),
{
    broadcast use group_exports_public;

    lemma_gv_rev_exports(source, root.children@, root.children@.len() as nat);
}

} // verus!
