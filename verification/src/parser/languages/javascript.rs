//! JavaScript: functions, classes, imports; declarations inside `export`
//! statements are public.
use vstd::prelude::*;
use crate::parser::language::{exports_public, group_exports_public};
use crate::parser::common::{
    callable_exec, callable_item, decl_exec, decl_item, import_exec, import_item,
    sig_or_first_line, sig_or_first_line_exec,
};
use crate::parser::language::{vis_of, visibility, LanguageSupport, ParseResult, ResultView, SymbolKind};
use crate::parser::languages::typescript::{ts_import, TypeScriptLanguage};
use crate::syntax::{child_text, child_text_exec, kind_is, ks1, ks2, SyntaxNode, SyntaxTree};
use crate::text::str_chars;

verus! {

pub struct JavaScriptLanguage;

/// The grammar of `tree_sitter_javascript` (`LANGUAGE`).
#[verifier::external_body]
fn grammar() -> tree_sitter::Language {
    tree_sitter_javascript::LANGUAGE.into()
}

pub open spec fn js_name(src: Seq<char>, n: SyntaxNode) -> Seq<char> {
    child_text(src, n, seq!["identifier"@, "property_identifier"@])
}

/// What a node contributes; nodes inside `export_statement`s are public and
/// are visited last child first, as the traversal stack pops them.
pub open spec fn js_node(src: Seq<char>, n: SyntaxNode, in_export: bool) -> ResultView
    decreases n, 0nat,
{
    let k = n.kind@;
    if k == "import_statement"@ {
        import_item(ts_import(src, n))
    } else if k == "export_statement"@ {
        js_rev(src, n.children@, n.children@.len() as nat, true)
    } else if k == "function_declaration"@ {
        callable_item(
            n,
            js_name(src, n),
            SymbolKind::Function,
            vis_of(in_export),
            sig_or_first_line(src, n, seq!["statement_block"@]),
            child_text(src, n, seq!["statement_block"@]),
        )
    } else if k == "class_declaration"@ {
        decl_item(src, n, js_name(src, n), SymbolKind::Class, vis_of(in_export))
    } else {
        ResultView::empty()
    }
}

/// The contributions of `ch[k-1]`, `ch[k-2]`, ..., `ch[0]`, in that order.
pub open spec fn js_rev(src: Seq<char>, ch: Seq<SyntaxNode>, k: nat, in_export: bool) -> ResultView
    decreases ch, k,
{
    if k == 0 || k > ch.len() {
        ResultView::empty()
    } else {
        js_node(src, ch[k - 1], in_export).add(js_rev(src, ch, (k - 1) as nat, in_export))
    }
}

impl JavaScriptLanguage {
    fn extract_name(src: &Vec<char>, n: &SyntaxNode) -> (r: Vec<char>)
        ensures
            r@ == js_name(src@, *n),
    {
        child_text_exec(src, n, &ks2("identifier", "property_identifier"))
    }

    fn node_items(src: &Vec<char>, n: &SyntaxNode, in_export: bool) -> (r: ParseResult)
        ensures
            r@ == js_node(src@, *n, in_export),
        decreases *n, 0nat,
    {
        if kind_is(n, "import_statement") {
            import_exec(TypeScriptLanguage::extract_import(src, n))
        } else if kind_is(n, "export_statement") {
            Self::rev_items(src, &n.children, n.children.len(), true)
        } else if kind_is(n, "function_declaration") {
            let name = Self::extract_name(src, n);
            let sig = sig_or_first_line_exec(src, n, &ks1("statement_block"));
            let body = child_text_exec(src, n, &ks1("statement_block"));
            callable_exec(n, &name, SymbolKind::Function, visibility(in_export), &sig, &body)
        } else if kind_is(n, "class_declaration") {
            let name = Self::extract_name(src, n);
            decl_exec(src, n, &name, SymbolKind::Class, visibility(in_export))
        } else {
            ParseResult::empty()
        }
    }

    fn rev_items(src: &Vec<char>, ch: &Vec<SyntaxNode>, k: usize, in_export: bool) -> (r: ParseResult)
        requires
            k <= ch@.len(),
        ensures
            r@ == js_rev(src@, ch@, k as nat, in_export),
        decreases ch@, k,
    {
        if k == 0 {
            return ParseResult::empty();
        }
        let mut out = Self::node_items(src, &ch[k - 1], in_export);
        let rest = Self::rev_items(src, ch, k - 1, in_export);
        out.absorb(rest);
        out
    }
}

impl LanguageSupport for JavaScriptLanguage {
    open spec fn spec_name(&self) -> Seq<char> {
        "javascript"@
    }

    open spec fn spec_extract(&self, source: Seq<char>, root: SyntaxNode) -> ResultView {
        js_rev(source, root.children@, root.children@.len() as nat, false)
    }

    fn ts_language(&self) -> tree_sitter::Language {
        grammar()
    }

    fn name(&self) -> (r: &str) {
        "javascript"
    }

    fn extract(&self, source: &str, tree: &SyntaxTree) -> (r: ParseResult) {
        let src = str_chars(source);
        Self::rev_items(&src, &tree.root.children, tree.root.children.len(), false)
    }
}

} // verus!

verus! {

proof fn lemma_js_node_exports(src: Seq<char>, n: SyntaxNode, in_export: bool)
    ensures
        exports_public(js_node(src, n, in_export)),
    decreases n, 0nat,
{
    broadcast use group_exports_public;

    lemma_js_rev_exports(src, n.children@, n.children@.len() as nat, true);
}

proof fn lemma_js_rev_exports(src: Seq<char>, ch: Seq<SyntaxNode>, k: nat, in_export: bool)
    ensures
        exports_public(js_rev(src, ch, k, in_export)),
    decreases ch, k,
{
    broadcast use group_exports_public;

    if k > 0 && k <= ch.len() {
        lemma_js_node_exports(src, ch[k - 1], in_export);
        lemma_js_rev_exports(src, ch, (k - 1) as nat, in_export);
    }
}

/// Every export of what JavaScript extraction finds names a public symbol of
/// the same kind: nothing is exported that is not declared public.
pub proof fn law_exports_are_public(source: Seq<char>, root: SyntaxNode)
    ensures
        exports_public(JavaScriptLanguage.spec_extract(source, root)),
{
    broadcast use group_exports_public;

    lemma_js_rev_exports(source, root.children@, root.children@.len() as nat, false);
}

} // verus!
