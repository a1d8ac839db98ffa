//! MATLAB: functions, and classes with the methods found anywhere inside
//! them; everything is public.
use vstd::prelude::*;
use crate::parser::language::{exports_public, group_exports_public};
use crate::parser::common::{callable_exec, callable_item, decl_exec, decl_item};
use crate::parser::language::{LanguageSupport, ParseResult, ResultView, SymbolKind, Visibility};
use crate::syntax::{
    child_text, child_text_exec, first_line_of, kind_is, ks1, node_first_line, node_text,
    text_of, SyntaxNode, SyntaxTree,
};
use crate::text::{join, join_range, lines, lines_exec, str_chars, to_string};

verus! {

pub struct MatlabLanguage;

/// The grammar of `tree_sitter_matlab` (`LANGUAGE`).
#[verifier::external_body]
fn grammar() -> tree_sitter::Language {
    tree_sitter_matlab::LANGUAGE.into()
}

pub open spec fn ml_name(src: Seq<char>, n: SyntaxNode) -> Seq<char> {
    child_text(src, n, seq!["identifier"@])
}

/// A function's body: its lines without the first and the last, joined by
/// newlines; empty for two lines or fewer.
pub open spec fn ml_body(t: Seq<char>) -> Seq<char> {
    let ls = lines(t);
    if ls.len() > 2 {
        join(ls.subrange(1, ls.len() - 1), "\n"@)
    } else {
        Seq::empty()
    }
}

pub open spec fn ml_function(src: Seq<char>, n: SyntaxNode, kind: SymbolKind) -> ResultView {
    callable_item(
        n,
        ml_name(src, n),
        kind,
        Visibility::Public,
        first_line_of(src, n),
        ml_body(text_of(src, n)),
    )
}

/// The methods under a node of a class: a function definition is one;
/// any other node is searched (last child first).
pub open spec fn ml_method_node(src: Seq<char>, n: SyntaxNode) -> ResultView
    decreases n, 0nat,
{
    if n.kind@ == "function_definition"@ {
        ml_function(src, n, SymbolKind::Method)
    } else {
        ml_methods_rev(src, n.children@, n.children@.len() as nat)
    }
}

pub open spec fn ml_methods_rev(src: Seq<char>, ch: Seq<SyntaxNode>, k: nat) -> ResultView
    decreases ch, k,
{
    if k == 0 || k > ch.len() {
        ResultView::empty()
    } else {
        ml_method_node(src, ch[k - 1]).add(ml_methods_rev(src, ch, (k - 1) as nat))
    }
}

/// What one top-level node contributes.
pub open spec fn ml_item(src: Seq<char>, n: SyntaxNode) -> ResultView {
    if n.kind@ == "function_definition"@ {
        ml_function(src, n, SymbolKind::Function)
    } else if n.kind@ == "class_definition"@ {
        decl_item(src, n, ml_name(src, n), SymbolKind::Class, Visibility::Public).add(
            ml_methods_rev(src, n.children@, n.children@.len() as nat),
        )
    } else {
        ResultView::empty()
    }
}

/// The top-level nodes `ch[..k]`, last first.
pub open spec fn ml_rev(src: Seq<char>, ch: Seq<SyntaxNode>, k: nat) -> ResultView
    decreases k,
{
    if k == 0 || k > ch.len() {
        ResultView::empty()
    } else {
        ml_item(src, ch[k - 1]).add(ml_rev(src, ch, (k - 1) as nat))
    }
}

impl MatlabLanguage {
    /// The text of the first identifier child.
    pub fn extract_name(n: &SyntaxNode, src: &Vec<char>) -> (r: String)
        ensures
            r@ == ml_name(src@, *n),
    {
        to_string(&child_text_exec(src, n, &ks1("identifier")))
    }

    fn body_of(t: &Vec<char>) -> (r: Vec<char>)
        ensures
            r@ == ml_body(t@),
    {
        let ls = lines_exec(t);
        if ls.len() > 2 {
            join_range(&ls, 1, ls.len() - 1, "\n")
        } else {
            Vec::new()
        }
    }

    fn function(src: &Vec<char>, n: &SyntaxNode, kind: SymbolKind) -> (r: ParseResult)
        ensures
            r@ == ml_function(src@, *n, kind),
    {
        let name = child_text_exec(src, n, &ks1("identifier"));
        let sig = node_first_line(src, n);
        let body = Self::body_of(&node_text(src, n));
        callable_exec(n, &name, kind, Visibility::Public, &sig, &body)
    }

    fn method_node(src: &Vec<char>, n: &SyntaxNode) -> (r: ParseResult)
        ensures
            r@ == ml_method_node(src@, *n),
        decreases *n, 0nat,
    {
        if kind_is(n, "function_definition") {
            Self::function(src, n, SymbolKind::Method)
        } else {
            Self::methods_rev(src, &n.children, n.children.len())
        }
    }

    fn methods_rev(src: &Vec<char>, ch: &Vec<SyntaxNode>, k: usize) -> (r: ParseResult)
        requires
            k <= ch@.len(),
        ensures
            r@ == ml_methods_rev(src@, ch@, k as nat),
        decreases ch@, k,
    {
        if k == 0 {
            return ParseResult::empty();
        }
        let mut out = Self::method_node(src, &ch[k - 1]);
        let rest = Self::methods_rev(src, ch, k - 1);
        out.absorb(rest);
        out
    }

    fn item(src: &Vec<char>, n: &SyntaxNode) -> (r: ParseResult)
        ensures
            r@ == ml_item(src@, *n),
    {
        if kind_is(n, "function_definition") {
            Self::function(src, n, SymbolKind::Function)
        } else if kind_is(n, "class_definition") {
            let name = child_text_exec(src, n, &ks1("identifier"));
            let mut out = decl_exec(src, n, &name, SymbolKind::Class, Visibility::Public);
            let methods = Self::methods_rev(src, &n.children, n.children.len());
            out.absorb(methods);
            out
        } else {
            ParseResult::empty()
        }
    }
}

impl LanguageSupport for MatlabLanguage {
    open spec fn spec_name(&self) -> Seq<char> {
        "matlab"@
    }

    open spec fn spec_extract(&self, source: Seq<char>, root: SyntaxNode) -> ResultView {
        ml_rev(source, root.children@, root.children@.len() as nat)
    }

    fn ts_language(&self) -> tree_sitter::Language {
        grammar()
    }

    fn name(&self) -> (r: &str) {
        "matlab"
    }

    fn extract(&self, source: &str, tree: &SyntaxTree) -> (r: ParseResult) {
        let src = str_chars(source);
        let ch = &tree.root.children;
        let mut out = ParseResult::empty();
        let mut k: usize = ch.len();
        while k > 0
            invariant
                k <= ch@.len(),
                out@.add(ml_rev(src@, ch@, k as nat)) == ml_rev(src@, ch@, ch@.len() as nat),
            decreases k,
        {
            let part = Self::item(&src, &ch[k - 1]);
            let ghost before = out@;
            out.absorb(part);
            proof {
                assert(before.add(ml_rev(src@, ch@, k as nat)) == before.add(
                    ml_item(src@, ch@[k - 1]),
                ).add(ml_rev(src@, ch@, (k - 1) as nat)));
            }
            k -= 1;
        }
        assert(out@.add(ResultView::empty()) == out@);
        out
    }
}

} // verus!

verus! {

proof fn lemma_ml_method_node_exports(src: Seq<char>, n: SyntaxNode)
    ensures
        exports_public(ml_method_node(src, n)),
    decreases n, 0nat,
{
    broadcast use group_exports_public;

    lemma_ml_methods_rev_exports(src, n.children@, n.children@.len() as nat);
}

proof fn lemma_ml_methods_rev_exports(src: Seq<char>, ch: Seq<SyntaxNode>, k: nat)
    ensures
        exports_public(ml_methods_rev(src, ch, k)),
    decreases ch, k,
{
    broadcast use group_exports_public;

    if k > 0 && k <= ch.len() {
        lemma_ml_method_node_exports(src, ch[k - 1]);
        lemma_ml_methods_rev_exports(src, ch, (k - 1) as nat);
    }
}

proof fn lemma_ml_rev_exports(src: Seq<char>, ch: Seq<SyntaxNode>, k: nat)
    ensures
        exports_public(ml_rev(src, ch, k)),
    decreases k,
{
    broadcast use group_exports_public;

    if k > 0 && k <= ch.len() {
        lemma_ml_methods_rev_exports(src, ch[k - 1].children@, ch[k - 1].children@.len() as nat);
        lemma_ml_rev_exports(src, ch, (k - 1) as nat);
    }
}

/// Every export of what MATLAB extraction finds names a public symbol of
/// the same kind: nothing is exported that is not declared public.
pub proof fn law_exports_are_public(source: Seq<char>, root: SyntaxNode)
    ensures
        exports_public(MatlabLanguage.spec_extract(source, root)),
{
    broadcast use group_exports_public;

    lemma_ml_rev_exports(source, root.children@, root.children@.len() as nat);
}

} // verus!
