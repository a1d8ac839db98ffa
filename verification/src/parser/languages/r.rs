//! R: functions assigned at the top level (`f <- function(x) { ... }`) and
//! packages loaded with `library()` or `require()`.
use vstd::prelude::*;
use crate::parser::language::{exports_public, group_exports_public, lemma_fold_exports_public};
use crate::parser::language::{exports_mirror_symbols, group_exports_mirror, lemma_fold_mirror};
use crate::parser::common::{
    callable_exec, callable_item, import_exec, import_item, opt_import, path_import,
    path_import_exec,
};
use crate::parser::language::{
    fold_items, fold_nodes, Import, ImportView, LanguageSupport, ParseResult, ResultView,
    SymbolKind, Visibility,
};
use crate::syntax::{
    child_text, child_text_exec, find_child, first_child_in, first_line_of, kind_is, ks1,
    node_first_line, node_text, text_of, SyntaxNode, SyntaxTree,
};
use crate::text::{is_lit, str_chars, to_string, trim_set, trim_set_exec};

verus! {

pub struct RLanguage;

/// The grammar of `tree_sitter_r` (`LANGUAGE`).
#[verifier::external_body]
fn grammar() -> tree_sitter::Language {
    tree_sitter_r::LANGUAGE.into()
}

/// The index of the first `function_definition` child.
pub open spec fn r_fn_def(n: SyntaxNode) -> Option<int> {
    first_child_in(n.children@, seq!["function_definition"@], 0)
}

/// The body of the assigned function: its braced expression.
pub open spec fn r_fn_body(src: Seq<char>, n: SyntaxNode) -> Seq<char> {
    match r_fn_def(n) {
        Some(k) => child_text(src, n.children@[k], seq!["braced_expression"@]),
        None => Seq::empty(),
    }
}

/// The called function: the first identifier child with non-empty text.
pub open spec fn r_callee_from(src: Seq<char>, ch: Seq<SyntaxNode>, i: int) -> Seq<char>
    decreases ch.len() - i,
{
    if i < 0 || i >= ch.len() {
        Seq::empty()
    } else if ch[i].kind@ == "identifier"@ && text_of(src, ch[i]).len() > 0 {
        text_of(src, ch[i])
    } else {
        r_callee_from(src, ch, i + 1)
    }
}

/// The last child of kind `k` among `ch[..j]`.
pub open spec fn r_last_kind(ch: Seq<SyntaxNode>, k: Seq<char>, j: int) -> Option<int>
    decreases j,
{
    if j <= 0 || j > ch.len() {
        None
    } else if ch[j - 1].kind@ == k {
        Some(j - 1)
    } else {
        r_last_kind(ch, k, j - 1)
    }
}

pub proof fn lemma_r_last_kind(ch: Seq<SyntaxNode>, k: Seq<char>, j: int)
    ensures
        r_last_kind(ch, k, j) matches Some(i) ==> 0 <= i < j && i < ch.len(),
    decreases j,
{
    if 0 < j <= ch.len() && ch[j - 1].kind@ != k {
        lemma_r_last_kind(ch, k, j - 1);
    }
}

pub open spec fn unquote(t: Seq<char>) -> Seq<char> {
    trim_set(trim_set(t, seq!['"']), seq!['\''])
}

/// The first identifier or string inside an argument (from `i` on) whose
/// unquoted text is not empty.
pub open spec fn r_arg_value_from(src: Seq<char>, ch: Seq<SyntaxNode>, i: int) -> Option<Seq<char>>
    decreases ch.len() - i,
{
    if i < 0 || i >= ch.len() {
        None
    } else {
        let t = unquote(text_of(src, ch[i]));
        if (ch[i].kind@ == "identifier"@ || ch[i].kind@ == "string"@) && t.len() > 0 {
            Some(t)
        } else {
            r_arg_value_from(src, ch, i + 1)
        }
    }
}

/// The package named by the first argument (from `i` on) that names one.
pub open spec fn r_args_from(src: Seq<char>, ch: Seq<SyntaxNode>, i: int) -> Option<Seq<char>>
    decreases ch.len() - i,
{
    if i < 0 || i >= ch.len() {
        None
    } else if ch[i].kind@ == "argument"@ && r_arg_value_from(src, ch[i].children@, 0) is Some {
        r_arg_value_from(src, ch[i].children@, 0)
    } else {
        r_args_from(src, ch, i + 1)
    }
}

/// The package a `library(..)` or `require(..)` call loads.
pub open spec fn r_library(src: Seq<char>, n: SyntaxNode) -> Option<ImportView> {
    let f = r_callee_from(src, n.children@, 0);
    if f != "library"@ && f != "require"@ {
        None
    } else {
        match r_last_kind(n.children@, "arguments"@, n.children@.len() as int) {
            Some(a) => match r_args_from(src, n.children@[a].children@, 0) {
                Some(p) => path_import(p),
                None => None,
            },
            None => None,
        }
    }
}

/// What one top-level node contributes.
pub open spec fn r_item(src: Seq<char>, n: SyntaxNode) -> ResultView {
    if n.kind@ == "binary_operator"@ && r_fn_def(n) is Some {
        callable_item(
            n,
            child_text(src, n, seq!["identifier"@]),
            SymbolKind::Function,
            Visibility::Public,
            first_line_of(src, n),
            r_fn_body(src, n),
        )
    } else if n.kind@ == "call"@ {
        import_item(r_library(src, n))
    } else {
        ResultView::empty()
    }
}

impl RLanguage {
    /// The text of the first identifier child.
    pub fn extract_name(n: &SyntaxNode, src: &Vec<char>) -> (r: String)
        ensures
            r@ == child_text(src@, *n, seq!["identifier"@]),
    {
        to_string(&child_text_exec(src, n, &ks1("identifier")))
    }

    fn callee(src: &Vec<char>, n: &SyntaxNode) -> (r: Vec<char>)
        ensures
            r@ == r_callee_from(src@, n.children@, 0),
    {
        let mut i: usize = 0;
        while i < n.children.len()
            invariant
                r_callee_from(src@, n.children@, 0) == r_callee_from(src@, n.children@, i as int),
            decreases n.children@.len() - i,
        {
            let c = &n.children[i];
            if kind_is(c, "identifier") {
                let t = node_text(src, c);
                if t.len() > 0 {
                    return t;
                }
            }
            i += 1;
        }
        Vec::new()
    }

    fn last_arguments(n: &SyntaxNode) -> (r: Option<usize>)
        ensures
            r matches Some(i) ==> r_last_kind(n.children@, "arguments"@, n.children@.len() as int)
                == Some(i as int) && i < n.children@.len(),
            r is None ==> r_last_kind(n.children@, "arguments"@, n.children@.len() as int) is None,
    {
        let mut j: usize = n.children.len();
        while j > 0
            invariant
                j <= n.children@.len(),
                r_last_kind(n.children@, "arguments"@, n.children@.len() as int) == r_last_kind(
                    n.children@,
                    "arguments"@,
                    j as int,
                ),
            decreases j,
        {
            if kind_is(&n.children[j - 1], "arguments") {
                return Some(j - 1);
            }
            j -= 1;
        }
        None
    }

    fn arg_value(src: &Vec<char>, a: &SyntaxNode) -> (r: Option<Vec<char>>)
        ensures
            r matches Some(v) ==> r_arg_value_from(src@, a.children@, 0) == Some(v@),
            r is None ==> r_arg_value_from(src@, a.children@, 0) is None,
    {
        let dq = ['"'];
        let sq = ['\''];
        assert(dq@ == seq!['"']);
        assert(sq@ == seq!['\'']);
        let mut i: usize = 0;
        while i < a.children.len()
            invariant
                dq@ == seq!['"'],
                sq@ == seq!['\''],
                r_arg_value_from(src@, a.children@, 0) == r_arg_value_from(
                    src@,
                    a.children@,
                    i as int,
                ),
            decreases a.children@.len() - i,
        {
            let c = &a.children[i];
            let t = trim_set_exec(&trim_set_exec(&node_text(src, c), &dq), &sq);
            if (kind_is(c, "identifier") || kind_is(c, "string")) && t.len() > 0 {
                return Some(t);
            }
            i += 1;
        }
        None
    }

    fn args_value(src: &Vec<char>, args: &SyntaxNode) -> (r: Option<Vec<char>>)
        ensures
            r matches Some(v) ==> r_args_from(src@, args.children@, 0) == Some(v@),
            r is None ==> r_args_from(src@, args.children@, 0) is None,
    {
        let mut i: usize = 0;
        while i < args.children.len()
            invariant
                r_args_from(src@, args.children@, 0) == r_args_from(src@, args.children@, i as int),
            decreases args.children@.len() - i,
        {
            let c = &args.children[i];
            if kind_is(c, "argument") {
                match Self::arg_value(src, c) {
                    Some(v) => {
                        return Some(v);
                    },
                    None => {},
                }
            }
            i += 1;
        }
        None
    }

    fn library_import(src: &Vec<char>, n: &SyntaxNode) -> (r: Option<Import>)
        ensures
            opt_import(r) == r_library(src@, *n),
    {
        let f = Self::callee(src, n);
        if !is_lit(&f, "library") && !is_lit(&f, "require") {
            return None;
        }
        match Self::last_arguments(n) {
            Some(a) => match Self::args_value(src, &n.children[a]) {
                Some(p) => path_import_exec(&p),
                None => None,
            },
            None => None,
        }
    }

    fn item(src: &Vec<char>, n: &SyntaxNode) -> (r: ParseResult)
        ensures
            r@ == r_item(src@, *n),
    {
        if kind_is(n, "binary_operator") {
            match find_child(n, &ks1("function_definition")) {
                Some(k) => {
                    let name = child_text_exec(src, n, &ks1("identifier"));
                    let sig = node_first_line(src, n);
                    let body = child_text_exec(src, &n.children[k], &ks1("braced_expression"));
                    return callable_exec(
                        n,
                        &name,
                        SymbolKind::Function,
                        Visibility::Public,
                        &sig,
                        &body,
                    );
                },
                None => {},
            }
        }
        if kind_is(n, "call") {
            import_exec(Self::library_import(src, n))
        } else {
            ParseResult::empty()
        }
    }
}

impl LanguageSupport for RLanguage {
    open spec fn spec_name(&self) -> Seq<char> {
        "r"@
    }

    open spec fn spec_extract(&self, source: Seq<char>, root: SyntaxNode) -> ResultView {
        fold_items(root.children@, |n: SyntaxNode| r_item(source, n))
    }

    fn ts_language(&self) -> tree_sitter::Language {
        grammar()
    }

    fn name(&self) -> (r: &str) {
        "r"
    }

    fn extract(&self, source: &str, tree: &SyntaxTree) -> (r: ParseResult) {
        let src = str_chars(source);
        fold_nodes(&src, &tree.root.children, Self::item, Ghost(|n: SyntaxNode| r_item(src@, n)))
    }
}

} // verus!

verus! {

/// Every export of what R extraction finds names a public symbol of
/// the same kind: nothing is exported that is not declared public.
pub proof fn law_exports_are_public(source: Seq<char>, root: SyntaxNode)
    ensures
        exports_public(RLanguage.spec_extract(source, root)),
{
    broadcast use group_exports_public;

    lemma_fold_exports_public(root.children@, |n: SyntaxNode| r_item(source, n));
}

/// What this extraction exports is exactly its public symbols, each once,
/// with their kinds and in their order.
pub proof fn law_exports_mirror_public_symbols(source: Seq<char>, root: SyntaxNode)
    ensures
        exports_mirror_symbols(RLanguage.spec_extract(source, root)),
{
    broadcast use group_exports_mirror;

    lemma_fold_mirror(root.children@, |n: SyntaxNode| r_item(source, n));
}

} // verus!
