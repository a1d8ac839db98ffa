//! Makefiles: rules (named by their targets), variable assignments and
//! includes. Nothing is exported.
use vstd::prelude::*;
use crate::parser::language::{exports_public, group_exports_public, lemma_fold_exports_public};
use crate::parser::common::{import_exec, import_item, opt_import, plain_decl_exec, plain_decl_item};
use crate::parser::language::{
    fold_items, fold_nodes, make_import, one_name, Import, ImportView, LanguageSupport,
    ParseResult, ResultView, SymbolKind, Visibility,
};
use crate::syntax::{
    child_text, child_text_exec, find_child, first_child_in, first_line_of, kind_is, ks1,
    node_first_line, node_text, text_of, SyntaxNode, SyntaxTree,
};
use crate::text::{
    after_last, after_last_exec, find_char_from, find_char_from_exec, str_chars, strip_prefix,
    strip_prefix_exec, substr, to_string, trim, trim_exec,
};

verus! {

pub struct MakefileLanguage;

/// The grammar of `tree_sitter_make` (`LANGUAGE`).
#[verifier::external_body]
fn grammar() -> tree_sitter::Language {
    tree_sitter_make::LANGUAGE.into()
}

/// A rule's name: its `targets`, trimmed; else what precedes the first `:`
/// of its first line, trimmed.
pub open spec fn mk_target(src: Seq<char>, n: SyntaxNode) -> Seq<char> {
    match first_child_in(n.children@, seq!["targets"@], 0) {
        Some(k) => trim(text_of(src, n.children@[k])),
        None => {
            let fl = first_line_of(src, n);
            let c = find_char_from(fl, ':', 0);
            if c < fl.len() {
                trim(fl.subrange(0, c))
            } else {
                Seq::empty()
            }
        },
    }
}

/// The path after `-include` or `include`, trimmed.
pub open spec fn mk_include_path(t: Seq<char>) -> Seq<char> {
    match strip_prefix(t, "-include"@) {
        Some(r) => trim(r),
        None => match strip_prefix(t, "include"@) {
            Some(r) => trim(r),
            None => Seq::empty(),
        },
    }
}

pub open spec fn mk_include(src: Seq<char>, n: SyntaxNode) -> Option<ImportView> {
    let p = mk_include_path(trim(text_of(src, n)));
    if p.len() == 0 {
        None
    } else {
        Some(ImportView { source: p, names: seq![after_last(p, '/')] })
    }
}

pub open spec fn mk_named(src: Seq<char>, n: SyntaxNode, name: Seq<char>, kind: SymbolKind) -> ResultView {
    if name.len() == 0 {
        ResultView::empty()
    } else {
        plain_decl_item(src, n, name, kind, Visibility::Public)
    }
}

/// What one top-level node contributes.
pub open spec fn mk_item(src: Seq<char>, n: SyntaxNode) -> ResultView {
    let k = n.kind@;
    if k == "rule"@ {
        mk_named(src, n, mk_target(src, n), SymbolKind::Target)
    } else if k == "variable_assignment"@ {
        mk_named(src, n, child_text(src, n, seq!["word"@]), SymbolKind::Variable)
    } else if k == "include_directive"@ {
        import_item(mk_include(src, n))
    } else {
        ResultView::empty()
    }
}

impl MakefileLanguage {
    /// A rule's target name.
    pub fn extract_target_name(n: &SyntaxNode, src: &Vec<char>) -> (r: String)
        ensures
            r@ == mk_target(src@, *n),
    {
        to_string(&Self::target(src, n))
    }

    /// The text of the first `word` child.
    pub fn extract_variable_name(n: &SyntaxNode, src: &Vec<char>) -> (r: String)
        ensures
            r@ == child_text(src@, *n, seq!["word"@]),
    {
        to_string(&child_text_exec(src, n, &ks1("word")))
    }

    /// The path of an include directive, when it names one.
    pub fn extract_include_path(n: &SyntaxNode, src: &Vec<char>) -> (r: Option<String>)
        ensures
            r matches Some(p) ==> p@ == mk_include_path(trim(text_of(src@, *n))) && p@.len() > 0,
            r is None ==> mk_include_path(trim(text_of(src@, *n))).len() == 0,
    {
        let p = Self::include_path(src, n);
        if p.len() == 0 {
            None
        } else {
            Some(to_string(&p))
        }
    }

    fn include_path(src: &Vec<char>, n: &SyntaxNode) -> (r: Vec<char>)
        ensures
            r@ == mk_include_path(trim(text_of(src@, *n))),
    {
        let t = trim_exec(&node_text(src, n));
        match strip_prefix_exec(&t, "-include") {
            Some(r) => trim_exec(&r),
            None => match strip_prefix_exec(&t, "include") {
                Some(r) => trim_exec(&r),
                None => Vec::new(),
            },
        }
    }

    fn target(src: &Vec<char>, n: &SyntaxNode) -> (r: Vec<char>)
        ensures
            r@ == mk_target(src@, *n),
    {
        match find_child(n, &ks1("targets")) {
            Some(k) => trim_exec(&node_text(src, &n.children[k])),
            None => {
                let fl = node_first_line(src, n);
                let c = find_char_from_exec(&fl, ':', 0);
                if c < fl.len() {
                    trim_exec(&substr(&fl, 0, c))
                } else {
                    Vec::new()
                }
            },
        }
    }

    fn included(src: &Vec<char>, n: &SyntaxNode) -> (r: Option<Import>)
        ensures
            opt_import(r) == mk_include(src@, *n),
    {
        let p = Self::include_path(src, n);
        if p.len() == 0 {
            None
        } else {
            let name = after_last_exec(&p, '/');
            Some(make_import(&p, one_name(&name)))
        }
    }

    fn named(src: &Vec<char>, n: &SyntaxNode, name: &Vec<char>, kind: SymbolKind) -> (r: ParseResult)
        ensures
            r@ == mk_named(src@, *n, name@, kind),
    {
        if name.len() == 0 {
            ParseResult::empty()
        } else {
            plain_decl_exec(src, n, name, kind, Visibility::Public)
        }
    }

    fn item(src: &Vec<char>, n: &SyntaxNode) -> (r: ParseResult)
        ensures
            r@ == mk_item(src@, *n),
    {
        if kind_is(n, "rule") {
            let name = Self::target(src, n);
            Self::named(src, n, &name, SymbolKind::Target)
        } else if kind_is(n, "variable_assignment") {
            let name = child_text_exec(src, n, &ks1("word"));
            Self::named(src, n, &name, SymbolKind::Variable)
        } else if kind_is(n, "include_directive") {
            import_exec(Self::included(src, n))
        } else {
            ParseResult::empty()
        }
    }
}

impl LanguageSupport for MakefileLanguage {
    open spec fn spec_name(&self) -> Seq<char> {
        "makefile"@
    }

    open spec fn spec_extract(&self, source: Seq<char>, root: SyntaxNode) -> ResultView {
        fold_items(root.children@, |n: SyntaxNode| mk_item(source, n))
    }

    fn ts_language(&self) -> tree_sitter::Language {
        grammar()
    }

    fn name(&self) -> (r: &str) {
        "makefile"
    }

    fn extract(&self, source: &str, tree: &SyntaxTree) -> (r: ParseResult) {
        let src = str_chars(source);
        fold_nodes(&src, &tree.root.children, Self::item, Ghost(|n: SyntaxNode| mk_item(src@, n)))
    }
}

} // verus!

verus! {

/// Every export of what Makefile extraction finds names a public symbol of
/// the same kind: nothing is exported that is not declared public.
pub proof fn law_exports_are_public(source: Seq<char>, root: SyntaxNode)
    ensures
        exports_public(MakefileLanguage.spec_extract(source, root)),
{
    broadcast use group_exports_public;

    lemma_fold_exports_public(root.children@, |n: SyntaxNode| mk_item(source, n));
}

} // verus!
