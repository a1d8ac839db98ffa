//! Zig: top-level functions and `const` declarations (structs and
//! constants), with `pub` marking what is exported, and `@import` calls.
use vstd::prelude::*;
use crate::parser::language::{exports_public, group_exports_public, lemma_fold_exports_public};
use crate::parser::language::{exports_mirror_symbols, group_exports_mirror, lemma_fold_mirror};
use crate::parser::common::{
    callable_exec, callable_item, cut_sig_exec, cut_sig_from, decl_exec, decl_item, import_exec, import_item, opt_import,
};
use crate::parser::language::{
    fold_items, fold_nodes, make_import, one_name, vis_of, visibility, ImportView, Import,
    LanguageSupport, ParseResult, ResultView, SymbolKind,
};
use crate::syntax::{
    child_text, child_text_exec, first_line_of, kind_is, ks1, node_first_line, node_text, text_of,
    SyntaxNode, SyntaxTree,
};
use crate::text::{after_last, after_last_exec, contains, contains_exec, find, find_char_from, find_char_from_exec, find_exec, leading_ident, leading_ident_exec, starts_with, starts_with_lit, str_chars, strip_prefix, strip_prefix_exec, substr, to_string, trim_end_matches, trim_end_matches_exec};

verus! {

pub struct ZigLanguage;

/// The grammar of `tree_sitter_zig` (`LANGUAGE`).
#[verifier::external_body]
fn grammar() -> tree_sitter::Language {
    tree_sitter_zig::LANGUAGE.into()
}

/// The identifier after the first `fn ` in `t`, or the empty string.
pub open spec fn zig_fn_name(t: Seq<char>) -> Seq<char> {
    match find(t, "fn "@) {
        Some(p) => leading_ident(t.subrange(p + 3, t.len() as int)),
        None => Seq::empty(),
    }
}

/// The identifier after a leading `pub const ` or `const `, or the empty
/// string.
pub open spec fn zig_const_name(t: Seq<char>) -> Seq<char> {
    match strip_prefix(t, "pub const "@) {
        Some(rest) => leading_ident(rest),
        None => match strip_prefix(t, "const "@) {
            Some(rest) => leading_ident(rest),
            None => Seq::empty(),
        },
    }
}

/// The module of the first `@import("...")` in `t`, imported under its file
/// name without a `.zig` suffix.
pub open spec fn zig_import(t: Seq<char>) -> Option<ImportView> {
    match find(t, "@import("@) {
        Some(i) => {
            let q = find_char_from(t, '"', i + 8);
            if q < t.len() {
                let e = find_char_from(t, '"', q + 1);
                if e < t.len() {
                    let m = t.subrange(q + 1, e);
                    Some(
                        ImportView {
                            source: m,
                            names: seq![trim_end_matches(after_last(m, '/'), ".zig"@)],
                        },
                    )
                } else {
                    None
                }
            } else {
                None
            }
        },
        None => None,
    }
}

pub open spec fn zig_const_kind(t: Seq<char>) -> SymbolKind {
    if contains(t, "struct"@) {
        SymbolKind::Struct
    } else {
        SymbolKind::Constant
    }
}

/// What one top-level node contributes.
pub open spec fn zig_item(src: Seq<char>, n: SyntaxNode) -> ResultView {
    let t = text_of(src, n);
    let vis = vis_of(starts_with(t, "pub "@));
    if n.kind@ == "function_declaration"@ {
        let name = zig_fn_name(t);
        if name.len() == 0 {
            ResultView::empty()
        } else {
            callable_item(
                n,
                name,
                SymbolKind::Function,
                vis,
                cut_sig_from(n, t, seq!["block"@], 0),
                child_text(src, n, seq!["block"@]),
            )
        }
    } else if n.kind@ == "variable_declaration"@ {
        let name = zig_const_name(t);
        import_item(zig_import(t)).add(
            if (starts_with(t, "pub const "@) || starts_with(t, "const "@)) && name.len() > 0 {
                decl_item(src, n, name, zig_const_kind(t), vis)
            } else {
                ResultView::empty()
            },
        )
    } else {
        ResultView::empty()
    }
}

impl ZigLanguage {
    /// The function name in a declaration's text, e.g. `main` in
    /// `pub fn main() void {`.
    pub fn extract_fn_name_from_text(text: &str) -> (r: String)
        ensures
            r@ == zig_fn_name(text@),
    {
        let t = str_chars(text);
        to_string(&Self::fn_name(&t))
    }

    /// The constant name in a declaration's text, e.g. `Foo` in
    /// `pub const Foo = struct {};`.
    pub fn extract_const_name(text: &str) -> (r: String)
        ensures
            r@ == zig_const_name(text@),
    {
        let t = str_chars(text);
        to_string(&Self::const_name(&t))
    }

    /// Whether the declaration's text starts with `pub `.
    pub fn has_pub_keyword(n: &SyntaxNode, src: &Vec<char>) -> (r: bool)
        ensures
            r == starts_with(text_of(src@, *n), "pub "@),
    {
        starts_with_lit(&node_text(src, n), "pub ")
    }

    /// A function's text before its body block, trimmed (its first line
    /// without a body).
    pub fn extract_fn_signature(n: &SyntaxNode, src: &Vec<char>) -> (r: String)
        ensures
            r@ == cut_sig_from(*n, text_of(src@, *n), seq!["block"@], 0),
    {
        to_string(&cut_sig_exec(n, &node_text(src, n), &ks1("block")))
    }

    /// The text of a function's body block, or the empty string.
    pub fn extract_fn_body(n: &SyntaxNode, src: &Vec<char>) -> (r: String)
        ensures
            r@ == child_text(src@, *n, seq!["block"@]),
    {
        to_string(&child_text_exec(src, n, &ks1("block")))
    }

    /// The `@import` of a variable declaration, if it has one.
    pub fn extract_import_from_var(n: &SyntaxNode, src: &Vec<char>) -> (r: Option<Import>)
        ensures
            opt_import(r) == zig_import(text_of(src@, *n)),
    {
        Self::import_of(&node_text(src, n))
    }

    /// The node's first line of text, trimmed.
    pub fn first_line(n: &SyntaxNode, src: &Vec<char>) -> (r: String)
        ensures
            r@ == first_line_of(src@, *n),
    {
        to_string(&node_first_line(src, n))
    }

    fn fn_name(t: &Vec<char>) -> (r: Vec<char>)
        ensures
            r@ == zig_fn_name(t@),
    {
        match find_exec(t, "fn ") {
            Some(p) => {
                proof {
                    reveal_strlit("fn ");
                }
                let len = t.len();
                let rest = substr(t, p + 3, len);
                leading_ident_exec(&rest)
            },
            None => Vec::new(),
        }
    }

    fn const_name(t: &Vec<char>) -> (r: Vec<char>)
        ensures
            r@ == zig_const_name(t@),
    {
        match strip_prefix_exec(t, "pub const ") {
            Some(rest) => leading_ident_exec(&rest),
            None => match strip_prefix_exec(t, "const ") {
                Some(rest) => leading_ident_exec(&rest),
                None => Vec::new(),
            },
        }
    }

    fn import_of(t: &Vec<char>) -> (r: Option<Import>)
        ensures
            opt_import(r) == zig_import(t@),
    {
        match find_exec(t, "@import(") {
            Some(i) => {
                proof {
                    reveal_strlit("@import(");
                }
                let len = t.len();
                let q = find_char_from_exec(t, '"', i + 8);
                if q < len {
                    let e = find_char_from_exec(t, '"', q + 1);
                    if e < len {
                        let m = substr(t, q + 1, e);
                        let file = after_last_exec(&m, '/');
                        let name = trim_end_matches_exec(&file, ".zig");
                        Some(make_import(&m, one_name(&name)))
                    } else {
                        None
                    }
                } else {
                    None
                }
            },
            None => None,
        }
    }

    fn item(src: &Vec<char>, n: &SyntaxNode) -> (r: ParseResult)
        ensures
            r@ == zig_item(src@, *n),
    {
        let t = node_text(src, n);
        let vis = visibility(starts_with_lit(&t, "pub "));
        if kind_is(n, "function_declaration") {
            let name = Self::fn_name(&t);
            if name.len() == 0 {
                ParseResult::empty()
            } else {
                let sig = cut_sig_exec(n, &t, &ks1("block"));
                let body = child_text_exec(src, n, &ks1("block"));
                callable_exec(n, &name, SymbolKind::Function, vis, &sig, &body)
            }
        } else if kind_is(n, "variable_declaration") {
            let name = Self::const_name(&t);
            let mut out = import_exec(Self::import_of(&t));
            if (starts_with_lit(&t, "pub const ") || starts_with_lit(&t, "const ")) && name.len()
                > 0 {
                let kind = if contains_exec(&t, "struct") {
                    SymbolKind::Struct
                } else {
                    SymbolKind::Constant
                };
                let d = decl_exec(src, n, &name, kind, vis);
                out.absorb(d);
            } else {
                out.absorb(ParseResult::empty());
            }
            out
        } else {
            ParseResult::empty()
        }
    }
}

impl LanguageSupport for ZigLanguage {
    open spec fn spec_name(&self) -> Seq<char> {
        "zig"@
    }

    open spec fn spec_extract(&self, source: Seq<char>, root: SyntaxNode) -> ResultView {
        fold_items(root.children@, |n: SyntaxNode| zig_item(source, n))
    }

    fn ts_language(&self) -> tree_sitter::Language {
        grammar()
    }

    fn name(&self) -> (r: &str) {
        "zig"
    }

    fn extract(&self, source: &str, tree: &SyntaxTree) -> (r: ParseResult) {
        let src = str_chars(source);
        fold_nodes(&src, &tree.root.children, Self::item, Ghost(|n: SyntaxNode| zig_item(src@, n)))
    }
}

} // verus!

verus! {

/// Every export of what Zig extraction finds names a public symbol of
/// the same kind: nothing is exported that is not declared public.
pub proof fn law_exports_are_public(source: Seq<char>, root: SyntaxNode)
    ensures
        exports_public(ZigLanguage.spec_extract(source, root)),
{
    broadcast use group_exports_public;

    lemma_fold_exports_public(root.children@, |n: SyntaxNode| zig_item(source, n));
}

/// What this extraction exports is exactly its public symbols, each once,
/// with their kinds and in their order.
pub proof fn law_exports_mirror_public_symbols(source: Seq<char>, root: SyntaxNode)
    ensures
        exports_mirror_symbols(ZigLanguage.spec_extract(source, root)),
{
    broadcast use group_exports_mirror;

    lemma_fold_mirror(root.children@, |n: SyntaxNode| zig_item(source, n));
}

} // verus!
