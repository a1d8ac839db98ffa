//! Svelte components: script and style blocks and top-level elements. The
//! library links no Svelte grammar, so the extraction works on a tree that a
//! caller parsed, and the language is not registered by default.
use vstd::prelude::*;
use crate::parser::language::{exports_public, group_exports_public, lemma_fold_exports_public};
use crate::parser::common::{or_default, or_default_exec, plain_decl_exec, plain_decl_item};
use crate::parser::language::{
    fold_items, fold_nodes, ParseResult, ResultView, SymbolKind, Visibility,
};
use crate::syntax::{
    child_text, find_child, first_child_in, kind_is, ks1, node_text, text_of, SyntaxNode,
    SyntaxTree,
};
use crate::text::str_chars;

verus! {

pub struct SvelteLanguage;

/// An element's tag name, scanning its children from `i`: the `tag_name`
/// of a start or self-closing tag, or a `tag_name` child.
pub open spec fn svelte_tag_from(src: Seq<char>, ch: Seq<SyntaxNode>, i: int) -> Seq<char>
    decreases ch.len() - i,
{
    if i < 0 || i >= ch.len() {
        Seq::empty()
    } else {
        let c = ch[i];
        if (c.kind@ == "start_tag"@ || c.kind@ == "self_closing_tag"@) && first_child_in(
            c.children@,
            seq!["tag_name"@],
            0,
        ) is Some {
            child_text(src, c, seq!["tag_name"@])
        } else if c.kind@ == "tag_name"@ {
            text_of(src, c)
        } else {
            svelte_tag_from(src, ch, i + 1)
        }
    }
}

/// What one top-level node contributes.
pub open spec fn svelte_item(src: Seq<char>, n: SyntaxNode) -> ResultView {
    let k = n.kind@;
    if k == "script_element"@ {
        plain_decl_item(src, n, "script"@, SymbolKind::Block, Visibility::Public)
    } else if k == "style_element"@ {
        plain_decl_item(src, n, "style"@, SymbolKind::Block, Visibility::Public)
    } else if k == "element"@ {
        plain_decl_item(
            src,
            n,
            or_default(svelte_tag_from(src, n.children@, 0), "element"@),
            SymbolKind::Section,
            Visibility::Public,
        )
    } else {
        ResultView::empty()
    }
}

pub open spec fn svelte_extract(source: Seq<char>, root: SyntaxNode) -> ResultView {
    fold_items(root.children@, |n: SyntaxNode| svelte_item(source, n))
}

impl SvelteLanguage {
    fn tag_of(src: &Vec<char>, n: &SyntaxNode) -> (r: Vec<char>)
        ensures
            r@ == svelte_tag_from(src@, n.children@, 0),
    {
        let mut i: usize = 0;
        while i < n.children.len()
            invariant
                svelte_tag_from(src@, n.children@, 0) == svelte_tag_from(src@, n.children@, i as int),
            decreases n.children@.len() - i,
        {
            let c = &n.children[i];
            if kind_is(c, "start_tag") || kind_is(c, "self_closing_tag") {
                match find_child(c, &ks1("tag_name")) {
                    Some(j) => {
                        return node_text(src, &c.children[j]);
                    },
                    None => {},
                }
            }
            if kind_is(c, "tag_name") {
                return node_text(src, c);
            }
            i += 1;
        }
        Vec::new()
    }

    fn item(src: &Vec<char>, n: &SyntaxNode) -> (r: ParseResult)
        ensures
            r@ == svelte_item(src@, *n),
    {
        if kind_is(n, "script_element") {
            plain_decl_exec(src, n, &str_chars("script"), SymbolKind::Block, Visibility::Public)
        } else if kind_is(n, "style_element") {
            plain_decl_exec(src, n, &str_chars("style"), SymbolKind::Block, Visibility::Public)
        } else if kind_is(n, "element") {
            let name = or_default_exec(Self::tag_of(src, n), "element");
            plain_decl_exec(src, n, &name, SymbolKind::Section, Visibility::Public)
        } else {
            ParseResult::empty()
        }
    }
}

impl SvelteLanguage {
    /// The name under which the language is known.
    pub fn name(&self) -> (r: &str)
        ensures
            r@ == "svelte"@,
    {
        "svelte"
    }

    /// The symbols, imports and exports of `source`, whose tree is `tree`.
    pub fn extract(&self, source: &str, tree: &SyntaxTree) -> (r: ParseResult)
        ensures
            r@ == svelte_extract(source@, tree.root),
    {
        let src = str_chars(source);
        fold_nodes(&src, &tree.root.children, Self::item, Ghost(|n: SyntaxNode| svelte_item(src@, n)))
    }
}

} // verus!

verus! {

/// Every export of what Svelte extraction finds names a public symbol of
/// the same kind: nothing is exported that is not declared public.
pub proof fn law_exports_are_public(source: Seq<char>, root: SyntaxNode)
    ensures
        exports_public(svelte_extract(source, root)),
{
    broadcast use group_exports_public;

    lemma_fold_exports_public(root.children@, |n: SyntaxNode| svelte_item(source, n));
}

} // verus!
