//! TOML: tables (and elements of table arrays) and top-level key/value pairs.
//! The library links no TOML grammar, so the extraction works on a tree that
//! a caller parsed, and the language is not registered by default.
use vstd::prelude::*;
use crate::parser::language::{exports_public, group_exports_public, lemma_fold_exports_public};
use crate::parser::common::{plain_decl_exec, plain_decl_item};
use crate::parser::language::{
    fold_items, fold_nodes, ParseResult, ResultView, SymbolKind, Visibility,
};
use crate::syntax::{kind_is, node_text, text_of, SyntaxNode, SyntaxTree};
use crate::text::{contains, contains_exec, str_chars, trim_set, trim_set_exec};

verus! {

pub struct TomlLangLanguage;

/// The first child (from `i` on) whose kind mentions `key`, unquoted.
pub open spec fn toml_key_from(src: Seq<char>, ch: Seq<SyntaxNode>, i: int) -> Seq<char>
    decreases ch.len() - i,
{
    if i < 0 || i >= ch.len() {
        Seq::empty()
    } else if contains(ch[i].kind@, "key"@) {
        trim_set(trim_set(text_of(src, ch[i]), seq!['"']), seq!['\''])
    } else {
        toml_key_from(src, ch, i + 1)
    }
}

pub open spec fn toml_key(src: Seq<char>, n: SyntaxNode) -> Seq<char> {
    toml_key_from(src, n.children@, 0)
}

/// What one top-level node contributes.
pub open spec fn toml_item(src: Seq<char>, n: SyntaxNode) -> ResultView {
    let k = n.kind@;
    let name = toml_key(src, n);
    if (k == "table"@ || k == "table_array_element"@) && name.len() > 0 {
        plain_decl_item(src, n, name, SymbolKind::Table, Visibility::Public)
    } else if k == "pair"@ && name.len() > 0 {
        plain_decl_item(src, n, name, SymbolKind::Key, Visibility::Public)
    } else {
        ResultView::empty()
    }
}

pub open spec fn toml_extract(source: Seq<char>, root: SyntaxNode) -> ResultView {
    fold_items(root.children@, |n: SyntaxNode| toml_item(source, n))
}

impl TomlLangLanguage {
    fn key_of(src: &Vec<char>, n: &SyntaxNode) -> (r: Vec<char>)
        ensures
            r@ == toml_key(src@, *n),
    {
        let dq = ['"'];
        let sq = ['\''];
        assert(dq@ == seq!['"']);
        assert(sq@ == seq!['\'']);
        let mut i: usize = 0;
        while i < n.children.len()
            invariant
                dq@ == seq!['"'],
                sq@ == seq!['\''],
                toml_key_from(src@, n.children@, 0) == toml_key_from(src@, n.children@, i as int),
            decreases n.children@.len() - i,
        {
            let c = &n.children[i];
            if contains_exec(&str_chars(c.kind.as_str()), "key") {
                return trim_set_exec(&trim_set_exec(&node_text(src, c), &dq), &sq);
            }
            i += 1;
        }
        Vec::new()
    }

    fn item(src: &Vec<char>, n: &SyntaxNode) -> (r: ParseResult)
        ensures
            r@ == toml_item(src@, *n),
    {
        let name = Self::key_of(src, n);
        if (kind_is(n, "table") || kind_is(n, "table_array_element")) && name.len() > 0 {
            plain_decl_exec(src, n, &name, SymbolKind::Table, Visibility::Public)
        } else if kind_is(n, "pair") && name.len() > 0 {
            plain_decl_exec(src, n, &name, SymbolKind::Key, Visibility::Public)
        } else {
            ParseResult::empty()
        }
    }
}

impl TomlLangLanguage {
    /// The name under which the language is known.
    pub fn name(&self) -> (r: &str)
        ensures
            r@ == "toml"@,
    {
        "toml"
    }

    /// The symbols, imports and exports of `source`, whose tree is `tree`.
    pub fn extract(&self, source: &str, tree: &SyntaxTree) -> (r: ParseResult)
        ensures
            r@ == toml_extract(source@, tree.root),
    {
        let src = str_chars(source);
        fold_nodes(&src, &tree.root.children, Self::item, Ghost(|n: SyntaxNode| toml_item(src@, n)))
    }
}

} // verus!

verus! {

/// Every export of what TOML extraction finds names a public symbol of
/// the same kind: nothing is exported that is not declared public.
pub proof fn law_exports_are_public(source: Seq<char>, root: SyntaxNode)
    ensures
        exports_public(toml_extract(source, root)),
{
    broadcast use group_exports_public;

    lemma_fold_exports_public(root.children@, |n: SyntaxNode| toml_item(source, n));
}

} // verus!
