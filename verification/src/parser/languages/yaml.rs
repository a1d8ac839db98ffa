//! YAML: the keys of each document's top-level mapping; a key whose value is
//! itself a mapping is a block.
use vstd::prelude::*;
use crate::parser::language::{exports_public, group_exports_public, lemma_fold_exports_public};
use crate::parser::common::{plain_decl_exec, plain_decl_item};
use crate::parser::language::{
    fold_items, fold_nodes, LanguageSupport, ParseResult, ResultView, SymbolKind, Visibility,
};
use crate::syntax::{has_child_kind, find_child, kind_is, ks1, node_text, text_of, SyntaxNode, SyntaxTree};
use crate::text::{str_chars, trim, trim_exec, trim_set, trim_set_exec};

verus! {

pub struct YamlLanguage;

/// The grammar of `tree_sitter_yaml` (`LANGUAGE`).
#[verifier::external_body]
fn grammar() -> tree_sitter::Language {
    tree_sitter_yaml::LANGUAGE.into()
}

/// The first non-empty key (a `flow_node`, from child `i` on), trimmed and
/// unquoted.
pub open spec fn yaml_key_from(src: Seq<char>, ch: Seq<SyntaxNode>, i: int) -> Seq<char>
    decreases ch.len() - i,
{
    if i < 0 || i >= ch.len() {
        Seq::empty()
    } else {
        let t = trim(text_of(src, ch[i]));
        if ch[i].kind@ == "flow_node"@ && t.len() > 0 {
            trim_set(trim_set(t, seq!['"']), seq!['\''])
        } else {
            yaml_key_from(src, ch, i + 1)
        }
    }
}

/// Whether a child after the key (from `i` on, `seen` once the key has
/// passed) is a block node holding a mapping.
pub open spec fn yaml_nested_from(ch: Seq<SyntaxNode>, i: int, seen: bool) -> bool
    decreases ch.len() - i,
{
    if i < 0 || i >= ch.len() {
        false
    } else if seen && ch[i].kind@ == "block_node"@ && has_child_kind(ch[i], "block_mapping"@) {
        true
    } else {
        yaml_nested_from(ch, i + 1, seen || ch[i].kind@ == "flow_node"@)
    }
}

/// A mapping pair as a symbol.
pub open spec fn yaml_pair(src: Seq<char>, c: SyntaxNode, top_level: bool) -> ResultView {
    let name = yaml_key_from(src, c.children@, 0);
    if c.kind@ == "block_mapping_pair"@ && name.len() > 0 {
        let kind = if top_level && yaml_nested_from(c.children@, 0, false) {
            SymbolKind::Block
        } else {
            SymbolKind::Key
        };
        plain_decl_item(src, c, name, kind, Visibility::Public)
    } else {
        ResultView::empty()
    }
}

pub open spec fn yaml_pairs(src: Seq<char>, m: SyntaxNode) -> ResultView {
    fold_items(m.children@, |c: SyntaxNode| yaml_pair(src, c, true))
}

pub open spec fn yaml_inner(src: Seq<char>, i: SyntaxNode) -> ResultView {
    if i.kind@ == "block_mapping"@ {
        yaml_pairs(src, i)
    } else {
        ResultView::empty()
    }
}

/// A document's mapping, directly or inside a block node.
pub open spec fn yaml_doc_child(src: Seq<char>, c: SyntaxNode) -> ResultView {
    if c.kind@ == "block_node"@ {
        fold_items(c.children@, |i: SyntaxNode| yaml_inner(src, i))
    } else if c.kind@ == "block_mapping"@ {
        yaml_pairs(src, c)
    } else {
        ResultView::empty()
    }
}

pub open spec fn yaml_doc(src: Seq<char>, d: SyntaxNode) -> ResultView {
    fold_items(d.children@, |c: SyntaxNode| yaml_doc_child(src, c))
}

impl YamlLanguage {
    fn key_name(src: &Vec<char>, n: &SyntaxNode) -> (r: Vec<char>)
        ensures
            r@ == yaml_key_from(src@, n.children@, 0),
    {
        let dq = ['"'];
        let sq = ['\''];
        assert(dq@ == seq!['"']);
        assert(sq@ == seq!['\'']);
        let mut i: usize = 0;
        while i < n.children.len()
            invariant
                dq@ == seq!['"'],
                sq@ == seq!['\''],
                yaml_key_from(src@, n.children@, 0) == yaml_key_from(src@, n.children@, i as int),
            decreases n.children@.len() - i,
        {
            let c = &n.children[i];
            let t = trim_exec(&node_text(src, c));
            if kind_is(c, "flow_node") && t.len() > 0 {
                return trim_set_exec(&trim_set_exec(&t, &dq), &sq);
            }
            i += 1;
        }
        Vec::new()
    }

    /// Whether the value of a mapping pair is itself a mapping.
    fn has_nested_mapping(n: &SyntaxNode) -> (r: bool)
        ensures
            r == yaml_nested_from(n.children@, 0, false),
    {
        let mut seen = false;
        let mut i: usize = 0;
        while i < n.children.len()
            invariant
                yaml_nested_from(n.children@, 0, false) == yaml_nested_from(n.children@, i as int, seen),
            decreases n.children@.len() - i,
        {
            let c = &n.children[i];
            if seen && kind_is(c, "block_node") && find_child(c, &ks1("block_mapping")).is_some() {
                return true;
            }
            seen = seen || kind_is(c, "flow_node");
            i += 1;
        }
        false
    }

    fn pair(src: &Vec<char>, c: &SyntaxNode, top_level: bool) -> (r: ParseResult)
        ensures
            r@ == yaml_pair(src@, *c, top_level),
    {
        let name = Self::key_name(src, c);
        if kind_is(c, "block_mapping_pair") && name.len() > 0 {
            let kind = if top_level && Self::has_nested_mapping(c) {
                SymbolKind::Block
            } else {
                SymbolKind::Key
            };
            plain_decl_exec(src, c, &name, kind, Visibility::Public)
        } else {
            ParseResult::empty()
        }
    }

    fn top_pair(src: &Vec<char>, c: &SyntaxNode) -> (r: ParseResult)
        ensures
            r@ == yaml_pair(src@, *c, true),
    {
        Self::pair(src, c, true)
    }

    /// The top-level keys of a block mapping.
    fn extract_mapping_pairs(src: &Vec<char>, m: &SyntaxNode) -> (r: ParseResult)
        ensures
            r@ == yaml_pairs(src@, *m),
    {
        fold_nodes(src, &m.children, Self::top_pair, Ghost(|c: SyntaxNode| yaml_pair(src@, c, true)))
    }

    fn inner(src: &Vec<char>, i: &SyntaxNode) -> (r: ParseResult)
        ensures
            r@ == yaml_inner(src@, *i),
    {
        if kind_is(i, "block_mapping") {
            Self::extract_mapping_pairs(src, i)
        } else {
            ParseResult::empty()
        }
    }

    fn doc_child(src: &Vec<char>, c: &SyntaxNode) -> (r: ParseResult)
        ensures
            r@ == yaml_doc_child(src@, *c),
    {
        if kind_is(c, "block_node") {
            fold_nodes(src, &c.children, Self::inner, Ghost(|i: SyntaxNode| yaml_inner(src@, i)))
        } else if kind_is(c, "block_mapping") {
            Self::extract_mapping_pairs(src, c)
        } else {
            ParseResult::empty()
        }
    }

    fn doc(src: &Vec<char>, d: &SyntaxNode) -> (r: ParseResult)
        ensures
            r@ == yaml_doc(src@, *d),
    {
        fold_nodes(src, &d.children, Self::doc_child, Ghost(|c: SyntaxNode| yaml_doc_child(src@, c)))
    }
}

impl LanguageSupport for YamlLanguage {
    open spec fn spec_name(&self) -> Seq<char> {
        "yaml"@
    }

    open spec fn spec_extract(&self, source: Seq<char>, root: SyntaxNode) -> ResultView {
        fold_items(root.children@, |d: SyntaxNode| yaml_doc(source, d))
    }

    fn ts_language(&self) -> tree_sitter::Language {
        grammar()
    }

    fn name(&self) -> (r: &str) {
        "yaml"
    }

    fn extract(&self, source: &str, tree: &SyntaxTree) -> (r: ParseResult) {
        let src = str_chars(source);
        fold_nodes(&src, &tree.root.children, Self::doc, Ghost(|d: SyntaxNode| yaml_doc(src@, d)))
    }
}

} // verus!

verus! {

/// Every export of what YAML extraction finds names a public symbol of
/// the same kind: nothing is exported that is not declared public.
pub proof fn law_exports_are_public(source: Seq<char>, root: SyntaxNode)
    ensures
        exports_public(YamlLanguage.spec_extract(source, root)),
{
    broadcast use group_exports_public;

    assert forall|m: SyntaxNode| exports_public(#[trigger] yaml_pairs(source, m)) by {
        lemma_fold_exports_public(m.children@, |c: SyntaxNode| yaml_pair(source, c, true));
    }
    assert forall|c: SyntaxNode| exports_public(#[trigger] yaml_doc_child(source, c)) by {
        lemma_fold_exports_public(c.children@, |i: SyntaxNode| yaml_inner(source, i));
    }
    assert forall|d: SyntaxNode| exports_public(#[trigger] yaml_doc(source, d)) by {
        lemma_fold_exports_public(d.children@, |c: SyntaxNode| yaml_doc_child(source, c));
    }
    lemma_fold_exports_public(root.children@, |d: SyntaxNode| yaml_doc(source, d));
}

} // verus!
