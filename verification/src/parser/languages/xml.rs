//! XML: elements, named by their tags, down to a fixed nesting depth.
use vstd::prelude::*;
use crate::parser::language::{exports_public, group_exports_public};
use crate::parser::common::{plain_decl_exec, plain_decl_item};
use crate::parser::language::{LanguageSupport, ParseResult, ResultView, SymbolKind, Visibility};
use crate::syntax::{child_text, find_child, first_child_in, kind_is, ks2, node_text, text_of, SyntaxNode, SyntaxTree};
use crate::text::{str_chars};

verus! {

pub struct XmlLanguage;

/// The grammar of `tree_sitter_xml` (`LANGUAGE_XML`).
#[verifier::external_body]
fn grammar() -> tree_sitter::Language {
    tree_sitter_xml::LANGUAGE_XML.into()
}

pub open spec fn is_xml_tag(k: Seq<char>) -> bool {
    k == "STag"@ || k == "EmptyElemTag"@ || k == "start_tag"@ || k == "self_closing_tag"@
}

/// An element's tag name, scanning its children from `i`: a name inside a
/// start or empty tag, or a name child.
pub open spec fn xml_tag_from(src: Seq<char>, ch: Seq<SyntaxNode>, i: int) -> Seq<char>
    decreases ch.len() - i,
{
    if i < 0 || i >= ch.len() {
        Seq::empty()
    } else {
        let c = ch[i];
        if is_xml_tag(c.kind@) && first_child_in(c.children@, seq!["Name"@, "tag_name"@], 0)
            is Some {
            child_text(src, c, seq!["Name"@, "tag_name"@])
        } else if !is_xml_tag(c.kind@) && (c.kind@ == "Name"@ || c.kind@ == "tag_name"@) {
            text_of(src, c)
        } else {
            xml_tag_from(src, ch, i + 1)
        }
    }
}

pub open spec fn xml_tag(src: Seq<char>, n: SyntaxNode) -> Seq<char> {
    xml_tag_from(src, n.children@, 0)
}

/// The elements at and below `n`, depth-first in document order, counting
/// the depth `d` of element nesting; nothing deeper than `max`.
pub open spec fn xml_elements(src: Seq<char>, n: SyntaxNode, max: nat, d: nat) -> ResultView
    decreases n, 2nat,
{
    if d > max {
        ResultView::empty()
    } else if n.kind@ == "element"@ {
        let name = xml_tag(src, n);
        let own = if name.len() == 0 {
            ResultView::empty()
        } else {
            plain_decl_item(src, n, name, SymbolKind::Element, Visibility::Public)
        };
        own.add(xml_element_children(src, n.children@, n.children@.len() as nat, max, d))
    } else {
        xml_all(src, n.children@, n.children@.len() as nat, max, d)
    }
}

/// The children `ch[..k]` of an element, one level deeper; a `content`
/// child is looked through.
pub open spec fn xml_element_children(
    src: Seq<char>,
    ch: Seq<SyntaxNode>,
    k: nat,
    max: nat,
    d: nat,
) -> ResultView
    decreases ch, k,
{
    if k == 0 || k > ch.len() {
        ResultView::empty()
    } else {
        xml_element_children(src, ch, (k - 1) as nat, max, d).add(
            xml_element_child(src, ch[k - 1], max, d),
        )
    }
}

pub open spec fn xml_element_child(src: Seq<char>, c: SyntaxNode, max: nat, d: nat) -> ResultView
    decreases c, 3nat,
{
    if c.kind@ == "content"@ {
        xml_all(src, c.children@, c.children@.len() as nat, max, d + 1)
    } else {
        xml_elements(src, c, max, d + 1)
    }
}

/// The nodes `ch[..k]` at depth `d`, in order.
pub open spec fn xml_all(src: Seq<char>, ch: Seq<SyntaxNode>, k: nat, max: nat, d: nat) -> ResultView
    decreases ch, k,
{
    if k == 0 || k > ch.len() {
        ResultView::empty()
    } else {
        xml_all(src, ch, (k - 1) as nat, max, d).add(xml_elements(src, ch[k - 1], max, d))
    }
}

impl XmlLanguage {

    fn tag_of(src: &Vec<char>, n: &SyntaxNode) -> (r: Vec<char>)
        ensures
            r@ == xml_tag(src@, *n),
    {
        let mut i: usize = 0;
        while i < n.children.len()
            invariant
                xml_tag_from(src@, n.children@, 0) == xml_tag_from(src@, n.children@, i as int),
            decreases n.children@.len() - i,
        {
            let c = &n.children[i];
            let tag = kind_is(c, "STag") || kind_is(c, "EmptyElemTag") || kind_is(c, "start_tag")
                || kind_is(c, "self_closing_tag");
            if tag {
                match find_child(c, &ks2("Name", "tag_name")) {
                    Some(j) => {
                        return node_text(src, &c.children[j]);
                    },
                    None => {},
                }
            } else if kind_is(c, "Name") || kind_is(c, "tag_name") {
                return node_text(src, c);
            }
            i += 1;
        }
        Vec::new()
    }

    /// The elements at and below `n` (see `xml_elements`).
    fn extract_elements(src: &Vec<char>, n: &SyntaxNode, max_depth: usize, depth: usize) -> (r:
        ParseResult)
        requires
            max_depth < usize::MAX,
        ensures
            r@ == xml_elements(src@, *n, max_depth as nat, depth as nat),
        decreases *n, 2nat,
    {
        if depth > max_depth {
            return ParseResult::empty();
        }
        if kind_is(n, "element") {
            let name = Self::tag_of(src, n);
            let mut out = if name.len() == 0 {
                ParseResult::empty()
            } else {
                plain_decl_exec(src, n, &name, SymbolKind::Element, Visibility::Public)
            };
            let ghost own = out@;
            let mut i: usize = 0;
            while i < n.children.len()
                invariant
                    i <= n.children@.len(),
                    max_depth < usize::MAX,
                    depth <= max_depth,
                    out@ == own.add(
                        xml_element_children(src@, n.children@, i as nat, max_depth as nat, depth as nat),
                    ),
                decreases n.children@.len() - i,
            {
                let part = Self::element_child(src, &n.children[i], max_depth, depth);
                out.absorb(part);
                i += 1;
            }
            out
        } else {
            Self::extract_all(src, &n.children, max_depth, depth)
        }
    }

    fn element_child(src: &Vec<char>, c: &SyntaxNode, max_depth: usize, depth: usize) -> (r:
        ParseResult)
        requires
            max_depth < usize::MAX,
            depth <= max_depth,
        ensures
            r@ == xml_element_child(src@, *c, max_depth as nat, depth as nat),
        decreases *c, 3nat,
    {
        if kind_is(c, "content") {
            Self::extract_all(src, &c.children, max_depth, depth + 1)
        } else {
            Self::extract_elements(src, c, max_depth, depth + 1)
        }
    }

    fn extract_all(src: &Vec<char>, ch: &Vec<SyntaxNode>, max_depth: usize, depth: usize) -> (r:
        ParseResult)
        requires
            max_depth < usize::MAX,
        ensures
            r@ == xml_all(src@, ch@, ch@.len() as nat, max_depth as nat, depth as nat),
        decreases ch@, 0nat,
    {
        let mut out = ParseResult::empty();
        let mut i: usize = 0;
        while i < ch.len()
            invariant
                i <= ch@.len(),
                max_depth < usize::MAX,
                out@ == xml_all(src@, ch@, i as nat, max_depth as nat, depth as nat),
            decreases ch@.len() - i,
        {
            let part = Self::extract_elements(src, &ch[i], max_depth, depth);
            out.absorb(part);
            i += 1;
        }
        out
    }
}

impl LanguageSupport for XmlLanguage {
    open spec fn spec_name(&self) -> Seq<char> {
        "xml"@
    }

    open spec fn spec_extract(&self, source: Seq<char>, root: SyntaxNode) -> ResultView {
        xml_elements(source, root, 2, 0)
    }

    fn ts_language(&self) -> tree_sitter::Language {
        grammar()
    }

    fn name(&self) -> (r: &str) {
        "xml"
    }

    fn extract(&self, source: &str, tree: &SyntaxTree) -> (r: ParseResult) {
        let src = str_chars(source);
        Self::extract_elements(&src, &tree.root, 2, 0)
    }
}

} // verus!

verus! {

proof fn lemma_xml_elements_exports(src: Seq<char>, n: SyntaxNode, max: nat, d: nat)
    ensures
        exports_public(xml_elements(src, n, max, d)),
    decreases n, 2nat,
{
    broadcast use group_exports_public;

    lemma_xml_element_children_exports(src, n.children@, n.children@.len() as nat, max, d);
    lemma_xml_all_exports(src, n.children@, n.children@.len() as nat, max, d);
}

proof fn lemma_xml_element_children_exports(
    src: Seq<char>,
    ch: Seq<SyntaxNode>,
    k: nat,
    max: nat,
    d: nat,
)
    ensures
        exports_public(xml_element_children(src, ch, k, max, d)),
    decreases ch, k,
{
    broadcast use group_exports_public;

    if k > 0 && k <= ch.len() {
        lemma_xml_element_children_exports(src, ch, (k - 1) as nat, max, d);
        lemma_xml_element_child_exports(src, ch[k - 1], max, d);
    }
}

proof fn lemma_xml_element_child_exports(src: Seq<char>, c: SyntaxNode, max: nat, d: nat)
    ensures
        exports_public(xml_element_child(src, c, max, d)),
    decreases c, 3nat,
{
    broadcast use group_exports_public;

    lemma_xml_all_exports(src, c.children@, c.children@.len() as nat, max, d + 1);
    lemma_xml_elements_exports(src, c, max, d + 1);
}

proof fn lemma_xml_all_exports(src: Seq<char>, ch: Seq<SyntaxNode>, k: nat, max: nat, d: nat)
    ensures
        exports_public(xml_all(src, ch, k, max, d)),
    decreases ch, k,
{
    broadcast use group_exports_public;

    if k > 0 && k <= ch.len() {
        lemma_xml_all_exports(src, ch, (k - 1) as nat, max, d);
        lemma_xml_elements_exports(src, ch[k - 1], max, d);
    }
}

/// Every export of what XML extraction finds names a public symbol of
/// the same kind: nothing is exported that is not declared public.
pub proof fn law_exports_are_public(source: Seq<char>, root: SyntaxNode)
    ensures
        exports_public(XmlLanguage.spec_extract(source, root)),
{
    broadcast use group_exports_public;

    lemma_xml_elements_exports(source, root, 2, 0);
}

} // verus!
