//! Parsing through tree-sitter, and the copy of its tree into `SyntaxTree`.
//!
//! The tree-sitter types are opaque values here: the wrappers below make one
//! call each and promise no more about what they return than tree-sitter
//! documents. What the library does with the answers is proved: the nodes are
//! read in preorder, byte offsets are turned into character offsets, and the
//! tree is rebuilt from the preorder sequence and the depths.
use vstd::prelude::*;
use crate::syntax::{SyntaxNode, SyntaxTree};
use crate::text::str_chars;

verus! {

#[verifier::external_type_specification]
#[verifier::external_body]
pub struct ExTsLanguage(tree_sitter::Language);

#[verifier::external_type_specification]
#[verifier::external_body]
pub struct ExTsLanguageError(tree_sitter::LanguageError);

#[verifier::external_type_specification]
#[verifier::external_body]
pub struct ExTsParser(tree_sitter::Parser);

#[verifier::external_type_specification]
#[verifier::external_body]
pub struct ExTsTree(tree_sitter::Tree);

#[verifier::external_type_specification]
#[verifier::external_body]
pub struct ExTsTreeCursor<'a>(tree_sitter::TreeCursor<'a>);

#[verifier::external_type_specification]
#[verifier::external_body]
pub struct ExTsNode<'a>(tree_sitter::Node<'a>);

/// `tree_sitter::Parser::new`.
#[verifier::external_body]
fn ts_parser_new() -> tree_sitter::Parser {
    tree_sitter::Parser::new()
}

/// `tree_sitter::Parser::set_language`: fails when the grammar was generated
/// for an ABI version that this tree-sitter does not support.
#[verifier::external_body]
fn ts_set_language(p: &mut tree_sitter::Parser, lang: &tree_sitter::Language) -> Result<
    (),
    tree_sitter::LanguageError,
> {
    p.set_language(lang)
}

/// `tree_sitter::Parser::parse` on a whole text with no earlier tree; `None`
/// when no language is set or parsing was cancelled.
#[verifier::external_body]
fn ts_parse(p: &mut tree_sitter::Parser, text: &str) -> Option<tree_sitter::Tree> {
    p.parse(text, None)
}

/// `tree_sitter::Tree::root_node`.
#[verifier::external_body]
fn ts_root<'t>(t: &'t tree_sitter::Tree) -> tree_sitter::Node<'t> {
    t.root_node()
}

/// `tree_sitter::Node::descendant_count`: the number of nodes in the subtree,
/// the node itself included, so at least one. Which number it is depends on
/// the node, an opaque value, and is left unsaid.
#[verifier::external_body]
fn ts_descendant_count(n: &tree_sitter::Node) -> (r: usize)
    ensures
        r >= 1,
{
    n.descendant_count()
}

/// `tree_sitter::Tree::walk`: a cursor on the root node.
#[verifier::external_body]
fn ts_walk<'t>(t: &'t tree_sitter::Tree) -> tree_sitter::TreeCursor<'t> {
    t.walk()
}

/// `tree_sitter::TreeCursor::goto_descendant`: moves to the `i`-th node of
/// the subtree in preorder.
#[verifier::external_body]
fn ts_goto_descendant(c: &mut tree_sitter::TreeCursor, i: usize) {
    c.goto_descendant(i)
}

/// `tree_sitter::TreeCursor::node`.
#[verifier::external_body]
fn ts_cursor_node<'t>(c: &tree_sitter::TreeCursor<'t>) -> tree_sitter::Node<'t> {
    c.node()
}

/// `tree_sitter::TreeCursor::field_name`, as an owned string.
#[verifier::external_body]
fn ts_cursor_field_name(c: &tree_sitter::TreeCursor) -> Option<String> {
    c.field_name().map(|f| f.to_string())
}

/// `tree_sitter::TreeCursor::depth`.
#[verifier::external_body]
fn ts_cursor_depth(c: &tree_sitter::TreeCursor) -> u32 {
    c.depth()
}

/// `tree_sitter::Node::kind`, as an owned string.
#[verifier::external_body]
fn ts_node_kind(n: &tree_sitter::Node) -> String {
    n.kind().to_string()
}

/// `tree_sitter::Node::start_byte`.
#[verifier::external_body]
fn ts_node_start_byte(n: &tree_sitter::Node) -> usize {
    n.start_byte()
}

/// `tree_sitter::Node::end_byte`.
#[verifier::external_body]
fn ts_node_end_byte(n: &tree_sitter::Node) -> usize {
    n.end_byte()
}

/// The row of `tree_sitter::Node::start_position`.
#[verifier::external_body]
fn ts_node_start_row(n: &tree_sitter::Node) -> usize {
    n.start_position().row
}

/// The row of `tree_sitter::Node::end_position`.
#[verifier::external_body]
fn ts_node_end_row(n: &tree_sitter::Node) -> usize {
    n.end_position().row
}

/// One node as tree-sitter reports it, in preorder with its depth.
pub struct NodeRecord {
    pub kind: String,
    pub field: Option<String>,
    pub depth: u32,
    pub start_byte: usize,
    pub end_byte: usize,
    pub start_row: usize,
    pub end_row: usize,
}

/// Reads every node of the tree, in preorder: one record for each of the
/// root's descendants, the root included, so there is at least one. What each
/// record holds is what tree-sitter reports of an opaque tree.
fn read_records(tree: &tree_sitter::Tree) -> (r: Vec<NodeRecord>)
    ensures
        r@.len() >= 1,
{
    let root = ts_root(tree);
    let count = ts_descendant_count(&root);
    let mut cursor = ts_walk(tree);
    let mut out: Vec<NodeRecord> = Vec::new();
    for i in 0..count
        invariant
            out@.len() == i,
    {
        ts_goto_descendant(&mut cursor, i);
        let node = ts_cursor_node(&cursor);
        let rec = NodeRecord {
            kind: ts_node_kind(&node),
            field: ts_cursor_field_name(&cursor),
            depth: ts_cursor_depth(&cursor),
            start_byte: ts_node_start_byte(&node),
            end_byte: ts_node_end_byte(&node),
            start_row: ts_node_start_row(&node),
            end_row: ts_node_end_row(&node),
        };
        out.push(rec);
    }
    out
}

// ---------------------------------------------------------------------------
// Byte offsets and character offsets
// ---------------------------------------------------------------------------

/// Number of bytes of the UTF-8 encoding of `c` (`char::len_utf8`).
pub open spec fn utf8_width(c: char) -> nat {
    if (c as u32) < 0x80 {
        1
    } else if (c as u32) < 0x800 {
        2
    } else if (c as u32) < 0x10000 {
        3
    } else {
        4
    }
}

pub fn len_utf8(c: char) -> (r: usize)
    ensures
        r == utf8_width(c),
{
    let u = c as u32;
    if u < 0x80 {
        1
    } else if u < 0x800 {
        2
    } else if u < 0x10000 {
        3
    } else {
        4
    }
}

/// Byte offset of character `i` in the UTF-8 encoding of `s`.
pub open spec fn byte_offset(s: Seq<char>, i: int) -> int
    decreases i,
{
    if i <= 0 || i > s.len() {
        0
    } else {
        byte_offset(s, i - 1) + utf8_width(s[i - 1])
    }
}

/// The characters of a source text and the byte offset of each of them (one
/// more entry for the end of the text).
pub struct SourceMap {
    pub chars: Vec<char>,
    pub offsets: Vec<usize>,
}

/// Every character takes at least one byte, so offsets grow strictly.
pub proof fn lemma_byte_offset_increases(s: Seq<char>, i: int, j: int)
    requires
        0 <= i < j <= s.len(),
    ensures
        byte_offset(s, i) < byte_offset(s, j),
    decreases j - i,
{
    if i < j - 1 {
        lemma_byte_offset_increases(s, i, j - 1);
    }
}

/// Byte `b` is where some character of `s` starts, or the end of `s`.
pub open spec fn on_boundary(s: Seq<char>, b: int) -> bool {
    exists|k: int| 0 <= k <= s.len() && #[trigger] byte_offset(s, k) == b
}

impl SourceMap {
    pub open spec fn wf(&self) -> bool {
        &&& self.offsets@.len() == self.chars@.len() + 1
        &&& forall|i: int|
            0 <= i <= self.chars@.len() ==> #[trigger] self.offsets@[i] == byte_offset(
                self.chars@,
                i,
            )
    }

    /// `None` exactly when the UTF-8 length of the text does not fit in
    /// `usize`.
    pub fn new(text: &str) -> (r: Option<SourceMap>)
        ensures
            r matches Some(m) ==> (m.wf() && m.chars@ == text@),
            r is None <==> byte_offset(text@, text@.len() as int) > usize::MAX,
    {
        let chars = str_chars(text);
        let mut offsets: Vec<usize> = Vec::new();
        offsets.push(0);
        let mut i: usize = 0;
        while i < chars.len()
            invariant
                chars@ == text@,
                i <= chars@.len(),
                offsets@.len() == i + 1,
                forall|k: int| 0 <= k <= i ==> #[trigger] offsets@[k] == byte_offset(chars@, k),
            decreases chars@.len() - i,
        {
            let w = len_utf8(chars[i]);
            let last = offsets[i];
            if last > usize::MAX - w {
                proof {
                    assert(byte_offset(chars@, i + 1) == last + w);
                    if i + 1 < chars@.len() {
                        lemma_byte_offset_increases(chars@, i + 1, chars@.len() as int);
                    }
                }
                return None;
            }
            offsets.push(last + w);
            i += 1;
            assert(offsets@[i as int] == byte_offset(chars@, i as int));
        }
        assert(offsets@[chars@.len() as int] == byte_offset(chars@, chars@.len() as int));
        Some(SourceMap { chars, offsets })
    }

    /// The index of the character that starts at byte `b` (or `chars.len()`
    /// for the end of the text); `None` when no character starts there.
    pub fn char_index(&self, b: usize) -> (r: Option<usize>)
        requires
            self.wf(),
        ensures
            r matches Some(k) ==> (k <= self.chars@.len() && byte_offset(self.chars@, k as int)
                == b),
            r is None ==> !on_boundary(self.chars@, b as int),
    {
        let ghost s = self.chars@;
        // binary search over the offsets, which increase strictly
        let mut lo: usize = 0;
        let mut hi: usize = self.offsets.len();
        while lo < hi
            invariant
                self.wf(),
                s == self.chars@,
                lo <= hi <= self.offsets@.len(),
                forall|k: int| 0 <= k < lo ==> #[trigger] byte_offset(s, k) < b,
                forall|k: int| hi <= k <= s.len() ==> #[trigger] byte_offset(s, k) > b,
            decreases hi - lo,
        {
            let mid = lo + (hi - lo) / 2;
            let v = self.offsets[mid];
            assert(v == byte_offset(s, mid as int));
            if v == b {
                return Some(mid);
            } else if v < b {
                assert forall|k: int| 0 <= k < mid + 1 implies #[trigger] byte_offset(s, k) < b by {
                    if k < mid {
                        lemma_byte_offset_increases(s, k, mid as int);
                    }
                }
                lo = mid + 1;
            } else {
                assert forall|k: int| mid <= k <= s.len() implies #[trigger] byte_offset(s, k) > b by {
                    if k > mid {
                        lemma_byte_offset_increases(s, mid as int, k);
                    }
                }
                hi = mid;
            }
        }
        None
    }
}

// ---------------------------------------------------------------------------
// Rebuilding the tree
// ---------------------------------------------------------------------------

/// Index past the subtree of record `i`: its children are the records at the
/// next depth that follow it, each with its own subtree.
pub open spec fn sub_end(recs: Seq<NodeRecord>, i: int) -> int
    decreases recs.len() - i, 1nat,
{
    if 0 <= i < recs.len() {
        kids_end(recs, recs[i].depth + 1, i + 1)
    } else {
        i + 1
    }
}

/// Index past the run of subtrees whose roots, from record `i` on, have depth
/// `d`.
pub open spec fn kids_end(recs: Seq<NodeRecord>, d: int, i: int) -> int
    decreases recs.len() - i, 2nat,
{
    if 0 <= i < recs.len() && recs[i].depth == d {
        let k = sub_end(recs, i);
        if i < k <= recs.len() {
            kids_end(recs, d, k)
        } else {
            i
        }
    } else {
        i
    }
}

pub proof fn lemma_sub_end(recs: Seq<NodeRecord>, i: int)
    requires
        0 <= i < recs.len(),
    ensures
        i < sub_end(recs, i) <= recs.len(),
    decreases recs.len() - i, 1nat,
{
    lemma_kids_end(recs, recs[i].depth + 1, i + 1);
}

pub proof fn lemma_kids_end(recs: Seq<NodeRecord>, d: int, i: int)
    requires
        0 <= i <= recs.len(),
    ensures
        i <= kids_end(recs, d, i) <= recs.len(),
    decreases recs.len() - i, 2nat,
{
    if 0 <= i < recs.len() && recs[i].depth == d {
        lemma_sub_end(recs, i);
        lemma_kids_end(recs, d, sub_end(recs, i));
    }
}

/// Whether the next record starts another child at depth `d`.
pub open spec fn child_at(recs: Seq<NodeRecord>, d: int, i: int) -> bool {
    0 <= i < recs.len() && recs[i].depth == d
}

/// A record can become a node: its offsets fall on character boundaries in
/// order, and its rows and depth leave room for one more.
pub open spec fn record_ok(r: NodeRecord, s: Seq<char>) -> bool {
    &&& on_boundary(s, r.start_byte as int)
    &&& on_boundary(s, r.end_byte as int)
    &&& r.start_byte <= r.end_byte
    &&& r.start_row < usize::MAX
    &&& r.end_row < usize::MAX
    &&& r.depth < u32::MAX
}

/// Every record of the subtree of record `i` can become a node.
pub open spec fn subtree_ok(recs: Seq<NodeRecord>, s: Seq<char>, i: int) -> bool
    decreases recs.len() - i, 1nat,
{
    0 <= i < recs.len() && record_ok(recs[i], s) && kids_ok(recs, s, recs[i].depth + 1, i + 1)
}

pub open spec fn kids_ok(recs: Seq<NodeRecord>, s: Seq<char>, d: int, i: int) -> bool
    decreases recs.len() - i, 2nat,
{
    if child_at(recs, d, i) && i < sub_end(recs, i) <= recs.len() {
        subtree_ok(recs, s, i) && kids_ok(recs, s, d, sub_end(recs, i))
    } else {
        true
    }
}

/// The optional string's characters.
pub open spec fn opt_view(o: Option<String>) -> Option<Seq<char>> {
    match o {
        Some(x) => Some(x@),
        None => None,
    }
}

/// Node `n` holds what record `r` reports, with character offsets in `s`
/// for its byte offsets and lines counted from one.
pub open spec fn node_of_record(n: SyntaxNode, r: NodeRecord, s: Seq<char>) -> bool {
    &&& n.kind@ == r.kind@
    &&& opt_view(n.field) == opt_view(r.field)
    &&& n.start <= n.end <= s.len()
    &&& byte_offset(s, n.start as int) == r.start_byte
    &&& byte_offset(s, n.end as int) == r.end_byte
    &&& n.start_line == r.start_row + 1
    &&& n.end_line == r.end_row + 1
}

/// `n` is the tree that the subtree of record `i` describes.
pub open spec fn rebuilt(recs: Seq<NodeRecord>, s: Seq<char>, i: int, n: SyntaxNode) -> bool
    decreases recs.len() - i, 1nat,
{
    0 <= i < recs.len() && node_of_record(n, recs[i], s) && kids_rebuilt(
        recs,
        s,
        recs[i].depth + 1,
        i + 1,
        n.children@,
    )
}

/// `cs` are the trees of the run of subtrees at depth `d` from record `i`.
pub open spec fn kids_rebuilt(
    recs: Seq<NodeRecord>,
    s: Seq<char>,
    d: int,
    i: int,
    cs: Seq<SyntaxNode>,
) -> bool
    decreases recs.len() - i, 2nat,
{
    if child_at(recs, d, i) && i < sub_end(recs, i) <= recs.len() {
        cs.len() > 0 && rebuilt(recs, s, i, cs[0]) && kids_rebuilt(
            recs,
            s,
            d,
            sub_end(recs, i),
            cs.drop_first(),
        )
    } else {
        cs.len() == 0
    }
}

/// `cs` are the trees of the first `cs.len()` subtrees at depth `d` from
/// record `i`, and record `j` follows them.
pub open spec fn kids_prefix(
    recs: Seq<NodeRecord>,
    s: Seq<char>,
    d: int,
    i: int,
    cs: Seq<SyntaxNode>,
    j: int,
) -> bool
    decreases cs.len(),
{
    if cs.len() == 0 {
        j == i
    } else {
        &&& child_at(recs, d, i)
        &&& i < sub_end(recs, i) <= recs.len()
        &&& rebuilt(recs, s, i, cs[0])
        &&& kids_prefix(recs, s, d, sub_end(recs, i), cs.drop_first(), j)
    }
}

proof fn lemma_kids_prefix_push(
    recs: Seq<NodeRecord>,
    s: Seq<char>,
    d: int,
    i: int,
    cs: Seq<SyntaxNode>,
    j: int,
    c: SyntaxNode,
)
    requires
        kids_prefix(recs, s, d, i, cs, j),
        child_at(recs, d, j),
        j < sub_end(recs, j) <= recs.len(),
        rebuilt(recs, s, j, c),
    ensures
        kids_prefix(recs, s, d, i, cs.push(c), sub_end(recs, j)),
    decreases cs.len(),
{
    if cs.len() == 0 {
        assert(cs.push(c).drop_first() =~= Seq::<SyntaxNode>::empty());
        assert(kids_prefix(recs, s, d, sub_end(recs, i), cs.push(c).drop_first(), sub_end(recs, j)));
    } else {
        lemma_kids_prefix_push(recs, s, d, sub_end(recs, i), cs.drop_first(), j, c);
        assert(cs.push(c).drop_first() =~= cs.drop_first().push(c));
        assert(kids_prefix(recs, s, d, sub_end(recs, i), cs.push(c).drop_first(), sub_end(recs, j)));
    }
}

/// A prefix of children that ends where no further child starts is all of
/// them; and the run's end and health are those seen from where it stops.
proof fn lemma_kids_prefix_done(
    recs: Seq<NodeRecord>,
    s: Seq<char>,
    d: int,
    i: int,
    cs: Seq<SyntaxNode>,
    j: int,
)
    requires
        kids_prefix(recs, s, d, i, cs, j),
        !child_at(recs, d, j),
    ensures
        kids_rebuilt(recs, s, d, i, cs),
    decreases cs.len(),
{
    if cs.len() > 0 {
        lemma_kids_prefix_done(recs, s, d, sub_end(recs, i), cs.drop_first(), j);
    }
}

/// Every node of the tree rooted at `n` starts no later than it ends,
/// within a text of `len` characters, on a line counted from one.
pub open spec fn within(n: SyntaxNode, len: nat) -> bool
    decreases n,
{
    &&& n.start <= n.end <= len
    &&& n.start_line >= 1
    &&& n.end_line >= 1
    &&& forall|k: int| 0 <= k < n.children@.len() ==> within(#[trigger] n.children@[k], len)
}

proof fn lemma_rebuilt_within(recs: Seq<NodeRecord>, s: Seq<char>, i: int, n: SyntaxNode)
    requires
        rebuilt(recs, s, i, n),
    ensures
        within(n, s.len()),
    decreases recs.len() - i, 1nat,
{
    lemma_kids_rebuilt_within(recs, s, recs[i].depth + 1, i + 1, n.children@);
}

proof fn lemma_kids_rebuilt_within(
    recs: Seq<NodeRecord>,
    s: Seq<char>,
    d: int,
    i: int,
    cs: Seq<SyntaxNode>,
)
    requires
        kids_rebuilt(recs, s, d, i, cs),
    ensures
        forall|k: int| 0 <= k < cs.len() ==> within(#[trigger] cs[k], s.len()),
    decreases recs.len() - i, 2nat,
{
    if child_at(recs, d, i) && i < sub_end(recs, i) <= recs.len() {
        lemma_rebuilt_within(recs, s, i, cs[0]);
        lemma_kids_rebuilt_within(recs, s, d, sub_end(recs, i), cs.drop_first());
        assert forall|k: int| 0 <= k < cs.len() implies within(#[trigger] cs[k], s.len()) by {
            if k > 0 {
                assert(cs[k] == cs.drop_first()[k - 1]);
            }
        }
    }
}

/// Builds the node at record `i` and its subtree; returns it with the index
/// past its subtree, or `None` when some record of the subtree cannot become
/// a node.
fn build_node(recs: &Vec<NodeRecord>, map: &SourceMap, i: usize) -> (r: Option<(SyntaxNode, usize)>)
    requires
        map.wf(),
        i < recs@.len(),
    ensures
        r matches Some((n, j)) ==> j == sub_end(recs@, i as int) && rebuilt(
            recs@,
            map.chars@,
            i as int,
            n,
        ),
        r is None <==> !subtree_ok(recs@, map.chars@, i as int),
    decreases recs@.len() - i,
{
    let ghost s = map.chars@;
    let n_recs = recs.len();
    let rec = &recs[i];
    let start = match map.char_index(rec.start_byte) {
        Some(k) => k,
        None => return None,
    };
    let end = match map.char_index(rec.end_byte) {
        Some(k) => k,
        None => return None,
    };
    proof {
        if start < end {
            lemma_byte_offset_increases(s, start as int, end as int);
        }
        if end < start {
            lemma_byte_offset_increases(s, end as int, start as int);
        }
    }
    if start > end || rec.start_row == usize::MAX || rec.end_row == usize::MAX
        || rec.depth == u32::MAX {
        return None;
    }
    assert(record_ok(recs@[i as int], s));
    let child_depth = rec.depth + 1;
    let ghost cd = child_depth as int;
    let mut children: Vec<SyntaxNode> = Vec::new();
    let mut j = i + 1;
    proof {
        lemma_kids_end(recs@, cd, j as int);
    }
    while j < recs.len() && recs[j].depth == child_depth
        invariant
            map.wf(),
            s == map.chars@,
            i < j <= recs@.len(),
            cd == recs@[i as int].depth + 1,
            child_depth == cd,
            kids_end(recs@, cd, i + 1) == kids_end(recs@, cd, j as int),
            kids_ok(recs@, s, cd, i + 1) == kids_ok(recs@, s, cd, j as int),
            kids_prefix(recs@, s, cd, i + 1, children@, j as int),
        decreases recs@.len() - j,
    {
        proof {
            lemma_sub_end(recs@, j as int);
        }
        match build_node(recs, map, j) {
            Some((c, k)) => {
                proof {
                    lemma_kids_prefix_push(recs@, s, cd, i + 1, children@, j as int, c);
                }
                children.push(c);
                j = k;
            },
            None => {
                return None;
            },
        }
    }
    proof {
        lemma_kids_prefix_done(recs@, s, cd, i + 1, children@, j as int);
    }
    let node = SyntaxNode {
        kind: rec.kind.clone(),
        field: match &rec.field {
            Some(f) => Some(f.clone()),
            None => None,
        },
        start,
        end,
        start_line: rec.start_row + 1,
        end_line: rec.end_row + 1,
        children,
    };
    Some((node, j))
}

/// Error of `TreeParser::set_language`: tree-sitter refused the grammar (its
/// ABI version is not one this tree-sitter supports, or it cannot be used for
/// parsing).
#[derive(Debug)]
pub enum ParserError {
    IncompatibleLanguage,
}

/// A tree-sitter parser that yields `SyntaxTree`s.
pub struct TreeParser {
    parser: tree_sitter::Parser,
}

impl TreeParser {
    pub fn new() -> TreeParser {
        TreeParser { parser: ts_parser_new() }
    }

    pub fn set_language(&mut self, lang: &tree_sitter::Language) -> (r: Result<(), ParserError>) {
        match ts_set_language(&mut self.parser, lang) {
            Ok(()) => Ok(()),
            Err(_) => Err(ParserError::IncompatibleLanguage),
        }
    }

    /// Parses `text`. The second argument stands for an earlier tree, which
    /// is not used: every parse starts afresh. Whether tree-sitter yields a
    /// tree, and which, is its own decision; a tree returned here is the
    /// exact rebuild (`tree_from_records`) of some well-formed preorder
    /// sequence of node records over the text.
    pub fn parse(&mut self, text: &str, _old: Option<&SyntaxTree>) -> (r: Option<SyntaxTree>)
        ensures
            r matches Some(t) ==> t.source@ == text@ && within(t.root, text@.len()),
            r matches Some(t) ==> exists|recs: Seq<NodeRecord>|
                recs.len() > 0 && subtree_ok(recs, text@, 0) && #[trigger] rebuilt(
                    recs,
                    text@,
                    0,
                    t.root,
                ),
    {
        let tree = match ts_parse(&mut self.parser, text) {
            Some(t) => t,
            None => return None,
        };
        let recs = read_records(&tree);
        let r = tree_from_records(text, &recs);
        proof {
            if r is Some {
                assert(rebuilt(recs@, text@, 0, r->0.root));
            }
        }
        r
    }
}

/// The tree of `text` whose nodes are `recs`, in preorder with their depths
/// (as tree-sitter reports them). `None` exactly when there is no record,
/// when the text is too long for its byte offsets to fit in `usize`, or when
/// some record of the root's subtree cannot become a node (an offset that is
/// not on a character boundary, a start after the end, a row or depth at the
/// limit of its type).
pub fn tree_from_records(text: &str, recs: &Vec<NodeRecord>) -> (r: Option<SyntaxTree>)
    ensures
        r is Some <==> (recs@.len() > 0 && byte_offset(text@, text@.len() as int) <= usize::MAX
            && subtree_ok(recs@, text@, 0)),
        r matches Some(t) ==> t.source@ == text@ && rebuilt(recs@, text@, 0, t.root) && within(
            t.root,
            text@.len(),
        ),
{
    let map = match SourceMap::new(text) {
        Some(m) => m,
        None => return None,
    };
    if recs.len() == 0 {
        return None;
    }
    match build_node(recs, &map, 0) {
        Some((root, _)) => {
            proof {
                lemma_rebuilt_within(recs@, map.chars@, 0, root);
            }
            Some(SyntaxTree { source: map.chars, root })
        },
        None => None,
    }
}

} // verus!
