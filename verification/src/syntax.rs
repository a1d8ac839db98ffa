//! The syntax tree that symbol extraction reads: a plain-data copy of a
//! tree-sitter concrete syntax tree, with character offsets into the source.
use vstd::prelude::*;
use crate::text::{first_line_trimmed, first_line_trimmed_exec, str_eq, substr, trim, trim_exec};

verus! {

/// One node of a concrete syntax tree.
///
/// `start`/`end` are character offsets into the parsed source;
/// `start_line`/`end_line` are 1-based line numbers (tree-sitter row + 1).
#[derive(Debug)]
pub struct SyntaxNode {
    pub kind: String,
    pub field: Option<String>,
    pub start: usize,
    pub end: usize,
    pub start_line: usize,
    pub end_line: usize,
    pub children: Vec<SyntaxNode>,
}

/// A parsed source file: its characters and the root of its syntax tree.
#[derive(Debug)]
pub struct SyntaxTree {
    pub source: Vec<char>,
    pub root: SyntaxNode,
}

impl SyntaxTree {
    pub fn root_node(&self) -> (r: &SyntaxNode)
        ensures
            r == &self.root,
    {
        &self.root
    }
}

impl SyntaxNode {
    /// The `i`-th child (`Node::child`).
    pub fn child(&self, i: usize) -> (r: Option<&SyntaxNode>)
        ensures
            i < self.children@.len() ==> r == Some(&self.children@[i as int]),
            i >= self.children@.len() ==> r is None,
    {
        if i < self.children.len() {
            Some(&self.children[i])
        } else {
            None
        }
    }

    pub fn child_count(&self) -> (r: usize)
        ensures
            r == self.children@.len(),
    {
        self.children.len()
    }

    /// The node's type name (`Node::kind`).
    pub fn kind(&self) -> (r: &str)
        ensures
            r@ == self.kind@,
    {
        self.kind.as_str()
    }
}

// ---------------------------------------------------------------------------
// Node text
// ---------------------------------------------------------------------------

/// The source text that a node covers (empty if its range does not lie in
/// `src`; the tree builder only makes nodes whose range does).
pub open spec fn text_of(src: Seq<char>, n: SyntaxNode) -> Seq<char> {
    if n.start <= n.end && n.end <= src.len() {
        src.subrange(n.start as int, n.end as int)
    } else {
        Seq::empty()
    }
}

pub fn node_text(src: &Vec<char>, n: &SyntaxNode) -> (r: Vec<char>)
    ensures
        r@ == text_of(src@, *n),
{
    if n.start <= n.end && n.end <= src.len() {
        substr(src, n.start, n.end)
    } else {
        Vec::new()
    }
}

/// `node_text(..).lines().next().unwrap_or("").trim()`.
pub open spec fn first_line_of(src: Seq<char>, n: SyntaxNode) -> Seq<char> {
    first_line_trimmed(text_of(src, n))
}

pub fn node_first_line(src: &Vec<char>, n: &SyntaxNode) -> (r: Vec<char>)
    ensures
        r@ == first_line_of(src@, *n),
{
    let t = node_text(src, n);
    first_line_trimmed_exec(&t)
}

/// `node_text(..).trim()`.
pub open spec fn trimmed_text_of(src: Seq<char>, n: SyntaxNode) -> Seq<char> {
    trim(text_of(src, n))
}

pub fn node_trimmed_text(src: &Vec<char>, n: &SyntaxNode) -> (r: Vec<char>)
    ensures
        r@ == trimmed_text_of(src@, *n),
{
    let t = node_text(src, n);
    trim_exec(&t)
}

/// The text of `n` before its child `c` (`&text[..c.start - n.start]`), or
/// `None` when `c` does not start inside `n`'s text.
pub open spec fn text_before(src: Seq<char>, n: SyntaxNode, c: SyntaxNode) -> Option<Seq<char>> {
    let t = text_of(src, n);
    if n.start <= c.start && c.start - n.start <= t.len() {
        Some(t.subrange(0, c.start - n.start))
    } else {
        None
    }
}

pub fn node_text_before(src: &Vec<char>, n: &SyntaxNode, c: &SyntaxNode) -> (r: Option<Vec<char>>)
    ensures
        r matches Some(v) ==> text_before(src@, *n, *c) == Some(v@),
        r is None ==> text_before(src@, *n, *c) is None,
{
    let t = node_text(src, n);
    if n.start <= c.start && c.start - n.start <= t.len() {
        Some(substr(&t, 0, c.start - n.start))
    } else {
        None
    }
}

// ---------------------------------------------------------------------------
// Finding children
// ---------------------------------------------------------------------------

/// An optional index, as an integer.
pub open spec fn as_index(o: Option<usize>) -> Option<int> {
    match o {
        Some(k) => Some(k as int),
        None => None,
    }
}

/// The views of a list of kind names.
pub open spec fn kind_names(ks: Seq<&str>) -> Seq<Seq<char>> {
    ks.map_values(|k: &str| k@)
}

/// A list of one kind name.
pub fn ks1<'a>(a: &'a str) -> (r: Vec<&'a str>)
    ensures
        kind_names(r@) == seq![a@],
{
    let v = vec![a];
    assert(kind_names(v@) =~= seq![a@]);
    v
}

/// A list of two kind names.
pub fn ks2<'a>(a: &'a str, b: &'a str) -> (r: Vec<&'a str>)
    ensures
        kind_names(r@) == seq![a@, b@],
{
    let v = vec![a, b];
    assert(kind_names(v@) =~= seq![a@, b@]);
    v
}

/// A list of three kind names.
pub fn ks3<'a>(a: &'a str, b: &'a str, c: &'a str) -> (r: Vec<&'a str>)
    ensures
        kind_names(r@) == seq![a@, b@, c@],
{
    let v = vec![a, b, c];
    assert(kind_names(v@) =~= seq![a@, b@, c@]);
    v
}

/// A list of four kind names.
pub fn ks4<'a>(a: &'a str, b: &'a str, c: &'a str, d: &'a str) -> (r: Vec<&'a str>)
    ensures
        kind_names(r@) == seq![a@, b@, c@, d@],
{
    let v = vec![a, b, c, d];
    assert(kind_names(v@) =~= seq![a@, b@, c@, d@]);
    v
}

/// A list of five kind names.
pub fn ks5<'a>(a: &'a str, b: &'a str, c: &'a str, d: &'a str, e: &'a str) -> (r: Vec<&'a str>)
    ensures
        kind_names(r@) == seq![a@, b@, c@, d@, e@],
{
    let v = vec![a, b, c, d, e];
    assert(kind_names(v@) =~= seq![a@, b@, c@, d@, e@]);
    v
}

pub fn kind_is(n: &SyntaxNode, k: &str) -> (r: bool)
    ensures
        r == (n.kind@ == k@),
{
    str_eq(n.kind.as_str(), k)
}

pub fn kind_in(n: &SyntaxNode, ks: &[&str]) -> (r: bool)
    ensures
        r == kind_names(ks@).contains(n.kind@),
{
    let mut j: usize = 0;
    while j < ks.len()
        invariant
            j <= ks@.len(),
            forall|m: int| 0 <= m < j ==> ks@[m]@ != n.kind@,
        decreases ks@.len() - j,
    {
        if kind_is(n, ks[j]) {
            assert(kind_names(ks@)[j as int] == n.kind@);
            return true;
        }
        j += 1;
    }
    assert forall|m: int| 0 <= m < kind_names(ks@).len() implies kind_names(ks@)[m] != n.kind@ by {
        assert(kind_names(ks@)[m] == ks@[m]@);
    }
    false
}

/// Index of the first child at or after `i` whose kind is one of `kinds`.
pub open spec fn first_child_in(ch: Seq<SyntaxNode>, kinds: Seq<Seq<char>>, i: int) -> Option<int>
    decreases ch.len() - i,
{
    if i < 0 || i >= ch.len() {
        None
    } else if kinds.contains(ch[i].kind@) {
        Some(i)
    } else {
        first_child_in(ch, kinds, i + 1)
    }
}

pub proof fn lemma_first_child_in(ch: Seq<SyntaxNode>, kinds: Seq<Seq<char>>, i: int)
    ensures
        first_child_in(ch, kinds, i) matches Some(k) ==> (i <= k < ch.len() && kinds.contains(
            ch[k].kind@,
        )),
    decreases ch.len() - i,
{
    if 0 <= i < ch.len() && !kinds.contains(ch[i].kind@) {
        lemma_first_child_in(ch, kinds, i + 1);
    }
}

/// No child before the first one with one of `kinds` has one of them.
pub proof fn lemma_first_child_in_before(ch: Seq<SyntaxNode>, kinds: Seq<Seq<char>>, i: int)
    requires
        0 <= i,
    ensures
        first_child_in(ch, kinds, i) matches Some(k) ==> forall|m: int|
            i <= m < k ==> !kinds.contains(#[trigger] ch[m].kind@),
    decreases ch.len() - i,
{
    if 0 <= i < ch.len() && !kinds.contains(ch[i].kind@) {
        lemma_first_child_in_before(ch, kinds, i + 1);
    }
}

/// When no child before `k` has one of `kinds` and child `k` has, the first
/// child at or after `i <= k` with one of `kinds` is `k`.
pub proof fn lemma_first_child_in_is(ch: Seq<SyntaxNode>, kinds: Seq<Seq<char>>, i: int, k: int)
    requires
        0 <= i <= k < ch.len(),
        kinds.contains(ch[k].kind@),
        forall|m: int| i <= m < k ==> !kinds.contains(#[trigger] ch[m].kind@),
    ensures
        first_child_in(ch, kinds, i) == Some(k),
    decreases k - i,
{
    if i < k {
        lemma_first_child_in_is(ch, kinds, i + 1, k);
    }
}

/// The first child of `n` at or after `i` whose kind is one of `kinds`.
pub fn find_child_from(n: &SyntaxNode, kinds: &[&str], i: usize) -> (r: Option<usize>)
    ensures
        as_index(r) == first_child_in(n.children@, kind_names(kinds@), i as int),
        r matches Some(k) ==> (i <= k < n.children@.len() && kind_names(kinds@).contains(
            n.children@[k as int].kind@,
        )),
{
    proof {
        lemma_first_child_in(n.children@, kind_names(kinds@), i as int);
    }
    let mut j: usize = i;
    while j < n.children.len()
        invariant
            i <= j,
            first_child_in(n.children@, kind_names(kinds@), i as int) == first_child_in(
                n.children@,
                kind_names(kinds@),
                j as int,
            ),
        decreases n.children@.len() - j,
    {
        if kind_in(&n.children[j], kinds) {
            return Some(j);
        }
        j += 1;
    }
    None
}

pub fn find_child(n: &SyntaxNode, kinds: &[&str]) -> (r: Option<usize>)
    ensures
        as_index(r) == first_child_in(n.children@, kind_names(kinds@), 0),
        r matches Some(k) ==> (k < n.children@.len() && kind_names(kinds@).contains(
            n.children@[k as int].kind@,
        )),
{
    find_child_from(n, kinds, 0)
}

/// Text of the first child of `n` whose kind is one of `kinds`, or empty.
pub open spec fn child_text(src: Seq<char>, n: SyntaxNode, kinds: Seq<Seq<char>>) -> Seq<char> {
    match first_child_in(n.children@, kinds, 0) {
        Some(k) => text_of(src, n.children@[k]),
        None => Seq::empty(),
    }
}

pub fn child_text_exec(src: &Vec<char>, n: &SyntaxNode, kinds: &[&str]) -> (r: Vec<char>)
    ensures
        r@ == child_text(src@, *n, kind_names(kinds@)),
{
    match find_child(n, kinds) {
        Some(k) => node_text(src, &n.children[k]),
        None => Vec::new(),
    }
}

/// Index of the first child at or after `i` that stands in field `f` of its
/// parent.
pub open spec fn field_child_from(ch: Seq<SyntaxNode>, f: Seq<char>, i: int) -> Option<int>
    decreases ch.len() - i,
{
    if i < 0 || i >= ch.len() {
        None
    } else if ch[i].field matches Some(g) && g@ == f {
        Some(i)
    } else {
        field_child_from(ch, f, i + 1)
    }
}

pub proof fn lemma_field_child_from(ch: Seq<SyntaxNode>, f: Seq<char>, i: int)
    ensures
        field_child_from(ch, f, i) matches Some(k) ==> i <= k < ch.len(),
    decreases ch.len() - i,
{
    if 0 <= i < ch.len() && !(ch[i].field matches Some(g) && g@ == f) {
        lemma_field_child_from(ch, f, i + 1);
    }
}

/// `Node::child_by_field_name`: the first child in field `f`.
pub open spec fn field_child(n: SyntaxNode, f: Seq<char>) -> Option<int> {
    field_child_from(n.children@, f, 0)
}

pub fn child_by_field(n: &SyntaxNode, f: &str) -> (r: Option<usize>)
    ensures
        as_index(r) == field_child(*n, f@),
        r matches Some(k) ==> k < n.children@.len(),
{
    proof {
        lemma_field_child_from(n.children@, f@, 0);
    }
    let mut j: usize = 0;
    while j < n.children.len()
        invariant
            field_child(*n, f@) == field_child_from(n.children@, f@, j as int),
        decreases n.children@.len() - j,
    {
        let is_f = match &n.children[j].field {
            Some(g) => str_eq(g.as_str(), f),
            None => false,
        };
        if is_f {
            return Some(j);
        }
        j += 1;
    }
    None
}

/// Whether some child of `n` has kind `k`.
pub open spec fn has_child_kind(n: SyntaxNode, k: Seq<char>) -> bool {
    first_child_in(n.children@, seq![k], 0) is Some
}

} // verus!

verus! {

/// Text of the last child of `ch[i..]` whose kind is in `kinds`, or `acc`
/// when there is none.
pub open spec fn last_child_text_from(
    src: Seq<char>,
    ch: Seq<SyntaxNode>,
    kinds: Seq<Seq<char>>,
    i: int,
    acc: Seq<char>,
) -> Seq<char>
    decreases ch.len() - i,
{
    if i < 0 || i >= ch.len() {
        acc
    } else if kinds.contains(ch[i].kind@) {
        last_child_text_from(src, ch, kinds, i + 1, text_of(src, ch[i]))
    } else {
        last_child_text_from(src, ch, kinds, i + 1, acc)
    }
}

/// Text of the last child of `n` whose kind is in `kinds`, or empty.
pub open spec fn last_child_text(src: Seq<char>, n: SyntaxNode, kinds: Seq<Seq<char>>) -> Seq<char> {
    last_child_text_from(src, n.children@, kinds, 0, Seq::empty())
}

pub fn last_child_text_exec(src: &Vec<char>, n: &SyntaxNode, kinds: &[&str]) -> (r: Vec<char>)
    ensures
        r@ == last_child_text(src@, *n, kind_names(kinds@)),
{
    let mut acc: Vec<char> = Vec::new();
    let mut i: usize = 0;
    while i < n.children.len()
        invariant
            i <= n.children@.len(),
            last_child_text(src@, *n, kind_names(kinds@)) == last_child_text_from(
                src@,
                n.children@,
                kind_names(kinds@),
                i as int,
                acc@,
            ),
        decreases n.children@.len() - i,
    {
        if kind_in(&n.children[i], kinds) {
            acc = node_text(src, &n.children[i]);
        }
        i += 1;
    }
    acc
}

} // verus!

verus! {

/// Whether some child of `ch[i..]` has kind `k` and text `t`.
pub open spec fn child_with_text_from(
    src: Seq<char>,
    ch: Seq<SyntaxNode>,
    k: Seq<char>,
    t: Seq<char>,
    i: int,
) -> bool
    decreases ch.len() - i,
{
    if i < 0 || i >= ch.len() {
        false
    } else if ch[i].kind@ == k && text_of(src, ch[i]) == t {
        true
    } else {
        child_with_text_from(src, ch, k, t, i + 1)
    }
}

/// Whether some child of `n` has kind `k` and text `t`.
pub open spec fn has_child_with_text(src: Seq<char>, n: SyntaxNode, k: Seq<char>, t: Seq<char>) -> bool {
    child_with_text_from(src, n.children@, k, t, 0)
}

pub fn has_child_with_text_exec(src: &Vec<char>, n: &SyntaxNode, k: &str, t: &str) -> (r: bool)
    ensures
        r == has_child_with_text(src@, *n, k@, t@),
{
    let tv = crate::text::str_chars(t);
    let mut i: usize = 0;
    while i < n.children.len()
        invariant
            tv@ == t@,
            has_child_with_text(src@, *n, k@, t@) == child_with_text_from(
                src@,
                n.children@,
                k@,
                t@,
                i as int,
            ),
        decreases n.children@.len() - i,
    {
        if kind_is(&n.children[i], k) {
            let ct = node_text(src, &n.children[i]);
            if crate::text::chars_eq(&ct, &tv) {
                return true;
            }
        }
        i += 1;
    }
    false
}

/// Text of the child in field `f`, if there is one.
pub open spec fn field_text(src: Seq<char>, n: SyntaxNode, f: Seq<char>) -> Option<Seq<char>> {
    match field_child(n, f) {
        Some(k) => Some(text_of(src, n.children@[k])),
        None => None,
    }
}

pub fn field_text_exec(src: &Vec<char>, n: &SyntaxNode, f: &str) -> (r: Option<Vec<char>>)
    ensures
        r matches Some(v) ==> field_text(src@, *n, f@) == Some(v@),
        r is None ==> field_text(src@, *n, f@) is None,
{
    match child_by_field(n, f) {
        Some(k) => Some(node_text(src, &n.children[k])),
        None => None,
    }
}

} // verus!
