//! Building blocks that several languages share: declaration symbols,
//! signatures cut before a body, optional imports.
use vstd::prelude::*;
use crate::parser::language::{
    make_import, make_symbol, one_name, symbol_of, ImportView, Import, ParseResult, ResultView,
    SymbolKind, Visibility,
};
use crate::syntax::{find_child, first_child_in, first_line_of, kind_in, kind_names, node_first_line, node_text, node_text_before, node_trimmed_text, text_before, text_of, trimmed_text_of, SyntaxNode};
use crate::text::{find_from, find_from_exec, first_line_trimmed, first_line_trimmed_exec,
    lemma_find_from_bounds, str_chars, substr, trim, trim_exec};

verus! {

/// A declaration: signature is the first line of `n`, body its whole text;
/// exported when public.
pub open spec fn decl_item(
    src: Seq<char>,
    n: SyntaxNode,
    name: Seq<char>,
    kind: SymbolKind,
    vis: Visibility,
) -> ResultView {
    ResultView::symbol_exported(
        symbol_of(name, kind, vis, first_line_of(src, n), text_of(src, n), n),
    )
}

pub fn decl_exec(
    src: &Vec<char>,
    n: &SyntaxNode,
    name: &Vec<char>,
    kind: SymbolKind,
    vis: Visibility,
) -> (r: ParseResult)
    ensures
        r@ == decl_item(src@, *n, name@, kind, vis),
{
    let sig = node_first_line(src, n);
    let body = node_text(src, n);
    let mut out = ParseResult::empty();
    out.push_symbol_exported(make_symbol(name, kind, vis, &sig, &body, n));
    out
}

/// `decl_item` when the name is not empty; nothing otherwise.
pub open spec fn named_decl_item(
    src: Seq<char>,
    n: SyntaxNode,
    name: Seq<char>,
    kind: SymbolKind,
    vis: Visibility,
) -> ResultView {
    if name.len() == 0 {
        ResultView::empty()
    } else {
        decl_item(src, n, name, kind, vis)
    }
}

pub fn named_decl_exec(
    src: &Vec<char>,
    n: &SyntaxNode,
    name: &Vec<char>,
    kind: SymbolKind,
    vis: Visibility,
) -> (r: ParseResult)
    ensures
        r@ == named_decl_item(src@, *n, name@, kind, vis),
{
    if name.len() == 0 {
        ParseResult::empty()
    } else {
        decl_exec(src, n, name, kind, vis)
    }
}

/// A callable: given signature and body; exported when public.
pub open spec fn callable_item(
    n: SyntaxNode,
    name: Seq<char>,
    kind: SymbolKind,
    vis: Visibility,
    sig: Seq<char>,
    body: Seq<char>,
) -> ResultView {
    ResultView::symbol_exported(symbol_of(name, kind, vis, sig, body, n))
}

pub fn callable_exec(
    n: &SyntaxNode,
    name: &Vec<char>,
    kind: SymbolKind,
    vis: Visibility,
    sig: &Vec<char>,
    body: &Vec<char>,
) -> (r: ParseResult)
    ensures
        r@ == callable_item(*n, name@, kind, vis, sig@, body@),
{
    let mut out = ParseResult::empty();
    out.push_symbol_exported(make_symbol(name, kind, vis, sig, body, n));
    out
}

/// The text of `n` before its first child of one of `kinds`, trimmed (empty
/// when that child does not start inside `n`); `None` without such a child.
pub open spec fn sig_before(src: Seq<char>, n: SyntaxNode, kinds: Seq<Seq<char>>) -> Option<
    Seq<char>,
> {
    match first_child_in(n.children@, kinds, 0) {
        Some(k) => match text_before(src, n, n.children@[k]) {
            Some(t) => Some(trim(t)),
            None => Some(Seq::empty()),
        },
        None => None,
    }
}

pub fn sig_before_exec(src: &Vec<char>, n: &SyntaxNode, kinds: &[&str]) -> (r: Option<Vec<char>>)
    ensures
        r matches Some(v) ==> sig_before(src@, *n, kind_names(kinds@)) == Some(v@),
        r is None ==> sig_before(src@, *n, kind_names(kinds@)) is None,
{
    match find_child(n, kinds) {
        Some(k) => match node_text_before(src, n, &n.children[k]) {
            Some(t) => Some(trim_exec(&t)),
            None => Some(Vec::new()),
        },
        None => None,
    }
}

/// Signature up to a body child, or the first line of `n` without one.
pub open spec fn sig_or_first_line(src: Seq<char>, n: SyntaxNode, kinds: Seq<Seq<char>>) -> Seq<
    char,
> {
    match sig_before(src, n, kinds) {
        Some(s) => s,
        None => first_line_of(src, n),
    }
}

pub fn sig_or_first_line_exec(src: &Vec<char>, n: &SyntaxNode, kinds: &[&str]) -> (r: Vec<char>)
    ensures
        r@ == sig_or_first_line(src@, *n, kind_names(kinds@)),
{
    match sig_before_exec(src, n, kinds) {
        Some(s) => s,
        None => node_first_line(src, n),
    }
}

/// Signature up to a body child, or the whole trimmed text without one.
pub open spec fn sig_or_trimmed(src: Seq<char>, n: SyntaxNode, kinds: Seq<Seq<char>>) -> Seq<char> {
    match sig_before(src, n, kinds) {
        Some(s) => s,
        None => trimmed_text_of(src, n),
    }
}

pub fn sig_or_trimmed_exec(src: &Vec<char>, n: &SyntaxNode, kinds: &[&str]) -> (r: Vec<char>)
    ensures
        r@ == sig_or_trimmed(src@, *n, kind_names(kinds@)),
{
    match sig_before_exec(src, n, kinds) {
        Some(s) => s,
        None => node_trimmed_text(src, n),
    }
}

/// An import, if there is one.
pub open spec fn import_item(i: Option<ImportView>) -> ResultView {
    match i {
        Some(v) => ResultView::import(v),
        None => ResultView::empty(),
    }
}

pub fn import_exec(i: Option<Import>) -> (r: ParseResult)
    ensures
        r@ == import_item(match i {
            Some(v) => Some(v@),
            None => None,
        }),
{
    let mut out = ParseResult::empty();
    if let Some(imp) = i {
        out.push_import(imp);
    }
    out
}

/// The view of an optional import.
pub open spec fn opt_import(i: Option<Import>) -> Option<ImportView> {
    match i {
        Some(v) => Some(v@),
        None => None,
    }
}

/// An import whose source and only name are `path`, when `path` is not
/// empty.
pub open spec fn path_import(path: Seq<char>) -> Option<ImportView> {
    if path.len() == 0 {
        None
    } else {
        Some(ImportView { source: path, names: seq![path] })
    }
}

pub fn path_import_exec(path: &Vec<char>) -> (r: Option<Import>)
    ensures
        opt_import(r) == path_import(path@),
{
    if path.len() == 0 {
        None
    } else {
        Some(make_import(path, one_name(path)))
    }
}

/// The piece after the last separator `p` in a left-to-right split of
/// `s[i..]` (`s.split(p).last()`).
pub open spec fn last_piece_from(s: Seq<char>, p: Seq<char>, i: int) -> Seq<char>
    decreases s.len() - i,
{
    if p.len() == 0 || i < 0 || i > s.len() {
        s.subrange(i, s.len() as int)
    } else {
        match find_from(s, p, i) {
            Some(k) => if k + p.len() > i && k + p.len() <= s.len() {
                last_piece_from(s, p, k + p.len())
            } else {
                s.subrange(i, s.len() as int)
            },
            None => s.subrange(i, s.len() as int),
        }
    }
}

pub open spec fn last_piece(s: Seq<char>, p: Seq<char>) -> Seq<char> {
    last_piece_from(s, p, 0)
}

pub fn last_piece_exec(s: &Vec<char>, p: &str) -> (r: Vec<char>)
    requires
        p@.len() > 0,
    ensures
        r@ == last_piece(s@, p@),
{
    let pv = str_chars(p);
    let n: usize = s.len();
    let mut i: usize = 0;
    loop
        invariant
            n == s@.len(),
            i <= s@.len(),
            pv@ == p@,
            p@.len() > 0,
            last_piece(s@, p@) == last_piece_from(s@, p@, i as int),
        decreases s@.len() - i,
    {
        match find_from_exec(s, &pv, i) {
            Some(k) => {
                proof {
                    lemma_find_from_bounds(s@, p@, i as int);
                }
                i = k + pv.len();
            },
            None => {
                return substr(s, i, s.len());
            },
        }
    }
}

} // verus!

verus! {

/// A declaration recorded as a symbol only (no export): signature is the
/// first line of `n`, body its whole text.
pub open spec fn plain_decl_item(
    src: Seq<char>,
    n: SyntaxNode,
    name: Seq<char>,
    kind: SymbolKind,
    vis: Visibility,
) -> ResultView {
    ResultView::symbol(symbol_of(name, kind, vis, first_line_of(src, n), text_of(src, n), n))
}

pub fn plain_decl_exec(
    src: &Vec<char>,
    n: &SyntaxNode,
    name: &Vec<char>,
    kind: SymbolKind,
    vis: Visibility,
) -> (r: ParseResult)
    ensures
        r@ == plain_decl_item(src@, *n, name@, kind, vis),
{
    let sig = node_first_line(src, n);
    let body = node_text(src, n);
    let mut out = ParseResult::empty();
    out.push_symbol(make_symbol(name, kind, vis, &sig, &body, n));
    out
}

/// `name`, or `fallback` when `name` is empty.
pub open spec fn or_default(name: Seq<char>, fallback: Seq<char>) -> Seq<char> {
    if name.len() == 0 {
        fallback
    } else {
        name
    }
}

pub fn or_default_exec(name: Vec<char>, fallback: &str) -> (r: Vec<char>)
    ensures
        r@ == or_default(name@, fallback@),
{
    if name.len() == 0 {
        str_chars(fallback)
    } else {
        name
    }
}

} // verus!

verus! {

/// A signature cut before the body: the text `t` of `n` before its first
/// child (from `i` on) of one of `kinds` that starts inside `t`, trimmed;
/// the first line of `t`, trimmed, when there is none.
pub open spec fn cut_sig_from(n: SyntaxNode, t: Seq<char>, kinds: Seq<Seq<char>>, i: int) -> Seq<
    char,
>
    decreases n.children@.len() - i,
{
    if i < 0 || i >= n.children@.len() {
        first_line_trimmed(t)
    } else {
        let c = n.children@[i];
        if kinds.contains(c.kind@) && n.start <= c.start && c.start - n.start < t.len() {
            trim(t.subrange(0, c.start - n.start))
        } else {
            cut_sig_from(n, t, kinds, i + 1)
        }
    }
}

pub fn cut_sig_exec(n: &SyntaxNode, t: &Vec<char>, kinds: &[&str]) -> (r: Vec<char>)
    ensures
        r@ == cut_sig_from(*n, t@, kind_names(kinds@), 0),
{
    let mut i: usize = 0;
    while i < n.children.len()
        invariant
            cut_sig_from(*n, t@, kind_names(kinds@), 0) == cut_sig_from(
                *n,
                t@,
                kind_names(kinds@),
                i as int,
            ),
        decreases n.children@.len() - i,
    {
        let c = &n.children[i];
        if kind_in(c, kinds) && n.start <= c.start && c.start - n.start < t.len() {
            let pre = substr(t, 0, c.start - n.start);
            return trim_exec(&pre);
        }
        i += 1;
    }
    first_line_trimmed_exec(t)
}

} // verus!
