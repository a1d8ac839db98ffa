//! Character-sequence utilities: the string operations that symbol extraction
//! is built from (`trim`, `lines().next()`, `find`, `split`, ...), each with an
//! exact specification over `Seq<char>`.
use vstd::prelude::*;

verus! {

// ---------------------------------------------------------------------------
// Character classes
// ---------------------------------------------------------------------------

/// Unicode `White_Space`, the property that `char::is_whitespace` tests.
pub open spec fn is_ws(c: char) -> bool {
    ||| ('\u{9}' <= c && c <= '\u{d}')
    ||| c == ' '
    ||| c == '\u{85}'
    ||| c == '\u{a0}'
    ||| c == '\u{1680}'
    ||| ('\u{2000}' <= c && c <= '\u{200a}')
    ||| c == '\u{2028}'
    ||| c == '\u{2029}'
    ||| c == '\u{202f}'
    ||| c == '\u{205f}'
    ||| c == '\u{3000}'
}

pub fn is_whitespace(c: char) -> (r: bool)
    ensures
        r == is_ws(c),
{
    ('\u{9}' <= c && c <= '\u{d}') || c == ' ' || c == '\u{85}' || c == '\u{a0}' || c
        == '\u{1680}' || ('\u{2000}' <= c && c <= '\u{200a}') || c == '\u{2028}' || c
        == '\u{2029}' || c == '\u{202f}' || c == '\u{205f}' || c == '\u{3000}'
}

/// What `char::is_alphanumeric` returns (Unicode `Alphabetic` or `Numeric`).
pub uninterp spec fn unicode_alphanumeric(c: char) -> bool;

/// What `char::is_uppercase` returns (Unicode `Uppercase`).
pub uninterp spec fn unicode_uppercase(c: char) -> bool;

/// Calls `char::is_alphanumeric`; its result is named `unicode_alphanumeric`.
/// On ASCII, std answers for the letters and the digits alone.
#[verifier::external_body]
pub fn char_is_alphanumeric(c: char) -> (r: bool)
    ensures
        r == unicode_alphanumeric(c),
        (c as u32) < 0x80 ==> (r <==> (('a' <= c && c <= 'z') || ('A' <= c && c <= 'Z') || (
        '0' <= c && c <= '9'))),
{
    c.is_alphanumeric()
}

/// Calls `char::is_uppercase`; its result is named `unicode_uppercase`.
/// On ASCII, std answers for `A`..`Z` alone.
#[verifier::external_body]
pub fn char_is_uppercase(c: char) -> (r: bool)
    ensures
        r == unicode_uppercase(c),
        (c as u32) < 0x80 ==> (r <==> ('A' <= c && c <= 'Z')),
{
    c.is_uppercase()
}

/// A character that may continue an identifier: alphanumeric or `_`.
pub open spec fn is_ident_char(c: char) -> bool {
    unicode_alphanumeric(c) || c == '_'
}

pub fn ident_char(c: char) -> (r: bool)
    ensures
        r == is_ident_char(c),
{
    c == '_' || char_is_alphanumeric(c)
}

// ---------------------------------------------------------------------------
// Conversions between `str`/`String` and character vectors
// ---------------------------------------------------------------------------

/// Collects characters into a `String` (`FromIterator<&char> for String`).
#[verifier::external_body]
pub fn to_string(v: &Vec<char>) -> (r: String)
    ensures
        r@ == v@,
{
    v.iter().collect()
}

pub fn str_chars(s: &str) -> (r: Vec<char>)
    ensures
        r@ == s@,
{
    let mut v: Vec<char> = Vec::new();
    for c in it: s.chars()
        invariant
            v@ == it.seq().take(it.index() as int),
    {
        v.push(c);
    }
    v
}

/// Whether two strings hold the same characters (what `str == str` says).
pub fn str_eq(a: &str, b: &str) -> (r: bool)
    ensures
        r == (a@ == b@),
{
    let x = str_chars(a);
    let y = str_chars(b);
    if x.len() != y.len() {
        return false;
    }
    let mut i: usize = 0;
    while i < x.len()
        invariant
            x@ == a@,
            y@ == b@,
            x@.len() == y@.len(),
            i <= x@.len(),
            forall|j: int| 0 <= j < i ==> x@[j] == y@[j],
        decreases x@.len() - i,
    {
        if x[i] != y[i] {
            return false;
        }
        i += 1;
    }
    assert(x@ =~= y@);
    true
}

/// Characters `a..b` of `s`, copied.
pub fn substr(s: &Vec<char>, a: usize, b: usize) -> (r: Vec<char>)
    requires
        a <= b <= s@.len(),
    ensures
        r@ == s@.subrange(a as int, b as int),
{
    let mut v: Vec<char> = Vec::new();
    let mut i: usize = a;
    while i < b
        invariant
            a <= i <= b <= s@.len(),
            v@ == s@.subrange(a as int, i as int),
        decreases b - i,
    {
        v.push(s[i]);
        i += 1;
        assert(v@ =~= s@.subrange(a as int, i as int));
    }
    v
}

pub fn chars_eq(a: &Vec<char>, b: &Vec<char>) -> (r: bool)
    ensures
        r == (a@ == b@),
{
    if a.len() != b.len() {
        return false;
    }
    let mut i: usize = 0;
    while i < a.len()
        invariant
            a@.len() == b@.len(),
            i <= a@.len(),
            forall|k: int| 0 <= k < i ==> a@[k] == b@[k],
        decreases a@.len() - i,
    {
        if a[i] != b[i] {
            return false;
        }
        i += 1;
    }
    assert(a@ =~= b@);
    true
}

/// Whether `s` equals the characters of the literal `lit`.
pub fn is_lit(s: &Vec<char>, lit: &str) -> (r: bool)
    ensures
        r == (s@ == lit@),
{
    let l = str_chars(lit);
    chars_eq(s, &l)
}

pub fn concat(a: &Vec<char>, b: &Vec<char>) -> (r: Vec<char>)
    ensures
        r@ == a@ + b@,
{
    let mut v = a.clone();
    let mut i: usize = 0;
    while i < b.len()
        invariant
            i <= b@.len(),
            v@ == a@ + b@.subrange(0, i as int),
        decreases b@.len() - i,
    {
        v.push(b[i]);
        i += 1;
        assert(v@ =~= a@ + b@.subrange(0, i as int));
    }
    assert(b@.subrange(0, b@.len() as int) =~= b@);
    v
}

// ---------------------------------------------------------------------------
// Trimming
// ---------------------------------------------------------------------------

/// Index of the first character at or after `i` that is not whitespace
/// (or `s.len()`).
pub open spec fn skip_ws(s: Seq<char>, i: int) -> int
    decreases s.len() - i,
{
    if 0 <= i < s.len() && is_ws(s[i]) {
        skip_ws(s, i + 1)
    } else {
        i
    }
}

/// Index just past the last character before `j` that is not whitespace,
/// not going below `lo`.
pub open spec fn back_ws(s: Seq<char>, j: int, lo: int) -> int
    decreases j - lo,
{
    if lo < j <= s.len() && is_ws(s[j - 1]) {
        back_ws(s, j - 1, lo)
    } else {
        j
    }
}

/// `str::trim_start`.
pub open spec fn trim_start(s: Seq<char>) -> Seq<char> {
    s.subrange(skip_ws(s, 0), s.len() as int)
}

/// `str::trim_end`.
pub open spec fn trim_end(s: Seq<char>) -> Seq<char> {
    s.subrange(0, back_ws(s, s.len() as int, 0))
}

/// `str::trim`.
pub open spec fn trim(s: Seq<char>) -> Seq<char> {
    let a = skip_ws(s, 0);
    s.subrange(a, back_ws(s, s.len() as int, a))
}

pub proof fn lemma_skip_ws_bounds(s: Seq<char>, i: int)
    requires
        0 <= i <= s.len(),
    ensures
        i <= skip_ws(s, i) <= s.len(),
        skip_ws(s, i) < s.len() ==> !is_ws(s[skip_ws(s, i)]),
    decreases s.len() - i,
{
    if i < s.len() && is_ws(s[i]) {
        lemma_skip_ws_bounds(s, i + 1);
    }
}

pub proof fn lemma_back_ws_bounds(s: Seq<char>, j: int, lo: int)
    requires
        0 <= lo <= j <= s.len(),
    ensures
        lo <= back_ws(s, j, lo) <= j,
    decreases j - lo,
{
    if lo < j && is_ws(s[j - 1]) {
        lemma_back_ws_bounds(s, j - 1, lo);
    }
}

fn skip_ws_exec(s: &Vec<char>, i: usize) -> (r: usize)
    requires
        i <= s@.len(),
    ensures
        r == skip_ws(s@, i as int),
        i <= r <= s@.len(),
{
    let mut k: usize = i;
    while k < s.len() && is_whitespace(s[k])
        invariant
            i <= k <= s@.len(),
            skip_ws(s@, i as int) == skip_ws(s@, k as int),
        decreases s@.len() - k,
    {
        k += 1;
    }
    k
}

fn back_ws_exec(s: &Vec<char>, j: usize, lo: usize) -> (r: usize)
    requires
        lo <= j <= s@.len(),
    ensures
        r == back_ws(s@, j as int, lo as int),
        lo <= r <= j,
{
    let mut k: usize = j;
    while k > lo && is_whitespace(s[k - 1])
        invariant
            lo <= k <= j <= s@.len(),
            back_ws(s@, j as int, lo as int) == back_ws(s@, k as int, lo as int),
        decreases k - lo,
    {
        k -= 1;
    }
    k
}

pub fn trim_exec(s: &Vec<char>) -> (r: Vec<char>)
    ensures
        r@ == trim(s@),
{
    let a = skip_ws_exec(s, 0);
    let b = back_ws_exec(s, s.len(), a);
    substr(s, a, b)
}

pub fn trim_start_exec(s: &Vec<char>) -> (r: Vec<char>)
    ensures
        r@ == trim_start(s@),
{
    let a = skip_ws_exec(s, 0);
    substr(s, a, s.len())
}

pub fn trim_end_exec(s: &Vec<char>) -> (r: Vec<char>)
    ensures
        r@ == trim_end(s@),
{
    let b = back_ws_exec(s, s.len(), 0);
    substr(s, 0, b)
}

/// Strip characters of `set` from both ends (`str::trim_matches` with a
/// character predicate that accepts exactly `set`).
pub open spec fn skip_set(s: Seq<char>, set: Seq<char>, i: int) -> int
    decreases s.len() - i,
{
    if 0 <= i < s.len() && set.contains(s[i]) {
        skip_set(s, set, i + 1)
    } else {
        i
    }
}

pub open spec fn back_set(s: Seq<char>, set: Seq<char>, j: int, lo: int) -> int
    decreases j - lo,
{
    if lo < j <= s.len() && set.contains(s[j - 1]) {
        back_set(s, set, j - 1, lo)
    } else {
        j
    }
}

pub open spec fn trim_set(s: Seq<char>, set: Seq<char>) -> Seq<char> {
    let a = skip_set(s, set, 0);
    s.subrange(a, back_set(s, set, s.len() as int, a))
}

pub open spec fn trim_start_set(s: Seq<char>, set: Seq<char>) -> Seq<char> {
    s.subrange(skip_set(s, set, 0), s.len() as int)
}

pub open spec fn trim_end_set(s: Seq<char>, set: Seq<char>) -> Seq<char> {
    s.subrange(0, back_set(s, set, s.len() as int, 0))
}

fn in_set(c: char, set: &[char]) -> (r: bool)
    ensures
        r == set@.contains(c),
{
    let mut i: usize = 0;
    while i < set.len()
        invariant
            i <= set@.len(),
            forall|k: int| 0 <= k < i ==> set@[k] != c,
        decreases set@.len() - i,
    {
        if set[i] == c {
            return true;
        }
        i += 1;
    }
    false
}

fn skip_set_exec(s: &Vec<char>, set: &[char], i: usize) -> (r: usize)
    requires
        i <= s@.len(),
    ensures
        r == skip_set(s@, set@, i as int),
        i <= r <= s@.len(),
{
    let mut k: usize = i;
    while k < s.len() && in_set(s[k], set)
        invariant
            i <= k <= s@.len(),
            skip_set(s@, set@, i as int) == skip_set(s@, set@, k as int),
        decreases s@.len() - k,
    {
        k += 1;
    }
    k
}

fn back_set_exec(s: &Vec<char>, set: &[char], j: usize, lo: usize) -> (r: usize)
    requires
        lo <= j <= s@.len(),
    ensures
        r == back_set(s@, set@, j as int, lo as int),
        lo <= r <= j,
{
    let mut k: usize = j;
    while k > lo && in_set(s[k - 1], set)
        invariant
            lo <= k <= j <= s@.len(),
            back_set(s@, set@, j as int, lo as int) == back_set(s@, set@, k as int, lo as int),
        decreases k - lo,
    {
        k -= 1;
    }
    k
}

pub fn trim_set_exec(s: &Vec<char>, set: &[char]) -> (r: Vec<char>)
    ensures
        r@ == trim_set(s@, set@),
{
    let a = skip_set_exec(s, set, 0);
    let b = back_set_exec(s, set, s.len(), a);
    substr(s, a, b)
}

pub fn trim_start_set_exec(s: &Vec<char>, set: &[char]) -> (r: Vec<char>)
    ensures
        r@ == trim_start_set(s@, set@),
{
    let a = skip_set_exec(s, set, 0);
    substr(s, a, s.len())
}

pub fn trim_end_set_exec(s: &Vec<char>, set: &[char]) -> (r: Vec<char>)
    ensures
        r@ == trim_end_set(s@, set@),
{
    let b = back_set_exec(s, set, s.len(), 0);
    substr(s, 0, b)
}

// ---------------------------------------------------------------------------
// Prefixes, suffixes, repeated stripping
// ---------------------------------------------------------------------------

pub open spec fn starts_with(s: Seq<char>, p: Seq<char>) -> bool {
    p.len() <= s.len() && s.subrange(0, p.len() as int) == p
}

pub open spec fn ends_with(s: Seq<char>, p: Seq<char>) -> bool {
    p.len() <= s.len() && s.subrange(s.len() - p.len(), s.len() as int) == p
}

/// Whether `p` occurs in `s` at index `i`.
pub open spec fn occurs_at(s: Seq<char>, p: Seq<char>, i: int) -> bool {
    0 <= i && i + p.len() <= s.len() && s.subrange(i, i + p.len()) == p
}

fn occurs_at_exec(s: &Vec<char>, p: &Vec<char>, i: usize) -> (r: bool)
    ensures
        r == occurs_at(s@, p@, i as int),
{
    if i > s.len() || p.len() > s.len() - i {
        return false;
    }
    let n: usize = s.len();
    let mut k: usize = 0;
    while k < p.len()
        invariant
            n == s@.len(),
            i + p@.len() <= s@.len(),
            k <= p@.len(),
            i + k <= s@.len(),
            forall|m: int| 0 <= m < k ==> s@[i + m] == p@[m],
        decreases p@.len() - k,
    {
        if s[i + k] != p[k] {
            assert(s@.subrange(i as int, i + p@.len())[k as int] != p@[k as int]);
            return false;
        }
        k += 1;
    }
    assert(s@.subrange(i as int, i + p@.len()) =~= p@);
    true
}

pub fn starts_with_exec(s: &Vec<char>, p: &Vec<char>) -> (r: bool)
    ensures
        r == starts_with(s@, p@),
{
    occurs_at_exec(s, p, 0)
}

pub fn ends_with_exec(s: &Vec<char>, p: &Vec<char>) -> (r: bool)
    ensures
        r == ends_with(s@, p@),
{
    if p.len() > s.len() {
        false
    } else {
        occurs_at_exec(s, p, s.len() - p.len())
    }
}

pub fn starts_with_lit(s: &Vec<char>, p: &str) -> (r: bool)
    ensures
        r == starts_with(s@, p@),
{
    let pv = str_chars(p);
    starts_with_exec(s, &pv)
}

pub fn ends_with_lit(s: &Vec<char>, p: &str) -> (r: bool)
    ensures
        r == ends_with(s@, p@),
{
    let pv = str_chars(p);
    ends_with_exec(s, &pv)
}

/// `str::trim_start_matches` with a string pattern: the index after the
/// repeated prefix occurrences of `p` starting at `i`.
pub open spec fn strip_prefixes_from(s: Seq<char>, p: Seq<char>, i: int) -> int
    decreases s.len() - i,
{
    if p.len() > 0 && occurs_at(s, p, i) {
        strip_prefixes_from(s, p, i + p.len())
    } else {
        i
    }
}

/// `str::trim_end_matches` with a string pattern: the end after removing
/// repeated suffix occurrences of `p` ending at `j`.
pub open spec fn strip_suffixes_from(s: Seq<char>, p: Seq<char>, j: int) -> int
    decreases j,
{
    if p.len() > 0 && j - p.len() >= 0 && occurs_at(s, p, j - p.len()) {
        strip_suffixes_from(s, p, j - p.len())
    } else {
        j
    }
}

pub open spec fn trim_start_matches(s: Seq<char>, p: Seq<char>) -> Seq<char> {
    s.subrange(strip_prefixes_from(s, p, 0), s.len() as int)
}

pub open spec fn trim_end_matches(s: Seq<char>, p: Seq<char>) -> Seq<char> {
    s.subrange(0, strip_suffixes_from(s, p, s.len() as int))
}

pub fn trim_start_matches_exec(s: &Vec<char>, p: &str) -> (r: Vec<char>)
    ensures
        r@ == trim_start_matches(s@, p@),
{
    let pv = str_chars(p);
    let n: usize = s.len();
    let mut i: usize = 0;
    loop
        invariant
            n == s@.len(),
            i <= s@.len(),
            pv@ == p@,
            strip_prefixes_from(s@, p@, 0) == strip_prefixes_from(s@, p@, i as int),
        ensures
            i <= s@.len(),
            strip_prefixes_from(s@, p@, 0) == i,
        decreases s@.len() - i,
    {
        if pv.len() == 0 || !occurs_at_exec(s, &pv, i) {
            break;
        }
        i = i + pv.len();
    }
    substr(s, i, s.len())
}

pub fn trim_end_matches_exec(s: &Vec<char>, p: &str) -> (r: Vec<char>)
    ensures
        r@ == trim_end_matches(s@, p@),
{
    let pv = str_chars(p);
    let mut j: usize = s.len();
    while pv.len() > 0 && j >= pv.len() && occurs_at_exec(s, &pv, j - pv.len())
        invariant
            j <= s@.len(),
            pv@ == p@,
            strip_suffixes_from(s@, p@, s@.len() as int) == strip_suffixes_from(
                s@,
                p@,
                j as int,
            ),
        decreases j,
    {
        j = j - pv.len();
    }
    substr(s, 0, j)
}

/// `str::strip_prefix`.
pub open spec fn strip_prefix(s: Seq<char>, p: Seq<char>) -> Option<Seq<char>> {
    if starts_with(s, p) {
        Some(s.subrange(p.len() as int, s.len() as int))
    } else {
        None
    }
}

pub fn strip_prefix_exec(s: &Vec<char>, p: &str) -> (r: Option<Vec<char>>)
    ensures
        r matches Some(v) ==> strip_prefix(s@, p@) == Some(v@),
        r is None ==> strip_prefix(s@, p@) is None,
{
    let pv = str_chars(p);
    if starts_with_exec(s, &pv) {
        Some(substr(s, pv.len(), s.len()))
    } else {
        None
    }
}

// ---------------------------------------------------------------------------
// Searching
// ---------------------------------------------------------------------------

/// First index at or after `i` where `p` occurs (`str::find`).
pub open spec fn find_from(s: Seq<char>, p: Seq<char>, i: int) -> Option<int>
    decreases s.len() + 1 - i,
{
    if i < 0 || i + p.len() > s.len() {
        None
    } else if occurs_at(s, p, i) {
        Some(i)
    } else {
        find_from(s, p, i + 1)
    }
}

pub open spec fn find(s: Seq<char>, p: Seq<char>) -> Option<int> {
    find_from(s, p, 0)
}

pub open spec fn contains(s: Seq<char>, p: Seq<char>) -> bool {
    find(s, p) is Some
}

/// Last index at or before `i` where `p` occurs (`str::rfind`).
pub open spec fn rfind_from(s: Seq<char>, p: Seq<char>, i: int) -> Option<int>
    decreases i + 1,
{
    if i < 0 {
        None
    } else if occurs_at(s, p, i) {
        Some(i)
    } else {
        rfind_from(s, p, i - 1)
    }
}

pub open spec fn rfind(s: Seq<char>, p: Seq<char>) -> Option<int> {
    rfind_from(s, p, s.len() - p.len())
}

pub proof fn lemma_find_from_bounds(s: Seq<char>, p: Seq<char>, i: int)
    ensures
        find_from(s, p, i) matches Some(k) ==> (i <= k && occurs_at(s, p, k)),
    decreases s.len() + 1 - i,
{
    if i < 0 || i + p.len() > s.len() {
    } else if occurs_at(s, p, i) {
    } else {
        lemma_find_from_bounds(s, p, i + 1);
    }
}

pub proof fn lemma_rfind_from_bounds(s: Seq<char>, p: Seq<char>, i: int)
    ensures
        rfind_from(s, p, i) matches Some(k) ==> (k <= i && occurs_at(s, p, k)),
    decreases i + 1,
{
    if i >= 0 && !occurs_at(s, p, i) {
        lemma_rfind_from_bounds(s, p, i - 1);
    }
}

pub fn find_from_exec(s: &Vec<char>, p: &Vec<char>, i: usize) -> (r: Option<usize>)
    ensures
        r matches Some(k) ==> (find_from(s@, p@, i as int) == Some(k as int) && k + p@.len()
            <= s@.len()),
        r is None ==> find_from(s@, p@, i as int) is None,
{
    if p.len() > s.len() || i > s.len() - p.len() {
        return None;
    }
    let mut k: usize = i;
    loop
        invariant
            i <= k <= s@.len() - p@.len(),
            find_from(s@, p@, i as int) == find_from(s@, p@, k as int),
        decreases s@.len() + 1 - k,
    {
        if occurs_at_exec(s, p, k) {
            return Some(k);
        }
        if k >= s.len() - p.len() {
            assert(find_from(s@, p@, k + 1) is None);
            return None;
        }
        k += 1;
    }
}

pub fn find_exec(s: &Vec<char>, p: &str) -> (r: Option<usize>)
    ensures
        r matches Some(k) ==> (find(s@, p@) == Some(k as int) && k + p@.len() <= s@.len()),
        r is None ==> find(s@, p@) is None,
{
    let pv = str_chars(p);
    find_from_exec(s, &pv, 0)
}

pub fn contains_exec(s: &Vec<char>, p: &str) -> (r: bool)
    ensures
        r == contains(s@, p@),
{
    find_exec(s, p).is_some()
}

pub fn rfind_exec(s: &Vec<char>, p: &str) -> (r: Option<usize>)
    ensures
        r matches Some(k) ==> (rfind(s@, p@) == Some(k as int) && k + p@.len() <= s@.len()),
        r is None ==> rfind(s@, p@) is None,
{
    let pv = str_chars(p);
    if pv.len() > s.len() {
        assert(rfind_from(s@, p@, s@.len() - p@.len()) is None);
        return None;
    }
    let mut k: usize = s.len() - pv.len();
    loop
        invariant
            k + p@.len() <= s@.len(),
            pv@ == p@,
            rfind(s@, p@) == rfind_from(s@, p@, k as int),
        decreases k,
    {
        if occurs_at_exec(s, &pv, k) {
            return Some(k);
        }
        if k == 0 {
            assert(rfind_from(s@, p@, -1) is None);
            return None;
        }
        k -= 1;
    }
}

/// First index at or after `i` holding `c`, or `s.len()`.
pub open spec fn find_char_from(s: Seq<char>, c: char, i: int) -> int
    decreases s.len() - i,
{
    if i < 0 || i >= s.len() {
        s.len() as int
    } else if s[i] == c {
        i
    } else {
        find_char_from(s, c, i + 1)
    }
}

pub proof fn lemma_find_char_from_bounds(s: Seq<char>, c: char, i: int)
    requires
        0 <= i <= s.len(),
    ensures
        i <= find_char_from(s, c, i) <= s.len(),
        find_char_from(s, c, i) < s.len() ==> s[find_char_from(s, c, i)] == c,
    decreases s.len() - i,
{
    if i < s.len() && s[i] != c {
        lemma_find_char_from_bounds(s, c, i + 1);
    }
}

pub fn find_char_from_exec(s: &Vec<char>, c: char, i: usize) -> (r: usize)
    requires
        i <= s@.len(),
    ensures
        r == find_char_from(s@, c, i as int),
        i <= r <= s@.len(),
{
    proof {
        lemma_find_char_from_bounds(s@, c, i as int);
    }
    let mut k: usize = i;
    while k < s.len() && s[k] != c
        invariant
            i <= k <= s@.len(),
            find_char_from(s@, c, i as int) == find_char_from(s@, c, k as int),
        decreases s@.len() - k,
    {
        k += 1;
    }
    k
}

/// Last index holding `c`, searching below `j` (`None` if absent).
pub open spec fn rfind_char_below(s: Seq<char>, c: char, j: int) -> Option<int>
    decreases j,
{
    if j <= 0 || j > s.len() {
        None
    } else if s[j - 1] == c {
        Some(j - 1)
    } else {
        rfind_char_below(s, c, j - 1)
    }
}

pub fn rfind_char_exec(s: &Vec<char>, c: char) -> (r: Option<usize>)
    ensures
        r matches Some(k) ==> (rfind_char_below(s@, c, s@.len() as int) == Some(k as int) && k
            < s@.len()),
        r is None ==> rfind_char_below(s@, c, s@.len() as int) is None,
{
    let mut j: usize = s.len();
    while j > 0 && s[j - 1] != c
        invariant
            j <= s@.len(),
            rfind_char_below(s@, c, s@.len() as int) == rfind_char_below(s@, c, j as int),
        decreases j,
    {
        j -= 1;
    }
    if j == 0 {
        None
    } else {
        Some(j - 1)
    }
}

/// The part after the last `c` (`s.rsplit(c).next()`), or all of `s`.
pub open spec fn after_last(s: Seq<char>, c: char) -> Seq<char> {
    match rfind_char_below(s, c, s.len() as int) {
        Some(k) => s.subrange(k + 1, s.len() as int),
        None => s,
    }
}

pub fn after_last_exec(s: &Vec<char>, c: char) -> (r: Vec<char>)
    ensures
        r@ == after_last(s@, c),
{
    let n: usize = s.len();
    match rfind_char_exec(s, c) {
        Some(k) => substr(s, k + 1, n),
        None => s.clone(),
    }
}

// ---------------------------------------------------------------------------
// Lines
// ---------------------------------------------------------------------------

/// `s.lines().next().unwrap_or("")`: the text before the first `\n`, without a
/// `\r` that directly precedes that `\n`; empty for an empty `s`.
pub open spec fn first_line(s: Seq<char>) -> Seq<char> {
    let e = find_char_from(s, '\n', 0);
    let l = s.subrange(0, e);
    if e < s.len() && l.len() > 0 && l.last() == '\r' {
        l.drop_last()
    } else {
        l
    }
}

pub fn first_line_exec(s: &Vec<char>) -> (r: Vec<char>)
    ensures
        r@ == first_line(s@),
{
    let e = find_char_from_exec(s, '\n', 0);
    if e < s.len() && e > 0 && s[e - 1] == '\r' {
        let r = substr(s, 0, e - 1);
        assert(r@ =~= s@.subrange(0, e as int).drop_last());
        r
    } else {
        substr(s, 0, e)
    }
}

/// `s.lines().next().unwrap_or("").trim()`.
pub open spec fn first_line_trimmed(s: Seq<char>) -> Seq<char> {
    trim(first_line(s))
}

pub fn first_line_trimmed_exec(s: &Vec<char>) -> (r: Vec<char>)
    ensures
        r@ == first_line_trimmed(s@),
{
    let l = first_line_exec(s);
    trim_exec(&l)
}

// ---------------------------------------------------------------------------
// Splitting
// ---------------------------------------------------------------------------

/// The pieces of `s[i..]` separated by `c` (`str::split` with a char).
pub open spec fn split_from(s: Seq<char>, c: char, i: int) -> Seq<Seq<char>>
    decreases s.len() - i,
{
    let e = find_char_from(s, c, i);
    if i < 0 || i > s.len() || e >= s.len() {
        seq![s.subrange(i, s.len() as int)]
    } else {
        proof {
            lemma_find_char_from_bounds(s, c, i);
        }
        seq![s.subrange(i, e)] + split_from(s, c, e + 1)
    }
}

/// `s.split(c).map(|p| p.trim()).filter(|p| !p.is_empty())`, from index `i`.
pub open spec fn split_trim_from(s: Seq<char>, c: char, i: int) -> Seq<Seq<char>>
    decreases s.len() - i,
{
    if i < 0 || i > s.len() {
        seq![]
    } else {
        let e = find_char_from(s, c, i);
        let piece = trim(s.subrange(i, e));
        let here: Seq<Seq<char>> = if piece.len() > 0 {
            seq![piece]
        } else {
            seq![]
        };
        if e >= s.len() {
            here
        } else {
            proof {
                lemma_find_char_from_bounds(s, c, i);
            }
            here + split_trim_from(s, c, e + 1)
        }
    }
}

pub open spec fn split_trim(s: Seq<char>, c: char) -> Seq<Seq<char>> {
    split_trim_from(s, c, 0)
}

/// The views of a vector of strings.
pub open spec fn strings_view(v: Seq<String>) -> Seq<Seq<char>> {
    v.map_values(|x: String| x@)
}

/// `s.split(c).map(|p| p.trim().to_string()).filter(|p| !p.is_empty()).collect()`.
pub fn split_trim_exec(s: &Vec<char>, c: char) -> (r: Vec<String>)
    ensures
        strings_view(r@) == split_trim(s@, c),
{
    let mut out: Vec<String> = Vec::new();
    let mut i: usize = 0;
    loop
        invariant
            i <= s@.len(),
            strings_view(out@) + split_trim_from(s@, c, i as int) == split_trim(s@, c),
        decreases s@.len() - i,
    {
        let e = find_char_from_exec(s, c, i);
        let piece = substr(s, i, e);
        let t = trim_exec(&piece);
        let ghost old_out = out@;
        if t.len() > 0 {
            out.push(to_string(&t));
        }
        let ghost here: Seq<Seq<char>> = if t@.len() > 0 {
            seq![t@]
        } else {
            seq![]
        };
        assert(strings_view(out@) =~= strings_view(old_out) + here);
        if e >= s.len() {
            assert(split_trim_from(s@, c, i as int) == here);
            assert(strings_view(out@) =~= strings_view(out@) + Seq::<Seq<char>>::empty());
            return out;
        }
        assert(split_trim_from(s@, c, i as int) == here + split_trim_from(s@, c, e + 1));
        assert(strings_view(out@) + split_trim_from(s@, c, (e + 1) as int) =~= strings_view(
            old_out,
        ) + split_trim_from(s@, c, i as int));
        i = e + 1;
    }
}

/// Maximal runs of non-whitespace characters in `s[i..]`
/// (`str::split_whitespace`).
pub open spec fn words_from(s: Seq<char>, i: int) -> Seq<Seq<char>>
    decreases s.len() - i,
{
    let a = skip_ws(s, i);
    if i < 0 || i > s.len() || a >= s.len() {
        seq![]
    } else {
        let b = find_ws_from(s, a);
        proof {
            lemma_skip_ws_bounds(s, i);
            lemma_find_ws_from_bounds(s, a + 1);
        }
        seq![s.subrange(a, b)] + words_from(s, b)
    }
}

/// First whitespace index at or after `i`, or `s.len()`.
pub open spec fn find_ws_from(s: Seq<char>, i: int) -> int
    decreases s.len() - i,
{
    if i < 0 || i >= s.len() {
        s.len() as int
    } else if is_ws(s[i]) {
        i
    } else {
        find_ws_from(s, i + 1)
    }
}

pub proof fn lemma_find_ws_from_bounds(s: Seq<char>, i: int)
    requires
        0 <= i <= s.len(),
    ensures
        i <= find_ws_from(s, i) <= s.len(),
    decreases s.len() - i,
{
    if i < s.len() && !is_ws(s[i]) {
        lemma_find_ws_from_bounds(s, i + 1);
    }
}

pub open spec fn words(s: Seq<char>) -> Seq<Seq<char>> {
    words_from(s, 0)
}

pub fn words_exec(s: &Vec<char>) -> (r: Vec<Vec<char>>)
    ensures
        r@.map_values(|w: Vec<char>| w@) == words(s@),
{
    let mut out: Vec<Vec<char>> = Vec::new();
    let mut i: usize = 0;
    loop
        invariant
            i <= s@.len(),
            out@.map_values(|w: Vec<char>| w@) + words_from(s@, i as int) == words(s@),
        decreases s@.len() - i,
    {
        let a = skip_ws_exec(s, i);
        if a >= s.len() {
            assert(words_from(s@, i as int) =~= Seq::<Seq<char>>::empty());
            assert(out@.map_values(|w: Vec<char>| w@) =~= out@.map_values(|w: Vec<char>| w@)
                + Seq::<Seq<char>>::empty());
            return out;
        }
        let mut b: usize = a;
        while b < s.len() && !is_whitespace(s[b])
            invariant
                a <= b <= s@.len(),
                find_ws_from(s@, a as int) == find_ws_from(s@, b as int),
            decreases s@.len() - b,
        {
            b += 1;
        }
        let ghost old_out = out@;
        let w = substr(s, a, b);
        out.push(w);
        assert(out@.map_values(|w: Vec<char>| w@) =~= old_out.map_values(|w: Vec<char>| w@)
            + seq![s@.subrange(a as int, b as int)]);
        assert(b > a) by {
            lemma_skip_ws_bounds(s@, i as int);
        }
        i = b;
    }
}

// ---------------------------------------------------------------------------
// Identifiers
// ---------------------------------------------------------------------------

/// End of the run of identifier characters starting at `i`
/// (`chars().take_while(|c| c.is_alphanumeric() || c == '_')`).
pub open spec fn ident_end(s: Seq<char>, i: int) -> int
    decreases s.len() - i,
{
    if 0 <= i < s.len() && is_ident_char(s[i]) {
        ident_end(s, i + 1)
    } else {
        i
    }
}

pub proof fn lemma_ident_end_bounds(s: Seq<char>, i: int)
    requires
        0 <= i <= s.len(),
    ensures
        i <= ident_end(s, i) <= s.len(),
    decreases s.len() - i,
{
    if i < s.len() && is_ident_char(s[i]) {
        lemma_ident_end_bounds(s, i + 1);
    }
}

/// The identifier characters at the start of `s`.
pub open spec fn leading_ident(s: Seq<char>) -> Seq<char> {
    s.subrange(0, ident_end(s, 0))
}

pub fn leading_ident_exec(s: &Vec<char>) -> (r: Vec<char>)
    ensures
        r@ == leading_ident(s@),
{
    let mut k: usize = 0;
    while k < s.len() && ident_char(s[k])
        invariant
            k <= s@.len(),
            ident_end(s@, 0) == ident_end(s@, k as int),
        decreases s@.len() - k,
    {
        k += 1;
    }
    substr(s, 0, k)
}

} // verus!

verus! {

/// The lines of `s[i..]` (`str::lines`): split at `\n`, a `\r` right before
/// the `\n` dropped, no empty line after a final `\n`.
pub open spec fn lines_from(s: Seq<char>, i: int) -> Seq<Seq<char>>
    decreases s.len() - i,
{
    if i < 0 || i >= s.len() {
        seq![]
    } else {
        let e = find_char_from(s, '\n', i);
        let l = s.subrange(i, e);
        let line = if e < s.len() && l.len() > 0 && l.last() == '\r' {
            l.drop_last()
        } else {
            l
        };
        if e >= s.len() {
            seq![line]
        } else {
            proof {
                lemma_find_char_from_bounds(s, '\n', i);
            }
            seq![line] + lines_from(s, e + 1)
        }
    }
}

pub open spec fn lines(s: Seq<char>) -> Seq<Seq<char>> {
    lines_from(s, 0)
}

pub fn lines_exec(s: &Vec<char>) -> (r: Vec<Vec<char>>)
    ensures
        r@.map_values(|w: Vec<char>| w@) == lines(s@),
{
    let mut out: Vec<Vec<char>> = Vec::new();
    let mut i: usize = 0;
    loop
        invariant
            i <= s@.len(),
            out@.map_values(|w: Vec<char>| w@) + lines_from(s@, i as int) == lines(s@),
        decreases s@.len() - i,
    {
        if i >= s.len() {
            assert(out@.map_values(|w: Vec<char>| w@) =~= out@.map_values(|w: Vec<char>| w@)
                + Seq::<Seq<char>>::empty());
            return out;
        }
        let e = find_char_from_exec(s, '\n', i);
        let line = if e < s.len() && e > i && s[e - 1] == '\r' {
            let l = substr(s, i, e - 1);
            assert(l@ =~= s@.subrange(i as int, e as int).drop_last());
            l
        } else {
            substr(s, i, e)
        };
        let ghost old_out = out@;
        out.push(line);
        assert(out@.map_values(|w: Vec<char>| w@) =~= old_out.map_values(|w: Vec<char>| w@)
            + seq![line@]);
        if e >= s.len() {
            assert(lines_from(s@, i as int) == seq![line@]);
            assert(out@.map_values(|w: Vec<char>| w@) =~= out@.map_values(|w: Vec<char>| w@)
                + Seq::<Seq<char>>::empty());
            return out;
        }
        i = e + 1;
    }
}

/// `pieces.join(sep)`.
pub open spec fn join(pieces: Seq<Seq<char>>, sep: Seq<char>) -> Seq<char>
    decreases pieces.len(),
{
    if pieces.len() == 0 {
        Seq::empty()
    } else if pieces.len() == 1 {
        pieces[0]
    } else {
        join(pieces.drop_last(), sep) + sep + pieces.last()
    }
}

/// `pieces[a..b].join(sep)`.
pub fn join_range(pieces: &Vec<Vec<char>>, a: usize, b: usize, sep: &str) -> (r: Vec<char>)
    requires
        a <= b <= pieces@.len(),
    ensures
        r@ == join(pieces@.map_values(|w: Vec<char>| w@).subrange(a as int, b as int), sep@),
{
    let sv = str_chars(sep);
    let ghost all = pieces@.map_values(|w: Vec<char>| w@);
    let mut out: Vec<char> = Vec::new();
    let mut i: usize = a;
    while i < b
        invariant
            a <= i <= b <= pieces@.len(),
            sv@ == sep@,
            all == pieces@.map_values(|w: Vec<char>| w@),
            out@ == join(all.subrange(a as int, i as int), sep@),
        decreases b - i,
    {
        let ghost before = all.subrange(a as int, i as int);
        if i > a {
            out = concat(&out, &sv);
        }
        out = concat(&out, &pieces[i]);
        i += 1;
        let ghost after = all.subrange(a as int, i as int);
        assert(after.drop_last() =~= before);
        assert(after.last() == pieces@[i - 1]@);
        if i - 1 == a {
            assert(out@ =~= join(after, sep@));
        }
    }
    out
}

} // verus!

verus! {

// ---------------------------------------------------------------------------
// Decimal numbers
// ---------------------------------------------------------------------------

pub open spec fn is_digit(c: char) -> bool {
    '0' <= c && c <= '9'
}

/// The value of an ASCII digit.
pub open spec fn digit_value(c: char) -> nat {
    (c as int - '0' as int) as nat
}

/// The value of a run of ASCII digits, most significant first.
pub open spec fn digits_value(s: Seq<char>) -> nat
    decreases s.len(),
{
    if s.len() == 0 {
        0
    } else {
        digits_value(s.drop_last()) * 10 + digit_value(s.last())
    }
}

/// The digits that `str::parse::<usize>` reads: `s` without a leading `+`.
pub open spec fn usize_digits(s: Seq<char>) -> Seq<char> {
    if s.len() > 0 && s[0] == '+' {
        s.drop_first()
    } else {
        s
    }
}

/// `str::parse::<usize>`: an optional `+`, then one or more ASCII digits
/// whose value fits in a `usize`.
pub open spec fn parse_usize(s: Seq<char>) -> Option<nat> {
    let d = usize_digits(s);
    if d.len() > 0 && (forall|i: int| 0 <= i < d.len() ==> is_digit(#[trigger] d[i]))
        && digits_value(d) <= usize::MAX {
        Some(digits_value(d))
    } else {
        None
    }
}

/// A longer run of digits is worth at least as much as its prefix.
pub proof fn lemma_digits_value_prefix(s: Seq<char>, i: int, j: int)
    requires
        0 <= i <= j <= s.len(),
    ensures
        digits_value(s.take(i)) <= digits_value(s.take(j)),
    decreases j - i,
{
    if i < j {
        lemma_digits_value_prefix(s, i, j - 1);
        assert(s.take(j).drop_last() =~= s.take(j - 1));
    }
}

pub fn parse_usize_exec(s: &Vec<char>) -> (r: Option<usize>)
    ensures
        r matches Some(v) ==> parse_usize(s@) == Some(v as nat),
        r is None ==> parse_usize(s@) is None,
{
    let ghost d = usize_digits(s@);
    let start: usize = if s.len() > 0 && s[0] == '+' {
        1
    } else {
        0
    };
    assert(d =~= s@.subrange(start as int, s@.len() as int));
    if start >= s.len() {
        return None;
    }
    let mut v: usize = 0;
    let mut i: usize = start;
    while i < s.len()
        invariant
            start <= i <= s@.len(),
            d == usize_digits(s@),
            d =~= s@.subrange(start as int, s@.len() as int),
            forall|k: int| 0 <= k < i - start ==> is_digit(#[trigger] d[k]),
            v as nat == digits_value(d.take(i - start)),
        decreases s@.len() - i,
    {
        let c = s[i];
        let ghost k = i - start;
        assert(d[k] == c);
        if !('0' <= c && c <= '9') {
            assert(!is_digit(d[k]));
            return None;
        }
        let dv = (c as u32 - '0' as u32) as usize;
        assert(dv as nat == digit_value(c));
        assert(d.take(k + 1).drop_last() =~= d.take(k));
        assert(d.take(k + 1).last() == c);
        assert(digits_value(d.take(k + 1)) == v * 10 + dv);
        let m = v.checked_mul(10);
        let nv = match m {
            Some(m) => m.checked_add(dv),
            None => None,
        };
        match nv {
            Some(x) => {
                v = x;
            },
            None => {
                proof {
                    lemma_digits_value_prefix(d, k + 1, d.len() as int);
                    assert(d.take(d.len() as int) =~= d);
                }
                return None;
            },
        }
        i += 1;
    }
    assert(d.take(d.len() as int) =~= d);
    Some(v)
}

/// The ASCII digit of a value below ten.
pub open spec fn digit_char(d: nat) -> char {
    if d == 0 {
        '0'
    } else if d == 1 {
        '1'
    } else if d == 2 {
        '2'
    } else if d == 3 {
        '3'
    } else if d == 4 {
        '4'
    } else if d == 5 {
        '5'
    } else if d == 6 {
        '6'
    } else if d == 7 {
        '7'
    } else if d == 8 {
        '8'
    } else {
        '9'
    }
}

fn digit_char_exec(d: usize) -> (r: char)
    ensures
        r == digit_char(d as nat),
{
    if d == 0 {
        '0'
    } else if d == 1 {
        '1'
    } else if d == 2 {
        '2'
    } else if d == 3 {
        '3'
    } else if d == 4 {
        '4'
    } else if d == 5 {
        '5'
    } else if d == 6 {
        '6'
    } else if d == 7 {
        '7'
    } else if d == 8 {
        '8'
    } else {
        '9'
    }
}

/// The decimal representation of `n` (what `format!("{}", n)` writes).
pub open spec fn decimal(n: nat) -> Seq<char>
    decreases n,
{
    if n < 10 {
        seq![digit_char(n)]
    } else {
        decimal(n / 10).push(digit_char(n % 10))
    }
}

pub fn decimal_exec(n: usize) -> (r: Vec<char>)
    ensures
        r@ == decimal(n as nat),
    decreases n,
{
    let digit = digit_char_exec(n % 10);
    if n < 10 {
        let mut v: Vec<char> = Vec::new();
        v.push(digit);
        assert(v@ =~= seq![digit]);
        v
    } else {
        let mut v = decimal_exec(n / 10);
        v.push(digit);
        v
    }
}

} // verus!

verus! {

// ---------------------------------------------------------------------------
// Facts about searching, trimming and splitting
// ---------------------------------------------------------------------------

/// A character that does not occur from `i` on is not found.
pub proof fn lemma_find_char_absent(s: Seq<char>, c: char, i: int)
    requires
        0 <= i,
        forall|p: int| i <= p < s.len() ==> s[p] != c,
    ensures
        find_char_from(s, c, i) == s.len(),
    decreases s.len() - i,
{
    if i < s.len() {
        lemma_find_char_absent(s, c, i + 1);
    }
}

/// The first occurrence at or after `i` is `k` when `p` occurs at `k` and
/// nowhere in between.
pub proof fn lemma_find_from_is(s: Seq<char>, p: Seq<char>, i: int, k: int)
    requires
        0 <= i <= k,
        occurs_at(s, p, k),
        forall|q: int| i <= q < k ==> !occurs_at(s, p, q),
    ensures
        find_from(s, p, i) == Some(k),
    decreases k - i,
{
    if i < k {
        lemma_find_from_is(s, p, i + 1, k);
    }
}

/// Trailing whitespace is cut back no further than past a character that
/// is not whitespace.
pub proof fn lemma_back_ws_stops(s: Seq<char>, j: int, lo: int, q: int)
    requires
        0 <= lo < q <= j <= s.len(),
        !is_ws(s[q - 1]),
    ensures
        q <= back_ws(s, j, lo),
    decreases j - lo,
{
    if lo < j && is_ws(s[j - 1]) {
        lemma_back_ws_stops(s, j - 1, lo, q);
    }
}

/// The first whitespace at or after `i` is at `q` when none is before it and
/// `q` is whitespace or the end.
pub proof fn lemma_find_ws_from_is(s: Seq<char>, i: int, q: int)
    requires
        0 <= i <= q <= s.len(),
        forall|p: int| i <= p < q ==> !is_ws(s[p]),
        q == s.len() || is_ws(s[q]),
    ensures
        find_ws_from(s, i) == q,
    decreases q - i,
{
    if i < q {
        lemma_find_ws_from_is(s, i + 1, q);
    }
}

pub proof fn lemma_skip_set_bounds(s: Seq<char>, set: Seq<char>, i: int)
    requires
        0 <= i <= s.len(),
    ensures
        i <= skip_set(s, set, i) <= s.len(),
    decreases s.len() - i,
{
    if i < s.len() && set.contains(s[i]) {
        lemma_skip_set_bounds(s, set, i + 1);
    }
}

pub proof fn lemma_back_set_bounds(s: Seq<char>, set: Seq<char>, j: int, lo: int)
    requires
        0 <= lo <= j <= s.len(),
    ensures
        lo <= back_set(s, set, j, lo) <= j,
    decreases j - lo,
{
    if lo < j && set.contains(s[j - 1]) {
        lemma_back_set_bounds(s, set, j - 1, lo);
    }
}

/// Trimming the characters of `set` from a text that starts and ends with
/// one of them keeps only characters strictly inside it.
pub proof fn lemma_trim_set_inside(s: Seq<char>, set: Seq<char>)
    requires
        s.len() >= 2,
        set.contains(s[0]),
        set.contains(s[s.len() - 1]),
    ensures
        forall|k: int|
            0 <= k < trim_set(s, set).len() ==> exists|p: int|
                1 <= p < s.len() - 1 && #[trigger] trim_set(s, set)[k] == s[p],
{
    let a = skip_set(s, set, 0);
    lemma_skip_set_bounds(s, set, 1);
    assert(a == skip_set(s, set, 1));
    lemma_back_set_bounds(s, set, s.len() as int, a);
    let b = back_set(s, set, s.len() as int, a);
    if a < s.len() {
        lemma_back_set_bounds(s, set, s.len() - 1, a);
        assert(b == back_set(s, set, s.len() - 1, a));
    }
    assert forall|k: int| 0 <= k < trim_set(s, set).len() implies exists|p: int|
        1 <= p < s.len() - 1 && #[trigger] trim_set(s, set)[k] == s[p] by {
        assert(trim_set(s, set)[k] == s[a + k]);
    }
}

/// Every piece of a split holds only characters of the text split.
pub proof fn lemma_split_trim_chars(s: Seq<char>, c: char, i: int, bad: spec_fn(char) -> bool)
    requires
        0 <= i,
        forall|p: int| 0 <= p < s.len() ==> !bad(#[trigger] s[p]),
    ensures
        forall|j: int, k: int|
            0 <= j < split_trim_from(s, c, i).len() && 0 <= k < split_trim_from(s, c, i)[j].len()
                ==> !bad(#[trigger] split_trim_from(s, c, i)[j][k]),
    decreases s.len() - i,
{
    if i <= s.len() {
        let e = find_char_from(s, c, i);
        lemma_find_char_from_bounds(s, c, i);
        let sub = s.subrange(i, e);
        let piece = trim(sub);
        lemma_skip_ws_bounds(sub, 0);
        lemma_back_ws_bounds(sub, sub.len() as int, skip_ws(sub, 0));
        assert forall|k: int| 0 <= k < piece.len() implies !bad(#[trigger] piece[k]) by {
            assert(piece[k] == s[i + skip_ws(sub, 0) + k]);
        }
        let here: Seq<Seq<char>> = if piece.len() > 0 {
            seq![piece]
        } else {
            seq![]
        };
        if e < s.len() {
            lemma_split_trim_chars(s, c, e + 1, bad);
            let rest = split_trim_from(s, c, e + 1);
            assert(split_trim_from(s, c, i) == here + rest);
            assert forall|j: int, k: int|
                0 <= j < split_trim_from(s, c, i).len() && 0 <= k < split_trim_from(
                    s,
                    c,
                    i,
                )[j].len() implies !bad(#[trigger] split_trim_from(s, c, i)[j][k]) by {
                if j < here.len() {
                    assert(split_trim_from(s, c, i)[j] == piece);
                } else {
                    assert(split_trim_from(s, c, i)[j] == rest[j - here.len()]);
                }
            }
        } else {
            assert(split_trim_from(s, c, i) == here);
        }
    }
}

} // verus!
