//! Markdown: headings (named by their text, or by their level when empty)
//! and fenced code blocks (named by their language), found at any depth.
//! The library links no Markdown grammar, so the extraction works on a tree
//! that a caller parsed, and the language is not registered by default.
use vstd::prelude::*;
use crate::parser::language::{exports_public, group_exports_public, lemma_fold_exports_public};
use crate::parser::common::{plain_decl_exec, plain_decl_item};
use crate::parser::language::{
    fold_items, fold_nodes, ParseResult, ResultView, SymbolKind, Visibility,
};
use crate::syntax::{
    find_child, first_child_in, kind_is, ks2, ks3, node_text, text_of, SyntaxNode, SyntaxTree,
};
use crate::text::{
    concat, decimal, decimal_exec, ends_with, ends_with_lit, parse_usize, parse_usize_exec,
    starts_with, starts_with_lit, str_chars, trim, trim_end_matches, trim_end_matches_exec,
    trim_exec, trim_start_matches, trim_start_matches_exec,
};

verus! {

pub struct MarkdownLanguage;

/// A heading's text: its content child, trimmed; else its text without the
/// leading `#`s, trimmed.
pub open spec fn md_heading_text(src: Seq<char>, n: SyntaxNode) -> Seq<char> {
    match first_child_in(n.children@, seq!["heading_content"@, "inline"@, "paragraph"@], 0) {
        Some(k) => trim(text_of(src, n.children@[k])),
        None => trim(trim_start_matches(trim(text_of(src, n)), "#"@)),
    }
}

/// The level of the first `atx_h<N>_marker` child (from `i` on) whose `N`
/// parses as a number.
pub open spec fn md_marker_level_from(ch: Seq<SyntaxNode>, i: int) -> Option<nat>
    decreases ch.len() - i,
{
    if i < 0 || i >= ch.len() {
        None
    } else {
        let k = ch[i].kind@;
        if starts_with(k, "atx_h"@) && ends_with(k, "_marker"@) && parse_usize(
            trim_end_matches(trim_start_matches(k, "atx_h"@), "_marker"@),
        ) is Some {
            parse_usize(trim_end_matches(trim_start_matches(k, "atx_h"@), "_marker"@))
        } else {
            md_marker_level_from(ch, i + 1)
        }
    }
}

/// End of the run of `#` starting at `i`.
pub open spec fn hash_run_end(s: Seq<char>, i: int) -> int
    decreases s.len() - i,
{
    if 0 <= i < s.len() && s[i] == '#' {
        hash_run_end(s, i + 1)
    } else {
        i
    }
}

pub proof fn lemma_hash_run_end_bounds(s: Seq<char>, i: int)
    requires
        0 <= i <= s.len(),
    ensures
        i <= hash_run_end(s, i) <= s.len(),
    decreases s.len() - i,
{
    if i < s.len() && s[i] == '#' {
        lemma_hash_run_end_bounds(s, i + 1);
    }
}

/// A heading's level: from its marker, else the number of leading `#`s (at
/// least one).
pub open spec fn md_level(src: Seq<char>, n: SyntaxNode) -> nat {
    match md_marker_level_from(n.children@, 0) {
        Some(v) => v,
        None => {
            let c = hash_run_end(text_of(src, n), 0);
            if c < 1 {
                1
            } else {
                c as nat
            }
        },
    }
}

/// A heading's name: its text, or `h<level>` when the text is empty.
pub open spec fn md_heading_name(src: Seq<char>, n: SyntaxNode) -> Seq<char> {
    let t = md_heading_text(src, n);
    if t.len() == 0 {
        "h"@ + decimal(md_level(src, n))
    } else {
        t
    }
}

/// A code block's name, with its language when it declares one.
pub open spec fn md_code_name(src: Seq<char>, n: SyntaxNode) -> Seq<char> {
    let lang = match first_child_in(n.children@, seq!["info_string"@, "language"@], 0) {
        Some(k) => trim(text_of(src, n.children@[k])),
        None => Seq::empty(),
    };
    if lang.len() == 0 {
        "code block"@
    } else {
        "code block ("@ + lang + ")"@
    }
}

pub open spec fn is_md_heading(k: Seq<char>) -> bool {
    k == "atx_heading"@ || k == "setext_heading"@
}

/// What a child contributes by itself: a heading or a code block.
pub open spec fn md_own(src: Seq<char>, c: SyntaxNode) -> ResultView {
    if is_md_heading(c.kind@) {
        plain_decl_item(src, c, md_heading_name(src, c), SymbolKind::Heading, Visibility::Public)
    } else if c.kind@ == "fenced_code_block"@ {
        plain_decl_item(src, c, md_code_name(src, c), SymbolKind::Block, Visibility::Public)
    } else {
        ResultView::empty()
    }
}

/// A visit of `n`: what its children give by themselves, then what the other
/// children that have children give, last first (as a stack pops them).
pub open spec fn md_visit(src: Seq<char>, n: SyntaxNode) -> ResultView
    decreases n, 1nat,
{
    fold_items(n.children@, |c: SyntaxNode| md_own(src, c)).add(
        md_containers(src, n.children@, n.children@.len() as nat),
    )
}

pub open spec fn md_containers(src: Seq<char>, ch: Seq<SyntaxNode>, k: nat) -> ResultView
    decreases ch, k,
{
    if k == 0 || k > ch.len() {
        ResultView::empty()
    } else {
        md_container(src, ch[k - 1]).add(md_containers(src, ch, (k - 1) as nat))
    }
}

pub open spec fn md_container(src: Seq<char>, c: SyntaxNode) -> ResultView
    decreases c, 2nat,
{
    if is_md_heading(c.kind@) || c.kind@ == "fenced_code_block"@ || c.children@.len() == 0 {
        ResultView::empty()
    } else {
        md_visit(src, c)
    }
}

impl MarkdownLanguage {
    fn heading_text(src: &Vec<char>, n: &SyntaxNode) -> (r: Vec<char>)
        ensures
            r@ == md_heading_text(src@, *n),
    {
        match find_child(n, &ks3("heading_content", "inline", "paragraph")) {
            Some(k) => trim_exec(&node_text(src, &n.children[k])),
            None => trim_exec(&trim_start_matches_exec(&trim_exec(&node_text(src, n)), "#")),
        }
    }

    fn heading_level(src: &Vec<char>, n: &SyntaxNode) -> (r: usize)
        ensures
            r as nat == md_level(src@, *n),
    {
        let mut i: usize = 0;
        while i < n.children.len()
            invariant
                md_marker_level_from(n.children@, 0) == md_marker_level_from(n.children@, i as int),
            decreases n.children@.len() - i,
        {
            let k = str_chars(n.children[i].kind.as_str());
            if starts_with_lit(&k, "atx_h") && ends_with_lit(&k, "_marker") {
                let digits = trim_end_matches_exec(&trim_start_matches_exec(&k, "atx_h"), "_marker");
                match parse_usize_exec(&digits) {
                    Some(v) => {
                        return v;
                    },
                    None => {},
                }
            }
            i += 1;
        }
        let t = node_text(src, n);
        proof {
            lemma_hash_run_end_bounds(t@, 0);
        }
        let mut c: usize = 0;
        while c < t.len() && t[c] == '#'
            invariant
                c <= t@.len(),
                hash_run_end(t@, 0) == hash_run_end(t@, c as int),
            decreases t@.len() - c,
        {
            c += 1;
        }
        if c < 1 {
            1
        } else {
            c
        }
    }

    fn heading_name(src: &Vec<char>, n: &SyntaxNode) -> (r: Vec<char>)
        ensures
            r@ == md_heading_name(src@, *n),
    {
        let t = Self::heading_text(src, n);
        if t.len() == 0 {
            let level = Self::heading_level(src, n);
            concat(&str_chars("h"), &decimal_exec(level))
        } else {
            t
        }
    }

    fn code_name(src: &Vec<char>, n: &SyntaxNode) -> (r: Vec<char>)
        ensures
            r@ == md_code_name(src@, *n),
    {
        let lang = match find_child(n, &ks2("info_string", "language")) {
            Some(k) => trim_exec(&node_text(src, &n.children[k])),
            None => Vec::new(),
        };
        if lang.len() == 0 {
            str_chars("code block")
        } else {
            let open = concat(&str_chars("code block ("), &lang);
            concat(&open, &str_chars(")"))
        }
    }

    fn own_item(src: &Vec<char>, c: &SyntaxNode) -> (r: ParseResult)
        ensures
            r@ == md_own(src@, *c),
    {
        if kind_is(c, "atx_heading") || kind_is(c, "setext_heading") {
            let name = Self::heading_name(src, c);
            plain_decl_exec(src, c, &name, SymbolKind::Heading, Visibility::Public)
        } else if kind_is(c, "fenced_code_block") {
            let name = Self::code_name(src, c);
            plain_decl_exec(src, c, &name, SymbolKind::Block, Visibility::Public)
        } else {
            ParseResult::empty()
        }
    }

    fn visit(src: &Vec<char>, n: &SyntaxNode) -> (r: ParseResult)
        ensures
            r@ == md_visit(src@, *n),
        decreases *n, 1nat,
    {
        let mut out = fold_nodes(src, &n.children, Self::own_item, Ghost(|c: SyntaxNode| md_own(src@, c)));
        let rest = Self::containers(src, &n.children, n.children.len());
        out.absorb(rest);
        out
    }

    fn containers(src: &Vec<char>, ch: &Vec<SyntaxNode>, k: usize) -> (r: ParseResult)
        requires
            k <= ch@.len(),
        ensures
            r@ == md_containers(src@, ch@, k as nat),
        decreases ch@, k,
    {
        if k == 0 {
            return ParseResult::empty();
        }
        let mut out = Self::container(src, &ch[k - 1]);
        let rest = Self::containers(src, ch, k - 1);
        out.absorb(rest);
        out
    }

    fn container(src: &Vec<char>, c: &SyntaxNode) -> (r: ParseResult)
        ensures
            r@ == md_container(src@, *c),
        decreases *c, 2nat,
    {
        if kind_is(c, "atx_heading") || kind_is(c, "setext_heading") || kind_is(
            c,
            "fenced_code_block",
        ) || c.children.len() == 0 {
            ParseResult::empty()
        } else {
            Self::visit(src, c)
        }
    }
}

/// What Markdown extraction returns for a source text and the root of its
/// tree.
pub open spec fn markdown_extract(source: Seq<char>, root: SyntaxNode) -> ResultView {
    md_visit(source, root)
}

impl MarkdownLanguage {
    /// The name under which the language is known.
    pub fn name(&self) -> (r: &str)
        ensures
            r@ == "markdown"@,
    {
        "markdown"
    }

    /// The symbols, imports and exports of `source`, whose tree is `tree`.
    pub fn extract(&self, source: &str, tree: &SyntaxTree) -> (r: ParseResult)
        ensures
            r@ == markdown_extract(source@, tree.root),
    {
        let src = str_chars(source);
        Self::visit(&src, &tree.root)
    }
}

} // verus!

verus! {

proof fn lemma_md_visit_exports(src: Seq<char>, n: SyntaxNode)
    ensures
        exports_public(md_visit(src, n)),
    decreases n, 1nat,
{
    broadcast use group_exports_public;

    lemma_fold_exports_public(n.children@, |c: SyntaxNode| md_own(src, c));
    lemma_md_containers_exports(src, n.children@, n.children@.len() as nat);
}

proof fn lemma_md_containers_exports(src: Seq<char>, ch: Seq<SyntaxNode>, k: nat)
    ensures
        exports_public(md_containers(src, ch, k)),
    decreases ch, k,
{
    broadcast use group_exports_public;

    if k > 0 && k <= ch.len() {
        lemma_md_container_exports(src, ch[k - 1]);
        lemma_md_containers_exports(src, ch, (k - 1) as nat);
    }
}

proof fn lemma_md_container_exports(src: Seq<char>, c: SyntaxNode)
    ensures
        exports_public(md_container(src, c)),
    decreases c, 2nat,
{
    broadcast use group_exports_public;

    if !(is_md_heading(c.kind@) || c.kind@ == "fenced_code_block"@ || c.children@.len() == 0) {
        lemma_md_visit_exports(src, c);
    }
}

/// Every export of what Markdown extraction finds names a public symbol of
/// the same kind: nothing is exported that is not declared public.
pub proof fn law_exports_are_public(source: Seq<char>, root: SyntaxNode)
    ensures
        exports_public(md_visit(source, root)),
{
    broadcast use group_exports_public;

    lemma_md_visit_exports(source, root);
}

} // verus!
