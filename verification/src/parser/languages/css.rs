//! CSS: rule sets (named by their selectors), at-rules, custom properties
//! (at the top level or in rule blocks, at any depth) and `@import`s.
use vstd::prelude::*;
use crate::parser::language::{exports_public, group_exports_public, lemma_fold_exports_public};
use crate::parser::common::{
    import_exec, import_item, opt_import, path_import, path_import_exec, plain_decl_exec,
    plain_decl_item,
};
use crate::parser::language::{
    fold_items, fold_nodes, Import, LanguageSupport, ParseResult, ResultView, SymbolKind,
    Visibility,
};
use crate::syntax::{
    first_child_in, find_child, first_line_of, kind_is, ks1, node_first_line, node_text, text_of,
    SyntaxNode, SyntaxTree,
};
use crate::text::{concat, is_whitespace, is_ws, starts_with, starts_with_lit, str_chars, substr, trim, trim_end_matches, trim_end_matches_exec, trim_exec, trim_set, trim_set_exec, trim_start_matches, trim_start_matches_exec};

verus! {

pub struct CssLanguage;

/// The grammar of `tree_sitter_css` (`LANGUAGE`).
#[verifier::external_body]
fn grammar() -> tree_sitter::Language {
    tree_sitter_css::LANGUAGE.into()
}

/// A rule set's name: its selectors, trimmed; its first line without them.
pub open spec fn css_selector(src: Seq<char>, n: SyntaxNode) -> Seq<char> {
    match first_child_in(n.children@, seq!["selectors"@], 0) {
        Some(k) => trim(text_of(src, n.children@[k])),
        None => first_line_of(src, n),
    }
}

/// The path of `@import url("...")` or `@import "..."`.
pub open spec fn css_import_path(t: Seq<char>) -> Seq<char> {
    let a = trim(trim_start_matches(t, "@import"@));
    trim_set(
        trim_set(
            trim(trim_end_matches(trim_end_matches(trim_start_matches(a, "url("@), ")"@), ";"@)),
            seq!['"'],
        ),
        seq!['\''],
    )
}

pub open spec fn css_import(src: Seq<char>, n: SyntaxNode) -> Option<crate::parser::language::ImportView> {
    let t = text_of(src, n);
    if !starts_with(t, "@import"@) {
        None
    } else {
        path_import(css_import_path(t))
    }
}

/// The first property name (from child `i` on) that starts with `--`.
pub open spec fn css_custom_from(src: Seq<char>, ch: Seq<SyntaxNode>, i: int) -> Option<Seq<char>>
    decreases ch.len() - i,
{
    if i < 0 || i >= ch.len() {
        None
    } else if ch[i].kind@ == "property_name"@ && starts_with(text_of(src, ch[i]), "--"@) {
        Some(text_of(src, ch[i]))
    } else {
        css_custom_from(src, ch, i + 1)
    }
}

/// A custom property declaration, as a variable.
pub open spec fn css_var(src: Seq<char>, n: SyntaxNode) -> ResultView {
    match css_custom_from(src, n.children@, 0) {
        Some(name) => plain_decl_item(src, n, name, SymbolKind::Variable, Visibility::Public),
        None => ResultView::empty(),
    }
}

/// End of an at-rule's name: the first whitespace, `{` or `(` from `i`.
pub open spec fn css_word_end(s: Seq<char>, i: int) -> int
    decreases s.len() - i,
{
    if i < 0 || i >= s.len() {
        s.len() as int
    } else if is_ws(s[i]) || s[i] == '{' || s[i] == '(' {
        i
    } else {
        css_word_end(s, i + 1)
    }
}

pub proof fn lemma_css_word_end_bounds(s: Seq<char>, i: int)
    requires
        0 <= i <= s.len(),
    ensures
        i <= css_word_end(s, i) <= s.len(),
    decreases s.len() - i,
{
    if i < s.len() && !(is_ws(s[i]) || s[i] == '{' || s[i] == '(') {
        lemma_css_word_end_bounds(s, i + 1);
    }
}

/// An at-rule's name: `@` and the word after the leading `@`s.
pub open spec fn css_at_name(t: Seq<char>) -> Seq<char> {
    let a = trim_start_matches(t, "@"@);
    seq!['@'] + a.subrange(0, css_word_end(a, 0))
}

pub open spec fn is_css_at_rule(k: Seq<char>) -> bool {
    k == "media_statement"@ || k == "keyframes_statement"@ || k == "supports_statement"@ || k
        == "charset_statement"@ || k == "namespace_statement"@
}

/// The custom properties of a block and of the blocks nested in it.
pub open spec fn css_block(src: Seq<char>, n: SyntaxNode) -> ResultView
    decreases n, 1nat,
{
    css_block_from(src, n.children@, n.children@.len() as nat)
}

pub open spec fn css_block_from(src: Seq<char>, ch: Seq<SyntaxNode>, k: nat) -> ResultView
    decreases ch, k,
{
    if k == 0 || k > ch.len() {
        ResultView::empty()
    } else {
        css_block_from(src, ch, (k - 1) as nat).add(css_block_child(src, ch[k - 1]))
    }
}

pub open spec fn css_block_child(src: Seq<char>, c: SyntaxNode) -> ResultView
    decreases c, 2nat,
{
    if c.kind@ == "declaration"@ {
        css_var(src, c)
    } else if c.kind@ == "block"@ {
        css_block(src, c)
    } else {
        ResultView::empty()
    }
}

pub open spec fn css_rule_block(src: Seq<char>, c: SyntaxNode) -> ResultView {
    if c.kind@ == "block"@ {
        css_block(src, c)
    } else {
        ResultView::empty()
    }
}

/// What one top-level node contributes.
pub open spec fn css_item(src: Seq<char>, n: SyntaxNode) -> ResultView {
    let k = n.kind@;
    if k == "rule_set"@ {
        plain_decl_item(src, n, css_selector(src, n), SymbolKind::Selector, Visibility::Public).add(
            fold_items(n.children@, |c: SyntaxNode| css_rule_block(src, c)),
        )
    } else if k == "import_statement"@ {
        import_item(css_import(src, n))
    } else if is_css_at_rule(k) {
        plain_decl_item(
            src,
            n,
            css_at_name(text_of(src, n)),
            SymbolKind::Rule,
            Visibility::Public,
        )
    } else if k == "declaration"@ {
        css_var(src, n)
    } else {
        ResultView::empty()
    }
}

impl CssLanguage {
    fn selector(src: &Vec<char>, n: &SyntaxNode) -> (r: Vec<char>)
        ensures
            r@ == css_selector(src@, *n),
    {
        match find_child(n, &ks1("selectors")) {
            Some(k) => trim_exec(&node_text(src, &n.children[k])),
            None => node_first_line(src, n),
        }
    }

    fn import_of(src: &Vec<char>, n: &SyntaxNode) -> (r: Option<Import>)
        ensures
            opt_import(r) == css_import(src@, *n),
    {
        let t = node_text(src, n);
        if !starts_with_lit(&t, "@import") {
            return None;
        }
        let a = trim_exec(&trim_start_matches_exec(&t, "@import"));
        let b = trim_start_matches_exec(&a, "url(");
        let c = trim_exec(&trim_end_matches_exec(&trim_end_matches_exec(&b, ")"), ";"));
        let dq = ['"'];
        let sq = ['\''];
        assert(dq@ == seq!['"']);
        assert(sq@ == seq!['\'']);
        let path = trim_set_exec(&trim_set_exec(&c, &dq), &sq);
        path_import_exec(&path)
    }

    fn custom_property(src: &Vec<char>, n: &SyntaxNode) -> (r: Option<Vec<char>>)
        ensures
            r matches Some(v) ==> css_custom_from(src@, n.children@, 0) == Some(v@),
            r is None ==> css_custom_from(src@, n.children@, 0) is None,
    {
        let mut i: usize = 0;
        while i < n.children.len()
            invariant
                css_custom_from(src@, n.children@, 0) == css_custom_from(src@, n.children@, i as int),
            decreases n.children@.len() - i,
        {
            let c = &n.children[i];
            if kind_is(c, "property_name") {
                let t = node_text(src, c);
                if starts_with_lit(&t, "--") {
                    return Some(t);
                }
            }
            i += 1;
        }
        None
    }

    fn var_items(src: &Vec<char>, n: &SyntaxNode) -> (r: ParseResult)
        ensures
            r@ == css_var(src@, *n),
    {
        match Self::custom_property(src, n) {
            Some(name) => plain_decl_exec(src, n, &name, SymbolKind::Variable, Visibility::Public),
            None => ParseResult::empty(),
        }
    }

    fn at_rule_name(t: &Vec<char>) -> (r: Vec<char>)
        ensures
            r@ == css_at_name(t@),
    {
        let a = trim_start_matches_exec(t, "@");
        proof {
            lemma_css_word_end_bounds(a@, 0);
        }
        let mut e: usize = 0;
        while e < a.len() && !(is_whitespace(a[e]) || a[e] == '{' || a[e] == '(')
            invariant
                e <= a@.len(),
                css_word_end(a@, 0) == css_word_end(a@, e as int),
            decreases a@.len() - e,
        {
            e += 1;
        }
        let at = str_chars("@");
        proof {
            reveal_strlit("@");
        }
        assert(at@ == seq!['@']);
        concat(&at, &substr(&a, 0, e))
    }

    /// The custom properties in a block and the blocks nested in it.
    fn extract_variables_from_block(src: &Vec<char>, n: &SyntaxNode) -> (r: ParseResult)
        ensures
            r@ == css_block(src@, *n),
        decreases *n, 1nat,
    {
        let mut out = ParseResult::empty();
        let mut i: usize = 0;
        while i < n.children.len()
            invariant
                i <= n.children@.len(),
                out@ == css_block_from(src@, n.children@, i as nat),
            decreases n.children@.len() - i,
        {
            let part = Self::block_child(src, &n.children[i]);
            out.absorb(part);
            i += 1;
        }
        out
    }

    fn block_child(src: &Vec<char>, c: &SyntaxNode) -> (r: ParseResult)
        ensures
            r@ == css_block_child(src@, *c),
        decreases *c, 2nat,
    {
        if kind_is(c, "declaration") {
            Self::var_items(src, c)
        } else if kind_is(c, "block") {
            Self::extract_variables_from_block(src, c)
        } else {
            ParseResult::empty()
        }
    }

    fn rule_block(src: &Vec<char>, c: &SyntaxNode) -> (r: ParseResult)
        ensures
            r@ == css_rule_block(src@, *c),
    {
        if kind_is(c, "block") {
            Self::extract_variables_from_block(src, c)
        } else {
            ParseResult::empty()
        }
    }

    fn item(src: &Vec<char>, n: &SyntaxNode) -> (r: ParseResult)
        ensures
            r@ == css_item(src@, *n),
    {
        if kind_is(n, "rule_set") {
            let name = Self::selector(src, n);
            let mut out = plain_decl_exec(src, n, &name, SymbolKind::Selector, Visibility::Public);
            let vars = fold_nodes(
                src,
                &n.children,
                Self::rule_block,
                Ghost(|c: SyntaxNode| css_rule_block(src@, c)),
            );
            out.absorb(vars);
            out
        } else if kind_is(n, "import_statement") {
            import_exec(Self::import_of(src, n))
        } else if kind_is(n, "media_statement") || kind_is(n, "keyframes_statement") || kind_is(
            n,
            "supports_statement",
        ) || kind_is(n, "charset_statement") || kind_is(n, "namespace_statement") {
            let name = Self::at_rule_name(&node_text(src, n));
            plain_decl_exec(src, n, &name, SymbolKind::Rule, Visibility::Public)
        } else if kind_is(n, "declaration") {
            Self::var_items(src, n)
        } else {
            ParseResult::empty()
        }
    }
}

impl LanguageSupport for CssLanguage {
    open spec fn spec_name(&self) -> Seq<char> {
        "css"@
    }

    open spec fn spec_extract(&self, source: Seq<char>, root: SyntaxNode) -> ResultView {
        fold_items(root.children@, |n: SyntaxNode| css_item(source, n))
    }

    fn ts_language(&self) -> tree_sitter::Language {
        grammar()
    }

    fn name(&self) -> (r: &str) {
        "css"
    }

    fn extract(&self, source: &str, tree: &SyntaxTree) -> (r: ParseResult) {
        let src = str_chars(source);
        fold_nodes(&src, &tree.root.children, Self::item, Ghost(|n: SyntaxNode| css_item(src@, n)))
    }
}

} // verus!

verus! {

proof fn lemma_css_block_exports(src: Seq<char>, n: SyntaxNode)
    ensures
        exports_public(css_block(src, n)),
    decreases n, 1nat,
{
    lemma_css_block_from_exports(src, n.children@, n.children@.len() as nat);
}

proof fn lemma_css_block_from_exports(src: Seq<char>, ch: Seq<SyntaxNode>, k: nat)
    ensures
        exports_public(css_block_from(src, ch, k)),
    decreases ch, k,
{
    broadcast use group_exports_public;

    if k > 0 && k <= ch.len() {
        lemma_css_block_from_exports(src, ch, (k - 1) as nat);
        lemma_css_block_child_exports(src, ch[k - 1]);
    }
}

proof fn lemma_css_block_child_exports(src: Seq<char>, c: SyntaxNode)
    ensures
        exports_public(css_block_child(src, c)),
    decreases c, 2nat,
{
    broadcast use group_exports_public;

    if c.kind@ == "block"@ {
        lemma_css_block_exports(src, c);
    }
}

/// Every export of what CSS extraction finds names a public symbol of
/// the same kind: nothing is exported that is not declared public.
pub proof fn law_exports_are_public(source: Seq<char>, root: SyntaxNode)
    ensures
        exports_public(CssLanguage.spec_extract(source, root)),
{
    broadcast use group_exports_public;

    assert forall|n: SyntaxNode| exports_public(#[trigger] css_item(source, n)) by {
        assert forall|c: SyntaxNode| exports_public(#[trigger] css_rule_block(source, c)) by {
            lemma_css_block_exports(source, c);
        }
        lemma_fold_exports_public(n.children@, |c: SyntaxNode| css_rule_block(source, c));
    }
    lemma_fold_exports_public(root.children@, |n: SyntaxNode| css_item(source, n));
}

} // verus!
