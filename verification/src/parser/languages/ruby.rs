//! Ruby: methods, singleton methods, classes and modules (with what their
//! bodies define), and `require` / `require_relative` calls.
use vstd::prelude::*;
use crate::parser::language::LanguageSupport;
use crate::parser::language::{exports_public, group_exports_public};
use crate::parser::common::{
    callable_exec, callable_item, decl_exec, decl_item, import_exec, import_item, opt_import,
};
use crate::parser::language::{make_import, one_name, Import, ImportView, ParseResult, ResultView, SymbolKind, Visibility};
use crate::syntax::{
    child_by_field, child_text, child_text_exec, field_child, first_line_of, kind_is, ks2,
    lemma_field_child_from, node_first_line, node_text, text_of, SyntaxNode, SyntaxTree,
};
use crate::text::{
    after_last, after_last_exec, is_lit, str_chars, trim_end_matches, trim_end_matches_exec,
    trim_set, trim_set_exec, trim_start_matches, trim_start_matches_exec,
};

verus! {

pub struct RubyLanguage;

/// The grammar of `tree_sitter_ruby` (`LANGUAGE`, converted to a `Language`).
#[verifier::external_body]
fn grammar() -> tree_sitter::Language {
    tree_sitter_ruby::LANGUAGE.into()
}

pub open spec fn rb_name(src: Seq<char>, n: SyntaxNode) -> Seq<char> {
    child_text(src, n, seq!["identifier"@, "constant"@])
}

pub open spec fn rb_body_kinds() -> Seq<Seq<char>> {
    seq!["body_statement"@, "do_block"@]
}

/// A required path: the argument text without quotes and parentheses.
pub open spec fn rb_unquote(t: Seq<char>) -> Seq<char> {
    trim_set(
        trim_set(
            trim_end_matches(
                trim_start_matches(trim_set(trim_set(t, seq!['"']), seq!['\'']), "("@),
                ")"@,
            ),
            seq!['"'],
        ),
        seq!['\''],
    )
}

/// The first argument from `i` on that is not a comma and leaves a
/// non-empty path, named by its last `/` piece.
pub open spec fn rb_require_from(src: Seq<char>, ch: Seq<SyntaxNode>, i: int) -> Option<ImportView>
    decreases ch.len() - i,
{
    if i < 0 || i >= ch.len() {
        None
    } else {
        let p = rb_unquote(text_of(src, ch[i]));
        if p.len() > 0 && ch[i].kind@ != ","@ {
            Some(ImportView { source: p, names: seq![after_last(p, '/')] })
        } else {
            rb_require_from(src, ch, i + 1)
        }
    }
}

/// A `require` or `require_relative` call's import.
pub open spec fn rb_require(src: Seq<char>, n: SyntaxNode) -> Option<ImportView> {
    let m = match field_child(n, "method"@) {
        Some(k) => text_of(src, n.children@[k]),
        None => Seq::empty(),
    };
    if m != "require"@ && m != "require_relative"@ {
        None
    } else {
        match field_child(n, "arguments"@) {
            Some(a) => rb_require_from(src, n.children@[a].children@, 0),
            None => None,
        }
    }
}

/// What a node contributes; classes and modules also contribute what their
/// bodies define (last first).
pub open spec fn rb_node(src: Seq<char>, n: SyntaxNode) -> ResultView
    decreases n, 1nat,
{
    let k = n.kind@;
    if k == "method"@ || k == "singleton_method"@ {
        callable_item(
            n,
            rb_name(src, n),
            SymbolKind::Method,
            Visibility::Public,
            first_line_of(src, n),
            child_text(src, n, rb_body_kinds()),
        )
    } else if k == "class"@ || k == "module"@ {
        let kind = if k == "class"@ {
            SymbolKind::Class
        } else {
            SymbolKind::Trait
        };
        decl_item(src, n, rb_name(src, n), kind, Visibility::Public).add(
            match field_child(n, "body"@) {
                Some(b) => {
                    proof {
                        lemma_field_child_from(n.children@, "body"@, 0);
                    }
                    rb_members(src, n.children@[b])
                },
                None => ResultView::empty(),
            },
        )
    } else if k == "call"@ {
        import_item(rb_require(src, n))
    } else {
        ResultView::empty()
    }
}

pub open spec fn rb_members(src: Seq<char>, b: SyntaxNode) -> ResultView
    decreases b, 0nat,
{
    rb_rev(src, b.children@, b.children@.len() as nat)
}

pub open spec fn rb_rev(src: Seq<char>, ch: Seq<SyntaxNode>, k: nat) -> ResultView
    decreases ch, k,
{
    if k == 0 || k > ch.len() {
        ResultView::empty()
    } else {
        rb_node(src, ch[k - 1]).add(rb_rev(src, ch, (k - 1) as nat))
    }
}

impl RubyLanguage {
    fn unquote(t: &Vec<char>) -> (r: Vec<char>)
        ensures
            r@ == rb_unquote(t@),
    {
        let dq = ['"'];
        let sq = ['\''];
        assert(dq@ == seq!['"']);
        assert(sq@ == seq!['\'']);
        let a = trim_set_exec(&trim_set_exec(t, &dq), &sq);
        let b = trim_end_matches_exec(&trim_start_matches_exec(&a, "("), ")");
        trim_set_exec(&trim_set_exec(&b, &dq), &sq)
    }

    fn require_from(src: &Vec<char>, ch: &Vec<SyntaxNode>, i: usize) -> (r: Option<Import>)
        ensures
            opt_import(r) == rb_require_from(src@, ch@, i as int),
        decreases ch@.len() - i,
    {
        if i >= ch.len() {
            return None;
        }
        let p = Self::unquote(&node_text(src, &ch[i]));
        if p.len() > 0 && !kind_is(&ch[i], ",") {
            let name = after_last_exec(&p, '/');
            Some(make_import(&p, one_name(&name)))
        } else {
            Self::require_from(src, ch, i + 1)
        }
    }

    fn extract_require(src: &Vec<char>, n: &SyntaxNode) -> (r: Option<Import>)
        ensures
            opt_import(r) == rb_require(src@, *n),
    {
        let m = match child_by_field(n, "method") {
            Some(k) => node_text(src, &n.children[k]),
            None => Vec::new(),
        };
        if !is_lit(&m, "require") && !is_lit(&m, "require_relative") {
            return None;
        }
        match child_by_field(n, "arguments") {
            Some(a) => Self::require_from(src, &n.children[a].children, 0),
            None => None,
        }
    }

    fn node_items(src: &Vec<char>, n: &SyntaxNode) -> (r: ParseResult)
        ensures
            r@ == rb_node(src@, *n),
        decreases *n, 1nat,
    {
        if kind_is(n, "method") || kind_is(n, "singleton_method") {
            let name = child_text_exec(src, n, &ks2("identifier", "constant"));
            let sig = node_first_line(src, n);
            let body = child_text_exec(src, n, &ks2("body_statement", "do_block"));
            callable_exec(n, &name, SymbolKind::Method, Visibility::Public, &sig, &body)
        } else if kind_is(n, "class") || kind_is(n, "module") {
            let kind = if kind_is(n, "class") {
                SymbolKind::Class
            } else {
                SymbolKind::Trait
            };
            let name = child_text_exec(src, n, &ks2("identifier", "constant"));
            let mut out = decl_exec(src, n, &name, kind, Visibility::Public);
            match child_by_field(n, "body") {
                Some(b) => {
                    let inner = Self::members(src, &n.children[b]);
                    out.absorb(inner);
                },
                None => {
                    out.absorb(ParseResult::empty());
                },
            }
            out
        } else if kind_is(n, "call") {
            import_exec(Self::extract_require(src, n))
        } else {
            ParseResult::empty()
        }
    }

    fn members(src: &Vec<char>, b: &SyntaxNode) -> (r: ParseResult)
        ensures
            r@ == rb_members(src@, *b),
        decreases *b, 0nat,
    {
        Self::rev_items(src, &b.children, b.children.len())
    }

    fn rev_items(src: &Vec<char>, ch: &Vec<SyntaxNode>, k: usize) -> (r: ParseResult)
        requires
            k <= ch@.len(),
        ensures
            r@ == rb_rev(src@, ch@, k as nat),
        decreases ch@, k,
    {
        if k == 0 {
            return ParseResult::empty();
        }
        let mut out = Self::node_items(src, &ch[k - 1]);
        let rest = Self::rev_items(src, ch, k - 1);
        out.absorb(rest);
        out
    }
}

/// What extraction finds in a source text with the given tree.
pub open spec fn rb_extract(source: Seq<char>, root: SyntaxNode) -> ResultView {
    rb_rev(source, root.children@, root.children@.len() as nat)
}

impl LanguageSupport for RubyLanguage {
    open spec fn spec_name(&self) -> Seq<char> {
        "ruby"@
    }

    open spec fn spec_extract(&self, source: Seq<char>, root: SyntaxNode) -> ResultView {
        rb_extract(source, root)
    }

    fn ts_language(&self) -> tree_sitter::Language {
        grammar()
    }

    fn name(&self) -> (r: &str) {
        "ruby"
    }

    fn extract(&self, source: &str, tree: &SyntaxTree) -> (r: ParseResult) {
        let src = str_chars(source);
        Self::rev_items(&src, &tree.root.children, tree.root.children.len())
    }
}

} // verus!

verus! {

proof fn lemma_rb_node_exports(src: Seq<char>, n: SyntaxNode)
    ensures
        exports_public(rb_node(src, n)),
    decreases n, 1nat,
{
    broadcast use group_exports_public;

    lemma_field_child_from(n.children@, "body"@, 0);
    if let Some(b) = field_child(n, "body"@) {
        lemma_rb_members_exports(src, n.children@[b]);
    }
}

proof fn lemma_rb_members_exports(src: Seq<char>, b: SyntaxNode)
    ensures
        exports_public(rb_members(src, b)),
    decreases b, 0nat,
{
    lemma_rb_rev_exports(src, b.children@, b.children@.len() as nat);
}

proof fn lemma_rb_rev_exports(src: Seq<char>, ch: Seq<SyntaxNode>, k: nat)
    ensures
        exports_public(rb_rev(src, ch, k)),
    decreases ch, k,
{
    broadcast use group_exports_public;

    if k > 0 && k <= ch.len() {
        lemma_rb_node_exports(src, ch[k - 1]);
        lemma_rb_rev_exports(src, ch, (k - 1) as nat);
    }
}

/// Every export of what Ruby extraction finds names a public symbol of
/// the same kind: nothing is exported that is not declared public.
pub proof fn law_exports_are_public(source: Seq<char>, root: SyntaxNode)
    ensures
        exports_public(rb_extract(source, root)),
{
    broadcast use group_exports_public;

    lemma_rb_rev_exports(source, root.children@, root.children@.len() as nat);
}

} // verus!
