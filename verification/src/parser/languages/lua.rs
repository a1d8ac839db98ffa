//! Lua: top-level functions (private when `local`), `require` calls, and
//! variables declared with a function value.
use vstd::prelude::*;
use crate::parser::language::{exports_public, group_exports_public, lemma_fold_exports_public};
use crate::parser::language::{exports_mirror_symbols, group_exports_mirror, lemma_fold_mirror};
use crate::parser::common::{callable_exec, callable_item, import_exec, import_item, opt_import};
use crate::parser::language::{
    fold_items, fold_nodes, lemma_fold_all, lemma_fold_step, make_import, make_symbol, one_name, symbol_of, vis_of, visibility,
    Import, ImportView, LanguageSupport, ParseResult, ResultView, SymbolKind, Visibility,
};
use crate::syntax::{
    child_text, child_text_exec, first_line_of, kind_is, ks1, ks3, node_first_line, node_text,
    text_of, SyntaxNode, SyntaxTree,
};
use crate::text::{
    after_last, after_last_exec, contains, contains_exec, find, find_exec, starts_with,
    starts_with_lit, str_chars, substr, trim, trim_exec, trim_set, trim_set_exec, trim_start,
    to_string, trim_start_exec, trim_start_matches, trim_start_matches_exec,
};

verus! {

pub struct LuaLanguage;

/// The grammar of `tree_sitter_lua` (`LANGUAGE`).
#[verifier::external_body]
fn grammar() -> tree_sitter::Language {
    tree_sitter_lua::LANGUAGE.into()
}

/// The first identifier, or dotted or method name, among the children.
pub open spec fn lua_name(src: Seq<char>, n: SyntaxNode) -> Seq<char> {
    child_text(src, n, seq!["identifier"@, "dot_index_expression"@, "method_index_expression"@])
}

/// A function is local when its text starts with `local`.
pub open spec fn lua_local(src: Seq<char>, n: SyntaxNode) -> bool {
    starts_with(trim_start(text_of(src, n)), "local"@)
}

/// First index at or after `i` holding a quote or `)`, or `s.len()`.
pub open spec fn path_end(s: Seq<char>, i: int) -> int
    decreases s.len() - i,
{
    if i < 0 || i >= s.len() {
        s.len() as int
    } else if s[i] == '"' || s[i] == '\'' || s[i] == ')' {
        i
    } else {
        path_end(s, i + 1)
    }
}

pub proof fn lemma_path_end_bounds(s: Seq<char>, i: int)
    requires
        0 <= i <= s.len(),
    ensures
        i <= path_end(s, i) <= s.len(),
    decreases s.len() - i,
{
    if i < s.len() && !(s[i] == '"' || s[i] == '\'' || s[i] == ')') {
        lemma_path_end_bounds(s, i + 1);
    }
}

/// The module a `require` in `t` loads, named by its last dotted piece.
pub open spec fn lua_require(t: Seq<char>) -> Option<ImportView> {
    match find(t, "require"@) {
        Some(start) => {
            let a = trim_set(
                trim_set(trim(trim_start_matches(trim(t.subrange(start + 7, t.len() as int)), "("@)), seq!['"']),
                seq!['\''],
            );
            let path = a.subrange(0, path_end(a, 0));
            if path.len() == 0 {
                None
            } else {
                Some(ImportView { source: path, names: seq![after_last(path, '.')] })
            }
        },
        None => None,
    }
}

/// A variable holding a function, from the `variable_list` `d` of an
/// assignment in declaration `n`.
pub open spec fn lua_var(src: Seq<char>, n: SyntaxNode, d: SyntaxNode) -> ResultView {
    let name = lua_name(src, d);
    if d.kind@ == "variable_list"@ && name.len() > 0 {
        ResultView::symbol(
            symbol_of(name, SymbolKind::Variable, Visibility::Private, first_line_of(src, n), Seq::empty(), n),
        )
    } else {
        ResultView::empty()
    }
}

pub open spec fn lua_assign(src: Seq<char>, n: SyntaxNode, c: SyntaxNode) -> ResultView {
    if c.kind@ == "assignment_statement"@ {
        fold_items(c.children@, |d: SyntaxNode| lua_var(src, n, d))
    } else {
        ResultView::empty()
    }
}

/// What one top-level node contributes.
pub open spec fn lua_item(src: Seq<char>, n: SyntaxNode) -> ResultView {
    let k = n.kind@;
    let t = text_of(src, n);
    if k == "function_declaration"@ {
        callable_item(
            n,
            lua_name(src, n),
            SymbolKind::Function,
            vis_of(!lua_local(src, n)),
            first_line_of(src, n),
            child_text(src, n, seq!["block"@]),
        )
    } else if k == "function_call"@ {
        import_item(lua_require(t))
    } else if k == "variable_declaration"@ {
        import_item(lua_require(t)).add(
            if contains(t, "function"@) && !contains(t, "require"@) {
                fold_items(n.children@, |c: SyntaxNode| lua_assign(src, n, c))
            } else {
                ResultView::empty()
            },
        )
    } else {
        ResultView::empty()
    }
}

impl LuaLanguage {
    /// The first identifier, dotted name or method name among the children.
    pub fn extract_name(n: &SyntaxNode, src: &Vec<char>) -> (r: String)
        ensures
            r@ == lua_name(src@, *n),
    {
        to_string(
            &child_text_exec(src, n, &ks3("identifier", "dot_index_expression", "method_index_expression")),
        )
    }

    /// The text of the first `block` child, or the empty string.
    pub fn extract_fn_body(n: &SyntaxNode, src: &Vec<char>) -> (r: String)
        ensures
            r@ == child_text(src@, *n, seq!["block"@]),
    {
        to_string(&child_text_exec(src, n, &ks1("block")))
    }

    /// Whether the node's text starts (after whitespace) with `local`.
    pub fn is_local_function(n: &SyntaxNode, src: &Vec<char>) -> (r: bool)
        ensures
            r == lua_local(src@, *n),
    {
        starts_with_lit(&trim_start_exec(&node_text(src, n)), "local")
    }

    fn require_of(t: &Vec<char>) -> (r: Option<Import>)
        ensures
            opt_import(r) == lua_require(t@),
    {
        match find_exec(t, "require") {
            Some(start) => {
                proof {
                    reveal_strlit("require");
                }
                let len = t.len();
                let a0 = trim_exec(&substr(t, start + 7, len));
                let a1 = trim_exec(&trim_start_matches_exec(&a0, "("));
                let dq = ['"'];
                let sq = ['\''];
                assert(dq@ == seq!['"']);
                assert(sq@ == seq!['\'']);
                let a = trim_set_exec(&trim_set_exec(&a1, &dq), &sq);
                proof {
                    lemma_path_end_bounds(a@, 0);
                }
                let mut e: usize = 0;
                while e < a.len() && a[e] != '"' && a[e] != '\'' && a[e] != ')'
                    invariant
                        e <= a@.len(),
                        path_end(a@, 0) == path_end(a@, e as int),
                    decreases a@.len() - e,
                {
                    e += 1;
                }
                let path = substr(&a, 0, e);
                if path.len() == 0 {
                    None
                } else {
                    let name = after_last_exec(&path, '.');
                    Some(make_import(&path, one_name(&name)))
                }
            },
            None => None,
        }
    }

    fn var_item(src: &Vec<char>, n: &SyntaxNode, d: &SyntaxNode) -> (r: ParseResult)
        ensures
            r@ == lua_var(src@, *n, *d),
    {
        let name = child_text_exec(
            src,
            d,
            &ks3("identifier", "dot_index_expression", "method_index_expression"),
        );
        if kind_is(d, "variable_list") && name.len() > 0 {
            let sig = node_first_line(src, n);
            let mut out = ParseResult::empty();
            out.push_symbol(
                make_symbol(&name, SymbolKind::Variable, Visibility::Private, &sig, &Vec::new(), n),
            );
            out
        } else {
            ParseResult::empty()
        }
    }

    fn assign_items(src: &Vec<char>, n: &SyntaxNode, c: &SyntaxNode) -> (r: ParseResult)
        ensures
            r@ == lua_assign(src@, *n, *c),
    {
        if kind_is(c, "assignment_statement") {
            let ghost g = |d: SyntaxNode| lua_var(src@, *n, d);
            let mut out = ParseResult::empty();
            let mut j: usize = 0;
            while j < c.children.len()
                invariant
                    j <= c.children@.len(),
                    g == (|d: SyntaxNode| lua_var(src@, *n, d)),
                    out@ == fold_items(c.children@.take(j as int), g),
                decreases c.children@.len() - j,
            {
                let part = Self::var_item(src, n, &c.children[j]);
                proof {
                    lemma_fold_step(c.children@, g, j as int);
                }
                out.absorb(part);
                j += 1;
            }
            proof {
                lemma_fold_all(c.children@, g);
            }
            out
        } else {
            ParseResult::empty()
        }
    }

    fn item(src: &Vec<char>, n: &SyntaxNode) -> (r: ParseResult)
        ensures
            r@ == lua_item(src@, *n),
    {
        let t = node_text(src, n);
        if kind_is(n, "function_declaration") {
            let name = child_text_exec(
                src,
                n,
                &ks3("identifier", "dot_index_expression", "method_index_expression"),
            );
            let local = starts_with_lit(&trim_start_exec(&t), "local");
            let sig = node_first_line(src, n);
            let body = child_text_exec(src, n, &ks1("block"));
            callable_exec(n, &name, SymbolKind::Function, visibility(!local), &sig, &body)
        } else if kind_is(n, "function_call") {
            import_exec(Self::require_of(&t))
        } else if kind_is(n, "variable_declaration") {
            let mut out = import_exec(Self::require_of(&t));
            if contains_exec(&t, "function") && !contains_exec(&t, "require") {
                let ghost g = |c: SyntaxNode| lua_assign(src@, *n, c);
                let mut vars = ParseResult::empty();
                let mut j: usize = 0;
                while j < n.children.len()
                    invariant
                        j <= n.children@.len(),
                        g == (|c: SyntaxNode| lua_assign(src@, *n, c)),
                        vars@ == fold_items(n.children@.take(j as int), g),
                    decreases n.children@.len() - j,
                {
                    let part = Self::assign_items(src, n, &n.children[j]);
                    proof {
                        lemma_fold_step(n.children@, g, j as int);
                    }
                    vars.absorb(part);
                    j += 1;
                }
                proof {
                    lemma_fold_all(n.children@, g);
                }
                out.absorb(vars);
            } else {
                out.absorb(ParseResult::empty());
            }
            out
        } else {
            ParseResult::empty()
        }
    }
}

impl LanguageSupport for LuaLanguage {
    open spec fn spec_name(&self) -> Seq<char> {
        "lua"@
    }

    open spec fn spec_extract(&self, source: Seq<char>, root: SyntaxNode) -> ResultView {
        fold_items(root.children@, |n: SyntaxNode| lua_item(source, n))
    }

    fn ts_language(&self) -> tree_sitter::Language {
        grammar()
    }

    fn name(&self) -> (r: &str) {
        "lua"
    }

    fn extract(&self, source: &str, tree: &SyntaxTree) -> (r: ParseResult) {
        let src = str_chars(source);
        fold_nodes(&src, &tree.root.children, Self::item, Ghost(|n: SyntaxNode| lua_item(src@, n)))
    }
}

} // verus!

verus! {

/// Every export of what Lua extraction finds names a public symbol of
/// the same kind: nothing is exported that is not declared public.
pub proof fn law_exports_are_public(source: Seq<char>, root: SyntaxNode)
    ensures
        exports_public(LuaLanguage.spec_extract(source, root)),
{
    broadcast use group_exports_public;

    assert forall|n: SyntaxNode| exports_public(#[trigger] lua_item(source, n)) by {
        assert forall|c: SyntaxNode| exports_public(#[trigger] lua_assign(source, n, c)) by {
            lemma_fold_exports_public(c.children@, |d: SyntaxNode| lua_var(source, n, d));
        }
        lemma_fold_exports_public(n.children@, |c: SyntaxNode| lua_assign(source, n, c));
    }
    lemma_fold_exports_public(root.children@, |n: SyntaxNode| lua_item(source, n));
}

/// What this extraction exports is exactly its public symbols, each once,
/// with their kinds and in their order.
pub proof fn law_exports_mirror_public_symbols(source: Seq<char>, root: SyntaxNode)
    ensures
        exports_mirror_symbols(LuaLanguage.spec_extract(source, root)),
{
    broadcast use group_exports_mirror;

    assert forall|n: SyntaxNode| exports_mirror_symbols(#[trigger] lua_item(source, n)) by {
        assert forall|c: SyntaxNode| exports_mirror_symbols(#[trigger] lua_assign(source, n, c)) by {
            lemma_fold_mirror(c.children@, |d: SyntaxNode| lua_var(source, n, d));
        }
        lemma_fold_mirror(n.children@, |c: SyntaxNode| lua_assign(source, n, c));
    }
    lemma_fold_mirror(root.children@, |n: SyntaxNode| lua_item(source, n));
}

} // verus!
