//! Bash: functions, variable assignments and `source` / `.` commands.
use vstd::prelude::*;
use crate::parser::language::{exports_public, group_exports_public, lemma_fold_exports_public};
use crate::parser::language::{exports_mirror_symbols, group_exports_mirror, lemma_fold_mirror};
use crate::parser::common::{callable_exec, callable_item, import_exec, import_item, opt_import};
use crate::parser::language::{
    fold_items, fold_nodes, make_import, one_name, Import, ImportView, LanguageSupport,
    ParseResult, ResultView, SymbolKind, Visibility,
};
use crate::syntax::{
    child_text, child_text_exec, find_child, first_child_in, first_line_of, kind_is, ks1, ks2,
    node_first_line, node_text, text_of, SyntaxNode, SyntaxTree,
};
use crate::text::{after_last, after_last_exec, find_char_from, find_char_from_exec, is_lit, str_chars, substr, trim, trim_exec, trim_set, trim_set_exec};

verus! {

pub struct BashLanguage;

/// The grammar of `tree_sitter_bash` (`LANGUAGE`).
#[verifier::external_body]
fn grammar() -> tree_sitter::Language {
    tree_sitter_bash::LANGUAGE.into()
}

pub open spec fn bash_name(src: Seq<char>, n: SyntaxNode) -> Seq<char> {
    child_text(src, n, seq!["word"@, "identifier"@])
}

/// The assigned variable: the `variable_name` child, else the text before
/// the first `=`, trimmed.
pub open spec fn bash_var_name(src: Seq<char>, n: SyntaxNode) -> Seq<char> {
    match first_child_in(n.children@, seq!["variable_name"@], 0) {
        Some(k) => text_of(src, n.children@[k]),
        None => {
            let t = text_of(src, n);
            let e = find_char_from(t, '=', 0);
            if e < t.len() {
                trim(t.subrange(0, e))
            } else {
                Seq::empty()
            }
        },
    }
}

pub open spec fn bash_unquote(t: Seq<char>) -> Seq<char> {
    trim_set(trim_set(t, seq!['"']), seq!['\''])
}

/// Scans a command's children from `i`: the command name must be `source` or
/// `.`, and the last word or string after it is the sourced path.
pub open spec fn bash_source_from(
    src: Seq<char>,
    ch: Seq<SyntaxNode>,
    i: int,
    is_source: bool,
    path: Seq<char>,
) -> Option<ImportView>
    decreases ch.len() - i,
{
    if i < 0 || i >= ch.len() {
        if is_source && path.len() > 0 {
            Some(ImportView { source: path, names: seq![after_last(path, '/')] })
        } else {
            None
        }
    } else {
        let c = ch[i];
        let t = text_of(src, c);
        if c.kind@ == "command_name"@ {
            if trim(t) == "source"@ || trim(t) == "."@ {
                bash_source_from(src, ch, i + 1, true, path)
            } else {
                None
            }
        } else if is_source && (c.kind@ == "word"@ || c.kind@ == "string"@ || c.kind@
            == "raw_string"@) {
            bash_source_from(src, ch, i + 1, is_source, bash_unquote(t))
        } else {
            bash_source_from(src, ch, i + 1, is_source, path)
        }
    }
}

/// What one top-level node contributes.
pub open spec fn bash_item(src: Seq<char>, n: SyntaxNode) -> ResultView {
    let k = n.kind@;
    if k == "function_definition"@ {
        callable_item(
            n,
            bash_name(src, n),
            SymbolKind::Function,
            Visibility::Public,
            first_line_of(src, n),
            child_text(src, n, seq!["compound_statement"@]),
        )
    } else if k == "variable_assignment"@ {
        let name = bash_var_name(src, n);
        if name.len() == 0 {
            ResultView::empty()
        } else {
            callable_item(
                n,
                name,
                SymbolKind::Variable,
                Visibility::Public,
                first_line_of(src, n),
                Seq::empty(),
            )
        }
    } else if k == "command"@ {
        import_item(bash_source_from(src, n.children@, 0, false, Seq::empty()))
    } else {
        ResultView::empty()
    }
}

impl BashLanguage {



    /// The import of a `source` or `.` command.
    fn extract_source_import(n: &SyntaxNode, src: &Vec<char>) -> (r: Option<Import>)
        ensures
            opt_import(r) == bash_source_from(src@, n.children@, 0, false, Seq::empty()),
    {
        let dq = ['"'];
        let sq = ['\''];
        assert(dq@ == seq!['"']);
        assert(sq@ == seq!['\'']);
        let mut is_source = false;
        let mut path: Vec<char> = Vec::new();
        let mut i: usize = 0;
        while i < n.children.len()
            invariant
                dq@ == seq!['"'],
                sq@ == seq!['\''],
                bash_source_from(src@, n.children@, 0, false, Seq::empty()) == bash_source_from(
                    src@,
                    n.children@,
                    i as int,
                    is_source,
                    path@,
                ),
            decreases n.children@.len() - i,
        {
            let c = &n.children[i];
            let t = node_text(src, c);
            if kind_is(c, "command_name") {
                let cmd = trim_exec(&t);
                if is_lit(&cmd, "source") || is_lit(&cmd, ".") {
                    is_source = true;
                } else {
                    return None;
                }
            } else if is_source && (kind_is(c, "word") || kind_is(c, "string") || kind_is(
                c,
                "raw_string",
            )) {
                path = trim_set_exec(&trim_set_exec(&t, &dq), &sq);
            }
            i += 1;
        }
        if is_source && path.len() > 0 {
            let name = after_last_exec(&path, '/');
            Some(make_import(&path, one_name(&name)))
        } else {
            None
        }
    }

    fn var_name(src: &Vec<char>, n: &SyntaxNode) -> (r: Vec<char>)
        ensures
            r@ == bash_var_name(src@, *n),
    {
        match find_child(n, &ks1("variable_name")) {
            Some(k) => node_text(src, &n.children[k]),
            None => {
                let t = node_text(src, n);
                let e = find_char_from_exec(&t, '=', 0);
                if e < t.len() {
                    trim_exec(&substr(&t, 0, e))
                } else {
                    Vec::new()
                }
            },
        }
    }

    fn item(src: &Vec<char>, n: &SyntaxNode) -> (r: ParseResult)
        ensures
            r@ == bash_item(src@, *n),
    {
        if kind_is(n, "function_definition") {
            let name = child_text_exec(src, n, &ks2("word", "identifier"));
            let sig = node_first_line(src, n);
            let body = child_text_exec(src, n, &ks1("compound_statement"));
            callable_exec(n, &name, SymbolKind::Function, Visibility::Public, &sig, &body)
        } else if kind_is(n, "variable_assignment") {
            let name = Self::var_name(src, n);
            if name.len() == 0 {
                ParseResult::empty()
            } else {
                let sig = node_first_line(src, n);
                callable_exec(n, &name, SymbolKind::Variable, Visibility::Public, &sig, &Vec::new())
            }
        } else if kind_is(n, "command") {
            import_exec(Self::extract_source_import(n, src))
        } else {
            ParseResult::empty()
        }
    }
}

impl LanguageSupport for BashLanguage {
    open spec fn spec_name(&self) -> Seq<char> {
        "bash"@
    }

    open spec fn spec_extract(&self, source: Seq<char>, root: SyntaxNode) -> ResultView {
        fold_items(root.children@, |n: SyntaxNode| bash_item(source, n))
    }

    fn ts_language(&self) -> tree_sitter::Language {
        grammar()
    }

    fn name(&self) -> (r: &str) {
        "bash"
    }

    fn extract(&self, source: &str, tree: &SyntaxTree) -> (r: ParseResult) {
        let src = str_chars(source);
        fold_nodes(&src, &tree.root.children, Self::item, Ghost(|n: SyntaxNode| bash_item(src@, n)))
    }
}

} // verus!

verus! {

/// Every export of what Bash extraction finds names a public symbol of
/// the same kind: nothing is exported that is not declared public.
pub proof fn law_exports_are_public(source: Seq<char>, root: SyntaxNode)
    ensures
        exports_public(BashLanguage.spec_extract(source, root)),
{
    broadcast use group_exports_public;

    lemma_fold_exports_public(root.children@, |n: SyntaxNode| bash_item(source, n));
}

/// What this extraction exports is exactly its public symbols, each once,
/// with their kinds and in their order.
pub proof fn law_exports_mirror_public_symbols(source: Seq<char>, root: SyntaxNode)
    ensures
        exports_mirror_symbols(BashLanguage.spec_extract(source, root)),
{
    broadcast use group_exports_mirror;

    lemma_fold_mirror(root.children@, |n: SyntaxNode| bash_item(source, n));
}

} // verus!
