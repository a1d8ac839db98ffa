//! SQL: tables, views, indexes, functions, triggers and altered tables, at
//! the top level or inside statements and blocks.
use vstd::prelude::*;
use crate::parser::language::{exports_public, group_exports_public};
use crate::parser::language::{
    symbols_view, LanguageSupport, ParseResult, ResultView, Symbol, SymbolKind, SymbolView,
    Visibility,
};
use crate::syntax::{
    child_text, child_text_exec, first_line_of, kind_is, ks1, node_first_line, node_text,
    text_of, SyntaxNode, SyntaxTree,
};
use crate::text::{str_chars, to_string};

verus! {

pub struct SqlLanguage;

/// The grammar of `tree_sitter_sequel` (`LANGUAGE`).
#[verifier::external_body]
fn grammar() -> tree_sitter::Language {
    tree_sitter_sequel::LANGUAGE.into()
}

/// The kind recorded for each statement that defines something.
pub open spec fn sql_kind(k: Seq<char>) -> Option<SymbolKind> {
    if k == "create_table"@ || k == "alter_table"@ {
        Some(SymbolKind::Struct)
    } else if k == "create_view"@ {
        Some(SymbolKind::TypeAlias)
    } else if k == "create_index"@ {
        Some(SymbolKind::Constant)
    } else if k == "create_function"@ || k == "create_trigger"@ {
        Some(SymbolKind::Function)
    } else {
        None
    }
}

/// An index is named by its first identifier; everything else by its first
/// object reference.
pub open spec fn sql_name(src: Seq<char>, n: SyntaxNode) -> Seq<char> {
    if n.kind@ == "create_index"@ {
        child_text(src, n, seq!["identifier"@])
    } else {
        child_text(src, n, seq!["object_reference"@])
    }
}

/// The symbols a node gives: a named definition, or what the children of a
/// statement or block give.
pub open spec fn sql_node(src: Seq<char>, n: SyntaxNode) -> Seq<SymbolView>
    decreases n, 1nat,
{
    match sql_kind(n.kind@) {
        Some(k) => {
            let name = sql_name(src, n);
            if name.len() == 0 {
                seq![]
            } else {
                seq![
                    SymbolView {
                        name,
                        kind: k,
                        visibility: Visibility::Public,
                        signature: first_line_of(src, n),
                        body: text_of(src, n),
                        start_line: n.start_line,
                        end_line: n.end_line,
                    },
                ]
            }
        },
        None => if n.kind@ == "statement"@ || n.kind@ == "block"@ {
            sql_all(src, n.children@, n.children@.len() as nat)
        } else {
            seq![]
        },
    }
}

/// The symbols of `ch[..k]`, in order.
pub open spec fn sql_all(src: Seq<char>, ch: Seq<SyntaxNode>, k: nat) -> Seq<SymbolView>
    decreases ch, k,
{
    if k == 0 || k > ch.len() {
        seq![]
    } else {
        sql_all(src, ch, (k - 1) as nat) + sql_node(src, ch[k - 1])
    }
}

impl SqlLanguage {
    /// Appends a public symbol with these parts, unless `name` is empty.
    pub fn push_symbol(
        symbols: &mut Vec<Symbol>,
        name: String,
        kind: SymbolKind,
        signature: String,
        body: String,
        start_line: usize,
        end_line: usize,
    )
        ensures
            symbols_view(final(symbols)@) == symbols_view(old(symbols)@) + if name@.len() == 0 {
                Seq::<SymbolView>::empty()
            } else {
                seq![
                    SymbolView {
                        name: name@,
                        kind,
                        visibility: Visibility::Public,
                        signature: signature@,
                        body: body@,
                        start_line,
                        end_line,
                    },
                ]
            },
    {
        let ghost before = symbols_view(symbols@);
        if !name.as_str().is_empty() {
            symbols.push(
                Symbol {
                    name,
                    kind,
                    visibility: Visibility::Public,
                    signature,
                    body,
                    start_line,
                    end_line,
                },
            );
        }
        assert(symbols_view(symbols@) =~= before + if name@.len() == 0 {
            Seq::<SymbolView>::empty()
        } else {
            seq![
                SymbolView {
                    name: name@,
                    kind,
                    visibility: Visibility::Public,
                    signature: signature@,
                    body: body@,
                    start_line,
                    end_line,
                },
            ]
        });
    }

    fn kind_of(n: &SyntaxNode) -> (r: Option<SymbolKind>)
        ensures
            r == sql_kind(n.kind@),
    {
        if kind_is(n, "create_table") || kind_is(n, "alter_table") {
            Some(SymbolKind::Struct)
        } else if kind_is(n, "create_view") {
            Some(SymbolKind::TypeAlias)
        } else if kind_is(n, "create_index") {
            Some(SymbolKind::Constant)
        } else if kind_is(n, "create_function") || kind_is(n, "create_trigger") {
            Some(SymbolKind::Function)
        } else {
            None
        }
    }

    /// Appends the symbols that `n` gives.
    fn process_node(n: &SyntaxNode, src: &Vec<char>, symbols: &mut Vec<Symbol>)
        ensures
            symbols_view(final(symbols)@) == symbols_view(old(symbols)@) + sql_node(src@, *n),
        decreases *n, 1nat,
    {
        match Self::kind_of(n) {
            Some(k) => {
                let name = if kind_is(n, "create_index") {
                    child_text_exec(src, n, &ks1("identifier"))
                } else {
                    child_text_exec(src, n, &ks1("object_reference"))
                };
                let sig = node_first_line(src, n);
                let body = node_text(src, n);
                Self::push_symbol(
                    symbols,
                    to_string(&name),
                    k,
                    to_string(&sig),
                    to_string(&body),
                    n.start_line,
                    n.end_line,
                );
            },
            None => {
                if kind_is(n, "statement") || kind_is(n, "block") {
                    Self::process_all(&n.children, n.children.len(), src, symbols);
                } else {
                    assert(sql_node(src@, *n) =~= Seq::<SymbolView>::empty());
                }
            },
        }
    }

    /// Appends the symbols that `ch[..k]` give.
    fn process_all(ch: &Vec<SyntaxNode>, k: usize, src: &Vec<char>, symbols: &mut Vec<Symbol>)
        requires
            k <= ch@.len(),
        ensures
            symbols_view(final(symbols)@) == symbols_view(old(symbols)@) + sql_all(
                src@,
                ch@,
                k as nat,
            ),
        decreases ch@, k,
    {
        if k == 0 {
            assert(symbols_view(symbols@) =~= symbols_view(symbols@) + Seq::<SymbolView>::empty());
            return;
        }
        let ghost before = symbols_view(symbols@);
        Self::process_all(ch, k - 1, src, symbols);
        Self::process_node(&ch[k - 1], src, symbols);
        assert(symbols_view(symbols@) =~= before + sql_all(src@, ch@, k as nat));
    }
}

impl LanguageSupport for SqlLanguage {
    open spec fn spec_name(&self) -> Seq<char> {
        "sql"@
    }

    open spec fn spec_extract(&self, source: Seq<char>, root: SyntaxNode) -> ResultView {
        ResultView {
            symbols: sql_all(source, root.children@, root.children@.len() as nat),
            imports: seq![],
            exports: seq![],
        }
    }

    fn ts_language(&self) -> tree_sitter::Language {
        grammar()
    }

    fn name(&self) -> (r: &str) {
        "sql"
    }

    fn extract(&self, source: &str, tree: &SyntaxTree) -> (r: ParseResult) {
        let src = str_chars(source);
        let mut symbols: Vec<Symbol> = Vec::new();
        Self::process_all(&tree.root.children, tree.root.children.len(), &src, &mut symbols);
        let r = ParseResult { symbols, imports: Vec::new(), exports: Vec::new() };
        assert(r@.imports =~= Seq::empty());
        assert(r@.exports =~= Seq::empty());
        assert(symbols_view(Seq::<Symbol>::empty()) =~= Seq::<SymbolView>::empty());
        r
    }
}

} // verus!

verus! {

/// Every export of what SQL extraction finds names a public symbol of
/// the same kind: nothing is exported that is not declared public.
pub proof fn law_exports_are_public(source: Seq<char>, root: SyntaxNode)
    ensures
        exports_public(SqlLanguage.spec_extract(source, root)),
{
    broadcast use group_exports_public;


}

} // verus!
