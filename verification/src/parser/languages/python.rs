//! Python: top-level functions, classes with their methods, and `import` /
//! `from ... import` statements. Names that start with `_` are private.
use vstd::prelude::*;
use crate::parser::language::{exports_public, group_exports_public, lemma_fold_exports_public};
use crate::parser::language::{exports_mirror_symbols, group_exports_mirror, lemma_fold_mirror};
use crate::parser::language::lemma_fold_has_import;
use crate::text::{
    back_ws, is_ws, lemma_find_from_is, lemma_split_trim_chars, lemma_trim_set_inside, occurs_at,
    skip_ws, strip_prefixes_from,
};
use crate::parser::common::{
    callable_exec, callable_item, decl_exec, decl_item, import_exec, import_item, opt_import,
};
use crate::parser::language::{
    fold_items, fold_nodes, make_import, vis_of, visibility, Import, ImportView, LanguageSupport,
    ParseResult, ResultView, SymbolKind,
};
use crate::syntax::{
    child_text, child_text_exec, first_line_of, kind_is, ks1, node_first_line, node_text,
    text_of, SyntaxNode, SyntaxTree,
};
use crate::text::{
    find, find_exec, split_trim, split_trim_exec, starts_with, starts_with_lit, str_chars, substr,
    trim, trim_exec, trim_set, trim_set_exec, trim_start_matches, trim_start_matches_exec,
};

verus! {

pub struct PythonLanguage;

/// The grammar of `tree_sitter_python` (`LANGUAGE`).
#[verifier::external_body]
fn grammar() -> tree_sitter::Language {
    tree_sitter_python::LANGUAGE.into()
}

/// A name is public unless it starts with `_`.
pub open spec fn py_public(name: Seq<char>) -> bool {
    !starts_with(name, "_"@)
}

pub open spec fn py_name(src: Seq<char>, n: SyntaxNode) -> Seq<char> {
    child_text(src, n, seq!["identifier"@])
}

/// `import a, b`: no source, the listed names.
pub open spec fn py_plain_import(t: Seq<char>) -> ImportView {
    ImportView { source: Seq::empty(), names: split_trim(trim(trim_start_matches(t, "import"@)), ',') }
}

/// `from m import a, b` (or a parenthesised list): source `m`, the listed
/// names; nothing without ` import `.
pub open spec fn py_from_import(t: Seq<char>) -> Option<ImportView> {
    let a = trim(trim_start_matches(t, "from"@));
    match find(a, " import "@) {
        Some(i) => {
            let ns = trim(a.subrange(i + 8, a.len() as int));
            let list = if starts_with(ns, "("@) {
                trim_set(ns, seq!['(', ')'])
            } else {
                ns
            };
            Some(ImportView { source: trim(a.subrange(0, i)), names: split_trim(list, ',') })
        },
        None => None,
    }
}

/// The import of an import statement; nothing for other nodes.
pub open spec fn py_import(src: Seq<char>, n: SyntaxNode) -> Option<ImportView> {
    if n.kind@ == "import_statement"@ {
        Some(py_plain_import(text_of(src, n)))
    } else if n.kind@ == "import_from_statement"@ {
        py_from_import(text_of(src, n))
    } else {
        None
    }
}

/// A function (or method, by `kind`): signature its first line, body its
/// block.
pub open spec fn py_def(src: Seq<char>, n: SyntaxNode, kind: SymbolKind) -> ResultView {
    let name = py_name(src, n);
    callable_item(
        n,
        name,
        kind,
        vis_of(py_public(name)),
        first_line_of(src, n),
        child_text(src, n, seq!["block"@]),
    )
}

pub open spec fn py_method(src: Seq<char>, n: SyntaxNode) -> ResultView {
    if n.kind@ == "function_definition"@ {
        py_def(src, n, SymbolKind::Method)
    } else {
        ResultView::empty()
    }
}

/// The methods defined directly in one block of a class.
pub open spec fn py_class_block(src: Seq<char>, c: SyntaxNode) -> ResultView {
    if c.kind@ == "block"@ {
        fold_items(c.children@, |m: SyntaxNode| py_method(src, m))
    } else {
        ResultView::empty()
    }
}

/// What one top-level node contributes.
pub open spec fn py_item(src: Seq<char>, n: SyntaxNode) -> ResultView {
    let k = n.kind@;
    if k == "function_definition"@ {
        py_def(src, n, SymbolKind::Function)
    } else if k == "class_definition"@ {
        let name = py_name(src, n);
        decl_item(src, n, name, SymbolKind::Class, vis_of(py_public(name))).add(
            fold_items(n.children@, |c: SyntaxNode| py_class_block(src, c)),
        )
    } else if k == "import_statement"@ || k == "import_from_statement"@ {
        import_item(py_import(src, n))
    } else {
        ResultView::empty()
    }
}

impl PythonLanguage {
    /// Whether a name is public: it does not start with `_`.
    pub fn is_public(name: &str) -> (r: bool)
        ensures
            r == py_public(name@),
    {
        !starts_with_lit(&str_chars(name), "_")
    }


    /// The import of an import statement, if it is one.
    fn extract_import(n: &SyntaxNode, src: &Vec<char>) -> (r: Option<Import>)
        ensures
            opt_import(r) == py_import(src@, *n),
    {
        let t = node_text(src, n);
        if kind_is(n, "import_statement") {
            let inner = trim_exec(&trim_start_matches_exec(&t, "import"));
            Some(make_import(&Vec::new(), split_trim_exec(&inner, ',')))
        } else if kind_is(n, "import_from_statement") {
            Self::from_import(&t)
        } else {
            None
        }
    }

    fn from_import(t: &Vec<char>) -> (r: Option<Import>)
        ensures
            opt_import(r) == py_from_import(t@),
    {
        let a = trim_exec(&trim_start_matches_exec(t, "from"));
        match find_exec(&a, " import ") {
            Some(i) => {
                proof {
                    reveal_strlit(" import ");
                }
                let len = a.len();
                let ns = trim_exec(&substr(&a, i + 8, len));
                let list = if starts_with_lit(&ns, "(") {
                    trim_set_exec(&ns, &['(', ')'])
                } else {
                    ns
                };
                let module = trim_exec(&substr(&a, 0, i));
                Some(make_import(&module, split_trim_exec(&list, ',')))
            },
            None => None,
        }
    }

    fn def_items(src: &Vec<char>, n: &SyntaxNode, kind: SymbolKind) -> (r: ParseResult)
        ensures
            r@ == py_def(src@, *n, kind),
    {
        let name = child_text_exec(src, n, &ks1("identifier"));
        let vis = visibility(!starts_with_lit(&name, "_"));
        let sig = node_first_line(src, n);
        let body = child_text_exec(src, n, &ks1("block"));
        callable_exec(n, &name, kind, vis, &sig, &body)
    }

    fn method_item(src: &Vec<char>, n: &SyntaxNode) -> (r: ParseResult)
        ensures
            r@ == py_method(src@, *n),
    {
        if kind_is(n, "function_definition") {
            Self::def_items(src, n, SymbolKind::Method)
        } else {
            ParseResult::empty()
        }
    }

    fn class_block(src: &Vec<char>, c: &SyntaxNode) -> (r: ParseResult)
        ensures
            r@ == py_class_block(src@, *c),
    {
        if kind_is(c, "block") {
            fold_nodes(src, &c.children, Self::method_item, Ghost(|m: SyntaxNode| py_method(src@, m)))
        } else {
            ParseResult::empty()
        }
    }

    fn item(src: &Vec<char>, n: &SyntaxNode) -> (r: ParseResult)
        ensures
            r@ == py_item(src@, *n),
    {
        if kind_is(n, "function_definition") {
            Self::def_items(src, n, SymbolKind::Function)
        } else if kind_is(n, "class_definition") {
            let name = child_text_exec(src, n, &ks1("identifier"));
            let vis = visibility(!starts_with_lit(&name, "_"));
            let mut out = decl_exec(src, n, &name, SymbolKind::Class, vis);
            let methods = fold_nodes(
                src,
                &n.children,
                Self::class_block,
                Ghost(|c: SyntaxNode| py_class_block(src@, c)),
            );
            out.absorb(methods);
            out
        } else if kind_is(n, "import_statement") || kind_is(n, "import_from_statement") {
            import_exec(Self::extract_import(n, src))
        } else {
            ParseResult::empty()
        }
    }
}

impl LanguageSupport for PythonLanguage {
    open spec fn spec_name(&self) -> Seq<char> {
        "python"@
    }

    open spec fn spec_extract(&self, source: Seq<char>, root: SyntaxNode) -> ResultView {
        fold_items(root.children@, |n: SyntaxNode| py_item(source, n))
    }

    fn ts_language(&self) -> tree_sitter::Language {
        grammar()
    }

    fn name(&self) -> (r: &str) {
        "python"
    }

    fn extract(&self, source: &str, tree: &SyntaxTree) -> (r: ParseResult) {
        let src = str_chars(source);
        fold_nodes(&src, &tree.root.children, Self::item, Ghost(|n: SyntaxNode| py_item(src@, n)))
    }
}

} // verus!

verus! {

/// Every export of what Python extraction finds names a public symbol of
/// the same kind: nothing is exported that is not declared public.
pub proof fn law_exports_are_public(source: Seq<char>, root: SyntaxNode)
    ensures
        exports_public(PythonLanguage.spec_extract(source, root)),
{
    broadcast use group_exports_public;

    assert forall|n: SyntaxNode| exports_public(#[trigger] py_item(source, n)) by {
        assert forall|c: SyntaxNode| exports_public(#[trigger] py_class_block(source, c)) by {
            lemma_fold_exports_public(c.children@, |m: SyntaxNode| py_method(source, m));
        }
        lemma_fold_exports_public(n.children@, |c: SyntaxNode| py_class_block(source, c));
    }
    lemma_fold_exports_public(root.children@, |n: SyntaxNode| py_item(source, n));
}

/// What this extraction exports is exactly its public symbols, each once,
/// with their kinds and in their order.
pub proof fn law_exports_mirror_public_symbols(source: Seq<char>, root: SyntaxNode)
    ensures
        exports_mirror_symbols(PythonLanguage.spec_extract(source, root)),
{
    broadcast use group_exports_mirror;

    assert forall|n: SyntaxNode| exports_mirror_symbols(#[trigger] py_item(source, n)) by {
        assert forall|c: SyntaxNode| exports_mirror_symbols(#[trigger] py_class_block(source, c)) by {
            lemma_fold_mirror(c.children@, |m: SyntaxNode| py_method(source, m));
        }
        lemma_fold_mirror(n.children@, |c: SyntaxNode| py_class_block(source, c));
    }
    lemma_fold_mirror(root.children@, |n: SyntaxNode| py_item(source, n));
}

} // verus!

verus! {

/// `from m import (a, b, ...)`: for a module name `m` without whitespace and
/// a parenthesised list with no parentheses inside, the import comes from `m`
/// and none of its names holds a parenthesis.
pub proof fn law_parenthesised_from_import(m: Seq<char>, l: Seq<char>)
    requires
        m.len() > 0,
        forall|p: int| 0 <= p < m.len() ==> !is_ws(#[trigger] m[p]),
        forall|p: int| 0 <= p < l.len() ==> #[trigger] l[p] != '(' && l[p] != ')',
    ensures
        ({
            let t = "from "@ + m + " import ("@ + l + ")"@;
            &&& py_from_import(t) is Some
            &&& py_from_import(t)->0.source == m
            &&& forall|j: int, k: int|
                0 <= j < py_from_import(t)->0.names.len() && 0 <= k < py_from_import(
                    t,
                )->0.names[j].len() ==> #[trigger] py_from_import(t)->0.names[j][k] != '('
                    && py_from_import(t)->0.names[j][k] != ')'
        }),
{
    reveal_strlit("from ");
    reveal_strlit(" ");
    reveal_strlit("from");
    reveal_strlit(" import (");
    reveal_strlit(" import ");
    reveal_strlit(")");
    reveal_strlit("(");
    let t = "from "@ + m + " import ("@ + l + ")"@;
    let n = t.len() as int;
    // the leading `from` is stripped once
    assert(t.subrange(0, 4) =~= "from"@);
    assert(occurs_at(t, "from"@, 0));
    assert(!occurs_at(t, "from"@, 4)) by {
        if occurs_at(t, "from"@, 4) {
            assert(t.subrange(4, 8)[0] == t[4]);
        }
    }
    assert(strip_prefixes_from(t, "from"@, 4) == 4);
    assert(strip_prefixes_from(t, "from"@, 0) == 4);
    let u = trim_start_matches(t, "from"@);
    assert(u =~= " "@ + m + " import ("@ + l + ")"@);
    // trimmed: the module name onwards
    assert(is_ws(u[0]));
    assert(u[1] == m[0]);
    assert(skip_ws(u, 1) == 1);
    assert(skip_ws(u, 0) == 1);
    assert(u[u.len() - 1] == ')');
    assert(back_ws(u, u.len() as int, 1) == u.len());
    let a = trim(u);
    assert(a =~= m + " import ("@ + l + ")"@);
    // the first ` import ` is the one after the module name
    let ml = m.len() as int;
    assert(a.subrange(ml, ml + 8) =~= " import "@);
    assert forall|q: int| 0 <= q < ml implies !occurs_at(a, " import "@, q) by {
        if occurs_at(a, " import "@, q) {
            assert(a.subrange(q, q + 8)[0] == a[q]);
            assert(a[q] == m[q]);
        }
    }
    lemma_find_from_is(a, " import "@, 0, ml);
    assert(find(a, " import "@) == Some(ml));
    // the module
    let src = a.subrange(0, ml);
    assert(src =~= m);
    assert(skip_ws(m, 0) == 0);
    assert(back_ws(m, ml, 0) == ml);
    assert(trim(src) =~= m);
    // the parenthesised list
    let rest = a.subrange(ml + 8, a.len() as int);
    assert(rest =~= "("@ + l + ")"@);
    assert(skip_ws(rest, 0) == 0);
    assert(back_ws(rest, rest.len() as int, 0) == rest.len());
    let ns = trim(rest);
    assert(ns =~= rest);
    assert(ns.subrange(0, 1) =~= "("@);
    assert(starts_with(ns, "("@));
    let set = seq!['(', ')'];
    assert(set.contains(ns[0]) && set[0] == ns[0]);
    assert(set.contains(ns[ns.len() - 1]) && set[1] == ns[ns.len() - 1]);
    lemma_trim_set_inside(ns, set);
    let list = trim_set(ns, set);
    let bad = |ch: char| ch == '(' || ch == ')';
    assert forall|p: int| 0 <= p < list.len() implies !bad(#[trigger] list[p]) by {
        let q = choose|q: int| 1 <= q < ns.len() - 1 && list[p] == ns[q];
        assert(ns[q] == l[q - 1]);
    }
    lemma_split_trim_chars(list, ',', 0, bad);
    assert(py_from_import(t) == Some(ImportView { source: trim(src), names: split_trim(list, ',') }));
}

/// A parenthesised `from m import (...)` statement of a file yields an import
/// from `m` whose names hold no parenthesis.
pub proof fn law_parenthesised_from_import_extracted(
    src: Seq<char>,
    root: SyntaxNode,
    i: int,
    m: Seq<char>,
    l: Seq<char>,
)
    requires
        0 <= i < root.children@.len(),
        root.children@[i].kind@ == "import_from_statement"@,
        text_of(src, root.children@[i]) == "from "@ + m + " import ("@ + l + ")"@,
        m.len() > 0,
        forall|p: int| 0 <= p < m.len() ==> !is_ws(#[trigger] m[p]),
        forall|p: int| 0 <= p < l.len() ==> #[trigger] l[p] != '(' && l[p] != ')',
    ensures
        exists|iv: ImportView|
            #[trigger] PythonLanguage.spec_extract(src, root).imports.contains(iv) && iv.source == m
                && forall|j: int, k: int|
                0 <= j < iv.names.len() && 0 <= k < iv.names[j].len() ==> #[trigger] iv.names[j][k]
                    != '(' && iv.names[j][k] != ')',
{
    let n = root.children@[i];
    law_parenthesised_from_import(m, l);
    let t = text_of(src, n);
    let iv = py_from_import(t)->0;
    assert("import_from_statement"@.len() == 21) by {
        reveal_strlit("import_from_statement");
    }
    assert("function_definition"@.len() == 19) by {
        reveal_strlit("function_definition");
    }
    assert("class_definition"@.len() == 16) by {
        reveal_strlit("class_definition");
    }
    assert("import_statement"@.len() == 16) by {
        reveal_strlit("import_statement");
    }
    assert(n.kind@ != "import_statement"@);
    assert(py_import(src, n) == Some(iv));
    let piece = py_item(src, n);
    assert(piece.imports[0] == iv);
    assert(piece.imports.contains(iv));
    lemma_fold_has_import(root.children@, |x: SyntaxNode| py_item(src, x), i, iv);
    assert(PythonLanguage.spec_extract(src, root).imports.contains(iv));
}

} // verus!
