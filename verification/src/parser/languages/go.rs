//! Go: functions, methods, struct and interface types, imports.
use vstd::prelude::*;
use crate::parser::language::{exports_public, group_exports_public, lemma_fold_exports_public};
use crate::parser::language::{exports_mirror_symbols, group_exports_mirror, lemma_fold_mirror};
use crate::parser::language::{lemma_fold_has_export, lemma_fold_has_symbol, ExportView, SymbolView, Visibility};
use crate::parser::language::{
    fold_items, fold_nodes, lemma_fold_all, lemma_fold_step, make_import, make_symbol, one_name, symbol_of,
    vis_of, visibility, ImportView, LanguageSupport, ParseResult, ResultView, SymbolKind,
};
use crate::syntax::{lemma_first_child_in_is, child_text, child_text_exec, find_child, ks1, ks2, ks3, first_child_in, first_line_of, kind_is, node_first_line, node_text, node_text_before, text_before, text_of, SyntaxNode, SyntaxTree};
use crate::text::{
    after_last, after_last_exec, char_is_uppercase, str_chars, trim, trim_exec, trim_set,
    trim_set_exec, unicode_uppercase,
};

verus! {

pub struct GoLanguage;

/// The grammar of `tree_sitter_go` (`LANGUAGE`, converted to a `Language`).
#[verifier::external_body]
fn grammar() -> tree_sitter::Language {
    tree_sitter_go::LANGUAGE.into()
}

/// Kinds whose text names a Go declaration.
pub open spec fn go_name_kinds() -> Seq<Seq<char>> {
    seq!["identifier"@, "type_identifier"@, "field_identifier"@]
}

pub open spec fn go_name(src: Seq<char>, n: SyntaxNode) -> Seq<char> {
    child_text(src, n, go_name_kinds())
}

/// A Go identifier is exported when it starts with an uppercase letter.
pub open spec fn go_is_public(name: Seq<char>) -> bool {
    name.len() > 0 && unicode_uppercase(name[0])
}

/// Everything before the body block, trimmed; the first line when there is
/// no body.
pub open spec fn go_fn_signature(src: Seq<char>, n: SyntaxNode) -> Seq<char> {
    match first_child_in(n.children@, seq!["block"@], 0) {
        Some(k) => match text_before(src, n, n.children@[k]) {
            Some(t) => trim(t),
            None => Seq::empty(),
        },
        None => first_line_of(src, n),
    }
}

/// The text of the body block, or empty.
pub open spec fn go_fn_body(src: Seq<char>, n: SyntaxNode) -> Seq<char> {
    child_text(src, n, seq!["block"@])
}

/// Alias and path of an import spec, scanning children from `i`: the last
/// identifier-like child gives the alias, the last string literal the path.
pub open spec fn go_spec_scan(
    src: Seq<char>,
    ch: Seq<SyntaxNode>,
    i: int,
    alias: Seq<char>,
    path: Seq<char>,
) -> (Seq<char>, Seq<char>)
    decreases ch.len() - i,
{
    if i < 0 || i >= ch.len() {
        (alias, path)
    } else {
        let k = ch[i].kind@;
        if k == "identifier"@ || k == "blank_identifier"@ || k == "dot"@ {
            go_spec_scan(src, ch, i + 1, text_of(src, ch[i]), path)
        } else if k == "interpreted_string_literal"@ || k == "raw_string_literal"@ {
            go_spec_scan(src, ch, i + 1, alias, trim_set(text_of(src, ch[i]), seq!['"', '`']))
        } else {
            go_spec_scan(src, ch, i + 1, alias, path)
        }
    }
}

/// The import an `import_spec` stands for: its path, and its alias or the
/// last segment of the path.
pub open spec fn go_import_spec(src: Seq<char>, n: SyntaxNode) -> Option<ImportView> {
    let (alias, path) = go_spec_scan(src, n.children@, 0, Seq::empty(), Seq::empty());
    if path.len() == 0 {
        None
    } else {
        let name = if alias.len() > 0 {
            alias
        } else {
            after_last(path, '/')
        };
        Some(ImportView { source: path, names: seq![name] })
    }
}

pub open spec fn import_item(i: Option<ImportView>) -> ResultView {
    match i {
        Some(v) => ResultView::import(v),
        None => ResultView::empty(),
    }
}

/// Imports of an `import_spec` child, or of the `import_spec`s inside an
/// `import_spec_list` child.
pub open spec fn go_import_child(src: Seq<char>, c: SyntaxNode) -> ResultView {
    if c.kind@ == "import_spec"@ {
        import_item(go_import_spec(src, c))
    } else if c.kind@ == "import_spec_list"@ {
        fold_items(c.children@, |s: SyntaxNode| go_import_in_list(src, s))
    } else {
        ResultView::empty()
    }
}

pub open spec fn go_import_in_list(src: Seq<char>, s: SyntaxNode) -> ResultView {
    if s.kind@ == "import_spec"@ {
        import_item(go_import_spec(src, s))
    } else {
        ResultView::empty()
    }
}

/// The kind of a `type_spec`: the first struct or interface type among its
/// children decides; a struct otherwise.
pub open spec fn go_type_kind(n: SyntaxNode) -> SymbolKind {
    match first_child_in(n.children@, seq!["struct_type"@, "interface_type"@], 0) {
        Some(k) => if n.children@[k].kind@ == "interface_type"@ {
            SymbolKind::Interface
        } else {
            SymbolKind::Struct
        },
        None => SymbolKind::Struct,
    }
}

pub open spec fn go_type_spec(src: Seq<char>, c: SyntaxNode) -> ResultView {
    if c.kind@ == "type_spec"@ {
        let name = go_name(src, c);
        ResultView::symbol_exported(
            symbol_of(
                name,
                go_type_kind(c),
                vis_of(go_is_public(name)),
                first_line_of(src, c),
                text_of(src, c),
                c,
            ),
        )
    } else {
        ResultView::empty()
    }
}

pub open spec fn go_callable(src: Seq<char>, n: SyntaxNode, kind: SymbolKind) -> ResultView {
    let name = go_name(src, n);
    ResultView::symbol_exported(
        symbol_of(
            name,
            kind,
            vis_of(go_is_public(name)),
            go_fn_signature(src, n),
            go_fn_body(src, n),
            n,
        ),
    )
}

/// What one top-level node of a Go file contributes.
pub open spec fn go_item(src: Seq<char>, n: SyntaxNode) -> ResultView {
    let k = n.kind@;
    if k == "import_declaration"@ {
        fold_items(n.children@, |c: SyntaxNode| go_import_child(src, c))
    } else if k == "function_declaration"@ {
        go_callable(src, n, SymbolKind::Function)
    } else if k == "method_declaration"@ {
        go_callable(src, n, SymbolKind::Method)
    } else if k == "type_declaration"@ {
        fold_items(n.children@, |c: SyntaxNode| go_type_spec(src, c))
    } else {
        ResultView::empty()
    }
}

pub open spec fn go_extract(src: Seq<char>, root: SyntaxNode) -> ResultView {
    fold_items(root.children@, |n: SyntaxNode| go_item(src, n))
}

impl GoLanguage {
    fn extract_name(src: &Vec<char>, n: &SyntaxNode) -> (r: Vec<char>)
        ensures
            r@ == go_name(src@, *n),
    {
        child_text_exec(src, n, &ks3("identifier", "type_identifier", "field_identifier"))
    }

    /// In Go, an identifier starting with an uppercase letter is exported.
    pub fn is_public(name: &str) -> (r: bool)
        ensures
            r == go_is_public(name@),
    {
        let chars = str_chars(name);
        Self::is_public_chars(&chars)
    }

    fn is_public_chars(name: &Vec<char>) -> (r: bool)
        ensures
            r == go_is_public(name@),
    {
        name.len() > 0 && char_is_uppercase(name[0])
    }

    fn extract_fn_signature(src: &Vec<char>, n: &SyntaxNode) -> (r: Vec<char>)
        ensures
            r@ == go_fn_signature(src@, *n),
    {
        match find_child(n, &ks1("block")) {
            Some(k) => match node_text_before(src, n, &n.children[k]) {
                Some(t) => trim_exec(&t),
                None => Vec::new(),
            },
            None => node_first_line(src, n),
        }
    }

    fn extract_fn_body(src: &Vec<char>, n: &SyntaxNode) -> (r: Vec<char>)
        ensures
            r@ == go_fn_body(src@, *n),
    {
        child_text_exec(src, n, &ks1("block"))
    }

    fn parse_import_spec(src: &Vec<char>, n: &SyntaxNode) -> (r: Option<crate::parser::language::Import>)
        ensures
            r matches Some(i) ==> go_import_spec(src@, *n) == Some(i@),
            r is None ==> go_import_spec(src@, *n) is None,
    {
        let mut alias: Vec<char> = Vec::new();
        let mut path: Vec<char> = Vec::new();
        let mut i: usize = 0;
        while i < n.children.len()
            invariant
                i <= n.children@.len(),
                go_spec_scan(src@, n.children@, 0, Seq::empty(), Seq::empty()) == go_spec_scan(
                    src@,
                    n.children@,
                    i as int,
                    alias@,
                    path@,
                ),
            decreases n.children@.len() - i,
        {
            let c = &n.children[i];
            if kind_is(c, "identifier") || kind_is(c, "blank_identifier") || kind_is(c, "dot") {
                alias = node_text(src, c);
            } else if kind_is(c, "interpreted_string_literal") || kind_is(c, "raw_string_literal") {
                let t = node_text(src, c);
                path = trim_set_exec(&t, &['"', '`']);
            }
            i += 1;
        }
        if path.len() == 0 {
            return None;
        }
        let name = if alias.len() > 0 {
            alias
        } else {
            after_last_exec(&path, '/')
        };
        Some(make_import(&path, one_name(&name)))
    }

    fn import_in_list(src: &Vec<char>, s: &SyntaxNode) -> (r: ParseResult)
        ensures
            r@ == go_import_in_list(src@, *s),
    {
        let mut out = ParseResult::empty();
        if kind_is(s, "import_spec") {
            if let Some(imp) = Self::parse_import_spec(src, s) {
                out.push_import(imp);
            }
        }
        out
    }

    fn import_child(src: &Vec<char>, c: &SyntaxNode) -> (r: ParseResult)
        ensures
            r@ == go_import_child(src@, *c),
    {
        let mut out = ParseResult::empty();
        if kind_is(c, "import_spec") {
            if let Some(imp) = Self::parse_import_spec(src, c) {
                out.push_import(imp);
            }
        } else if kind_is(c, "import_spec_list") {
            let ghost f = |s: SyntaxNode| go_import_in_list(src@, s);
            let mut j: usize = 0;
            while j < c.children.len()
                invariant
                    j <= c.children@.len(),
                    f == (|s: SyntaxNode| go_import_in_list(src@, s)),
                    out@ == fold_items(c.children@.take(j as int), f),
                decreases c.children@.len() - j,
            {
                let part = Self::import_in_list(src, &c.children[j]);
                proof {
                    lemma_fold_step(c.children@, f, j as int);
                }
                out.absorb(part);
                j += 1;
            }
            proof {
                lemma_fold_all(c.children@, f);
            }
        }
        out
    }

    fn extract_import(src: &Vec<char>, n: &SyntaxNode) -> (r: ParseResult)
        ensures
            r@ == fold_items(n.children@, |c: SyntaxNode| go_import_child(src@, c)),
    {
        let ghost f = |c: SyntaxNode| go_import_child(src@, c);
        let mut out = ParseResult::empty();
        let mut j: usize = 0;
        while j < n.children.len()
            invariant
                j <= n.children@.len(),
                f == (|c: SyntaxNode| go_import_child(src@, c)),
                out@ == fold_items(n.children@.take(j as int), f),
            decreases n.children@.len() - j,
        {
            let part = Self::import_child(src, &n.children[j]);
            proof {
                lemma_fold_step(n.children@, f, j as int);
            }
            out.absorb(part);
            j += 1;
        }
        proof {
            lemma_fold_all(n.children@, f);
        }
        out
    }

    fn type_kind(n: &SyntaxNode) -> (r: SymbolKind)
        ensures
            r == go_type_kind(*n),
    {
        match find_child(n, &ks2("struct_type", "interface_type")) {
            Some(k) => if kind_is(&n.children[k], "interface_type") {
                SymbolKind::Interface
            } else {
                SymbolKind::Struct
            },
            None => SymbolKind::Struct,
        }
    }

    fn type_spec(src: &Vec<char>, c: &SyntaxNode) -> (r: ParseResult)
        ensures
            r@ == go_type_spec(src@, *c),
    {
        let mut out = ParseResult::empty();
        if kind_is(c, "type_spec") {
            let name = Self::extract_name(src, c);
            let vis = visibility(Self::is_public_chars(&name));
            let sig = node_first_line(src, c);
            let body = node_text(src, c);
            out.push_symbol_exported(make_symbol(&name, Self::type_kind(c), vis, &sig, &body, c));
        }
        out
    }

    fn callable(src: &Vec<char>, n: &SyntaxNode, kind: SymbolKind) -> (r: ParseResult)
        ensures
            r@ == go_callable(src@, *n, kind),
    {
        let mut out = ParseResult::empty();
        let name = Self::extract_name(src, n);
        let vis = visibility(Self::is_public_chars(&name));
        let sig = Self::extract_fn_signature(src, n);
        let body = Self::extract_fn_body(src, n);
        out.push_symbol_exported(make_symbol(&name, kind, vis, &sig, &body, n));
        out
    }

    fn item(src: &Vec<char>, n: &SyntaxNode) -> (r: ParseResult)
        ensures
            r@ == go_item(src@, *n),
    {
        if kind_is(n, "import_declaration") {
            Self::extract_import(src, n)
        } else if kind_is(n, "function_declaration") {
            Self::callable(src, n, SymbolKind::Function)
        } else if kind_is(n, "method_declaration") {
            Self::callable(src, n, SymbolKind::Method)
        } else if kind_is(n, "type_declaration") {
            let ghost f = |c: SyntaxNode| go_type_spec(src@, c);
            let mut out = ParseResult::empty();
            let mut j: usize = 0;
            while j < n.children.len()
                invariant
                    j <= n.children@.len(),
                    f == (|c: SyntaxNode| go_type_spec(src@, c)),
                    out@ == fold_items(n.children@.take(j as int), f),
                decreases n.children@.len() - j,
            {
                let part = Self::type_spec(src, &n.children[j]);
                proof {
                    lemma_fold_step(n.children@, f, j as int);
                }
                out.absorb(part);
                j += 1;
            }
            proof {
                lemma_fold_all(n.children@, f);
            }
            out
        } else {
            ParseResult::empty()
        }
    }
}

impl LanguageSupport for GoLanguage {
    open spec fn spec_name(&self) -> Seq<char> {
        "go"@
    }

    open spec fn spec_extract(&self, source: Seq<char>, root: SyntaxNode) -> ResultView {
        go_extract(source, root)
    }

    fn ts_language(&self) -> tree_sitter::Language {
        grammar()
    }

    fn name(&self) -> (r: &str) {
        "go"
    }

    fn extract(&self, source: &str, tree: &SyntaxTree) -> (r: ParseResult) {
        let src = str_chars(source);
        fold_nodes(&src, &tree.root.children, Self::item, Ghost(|n: SyntaxNode| go_item(src@, n)))
    }
}

} // verus!

verus! {

/// Every export of what Go extraction finds names a public symbol of
/// the same kind: nothing is exported that is not declared public.
pub proof fn law_exports_are_public(source: Seq<char>, root: SyntaxNode)
    ensures
        exports_public(GoLanguage.spec_extract(source, root)),
{
    broadcast use group_exports_public;

    assert forall|n: SyntaxNode| exports_public(#[trigger] go_item(source, n)) by {
        assert forall|c: SyntaxNode| exports_public(#[trigger] go_import_child(source, c)) by {
            lemma_fold_exports_public(c.children@, |s: SyntaxNode| go_import_in_list(source, s));
        }
        lemma_fold_exports_public(n.children@, |c: SyntaxNode| go_import_child(source, c));
        lemma_fold_exports_public(n.children@, |c: SyntaxNode| go_type_spec(source, c));
    }
    lemma_fold_exports_public(root.children@, |n: SyntaxNode| go_item(source, n));
}

/// What this extraction exports is exactly its public symbols, each once,
/// with their kinds and in their order.
pub proof fn law_exports_mirror_public_symbols(source: Seq<char>, root: SyntaxNode)
    ensures
        exports_mirror_symbols(GoLanguage.spec_extract(source, root)),
{
    broadcast use group_exports_mirror;

    assert forall|n: SyntaxNode| exports_mirror_symbols(#[trigger] go_item(source, n)) by {
        assert forall|c: SyntaxNode| exports_mirror_symbols(#[trigger] go_import_child(source, c)) by {
            lemma_fold_mirror(c.children@, |s: SyntaxNode| go_import_in_list(source, s));
        }
        lemma_fold_mirror(n.children@, |c: SyntaxNode| go_import_child(source, c));
        lemma_fold_mirror(n.children@, |c: SyntaxNode| go_type_spec(source, c));
    }
    lemma_fold_mirror(root.children@, |n: SyntaxNode| go_item(source, n));
}

} // verus!

verus! {

/// A `type_spec` whose first struct or interface type is an interface type
/// declares an interface: extraction reports a symbol of kind `Interface`
/// spanning that declaration, and, when the name is exported, an export of
/// kind `Interface` under that name.
pub proof fn law_interface_types_are_interfaces(
    src: Seq<char>,
    root: SyntaxNode,
    i: int,
    j: int,
    k: int,
)
    requires
        0 <= i < root.children@.len(),
        root.children@[i].kind@ == "type_declaration"@,
        0 <= j < root.children@[i].children@.len(),
        root.children@[i].children@[j].kind@ == "type_spec"@,
        0 <= k < root.children@[i].children@[j].children@.len(),
        root.children@[i].children@[j].children@[k].kind@ == "interface_type"@,
        forall|m: int|
            0 <= m < k ==> (#[trigger] root.children@[i].children@[j].children@[m]).kind@
                != "struct_type"@ && root.children@[i].children@[j].children@[m].kind@
                != "interface_type"@,
    ensures
        ({
            let t = root.children@[i].children@[j];
            let r = GoLanguage.spec_extract(src, root);
            exists|s: SymbolView|
                #[trigger] r.symbols.contains(s) && s.kind == SymbolKind::Interface && s.start_line
                    == t.start_line && s.end_line == t.end_line && s.body == text_of(src, t) && (
                s.visibility == Visibility::Public ==> r.exports.contains(
                    ExportView { name: s.name, kind: SymbolKind::Interface },
                ))
        }),
{
    let d = root.children@[i];
    let t = d.children@[j];
    reveal_strlit("type_declaration");
    reveal_strlit("import_declaration");
    reveal_strlit("function_declaration");
    reveal_strlit("method_declaration");
    let kinds = seq!["struct_type"@, "interface_type"@];
    assert(kinds[1] == "interface_type"@);
    assert forall|m: int| 0 <= m < k implies !kinds.contains(#[trigger] t.children@[m].kind@) by {
        if kinds.contains(t.children@[m].kind@) {
            let q = choose|q: int| 0 <= q < kinds.len() && kinds[q] == t.children@[m].kind@;
            assert(q == 0 || q == 1);
        }
    }
    lemma_first_child_in_is(t.children@, kinds, 0, k);
    assert(go_type_kind(t) == SymbolKind::Interface);
    let name = go_name(src, t);
    let s = symbol_of(name, SymbolKind::Interface, vis_of(go_is_public(name)), first_line_of(src, t), text_of(src, t), t);
    let e = ExportView { name: s.name, kind: SymbolKind::Interface };
    let piece = go_type_spec(src, t);
    assert(piece.symbols[0] == s);
    assert(piece.symbols.contains(s));
    lemma_fold_has_symbol(d.children@, |c: SyntaxNode| go_type_spec(src, c), j, s);
    assert("type_declaration"@.len() == 16);
    assert("import_declaration"@.len() == 18);
    assert(d.kind@ != "import_declaration"@);
    assert(go_item(src, d) == fold_items(d.children@, |c: SyntaxNode| go_type_spec(src, c)));
    assert(go_item(src, d).symbols.contains(s));
    lemma_fold_has_symbol(root.children@, |n: SyntaxNode| go_item(src, n), i, s);
    if s.visibility == Visibility::Public {
        assert(piece.exports[0] == e);
        assert(piece.exports.contains(e));
        lemma_fold_has_export(d.children@, |c: SyntaxNode| go_type_spec(src, c), j, e);
        lemma_fold_has_export(root.children@, |n: SyntaxNode| go_item(src, n), i, e);
    }
    let r = GoLanguage.spec_extract(src, root);
    assert(r.symbols.contains(s));
    assert(s.visibility == Visibility::Public ==> r.exports.contains(e));
}

} // verus!
