//! TypeScript: functions, classes, interfaces, type aliases, enums, imports;
//! declarations inside `export` statements are public.
use vstd::prelude::*;
use crate::parser::language::{exports_public, group_exports_public};
use crate::parser::language::lemma_add_has;
use crate::text::{
    back_ws, is_ws, lemma_back_ws_bounds, lemma_back_ws_stops, lemma_find_char_absent,
    lemma_find_ws_from_is, occurs_at, skip_ws, strip_prefixes_from,
};
use crate::parser::common::{
    callable_exec, callable_item, import_exec, import_item, opt_import, sig_or_first_line,
    sig_or_first_line_exec,
};
use crate::parser::language::{
    make_import, one_name, vis_of, visibility, Import, ImportView, LanguageSupport, ParseResult,
    ResultView, SymbolKind,
};
use crate::parser::common::{decl_exec, decl_item};
use crate::syntax::{
    child_text, child_text_exec, find_child, first_child_in, kind_is, ks1, ks3, node_text,
    text_of, SyntaxNode, SyntaxTree,
};
use crate::text::{contains, contains_exec, find_char_from, find_char_from_exec, rfind, rfind_exec, split_trim, split_trim_exec, str_chars, strings_view, substr, trim, trim_exec, trim_set, trim_set_exec, trim_start_matches, trim_start_matches_exec, words, words_exec};

verus! {

pub struct TypeScriptLanguage;

/// The grammar of `tree_sitter_typescript` (`LANGUAGE_TYPESCRIPT`).
#[verifier::external_body]
fn grammar() -> tree_sitter::Language {
    tree_sitter_typescript::LANGUAGE_TYPESCRIPT.into()
}

pub open spec fn ts_name(src: Seq<char>, n: SyntaxNode) -> Seq<char> {
    child_text(src, n, seq!["identifier"@, "type_identifier"@, "property_identifier"@])
}

/// Exported: the node stands in an `export_statement`, or has an `export`
/// child.
pub open spec fn ts_is_exported(n: SyntaxNode, in_export: bool) -> bool {
    in_export || first_child_in(n.children@, seq!["export"@], 0) is Some
}

/// The first word of `s` (`split_whitespace().next()`), or empty.
pub open spec fn first_word(s: Seq<char>) -> Seq<char> {
    if words(s).len() > 0 {
        words(s)[0]
    } else {
        Seq::empty()
    }
}

/// Module path: what follows the last ` from `, without quotes and `;`.
pub open spec fn ts_import_path(t: Seq<char>) -> Seq<char> {
    match rfind(t, " from "@) {
        Some(k) => trim_set(trim(t.subrange(k + 6, t.len() as int)), seq!['\'', '"', ';']),
        None => Seq::empty(),
    }
}

/// Imported names: those between the first `{` and the first `}`, `*` for
/// a namespace import, or the default import's name.
pub open spec fn ts_import_names(t: Seq<char>) -> Seq<Seq<char>> {
    let b = find_char_from(t, '{', 0);
    if b < t.len() {
        let e = find_char_from(t, '}', 0);
        if e < t.len() {
            if b + 1 <= e {
                split_trim(t.subrange(b + 1, e), ',')
            } else {
                seq![]
            }
        } else {
            seq![]
        }
    } else if contains(t, "* as "@) {
        seq!["*"@]
    } else {
        let name = first_word(trim(trim_start_matches(t, "import"@)));
        if name.len() == 0 || name == "from"@ {
            seq![]
        } else {
            seq![name]
        }
    }
}

pub open spec fn ts_import(src: Seq<char>, n: SyntaxNode) -> Option<ImportView> {
    let t = text_of(src, n);
    let path = ts_import_path(t);
    let names = ts_import_names(t);
    if path.len() == 0 && names.len() == 0 {
        None
    } else {
        Some(ImportView { source: path, names })
    }
}

pub open spec fn ts_decl_kind(k: Seq<char>) -> Option<SymbolKind> {
    if k == "class_declaration"@ {
        Some(SymbolKind::Class)
    } else if k == "interface_declaration"@ {
        Some(SymbolKind::Interface)
    } else if k == "type_alias_declaration"@ {
        Some(SymbolKind::TypeAlias)
    } else if k == "enum_declaration"@ {
        Some(SymbolKind::Enum)
    } else {
        None
    }
}

/// What a node contributes; nodes inside `export_statement`s are visited
/// last child first, as the traversal stack pops them.
pub open spec fn ts_node(src: Seq<char>, n: SyntaxNode, in_export: bool) -> ResultView
    decreases n, 0nat,
{
    let k = n.kind@;
    if k == "import_statement"@ {
        import_item(ts_import(src, n))
    } else if k == "export_statement"@ {
        ts_rev(src, n.children@, n.children@.len() as nat, true)
    } else if k == "function_declaration"@ {
        callable_item(
            n,
            ts_name(src, n),
            SymbolKind::Function,
            vis_of(ts_is_exported(n, in_export)),
            sig_or_first_line(src, n, seq!["statement_block"@]),
            child_text(src, n, seq!["statement_block"@]),
        )
    } else if let Some(kind) = ts_decl_kind(k) {
        decl_item(src, n, ts_name(src, n), kind, vis_of(ts_is_exported(n, in_export)))
    } else {
        ResultView::empty()
    }
}

/// The contributions of `ch[k-1]`, `ch[k-2]`, ..., `ch[0]`, in that order.
pub open spec fn ts_rev(src: Seq<char>, ch: Seq<SyntaxNode>, k: nat, in_export: bool) -> ResultView
    decreases ch, k,
{
    if k == 0 || k > ch.len() {
        ResultView::empty()
    } else {
        ts_node(src, ch[k - 1], in_export).add(ts_rev(src, ch, (k - 1) as nat, in_export))
    }
}

impl TypeScriptLanguage {
    fn extract_name(src: &Vec<char>, n: &SyntaxNode) -> (r: Vec<char>)
        ensures
            r@ == ts_name(src@, *n),
    {
        child_text_exec(src, n, &ks3("identifier", "type_identifier", "property_identifier"))
    }

    fn is_exported(n: &SyntaxNode, in_export: bool) -> (r: bool)
        ensures
            r == ts_is_exported(*n, in_export),
    {
        in_export || find_child(n, &ks1("export")).is_some()
    }

    fn first_word_exec(s: &Vec<char>) -> (r: Vec<char>)
        ensures
            r@ == first_word(s@),
    {
        let ws = words_exec(s);
        if ws.len() > 0 {
            assert(ws@.map_values(|w: Vec<char>| w@)[0] == ws@[0]@);
            ws[0].clone()
        } else {
            Vec::new()
        }
    }

    fn import_names(t: &Vec<char>) -> (r: Vec<String>)
        ensures
            strings_view(r@) == ts_import_names(t@),
    {
        let b = find_char_from_exec(t, '{', 0);
        if b < t.len() {
            let e = find_char_from_exec(t, '}', 0);
            if e < t.len() {
                if b + 1 <= e {
                    let inner = substr(t, b + 1, e);
                    split_trim_exec(&inner, ',')
                } else {
                    let v: Vec<String> = Vec::new();
                    assert(strings_view(v@) =~= Seq::<Seq<char>>::empty());
                    v
                }
            } else {
                let v: Vec<String> = Vec::new();
                assert(strings_view(v@) =~= Seq::<Seq<char>>::empty());
                v
            }
        } else if contains_exec(t, "* as ") {
            let star = str_chars("*");
            one_name(&star)
        } else {
            let a = trim_start_matches_exec(t, "import");
            let a2 = trim_exec(&a);
            let name = Self::first_word_exec(&a2);
            let from = str_chars("from");
            if name.len() == 0 || crate::text::chars_eq(&name, &from) {
                let v: Vec<String> = Vec::new();
                assert(strings_view(v@) =~= Seq::<Seq<char>>::empty());
                v
            } else {
                one_name(&name)
            }
        }
    }

    /// The import of an ES module `import` statement (shared with JavaScript).
    pub(crate) fn extract_import(src: &Vec<char>, n: &SyntaxNode) -> (r: Option<Import>)
        ensures
            opt_import(r) == ts_import(src@, *n),
    {
        let t = node_text(src, n);
        let path = match rfind_exec(&t, " from ") {
            Some(k) => {
                proof {
                    reveal_strlit(" from ");
                }
                let rest = substr(&t, k + 6, t.len());
                let rest2 = trim_exec(&rest);
                trim_set_exec(&rest2, &['\'', '"', ';'])
            },
            None => Vec::new(),
        };
        let names = Self::import_names(&t);
        if path.len() == 0 && names.len() == 0 {
            None
        } else {
            Some(make_import(&path, names))
        }
    }

    fn decl_kind(n: &SyntaxNode) -> (r: Option<SymbolKind>)
        ensures
            r == ts_decl_kind(n.kind@),
    {
        if kind_is(n, "class_declaration") {
            Some(SymbolKind::Class)
        } else if kind_is(n, "interface_declaration") {
            Some(SymbolKind::Interface)
        } else if kind_is(n, "type_alias_declaration") {
            Some(SymbolKind::TypeAlias)
        } else if kind_is(n, "enum_declaration") {
            Some(SymbolKind::Enum)
        } else {
            None
        }
    }

    fn node_items(src: &Vec<char>, n: &SyntaxNode, in_export: bool) -> (r: ParseResult)
        ensures
            r@ == ts_node(src@, *n, in_export),
        decreases *n, 0nat,
    {
        if kind_is(n, "import_statement") {
            import_exec(Self::extract_import(src, n))
        } else if kind_is(n, "export_statement") {
            Self::rev_items(src, &n.children, n.children.len(), true)
        } else if kind_is(n, "function_declaration") {
            let name = Self::extract_name(src, n);
            let vis = visibility(Self::is_exported(n, in_export));
            let sig = sig_or_first_line_exec(src, n, &ks1("statement_block"));
            let body = child_text_exec(src, n, &ks1("statement_block"));
            callable_exec(n, &name, SymbolKind::Function, vis, &sig, &body)
        } else {
            match Self::decl_kind(n) {
                Some(kind) => {
                    let name = Self::extract_name(src, n);
                    let vis = visibility(Self::is_exported(n, in_export));
                    decl_exec(src, n, &name, kind, vis)
                },
                None => ParseResult::empty(),
            }
        }
    }

    fn rev_items(src: &Vec<char>, ch: &Vec<SyntaxNode>, k: usize, in_export: bool) -> (r: ParseResult)
        requires
            k <= ch@.len(),
        ensures
            r@ == ts_rev(src@, ch@, k as nat, in_export),
        decreases ch@, k,
    {
        if k == 0 {
            return ParseResult::empty();
        }
        let mut out = Self::node_items(src, &ch[k - 1], in_export);
        let rest = Self::rev_items(src, ch, k - 1, in_export);
        out.absorb(rest);
        out
    }
}

impl LanguageSupport for TypeScriptLanguage {
    open spec fn spec_name(&self) -> Seq<char> {
        "typescript"@
    }

    open spec fn spec_extract(&self, source: Seq<char>, root: SyntaxNode) -> ResultView {
        ts_rev(source, root.children@, root.children@.len() as nat, false)
    }

    fn ts_language(&self) -> tree_sitter::Language {
        grammar()
    }

    fn name(&self) -> (r: &str) {
        "typescript"
    }

    fn extract(&self, source: &str, tree: &SyntaxTree) -> (r: ParseResult) {
        let src = str_chars(source);
        Self::rev_items(&src, &tree.root.children, tree.root.children.len(), false)
    }
}

} // verus!

verus! {

proof fn lemma_ts_node_exports(src: Seq<char>, n: SyntaxNode, in_export: bool)
    ensures
        exports_public(ts_node(src, n, in_export)),
    decreases n, 0nat,
{
    broadcast use group_exports_public;

    lemma_ts_rev_exports(src, n.children@, n.children@.len() as nat, true);
}

proof fn lemma_ts_rev_exports(src: Seq<char>, ch: Seq<SyntaxNode>, k: nat, in_export: bool)
    ensures
        exports_public(ts_rev(src, ch, k, in_export)),
    decreases ch, k,
{
    broadcast use group_exports_public;

    if k > 0 && k <= ch.len() {
        lemma_ts_node_exports(src, ch[k - 1], in_export);
        lemma_ts_rev_exports(src, ch, (k - 1) as nat, in_export);
    }
}

/// Every export of what TypeScript extraction finds names a public symbol of
/// the same kind: nothing is exported that is not declared public.
pub proof fn law_exports_are_public(source: Seq<char>, root: SyntaxNode)
    ensures
        exports_public(TypeScriptLanguage.spec_extract(source, root)),
{
    broadcast use group_exports_public;

    lemma_ts_rev_exports(source, root.children@, root.children@.len() as nat, false);
}

} // verus!

verus! {

/// A default import `import X ...` (no braces, no `* as`) names exactly `X`,
/// the first word after `import`.
pub proof fn law_default_import_names(x: Seq<char>, y: Seq<char>)
    requires
        x.len() > 0,
        forall|p: int| 0 <= p < x.len() ==> !is_ws(#[trigger] x[p]) && x[p] != '{',
        forall|p: int| 0 <= p < y.len() ==> #[trigger] y[p] != '{',
        y.len() == 0 || is_ws(y[0]),
        x != "from"@,
        !contains("import "@ + x + y, "* as "@),
    ensures
        ts_import_names("import "@ + x + y) == seq![x],
{
    reveal_strlit("import ");
    reveal_strlit("import");
    let t = "import "@ + x + y;
    // no brace
    assert forall|p: int| 0 <= p < t.len() implies t[p] != '{' by {
        if 7 <= p < 7 + x.len() {
            assert(t[p] == x[p - 7]);
        } else if p >= 7 + x.len() {
            assert(t[p] == y[p - 7 - x.len()]);
        }
    }
    lemma_find_char_absent(t, '{', 0);
    // `import` is stripped once
    assert(t.subrange(0, 6) =~= "import"@);
    assert(occurs_at(t, "import"@, 0));
    assert(!occurs_at(t, "import"@, 6)) by {
        if occurs_at(t, "import"@, 6) {
            assert(t.subrange(6, 12)[0] == t[6]);
        }
    }
    assert(strip_prefixes_from(t, "import"@, 6) == 6);
    assert(strip_prefixes_from(t, "import"@, 0) == 6);
    let u = trim_start_matches(t, "import"@);
    assert(u =~= seq![' '] + x + y);
    // trimmed: starts with `x`, and what follows `x` is whitespace or nothing
    assert(skip_ws(u, 1) == 1);
    assert(skip_ws(u, 0) == 1);
    let xl = x.len() as int;
    assert(u[xl] == x[xl - 1]);
    lemma_back_ws_stops(u, u.len() as int, 1, xl + 1);
    lemma_back_ws_bounds(u, u.len() as int, 1);
    let b = back_ws(u, u.len() as int, 1);
    let v = trim(u);
    assert(v == u.subrange(1, b));
    assert(forall|p: int| 0 <= p < xl ==> v[p] == x[p]);
    assert(xl == v.len() || is_ws(v[xl])) by {
        if xl < v.len() {
            assert(v[xl] == u[xl + 1]);
            assert(u[xl + 1] == y[0]);
        }
    }
    // its first word is `x`
    assert(skip_ws(v, 0) == 0);
    lemma_find_ws_from_is(v, 0, xl);
    assert(words(v)[0] =~= x);
    assert(first_word(v) == x);
}

/// What a node among the first `k` children contributes, the gathered
/// contribution of those children holds.
proof fn lemma_ts_rev_has(src: Seq<char>, ch: Seq<SyntaxNode>, k: nat, in_export: bool, i: int)
    requires
        0 <= i < k <= ch.len(),
    ensures
        forall|x: ImportView| ts_node(src, ch[i], in_export).imports.contains(x) ==> #[trigger] ts_rev(src, ch, k, in_export).imports.contains(x),
    decreases k,
{
    let a = ts_node(src, ch[k - 1], in_export);
    let b = ts_rev(src, ch, (k - 1) as nat, in_export);
    lemma_add_has(a, b);
    if i < k - 1 {
        lemma_ts_rev_has(src, ch, (k - 1) as nat, in_export, i);
    }
}

/// A default import statement of a file yields an import whose names are
/// exactly the imported name.
pub proof fn law_default_import_extracted(src: Seq<char>, root: SyntaxNode, i: int, x: Seq<char>, y: Seq<char>)
    requires
        0 <= i < root.children@.len(),
        root.children@[i].kind@ == "import_statement"@,
        text_of(src, root.children@[i]) == "import "@ + x + y,
        x.len() > 0,
        forall|p: int| 0 <= p < x.len() ==> !is_ws(#[trigger] x[p]) && x[p] != '{',
        forall|p: int| 0 <= p < y.len() ==> #[trigger] y[p] != '{',
        y.len() == 0 || is_ws(y[0]),
        x != "from"@,
        !contains("import "@ + x + y, "* as "@),
    ensures
        exists|iv: ImportView|
            #[trigger] TypeScriptLanguage.spec_extract(src, root).imports.contains(iv) && iv.names
                == seq![x],
{
    let n = root.children@[i];
    law_default_import_names(x, y);
    let iv = ts_import(src, n)->0;
    assert(ts_import(src, n) is Some);
    assert(iv.names == seq![x]);
    let piece = ts_node(src, n, false);
    assert(piece.imports[0] == iv);
    assert(piece.imports.contains(iv));
    lemma_ts_rev_has(src, root.children@, root.children@.len() as nat, false, i);
    assert(TypeScriptLanguage.spec_extract(src, root).imports.contains(iv));
}

} // verus!
