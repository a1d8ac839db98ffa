//! Julia: functions, macros, structs, modules, imports; names listed in
//! `export` statements are public.
use vstd::prelude::*;
use crate::parser::language::{exports_public, group_exports_public};
use crate::parser::common::{
    callable_exec, callable_item, decl_exec, decl_item, import_exec, import_item, opt_import,
};
use crate::parser::language::{
    make_import, vis_of, visibility, Import, ImportView, LanguageSupport, ParseResult, ResultView,
    SymbolKind, Visibility,
};
use crate::syntax::{
    find_child, first_child_in, kind_is, ks1, node_first_line, node_text, first_line_of, text_of,
    SyntaxNode, SyntaxTree,
};
use crate::text::{chars_eq, find_char_from, find_char_from_exec, join, join_range, lines, lines_exec, split_trim, split_trim_exec, str_chars, strings_view, substr, trim, trim_exec, trim_start_matches, trim_start_matches_exec};

verus! {

pub struct JuliaLanguage;

/// The grammar of `tree_sitter_julia` (`LANGUAGE`).
#[verifier::external_body]
fn grammar() -> tree_sitter::Language {
    tree_sitter_julia::LANGUAGE.into()
}

/// The text of the first identifier child of `n`, if any.
pub open spec fn first_ident(src: Seq<char>, n: SyntaxNode) -> Option<Seq<char>> {
    match first_child_in(n.children@, seq!["identifier"@], 0) {
        Some(k) => Some(text_of(src, n.children@[k])),
        None => None,
    }
}

/// Name in a `signature`: a call's first identifier, or an identifier.
pub open spec fn jl_sig_name(src: Seq<char>, ch: Seq<SyntaxNode>, j: int) -> Option<Seq<char>>
    decreases ch.len() - j,
{
    if j < 0 || j >= ch.len() {
        None
    } else if ch[j].kind@ == "call_expression"@ {
        match first_ident(src, ch[j]) {
            Some(t) => Some(t),
            None => jl_sig_name(src, ch, j + 1),
        }
    } else if ch[j].kind@ == "identifier"@ {
        Some(text_of(src, ch[j]))
    } else {
        jl_sig_name(src, ch, j + 1)
    }
}

/// Name of a definition: an identifier child, or the name inside a
/// `signature` or a `type_head` child, whichever comes first.
pub open spec fn jl_name_scan(src: Seq<char>, ch: Seq<SyntaxNode>, i: int) -> Option<Seq<char>>
    decreases ch.len() - i,
{
    if i < 0 || i >= ch.len() {
        None
    } else if ch[i].kind@ == "identifier"@ {
        Some(text_of(src, ch[i]))
    } else if ch[i].kind@ == "signature"@ {
        match jl_sig_name(src, ch[i].children@, 0) {
            Some(t) => Some(t),
            None => jl_name_scan(src, ch, i + 1),
        }
    } else if ch[i].kind@ == "type_head"@ {
        match first_ident(src, ch[i]) {
            Some(t) => Some(t),
            None => jl_name_scan(src, ch, i + 1),
        }
    } else {
        jl_name_scan(src, ch, i + 1)
    }
}

pub open spec fn jl_name(src: Seq<char>, n: SyntaxNode) -> Seq<char> {
    match jl_name_scan(src, n.children@, 0) {
        Some(t) => t,
        None => Seq::empty(),
    }
}

/// The lines between the first and the last one, joined; empty for fewer
/// than three lines.
pub open spec fn jl_body(src: Seq<char>, n: SyntaxNode) -> Seq<char> {
    let ls = lines(text_of(src, n));
    if ls.len() > 2 {
        join(ls.subrange(1, ls.len() - 1), "\n"@)
    } else {
        Seq::empty()
    }
}

/// `import M`, `using M: a, b`, `import A, B`.
pub open spec fn jl_import(src: Seq<char>, n: SyntaxNode) -> Option<ImportView> {
    let stripped = trim(
        trim_start_matches(trim_start_matches(trim(text_of(src, n)), "import"@), "using"@),
    );
    if stripped.len() == 0 {
        None
    } else {
        let c = find_char_from(stripped, ':', 0);
        if c < stripped.len() {
            Some(
                ImportView {
                    source: trim(stripped.subrange(0, c)),
                    names: split_trim(stripped.subrange(c + 1, stripped.len() as int), ','),
                },
            )
        } else {
            let names = split_trim(stripped, ',');
            Some(
                ImportView {
                    source: if names.len() > 0 {
                        names[0]
                    } else {
                        Seq::empty()
                    },
                    names,
                },
            )
        }
    }
}

/// Names of an `export` statement.
pub open spec fn jl_export_names(src: Seq<char>, n: SyntaxNode) -> Seq<Seq<char>> {
    split_trim(trim(trim_start_matches(text_of(src, n), "export"@)), ',')
}

/// Exported names of a node and of the module bodies it opens.
pub open spec fn jl_ex_node(src: Seq<char>, n: SyntaxNode) -> Seq<Seq<char>>
    decreases n, 0nat,
{
    let own = if n.kind@ == "export_statement"@ {
        jl_export_names(src, n)
    } else {
        seq![]
    };
    if n.kind@ == "module_definition"@ {
        own + jl_ex_rev(src, n.children@, n.children@.len() as nat)
    } else {
        own
    }
}

pub open spec fn jl_ex_rev(src: Seq<char>, ch: Seq<SyntaxNode>, k: nat) -> Seq<Seq<char>>
    decreases ch, k,
{
    if k == 0 || k > ch.len() {
        seq![]
    } else {
        jl_ex_node(src, ch[k - 1]) + jl_ex_rev(src, ch, (k - 1) as nat)
    }
}

pub open spec fn jl_fn(src: Seq<char>, n: SyntaxNode, ex: Seq<Seq<char>>) -> ResultView {
    let name = jl_name(src, n);
    callable_item(
        n,
        name,
        SymbolKind::Function,
        vis_of(ex.contains(name)),
        first_line_of(src, n),
        jl_body(src, n),
    )
}

/// What a node contributes, followed by what the module bodies it opens
/// contribute (last child first, as the traversal stack pops them).
pub open spec fn jl_node(src: Seq<char>, ex: Seq<Seq<char>>, n: SyntaxNode) -> ResultView
    decreases n, 0nat,
{
    let k = n.kind@;
    if k == "function_definition"@ || k == "short_function_definition"@ || k
        == "macro_definition"@ {
        jl_fn(src, n, ex)
    } else if k == "struct_definition"@ {
        let name = jl_name(src, n);
        decl_item(src, n, name, SymbolKind::Struct, vis_of(ex.contains(name)))
    } else if k == "module_definition"@ {
        decl_item(src, n, jl_name(src, n), SymbolKind::Class, Visibility::Public).add(
            jl_rev(src, ex, n.children@, n.children@.len() as nat),
        )
    } else if k == "import_statement"@ || k == "using_statement"@ {
        import_item(jl_import(src, n))
    } else {
        ResultView::empty()
    }
}

pub open spec fn jl_rev(src: Seq<char>, ex: Seq<Seq<char>>, ch: Seq<SyntaxNode>, k: nat) -> ResultView
    decreases ch, k,
{
    if k == 0 || k > ch.len() {
        ResultView::empty()
    } else {
        jl_node(src, ex, ch[k - 1]).add(jl_rev(src, ex, ch, (k - 1) as nat))
    }
}

pub open spec fn jl_extract(src: Seq<char>, root: SyntaxNode) -> ResultView {
    let ex = jl_ex_rev(src, root.children@, root.children@.len() as nat);
    jl_rev(src, ex, root.children@, root.children@.len() as nat)
}

/// The views of a list of character vectors.
pub open spec fn views(v: Seq<Vec<char>>) -> Seq<Seq<char>> {
    v.map_values(|w: Vec<char>| w@)
}

impl JuliaLanguage {
    fn first_ident_exec(src: &Vec<char>, n: &SyntaxNode) -> (r: Option<Vec<char>>)
        ensures
            r matches Some(v) ==> first_ident(src@, *n) == Some(v@),
            r is None ==> first_ident(src@, *n) is None,
    {
        match find_child(n, &ks1("identifier")) {
            Some(k) => Some(node_text(src, &n.children[k])),
            None => None,
        }
    }

    fn sig_name(src: &Vec<char>, s: &SyntaxNode) -> (r: Option<Vec<char>>)
        ensures
            r matches Some(v) ==> jl_sig_name(src@, s.children@, 0) == Some(v@),
            r is None ==> jl_sig_name(src@, s.children@, 0) is None,
    {
        let mut j: usize = 0;
        while j < s.children.len()
            invariant
                jl_sig_name(src@, s.children@, 0) == jl_sig_name(src@, s.children@, j as int),
            decreases s.children@.len() - j,
        {
            let c = &s.children[j];
            if kind_is(c, "call_expression") {
                if let Some(t) = Self::first_ident_exec(src, c) {
                    return Some(t);
                }
            } else if kind_is(c, "identifier") {
                return Some(node_text(src, c));
            }
            j += 1;
        }
        None
    }

    fn extract_name(src: &Vec<char>, n: &SyntaxNode) -> (r: Vec<char>)
        ensures
            r@ == jl_name(src@, *n),
    {
        let mut i: usize = 0;
        while i < n.children.len()
            invariant
                jl_name_scan(src@, n.children@, 0) == jl_name_scan(src@, n.children@, i as int),
            decreases n.children@.len() - i,
        {
            let c = &n.children[i];
            if kind_is(c, "identifier") {
                return node_text(src, c);
            } else if kind_is(c, "signature") {
                if let Some(t) = Self::sig_name(src, c) {
                    return t;
                }
            } else if kind_is(c, "type_head") {
                if let Some(t) = Self::first_ident_exec(src, c) {
                    return t;
                }
            }
            i += 1;
        }
        Vec::new()
    }

    fn extract_fn_body(src: &Vec<char>, n: &SyntaxNode) -> (r: Vec<char>)
        ensures
            r@ == jl_body(src@, *n),
    {
        let t = node_text(src, n);
        let ls = lines_exec(&t);
        if ls.len() > 2 {
            join_range(&ls, 1, ls.len() - 1, "\n")
        } else {
            Vec::new()
        }
    }

    fn extract_import_names(src: &Vec<char>, n: &SyntaxNode) -> (r: Option<Import>)
        ensures
            opt_import(r) == jl_import(src@, *n),
    {
        let t0 = node_text(src, n);
        let t = trim_exec(&t0);
        let a = trim_start_matches_exec(&t, "import");
        let b = trim_start_matches_exec(&a, "using");
        let stripped = trim_exec(&b);
        if stripped.len() == 0 {
            return None;
        }
        let c = find_char_from_exec(&stripped, ':', 0);
        if c < stripped.len() {
            let m = substr(&stripped, 0, c);
            let module = trim_exec(&m);
            let rest = substr(&stripped, c + 1, stripped.len());
            Some(make_import(&module, split_trim_exec(&rest, ',')))
        } else {
            let names = split_trim_exec(&stripped, ',');
            let first: Vec<char> = if names.len() > 0 {
                assert(strings_view(names@)[0] == names@[0]@);
                str_chars(names[0].as_str())
            } else {
                Vec::new()
            };
            Some(make_import(&first, names))
        }
    }

    fn export_names(src: &Vec<char>, n: &SyntaxNode) -> (r: Vec<Vec<char>>)
        ensures
            views(r@) == jl_export_names(src@, *n),
    {
        let t = node_text(src, n);
        let a = trim_start_matches_exec(&t, "export");
        let b = trim_exec(&a);
        let names = split_trim_exec(&b, ',');
        let mut out: Vec<Vec<char>> = Vec::new();
        let mut i: usize = 0;
        while i < names.len()
            invariant
                i <= names@.len(),
                views(out@) == strings_view(names@).take(i as int),
            decreases names@.len() - i,
        {
            let ghost before = out@;
            let c = str_chars(names[i].as_str());
            assert(c@ == strings_view(names@)[i as int]);
            out.push(c);
            assert(views(out@) =~= views(before).push(c@));
            i += 1;
            assert(strings_view(names@).take(i as int) =~= strings_view(names@).take(i - 1).push(c@));
        }
        assert(strings_view(names@).take(i as int) =~= strings_view(names@));
        out
    }

    fn append_names(a: &mut Vec<Vec<char>>, b: Vec<Vec<char>>)
        ensures
            views(final(a)@) == views(old(a)@) + views(b@),
    {
        let mut bb = b;
        let ghost av = views(a@);
        let ghost bv = views(bb@);
        a.append(&mut bb);
        assert(views(a@) =~= av + bv);
    }

    fn ex_node(src: &Vec<char>, n: &SyntaxNode) -> (r: Vec<Vec<char>>)
        ensures
            views(r@) == jl_ex_node(src@, *n),
        decreases *n, 0nat,
    {
        let mut own: Vec<Vec<char>> = if kind_is(n, "export_statement") {
            Self::export_names(src, n)
        } else {
            let v: Vec<Vec<char>> = Vec::new();
            assert(views(v@) =~= Seq::<Seq<char>>::empty());
            v
        };
        if kind_is(n, "module_definition") {
            let rest = Self::ex_rev(src, &n.children, n.children.len());
            Self::append_names(&mut own, rest);
        }
        own
    }

    fn ex_rev(src: &Vec<char>, ch: &Vec<SyntaxNode>, k: usize) -> (r: Vec<Vec<char>>)
        requires
            k <= ch@.len(),
        ensures
            views(r@) == jl_ex_rev(src@, ch@, k as nat),
        decreases ch@, k,
    {
        if k == 0 {
            let v: Vec<Vec<char>> = Vec::new();
            assert(views(v@) =~= Seq::<Seq<char>>::empty());
            return v;
        }
        let mut out = Self::ex_node(src, &ch[k - 1]);
        let rest = Self::ex_rev(src, ch, k - 1);
        Self::append_names(&mut out, rest);
        out
    }

    fn contains_name(ex: &Vec<Vec<char>>, name: &Vec<char>) -> (r: bool)
        ensures
            r == views(ex@).contains(name@),
    {
        let mut i: usize = 0;
        while i < ex.len()
            invariant
                i <= ex@.len(),
                forall|j: int| 0 <= j < i ==> views(ex@)[j] != name@,
            decreases ex@.len() - i,
        {
            if chars_eq(&ex[i], name) {
                assert(views(ex@)[i as int] == name@);
                return true;
            }
            i += 1;
        }
        false
    }

    fn node_items(src: &Vec<char>, ex: &Vec<Vec<char>>, n: &SyntaxNode) -> (r: ParseResult)
        ensures
            r@ == jl_node(src@, views(ex@), *n),
        decreases *n, 0nat,
    {
        if kind_is(n, "function_definition") || kind_is(n, "short_function_definition") || kind_is(
            n,
            "macro_definition",
        ) {
            let name = Self::extract_name(src, n);
            let vis = visibility(Self::contains_name(ex, &name));
            let sig = node_first_line(src, n);
            let body = Self::extract_fn_body(src, n);
            callable_exec(n, &name, SymbolKind::Function, vis, &sig, &body)
        } else if kind_is(n, "struct_definition") {
            let name = Self::extract_name(src, n);
            let vis = visibility(Self::contains_name(ex, &name));
            decl_exec(src, n, &name, SymbolKind::Struct, vis)
        } else if kind_is(n, "module_definition") {
            let name = Self::extract_name(src, n);
            let mut out = decl_exec(src, n, &name, SymbolKind::Class, Visibility::Public);
            let rest = Self::rev_items(src, ex, &n.children, n.children.len());
            out.absorb(rest);
            out
        } else if kind_is(n, "import_statement") || kind_is(n, "using_statement") {
            import_exec(Self::extract_import_names(src, n))
        } else {
            ParseResult::empty()
        }
    }

    fn rev_items(src: &Vec<char>, ex: &Vec<Vec<char>>, ch: &Vec<SyntaxNode>, k: usize) -> (r:
        ParseResult)
        requires
            k <= ch@.len(),
        ensures
            r@ == jl_rev(src@, views(ex@), ch@, k as nat),
        decreases ch@, k,
    {
        if k == 0 {
            return ParseResult::empty();
        }
        let mut out = Self::node_items(src, ex, &ch[k - 1]);
        let rest = Self::rev_items(src, ex, ch, k - 1);
        out.absorb(rest);
        out
    }
}

impl LanguageSupport for JuliaLanguage {
    open spec fn spec_name(&self) -> Seq<char> {
        "julia"@
    }

    open spec fn spec_extract(&self, source: Seq<char>, root: SyntaxNode) -> ResultView {
        jl_extract(source, root)
    }

    fn ts_language(&self) -> tree_sitter::Language {
        grammar()
    }

    fn name(&self) -> (r: &str) {
        "julia"
    }

    fn extract(&self, source: &str, tree: &SyntaxTree) -> (r: ParseResult) {
        let src = str_chars(source);
        let root = &tree.root;
        let ex = Self::ex_rev(&src, &root.children, root.children.len());
        Self::rev_items(&src, &ex, &root.children, root.children.len())
    }
}

} // verus!

verus! {

proof fn lemma_jl_node_exports(src: Seq<char>, n: SyntaxNode, ex: Seq<Seq<char>>)
    ensures
        exports_public(jl_node(src, ex, n)),
    decreases n, 0nat,
{
    broadcast use group_exports_public;

    lemma_jl_rev_exports(src, n.children@, n.children@.len() as nat, ex);
}

proof fn lemma_jl_rev_exports(src: Seq<char>, ch: Seq<SyntaxNode>, k: nat, ex: Seq<Seq<char>>)
    ensures
        exports_public(jl_rev(src, ex, ch, k)),
    decreases ch, k,
{
    broadcast use group_exports_public;

    if k > 0 && k <= ch.len() {
        lemma_jl_node_exports(src, ch[k - 1], ex);
        lemma_jl_rev_exports(src, ch, (k - 1) as nat, ex);
    }
}

/// Every export of what Julia extraction finds names a public symbol of
/// the same kind: nothing is exported that is not declared public.
pub proof fn law_exports_are_public(source: Seq<char>, root: SyntaxNode)
    ensures
        exports_public(JuliaLanguage.spec_extract(source, root)),
{
    broadcast use group_exports_public;

    let ex = jl_ex_rev(source, root.children@, root.children@.len() as nat);
    lemma_jl_rev_exports(source, root.children@, root.children@.len() as nat, ex);
}

} // verus!
