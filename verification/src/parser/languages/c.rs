//! C: functions, structs, enums, typedefs and includes; everything at the top
//! level is public.
use vstd::prelude::*;
use crate::parser::language::LanguageSupport;
use crate::parser::language::{lemma_fold_has_export, lemma_fold_has_symbol, ExportView, SymbolView};
use crate::syntax::{first_child_in, lemma_first_child_in, lemma_first_child_in_before};
use crate::parser::language::{exports_public, group_exports_public, lemma_fold_exports_public};
use crate::parser::language::{exports_mirror_symbols, group_exports_mirror, lemma_fold_mirror};
use crate::parser::common::{
    callable_exec, callable_item, import_exec, import_item, named_decl_exec, named_decl_item,
    sig_or_first_line, sig_or_first_line_exec,
};
use crate::parser::language::{fold_items, fold_nodes, ParseResult, ResultView, SymbolKind, Visibility};
use crate::parser::languages::cpp::{cpp_include, cpp_tag_name, cpp_typedef_name, CppLanguage};
use crate::syntax::{
    child_text, child_text_exec, kind_is, ks1, ks3, last_child_text_exec, node_text, text_of,
    SyntaxNode, SyntaxTree,
};
use crate::text::str_chars;

verus! {

pub struct CLanguage;

/// The grammar of `tree_sitter_c` (`LANGUAGE`, converted to a `Language`).
#[verifier::external_body]
fn grammar() -> tree_sitter::Language {
    tree_sitter_c::LANGUAGE.into()
}

pub open spec fn is_c_declarator(k: Seq<char>) -> bool {
    k == "function_declarator"@ || k == "pointer_declarator"@ || k == "declarator"@
}

/// A function's name: the first identifier among the children, looking into
/// declarators, at most five levels below the definition.
pub open spec fn c_fn_ident(src: Seq<char>, n: SyntaxNode, depth: nat) -> Seq<char>
    decreases 6 - depth, n.children@.len() + 1,
{
    if depth > 5 {
        Seq::empty()
    } else {
        c_fn_ident_scan(src, n.children@, 0, depth)
    }
}

pub open spec fn c_fn_ident_scan(src: Seq<char>, ch: Seq<SyntaxNode>, i: nat, depth: nat) -> Seq<
    char,
>
    decreases 6 - depth, ch.len() - i,
{
    if depth > 5 || i >= ch.len() {
        Seq::empty()
    } else {
        let k = ch[i as int].kind@;
        if k == "identifier"@ {
            text_of(src, ch[i as int])
        } else if is_c_declarator(k) {
            let name = c_fn_ident(src, ch[i as int], depth + 1);
            if name.len() > 0 {
                name
            } else {
                c_fn_ident_scan(src, ch, i + 1, depth)
            }
        } else {
            c_fn_ident_scan(src, ch, i + 1, depth)
        }
    }
}

/// A named struct inside a declaration.
pub open spec fn c_decl_child(src: Seq<char>, c: SyntaxNode) -> ResultView {
    if c.kind@ == "struct_specifier"@ {
        named_decl_item(src, c, cpp_tag_name(src, c), SymbolKind::Struct, Visibility::Public)
    } else {
        ResultView::empty()
    }
}

/// What one top-level node contributes.
pub open spec fn c_item(src: Seq<char>, n: SyntaxNode) -> ResultView {
    let k = n.kind@;
    if k == "preproc_include"@ {
        import_item(cpp_include(src, n))
    } else if k == "function_definition"@ {
        callable_item(
            n,
            c_fn_ident(src, n, 0),
            SymbolKind::Function,
            Visibility::Public,
            sig_or_first_line(src, n, seq!["compound_statement"@]),
            child_text(src, n, seq!["compound_statement"@]),
        )
    } else if k == "struct_specifier"@ {
        named_decl_item(src, n, cpp_tag_name(src, n), SymbolKind::Struct, Visibility::Public)
    } else if k == "enum_specifier"@ {
        named_decl_item(src, n, cpp_tag_name(src, n), SymbolKind::Enum, Visibility::Public)
    } else if k == "type_definition"@ {
        named_decl_item(src, n, cpp_typedef_name(src, n), SymbolKind::TypeAlias, Visibility::Public)
    } else if k == "declaration"@ {
        fold_items(n.children@, |c: SyntaxNode| c_decl_child(src, c))
    } else {
        ResultView::empty()
    }
}

impl CLanguage {
    fn find_fn_identifier(src: &Vec<char>, n: &SyntaxNode, depth: usize) -> (r: Vec<char>)
        requires
            depth <= 6,
        ensures
            r@ == c_fn_ident(src@, *n, depth as nat),
        decreases 6 - depth, n.children@.len() + 1,
    {
        if depth > 5 {
            return Vec::new();
        }
        Self::find_fn_identifier_scan(src, n, 0, depth)
    }

    fn find_fn_identifier_scan(src: &Vec<char>, n: &SyntaxNode, i: usize, depth: usize) -> (r: Vec<
        char,
    >)
        requires
            depth <= 5,
        ensures
            r@ == c_fn_ident_scan(src@, n.children@, i as nat, depth as nat),
        decreases 6 - depth, n.children@.len() - i,
    {
        if i >= n.children.len() {
            return Vec::new();
        }
        let c = &n.children[i];
        if kind_is(c, "identifier") {
            node_text(src, c)
        } else if kind_is(c, "function_declarator") || kind_is(c, "pointer_declarator") || kind_is(
            c,
            "declarator",
        ) {
            let name = Self::find_fn_identifier(src, c, depth + 1);
            if name.len() > 0 {
                name
            } else {
                Self::find_fn_identifier_scan(src, n, i + 1, depth)
            }
        } else {
            Self::find_fn_identifier_scan(src, n, i + 1, depth)
        }
    }

    fn decl_child(src: &Vec<char>, c: &SyntaxNode) -> (r: ParseResult)
        ensures
            r@ == c_decl_child(src@, *c),
    {
        if kind_is(c, "struct_specifier") {
            let name = CppLanguage::extract_tag_name(src, c);
            named_decl_exec(src, c, &name, SymbolKind::Struct, Visibility::Public)
        } else {
            ParseResult::empty()
        }
    }

    fn item(src: &Vec<char>, n: &SyntaxNode) -> (r: ParseResult)
        ensures
            r@ == c_item(src@, *n),
    {
        if kind_is(n, "preproc_include") {
            import_exec(CppLanguage::extract_include(src, n))
        } else if kind_is(n, "function_definition") {
            let name = Self::find_fn_identifier(src, n, 0);
            let sig = sig_or_first_line_exec(src, n, &ks1("compound_statement"));
            let body = child_text_exec(src, n, &ks1("compound_statement"));
            callable_exec(n, &name, SymbolKind::Function, Visibility::Public, &sig, &body)
        } else if kind_is(n, "struct_specifier") {
            let name = CppLanguage::extract_tag_name(src, n);
            named_decl_exec(src, n, &name, SymbolKind::Struct, Visibility::Public)
        } else if kind_is(n, "enum_specifier") {
            let name = CppLanguage::extract_tag_name(src, n);
            named_decl_exec(src, n, &name, SymbolKind::Enum, Visibility::Public)
        } else if kind_is(n, "type_definition") {
            let name = last_child_text_exec(
                src,
                n,
                &ks3("type_identifier", "identifier", "primitive_type"),
            );
            named_decl_exec(src, n, &name, SymbolKind::TypeAlias, Visibility::Public)
        } else if kind_is(n, "declaration") {
            fold_nodes(
                src,
                &n.children,
                Self::decl_child,
                Ghost(|c: SyntaxNode| c_decl_child(src@, c)),
            )
        } else {
            ParseResult::empty()
        }
    }
}

/// What extraction finds in a source text with the given tree.
pub open spec fn c_extract(source: Seq<char>, root: SyntaxNode) -> ResultView {
    fold_items(root.children@, |n: SyntaxNode| c_item(source, n))
}

impl LanguageSupport for CLanguage {
    open spec fn spec_name(&self) -> Seq<char> {
        "c"@
    }

    open spec fn spec_extract(&self, source: Seq<char>, root: SyntaxNode) -> ResultView {
        c_extract(source, root)
    }

    fn ts_language(&self) -> tree_sitter::Language {
        grammar()
    }

    fn name(&self) -> (r: &str) {
        "c"
    }

    fn extract(&self, source: &str, tree: &SyntaxTree) -> (r: ParseResult) {
        let src = str_chars(source);
        fold_nodes(&src, &tree.root.children, Self::item, Ghost(|n: SyntaxNode| c_item(src@, n)))
    }
}

} // verus!

verus! {

/// Every export of what C extraction finds names a public symbol of
/// the same kind: nothing is exported that is not declared public.
pub proof fn law_exports_are_public(source: Seq<char>, root: SyntaxNode)
    ensures
        exports_public(c_extract(source, root)),
{
    broadcast use group_exports_public;

    assert forall|n: SyntaxNode| exports_public(#[trigger] c_item(source, n)) by {
        lemma_fold_exports_public(n.children@, |c: SyntaxNode| c_decl_child(source, c));
    }
    lemma_fold_exports_public(root.children@, |n: SyntaxNode| c_item(source, n));
}

/// What this extraction exports is exactly its public symbols, each once,
/// with their kinds and in their order.
pub proof fn law_exports_mirror_public_symbols(source: Seq<char>, root: SyntaxNode)
    ensures
        exports_mirror_symbols(c_extract(source, root)),
{
    broadcast use group_exports_mirror;

    assert forall|n: SyntaxNode| exports_mirror_symbols(#[trigger] c_item(source, n)) by {
        lemma_fold_mirror(n.children@, |c: SyntaxNode| c_decl_child(source, c));
    }
    lemma_fold_mirror(root.children@, |n: SyntaxNode| c_item(source, n));
}

} // verus!

verus! {

/// The kinds that lead from a function definition to its name.
pub open spec fn c_name_path_kinds() -> Seq<Seq<char>> {
    seq!["identifier"@, "function_declarator"@, "pointer_declarator"@, "declarator"@]
}

/// `n` leads to a named identifier: its first child that is an identifier, a
/// function declarator, a pointer declarator or a declarator is either an
/// identifier with some text, or a declarator that leads on in the same way
/// (within five levels).
pub open spec fn c_leads_to_name(src: Seq<char>, n: SyntaxNode, depth: nat) -> bool
    decreases 6 - depth,
{
    if depth > 5 {
        false
    } else {
        match first_child_in(n.children@, c_name_path_kinds(), 0) {
            Some(i) => if n.children@[i].kind@ == "identifier"@ {
                text_of(src, n.children@[i]).len() > 0
            } else {
                c_leads_to_name(src, n.children@[i], depth + 1)
            },
            None => false,
        }
    }
}

proof fn lemma_c_path_kinds(k: Seq<char>)
    ensures
        !c_name_path_kinds().contains(k) ==> k != "identifier"@ && !is_c_declarator(k),
        c_name_path_kinds().contains(k) && k != "identifier"@ ==> is_c_declarator(k),
{
    let ks = c_name_path_kinds();
    assert(ks[0] == "identifier"@ && ks[1] == "function_declarator"@ && ks[2] == "pointer_declarator"@
        && ks[3] == "declarator"@);
    if ks.contains(k) {
        let q = choose|q: int| 0 <= q < ks.len() && ks[q] == k;
        assert(q == 0 || q == 1 || q == 2 || q == 3);
    }
}

proof fn lemma_c_scan_skips(src: Seq<char>, ch: Seq<SyntaxNode>, j: nat, i: nat, depth: nat)
    requires
        j <= i <= ch.len(),
        depth <= 5,
        forall|m: int| j <= m < i ==> !c_name_path_kinds().contains(#[trigger] ch[m].kind@),
    ensures
        c_fn_ident_scan(src, ch, j, depth) == c_fn_ident_scan(src, ch, i, depth),
    decreases i - j,
{
    if j < i {
        lemma_c_path_kinds(ch[j as int].kind@);
        lemma_c_scan_skips(src, ch, j + 1, i, depth);
    }
}

proof fn lemma_c_leads_to_name(src: Seq<char>, n: SyntaxNode, depth: nat)
    requires
        c_leads_to_name(src, n, depth),
    ensures
        c_fn_ident(src, n, depth).len() > 0,
    decreases 6 - depth,
{
    let ch = n.children@;
    let ks = c_name_path_kinds();
    lemma_first_child_in(ch, ks, 0);
    lemma_first_child_in_before(ch, ks, 0);
    let i = first_child_in(ch, ks, 0)->0;
    lemma_c_scan_skips(src, ch, 0, i as nat, depth);
    lemma_c_path_kinds(ch[i].kind@);
    if ch[i].kind@ != "identifier"@ {
        lemma_c_leads_to_name(src, ch[i], depth + 1);
    }
}

/// A function definition whose declarators lead to a named identifier (as in
/// `char *dup(const char *s)`, through a pointer declarator) is reported as a
/// public function with a non-empty name, spanning the definition, and is
/// exported under that name.
pub proof fn law_function_names_are_found(src: Seq<char>, root: SyntaxNode, i: int)
    requires
        0 <= i < root.children@.len(),
        root.children@[i].kind@ == "function_definition"@,
        c_leads_to_name(src, root.children@[i], 0),
    ensures
        ({
            let n = root.children@[i];
            let r = CLanguage.spec_extract(src, root);
            exists|s: SymbolView|
                #[trigger] r.symbols.contains(s) && s.kind == SymbolKind::Function && s.name.len()
                    > 0 && s.start_line == n.start_line && s.end_line == n.end_line
                    && r.exports.contains(ExportView { name: s.name, kind: SymbolKind::Function })
        }),
{
    let n = root.children@[i];
    assert("function_definition"@.len() == 19) by {
        reveal_strlit("function_definition");
    }
    assert("preproc_include"@.len() == 15) by {
        reveal_strlit("preproc_include");
    }
    assert(n.kind@ != "preproc_include"@);
    lemma_c_leads_to_name(src, n, 0);
    let piece = c_item(src, n);
    let s = piece.symbols[0];
    let e = ExportView { name: s.name, kind: SymbolKind::Function };
    assert(piece.symbols.contains(s));
    assert(piece.exports[0] == e);
    assert(piece.exports.contains(e));
    lemma_fold_has_symbol(root.children@, |m: SyntaxNode| c_item(src, m), i, s);
    lemma_fold_has_export(root.children@, |m: SyntaxNode| c_item(src, m), i, e);
    let r = CLanguage.spec_extract(src, root);
    assert(r.symbols.contains(s));
    assert(r.exports.contains(e));
}

} // verus!
