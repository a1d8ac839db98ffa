//! Rust: functions, structs, enums, traits, methods of impl blocks, `use`
//! declarations.
use vstd::prelude::*;
use crate::parser::language::{exports_public, group_exports_public, lemma_fold_exports_public};
use crate::parser::language::{exports_mirror_symbols, group_exports_mirror, lemma_fold_mirror};
use crate::parser::common::{
    callable_exec, callable_item, decl_exec, decl_item, import_exec, import_item, opt_import,
    sig_or_trimmed, sig_or_trimmed_exec,
};
use crate::parser::language::{
    fold_items, fold_nodes, make_import, one_name, vis_of, visibility, Import, ImportView,
    LanguageSupport, ParseResult, ResultView, SymbolKind,
};
use crate::syntax::{
    child_text, child_text_exec, find_child, first_child_in, kind_is, ks1, ks2, node_text,
    text_of, SyntaxNode, SyntaxTree,
};
use crate::text::{
    ends_with, ends_with_lit, rfind, rfind_exec, split_trim, split_trim_exec, starts_with,
    starts_with_lit, str_chars, substr, trim, trim_end_matches, trim_end_matches_exec, trim_exec,
    trim_start_matches, trim_start_matches_exec,
};

verus! {

pub struct RustLanguage;

/// The grammar of `tree_sitter_rust` (`LANGUAGE`).
#[verifier::external_body]
fn grammar() -> tree_sitter::Language {
    tree_sitter_rust::LANGUAGE.into()
}

/// Public when the first `visibility_modifier` child starts with `pub`.
pub open spec fn rust_is_public(src: Seq<char>, n: SyntaxNode) -> bool {
    match first_child_in(n.children@, seq!["visibility_modifier"@], 0) {
        Some(k) => starts_with(text_of(src, n.children@[k]), "pub"@),
        None => false,
    }
}

pub open spec fn rust_name(src: Seq<char>, n: SyntaxNode) -> Seq<char> {
    child_text(src, n, seq!["identifier"@, "type_identifier"@])
}

/// `use a::b::C;`, `use a::b::{C, D};`, `use a::b::*;`, `use C;`.
pub open spec fn rust_use_of(inner: Seq<char>) -> Option<ImportView> {
    if inner.len() == 0 {
        None
    } else if ends_with(inner, "::*"@) {
        Some(ImportView { source: trim_end_matches(inner, "::*"@), names: seq!["*"@] })
    } else {
        match rfind(inner, "::{"@) {
            Some(b) => Some(
                ImportView {
                    source: inner.subrange(0, b),
                    names: split_trim(
                        trim_end_matches(inner.subrange(b + 3, inner.len() as int), "}"@),
                        ',',
                    ),
                },
            ),
            None => match rfind(inner, "::"@) {
                Some(sep) => Some(
                    ImportView {
                        source: inner.subrange(0, sep),
                        names: seq![inner.subrange(sep + 2, inner.len() as int)],
                    },
                ),
                None => Some(ImportView { source: Seq::empty(), names: seq![inner] }),
            },
        }
    }
}

pub open spec fn rust_use(src: Seq<char>, n: SyntaxNode) -> Option<ImportView> {
    rust_use_of(trim(trim_end_matches(trim(trim_start_matches(text_of(src, n), "use"@)), ";"@)))
}

pub open spec fn rust_fn(src: Seq<char>, n: SyntaxNode, kind: SymbolKind) -> ResultView {
    callable_item(
        n,
        rust_name(src, n),
        kind,
        vis_of(rust_is_public(src, n)),
        sig_or_trimmed(src, n, seq!["block"@]),
        child_text(src, n, seq!["block"@]),
    )
}

/// A method: a `function_item` in the declaration list of an impl block.
pub open spec fn rust_impl_item(src: Seq<char>, i: SyntaxNode) -> ResultView {
    if i.kind@ == "function_item"@ {
        rust_fn(src, i, SymbolKind::Method)
    } else {
        ResultView::empty()
    }
}

pub open spec fn rust_impl_child(src: Seq<char>, c: SyntaxNode) -> ResultView {
    if c.kind@ == "declaration_list"@ {
        fold_items(c.children@, |i: SyntaxNode| rust_impl_item(src, i))
    } else {
        ResultView::empty()
    }
}

/// What one top-level node of a Rust file contributes.
pub open spec fn rust_item(src: Seq<char>, n: SyntaxNode) -> ResultView {
    let k = n.kind@;
    if k == "function_item"@ {
        rust_fn(src, n, SymbolKind::Function)
    } else if k == "struct_item"@ {
        decl_item(src, n, rust_name(src, n), SymbolKind::Struct, vis_of(rust_is_public(src, n)))
    } else if k == "enum_item"@ {
        decl_item(src, n, rust_name(src, n), SymbolKind::Enum, vis_of(rust_is_public(src, n)))
    } else if k == "trait_item"@ {
        decl_item(src, n, rust_name(src, n), SymbolKind::Trait, vis_of(rust_is_public(src, n)))
    } else if k == "impl_item"@ {
        fold_items(n.children@, |c: SyntaxNode| rust_impl_child(src, c))
    } else if k == "use_declaration"@ {
        import_item(rust_use(src, n))
    } else {
        ResultView::empty()
    }
}

impl RustLanguage {
    fn is_public(src: &Vec<char>, n: &SyntaxNode) -> (r: bool)
        ensures
            r == rust_is_public(src@, *n),
    {
        match find_child(n, &ks1("visibility_modifier")) {
            Some(k) => {
                let t = node_text(src, &n.children[k]);
                starts_with_lit(&t, "pub")
            },
            None => false,
        }
    }

    fn extract_name(src: &Vec<char>, n: &SyntaxNode) -> (r: Vec<char>)
        ensures
            r@ == rust_name(src@, *n),
    {
        child_text_exec(src, n, &ks2("identifier", "type_identifier"))
    }

    fn use_of(inner: &Vec<char>) -> (r: Option<Import>)
        ensures
            opt_import(r) == rust_use_of(inner@),
    {
        if inner.len() == 0 {
            return None;
        }
        if ends_with_lit(inner, "::*") {
            let p = trim_end_matches_exec(inner, "::*");
            let star = str_chars("*");
            return Some(make_import(&p, one_name(&star)));
        }
        match rfind_exec(inner, "::{") {
            Some(b) => {
                proof {
                    reveal_strlit("::{");
                }
                let p = substr(inner, 0, b);
                let rest = substr(inner, b + 3, inner.len());
                let rest2 = trim_end_matches_exec(&rest, "}");
                Some(make_import(&p, split_trim_exec(&rest2, ',')))
            },
            None => match rfind_exec(inner, "::") {
                Some(sep) => {
                    proof {
                        reveal_strlit("::");
                    }
                    let p = substr(inner, 0, sep);
                    let name = substr(inner, sep + 2, inner.len());
                    Some(make_import(&p, one_name(&name)))
                },
                None => Some(make_import(&Vec::new(), one_name(inner))),
            },
        }
    }

    fn extract_use_import(src: &Vec<char>, n: &SyntaxNode) -> (r: Option<Import>)
        ensures
            opt_import(r) == rust_use(src@, *n),
    {
        let t = node_text(src, n);
        let a = trim_start_matches_exec(&t, "use");
        let b = trim_exec(&a);
        let c = trim_end_matches_exec(&b, ";");
        let inner = trim_exec(&c);
        Self::use_of(&inner)
    }

    fn function(src: &Vec<char>, n: &SyntaxNode, kind: SymbolKind) -> (r: ParseResult)
        ensures
            r@ == rust_fn(src@, *n, kind),
    {
        let name = Self::extract_name(src, n);
        let vis = visibility(Self::is_public(src, n));
        let sig = sig_or_trimmed_exec(src, n, &ks1("block"));
        let body = child_text_exec(src, n, &ks1("block"));
        callable_exec(n, &name, kind, vis, &sig, &body)
    }

    fn impl_item(src: &Vec<char>, i: &SyntaxNode) -> (r: ParseResult)
        ensures
            r@ == rust_impl_item(src@, *i),
    {
        if kind_is(i, "function_item") {
            Self::function(src, i, SymbolKind::Method)
        } else {
            ParseResult::empty()
        }
    }

    fn impl_child(src: &Vec<char>, c: &SyntaxNode) -> (r: ParseResult)
        ensures
            r@ == rust_impl_child(src@, *c),
    {
        if kind_is(c, "declaration_list") {
            fold_nodes(
                src,
                &c.children,
                Self::impl_item,
                Ghost(|i: SyntaxNode| rust_impl_item(src@, i)),
            )
        } else {
            ParseResult::empty()
        }
    }

    fn item(src: &Vec<char>, n: &SyntaxNode) -> (r: ParseResult)
        ensures
            r@ == rust_item(src@, *n),
    {
        if kind_is(n, "function_item") {
            Self::function(src, n, SymbolKind::Function)
        } else if kind_is(n, "struct_item") || kind_is(n, "enum_item") || kind_is(n, "trait_item") {
            let kind = if kind_is(n, "struct_item") {
                SymbolKind::Struct
            } else if kind_is(n, "enum_item") {
                SymbolKind::Enum
            } else {
                SymbolKind::Trait
            };
            let name = Self::extract_name(src, n);
            let vis = visibility(Self::is_public(src, n));
            decl_exec(src, n, &name, kind, vis)
        } else if kind_is(n, "impl_item") {
            fold_nodes(
                src,
                &n.children,
                Self::impl_child,
                Ghost(|c: SyntaxNode| rust_impl_child(src@, c)),
            )
        } else if kind_is(n, "use_declaration") {
            import_exec(Self::extract_use_import(src, n))
        } else {
            ParseResult::empty()
        }
    }
}

impl LanguageSupport for RustLanguage {
    open spec fn spec_name(&self) -> Seq<char> {
        "rust"@
    }

    open spec fn spec_extract(&self, source: Seq<char>, root: SyntaxNode) -> ResultView {
        fold_items(root.children@, |n: SyntaxNode| rust_item(source, n))
    }

    fn ts_language(&self) -> tree_sitter::Language {
        grammar()
    }

    fn name(&self) -> (r: &str) {
        "rust"
    }

    fn extract(&self, source: &str, tree: &SyntaxTree) -> (r: ParseResult) {
        let src = str_chars(source);
        fold_nodes(&src, &tree.root.children, Self::item, Ghost(|n: SyntaxNode| rust_item(src@, n)))
    }
}

} // verus!

verus! {

/// Every export of what Rust extraction finds names a public symbol of
/// the same kind: nothing is exported that is not declared public.
pub proof fn law_exports_are_public(source: Seq<char>, root: SyntaxNode)
    ensures
        exports_public(RustLanguage.spec_extract(source, root)),
{
    broadcast use group_exports_public;

    assert forall|n: SyntaxNode| exports_public(#[trigger] rust_item(source, n)) by {
        assert forall|c: SyntaxNode| exports_public(#[trigger] rust_impl_child(source, c)) by {
            lemma_fold_exports_public(c.children@, |i: SyntaxNode| rust_impl_item(source, i));
        }
        lemma_fold_exports_public(n.children@, |c: SyntaxNode| rust_impl_child(source, c));
    }
    lemma_fold_exports_public(root.children@, |n: SyntaxNode| rust_item(source, n));
}

/// What this extraction exports is exactly its public symbols, each once,
/// with their kinds and in their order.
pub proof fn law_exports_mirror_public_symbols(source: Seq<char>, root: SyntaxNode)
    ensures
        exports_mirror_symbols(RustLanguage.spec_extract(source, root)),
{
    broadcast use group_exports_mirror;

    assert forall|n: SyntaxNode| exports_mirror_symbols(#[trigger] rust_item(source, n)) by {
        assert forall|c: SyntaxNode| exports_mirror_symbols(#[trigger] rust_impl_child(source, c)) by {
            lemma_fold_mirror(c.children@, |i: SyntaxNode| rust_impl_item(source, i));
        }
        lemma_fold_mirror(n.children@, |c: SyntaxNode| rust_impl_child(source, c));
    }
    lemma_fold_mirror(root.children@, |n: SyntaxNode| rust_item(source, n));
}

} // verus!
