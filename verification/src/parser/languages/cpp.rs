//! C++: functions, structs, classes, enums, namespaces, typedefs, includes.
use vstd::prelude::*;
use crate::parser::language::{exports_public, group_exports_public, lemma_fold_exports_public};
use crate::parser::language::{exports_mirror_symbols, group_exports_mirror, lemma_fold_mirror};
use crate::parser::common::{
    callable_exec, callable_item, import_exec, import_item, last_piece, last_piece_exec,
    named_decl_exec, named_decl_item, opt_import, path_import, path_import_exec, sig_or_first_line,
    sig_or_first_line_exec,
};
use crate::parser::language::{
    fold_items, fold_nodes, Import, LanguageSupport, ParseResult, ResultView, SymbolKind,
    Visibility,
};
use crate::syntax::{
    child_text, child_text_exec, kind_is, ks1, ks2, ks3, last_child_text, last_child_text_exec,
    node_text, text_of, SyntaxNode, SyntaxTree,
};
use crate::text::{str_chars, trim, trim_exec, trim_set, trim_set_exec, trim_start_matches,
    trim_start_matches_exec};

verus! {

pub struct CppLanguage;

/// The grammar of `tree_sitter_cpp` (`LANGUAGE`, converted to a `Language`).
#[verifier::external_body]
fn grammar() -> tree_sitter::Language {
    tree_sitter_cpp::LANGUAGE.into()
}

pub open spec fn is_declarator(k: Seq<char>) -> bool {
    k == "function_declarator"@ || k == "pointer_declarator"@ || k == "reference_declarator"@
        || k == "abstract_pointer_declarator"@
}

/// The name of a function: the first identifier among the children, looking
/// into declarators, at most six levels deep.
pub open spec fn cpp_fn_ident(src: Seq<char>, n: SyntaxNode, depth: nat) -> Seq<char>
    decreases 7 - depth, n.children@.len() + 1,
{
    if depth > 6 {
        Seq::empty()
    } else {
        cpp_fn_ident_scan(src, n.children@, 0, depth)
    }
}

pub open spec fn cpp_fn_ident_scan(src: Seq<char>, ch: Seq<SyntaxNode>, i: nat, depth: nat) -> Seq<
    char,
>
    decreases 7 - depth, ch.len() - i,
{
    if depth > 6 || i >= ch.len() {
        Seq::empty()
    } else {
        let k = ch[i as int].kind@;
        if k == "identifier"@ || k == "field_identifier"@ {
            text_of(src, ch[i as int])
        } else if k == "qualified_identifier"@ {
            last_piece(text_of(src, ch[i as int]), "::"@)
        } else if is_declarator(k) {
            let name = cpp_fn_ident(src, ch[i as int], depth + 1);
            if name.len() > 0 {
                name
            } else {
                cpp_fn_ident_scan(src, ch, i + 1, depth)
            }
        } else {
            cpp_fn_ident_scan(src, ch, i + 1, depth)
        }
    }
}

pub open spec fn cpp_tag_name(src: Seq<char>, n: SyntaxNode) -> Seq<char> {
    child_text(src, n, seq!["type_identifier"@, "identifier"@])
}

pub open spec fn cpp_typedef_name(src: Seq<char>, n: SyntaxNode) -> Seq<char> {
    last_child_text(src, n, seq!["type_identifier"@, "identifier"@, "primitive_type"@])
}

pub open spec fn cpp_namespace_name(src: Seq<char>, n: SyntaxNode) -> Seq<char> {
    child_text(src, n, seq!["identifier"@, "namespace_identifier"@])
}

/// `#include <x>` / `#include "x"`: the path between the delimiters.
pub open spec fn cpp_include(src: Seq<char>, n: SyntaxNode) -> Option<crate::parser::language::ImportView> {
    path_import(
        trim_set(trim(trim_start_matches(text_of(src, n), "#include"@)), seq!['<', '>', '"']),
    )
}

pub open spec fn cpp_decl_child(src: Seq<char>, c: SyntaxNode) -> ResultView {
    if c.kind@ == "struct_specifier"@ || c.kind@ == "class_specifier"@ {
        let kind = if c.kind@ == "class_specifier"@ {
            SymbolKind::Class
        } else {
            SymbolKind::Struct
        };
        named_decl_item(src, c, cpp_tag_name(src, c), kind, Visibility::Public)
    } else {
        ResultView::empty()
    }
}

/// What one top-level node of a C++ file contributes.
pub open spec fn cpp_item(src: Seq<char>, n: SyntaxNode) -> ResultView {
    let k = n.kind@;
    if k == "preproc_include"@ {
        import_item(cpp_include(src, n))
    } else if k == "function_definition"@ {
        let name = cpp_fn_ident(src, n, 0);
        if name.len() == 0 {
            ResultView::empty()
        } else {
            callable_item(
                n,
                name,
                SymbolKind::Function,
                Visibility::Public,
                sig_or_first_line(src, n, seq!["compound_statement"@]),
                child_text(src, n, seq!["compound_statement"@]),
            )
        }
    } else if k == "struct_specifier"@ {
        named_decl_item(src, n, cpp_tag_name(src, n), SymbolKind::Struct, Visibility::Public)
    } else if k == "class_specifier"@ {
        named_decl_item(src, n, cpp_tag_name(src, n), SymbolKind::Class, Visibility::Public)
    } else if k == "enum_specifier"@ {
        named_decl_item(src, n, cpp_tag_name(src, n), SymbolKind::Enum, Visibility::Public)
    } else if k == "namespace_definition"@ {
        named_decl_item(src, n, cpp_namespace_name(src, n), SymbolKind::Struct, Visibility::Public)
    } else if k == "type_definition"@ {
        named_decl_item(
            src,
            n,
            cpp_typedef_name(src, n),
            SymbolKind::TypeAlias,
            Visibility::Public,
        )
    } else if k == "declaration"@ {
        fold_items(n.children@, |c: SyntaxNode| cpp_decl_child(src, c))
    } else {
        ResultView::empty()
    }
}

impl CppLanguage {
    fn is_declarator_exec(c: &SyntaxNode) -> (r: bool)
        ensures
            r == is_declarator(c.kind@),
    {
        kind_is(c, "function_declarator") || kind_is(c, "pointer_declarator") || kind_is(
            c,
            "reference_declarator",
        ) || kind_is(c, "abstract_pointer_declarator")
    }

    fn find_fn_identifier(src: &Vec<char>, n: &SyntaxNode, depth: usize) -> (r: Vec<char>)
        requires
            depth <= 7,
        ensures
            r@ == cpp_fn_ident(src@, *n, depth as nat),
        decreases 7 - depth, n.children@.len() + 1,
    {
        if depth > 6 {
            return Vec::new();
        }
        Self::find_fn_identifier_scan(src, n, 0, depth)
    }

    fn find_fn_identifier_scan(src: &Vec<char>, n: &SyntaxNode, i: usize, depth: usize) -> (r: Vec<
        char,
    >)
        requires
            depth <= 6,
        ensures
            r@ == cpp_fn_ident_scan(src@, n.children@, i as nat, depth as nat),
        decreases 7 - depth, n.children@.len() - i,
    {
        if i >= n.children.len() {
            return Vec::new();
        }
        let c = &n.children[i];
        if kind_is(c, "identifier") || kind_is(c, "field_identifier") {
            node_text(src, c)
        } else if kind_is(c, "qualified_identifier") {
            let t = node_text(src, c);
            proof {
                reveal_strlit("::");
            }
            last_piece_exec(&t, "::")
        } else if Self::is_declarator_exec(c) {
            let name = Self::find_fn_identifier(src, c, depth + 1);
            if name.len() > 0 {
                name
            } else {
                Self::find_fn_identifier_scan(src, n, i + 1, depth)
            }
        } else {
            Self::find_fn_identifier_scan(src, n, i + 1, depth)
        }
    }

    pub(crate) fn extract_tag_name(src: &Vec<char>, n: &SyntaxNode) -> (r: Vec<char>)
        ensures
            r@ == cpp_tag_name(src@, *n),
    {
        child_text_exec(src, n, &ks2("type_identifier", "identifier"))
    }

    pub(crate) fn extract_include(src: &Vec<char>, n: &SyntaxNode) -> (r: Option<Import>)
        ensures
            opt_import(r) == cpp_include(src@, *n),
    {
        let t = node_text(src, n);
        let a = trim_start_matches_exec(&t, "#include");
        let b = trim_exec(&a);
        let path = trim_set_exec(&b, &['<', '>', '"']);
        path_import_exec(&path)
    }

    fn decl_child(src: &Vec<char>, c: &SyntaxNode) -> (r: ParseResult)
        ensures
            r@ == cpp_decl_child(src@, *c),
    {
        if kind_is(c, "struct_specifier") || kind_is(c, "class_specifier") {
            let kind = if kind_is(c, "class_specifier") {
                SymbolKind::Class
            } else {
                SymbolKind::Struct
            };
            let name = Self::extract_tag_name(src, c);
            named_decl_exec(src, c, &name, kind, Visibility::Public)
        } else {
            ParseResult::empty()
        }
    }

    fn item(src: &Vec<char>, n: &SyntaxNode) -> (r: ParseResult)
        ensures
            r@ == cpp_item(src@, *n),
    {
        if kind_is(n, "preproc_include") {
            import_exec(Self::extract_include(src, n))
        } else if kind_is(n, "function_definition") {
            let name = Self::find_fn_identifier(src, n, 0);
            if name.len() == 0 {
                ParseResult::empty()
            } else {
                let sig = sig_or_first_line_exec(src, n, &ks1("compound_statement"));
                let body = child_text_exec(src, n, &ks1("compound_statement"));
                callable_exec(n, &name, SymbolKind::Function, Visibility::Public, &sig, &body)
            }
        } else if kind_is(n, "struct_specifier") {
            let name = Self::extract_tag_name(src, n);
            named_decl_exec(src, n, &name, SymbolKind::Struct, Visibility::Public)
        } else if kind_is(n, "class_specifier") {
            let name = Self::extract_tag_name(src, n);
            named_decl_exec(src, n, &name, SymbolKind::Class, Visibility::Public)
        } else if kind_is(n, "enum_specifier") {
            let name = Self::extract_tag_name(src, n);
            named_decl_exec(src, n, &name, SymbolKind::Enum, Visibility::Public)
        } else if kind_is(n, "namespace_definition") {
            let name = child_text_exec(src, n, &ks2("identifier", "namespace_identifier"));
            named_decl_exec(src, n, &name, SymbolKind::Struct, Visibility::Public)
        } else if kind_is(n, "type_definition") {
            let name = last_child_text_exec(
                src,
                n,
                &ks3("type_identifier", "identifier", "primitive_type"),
            );
            named_decl_exec(src, n, &name, SymbolKind::TypeAlias, Visibility::Public)
        } else if kind_is(n, "declaration") {
            fold_nodes(
                src,
                &n.children,
                Self::decl_child,
                Ghost(|c: SyntaxNode| cpp_decl_child(src@, c)),
            )
        } else {
            ParseResult::empty()
        }
    }
}

impl LanguageSupport for CppLanguage {
    open spec fn spec_name(&self) -> Seq<char> {
        "cpp"@
    }

    open spec fn spec_extract(&self, source: Seq<char>, root: SyntaxNode) -> ResultView {
        fold_items(root.children@, |n: SyntaxNode| cpp_item(source, n))
    }

    fn ts_language(&self) -> tree_sitter::Language {
        grammar()
    }

    fn name(&self) -> (r: &str) {
        "cpp"
    }

    fn extract(&self, source: &str, tree: &SyntaxTree) -> (r: ParseResult) {
        let src = str_chars(source);
        fold_nodes(&src, &tree.root.children, Self::item, Ghost(|n: SyntaxNode| cpp_item(src@, n)))
    }
}

} // verus!

verus! {

/// Every export of what C++ extraction finds names a public symbol of
/// the same kind: nothing is exported that is not declared public.
pub proof fn law_exports_are_public(source: Seq<char>, root: SyntaxNode)
    ensures
        exports_public(CppLanguage.spec_extract(source, root)),
{
    broadcast use group_exports_public;

    assert forall|n: SyntaxNode| exports_public(#[trigger] cpp_item(source, n)) by {
        lemma_fold_exports_public(n.children@, |c: SyntaxNode| cpp_decl_child(source, c));
    }
    lemma_fold_exports_public(root.children@, |n: SyntaxNode| cpp_item(source, n));
}

/// What this extraction exports is exactly its public symbols, each once,
/// with their kinds and in their order.
pub proof fn law_exports_mirror_public_symbols(source: Seq<char>, root: SyntaxNode)
    ensures
        exports_mirror_symbols(CppLanguage.spec_extract(source, root)),
{
    broadcast use group_exports_mirror;

    assert forall|n: SyntaxNode| exports_mirror_symbols(#[trigger] cpp_item(source, n)) by {
        lemma_fold_mirror(n.children@, |c: SyntaxNode| cpp_decl_child(source, c));
    }
    lemma_fold_mirror(root.children@, |n: SyntaxNode| cpp_item(source, n));
}

} // verus!
