//! Prisma schemas: models, enums, datasources, generators and types.
use vstd::prelude::*;
use crate::parser::language::{exports_public, group_exports_public, lemma_fold_exports_public};
use crate::parser::common::{plain_decl_exec, plain_decl_item};
use crate::parser::language::{
    fold_items, fold_nodes, LanguageSupport, ParseResult, ResultView, SymbolKind, Visibility,
};
use crate::syntax::{child_text, child_text_exec, kind_is, ks1, SyntaxNode, SyntaxTree};
use crate::text::str_chars;

verus! {

pub struct PrismaLanguage;

/// The grammar of `tree_sitter_prisma_io` (`LANGUAGE`).
#[verifier::external_body]
fn grammar() -> tree_sitter::Language {
    tree_sitter_prisma_io::LANGUAGE.into()
}

/// The kind recorded for each declaration.
pub open spec fn prisma_kind(k: Seq<char>) -> Option<SymbolKind> {
    if k == "model_declaration"@ {
        Some(SymbolKind::Struct)
    } else if k == "enum_declaration"@ {
        Some(SymbolKind::Enum)
    } else if k == "datasource_declaration"@ || k == "generator_declaration"@ {
        Some(SymbolKind::Block)
    } else if k == "type_declaration"@ {
        Some(SymbolKind::TypeAlias)
    } else {
        None
    }
}

/// A declaration with a name.
pub open spec fn prisma_item(src: Seq<char>, n: SyntaxNode) -> ResultView {
    let name = child_text(src, n, seq!["identifier"@]);
    match prisma_kind(n.kind@) {
        Some(k) => if name.len() == 0 {
            ResultView::empty()
        } else {
            plain_decl_item(src, n, name, k, Visibility::Public)
        },
        None => ResultView::empty(),
    }
}

impl PrismaLanguage {
    fn kind_of(n: &SyntaxNode) -> (r: Option<SymbolKind>)
        ensures
            r == prisma_kind(n.kind@),
    {
        if kind_is(n, "model_declaration") {
            Some(SymbolKind::Struct)
        } else if kind_is(n, "enum_declaration") {
            Some(SymbolKind::Enum)
        } else if kind_is(n, "datasource_declaration") || kind_is(n, "generator_declaration") {
            Some(SymbolKind::Block)
        } else if kind_is(n, "type_declaration") {
            Some(SymbolKind::TypeAlias)
        } else {
            None
        }
    }

    fn item(src: &Vec<char>, n: &SyntaxNode) -> (r: ParseResult)
        ensures
            r@ == prisma_item(src@, *n),
    {
        match Self::kind_of(n) {
            Some(k) => {
                let name = child_text_exec(src, n, &ks1("identifier"));
                if name.len() == 0 {
                    ParseResult::empty()
                } else {
                    plain_decl_exec(src, n, &name, k, Visibility::Public)
                }
            },
            None => ParseResult::empty(),
        }
    }
}

impl LanguageSupport for PrismaLanguage {
    open spec fn spec_name(&self) -> Seq<char> {
        "prisma"@
    }

    open spec fn spec_extract(&self, source: Seq<char>, root: SyntaxNode) -> ResultView {
        fold_items(root.children@, |n: SyntaxNode| prisma_item(source, n))
    }

    fn ts_language(&self) -> tree_sitter::Language {
        grammar()
    }

    fn name(&self) -> (r: &str) {
        "prisma"
    }

    fn extract(&self, source: &str, tree: &SyntaxTree) -> (r: ParseResult) {
        let src = str_chars(source);
        fold_nodes(&src, &tree.root.children, Self::item, Ghost(|n: SyntaxNode| prisma_item(src@, n)))
    }
}

} // verus!

verus! {

/// Every export of what Prisma extraction finds names a public symbol of
/// the same kind: nothing is exported that is not declared public.
pub proof fn law_exports_are_public(source: Seq<char>, root: SyntaxNode)
    ensures
        exports_public(PrismaLanguage.spec_extract(source, root)),
{
    broadcast use group_exports_public;

    lemma_fold_exports_public(root.children@, |n: SyntaxNode| prisma_item(source, n));
}

} // verus!
