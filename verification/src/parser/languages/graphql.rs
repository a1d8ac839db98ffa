//! GraphQL: object, interface, enum, scalar, union and input types, and
//! operations.
use vstd::prelude::*;
use crate::parser::language::{exports_public, group_exports_public};
use crate::parser::common::{or_default, or_default_exec, plain_decl_exec, plain_decl_item};
use crate::parser::language::{LanguageSupport, ParseResult, ResultView, SymbolKind, Visibility};
use crate::syntax::{
    child_text, child_text_exec, find_child, first_child_in, first_line_of, kind_is, ks1, node_first_line, node_text, text_of,
    SyntaxNode, SyntaxTree,
};
use crate::text::{is_lit, str_chars, to_string};

verus! {

pub struct GraphqlLanguage;

/// The grammar of `tree_sitter_graphql` (`LANGUAGE`).
#[verifier::external_body]
fn grammar() -> tree_sitter::Language {
    tree_sitter_graphql::LANGUAGE.into()
}

pub open spec fn gql_name(src: Seq<char>, n: SyntaxNode) -> Seq<char> {
    child_text(src, n, seq!["name"@])
}

/// `mutation` operations are mutations; all others are queries.
pub open spec fn gql_op_kind(src: Seq<char>, n: SyntaxNode) -> SymbolKind {
    match first_child_in(n.children@, seq!["operation_type"@], 0) {
        Some(k) => if text_of(src, n.children@[k]) == "mutation"@ {
            SymbolKind::Mutation
        } else {
            SymbolKind::Query
        },
        None => SymbolKind::Query,
    }
}

pub open spec fn is_gql_wrapper(k: Seq<char>) -> bool {
    k == "document"@ || k == "definition"@ || k == "type_system_definition"@ || k
        == "type_system_extension"@ || k == "executable_definition"@ || k == "type_extension"@
        || k == "type_definition"@
}

pub open spec fn is_gql_other_type(k: Seq<char>) -> bool {
    k == "object_type_definition"@ || k == "scalar_type_definition"@ || k
        == "union_type_definition"@ || k == "input_object_type_definition"@
}

/// What a node contributes; wrapper nodes contribute what their children do
/// (last child first, as the traversal stack pops them).
pub open spec fn gql_node(src: Seq<char>, n: SyntaxNode) -> ResultView
    decreases n, 0nat,
{
    let k = n.kind@;
    let name = gql_name(src, n);
    if is_gql_wrapper(k) {
        gql_rev(src, n.children@, n.children@.len() as nat)
    } else if is_gql_other_type(k) {
        if name.len() == 0 {
            ResultView::empty()
        } else {
            plain_decl_item(src, n, name, SymbolKind::Type, Visibility::Public)
        }
    } else if k == "operation_definition"@ {
        plain_decl_item(
            src,
            n,
            or_default(name, "anonymous_operation"@),
            gql_op_kind(src, n),
            Visibility::Public,
        )
    } else if k == "enum_type_definition"@ {
        plain_decl_item(
            src,
            n,
            or_default(name, "anonymous_enum"@),
            SymbolKind::Enum,
            Visibility::Public,
        )
    } else if k == "interface_type_definition"@ {
        plain_decl_item(
            src,
            n,
            or_default(name, "anonymous_interface"@),
            SymbolKind::Interface,
            Visibility::Public,
        )
    } else {
        ResultView::empty()
    }
}

pub open spec fn gql_rev(src: Seq<char>, ch: Seq<SyntaxNode>, k: nat) -> ResultView
    decreases ch, k,
{
    if k == 0 || k > ch.len() {
        ResultView::empty()
    } else {
        gql_node(src, ch[k - 1]).add(gql_rev(src, ch, (k - 1) as nat))
    }
}

impl GraphqlLanguage {
    /// The text of the node's first `name` child, or the empty string.
    pub fn extract_name(n: &SyntaxNode, src: &Vec<char>) -> (r: String)
        ensures
            r@ == gql_name(src@, *n),
    {
        to_string(&child_text_exec(src, n, &ks1("name")))
    }

    /// The node's first line of text, trimmed.
    pub fn first_line(n: &SyntaxNode, src: &Vec<char>) -> (r: String)
        ensures
            r@ == first_line_of(src@, *n),
    {
        to_string(&node_first_line(src, n))
    }

    fn op_kind(src: &Vec<char>, n: &SyntaxNode) -> (r: SymbolKind)
        ensures
            r == gql_op_kind(src@, *n),
    {
        match find_child(n, &ks1("operation_type")) {
            Some(k) => {
                let t = node_text(src, &n.children[k]);
                if is_lit(&t, "mutation") {
                    SymbolKind::Mutation
                } else {
                    SymbolKind::Query
                }
            },
            None => SymbolKind::Query,
        }
    }

    fn is_wrapper(n: &SyntaxNode) -> (r: bool)
        ensures
            r == is_gql_wrapper(n.kind@),
    {
        kind_is(n, "document") || kind_is(n, "definition") || kind_is(n, "type_system_definition")
            || kind_is(n, "type_system_extension") || kind_is(n, "executable_definition")
            || kind_is(n, "type_extension") || kind_is(n, "type_definition")
    }

    fn is_other_type(n: &SyntaxNode) -> (r: bool)
        ensures
            r == is_gql_other_type(n.kind@),
    {
        kind_is(n, "object_type_definition") || kind_is(n, "scalar_type_definition") || kind_is(
            n,
            "union_type_definition",
        ) || kind_is(n, "input_object_type_definition")
    }

    fn node_items(src: &Vec<char>, n: &SyntaxNode) -> (r: ParseResult)
        ensures
            r@ == gql_node(src@, *n),
        decreases *n, 0nat,
    {
        if Self::is_wrapper(n) {
            return Self::rev_items(src, &n.children, n.children.len());
        }
        let name = child_text_exec(src, n, &ks1("name"));
        if Self::is_other_type(n) {
            if name.len() == 0 {
                ParseResult::empty()
            } else {
                plain_decl_exec(src, n, &name, SymbolKind::Type, Visibility::Public)
            }
        } else if kind_is(n, "operation_definition") {
            let kind = Self::op_kind(src, n);
            let nm = or_default_exec(name, "anonymous_operation");
            plain_decl_exec(src, n, &nm, kind, Visibility::Public)
        } else if kind_is(n, "enum_type_definition") {
            let nm = or_default_exec(name, "anonymous_enum");
            plain_decl_exec(src, n, &nm, SymbolKind::Enum, Visibility::Public)
        } else if kind_is(n, "interface_type_definition") {
            let nm = or_default_exec(name, "anonymous_interface");
            plain_decl_exec(src, n, &nm, SymbolKind::Interface, Visibility::Public)
        } else {
            ParseResult::empty()
        }
    }

    fn rev_items(src: &Vec<char>, ch: &Vec<SyntaxNode>, k: usize) -> (r: ParseResult)
        requires
            k <= ch@.len(),
        ensures
            r@ == gql_rev(src@, ch@, k as nat),
        decreases ch@, k,
    {
        if k == 0 {
            return ParseResult::empty();
        }
        let mut out = Self::node_items(src, &ch[k - 1]);
        let rest = Self::rev_items(src, ch, k - 1);
        out.absorb(rest);
        out
    }
}

impl LanguageSupport for GraphqlLanguage {
    open spec fn spec_name(&self) -> Seq<char> {
        "graphql"@
    }

    open spec fn spec_extract(&self, source: Seq<char>, root: SyntaxNode) -> ResultView {
        gql_rev(source, root.children@, root.children@.len() as nat)
    }

    fn ts_language(&self) -> tree_sitter::Language {
        grammar()
    }

    fn name(&self) -> (r: &str) {
        "graphql"
    }

    fn extract(&self, source: &str, tree: &SyntaxTree) -> (r: ParseResult) {
        let src = str_chars(source);
        Self::rev_items(&src, &tree.root.children, tree.root.children.len())
    }
}

} // verus!

verus! {

proof fn lemma_gql_node_exports(src: Seq<char>, n: SyntaxNode)
    ensures
        exports_public(gql_node(src, n)),
    decreases n, 0nat,
{
    broadcast use group_exports_public;

    lemma_gql_rev_exports(src, n.children@, n.children@.len() as nat);
}

proof fn lemma_gql_rev_exports(src: Seq<char>, ch: Seq<SyntaxNode>, k: nat)
    ensures
        exports_public(gql_rev(src, ch, k)),
    decreases ch, k,
{
    broadcast use group_exports_public;

    if k > 0 && k <= ch.len() {
        lemma_gql_node_exports(src, ch[k - 1]);
        lemma_gql_rev_exports(src, ch, (k - 1) as nat);
    }
}

/// Every export of what GraphQL extraction finds names a public symbol of
/// the same kind: nothing is exported that is not declared public.
pub proof fn law_exports_are_public(source: Seq<char>, root: SyntaxNode)
    ensures
        exports_public(GraphqlLanguage.spec_extract(source, root)),
{
    broadcast use group_exports_public;

    lemma_gql_rev_exports(source, root.children@, root.children@.len() as nat);
}

} // verus!
