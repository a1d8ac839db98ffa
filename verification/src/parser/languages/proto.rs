//! Protocol Buffers: messages, services with their RPCs, enums and imports.
//! Nothing is exported.
use vstd::prelude::*;
use crate::parser::language::{exports_public, group_exports_public, lemma_fold_exports_public};
use crate::parser::common::{import_exec, import_item, plain_decl_exec, plain_decl_item};
use crate::parser::language::{fold_items, fold_nodes, make_import, one_name, ImportView, LanguageSupport, ParseResult, ResultView, SymbolKind, Visibility};
use crate::syntax::{child_by_field, child_text, child_text_exec, field_child, kind_is, ks5, node_text, text_of, SyntaxNode, SyntaxTree};
use crate::text::{after_last, after_last_exec, find_char_from, find_char_from_exec, str_chars, substr, trim_end_matches, trim_end_matches_exec, trim_set, trim_set_exec};

verus! {

pub struct ProtoLanguage;

/// The grammar of `tree_sitter_proto` (`LANGUAGE`).
#[verifier::external_body]
fn grammar() -> tree_sitter::Language {
    tree_sitter_proto::LANGUAGE.into()
}

/// The fields that may hold a declaration's name, in the order tried.
pub open spec fn proto_name_fields() -> Seq<Seq<char>> {
    seq!["name"@, "message_name"@, "service_name"@, "enum_name"@, "rpc_name"@]
}

/// The text of the first name field present (from field `i` on); failing
/// that, of the first name or identifier child.
pub open spec fn proto_name_from(src: Seq<char>, n: SyntaxNode, i: int) -> Seq<char>
    decreases proto_name_fields().len() - i,
{
    if i < 0 || i >= proto_name_fields().len() {
        child_text(
            src,
            n,
            seq!["message_name"@, "service_name"@, "enum_name"@, "rpc_name"@, "identifier"@],
        )
    } else {
        match field_child(n, proto_name_fields()[i]) {
            Some(k) => text_of(src, n.children@[k]),
            None => proto_name_from(src, n, i + 1),
        }
    }
}

pub open spec fn proto_name(src: Seq<char>, n: SyntaxNode) -> Seq<char> {
    proto_name_from(src, n, 0)
}

pub open spec fn proto_unquote(t: Seq<char>) -> Seq<char> {
    trim_set(trim_set(t, seq!['"']), seq!['\''])
}

/// The first string child (from `i` on) with a non-empty unquoted text.
pub open spec fn proto_string_from(src: Seq<char>, ch: Seq<SyntaxNode>, i: int) -> Option<Seq<char>>
    decreases ch.len() - i,
{
    if i < 0 || i >= ch.len() {
        None
    } else {
        let p = proto_unquote(text_of(src, ch[i]));
        if (ch[i].kind@ == "string"@ || ch[i].kind@ == "string_literal"@) && p.len() > 0 {
            Some(p)
        } else {
            proto_string_from(src, ch, i + 1)
        }
    }
}

/// The text between the first two double quotes of `t`, when not empty.
pub open spec fn proto_quoted(t: Seq<char>) -> Option<Seq<char>> {
    let s = find_char_from(t, '"', 0);
    if s < t.len() {
        let e = find_char_from(t, '"', s + 1);
        if e < t.len() && e > s + 1 {
            Some(t.subrange(s + 1, e))
        } else {
            None
        }
    } else {
        None
    }
}

/// The imported path: a string child, else the first quoted text.
pub open spec fn proto_import_path(src: Seq<char>, n: SyntaxNode) -> Option<Seq<char>> {
    match proto_string_from(src, n.children@, 0) {
        Some(p) => Some(p),
        None => proto_quoted(text_of(src, n)),
    }
}

/// An import named by its file name without `.proto`.
pub open spec fn proto_import(src: Seq<char>, n: SyntaxNode) -> Option<ImportView> {
    match proto_import_path(src, n) {
        Some(p) => Some(
            ImportView { source: p, names: seq![trim_end_matches(after_last(p, '/'), ".proto"@)] },
        ),
        None => None,
    }
}

/// A declaration with a name.
pub open spec fn proto_decl(src: Seq<char>, n: SyntaxNode, kind: SymbolKind) -> ResultView {
    let name = proto_name(src, n);
    if name.len() == 0 {
        ResultView::empty()
    } else {
        plain_decl_item(src, n, name, kind, Visibility::Public)
    }
}

pub open spec fn proto_rpc(src: Seq<char>, c: SyntaxNode) -> ResultView {
    if c.kind@ == "rpc"@ {
        proto_decl(src, c, SymbolKind::Method)
    } else {
        ResultView::empty()
    }
}

/// What one top-level node contributes; a service's RPCs come before it.
pub open spec fn proto_item(src: Seq<char>, n: SyntaxNode) -> ResultView {
    let k = n.kind@;
    if k == "message"@ {
        proto_decl(src, n, SymbolKind::Message)
    } else if k == "service"@ {
        if proto_name(src, n).len() == 0 {
            ResultView::empty()
        } else {
            fold_items(n.children@, |c: SyntaxNode| proto_rpc(src, c)).add(
                proto_decl(src, n, SymbolKind::Service),
            )
        }
    } else if k == "enum"@ {
        proto_decl(src, n, SymbolKind::Enum)
    } else if k == "import"@ {
        import_item(proto_import(src, n))
    } else {
        ResultView::empty()
    }
}

impl ProtoLanguage {


    fn name_of(src: &Vec<char>, n: &SyntaxNode) -> (r: Vec<char>)
        ensures
            r@ == proto_name(src@, *n),
    {
        let fields: [&str; 5] = ["name", "message_name", "service_name", "enum_name", "rpc_name"];
        assert(forall|j: int| 0 <= j < 5 ==> fields@[j]@ == #[trigger] proto_name_fields()[j]);
        let mut i: usize = 0;
        while i < 5
            invariant
                i <= 5,
                forall|j: int| 0 <= j < 5 ==> fields@[j]@ == #[trigger] proto_name_fields()[j],
                proto_name(src@, *n) == proto_name_from(src@, *n, i as int),
            decreases 5 - i,
        {
            match child_by_field(n, fields[i]) {
                Some(k) => {
                    return node_text(src, &n.children[k]);
                },
                None => {},
            }
            i += 1;
        }
        child_text_exec(
            src,
            n,
            &ks5("message_name", "service_name", "enum_name", "rpc_name", "identifier"),
        )
    }

    fn import_path(src: &Vec<char>, n: &SyntaxNode) -> (r: Option<Vec<char>>)
        ensures
            r matches Some(p) ==> proto_import_path(src@, *n) == Some(p@),
            r is None ==> proto_import_path(src@, *n) is None,
    {
        let dq = ['"'];
        let sq = ['\''];
        assert(dq@ == seq!['"']);
        assert(sq@ == seq!['\'']);
        let mut i: usize = 0;
        while i < n.children.len()
            invariant
                dq@ == seq!['"'],
                sq@ == seq!['\''],
                proto_string_from(src@, n.children@, 0) == proto_string_from(
                    src@,
                    n.children@,
                    i as int,
                ),
            decreases n.children@.len() - i,
        {
            let c = &n.children[i];
            let p = trim_set_exec(&trim_set_exec(&node_text(src, c), &dq), &sq);
            if (kind_is(c, "string") || kind_is(c, "string_literal")) && p.len() > 0 {
                return Some(p);
            }
            i += 1;
        }
        let t = node_text(src, n);
        let s = find_char_from_exec(&t, '"', 0);
        if s < t.len() {
            let e = find_char_from_exec(&t, '"', s + 1);
            if e < t.len() && e > s + 1 {
                return Some(substr(&t, s + 1, e));
            }
        }
        None
    }

    fn decl(src: &Vec<char>, n: &SyntaxNode, kind: SymbolKind) -> (r: ParseResult)
        ensures
            r@ == proto_decl(src@, *n, kind),
    {
        let name = Self::name_of(src, n);
        if name.len() == 0 {
            ParseResult::empty()
        } else {
            plain_decl_exec(src, n, &name, kind, Visibility::Public)
        }
    }

    fn rpc_item(src: &Vec<char>, c: &SyntaxNode) -> (r: ParseResult)
        ensures
            r@ == proto_rpc(src@, *c),
    {
        if kind_is(c, "rpc") {
            Self::decl(src, c, SymbolKind::Method)
        } else {
            ParseResult::empty()
        }
    }

    fn item(src: &Vec<char>, n: &SyntaxNode) -> (r: ParseResult)
        ensures
            r@ == proto_item(src@, *n),
    {
        if kind_is(n, "message") {
            Self::decl(src, n, SymbolKind::Message)
        } else if kind_is(n, "service") {
            let name = Self::name_of(src, n);
            if name.len() == 0 {
                ParseResult::empty()
            } else {
                let mut out = fold_nodes(
                    src,
                    &n.children,
                    Self::rpc_item,
                    Ghost(|c: SyntaxNode| proto_rpc(src@, c)),
                );
                let own = plain_decl_exec(src, n, &name, SymbolKind::Service, Visibility::Public);
                out.absorb(own);
                out
            }
        } else if kind_is(n, "enum") {
            Self::decl(src, n, SymbolKind::Enum)
        } else if kind_is(n, "import") {
            let imp = match Self::import_path(src, n) {
                Some(p) => {
                    let file = after_last_exec(&p, '/');
                    let short = trim_end_matches_exec(&file, ".proto");
                    Some(make_import(&p, one_name(&short)))
                },
                None => None,
            };
            import_exec(imp)
        } else {
            ParseResult::empty()
        }
    }
}

impl LanguageSupport for ProtoLanguage {
    open spec fn spec_name(&self) -> Seq<char> {
        "proto"@
    }

    open spec fn spec_extract(&self, source: Seq<char>, root: SyntaxNode) -> ResultView {
        fold_items(root.children@, |n: SyntaxNode| proto_item(source, n))
    }

    fn ts_language(&self) -> tree_sitter::Language {
        grammar()
    }

    fn name(&self) -> (r: &str) {
        "proto"
    }

    fn extract(&self, source: &str, tree: &SyntaxTree) -> (r: ParseResult) {
        let src = str_chars(source);
        fold_nodes(&src, &tree.root.children, Self::item, Ghost(|n: SyntaxNode| proto_item(src@, n)))
    }
}

} // verus!

verus! {

/// Every export of what Protocol Buffers extraction finds names a public symbol of
/// the same kind: nothing is exported that is not declared public.
pub proof fn law_exports_are_public(source: Seq<char>, root: SyntaxNode)
    ensures
        exports_public(ProtoLanguage.spec_extract(source, root)),
{
    broadcast use group_exports_public;

    assert forall|n: SyntaxNode| exports_public(#[trigger] proto_item(source, n)) by {
        lemma_fold_exports_public(n.children@, |c: SyntaxNode| proto_rpc(source, c));
    }
    lemma_fold_exports_public(root.children@, |n: SyntaxNode| proto_item(source, n));
}

} // verus!
