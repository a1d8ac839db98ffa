//! Swift: functions, classes (and structs, enums, actors, extensions, with
//! their nested declarations), protocols and imports; `public` and `open`
//! declarations are exported.
use vstd::prelude::*;
use crate::parser::language::{exports_public, group_exports_public};
use crate::parser::common::{
    callable_exec, callable_item, decl_exec, decl_item, import_exec, import_item, opt_import,
};
use crate::parser::language::{
    make_import, one_name, ImportView, Import, LanguageSupport, ParseResult, ResultView,
    SymbolKind, Visibility,
};
use crate::syntax::{child_by_field, child_text, child_text_exec, field_child, find_child, first_child_in, first_line_of, kind_is, lemma_field_child_from, ks2, node_first_line, node_text, node_text_before, text_before, text_of, SyntaxNode, SyntaxTree};
use crate::text::{after_last, after_last_exec, contains, contains_exec, is_whitespace, is_ws, is_lit, str_chars, strip_prefix, strip_prefix_exec, trim, trim_exec, trim_start_matches, trim_start_matches_exec};

verus! {

pub struct SwiftLanguage;

/// The grammar of `tree_sitter_swift` (`LANGUAGE`).
#[verifier::external_body]
fn grammar() -> tree_sitter::Language {
    tree_sitter_swift::LANGUAGE.into()
}

/// The `name` field's text, else the first identifier child's, else empty.
pub open spec fn sw_name(src: Seq<char>, n: SyntaxNode) -> Seq<char> {
    match field_child(n, "name"@) {
        Some(k) => text_of(src, n.children@[k]),
        None => child_text(src, n, seq!["simple_identifier"@, "identifier"@]),
    }
}

/// Whether child `c` makes a declaration public: a modifier whose text
/// mentions `public` or `open`, or a bare `public`/`open` keyword.
pub open spec fn sw_public_child(src: Seq<char>, c: SyntaxNode) -> bool {
    let k = c.kind@;
    let t = text_of(src, c);
    ((k == "modifiers"@ || k == "visibility_modifier"@ || k == "modifier"@) && (contains(
        t,
        "public"@,
    ) || contains(t, "open"@))) || k == "public"@ || k == "open"@
}

pub open spec fn sw_public_from(src: Seq<char>, ch: Seq<SyntaxNode>, i: int) -> bool
    decreases ch.len() - i,
{
    if i < 0 || i >= ch.len() {
        false
    } else {
        sw_public_child(src, ch[i]) || sw_public_from(src, ch, i + 1)
    }
}

/// Public when some child says so; Swift's default (`internal`) is private.
pub open spec fn sw_vis(src: Seq<char>, n: SyntaxNode) -> Visibility {
    if sw_public_from(src, n.children@, 0) {
        Visibility::Public
    } else {
        Visibility::Private
    }
}

/// The body: the `body` field, else the first code block or function body.
pub open spec fn sw_body_child(n: SyntaxNode) -> Option<int> {
    match field_child(n, "body"@) {
        Some(k) => Some(k),
        None => first_child_in(n.children@, seq!["code_block"@, "function_body"@], 0),
    }
}

pub open spec fn sw_fn_body(src: Seq<char>, n: SyntaxNode) -> Seq<char> {
    match sw_body_child(n) {
        Some(k) => text_of(src, n.children@[k]),
        None => Seq::empty(),
    }
}

/// The text before the body, trimmed; the first line without a body.
pub open spec fn sw_fn_sig(src: Seq<char>, n: SyntaxNode) -> Seq<char> {
    match sw_body_child(n) {
        Some(k) => match text_before(src, n, n.children@[k]) {
            Some(t) => trim(t),
            None => Seq::empty(),
        },
        None => first_line_of(src, n),
    }
}

/// `struct` and `enum` declarations by their keyword; everything else is a
/// class.
pub open spec fn sw_class_kind(src: Seq<char>, n: SyntaxNode) -> SymbolKind {
    match field_child(n, "declaration_kind"@) {
        Some(k) => {
            let t = text_of(src, n.children@[k]);
            if t == "struct"@ {
                SymbolKind::Struct
            } else if t == "enum"@ {
                SymbolKind::Enum
            } else {
                SymbolKind::Class
            }
        },
        None => SymbolKind::Class,
    }
}

pub open spec fn sw_import_kinds() -> Seq<Seq<char>> {
    seq![
        "class"@,
        "struct"@,
        "enum"@,
        "func"@,
        "var"@,
        "let"@,
        "typealias"@,
        "protocol"@,
        "actor"@,
    ]
}

/// `s` without the first import kind (from `i` on in the list) that it
/// starts with followed by whitespace, trimmed; `s` itself without one.
pub open spec fn sw_drop_kind(s: Seq<char>, i: int) -> Seq<char>
    decreases sw_import_kinds().len() - i,
{
    if i < 0 || i >= sw_import_kinds().len() {
        s
    } else {
        match strip_prefix(s, sw_import_kinds()[i]) {
            Some(rest) => if rest.len() > 0 && is_ws(rest[0]) {
                trim(rest)
            } else {
                sw_drop_kind(s, i + 1)
            },
            None => sw_drop_kind(s, i + 1),
        }
    }
}

/// The imported module path, named by its last dotted piece.
pub open spec fn sw_import(text: Seq<char>) -> Option<ImportView> {
    let m = sw_drop_kind(trim(trim_start_matches(text, "import"@)), 0);
    if m.len() == 0 {
        None
    } else {
        Some(ImportView { source: m, names: seq![after_last(m, '.')] })
    }
}

/// What a node contributes; a class also contributes its body's
/// declarations, last first.
pub open spec fn sw_node(src: Seq<char>, n: SyntaxNode) -> ResultView
    decreases n, 1nat,
{
    let k = n.kind@;
    if k == "import_declaration"@ {
        import_item(sw_import(text_of(src, n)))
    } else if k == "function_declaration"@ {
        callable_item(
            n,
            sw_name(src, n),
            SymbolKind::Function,
            sw_vis(src, n),
            sw_fn_sig(src, n),
            sw_fn_body(src, n),
        )
    } else if k == "class_declaration"@ {
        decl_item(src, n, sw_name(src, n), sw_class_kind(src, n), sw_vis(src, n)).add(
            match field_child(n, "body"@) {
                Some(b) => {
                    proof {
                        lemma_field_child_from(n.children@, "body"@, 0);
                    }
                    sw_members(src, n.children@[b])
                },
                None => ResultView::empty(),
            },
        )
    } else if k == "protocol_declaration"@ {
        decl_item(src, n, sw_name(src, n), SymbolKind::Trait, sw_vis(src, n))
    } else {
        ResultView::empty()
    }
}

pub open spec fn sw_members(src: Seq<char>, b: SyntaxNode) -> ResultView
    decreases b, 0nat,
{
    sw_rev(src, b.children@, b.children@.len() as nat)
}

pub open spec fn sw_rev(src: Seq<char>, ch: Seq<SyntaxNode>, k: nat) -> ResultView
    decreases ch, k,
{
    if k == 0 || k > ch.len() {
        ResultView::empty()
    } else {
        sw_node(src, ch[k - 1]).add(sw_rev(src, ch, (k - 1) as nat))
    }
}

impl SwiftLanguage {

    /// The declaration's visibility.
    fn extract_visibility(n: &SyntaxNode, src: &Vec<char>) -> (r: Visibility)
        ensures
            r == sw_vis(src@, *n),
    {
        let mut i: usize = 0;
        while i < n.children.len()
            invariant
                sw_public_from(src@, n.children@, 0) == sw_public_from(src@, n.children@, i as int),
            decreases n.children@.len() - i,
        {
            let c = &n.children[i];
            let t = node_text(src, c);
            if ((kind_is(c, "modifiers") || kind_is(c, "visibility_modifier") || kind_is(
                c,
                "modifier",
            )) && (contains_exec(&t, "public") || contains_exec(&t, "open"))) || kind_is(
                c,
                "public",
            ) || kind_is(c, "open") {
                return Visibility::Public;
            }
            i += 1;
        }
        Visibility::Private
    }



    /// The kind of a `class_declaration`.
    fn class_declaration_kind(n: &SyntaxNode, src: &Vec<char>) -> (r: SymbolKind)
        ensures
            r == sw_class_kind(src@, *n),
    {
        match child_by_field(n, "declaration_kind") {
            Some(k) => {
                let t = node_text(src, &n.children[k]);
                if is_lit(&t, "struct") {
                    SymbolKind::Struct
                } else if is_lit(&t, "enum") {
                    SymbolKind::Enum
                } else {
                    SymbolKind::Class
                }
            },
            None => SymbolKind::Class,
        }
    }

    /// The import of an `import_declaration`, if it names a module.
    fn extract_import(n: &SyntaxNode, src: &Vec<char>) -> (r: Option<Import>)
        ensures
            opt_import(r) == sw_import(text_of(src@, *n)),
    {
        let t = node_text(src, n);
        let s = trim_exec(&trim_start_matches_exec(&t, "import"));
        let m = Self::drop_kind(&s);
        if m.len() == 0 {
            None
        } else {
            let name = after_last_exec(&m, '.');
            Some(make_import(&m, one_name(&name)))
        }
    }


    fn name_of(src: &Vec<char>, n: &SyntaxNode) -> (r: Vec<char>)
        ensures
            r@ == sw_name(src@, *n),
    {
        match child_by_field(n, "name") {
            Some(k) => node_text(src, &n.children[k]),
            None => child_text_exec(src, n, &ks2("simple_identifier", "identifier")),
        }
    }

    fn body_child(n: &SyntaxNode) -> (r: Option<usize>)
        ensures
            r matches Some(k) ==> sw_body_child(*n) == Some(k as int) && k < n.children@.len(),
            r is None ==> sw_body_child(*n) is None,
    {
        match child_by_field(n, "body") {
            Some(k) => Some(k),
            None => find_child(n, &ks2("code_block", "function_body")),
        }
    }

    fn fn_body(src: &Vec<char>, n: &SyntaxNode) -> (r: Vec<char>)
        ensures
            r@ == sw_fn_body(src@, *n),
    {
        match Self::body_child(n) {
            Some(k) => node_text(src, &n.children[k]),
            None => Vec::new(),
        }
    }

    fn fn_sig(src: &Vec<char>, n: &SyntaxNode) -> (r: Vec<char>)
        ensures
            r@ == sw_fn_sig(src@, *n),
    {
        match Self::body_child(n) {
            Some(k) => match node_text_before(src, n, &n.children[k]) {
                Some(t) => trim_exec(&t),
                None => Vec::new(),
            },
            None => node_first_line(src, n),
        }
    }

    fn drop_kind(s: &Vec<char>) -> (r: Vec<char>)
        ensures
            r@ == sw_drop_kind(s@, 0),
    {
        let kinds: [&str; 9] = [
            "class",
            "struct",
            "enum",
            "func",
            "var",
            "let",
            "typealias",
            "protocol",
            "actor",
        ];
        proof {
            reveal_strlit("class");
            reveal_strlit("struct");
            reveal_strlit("enum");
            reveal_strlit("func");
            reveal_strlit("var");
            reveal_strlit("let");
            reveal_strlit("typealias");
            reveal_strlit("protocol");
            reveal_strlit("actor");
        }
        assert(forall|j: int| 0 <= j < 9 ==> kinds@[j]@ == #[trigger] sw_import_kinds()[j]);
        let mut i: usize = 0;
        while i < 9
            invariant
                i <= 9,
                forall|j: int| 0 <= j < 9 ==> kinds@[j]@ == #[trigger] sw_import_kinds()[j],
                sw_drop_kind(s@, 0) == sw_drop_kind(s@, i as int),
            decreases 9 - i,
        {
            match strip_prefix_exec(s, kinds[i]) {
                Some(rest) => {
                    if rest.len() > 0 && is_whitespace(rest[0]) {
                        return trim_exec(&rest);
                    }
                },
                None => {},
            }
            i += 1;
        }
        s.clone()
    }

    fn node_items(src: &Vec<char>, n: &SyntaxNode) -> (r: ParseResult)
        ensures
            r@ == sw_node(src@, *n),
        decreases *n, 1nat,
    {
        if kind_is(n, "import_declaration") {
            import_exec(Self::extract_import(n, src))
        } else if kind_is(n, "function_declaration") {
            let name = Self::name_of(src, n);
            let vis = Self::extract_visibility(n, src);
            let sig = Self::fn_sig(src, n);
            let body = Self::fn_body(src, n);
            callable_exec(n, &name, SymbolKind::Function, vis, &sig, &body)
        } else if kind_is(n, "class_declaration") {
            let name = Self::name_of(src, n);
            let vis = Self::extract_visibility(n, src);
            let kind = Self::class_declaration_kind(n, src);
            let mut out = decl_exec(src, n, &name, kind, vis);
            match child_by_field(n, "body") {
                Some(b) => {
                    let inner = Self::members(src, &n.children[b]);
                    out.absorb(inner);
                },
                None => {
                    out.absorb(ParseResult::empty());
                },
            }
            out
        } else if kind_is(n, "protocol_declaration") {
            let name = Self::name_of(src, n);
            let vis = Self::extract_visibility(n, src);
            decl_exec(src, n, &name, SymbolKind::Trait, vis)
        } else {
            ParseResult::empty()
        }
    }

    fn members(src: &Vec<char>, b: &SyntaxNode) -> (r: ParseResult)
        ensures
            r@ == sw_members(src@, *b),
        decreases *b, 0nat,
    {
        Self::rev_items(src, &b.children, b.children.len())
    }

    fn rev_items(src: &Vec<char>, ch: &Vec<SyntaxNode>, k: usize) -> (r: ParseResult)
        requires
            k <= ch@.len(),
        ensures
            r@ == sw_rev(src@, ch@, k as nat),
        decreases ch@, k,
    {
        if k == 0 {
            return ParseResult::empty();
        }
        let mut out = Self::node_items(src, &ch[k - 1]);
        let rest = Self::rev_items(src, ch, k - 1);
        out.absorb(rest);
        out
    }
}

impl LanguageSupport for SwiftLanguage {
    open spec fn spec_name(&self) -> Seq<char> {
        "swift"@
    }

    open spec fn spec_extract(&self, source: Seq<char>, root: SyntaxNode) -> ResultView {
        sw_rev(source, root.children@, root.children@.len() as nat)
    }

    fn ts_language(&self) -> tree_sitter::Language {
        grammar()
    }

    fn name(&self) -> (r: &str) {
        "swift"
    }

    fn extract(&self, source: &str, tree: &SyntaxTree) -> (r: ParseResult) {
        let src = str_chars(source);
        Self::rev_items(&src, &tree.root.children, tree.root.children.len())
    }
}

} // verus!

verus! {

proof fn lemma_sw_node_exports(src: Seq<char>, n: SyntaxNode)
    ensures
        exports_public(sw_node(src, n)),
    decreases n, 1nat,
{
    broadcast use group_exports_public;

    lemma_field_child_from(n.children@, "body"@, 0);
    if let Some(b) = field_child(n, "body"@) {
        lemma_sw_members_exports(src, n.children@[b]);
    }
}

proof fn lemma_sw_members_exports(src: Seq<char>, b: SyntaxNode)
    ensures
        exports_public(sw_members(src, b)),
    decreases b, 0nat,
{
    lemma_sw_rev_exports(src, b.children@, b.children@.len() as nat);
}

proof fn lemma_sw_rev_exports(src: Seq<char>, ch: Seq<SyntaxNode>, k: nat)
    ensures
        exports_public(sw_rev(src, ch, k)),
    decreases ch, k,
{
    broadcast use group_exports_public;

    if k > 0 && k <= ch.len() {
        lemma_sw_node_exports(src, ch[k - 1]);
        lemma_sw_rev_exports(src, ch, (k - 1) as nat);
    }
}

/// Every export of what Swift extraction finds names a public symbol of
/// the same kind: nothing is exported that is not declared public.
pub proof fn law_exports_are_public(source: Seq<char>, root: SyntaxNode)
    ensures
        exports_public(SwiftLanguage.spec_extract(source, root)),
{
    broadcast use group_exports_public;

    lemma_sw_rev_exports(source, root.children@, root.children@.len() as nat);
}

} // verus!
