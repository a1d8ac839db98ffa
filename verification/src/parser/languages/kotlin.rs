//! Kotlin: functions, classes (with the declarations in their bodies),
//! objects and imports. Declarations are public unless a modifier says
//! `private`, `protected` or `internal`.
use vstd::prelude::*;
use crate::parser::language::LanguageSupport;
use crate::parser::language::{exports_public, group_exports_public};
use crate::parser::common::{
    callable_exec, callable_item, decl_exec, decl_item, import_exec, import_item, opt_import,
    sig_or_first_line, sig_or_first_line_exec,
};
use crate::parser::language::{Import, ParseResult, ResultView, SymbolKind, Visibility};
use crate::parser::languages::java::{java_import_of, JavaLanguage};
use crate::syntax::{
    child_by_field, child_text, child_text_exec, field_child, kind_is, ks2, node_text, text_of,
    SyntaxNode, SyntaxTree,
};
use crate::text::{
    contains, contains_exec, str_chars, trim, trim_end_matches, trim_end_matches_exec, trim_exec,
    trim_start_matches, trim_start_matches_exec,
};

verus! {

pub struct KotlinLanguage;

/// The grammar of `tree_sitter_kotlin_ng` (`LANGUAGE`, converted to a `Language`).
#[verifier::external_body]
fn grammar() -> tree_sitter::Language {
    tree_sitter_kotlin_ng::LANGUAGE.into()
}

/// The `name` field's text, else the first identifier child's, else empty.
pub open spec fn kt_name(src: Seq<char>, n: SyntaxNode) -> Seq<char> {
    match field_child(n, "name"@) {
        Some(k) => text_of(src, n.children@[k]),
        None => child_text(src, n, seq!["identifier"@, "simple_identifier"@]),
    }
}

/// Whether child `c` is a modifier list that narrows visibility.
pub open spec fn kt_private_child(src: Seq<char>, c: SyntaxNode) -> bool {
    let t = text_of(src, c);
    c.kind@ == "modifiers"@ && (contains(t, "private"@) || contains(t, "protected"@) || contains(
        t,
        "internal"@,
    ))
}

pub open spec fn kt_private_from(src: Seq<char>, ch: Seq<SyntaxNode>, i: int) -> bool
    decreases ch.len() - i,
{
    if i < 0 || i >= ch.len() {
        false
    } else {
        kt_private_child(src, ch[i]) || kt_private_from(src, ch, i + 1)
    }
}

pub open spec fn kt_vis(src: Seq<char>, n: SyntaxNode) -> Visibility {
    if kt_private_from(src, n.children@, 0) {
        Visibility::Private
    } else {
        Visibility::Public
    }
}

pub open spec fn kt_body_kinds() -> Seq<Seq<char>> {
    seq!["function_body"@, "block"@]
}

/// The import path: the text without `import` and a trailing `;`.
pub open spec fn kt_import_path(t: Seq<char>) -> Seq<char> {
    trim(trim_end_matches(trim(trim_start_matches(t, "import"@)), ";"@))
}

/// What a node contributes; a class also contributes the declarations in its
/// bodies (last first).
pub open spec fn kt_node(src: Seq<char>, n: SyntaxNode) -> ResultView
    decreases n, 2nat,
{
    let k = n.kind@;
    if k == "import"@ {
        import_item(java_import_of(kt_import_path(text_of(src, n))))
    } else if k == "function_declaration"@ {
        callable_item(
            n,
            kt_name(src, n),
            SymbolKind::Function,
            kt_vis(src, n),
            sig_or_first_line(src, n, kt_body_kinds()),
            child_text(src, n, kt_body_kinds()),
        )
    } else if k == "class_declaration"@ {
        decl_item(src, n, kt_name(src, n), SymbolKind::Class, kt_vis(src, n)).add(
            kt_bodies(src, n.children@, n.children@.len() as nat),
        )
    } else if k == "object_declaration"@ {
        decl_item(src, n, kt_name(src, n), SymbolKind::Class, kt_vis(src, n))
    } else {
        ResultView::empty()
    }
}

/// The contents of the class bodies among `ch[..k]`, last first.
pub open spec fn kt_bodies(src: Seq<char>, ch: Seq<SyntaxNode>, k: nat) -> ResultView
    decreases ch, k,
{
    if k == 0 || k > ch.len() {
        ResultView::empty()
    } else {
        kt_body(src, ch[k - 1]).add(kt_bodies(src, ch, (k - 1) as nat))
    }
}

pub open spec fn kt_body(src: Seq<char>, c: SyntaxNode) -> ResultView
    decreases c, 1nat,
{
    if c.kind@ == "class_body"@ || c.kind@ == "enum_class_body"@ {
        kt_rev(src, c.children@, c.children@.len() as nat)
    } else {
        ResultView::empty()
    }
}

pub open spec fn kt_rev(src: Seq<char>, ch: Seq<SyntaxNode>, k: nat) -> ResultView
    decreases ch, k,
{
    if k == 0 || k > ch.len() {
        ResultView::empty()
    } else {
        kt_node(src, ch[k - 1]).add(kt_rev(src, ch, (k - 1) as nat))
    }
}

impl KotlinLanguage {
    fn name_of(src: &Vec<char>, n: &SyntaxNode) -> (r: Vec<char>)
        ensures
            r@ == kt_name(src@, *n),
    {
        match child_by_field(n, "name") {
            Some(k) => node_text(src, &n.children[k]),
            None => child_text_exec(src, n, &ks2("identifier", "simple_identifier")),
        }
    }

    fn visibility_of(src: &Vec<char>, n: &SyntaxNode) -> (r: Visibility)
        ensures
            r == kt_vis(src@, *n),
    {
        let mut i: usize = 0;
        while i < n.children.len()
            invariant
                kt_private_from(src@, n.children@, 0) == kt_private_from(src@, n.children@, i as int),
            decreases n.children@.len() - i,
        {
            let c = &n.children[i];
            if kind_is(c, "modifiers") {
                let t = node_text(src, c);
                if contains_exec(&t, "private") || contains_exec(&t, "protected") || contains_exec(
                    &t,
                    "internal",
                ) {
                    return Visibility::Private;
                }
            }
            i += 1;
        }
        Visibility::Public
    }

    fn import_of(src: &Vec<char>, n: &SyntaxNode) -> (r: Option<Import>)
        ensures
            opt_import(r) == java_import_of(kt_import_path(text_of(src@, *n))),
    {
        let t = node_text(src, n);
        let a = trim_exec(&trim_start_matches_exec(&t, "import"));
        let path = trim_exec(&trim_end_matches_exec(&a, ";"));
        JavaLanguage::import_of(&path)
    }

    fn node_items(src: &Vec<char>, n: &SyntaxNode) -> (r: ParseResult)
        ensures
            r@ == kt_node(src@, *n),
        decreases *n, 2nat,
    {
        if kind_is(n, "import") {
            import_exec(Self::import_of(src, n))
        } else if kind_is(n, "function_declaration") {
            let name = Self::name_of(src, n);
            let vis = Self::visibility_of(src, n);
            let sig = sig_or_first_line_exec(src, n, &ks2("function_body", "block"));
            let body = child_text_exec(src, n, &ks2("function_body", "block"));
            callable_exec(n, &name, SymbolKind::Function, vis, &sig, &body)
        } else if kind_is(n, "class_declaration") {
            let name = Self::name_of(src, n);
            let vis = Self::visibility_of(src, n);
            let mut out = decl_exec(src, n, &name, SymbolKind::Class, vis);
            let inner = Self::bodies(src, &n.children, n.children.len());
            out.absorb(inner);
            out
        } else if kind_is(n, "object_declaration") {
            let name = Self::name_of(src, n);
            let vis = Self::visibility_of(src, n);
            decl_exec(src, n, &name, SymbolKind::Class, vis)
        } else {
            ParseResult::empty()
        }
    }

    fn bodies(src: &Vec<char>, ch: &Vec<SyntaxNode>, k: usize) -> (r: ParseResult)
        requires
            k <= ch@.len(),
        ensures
            r@ == kt_bodies(src@, ch@, k as nat),
        decreases ch@, k,
    {
        if k == 0 {
            return ParseResult::empty();
        }
        let mut out = Self::body(src, &ch[k - 1]);
        let rest = Self::bodies(src, ch, k - 1);
        out.absorb(rest);
        out
    }

    fn body(src: &Vec<char>, c: &SyntaxNode) -> (r: ParseResult)
        ensures
            r@ == kt_body(src@, *c),
        decreases *c, 1nat,
    {
        if kind_is(c, "class_body") || kind_is(c, "enum_class_body") {
            Self::rev_items(src, &c.children, c.children.len())
        } else {
            ParseResult::empty()
        }
    }

    fn rev_items(src: &Vec<char>, ch: &Vec<SyntaxNode>, k: usize) -> (r: ParseResult)
        requires
            k <= ch@.len(),
        ensures
            r@ == kt_rev(src@, ch@, k as nat),
        decreases ch@, k,
    {
        if k == 0 {
            return ParseResult::empty();
        }
        let mut out = Self::node_items(src, &ch[k - 1]);
        let rest = Self::rev_items(src, ch, k - 1);
        out.absorb(rest);
        out
    }
}

/// What extraction finds in a source text with the given tree.
pub open spec fn kt_extract(source: Seq<char>, root: SyntaxNode) -> ResultView {
    kt_rev(source, root.children@, root.children@.len() as nat)
}

impl LanguageSupport for KotlinLanguage {
    open spec fn spec_name(&self) -> Seq<char> {
        "kotlin"@
    }

    open spec fn spec_extract(&self, source: Seq<char>, root: SyntaxNode) -> ResultView {
        kt_extract(source, root)
    }

    fn ts_language(&self) -> tree_sitter::Language {
        grammar()
    }

    fn name(&self) -> (r: &str) {
        "kotlin"
    }

    fn extract(&self, source: &str, tree: &SyntaxTree) -> (r: ParseResult) {
        let src = str_chars(source);
        Self::rev_items(&src, &tree.root.children, tree.root.children.len())
    }
}

} // verus!

verus! {

proof fn lemma_kt_node_exports(src: Seq<char>, n: SyntaxNode)
    ensures
        exports_public(kt_node(src, n)),
    decreases n, 2nat,
{
    broadcast use group_exports_public;

    lemma_kt_bodies_exports(src, n.children@, n.children@.len() as nat);
    lemma_kt_rev_exports(src, n.children@, n.children@.len() as nat);
}

proof fn lemma_kt_bodies_exports(src: Seq<char>, ch: Seq<SyntaxNode>, k: nat)
    ensures
        exports_public(kt_bodies(src, ch, k)),
    decreases ch, k,
{
    broadcast use group_exports_public;

    if k > 0 && k <= ch.len() {
        lemma_kt_body_exports(src, ch[k - 1]);
        lemma_kt_bodies_exports(src, ch, (k - 1) as nat);
    }
}

proof fn lemma_kt_body_exports(src: Seq<char>, c: SyntaxNode)
    ensures
        exports_public(kt_body(src, c)),
    decreases c, 1nat,
{
    broadcast use group_exports_public;

    lemma_kt_rev_exports(src, c.children@, c.children@.len() as nat);
}

proof fn lemma_kt_rev_exports(src: Seq<char>, ch: Seq<SyntaxNode>, k: nat)
    ensures
        exports_public(kt_rev(src, ch, k)),
    decreases ch, k,
{
    broadcast use group_exports_public;

    if k > 0 && k <= ch.len() {
        lemma_kt_node_exports(src, ch[k - 1]);
        lemma_kt_rev_exports(src, ch, (k - 1) as nat);
    }
}

/// Every export of what Kotlin extraction finds names a public symbol of
/// the same kind: nothing is exported that is not declared public.
pub proof fn law_exports_are_public(source: Seq<char>, root: SyntaxNode)
    ensures
        exports_public(kt_extract(source, root)),
{
    broadcast use group_exports_public;

    lemma_kt_rev_exports(source, root.children@, root.children@.len() as nat);
}

} // verus!
