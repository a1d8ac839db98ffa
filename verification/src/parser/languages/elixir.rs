//! Elixir: modules, public and private functions and macros, and
//! `alias`/`import`/`use`/`require` directives, found inside `do` blocks at
//! any depth.
use vstd::prelude::*;
use crate::parser::language::{exports_public, group_exports_public};
use crate::parser::common::{
    import_exec, import_item, named_decl_exec, named_decl_item, opt_import,
};
use crate::parser::language::{
    make_import, one_name, ImportView, Import, LanguageSupport, ParseResult, ResultView,
    SymbolKind, Visibility,
};
use crate::syntax::{
    child_text, child_text_exec, find_child, first_child_in, kind_is, ks1, ks2, ks3, node_text,
    text_of, SyntaxNode, SyntaxTree,
};
use crate::text::{
    after_last, after_last_exec, is_lit, str_chars, to_string, trim_start_matches, trim_start_matches_exec,
};

verus! {

pub struct ElixirLanguage;

/// The grammar of `tree_sitter_elixir` (`LANGUAGE`).
#[verifier::external_body]
fn grammar() -> tree_sitter::Language {
    tree_sitter_elixir::LANGUAGE.into()
}

/// The target of a call: its first `identifier` child.
pub open spec fn ex_target(src: Seq<char>, n: SyntaxNode) -> Seq<char> {
    child_text(src, n, seq!["identifier"@])
}

/// The index of the `arguments` child of a call.
pub open spec fn ex_args(n: SyntaxNode) -> Option<int> {
    first_child_in(n.children@, seq!["arguments"@], 0)
}

/// The defined name, scanning the arguments from `i`: a call gives its
/// target, an identifier its text, and a guard (`binary_operator`) its first
/// call or identifier.
pub open spec fn ex_def_name_from(src: Seq<char>, ch: Seq<SyntaxNode>, i: int) -> Seq<char>
    decreases ch.len() - i,
{
    if i < 0 || i >= ch.len() {
        Seq::empty()
    } else {
        let c = ch[i];
        if c.kind@ == "call"@ {
            ex_target(src, c)
        } else if c.kind@ == "identifier"@ {
            text_of(src, c)
        } else if c.kind@ == "binary_operator"@ && first_child_in(
            c.children@,
            seq!["call"@, "identifier"@],
            0,
        ) is Some {
            let d = c.children@[first_child_in(c.children@, seq!["call"@, "identifier"@], 0).unwrap()];
            if d.kind@ == "call"@ {
                ex_target(src, d)
            } else {
                text_of(src, d)
            }
        } else {
            ex_def_name_from(src, ch, i + 1)
        }
    }
}

pub open spec fn ex_def_name(src: Seq<char>, n: SyntaxNode) -> Seq<char> {
    match ex_args(n) {
        Some(a) => ex_def_name_from(src, n.children@[a].children@, 0),
        None => Seq::empty(),
    }
}

/// The module name: the first alias, identifier or atom argument (an atom
/// without its leading colons).
pub open spec fn ex_module_name(src: Seq<char>, n: SyntaxNode) -> Seq<char> {
    match ex_args(n) {
        Some(a) => {
            let args = n.children@[a];
            match first_child_in(args.children@, seq!["alias"@, "identifier"@, "atom"@], 0) {
                Some(j) => {
                    let c = args.children@[j];
                    if c.kind@ == "atom"@ {
                        trim_start_matches(text_of(src, c), ":"@)
                    } else {
                        text_of(src, c)
                    }
                },
                None => Seq::empty(),
            }
        },
        None => Seq::empty(),
    }
}

/// The first non-empty alias, atom or identifier argument from `i`, with
/// its last dotted piece as the imported name.
pub open spec fn ex_import_from(src: Seq<char>, ch: Seq<SyntaxNode>, i: int) -> Option<ImportView>
    decreases ch.len() - i,
{
    if i < 0 || i >= ch.len() {
        None
    } else {
        let c = ch[i];
        let name = text_of(src, c);
        if (c.kind@ == "alias"@ || c.kind@ == "atom"@ || c.kind@ == "identifier"@) && name.len()
            > 0 {
            Some(ImportView { source: name, names: seq![after_last(name, '.')] })
        } else {
            ex_import_from(src, ch, i + 1)
        }
    }
}

pub open spec fn ex_import(src: Seq<char>, n: SyntaxNode) -> Option<ImportView> {
    match ex_args(n) {
        Some(a) => ex_import_from(src, n.children@[a].children@, 0),
        None => None,
    }
}

pub open spec fn is_ex_directive(t: Seq<char>) -> bool {
    t == "alias"@ || t == "import"@ || t == "use"@ || t == "require"@
}

/// What a node contributes, then what the nodes it opens up contribute (in
/// the order a stack pops them: last child first).
pub open spec fn ex_node(src: Seq<char>, n: SyntaxNode) -> ResultView
    decreases n, 2nat,
{
    if n.kind@ == "call"@ {
        let t = ex_target(src, n);
        if t == "defmodule"@ {
            named_decl_item(src, n, ex_module_name(src, n), SymbolKind::Class, Visibility::Public).add(
                ex_dos(src, n.children@, n.children@.len() as nat),
            )
        } else if t == "def"@ || t == "defmacro"@ {
            named_decl_item(src, n, ex_def_name(src, n), SymbolKind::Function, Visibility::Public)
        } else if t == "defp"@ || t == "defmacrop"@ {
            named_decl_item(src, n, ex_def_name(src, n), SymbolKind::Function, Visibility::Private)
        } else if is_ex_directive(t) {
            import_item(ex_import(src, n))
        } else {
            ex_dos(src, n.children@, n.children@.len() as nat)
        }
    } else {
        ex_rev(src, n.children@, n.children@.len() as nat)
    }
}

/// The contents of the `do` blocks among `ch[..k]`, last first.
pub open spec fn ex_dos(src: Seq<char>, ch: Seq<SyntaxNode>, k: nat) -> ResultView
    decreases ch, k,
{
    if k == 0 || k > ch.len() {
        ResultView::empty()
    } else {
        ex_do_block(src, ch[k - 1]).add(ex_dos(src, ch, (k - 1) as nat))
    }
}

pub open spec fn ex_do_block(src: Seq<char>, n: SyntaxNode) -> ResultView
    decreases n, 1nat,
{
    if n.kind@ == "do_block"@ {
        ex_rev(src, n.children@, n.children@.len() as nat)
    } else {
        ResultView::empty()
    }
}

/// The nodes `ch[..k]`, last first.
pub open spec fn ex_rev(src: Seq<char>, ch: Seq<SyntaxNode>, k: nat) -> ResultView
    decreases ch, k,
{
    if k == 0 || k > ch.len() {
        ResultView::empty()
    } else {
        ex_node(src, ch[k - 1]).add(ex_rev(src, ch, (k - 1) as nat))
    }
}

impl ElixirLanguage {
    /// The target of a call: the text of its first identifier child.
    pub fn extract_call_target(n: &SyntaxNode, src: &Vec<char>) -> (r: String)
        ensures
            r@ == ex_target(src@, *n),
    {
        to_string(&Self::target(src, n))
    }

    /// The name that a `def`-like call defines.
    pub fn extract_def_name(n: &SyntaxNode, src: &Vec<char>) -> (r: String)
        ensures
            r@ == ex_def_name(src@, *n),
    {
        to_string(&Self::def_name(src, n))
    }

    /// The name of the module that a `defmodule` call defines.
    pub fn extract_module_name(n: &SyntaxNode, src: &Vec<char>) -> (r: String)
        ensures
            r@ == ex_module_name(src@, *n),
    {
        to_string(&Self::module_name(src, n))
    }

    fn target(src: &Vec<char>, n: &SyntaxNode) -> (r: Vec<char>)
        ensures
            r@ == ex_target(src@, *n),
    {
        child_text_exec(src, n, &ks1("identifier"))
    }

    fn def_name_from(src: &Vec<char>, ch: &Vec<SyntaxNode>, i: usize) -> (r: Vec<char>)
        ensures
            r@ == ex_def_name_from(src@, ch@, i as int),
        decreases ch@.len() - i,
    {
        if i >= ch.len() {
            return Vec::new();
        }
        let c = &ch[i];
        if kind_is(c, "call") {
            Self::target(src, c)
        } else if kind_is(c, "identifier") {
            node_text(src, c)
        } else if kind_is(c, "binary_operator") {
            match find_child(c, &ks2("call", "identifier")) {
                Some(j) => {
                    let d = &c.children[j];
                    if kind_is(d, "call") {
                        Self::target(src, d)
                    } else {
                        node_text(src, d)
                    }
                },
                None => Self::def_name_from(src, ch, i + 1),
            }
        } else {
            Self::def_name_from(src, ch, i + 1)
        }
    }

    fn def_name(src: &Vec<char>, n: &SyntaxNode) -> (r: Vec<char>)
        ensures
            r@ == ex_def_name(src@, *n),
    {
        match find_child(n, &ks1("arguments")) {
            Some(a) => Self::def_name_from(src, &n.children[a].children, 0),
            None => Vec::new(),
        }
    }

    fn module_name(src: &Vec<char>, n: &SyntaxNode) -> (r: Vec<char>)
        ensures
            r@ == ex_module_name(src@, *n),
    {
        match find_child(n, &ks1("arguments")) {
            Some(a) => {
                let args = &n.children[a];
                match find_child(args, &ks3("alias", "identifier", "atom")) {
                    Some(j) => {
                        let c = &args.children[j];
                        let t = node_text(src, c);
                        if kind_is(c, "atom") {
                            trim_start_matches_exec(&t, ":")
                        } else {
                            t
                        }
                    },
                    None => Vec::new(),
                }
            },
            None => Vec::new(),
        }
    }

    fn import_from(src: &Vec<char>, ch: &Vec<SyntaxNode>, i: usize) -> (r: Option<Import>)
        ensures
            opt_import(r) == ex_import_from(src@, ch@, i as int),
        decreases ch@.len() - i,
    {
        if i >= ch.len() {
            return None;
        }
        let c = &ch[i];
        let name = node_text(src, c);
        if (kind_is(c, "alias") || kind_is(c, "atom") || kind_is(c, "identifier")) && name.len()
            > 0 {
            let short = after_last_exec(&name, '.');
            Some(make_import(&name, one_name(&short)))
        } else {
            Self::import_from(src, ch, i + 1)
        }
    }

    fn import_of(src: &Vec<char>, n: &SyntaxNode) -> (r: Option<Import>)
        ensures
            opt_import(r) == ex_import(src@, *n),
    {
        match find_child(n, &ks1("arguments")) {
            Some(a) => Self::import_from(src, &n.children[a].children, 0),
            None => None,
        }
    }

    fn node_items(src: &Vec<char>, n: &SyntaxNode) -> (r: ParseResult)
        ensures
            r@ == ex_node(src@, *n),
        decreases *n, 2nat,
    {
        if !kind_is(n, "call") {
            return Self::rev_items(src, &n.children, n.children.len());
        }
        let t = Self::target(src, n);
        if is_lit(&t, "defmodule") {
            let name = Self::module_name(src, n);
            let mut out = named_decl_exec(src, n, &name, SymbolKind::Class, Visibility::Public);
            let inner = Self::dos_items(src, &n.children, n.children.len());
            out.absorb(inner);
            out
        } else if is_lit(&t, "def") || is_lit(&t, "defmacro") {
            let name = Self::def_name(src, n);
            named_decl_exec(src, n, &name, SymbolKind::Function, Visibility::Public)
        } else if is_lit(&t, "defp") || is_lit(&t, "defmacrop") {
            let name = Self::def_name(src, n);
            named_decl_exec(src, n, &name, SymbolKind::Function, Visibility::Private)
        } else if is_lit(&t, "alias") || is_lit(&t, "import") || is_lit(&t, "use") || is_lit(
            &t,
            "require",
        ) {
            import_exec(Self::import_of(src, n))
        } else {
            Self::dos_items(src, &n.children, n.children.len())
        }
    }

    fn dos_items(src: &Vec<char>, ch: &Vec<SyntaxNode>, k: usize) -> (r: ParseResult)
        requires
            k <= ch@.len(),
        ensures
            r@ == ex_dos(src@, ch@, k as nat),
        decreases ch@, k,
    {
        if k == 0 {
            return ParseResult::empty();
        }
        let mut out = Self::do_block_items(src, &ch[k - 1]);
        let rest = Self::dos_items(src, ch, k - 1);
        out.absorb(rest);
        out
    }

    fn do_block_items(src: &Vec<char>, n: &SyntaxNode) -> (r: ParseResult)
        ensures
            r@ == ex_do_block(src@, *n),
        decreases *n, 1nat,
    {
        if kind_is(n, "do_block") {
            Self::rev_items(src, &n.children, n.children.len())
        } else {
            ParseResult::empty()
        }
    }

    fn rev_items(src: &Vec<char>, ch: &Vec<SyntaxNode>, k: usize) -> (r: ParseResult)
        requires
            k <= ch@.len(),
        ensures
            r@ == ex_rev(src@, ch@, k as nat),
        decreases ch@, k,
    {
        if k == 0 {
            return ParseResult::empty();
        }
        let mut out = Self::node_items(src, &ch[k - 1]);
        let rest = Self::rev_items(src, ch, k - 1);
        out.absorb(rest);
        out
    }
}

impl LanguageSupport for ElixirLanguage {
    open spec fn spec_name(&self) -> Seq<char> {
        "elixir"@
    }

    open spec fn spec_extract(&self, source: Seq<char>, root: SyntaxNode) -> ResultView {
        ex_rev(source, root.children@, root.children@.len() as nat)
    }

    fn ts_language(&self) -> tree_sitter::Language {
        grammar()
    }

    fn name(&self) -> (r: &str) {
        "elixir"
    }

    fn extract(&self, source: &str, tree: &SyntaxTree) -> (r: ParseResult) {
        let src = str_chars(source);
        Self::rev_items(&src, &tree.root.children, tree.root.children.len())
    }
}

} // verus!

verus! {

proof fn lemma_ex_node_exports(src: Seq<char>, n: SyntaxNode)
    ensures
        exports_public(ex_node(src, n)),
    decreases n, 2nat,
{
    broadcast use group_exports_public;

    lemma_ex_dos_exports(src, n.children@, n.children@.len() as nat);
    lemma_ex_rev_exports(src, n.children@, n.children@.len() as nat);
}

proof fn lemma_ex_dos_exports(src: Seq<char>, ch: Seq<SyntaxNode>, k: nat)
    ensures
        exports_public(ex_dos(src, ch, k)),
    decreases ch, k,
{
    broadcast use group_exports_public;

    if k > 0 && k <= ch.len() {
        lemma_ex_do_block_exports(src, ch[k - 1]);
        lemma_ex_dos_exports(src, ch, (k - 1) as nat);
    }
}

proof fn lemma_ex_do_block_exports(src: Seq<char>, c: SyntaxNode)
    ensures
        exports_public(ex_do_block(src, c)),
    decreases c, 1nat,
{
    broadcast use group_exports_public;

    lemma_ex_rev_exports(src, c.children@, c.children@.len() as nat);
}

proof fn lemma_ex_rev_exports(src: Seq<char>, ch: Seq<SyntaxNode>, k: nat)
    ensures
        exports_public(ex_rev(src, ch, k)),
    decreases ch, k,
{
    broadcast use group_exports_public;

    if k > 0 && k <= ch.len() {
        lemma_ex_node_exports(src, ch[k - 1]);
        lemma_ex_rev_exports(src, ch, (k - 1) as nat);
    }
}

/// Every export of what Elixir extraction finds names a public symbol of
/// the same kind: nothing is exported that is not declared public.
pub proof fn law_exports_are_public(source: Seq<char>, root: SyntaxNode)
    ensures
        exports_public(ElixirLanguage.spec_extract(source, root)),
{
    broadcast use group_exports_public;

    lemma_ex_rev_exports(source, root.children@, root.children@.len() as nat);
}

} // verus!
