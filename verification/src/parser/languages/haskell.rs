//! Haskell: functions and bindings, type synonyms, data types, newtypes,
//! classes, and imports (with their lists, aliases or module names).
use vstd::prelude::*;
use crate::parser::language::{exports_public, group_exports_public};
use crate::parser::common::{decl_exec, decl_item, import_exec, import_item, opt_import};
use crate::parser::language::{
    make_import, one_name, ImportView, Import, LanguageSupport, ParseResult, ResultView,
    SymbolKind, Visibility,
};
use crate::syntax::{
    child_text, child_text_exec, first_line_of, kind_is, ks3, node_first_line, node_text,
    text_of, SyntaxNode, SyntaxTree,
};
use crate::text::{
    after_last, after_last_exec, char_is_alphanumeric, contains, contains_exec,
    find_char_from, find_char_from_exec, first_line, first_line_exec, leading_ident,
    leading_ident_exec, split_trim, split_trim_exec, starts_with, starts_with_lit, str_chars,
    strings_view, strip_prefix, strip_prefix_exec, substr, to_string, trim, trim_exec,
    trim_start_matches, trim_start_matches_exec, unicode_alphanumeric,
};

verus! {

pub struct HaskellLanguage;

/// The grammar of `tree_sitter_haskell` (`LANGUAGE`).
#[verifier::external_body]
fn grammar() -> tree_sitter::Language {
    tree_sitter_haskell::LANGUAGE.into()
}

/// A character of a module name: alphanumeric, `.` or `_`.
pub open spec fn is_module_char(c: char) -> bool {
    unicode_alphanumeric(c) || c == '.' || c == '_'
}

/// End of the run of module-name characters starting at `i`.
pub open spec fn module_end(s: Seq<char>, i: int) -> int
    decreases s.len() - i,
{
    if 0 <= i < s.len() && is_module_char(s[i]) {
        module_end(s, i + 1)
    } else {
        i
    }
}

pub proof fn lemma_module_end_bounds(s: Seq<char>, i: int)
    requires
        0 <= i <= s.len(),
    ensures
        i <= module_end(s, i) <= s.len(),
    decreases s.len() - i,
{
    if i < s.len() && is_module_char(s[i]) {
        lemma_module_end_bounds(s, i + 1);
    }
}

/// The text after `import`, trimmed, without a leading `qualified`.
pub open spec fn hs_import_rest(t: Seq<char>) -> Seq<char> {
    let a = trim(t.subrange(6, t.len() as int));
    match strip_prefix(a, "qualified"@) {
        Some(r) => trim(r),
        None => a,
    }
}

/// The names an import brings in: its explicit list, its alias, or the last
/// piece of the module name.
pub open spec fn hs_import_names(module: Seq<char>, rest: Seq<char>) -> Seq<Seq<char>> {
    if starts_with(rest, "("@) {
        let inner = trim_start_matches(rest, "("@);
        split_trim(inner.subrange(0, find_char_from(inner, ')', 0)), ',')
    } else {
        match strip_prefix(rest, "as "@) {
            Some(r) => seq![leading_ident(trim(r))],
            None => seq![after_last(module, '.')],
        }
    }
}

/// The import a declaration's text describes.
pub open spec fn hs_import(text: Seq<char>) -> Option<ImportView> {
    let t = trim(text);
    if !starts_with(t, "import"@) {
        None
    } else {
        let b = hs_import_rest(t);
        let e = module_end(b, 0);
        let module = b.subrange(0, e);
        if module.len() == 0 {
            None
        } else {
            Some(
                ImportView {
                    source: module,
                    names: hs_import_names(module, trim(b.subrange(e, b.len() as int))),
                },
            )
        }
    }
}

/// The first non-empty identifier at the start of a trimmed `name` child,
/// from child `i` on.
pub open spec fn hs_type_name_from(src: Seq<char>, ch: Seq<SyntaxNode>, i: int) -> Seq<char>
    decreases ch.len() - i,
{
    if i < 0 || i >= ch.len() {
        Seq::empty()
    } else {
        let name = leading_ident(trim(text_of(src, ch[i])));
        if ch[i].kind@ == "name"@ && name.len() > 0 {
            name
        } else {
            hs_type_name_from(src, ch, i + 1)
        }
    }
}

pub open spec fn hs_bind_name(src: Seq<char>, n: SyntaxNode) -> Seq<char> {
    child_text(src, n, seq!["variable"@, "name"@, "constructor"@])
}

/// A function or binding, unless it is a bare type annotation or has no
/// usable name.
pub open spec fn hs_bind(src: Seq<char>, n: SyntaxNode) -> ResultView {
    let fl = first_line(text_of(src, n));
    let name = hs_bind_name(src, n);
    if (contains(fl, "::"@) && !contains(fl, "="@)) || name.len() == 0 || starts_with(
        name,
        "--"@,
    ) {
        ResultView::empty()
    } else {
        decl_item(src, n, name, SymbolKind::Function, Visibility::Public)
    }
}

pub open spec fn hs_type_kind(k: Seq<char>) -> Option<SymbolKind> {
    if k == "type_synomym"@ {
        Some(SymbolKind::TypeAlias)
    } else if k == "data_type"@ || k == "newtype"@ {
        Some(SymbolKind::Struct)
    } else if k == "class"@ {
        Some(SymbolKind::Class)
    } else {
        None
    }
}

/// What a node contributes; `declarations` and `imports` contribute what
/// their children do, last first.
pub open spec fn hs_node(src: Seq<char>, n: SyntaxNode) -> ResultView
    decreases n, 0nat,
{
    let k = n.kind@;
    if k == "declarations"@ || k == "imports"@ {
        hs_rev(src, n.children@, n.children@.len() as nat)
    } else if k == "function"@ || k == "bind"@ {
        hs_bind(src, n)
    } else if k == "import"@ {
        import_item(hs_import(text_of(src, n)))
    } else {
        match hs_type_kind(k) {
            Some(kind) => {
                let name = hs_type_name_from(src, n.children@, 0);
                if name.len() == 0 {
                    ResultView::empty()
                } else {
                    decl_item(src, n, name, kind, Visibility::Public)
                }
            },
            None => ResultView::empty(),
        }
    }
}

pub open spec fn hs_rev(src: Seq<char>, ch: Seq<SyntaxNode>, k: nat) -> ResultView
    decreases ch, k,
{
    if k == 0 || k > ch.len() {
        ResultView::empty()
    } else {
        hs_node(src, ch[k - 1]).add(hs_rev(src, ch, (k - 1) as nat))
    }
}

impl HaskellLanguage {
    /// The text of the first `variable`, `name` or `constructor` child.
    pub fn extract_name(n: &SyntaxNode, src: &Vec<char>) -> (r: String)
        ensures
            r@ == hs_bind_name(src@, *n),
    {
        to_string(&child_text_exec(src, n, &ks3("variable", "name", "constructor")))
    }

    /// The import that an `import` declaration describes, if any.
    pub fn extract_import_info(n: &SyntaxNode, src: &Vec<char>) -> (r: Option<Import>)
        ensures
            opt_import(r) == hs_import(text_of(src@, *n)),
    {
        Self::import_of(&node_text(src, n))
    }


    /// The node's first line of text, trimmed.
    pub fn first_line(n: &SyntaxNode, src: &Vec<char>) -> (r: String)
        ensures
            r@ == first_line_of(src@, *n),
    {
        to_string(&node_first_line(src, n))
    }

    fn declared_name(src: &Vec<char>, n: &SyntaxNode) -> (r: Vec<char>)
        ensures
            r@ == hs_type_name_from(src@, n.children@, 0),
    {
        let mut i: usize = 0;
        while i < n.children.len()
            invariant
                hs_type_name_from(src@, n.children@, 0) == hs_type_name_from(
                    src@,
                    n.children@,
                    i as int,
                ),
            decreases n.children@.len() - i,
        {
            let c = &n.children[i];
            let t = node_text(src, c);
            let name = leading_ident_exec(&trim_exec(&t));
            if kind_is(c, "name") && name.len() > 0 {
                return name;
            }
            i += 1;
        }
        Vec::new()
    }

    fn module_len(s: &Vec<char>) -> (r: usize)
        ensures
            r == module_end(s@, 0),
            r <= s@.len(),
    {
        proof {
            lemma_module_end_bounds(s@, 0);
        }
        let mut k: usize = 0;
        while k < s.len() && (char_is_alphanumeric(s[k]) || s[k] == '.' || s[k] == '_')
            invariant
                k <= s@.len(),
                module_end(s@, 0) == module_end(s@, k as int),
            decreases s@.len() - k,
        {
            k += 1;
        }
        k
    }

    fn import_names(module: &Vec<char>, rest: &Vec<char>) -> (r: Vec<String>)
        ensures
            strings_view(r@) == hs_import_names(module@, rest@),
    {
        if starts_with_lit(rest, "(") {
            let inner = trim_start_matches_exec(rest, "(");
            let e = find_char_from_exec(&inner, ')', 0);
            split_trim_exec(&substr(&inner, 0, e), ',')
        } else {
            match strip_prefix_exec(rest, "as ") {
                Some(r) => one_name(&leading_ident_exec(&trim_exec(&r))),
                None => one_name(&after_last_exec(module, '.')),
            }
        }
    }

    fn import_of(text: &Vec<char>) -> (r: Option<Import>)
        ensures
            opt_import(r) == hs_import(text@),
    {
        let t = trim_exec(text);
        if !starts_with_lit(&t, "import") {
            return None;
        }
        proof {
            reveal_strlit("import");
        }
        let a = trim_exec(&substr(&t, 6, t.len()));
        let b = match strip_prefix_exec(&a, "qualified") {
            Some(r) => trim_exec(&r),
            None => a,
        };
        let e = Self::module_len(&b);
        let module = substr(&b, 0, e);
        if module.len() == 0 {
            return None;
        }
        let rest = trim_exec(&substr(&b, e, b.len()));
        let names = Self::import_names(&module, &rest);
        Some(make_import(&module, names))
    }

    fn bind_items(src: &Vec<char>, n: &SyntaxNode) -> (r: ParseResult)
        ensures
            r@ == hs_bind(src@, *n),
    {
        let fl = first_line_exec(&node_text(src, n));
        let name = child_text_exec(src, n, &ks3("variable", "name", "constructor"));
        if (contains_exec(&fl, "::") && !contains_exec(&fl, "=")) || name.len() == 0
            || starts_with_lit(&name, "--") {
            ParseResult::empty()
        } else {
            decl_exec(src, n, &name, SymbolKind::Function, Visibility::Public)
        }
    }

    fn type_kind(n: &SyntaxNode) -> (r: Option<SymbolKind>)
        ensures
            r == hs_type_kind(n.kind@),
    {
        if kind_is(n, "type_synomym") {
            Some(SymbolKind::TypeAlias)
        } else if kind_is(n, "data_type") || kind_is(n, "newtype") {
            Some(SymbolKind::Struct)
        } else if kind_is(n, "class") {
            Some(SymbolKind::Class)
        } else {
            None
        }
    }

    fn node_items(src: &Vec<char>, n: &SyntaxNode) -> (r: ParseResult)
        ensures
            r@ == hs_node(src@, *n),
        decreases *n, 0nat,
    {
        if kind_is(n, "declarations") || kind_is(n, "imports") {
            Self::rev_items(src, &n.children, n.children.len())
        } else if kind_is(n, "function") || kind_is(n, "bind") {
            Self::bind_items(src, n)
        } else if kind_is(n, "import") {
            import_exec(Self::import_of(&node_text(src, n)))
        } else {
            match Self::type_kind(n) {
                Some(kind) => {
                    let name = Self::declared_name(src, n);
                    if name.len() == 0 {
                        ParseResult::empty()
                    } else {
                        decl_exec(src, n, &name, kind, Visibility::Public)
                    }
                },
                None => ParseResult::empty(),
            }
        }
    }

    fn rev_items(src: &Vec<char>, ch: &Vec<SyntaxNode>, k: usize) -> (r: ParseResult)
        requires
            k <= ch@.len(),
        ensures
            r@ == hs_rev(src@, ch@, k as nat),
        decreases ch@, k,
    {
        if k == 0 {
            return ParseResult::empty();
        }
        let mut out = Self::node_items(src, &ch[k - 1]);
        let rest = Self::rev_items(src, ch, k - 1);
        out.absorb(rest);
        out
    }
}

impl LanguageSupport for HaskellLanguage {
    open spec fn spec_name(&self) -> Seq<char> {
        "haskell"@
    }

    open spec fn spec_extract(&self, source: Seq<char>, root: SyntaxNode) -> ResultView {
        hs_rev(source, root.children@, root.children@.len() as nat)
    }

    fn ts_language(&self) -> tree_sitter::Language {
        grammar()
    }

    fn name(&self) -> (r: &str) {
        "haskell"
    }

    fn extract(&self, source: &str, tree: &SyntaxTree) -> (r: ParseResult) {
        let src = str_chars(source);
        Self::rev_items(&src, &tree.root.children, tree.root.children.len())
    }
}

} // verus!

verus! {

proof fn lemma_hs_node_exports(src: Seq<char>, n: SyntaxNode)
    ensures
        exports_public(hs_node(src, n)),
    decreases n, 0nat,
{
    broadcast use group_exports_public;

    lemma_hs_rev_exports(src, n.children@, n.children@.len() as nat);
}

proof fn lemma_hs_rev_exports(src: Seq<char>, ch: Seq<SyntaxNode>, k: nat)
    ensures
        exports_public(hs_rev(src, ch, k)),
    decreases ch, k,
{
    broadcast use group_exports_public;

    if k > 0 && k <= ch.len() {
        lemma_hs_node_exports(src, ch[k - 1]);
        lemma_hs_rev_exports(src, ch, (k - 1) as nat);
    }
}

/// Every export of what Haskell extraction finds names a public symbol of
/// the same kind: nothing is exported that is not declared public.
pub proof fn law_exports_are_public(source: Seq<char>, root: SyntaxNode)
    ensures
        exports_public(HaskellLanguage.spec_extract(source, root)),
{
    broadcast use group_exports_public;

    lemma_hs_rev_exports(source, root.children@, root.children@.len() as nat);
}

} // verus!
