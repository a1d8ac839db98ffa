//! What symbol extraction produces, and the interface every language offers.
use vstd::prelude::*;
use crate::syntax::{SyntaxNode, SyntaxTree};
use crate::text::{strings_view, to_string};

verus! {

#[derive(Debug, Clone, Copy, PartialEq, Eq, Structural)]
pub enum SymbolKind {
    Function,
    Method,
    Class,
    Struct,
    Enum,
    Interface,
    Trait,
    TypeAlias,
    Constant,
    Variable,
    Type,
    Block,
    Element,
    Heading,
    Section,
    Key,
    Table,
    Selector,
    Rule,
    Target,
    Instruction,
    Message,
    Service,
    Query,
    Mutation,
}

#[derive(Debug, Clone, Copy, PartialEq, Eq, Structural)]
pub enum Visibility {
    Public,
    Private,
}

/// A named definition found in a source file.
#[derive(Debug, Clone, PartialEq)]
pub struct Symbol {
    pub name: String,
    pub kind: SymbolKind,
    pub visibility: Visibility,
    pub signature: String,
    pub body: String,
    pub start_line: usize,
    pub end_line: usize,
}

/// A dependency of a source file: where it comes from and what it names.
#[derive(Debug, Clone, PartialEq)]
pub struct Import {
    pub source: String,
    pub names: Vec<String>,
}

/// A name that a source file makes visible to others.
#[derive(Debug, Clone, PartialEq)]
pub struct Export {
    pub name: String,
    pub kind: SymbolKind,
}

/// Everything extracted from one source file.
#[derive(Debug, Clone, PartialEq)]
pub struct ParseResult {
    pub symbols: Vec<Symbol>,
    pub imports: Vec<Import>,
    pub exports: Vec<Export>,
}

#[verifier::ext_equal]
pub struct SymbolView {
    pub name: Seq<char>,
    pub kind: SymbolKind,
    pub visibility: Visibility,
    pub signature: Seq<char>,
    pub body: Seq<char>,
    pub start_line: usize,
    pub end_line: usize,
}

#[verifier::ext_equal]
pub struct ImportView {
    pub source: Seq<char>,
    pub names: Seq<Seq<char>>,
}

#[verifier::ext_equal]
pub struct ExportView {
    pub name: Seq<char>,
    pub kind: SymbolKind,
}

#[verifier::ext_equal]
pub struct ResultView {
    pub symbols: Seq<SymbolView>,
    pub imports: Seq<ImportView>,
    pub exports: Seq<ExportView>,
}

impl View for Symbol {
    type V = SymbolView;

    open spec fn view(&self) -> SymbolView {
        SymbolView {
            name: self.name@,
            kind: self.kind,
            visibility: self.visibility,
            signature: self.signature@,
            body: self.body@,
            start_line: self.start_line,
            end_line: self.end_line,
        }
    }
}

impl View for Import {
    type V = ImportView;

    open spec fn view(&self) -> ImportView {
        ImportView { source: self.source@, names: strings_view(self.names@) }
    }
}

impl View for Export {
    type V = ExportView;

    open spec fn view(&self) -> ExportView {
        ExportView { name: self.name@, kind: self.kind }
    }
}

pub open spec fn symbols_view(v: Seq<Symbol>) -> Seq<SymbolView> {
    v.map_values(|s: Symbol| s@)
}

pub open spec fn imports_view(v: Seq<Import>) -> Seq<ImportView> {
    v.map_values(|s: Import| s@)
}

pub open spec fn exports_view(v: Seq<Export>) -> Seq<ExportView> {
    v.map_values(|s: Export| s@)
}

impl View for ParseResult {
    type V = ResultView;

    open spec fn view(&self) -> ResultView {
        ResultView {
            symbols: symbols_view(self.symbols@),
            imports: imports_view(self.imports@),
            exports: exports_view(self.exports@),
        }
    }
}

impl ResultView {
    pub open spec fn empty() -> ResultView {
        ResultView { symbols: seq![], imports: seq![], exports: seq![] }
    }

    pub open spec fn add(self, o: ResultView) -> ResultView {
        ResultView {
            symbols: self.symbols + o.symbols,
            imports: self.imports + o.imports,
            exports: self.exports + o.exports,
        }
    }

    pub open spec fn symbol(s: SymbolView) -> ResultView {
        ResultView { symbols: seq![s], imports: seq![], exports: seq![] }
    }

    pub open spec fn import(i: ImportView) -> ResultView {
        ResultView { symbols: seq![], imports: seq![i], exports: seq![] }
    }

    pub open spec fn export(e: ExportView) -> ResultView {
        ResultView { symbols: seq![], imports: seq![], exports: seq![e] }
    }

    /// A symbol, and an export of its name if it is public.
    pub open spec fn symbol_exported(s: SymbolView) -> ResultView {
        ResultView {
            symbols: seq![s],
            imports: seq![],
            exports: if s.visibility == Visibility::Public {
                seq![ExportView { name: s.name, kind: s.kind }]
            } else {
                seq![]
            },
        }
    }
}

/// The contributions of the nodes `ch`, in order.
pub open spec fn fold_items(ch: Seq<SyntaxNode>, f: spec_fn(SyntaxNode) -> ResultView) -> ResultView
    decreases ch.len(),
{
    if ch.len() == 0 {
        ResultView::empty()
    } else {
        fold_items(ch.drop_last(), f).add(f(ch.last()))
    }
}

pub proof fn lemma_fold_step(ch: Seq<SyntaxNode>, f: spec_fn(SyntaxNode) -> ResultView, i: int)
    requires
        0 <= i < ch.len(),
    ensures
        fold_items(ch.take(i + 1), f) == fold_items(ch.take(i), f).add(f(ch[i])),
{
    assert(ch.take(i + 1).drop_last() =~= ch.take(i));
}

pub proof fn lemma_fold_all(ch: Seq<SyntaxNode>, f: spec_fn(SyntaxNode) -> ResultView)
    ensures
        fold_items(ch.take(ch.len() as int), f) == fold_items(ch, f),
{
    assert(ch.take(ch.len() as int) =~= ch);
}

/// Symbol built from the pieces of a node.
pub open spec fn symbol_of(
    name: Seq<char>,
    kind: SymbolKind,
    visibility: Visibility,
    signature: Seq<char>,
    body: Seq<char>,
    n: SyntaxNode,
) -> SymbolView {
    SymbolView {
        name,
        kind,
        visibility,
        signature,
        body,
        start_line: n.start_line,
        end_line: n.end_line,
    }
}

pub open spec fn vis_of(public: bool) -> Visibility {
    if public {
        Visibility::Public
    } else {
        Visibility::Private
    }
}

pub fn visibility(public: bool) -> (r: Visibility)
    ensures
        r == vis_of(public),
{
    if public {
        Visibility::Public
    } else {
        Visibility::Private
    }
}

pub fn make_symbol(
    name: &Vec<char>,
    kind: SymbolKind,
    vis: Visibility,
    signature: &Vec<char>,
    body: &Vec<char>,
    n: &SyntaxNode,
) -> (r: Symbol)
    ensures
        r@ == symbol_of(name@, kind, vis, signature@, body@, *n),
{
    Symbol {
        name: to_string(name),
        kind,
        visibility: vis,
        signature: to_string(signature),
        body: to_string(body),
        start_line: n.start_line,
        end_line: n.end_line,
    }
}

pub fn make_import(source: &Vec<char>, names: Vec<String>) -> (r: Import)
    ensures
        r@ == (ImportView { source: source@, names: strings_view(names@) }),
{
    Import { source: to_string(source), names }
}

/// A one-name list.
pub fn one_name(name: &Vec<char>) -> (r: Vec<String>)
    ensures
        strings_view(r@) == seq![name@],
{
    let mut v: Vec<String> = Vec::new();
    v.push(to_string(name));
    assert(strings_view(v@) =~= seq![name@]);
    v
}

impl ParseResult {
    pub fn empty() -> (r: ParseResult)
        ensures
            r@ == ResultView::empty(),
    {
        let r = ParseResult { symbols: Vec::new(), imports: Vec::new(), exports: Vec::new() };
        assert(r@ =~= ResultView::empty());
        r
    }

    pub fn absorb(&mut self, other: ParseResult)
        ensures
            final(self)@ == old(self)@.add(other@),
    {
        let mut o = other;
        let ghost before = self@;
        let ghost ov = o@;
        self.symbols.append(&mut o.symbols);
        self.imports.append(&mut o.imports);
        self.exports.append(&mut o.exports);
        assert(symbols_view(self.symbols@) =~= before.symbols + ov.symbols);
        assert(imports_view(self.imports@) =~= before.imports + ov.imports);
        assert(exports_view(self.exports@) =~= before.exports + ov.exports);
    }

    pub fn push_symbol(&mut self, s: Symbol)
        ensures
            final(self)@ == old(self)@.add(ResultView::symbol(s@)),
    {
        let ghost before = self@;
        self.symbols.push(s);
        assert(symbols_view(self.symbols@) =~= before.symbols + seq![s@]);
        assert(self@.imports =~= before.imports + Seq::<ImportView>::empty());
        assert(self@.exports =~= before.exports + Seq::<ExportView>::empty());
    }

    pub fn push_import(&mut self, i: Import)
        ensures
            final(self)@ == old(self)@.add(ResultView::import(i@)),
    {
        let ghost before = self@;
        self.imports.push(i);
        assert(imports_view(self.imports@) =~= before.imports + seq![i@]);
        assert(self@.symbols =~= before.symbols + Seq::<SymbolView>::empty());
        assert(self@.exports =~= before.exports + Seq::<ExportView>::empty());
    }

    pub fn push_export(&mut self, name: &Vec<char>, kind: SymbolKind)
        ensures
            final(self)@ == old(self)@.add(
                ResultView::export(ExportView { name: name@, kind }),
            ),
    {
        let ghost before = self@;
        self.exports.push(Export { name: to_string(name), kind });
        assert(exports_view(self.exports@) =~= before.exports + seq![
            ExportView { name: name@, kind },
        ]);
        assert(self@.symbols =~= before.symbols + Seq::<SymbolView>::empty());
        assert(self@.imports =~= before.imports + Seq::<ImportView>::empty());
    }

    /// Adds a symbol and, when it is public, an export of its name.
    pub fn push_symbol_exported(&mut self, s: Symbol)
        ensures
            final(self)@ == old(self)@.add(ResultView::symbol_exported(s@)),
    {
        let ghost before = self@;
        let ghost sv = s@;
        let public = s.visibility == Visibility::Public;
        if public {
            self.exports.push(Export { name: s.name.clone(), kind: s.kind });
        }
        self.symbols.push(s);
        assert(symbols_view(self.symbols@) =~= before.symbols + seq![sv]);
        assert(self@.imports =~= before.imports + Seq::<ImportView>::empty());
        if public {
            assert(exports_view(self.exports@) =~= before.exports + seq![
                ExportView { name: sv.name, kind: sv.kind },
            ]);
        } else {
            assert(exports_view(self.exports@) =~= before.exports + Seq::<ExportView>::empty());
        }
    }
}

/// A language whose source files the library can parse and extract symbols
/// from.
pub trait LanguageSupport {
    /// The name under which the language is registered.
    spec fn spec_name(&self) -> Seq<char>;

    /// What `extract` returns for a source text and the root of its tree.
    spec fn spec_extract(&self, source: Seq<char>, root: SyntaxNode) -> ResultView;

    /// The tree-sitter grammar of the language.
    fn ts_language(&self) -> tree_sitter::Language;

    fn name(&self) -> (r: &str)
        ensures
            r@ == self.spec_name(),
    ;

    fn extract(&self, source: &str, tree: &SyntaxTree) -> (r: ParseResult)
        ensures
            r@ == self.spec_extract(source@, tree.root),
    ;
}

} // verus!

verus! {

/// Runs `f` on each node of `ns` and gathers the results in order.
pub fn fold_nodes<F: Fn(&Vec<char>, &SyntaxNode) -> ParseResult>(
    src: &Vec<char>,
    ns: &Vec<SyntaxNode>,
    f: F,
    Ghost(g): Ghost<spec_fn(SyntaxNode) -> ResultView>,
) -> (r: ParseResult)
    requires
        forall|x: SyntaxNode| #[trigger] call_requires(f, (src, &x)),
        forall|x: SyntaxNode, o: ParseResult| call_ensures(f, (src, &x), o) ==> o@ == g(x),
    ensures
        r@ == fold_items(ns@, g),
{
    let mut out = ParseResult::empty();
    let mut j: usize = 0;
    while j < ns.len()
        invariant
            j <= ns@.len(),
            forall|x: SyntaxNode| #[trigger] call_requires(f, (src, &x)),
            forall|x: SyntaxNode, o: ParseResult| call_ensures(f, (src, &x), o) ==> o@ == g(x),
            out@ == fold_items(ns@.take(j as int), g),
        decreases ns@.len() - j,
    {
        let part = f(src, &ns[j]);
        proof {
            lemma_fold_step(ns@, g, j as int);
        }
        out.absorb(part);
        j += 1;
    }
    proof {
        lemma_fold_all(ns@, g);
    }
    out
}

} // verus!

verus! {

/// Some public symbol of `ss` has the name and kind of `e`.
pub open spec fn names_public_symbol(ss: Seq<SymbolView>, e: ExportView) -> bool {
    exists|j: int|
        0 <= j < ss.len() && #[trigger] ss[j].name == e.name && ss[j].kind == e.kind
            && ss[j].visibility == Visibility::Public
}

/// Every export of `r` names a public symbol of `r` of the same kind.
pub open spec fn exports_public(r: ResultView) -> bool {
    forall|i: int| 0 <= i < r.exports.len() ==> #[trigger] names_public_symbol(r.symbols, r.exports[i])
}

pub broadcast proof fn lemma_exports_public_empty()
    ensures
        #[trigger] exports_public(ResultView::empty()),
{
}

pub broadcast proof fn lemma_exports_public_symbol(s: SymbolView)
    ensures
        #[trigger] exports_public(ResultView::symbol(s)),
{
}

pub broadcast proof fn lemma_exports_public_import(i: ImportView)
    ensures
        #[trigger] exports_public(ResultView::import(i)),
{
}

pub broadcast proof fn lemma_exports_public_symbol_exported(s: SymbolView)
    ensures
        #[trigger] exports_public(ResultView::symbol_exported(s)),
{
    let r = ResultView::symbol_exported(s);
    assert forall|i: int| 0 <= i < r.exports.len() implies #[trigger] names_public_symbol(
        r.symbols,
        r.exports[i],
    ) by {
        assert(r.symbols[0].name == r.exports[i].name);
    }
}

pub broadcast proof fn lemma_exports_public_add(a: ResultView, b: ResultView)
    requires
        exports_public(a),
        exports_public(b),
    ensures
        #[trigger] exports_public(a.add(b)),
{
    let r = a.add(b);
    assert forall|i: int| 0 <= i < r.exports.len() implies #[trigger] names_public_symbol(
        r.symbols,
        r.exports[i],
    ) by {
        if i < a.exports.len() {
            assert(names_public_symbol(a.symbols, a.exports[i]));
            let j = choose|j: int|
                0 <= j < a.symbols.len() && #[trigger] a.symbols[j].name == a.exports[i].name
                    && a.symbols[j].kind == a.exports[i].kind && a.symbols[j].visibility
                    == Visibility::Public;
            assert(r.symbols[j] == a.symbols[j]);
            assert(r.exports[i] == a.exports[i]);
        } else {
            let k = i - a.exports.len();
            assert(names_public_symbol(b.symbols, b.exports[k]));
            let j = choose|j: int|
                0 <= j < b.symbols.len() && #[trigger] b.symbols[j].name == b.exports[k].name
                    && b.symbols[j].kind == b.exports[k].kind && b.symbols[j].visibility
                    == Visibility::Public;
            assert(r.symbols[a.symbols.len() + j] == b.symbols[j]);
            assert(r.exports[i] == b.exports[k]);
        }
    }
}

pub broadcast group group_exports_public {
    lemma_exports_public_empty,
    lemma_exports_public_symbol,
    lemma_exports_public_import,
    lemma_exports_public_symbol_exported,
    lemma_exports_public_add,
}

/// Gathering results in which every export names a public symbol keeps
/// that so.
pub proof fn lemma_fold_exports_public(ch: Seq<SyntaxNode>, f: spec_fn(SyntaxNode) -> ResultView)
    requires
        forall|n: SyntaxNode| exports_public(#[trigger] f(n)),
    ensures
        exports_public(fold_items(ch, f)),
    decreases ch.len(),
{
    broadcast use group_exports_public;

    if ch.len() > 0 {
        lemma_fold_exports_public(ch.drop_last(), f);
    }
}

} // verus!

verus! {

/// The export that names a symbol.
pub open spec fn export_of(s: SymbolView) -> ExportView {
    ExportView { name: s.name, kind: s.kind }
}

/// The exports of the public symbols of `ss`, in their order.
pub open spec fn public_exports(ss: Seq<SymbolView>) -> Seq<ExportView>
    decreases ss.len(),
{
    if ss.len() == 0 {
        seq![]
    } else {
        public_exports(ss.drop_last()) + if ss.last().visibility == Visibility::Public {
            seq![export_of(ss.last())]
        } else {
            seq![]
        }
    }
}

/// The exports of `r` are exactly its public symbols, in order.
pub open spec fn exports_mirror_symbols(r: ResultView) -> bool {
    r.exports == public_exports(r.symbols)
}

pub proof fn lemma_public_exports_add(a: Seq<SymbolView>, b: Seq<SymbolView>)
    ensures
        public_exports(a + b) == public_exports(a) + public_exports(b),
    decreases b.len(),
{
    if b.len() == 0 {
        assert(a + b =~= a);
        assert(public_exports(b) =~= Seq::<ExportView>::empty());
        assert(public_exports(a) + public_exports(b) =~= public_exports(a));
    } else {
        lemma_public_exports_add(a, b.drop_last());
        assert((a + b).drop_last() =~= a + b.drop_last());
        assert((a + b).last() == b.last());
        let tail = if b.last().visibility == Visibility::Public {
            seq![export_of(b.last())]
        } else {
            Seq::<ExportView>::empty()
        };
        assert(public_exports(a) + public_exports(b.drop_last()) + tail =~= public_exports(a) + (
        public_exports(b.drop_last()) + tail));
    }
}

pub broadcast proof fn lemma_mirror_empty()
    ensures
        #[trigger] exports_mirror_symbols(ResultView::empty()),
{
}

pub broadcast proof fn lemma_mirror_import(i: ImportView)
    ensures
        #[trigger] exports_mirror_symbols(ResultView::import(i)),
{
}

pub broadcast proof fn lemma_mirror_private_symbol(s: SymbolView)
    requires
        s.visibility == Visibility::Private,
    ensures
        #[trigger] exports_mirror_symbols(ResultView::symbol(s)),
{
    reveal_with_fuel(public_exports, 2);
    assert(seq![s].drop_last() =~= Seq::<SymbolView>::empty());
    assert(public_exports(seq![s]) =~= Seq::<ExportView>::empty());
}

pub broadcast proof fn lemma_mirror_symbol_exported(s: SymbolView)
    ensures
        #[trigger] exports_mirror_symbols(ResultView::symbol_exported(s)),
{
    reveal_with_fuel(public_exports, 2);
    assert(seq![s].drop_last() =~= Seq::<SymbolView>::empty());
    if s.visibility == Visibility::Public {
        assert(public_exports(seq![s]) =~= seq![export_of(s)]);
    } else {
        assert(public_exports(seq![s]) =~= Seq::<ExportView>::empty());
    }
}

pub broadcast proof fn lemma_mirror_add(a: ResultView, b: ResultView)
    requires
        exports_mirror_symbols(a),
        exports_mirror_symbols(b),
    ensures
        #[trigger] exports_mirror_symbols(a.add(b)),
{
    lemma_public_exports_add(a.symbols, b.symbols);
}

pub broadcast group group_exports_mirror {
    lemma_mirror_empty,
    lemma_mirror_import,
    lemma_mirror_private_symbol,
    lemma_mirror_symbol_exported,
    lemma_mirror_add,
}

/// Gathering results whose exports mirror their public symbols keeps that so.
pub proof fn lemma_fold_mirror(ch: Seq<SyntaxNode>, f: spec_fn(SyntaxNode) -> ResultView)
    requires
        forall|n: SyntaxNode| exports_mirror_symbols(#[trigger] f(n)),
    ensures
        exports_mirror_symbols(fold_items(ch, f)),
    decreases ch.len(),
{
    broadcast use group_exports_mirror;

    if ch.len() > 0 {
        lemma_fold_mirror(ch.drop_last(), f);
    }
}

} // verus!

verus! {

/// A symbol of one node's contribution is a symbol of the gathered result.
pub proof fn lemma_fold_has_symbol(
    ch: Seq<SyntaxNode>,
    f: spec_fn(SyntaxNode) -> ResultView,
    i: int,
    x: SymbolView,
)
    requires
        0 <= i < ch.len(),
        f(ch[i]).symbols.contains(x),
    ensures
        fold_items(ch, f).symbols.contains(x),
    decreases ch.len(),
{
    let a = fold_items(ch.drop_last(), f);
    let b = f(ch.last());
    if i == ch.len() - 1 {
        let j = choose|j: int| 0 <= j < b.symbols.len() && b.symbols[j] == x;
        assert(a.add(b).symbols[a.symbols.len() + j] == x);
    } else {
        assert(ch.drop_last()[i] == ch[i]);
        lemma_fold_has_symbol(ch.drop_last(), f, i, x);
        let j = choose|j: int| 0 <= j < a.symbols.len() && a.symbols[j] == x;
        assert(a.add(b).symbols[j] == x);
    }
}

/// An import of one node's contribution is an import of the gathered result.
pub proof fn lemma_fold_has_import(
    ch: Seq<SyntaxNode>,
    f: spec_fn(SyntaxNode) -> ResultView,
    i: int,
    x: ImportView,
)
    requires
        0 <= i < ch.len(),
        f(ch[i]).imports.contains(x),
    ensures
        fold_items(ch, f).imports.contains(x),
    decreases ch.len(),
{
    let a = fold_items(ch.drop_last(), f);
    let b = f(ch.last());
    if i == ch.len() - 1 {
        let j = choose|j: int| 0 <= j < b.imports.len() && b.imports[j] == x;
        assert(a.add(b).imports[a.imports.len() + j] == x);
    } else {
        assert(ch.drop_last()[i] == ch[i]);
        lemma_fold_has_import(ch.drop_last(), f, i, x);
        let j = choose|j: int| 0 <= j < a.imports.len() && a.imports[j] == x;
        assert(a.add(b).imports[j] == x);
    }
}

/// An export of one node's contribution is an export of the gathered result.
pub proof fn lemma_fold_has_export(
    ch: Seq<SyntaxNode>,
    f: spec_fn(SyntaxNode) -> ResultView,
    i: int,
    x: ExportView,
)
    requires
        0 <= i < ch.len(),
        f(ch[i]).exports.contains(x),
    ensures
        fold_items(ch, f).exports.contains(x),
    decreases ch.len(),
{
    let a = fold_items(ch.drop_last(), f);
    let b = f(ch.last());
    if i == ch.len() - 1 {
        let j = choose|j: int| 0 <= j < b.exports.len() && b.exports[j] == x;
        assert(a.add(b).exports[a.exports.len() + j] == x);
    } else {
        assert(ch.drop_last()[i] == ch[i]);
        lemma_fold_has_export(ch.drop_last(), f, i, x);
        let j = choose|j: int| 0 <= j < a.exports.len() && a.exports[j] == x;
        assert(a.add(b).exports[j] == x);
    }
}

/// What either part holds, their sum holds.
pub proof fn lemma_add_has(a: ResultView, b: ResultView)
    ensures
        forall|x: SymbolView| a.symbols.contains(x) ==> #[trigger] a.add(b).symbols.contains(x),
        forall|x: SymbolView| b.symbols.contains(x) ==> #[trigger] a.add(b).symbols.contains(x),
        forall|x: ImportView| a.imports.contains(x) ==> #[trigger] a.add(b).imports.contains(x),
        forall|x: ImportView| b.imports.contains(x) ==> #[trigger] a.add(b).imports.contains(x),
        forall|x: ExportView| a.exports.contains(x) ==> #[trigger] a.add(b).exports.contains(x),
        forall|x: ExportView| b.exports.contains(x) ==> #[trigger] a.add(b).exports.contains(x),
{
    let r = a.add(b);
    assert forall|x: SymbolView| a.symbols.contains(x) implies #[trigger] r.symbols.contains(x) by {
        let j = choose|j: int| 0 <= j < a.symbols.len() && a.symbols[j] == x;
        assert(r.symbols[j] == x);
    }
    assert forall|x: SymbolView| b.symbols.contains(x) implies #[trigger] r.symbols.contains(x) by {
        let j = choose|j: int| 0 <= j < b.symbols.len() && b.symbols[j] == x;
        assert(r.symbols[a.symbols.len() + j] == x);
    }
    assert forall|x: ImportView| a.imports.contains(x) implies #[trigger] r.imports.contains(x) by {
        let j = choose|j: int| 0 <= j < a.imports.len() && a.imports[j] == x;
        assert(r.imports[j] == x);
    }
    assert forall|x: ImportView| b.imports.contains(x) implies #[trigger] r.imports.contains(x) by {
        let j = choose|j: int| 0 <= j < b.imports.len() && b.imports[j] == x;
        assert(r.imports[a.imports.len() + j] == x);
    }
    assert forall|x: ExportView| a.exports.contains(x) implies #[trigger] r.exports.contains(x) by {
        let j = choose|j: int| 0 <= j < a.exports.len() && a.exports[j] == x;
        assert(r.exports[j] == x);
    }
    assert forall|x: ExportView| b.exports.contains(x) implies #[trigger] r.exports.contains(x) by {
        let j = choose|j: int| 0 <= j < b.exports.len() && b.exports[j] == x;
        assert(r.exports[a.exports.len() + j] == x);
    }
}

} // verus!
