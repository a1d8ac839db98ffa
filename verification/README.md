# codemap

A verified library that extracts symbols, imports and exports from source
files in many languages. Tree-sitter grammars do the parsing; everything that
reads the resulting tree is written in Verus and proved against contracts.

Layout:

- `src/text.rs`: character-sequence specifications and the string helpers the
  extractors use (trimming, splitting, searching, number parsing).
- `src/syntax.rs`: `SyntaxNode` and `SyntaxTree`, a plain-value copy of a
  parsed tree, with lookups over children and fields.
- `src/treesitter.rs`: the calls into tree-sitter, and the verified rebuild of
  its depth-first node records into a `SyntaxTree`, with byte offsets mapped
  to character offsets.
- `src/parser/language.rs`: `Symbol`, `Import`, `Export`, `ParseResult`, their
  mathematical views, and the `LanguageSupport` trait.
- `src/parser/common.rs`: shapes of symbols shared by several languages.
- `src/parser/languages/`: one extractor per language; each states exactly
  what it returns as a spec function over the tree, and proves that every
  export names a public symbol of the same kind.
- `src/parser/mod.rs`: `LanguageRegistry`, with laws about registering and
  looking up languages.

Languages: `LanguageRegistry::new()` registers the 29 languages whose
tree-sitter grammar the crate links (a crate may name at most 30 direct
dependencies here, tree-sitter itself among them). The Markdown, TOML,
Dockerfile and Svelte extractors are verified like the others but are not
registered: their grammars are not linked, so they work on a `SyntaxTree`
that the caller builds or obtains elsewhere.

Not included: relevance scoring of files against a query. It computes
floating-point scores over a codebase index that is not part of this crate,
so there is nothing here for it to stand on.

Tests live under `tests/`, one file per language plus the laws on concrete
values. `tests/tree_built_by_hand.rs` exercises extractors on trees written
out by hand, among them the four languages whose grammar is not linked.

Known limit of the proofs: `LanguageRegistry::register` states which name
and which language it stores. Verus applies those clauses at a call whose
argument is built from a concrete language (`Box::new(GoLanguage)`); when a
caller forwards a `Box<dyn LanguageSupport>` it received by value, Verus does
not relate the value passed to the value the clauses speak of, so such a
caller learns only that some language was registered.
