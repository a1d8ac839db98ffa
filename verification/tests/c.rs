#![allow(unused_imports, dead_code, unused_variables, unused_mut)]
use codemap::parser::language::{Export, Import, LanguageSupport, ParseResult, Symbol, SymbolKind, Visibility};
use codemap::parser::languages::c::CLanguage;
use codemap::syntax::{SyntaxNode, SyntaxTree};
use codemap::treesitter::TreeParser;
    fn make_parser() -> TreeParser {
        let mut parser = TreeParser::new();
        parser
            .set_language(&tree_sitter_c::LANGUAGE.into())
            .expect("failed to set language");
        parser
    }

    #[test]
    fn c_test_extract_function() {
        let source = r#"int add(int a, int b) {
    return a + b;
}
"#;
        let mut parser = make_parser();
        let tree = parser.parse(source, None).expect("parse failed");
        let lang = CLanguage;
        let result = lang.extract(source, &tree);

        assert_eq!(result.symbols.len(), 1);
        let sym = &result.symbols[0];
        assert_eq!(sym.name, "add");
        assert_eq!(sym.kind, SymbolKind::Function);
        assert_eq!(sym.visibility, Visibility::Public);
        assert!(sym.signature.contains("int add(int a, int b)"), "signature: {}", sym.signature);

        assert_eq!(result.exports.len(), 1);
        assert_eq!(result.exports[0].name, "add");
    }

    #[test]
    fn c_test_extract_include() {
        let source = r#"#include <stdio.h>
#include "myheader.h"
"#;
        let mut parser = make_parser();
        let tree = parser.parse(source, None).expect("parse failed");
        let lang = CLanguage;
        let result = lang.extract(source, &tree);

        assert_eq!(result.imports.len(), 2);
        assert!(result.imports.iter().any(|i| i.source.contains("stdio.h")));
        assert!(result.imports.iter().any(|i| i.source.contains("myheader.h")));
    }

    #[test]
    fn c_test_extract_typedef() {
        let source = r#"typedef unsigned int uint32_t;
"#;
        let mut parser = make_parser();
        let tree = parser.parse(source, None).expect("parse failed");

        let lang = CLanguage;
        let result = lang.extract(source, &tree);

        let typedefs: Vec<_> = result.symbols.iter().filter(|s| s.kind == SymbolKind::TypeAlias).collect();
        assert!(!typedefs.is_empty(), "expected typedef symbol");
        assert_eq!(typedefs[0].name, "uint32_t");
    }
