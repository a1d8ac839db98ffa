#![allow(unused_imports, dead_code, unused_variables, unused_mut)]
use codemap::parser::language::{Export, Import, LanguageSupport, ParseResult, Symbol, SymbolKind, Visibility};
use codemap::parser::languages::javascript::JavaScriptLanguage;
use codemap::syntax::{SyntaxNode, SyntaxTree};
use codemap::treesitter::TreeParser;
    fn make_parser() -> TreeParser {
        let mut parser = TreeParser::new();
        parser
            .set_language(&tree_sitter_javascript::LANGUAGE.into())
            .expect("failed to set language");
        parser
    }

    #[test]
    fn javascript_test_extract_exported_function() {
        let source = r#"export function greet(name) {
    return `Hello, ${name}!`;
}
"#;
        let mut parser = make_parser();
        let tree = parser.parse(source, None).expect("parse failed");
        let lang = JavaScriptLanguage;
        let result = lang.extract(source, &tree);

        let funcs: Vec<_> = result.symbols.iter().filter(|s| s.kind == SymbolKind::Function).collect();
        assert!(!funcs.is_empty(), "expected at least one function");
        assert_eq!(funcs[0].name, "greet");
        assert_eq!(funcs[0].visibility, Visibility::Public);

        let exported: Vec<_> = result.exports.iter().filter(|e| e.name == "greet").collect();
        assert!(!exported.is_empty(), "greet should be exported");
    }

    #[test]
    fn javascript_test_extract_private_function() {
        let source = r#"function helper(x) {
    return x * 2;
}
"#;
        let mut parser = make_parser();
        let tree = parser.parse(source, None).expect("parse failed");
        let lang = JavaScriptLanguage;
        let result = lang.extract(source, &tree);

        assert_eq!(result.symbols.len(), 1);
        let sym = &result.symbols[0];
        assert_eq!(sym.name, "helper");
        assert_eq!(sym.visibility, Visibility::Private);
        assert!(result.exports.is_empty());
    }

    #[test]
    fn javascript_test_extract_import() {
        let source = r#"import { readFile, writeFile } from 'fs';
"#;
        let mut parser = make_parser();
        let tree = parser.parse(source, None).expect("parse failed");
        let lang = JavaScriptLanguage;
        let result = lang.extract(source, &tree);

        assert_eq!(result.imports.len(), 1);
        let imp = &result.imports[0];
        assert_eq!(imp.source, "fs");
        assert!(imp.names.contains(&"readFile".to_string()));
        assert!(imp.names.contains(&"writeFile".to_string()));
    }

    #[test]
    fn javascript_test_extract_class() {
        let source = r#"export class Dog {
    constructor(name) {
        this.name = name;
    }
}
"#;
        let mut parser = make_parser();
        let tree = parser.parse(source, None).expect("parse failed");
        let lang = JavaScriptLanguage;
        let result = lang.extract(source, &tree);

        let classes: Vec<_> = result.symbols.iter().filter(|s| s.kind == SymbolKind::Class).collect();
        assert!(!classes.is_empty(), "expected class symbol");
        assert_eq!(classes[0].name, "Dog");
        assert_eq!(classes[0].visibility, Visibility::Public);
    }
