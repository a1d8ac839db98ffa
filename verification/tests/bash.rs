#![allow(unused_imports, dead_code, unused_variables, unused_mut)]
use codemap::parser::language::{Export, Import, LanguageSupport, ParseResult, Symbol, SymbolKind, Visibility};
use codemap::parser::languages::bash::BashLanguage;
use codemap::syntax::{SyntaxNode, SyntaxTree};
use codemap::treesitter::TreeParser;
    fn make_parser() -> TreeParser {
        let mut parser = TreeParser::new();
        parser
            .set_language(&tree_sitter_bash::LANGUAGE.into())
            .expect("failed to set language");
        parser
    }

    #[test]
    fn bash_test_extract_function() {
        let source = r#"greet() {
    echo "Hello, $1!"
}
"#;
        let mut parser = make_parser();
        let tree = parser.parse(source, None).expect("parse failed");
        let lang = BashLanguage;
        let result = lang.extract(source, &tree);

        let funcs: Vec<_> = result
            .symbols
            .iter()
            .filter(|s| s.kind == SymbolKind::Function)
            .collect();
        assert!(!funcs.is_empty(), "expected function symbol");
        assert_eq!(funcs[0].name, "greet");
        assert_eq!(funcs[0].visibility, Visibility::Public);

        assert!(
            result.exports.iter().any(|e| e.name == "greet"),
            "greet should be exported"
        );
    }

    #[test]
    fn test_extract_variable() {
        let source = r#"MY_VAR="hello"
COUNT=42
"#;
        let mut parser = make_parser();
        let tree = parser.parse(source, None).expect("parse failed");
        let lang = BashLanguage;
        let result = lang.extract(source, &tree);

        let vars: Vec<_> = result
            .symbols
            .iter()
            .filter(|s| s.kind == SymbolKind::Variable)
            .collect();
        assert!(
            vars.len() >= 2,
            "expected at least 2 variables, got: {:?}",
            vars.iter().map(|v| &v.name).collect::<Vec<_>>()
        );
    }

    #[test]
    fn test_extract_source_import() {
        let source = "source /etc/profile\nsource ./helpers.sh\n";
        let mut parser = make_parser();
        let tree = parser.parse(source, None).expect("parse failed");
        let lang = BashLanguage;
        let result = lang.extract(source, &tree);

        assert!(
            !result.imports.is_empty(),
            "expected source imports, got: {:?}",
            result.imports
        );
    }

    #[test]
    fn bash_test_empty_source() {
        let source = "";
        let mut parser = make_parser();
        let tree = parser.parse(source, None).unwrap();
        let lang = BashLanguage;
        let result = lang.extract(source, &tree);
        assert!(result.symbols.is_empty());
    }

    #[test]
    fn test_complex_script() {
        let source = r#"#!/bin/bash

VERSION="1.0.0"

setup() {
    mkdir -p /tmp/app
    echo "Setting up..."
}

cleanup() {
    rm -rf /tmp/app
}

source ./config.sh

main() {
    setup
    echo "Running version $VERSION"
    cleanup
}
"#;
        let mut parser = make_parser();
        let tree = parser.parse(source, None).expect("parse failed");
        let lang = BashLanguage;
        let result = lang.extract(source, &tree);

        let funcs: Vec<_> = result
            .symbols
            .iter()
            .filter(|s| s.kind == SymbolKind::Function)
            .collect();
        assert!(
            funcs.len() >= 3,
            "expected at least 3 functions, got: {:?}",
            funcs.iter().map(|f| &f.name).collect::<Vec<_>>()
        );

        let vars: Vec<_> = result
            .symbols
            .iter()
            .filter(|s| s.kind == SymbolKind::Variable)
            .collect();
        assert!(!vars.is_empty(), "expected VERSION variable");

        assert!(!result.imports.is_empty(), "expected source import");
    }

    #[test]
    fn test_dot_source_import() {
        // The `.` (dot) command is an alias for `source` — exercises the `cmd == "."` branch.
        let source = ". /etc/profile\n. ./lib.sh\n";
        let mut parser = make_parser();
        let tree = parser.parse(source, None).expect("parse failed");
        let lang = BashLanguage;
        let result = lang.extract(source, &tree);

        assert!(
            !result.imports.is_empty(),
            "expected imports from dot-source commands, got: {:?}",
            result.imports
        );
    }

    #[test]
    fn test_non_source_command_skipped() {
        // A regular command (not `source` or `.`) should not produce imports,
        // exercising the `return None` branch in extract_source_import.
        let source = "echo hello\nls -la\n";
        let mut parser = make_parser();
        let tree = parser.parse(source, None).expect("parse failed");
        let lang = BashLanguage;
        let result = lang.extract(source, &tree);

        assert!(
            result.imports.is_empty(),
            "regular commands should not produce imports"
        );
    }

    #[test]
    fn test_source_without_path() {
        // `source` with no argument exercises the `is_source && path.is_empty()` false branch.
        let source = "source\n";
        let mut parser = make_parser();
        let tree = parser.parse(source, None).expect("parse failed");
        let lang = BashLanguage;
        let result = lang.extract(source, &tree);

        assert!(
            result.imports.is_empty(),
            "source without path should not produce imports"
        );
    }

    #[test]
    fn test_function_with_keyword() {
        let source = r#"function deploy() {
    echo "deploying..."
}
"#;
        let mut parser = make_parser();
        let tree = parser.parse(source, None).expect("parse failed");
        let lang = BashLanguage;
        let result = lang.extract(source, &tree);

        let funcs: Vec<_> = result
            .symbols
            .iter()
            .filter(|s| s.kind == SymbolKind::Function)
            .collect();
        assert!(
            !funcs.is_empty(),
            "expected function with 'function' keyword"
        );
        assert_eq!(funcs[0].name, "deploy");
    }
