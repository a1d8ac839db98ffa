#![allow(unused_imports, dead_code, unused_variables, unused_mut)]
use codemap::parser::language::{Export, Import, LanguageSupport, ParseResult, Symbol, SymbolKind, Visibility};
use codemap::parser::languages::yaml::YamlLanguage;
use codemap::syntax::{SyntaxNode, SyntaxTree};
use codemap::treesitter::TreeParser;
    fn make_parser() -> TreeParser {
        let mut parser = TreeParser::new();
        parser
            .set_language(&tree_sitter_yaml::LANGUAGE.into())
            .expect("failed to set language");
        parser
    }

    #[test]
    fn yaml_test_extract_top_level_keys() {
        let source = r#"name: my-project
version: 1.0.0
description: A test project
"#;
        let mut parser = make_parser();
        let tree = parser.parse(source, None).expect("parse failed");
        let lang = YamlLanguage;
        let result = lang.extract(source, &tree);

        assert!(
            !result.symbols.is_empty(),
            "expected symbols from YAML, got none"
        );
        let key_names: Vec<_> = result.symbols.iter().map(|s| &s.name).collect();
        assert!(
            key_names.iter().any(|n| n.contains("name")),
            "expected 'name' key, got: {:?}",
            key_names
        );
    }

    #[test]
    fn test_extract_nested_mapping() {
        let source = r#"database:
  host: localhost
  port: 5432
server:
  port: 8080
"#;
        let mut parser = make_parser();
        let tree = parser.parse(source, None).expect("parse failed");
        let lang = YamlLanguage;
        let result = lang.extract(source, &tree);

        assert!(
            !result.symbols.is_empty(),
            "expected symbols from nested YAML"
        );
    }

    #[test]
    fn yaml_test_empty_source() {
        let source = "";
        let mut parser = make_parser();
        let tree = parser.parse(source, None).unwrap();
        let lang = YamlLanguage;
        let result = lang.extract(source, &tree);
        assert!(result.symbols.is_empty());
        assert!(result.imports.is_empty());
        assert!(result.exports.is_empty());
    }

    #[test]
    fn test_complex_yaml() {
        let source = r#"apiVersion: v1
kind: Deployment
metadata:
  name: my-app
  labels:
    app: my-app
spec:
  replicas: 3
  template:
    spec:
      containers:
        - name: app
          image: my-app:latest
"#;
        let mut parser = make_parser();
        let tree = parser.parse(source, None).expect("parse failed");
        let lang = YamlLanguage;
        let result = lang.extract(source, &tree);

        assert!(
            !result.symbols.is_empty(),
            "expected symbols from complex YAML"
        );
    }

    #[test]
    fn yaml_test_symbol_kinds() {
        let source = "key: value\n";
        let mut parser = make_parser();
        let tree = parser.parse(source, None).expect("parse failed");
        let lang = YamlLanguage;
        let result = lang.extract(source, &tree);

        assert!(!result.symbols.is_empty(), "expected at least one symbol");
        // Keys should be Key or Block
        assert!(
            result
                .symbols
                .iter()
                .all(|s| s.kind == SymbolKind::Key || s.kind == SymbolKind::Block),
            "all YAML symbols should be Key or Block"
        );
        assert!(
            result
                .symbols
                .iter()
                .all(|s| s.visibility == Visibility::Public),
            "all YAML symbols should be public"
        );
    }

    #[test]
    fn test_multi_document() {
        // Tests the second document path (doc_node.kind() == "block_node" at line 162)
        let source = "a: 1\n---\nb: 2\n";
        let mut parser = make_parser();
        let tree = parser.parse(source, None).expect("parse failed");
        let lang = YamlLanguage;
        let result = lang.extract(source, &tree);

        let names: Vec<_> = result.symbols.iter().map(|s| s.name.as_str()).collect();
        assert!(names.contains(&"a"), "expected key 'a', got: {:?}", names);
        assert!(names.contains(&"b"), "expected key 'b', got: {:?}", names);
    }

    #[test]
    fn test_quoted_keys() {
        let source = "\"quoted_key\": value1\n'single_quoted': value2\n";
        let mut parser = make_parser();
        let tree = parser.parse(source, None).expect("parse failed");
        let lang = YamlLanguage;
        let result = lang.extract(source, &tree);

        assert!(
            !result.symbols.is_empty(),
            "expected symbols from quoted keys"
        );
    }

    #[test]
    fn test_nested_block_kind() {
        // Nested mapping should produce Block kind at top level
        let source = "parent:\n  child: value\n";
        let mut parser = make_parser();
        let tree = parser.parse(source, None).expect("parse failed");
        let lang = YamlLanguage;
        let result = lang.extract(source, &tree);

        assert!(!result.symbols.is_empty(), "expected symbols");
        let parent = result.symbols.iter().find(|s| s.name == "parent");
        assert!(parent.is_some(), "expected 'parent' symbol");
        assert_eq!(
            parent.unwrap().kind,
            SymbolKind::Block,
            "top-level nested mapping should be Block"
        );
    }

    #[test]
    fn test_flat_key_kind() {
        // Flat key:value should produce Key kind
        let source = "simple: value\n";
        let mut parser = make_parser();
        let tree = parser.parse(source, None).expect("parse failed");
        let lang = YamlLanguage;
        let result = lang.extract(source, &tree);

        assert!(!result.symbols.is_empty(), "expected symbols");
        assert_eq!(
            result.symbols[0].kind,
            SymbolKind::Key,
            "flat key should be Key kind"
        );
    }

    #[test]
    fn yaml_test_no_imports_exports() {
        let source = "a: 1\nb: 2\n";
        let mut parser = make_parser();
        let tree = parser.parse(source, None).expect("parse failed");
        let lang = YamlLanguage;
        let result = lang.extract(source, &tree);
        assert!(result.imports.is_empty(), "yaml should have no imports");
        assert!(result.exports.is_empty(), "yaml should have no exports");
    }
