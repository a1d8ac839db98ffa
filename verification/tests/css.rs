#![allow(unused_imports, dead_code, unused_variables, unused_mut)]
use codemap::parser::language::{Export, Import, LanguageSupport, ParseResult, Symbol, SymbolKind, Visibility};
use codemap::parser::languages::css::CssLanguage;
use codemap::syntax::{SyntaxNode, SyntaxTree};
use codemap::treesitter::TreeParser;
    fn make_parser() -> TreeParser {
        let mut parser = TreeParser::new();
        parser
            .set_language(&tree_sitter_css::LANGUAGE.into())
            .expect("failed to set language");
        parser
    }

    #[test]
    fn test_extract_selectors() {
        let source = r#"body {
    margin: 0;
    padding: 0;
}

.container {
    max-width: 1200px;
}

#header {
    background: blue;
}
"#;
        let mut parser = make_parser();
        let tree = parser.parse(source, None).expect("parse failed");
        let lang = CssLanguage;
        let result = lang.extract(source, &tree);

        let selectors: Vec<_> = result
            .symbols
            .iter()
            .filter(|s| s.kind == SymbolKind::Selector)
            .collect();
        assert!(
            selectors.len() >= 3,
            "expected at least 3 selectors, got: {:?}",
            selectors.iter().map(|s| &s.name).collect::<Vec<_>>()
        );
        assert!(selectors.iter().any(|s| s.name == "body"));
        assert!(selectors.iter().any(|s| s.name == ".container"));
        assert!(selectors.iter().any(|s| s.name == "#header"));
    }

    #[test]
    fn test_extract_media_rule() {
        let source = r#"@media (max-width: 768px) {
    .container {
        width: 100%;
    }
}
"#;
        let mut parser = make_parser();
        let tree = parser.parse(source, None).expect("parse failed");
        let lang = CssLanguage;
        let result = lang.extract(source, &tree);

        let rules: Vec<_> = result
            .symbols
            .iter()
            .filter(|s| s.kind == SymbolKind::Rule)
            .collect();
        assert!(!rules.is_empty(), "expected media rule");
        assert!(rules[0].name.contains("media"));
    }

    #[test]
    fn css_test_extract_import() {
        let source = r#"@import "reset.css";
@import url("typography.css");

body {
    font-size: 16px;
}
"#;
        let mut parser = make_parser();
        let tree = parser.parse(source, None).expect("parse failed");
        let lang = CssLanguage;
        let result = lang.extract(source, &tree);

        assert!(
            !result.imports.is_empty(),
            "expected at least one import, got: {:?}",
            result.imports
        );
    }

    #[test]
    fn css_test_empty_source() {
        let source = "";
        let mut parser = make_parser();
        let tree = parser.parse(source, None).unwrap();
        let lang = CssLanguage;
        let result = lang.extract(source, &tree);
        assert!(result.symbols.is_empty());
        assert!(result.imports.is_empty());
    }

    #[test]
    fn test_custom_property_variable() {
        let source = r#":root {
    --primary-color: #007bff;
    --font-size: 16px;
}
"#;
        let mut parser = make_parser();
        let tree = parser.parse(source, None).expect("parse failed");
        let lang = CssLanguage;
        let result = lang.extract(source, &tree);

        let vars: Vec<_> = result
            .symbols
            .iter()
            .filter(|s| s.kind == SymbolKind::Variable)
            .collect();
        assert!(
            vars.len() >= 2,
            "expected at least 2 CSS variables, got: {:?}",
            vars.iter().map(|v| &v.name).collect::<Vec<_>>()
        );
    }

    #[test]
    fn css_test_symbol_kinds() {
        let source = r#"@keyframes fadeIn {
    from { opacity: 0; }
    to { opacity: 1; }
}

.btn {
    color: red;
}
"#;
        let mut parser = make_parser();
        let tree = parser.parse(source, None).expect("parse failed");
        let lang = CssLanguage;
        let result = lang.extract(source, &tree);

        let has_rule = result.symbols.iter().any(|s| s.kind == SymbolKind::Rule);
        let has_selector = result
            .symbols
            .iter()
            .any(|s| s.kind == SymbolKind::Selector);
        assert!(has_rule, "expected Rule symbol kind");
        assert!(has_selector, "expected Selector symbol kind");

        // All should be Public
        assert!(
            result
                .symbols
                .iter()
                .all(|s| s.visibility == Visibility::Public),
            "all CSS symbols should be public"
        );
    }

    #[test]
    fn test_charset_statement() {
        let source = "@charset \"UTF-8\";\n";
        let mut parser = make_parser();
        let tree = parser.parse(source, None).expect("parse failed");
        let lang = CssLanguage;
        let result = lang.extract(source, &tree);

        let rules: Vec<_> = result
            .symbols
            .iter()
            .filter(|s| s.kind == SymbolKind::Rule)
            .collect();
        assert!(!rules.is_empty(), "expected @charset rule");
        assert!(rules[0].name.contains("charset"));
    }

    #[test]
    fn test_namespace_statement() {
        let source = "@namespace svg url(http://www.w3.org/2000/svg);\n";
        let mut parser = make_parser();
        let tree = parser.parse(source, None).expect("parse failed");
        let lang = CssLanguage;
        let result = lang.extract(source, &tree);

        let rules: Vec<_> = result
            .symbols
            .iter()
            .filter(|s| s.kind == SymbolKind::Rule)
            .collect();
        assert!(!rules.is_empty(), "expected @namespace rule");
        assert!(rules[0].name.contains("namespace"));
    }

    #[test]
    fn test_supports_statement() {
        let source = "@supports (display: grid) {\n  .grid { display: grid; }\n}\n";
        let mut parser = make_parser();
        let tree = parser.parse(source, None).expect("parse failed");
        let lang = CssLanguage;
        let result = lang.extract(source, &tree);

        let rules: Vec<_> = result
            .symbols
            .iter()
            .filter(|s| s.kind == SymbolKind::Rule)
            .collect();
        assert!(!rules.is_empty(), "expected @supports rule");
        assert!(rules[0].name.contains("supports"));
    }

    #[test]
    fn test_import_url_form() {
        let source = "@import url(\"typography.css\");\n";
        let mut parser = make_parser();
        let tree = parser.parse(source, None).expect("parse failed");
        let lang = CssLanguage;
        let result = lang.extract(source, &tree);

        assert!(
            !result.imports.is_empty(),
            "expected import from url() form"
        );
    }

    #[test]
    fn test_nested_block_variables() {
        // Custom properties inside a nested block (e.g., media query)
        let source = r#".container {
    --spacing: 10px;
}
"#;
        let mut parser = make_parser();
        let tree = parser.parse(source, None).expect("parse failed");
        let lang = CssLanguage;
        let result = lang.extract(source, &tree);

        let vars: Vec<_> = result
            .symbols
            .iter()
            .filter(|s| s.kind == SymbolKind::Variable)
            .collect();
        assert!(!vars.is_empty(), "expected CSS variable from nested block");
        assert!(vars[0].name.starts_with("--"));
    }

    #[test]
    fn test_non_custom_property_ignored() {
        // Regular declarations (not --custom) should not produce Variable symbols
        let source = ":root {\n    color: red;\n}\n";
        let mut parser = make_parser();
        let tree = parser.parse(source, None).expect("parse failed");
        let lang = CssLanguage;
        let result = lang.extract(source, &tree);

        let vars: Vec<_> = result
            .symbols
            .iter()
            .filter(|s| s.kind == SymbolKind::Variable)
            .collect();
        assert!(
            vars.is_empty(),
            "regular CSS properties should not produce Variable symbols"
        );
    }

    #[test]
    fn test_complex_css() {
        let source = r#"@import "base.css";

:root {
    --bg: #fff;
}

body {
    background: var(--bg);
}

@media (min-width: 1024px) {
    .container {
        max-width: 960px;
    }
}

h1, h2, h3 {
    font-weight: bold;
}
"#;
        let mut parser = make_parser();
        let tree = parser.parse(source, None).expect("parse failed");
        let lang = CssLanguage;
        let result = lang.extract(source, &tree);

        assert!(
            !result.symbols.is_empty(),
            "expected symbols from complex CSS"
        );
        assert!(
            !result.imports.is_empty(),
            "expected import from complex CSS"
        );
    }
