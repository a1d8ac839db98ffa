#![allow(unused_imports, dead_code, unused_variables, unused_mut)]
use codemap::parser::language::{Export, Import, LanguageSupport, ParseResult, Symbol, SymbolKind, Visibility};
use codemap::parser::languages::xml::XmlLanguage;
use codemap::syntax::{SyntaxNode, SyntaxTree};
use codemap::treesitter::TreeParser;
    fn make_parser() -> TreeParser {
        let mut parser = TreeParser::new();
        parser
            .set_language(&tree_sitter_xml::LANGUAGE_XML.into())
            .expect("failed to set language");
        parser
    }

    #[test]
    fn xml_test_extract_top_level_elements() {
        let source = r#"<?xml version="1.0"?>
<root>
  <item>Hello</item>
  <item>World</item>
</root>
"#;
        let mut parser = make_parser();
        let tree = parser.parse(source, None).expect("parse failed");
        let lang = XmlLanguage;
        let result = lang.extract(source, &tree);

        let elements: Vec<_> = result
            .symbols
            .iter()
            .filter(|s| s.kind == SymbolKind::Element)
            .collect();
        assert!(
            !elements.is_empty(),
            "expected at least root element, got symbols: {:?}",
            result
                .symbols
                .iter()
                .map(|s| (&s.name, &s.kind))
                .collect::<Vec<_>>()
        );
        assert_eq!(elements[0].visibility, Visibility::Public);
    }

    #[test]
    fn test_extract_nested_elements() {
        let source = r#"<?xml version="1.0"?>
<project>
  <dependencies>
    <dependency>junit</dependency>
  </dependencies>
  <build>
    <plugins>
      <plugin>maven-compiler</plugin>
    </plugins>
  </build>
</project>
"#;
        let mut parser = make_parser();
        let tree = parser.parse(source, None).expect("parse failed");
        let lang = XmlLanguage;
        let result = lang.extract(source, &tree);

        let elements: Vec<_> = result
            .symbols
            .iter()
            .filter(|s| s.kind == SymbolKind::Element)
            .collect();
        assert!(
            elements.len() >= 3,
            "expected at least project, dependencies, build, got: {:?}",
            elements.iter().map(|e| &e.name).collect::<Vec<_>>()
        );
    }

    #[test]
    fn xml_test_empty_source() {
        let source = "";
        let mut parser = make_parser();
        let tree = parser.parse(source, None).unwrap();
        let lang = XmlLanguage;
        let result = lang.extract(source, &tree);
        assert!(result.symbols.is_empty());
        assert!(result.imports.is_empty());
        assert!(result.exports.is_empty());
    }

    #[test]
    fn test_self_closing_elements() {
        // Self-closing elements (`<br/>`) exercise the EmptyElemTag branch
        // in extract_tag_name and the depth-limiting logic.
        let source = r#"<?xml version="1.0"?>
<root>
  <item/>
  <other attr="val"/>
</root>
"#;
        let mut parser = make_parser();
        let tree = parser.parse(source, None).expect("parse failed");
        let lang = XmlLanguage;
        let result = lang.extract(source, &tree);

        let elements: Vec<_> = result
            .symbols
            .iter()
            .filter(|s| s.kind == SymbolKind::Element)
            .collect();
        assert!(
            elements.len() >= 2,
            "expected root + self-closing elements, got: {:?}",
            elements.iter().map(|e| &e.name).collect::<Vec<_>>()
        );
    }

    #[test]
    fn test_depth_limit_exceeded() {
        // Deeply nested XML exercises the `current_depth > max_depth` early return.
        let source = r#"<?xml version="1.0"?>
<a>
  <b>
    <c>
      <d>
        <e>deep</e>
      </d>
    </c>
  </b>
</a>
"#;
        let mut parser = make_parser();
        let tree = parser.parse(source, None).expect("parse failed");
        let lang = XmlLanguage;
        let result = lang.extract(source, &tree);

        let elements: Vec<_> = result
            .symbols
            .iter()
            .filter(|s| s.kind == SymbolKind::Element)
            .collect();
        // With max_depth=2, we get a, b, c but NOT d or e
        assert!(
            elements.len() >= 2 && elements.len() <= 4,
            "expected depth-limited elements, got {}: {:?}",
            elements.len(),
            elements.iter().map(|e| &e.name).collect::<Vec<_>>()
        );
    }

    #[test]
    fn test_complex_xml() {
        let source = r#"<?xml version="1.0" encoding="UTF-8"?>
<configuration>
  <appSettings>
    <add key="DatabaseHost" value="localhost"/>
    <add key="DatabasePort" value="5432"/>
  </appSettings>
  <connectionStrings>
    <add name="Default" connectionString="Server=localhost;Database=mydb"/>
  </connectionStrings>
  <system.web>
    <compilation debug="true"/>
  </system.web>
</configuration>
"#;
        let mut parser = make_parser();
        let tree = parser.parse(source, None).expect("parse failed");
        let lang = XmlLanguage;
        let result = lang.extract(source, &tree);

        let elements: Vec<_> = result
            .symbols
            .iter()
            .filter(|s| s.kind == SymbolKind::Element)
            .collect();
        assert!(
            elements.len() >= 3,
            "expected multiple elements, got: {:?}",
            elements.iter().map(|e| &e.name).collect::<Vec<_>>()
        );

        // The root element should be "configuration"
        assert!(
            elements.iter().any(|e| e.name == "configuration"),
            "expected 'configuration' element, got: {:?}",
            elements.iter().map(|e| &e.name).collect::<Vec<_>>()
        );
    }
