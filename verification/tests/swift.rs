#![allow(unused_imports, dead_code, unused_variables, unused_mut)]
use codemap::parser::language::{Export, Import, LanguageSupport, ParseResult, Symbol, SymbolKind, Visibility};
use codemap::parser::languages::swift::SwiftLanguage;
use codemap::syntax::{SyntaxNode, SyntaxTree};
use codemap::treesitter::TreeParser;
    fn make_parser() -> TreeParser {
        let mut parser = TreeParser::new();
        parser
            .set_language(&tree_sitter_swift::LANGUAGE.into())
            .expect("failed to set language");
        parser
    }

    #[test]
    fn swift_test_extract_public_function() {
        let source = r#"public func greet(name: String) -> String {
    return "Hello, \(name)!"
}
"#;
        let mut parser = make_parser();
        let tree = parser.parse(source, None).expect("parse failed");
        let lang = SwiftLanguage;
        let result = lang.extract(source, &tree);

        let funcs: Vec<_> = result
            .symbols
            .iter()
            .filter(|s| s.kind == SymbolKind::Function)
            .collect();
        assert!(!funcs.is_empty(), "expected function symbol");
        assert_eq!(funcs[0].name, "greet");
        assert_eq!(funcs[0].visibility, Visibility::Public);

        let exported: Vec<_> = result
            .exports
            .iter()
            .filter(|e| e.name == "greet")
            .collect();
        assert!(!exported.is_empty(), "greet should be exported");
    }

    #[test]
    fn swift_test_extract_struct() {
        let source = r#"public struct Point {
    var x: Double
    var y: Double
}
"#;
        let mut parser = make_parser();
        let tree = parser.parse(source, None).expect("parse failed");
        let lang = SwiftLanguage;
        let result = lang.extract(source, &tree);

        let structs: Vec<_> = result
            .symbols
            .iter()
            .filter(|s| s.kind == SymbolKind::Struct)
            .collect();
        assert!(!structs.is_empty(), "expected struct symbol");
        assert_eq!(structs[0].name, "Point");
        assert_eq!(structs[0].visibility, Visibility::Public);
    }

    #[test]
    fn swift_test_extract_import() {
        let source = r#"import Foundation
import UIKit
"#;
        let mut parser = make_parser();
        let tree = parser.parse(source, None).expect("parse failed");
        let lang = SwiftLanguage;
        let result = lang.extract(source, &tree);

        assert_eq!(
            result.imports.len(),
            2,
            "expected 2 imports, got {:?}",
            result.imports
        );
        let sources: Vec<&str> = result.imports.iter().map(|i| i.source.as_str()).collect();
        assert!(
            sources.contains(&"Foundation"),
            "expected Foundation import, got: {:?}",
            sources
        );
        assert!(
            sources.contains(&"UIKit"),
            "expected UIKit import, got: {:?}",
            sources
        );
    }

    #[test]
    fn test_extract_protocol() {
        let source = "public protocol Equatable {\n    func isEqual(to other: Self) -> Bool\n}\n";
        let mut parser = make_parser();
        let tree = parser.parse(source, None).unwrap();
        let lang = SwiftLanguage;
        let result = lang.extract(source, &tree);
        let protocols: Vec<_> = result
            .symbols
            .iter()
            .filter(|s| s.kind == SymbolKind::Trait)
            .collect();
        assert!(!protocols.is_empty(), "expected protocol symbol");
        assert_eq!(protocols[0].name, "Equatable");
        assert_eq!(protocols[0].visibility, Visibility::Public);
    }

    #[test]
    fn swift_test_extract_class() {
        let source = "public class Animal {\n    var name: String = \"\"\n}\n";
        let mut parser = make_parser();
        let tree = parser.parse(source, None).unwrap();
        let lang = SwiftLanguage;
        let result = lang.extract(source, &tree);
        let classes: Vec<_> = result
            .symbols
            .iter()
            .filter(|s| s.kind == SymbolKind::Class)
            .collect();
        assert!(!classes.is_empty(), "expected class symbol");
        assert_eq!(classes[0].name, "Animal");
        assert_eq!(classes[0].visibility, Visibility::Public);
    }

    #[test]
    fn swift_test_extract_enum() {
        let source = "public enum Compass {\n    case north\n    case south\n    case east\n    case west\n}\n";
        let mut parser = make_parser();
        let tree = parser.parse(source, None).unwrap();
        let lang = SwiftLanguage;
        let result = lang.extract(source, &tree);
        let enums: Vec<_> = result
            .symbols
            .iter()
            .filter(|s| s.kind == SymbolKind::Enum)
            .collect();
        assert!(!enums.is_empty(), "expected enum symbol");
        assert_eq!(enums[0].name, "Compass");
        assert_eq!(enums[0].visibility, Visibility::Public);
    }

    #[test]
    fn swift_test_extract_private_function() {
        let source = "func helper() -> Int {\n    return 42\n}\n";
        let mut parser = make_parser();
        let tree = parser.parse(source, None).unwrap();
        let lang = SwiftLanguage;
        let result = lang.extract(source, &tree);
        let funcs: Vec<_> = result
            .symbols
            .iter()
            .filter(|s| s.kind == SymbolKind::Function)
            .collect();
        assert!(!funcs.is_empty());
        assert_eq!(funcs[0].name, "helper");
        assert_eq!(funcs[0].visibility, Visibility::Private);
        assert!(
            result.exports.is_empty(),
            "internal function should not be exported"
        );
    }

    #[test]
    fn test_extract_private_protocol() {
        let source = "protocol InternalProtocol {\n    func doWork()\n}\n";
        let mut parser = make_parser();
        let tree = parser.parse(source, None).unwrap();
        let lang = SwiftLanguage;
        let result = lang.extract(source, &tree);
        let protocols: Vec<_> = result
            .symbols
            .iter()
            .filter(|s| s.kind == SymbolKind::Trait)
            .collect();
        assert!(!protocols.is_empty());
        assert_eq!(protocols[0].visibility, Visibility::Private);
    }

    #[test]
    fn swift_test_empty_source() {
        let source = "";
        let mut parser = make_parser();
        let tree = parser.parse(source, None).unwrap();
        let lang = SwiftLanguage;
        let result = lang.extract(source, &tree);
        assert!(result.symbols.is_empty());
        assert!(result.imports.is_empty());
        assert!(result.exports.is_empty());
    }

    #[test]
    fn test_extract_function_signature_and_body() {
        let source = "public func add(a: Int, b: Int) -> Int {\n    return a + b\n}\n";
        let mut parser = make_parser();
        let tree = parser.parse(source, None).unwrap();
        let lang = SwiftLanguage;
        let result = lang.extract(source, &tree);
        let funcs: Vec<_> = result
            .symbols
            .iter()
            .filter(|s| s.kind == SymbolKind::Function)
            .collect();
        assert!(!funcs.is_empty());
        assert!(!funcs[0].signature.is_empty(), "expected signature");
        assert!(!funcs[0].body.is_empty(), "expected body");
    }

    #[test]
    fn test_extract_multiple_imports() {
        let source = "import Foundation\nimport UIKit\nimport SwiftUI\n";
        let mut parser = make_parser();
        let tree = parser.parse(source, None).unwrap();
        let lang = SwiftLanguage;
        let result = lang.extract(source, &tree);
        assert_eq!(result.imports.len(), 3);
    }

    #[test]
    fn test_extract_open_class() {
        let source = "open class Base {\n    open func override_me() {}\n}\n";
        let mut parser = make_parser();
        let tree = parser.parse(source, None).unwrap();
        let lang = SwiftLanguage;
        let result = lang.extract(source, &tree);
        let classes: Vec<_> = result
            .symbols
            .iter()
            .filter(|s| s.kind == SymbolKind::Class)
            .collect();
        assert!(!classes.is_empty());
        assert_eq!(
            classes[0].visibility,
            Visibility::Public,
            "open should be treated as public"
        );
    }

    #[test]
    fn test_extract_import_with_kind() {
        let source = "import class Foundation.NSString\nimport func Darwin.exit\n";
        let mut parser = make_parser();
        let tree = parser.parse(source, None).unwrap();
        let lang = SwiftLanguage;
        let result = lang.extract(source, &tree);

        assert_eq!(result.imports.len(), 2, "expected 2 imports");
        let sources: Vec<&str> = result.imports.iter().map(|i| i.source.as_str()).collect();
        assert!(
            sources.iter().any(|s| s.contains("Foundation")),
            "expected Foundation import, got: {:?}",
            sources
        );
        assert!(
            sources.iter().any(|s| s.contains("Darwin")),
            "expected Darwin import, got: {:?}",
            sources
        );
    }

    #[test]
    fn test_extract_struct_via_class_declaration() {
        let source = "public struct Point {\n    var x: Int\n    var y: Int\n}\n";
        let mut parser = make_parser();
        let tree = parser.parse(source, None).unwrap();
        let lang = SwiftLanguage;
        let result = lang.extract(source, &tree);

        let structs: Vec<_> = result
            .symbols
            .iter()
            .filter(|s| s.kind == SymbolKind::Struct)
            .collect();
        assert!(
            !structs.is_empty(),
            "expected struct symbol, got kinds: {:?}",
            result
                .symbols
                .iter()
                .map(|s| (&s.name, &s.kind))
                .collect::<Vec<_>>()
        );
        assert_eq!(structs[0].name, "Point");
    }

    #[test]
    fn test_import_with_kind_qualifier() {
        // "import class Foundation.NSString" should strip the kind qualifier
        let source = "import class Foundation.NSString\n";
        let mut parser = make_parser();
        let tree = parser.parse(source, None).unwrap();
        let lang = SwiftLanguage;
        let result = lang.extract(source, &tree);

        assert_eq!(result.imports.len(), 1, "expected 1 import");
        // The import kind "class" should be stripped, leaving "Foundation.NSString"
        let imp = &result.imports[0];
        assert!(
            imp.source.contains("Foundation"),
            "expected Foundation in source, got: {}",
            imp.source
        );
    }

    #[test]
    fn test_import_with_func_kind() {
        let source = "import func Darwin.C.isatty\n";
        let mut parser = make_parser();
        let tree = parser.parse(source, None).unwrap();
        let lang = SwiftLanguage;
        let result = lang.extract(source, &tree);

        assert_eq!(result.imports.len(), 1);
        let imp = &result.imports[0];
        assert!(
            imp.source.contains("Darwin"),
            "expected Darwin in source, got: {}",
            imp.source
        );
    }

    #[test]
    fn test_enum_declaration() {
        let source = "public enum Direction {\n    case north\n    case south\n}\n";
        let mut parser = make_parser();
        let tree = parser.parse(source, None).unwrap();
        let lang = SwiftLanguage;
        let result = lang.extract(source, &tree);

        let enums: Vec<_> = result
            .symbols
            .iter()
            .filter(|s| s.kind == SymbolKind::Enum)
            .collect();
        assert!(
            !enums.is_empty(),
            "expected enum symbol, got: {:?}",
            result
                .symbols
                .iter()
                .map(|s| (&s.name, &s.kind))
                .collect::<Vec<_>>()
        );
        assert_eq!(enums[0].name, "Direction");
        assert_eq!(enums[0].visibility, Visibility::Public);
    }

    #[test]
    fn test_function_without_body_field() {
        // A function signature in a protocol has no body — triggers fallback paths
        let source = "protocol P {\n    func doWork(x: Int) -> String\n}\n";
        let mut parser = make_parser();
        let tree = parser.parse(source, None).unwrap();
        let lang = SwiftLanguage;
        let result = lang.extract(source, &tree);

        // The protocol should be extracted even though inner functions have no body
        assert!(!result.symbols.is_empty(), "expected symbols from protocol");
    }

    #[test]
    fn test_protocol_method_no_body() {
        let source = "public protocol Drawable {\n    func draw()\n    func resize(to: Int)\n}\n";
        let mut parser = make_parser();
        let tree = parser.parse(source, None).unwrap();
        let lang = SwiftLanguage;
        let result = lang.extract(source, &tree);

        let protocols: Vec<_> = result
            .symbols
            .iter()
            .filter(|s| s.kind == SymbolKind::Trait)
            .collect();
        assert!(!protocols.is_empty());
        assert_eq!(protocols[0].name, "Drawable");
        assert_eq!(protocols[0].visibility, Visibility::Public);
    }

    #[test]
    fn test_empty_import_path() {
        // Covers the empty import path returning None (line 131)
        let source = "import\n";
        let mut parser = make_parser();
        let tree = parser.parse(source, None).unwrap();
        let lang = SwiftLanguage;
        let result = lang.extract(source, &tree);
        // Parser may produce an error node; imports should be empty or ignored
        let _ = result;
    }

    #[test]
    fn test_class_without_declaration_kind_field() {
        // Covers the class_declaration_kind default return (line 96)
        // A plain class should hit the default SymbolKind::Class path
        let source = "class SimpleClass {\n    var x = 0\n}\n";
        let mut parser = make_parser();
        let tree = parser.parse(source, None).unwrap();
        let lang = SwiftLanguage;
        let result = lang.extract(source, &tree);
        let classes: Vec<_> = result
            .symbols
            .iter()
            .filter(|s| s.kind == SymbolKind::Class)
            .collect();
        assert!(!classes.is_empty(), "expected class symbol");
        assert_eq!(classes[0].name, "SimpleClass");
    }

    #[test]
    fn test_function_body_via_code_block() {
        // Triggers the code_block fallback in extract_fn_body (lines 57-61)
        let source = "func compute() {\n    let x = 1 + 2\n    print(x)\n}\n";
        let mut parser = make_parser();
        let tree = parser.parse(source, None).unwrap();
        let lang = SwiftLanguage;
        let result = lang.extract(source, &tree);
        let fns: Vec<_> = result
            .symbols
            .iter()
            .filter(|s| s.kind == SymbolKind::Function)
            .collect();
        assert!(!fns.is_empty());
    }
