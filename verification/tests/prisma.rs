#![allow(unused_imports, dead_code, unused_variables, unused_mut)]
use codemap::parser::language::{Export, Import, LanguageSupport, ParseResult, Symbol, SymbolKind, Visibility};
use codemap::parser::languages::prisma::PrismaLanguage;
use codemap::syntax::{SyntaxNode, SyntaxTree};
use codemap::treesitter::TreeParser;
    fn make_parser() -> TreeParser {
        let mut parser = TreeParser::new();
        parser
            .set_language(&tree_sitter_prisma_io::LANGUAGE.into())
            .expect("failed to set language");
        parser
    }

    #[test]
    fn test_extract_model() {
        let source = r#"model User {
  id    Int     @id @default(autoincrement())
  email String  @unique
  name  String?
}
"#;
        let mut parser = make_parser();
        let tree = parser.parse(source, None).expect("parse failed");
        let lang = PrismaLanguage;
        let result = lang.extract(source, &tree);

        assert_eq!(result.symbols.len(), 1);
        let sym = &result.symbols[0];
        assert_eq!(sym.name, "User");
        assert_eq!(sym.kind, SymbolKind::Struct);
        assert_eq!(sym.visibility, Visibility::Public);
        assert!(sym.signature.contains("model User"));
        assert!(sym.body.contains("email"));
        assert_eq!(sym.start_line, 1);
        assert!(sym.end_line >= 5);
    }

    #[test]
    fn prisma_test_extract_enum() {
        let source = r#"enum Role {
  USER
  ADMIN
}
"#;
        let mut parser = make_parser();
        let tree = parser.parse(source, None).expect("parse failed");
        let lang = PrismaLanguage;
        let result = lang.extract(source, &tree);

        assert_eq!(result.symbols.len(), 1);
        let sym = &result.symbols[0];
        assert_eq!(sym.name, "Role");
        assert_eq!(sym.kind, SymbolKind::Enum);
        assert_eq!(sym.visibility, Visibility::Public);
        assert!(sym.signature.contains("enum Role"));
    }

    #[test]
    fn test_extract_datasource() {
        let source = r#"datasource db {
  provider = "postgresql"
  url      = env("DATABASE_URL")
}
"#;
        let mut parser = make_parser();
        let tree = parser.parse(source, None).expect("parse failed");
        let lang = PrismaLanguage;
        let result = lang.extract(source, &tree);

        assert_eq!(result.symbols.len(), 1);
        let sym = &result.symbols[0];
        assert_eq!(sym.name, "db");
        assert_eq!(sym.kind, SymbolKind::Block);
        assert_eq!(sym.visibility, Visibility::Public);
        assert!(sym.signature.contains("datasource db"));
    }

    #[test]
    fn test_extract_generator() {
        let source = r#"generator client {
  provider = "prisma-client-js"
}
"#;
        let mut parser = make_parser();
        let tree = parser.parse(source, None).expect("parse failed");
        let lang = PrismaLanguage;
        let result = lang.extract(source, &tree);

        assert_eq!(result.symbols.len(), 1);
        let sym = &result.symbols[0];
        assert_eq!(sym.name, "client");
        assert_eq!(sym.kind, SymbolKind::Block);
        assert!(sym.signature.contains("generator client"));
    }

    #[test]
    fn prisma_test_extract_type_alias() {
        let source = r#"type Address {
  street String
  city   String
  zip    String
}
"#;
        let mut parser = make_parser();
        let tree = parser.parse(source, None).expect("parse failed");
        let lang = PrismaLanguage;
        let result = lang.extract(source, &tree);

        assert_eq!(result.symbols.len(), 1);
        let sym = &result.symbols[0];
        assert_eq!(sym.name, "Address");
        assert_eq!(sym.kind, SymbolKind::TypeAlias);
        assert!(sym.signature.contains("type Address"));
    }

    #[test]
    fn prisma_test_empty_source() {
        let source = "";
        let mut parser = make_parser();
        let tree = parser.parse(source, None).unwrap();
        let lang = PrismaLanguage;
        let result = lang.extract(source, &tree);
        assert!(result.symbols.is_empty());
        assert!(result.imports.is_empty());
        assert!(result.exports.is_empty());
    }

    #[test]
    fn prisma_test_complex_schema() {
        let source = r#"datasource db {
  provider = "postgresql"
  url      = env("DATABASE_URL")
}

generator client {
  provider = "prisma-client-js"
}

model User {
  id    Int     @id @default(autoincrement())
  email String  @unique
  name  String?
  posts Post[]
  role  Role    @default(USER)
}

model Post {
  id        Int     @id @default(autoincrement())
  title     String
  content   String?
  published Boolean @default(false)
  author    User    @relation(fields: [authorId], references: [id])
  authorId  Int
}

enum Role {
  USER
  ADMIN
}

type Address {
  street String
  city   String
  zip    String
}
"#;
        let mut parser = make_parser();
        let tree = parser.parse(source, None).expect("parse failed");
        let lang = PrismaLanguage;
        let result = lang.extract(source, &tree);

        // datasource (Block) + generator (Block) + 2 models (Struct) + 1 enum + 1 type alias = 6
        assert_eq!(
            result.symbols.len(),
            6,
            "expected 6 symbols, got: {:?}",
            result
                .symbols
                .iter()
                .map(|s| (&s.name, &s.kind))
                .collect::<Vec<_>>()
        );

        let blocks: Vec<_> = result
            .symbols
            .iter()
            .filter(|s| s.kind == SymbolKind::Block)
            .collect();
        assert_eq!(blocks.len(), 2);

        let structs: Vec<_> = result
            .symbols
            .iter()
            .filter(|s| s.kind == SymbolKind::Struct)
            .collect();
        assert_eq!(structs.len(), 2);

        let enums: Vec<_> = result
            .symbols
            .iter()
            .filter(|s| s.kind == SymbolKind::Enum)
            .collect();
        assert_eq!(enums.len(), 1);

        let type_aliases: Vec<_> = result
            .symbols
            .iter()
            .filter(|s| s.kind == SymbolKind::TypeAlias)
            .collect();
        assert_eq!(type_aliases.len(), 1);
    }

    #[test]
    fn test_model_with_relations() {
        let source = r#"model Post {
  id        Int     @id @default(autoincrement())
  title     String
  author    User    @relation(fields: [authorId], references: [id])
  authorId  Int
  tags      Tag[]   @relation("PostTags")
}
"#;
        let mut parser = make_parser();
        let tree = parser.parse(source, None).expect("parse failed");
        let lang = PrismaLanguage;
        let result = lang.extract(source, &tree);

        assert_eq!(result.symbols.len(), 1);
        let sym = &result.symbols[0];
        assert_eq!(sym.name, "Post");
        assert_eq!(sym.kind, SymbolKind::Struct);
        // Fields are NOT extracted as separate symbols
        assert!(sym.body.contains("@relation"));
    }

    #[test]
    fn test_multiple_models() {
        let source = r#"model User {
  id   Int    @id
  name String
}

model Post {
  id    Int    @id
  title String
}

model Comment {
  id   Int    @id
  text String
}
"#;
        let mut parser = make_parser();
        let tree = parser.parse(source, None).expect("parse failed");
        let lang = PrismaLanguage;
        let result = lang.extract(source, &tree);

        let models: Vec<_> = result
            .symbols
            .iter()
            .filter(|s| s.kind == SymbolKind::Struct)
            .collect();
        assert_eq!(models.len(), 3);

        let names: Vec<&str> = models.iter().map(|m| m.name.as_str()).collect();
        assert!(names.contains(&"User"));
        assert!(names.contains(&"Post"));
        assert!(names.contains(&"Comment"));
    }

    #[test]
    fn prisma_test_no_imports_exports() {
        let source = r#"model User {
  id   Int    @id
  name String
}

enum Role {
  ADMIN
}
"#;
        let mut parser = make_parser();
        let tree = parser.parse(source, None).expect("parse failed");
        let lang = PrismaLanguage;
        let result = lang.extract(source, &tree);

        assert!(
            result.imports.is_empty(),
            "Prisma should never have imports"
        );
        assert!(
            result.exports.is_empty(),
            "Prisma should never have exports"
        );
    }

    #[test]
    fn test_model_name_extraction() {
        let source = r#"model MyVeryLongModelName {
  id Int @id
}
"#;
        let mut parser = make_parser();
        let tree = parser.parse(source, None).expect("parse failed");
        let lang = PrismaLanguage;
        let result = lang.extract(source, &tree);

        assert_eq!(result.symbols.len(), 1);
        assert_eq!(result.symbols[0].name, "MyVeryLongModelName");
    }

    #[test]
    fn test_all_symbol_kinds() {
        let source = r#"datasource db {
  provider = "postgresql"
  url      = env("DATABASE_URL")
}

generator client {
  provider = "prisma-client-js"
}

model User {
  id Int @id
}

enum Role {
  ADMIN
}

type Address {
  street String
}
"#;
        let mut parser = make_parser();
        let tree = parser.parse(source, None).expect("parse failed");
        let lang = PrismaLanguage;
        let result = lang.extract(source, &tree);

        // Verify each declaration type maps to the correct SymbolKind
        let datasource = result
            .symbols
            .iter()
            .find(|s| s.name == "db")
            .expect("datasource not found");
        assert_eq!(datasource.kind, SymbolKind::Block);

        let generator = result
            .symbols
            .iter()
            .find(|s| s.name == "client")
            .expect("generator not found");
        assert_eq!(generator.kind, SymbolKind::Block);

        let model = result
            .symbols
            .iter()
            .find(|s| s.name == "User")
            .expect("model not found");
        assert_eq!(model.kind, SymbolKind::Struct);

        let enum_sym = result
            .symbols
            .iter()
            .find(|s| s.name == "Role")
            .expect("enum not found");
        assert_eq!(enum_sym.kind, SymbolKind::Enum);

        let type_alias = result
            .symbols
            .iter()
            .find(|s| s.name == "Address")
            .expect("type alias not found");
        assert_eq!(type_alias.kind, SymbolKind::TypeAlias);

        // All should be public
        for sym in &result.symbols {
            assert_eq!(sym.visibility, Visibility::Public);
        }
    }
