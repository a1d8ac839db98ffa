#![allow(unused_imports, dead_code, unused_variables, unused_mut)]
use codemap::parser::language::{Export, Import, LanguageSupport, ParseResult, Symbol, SymbolKind, Visibility};
use codemap::parser::languages::elixir::ElixirLanguage;
use codemap::syntax::{SyntaxNode, SyntaxTree};
use codemap::treesitter::TreeParser;
    fn make_parser() -> TreeParser {
        let mut parser = TreeParser::new();
        parser
            .set_language(&tree_sitter_elixir::LANGUAGE.into())
            .expect("failed to set language");
        parser
    }

    #[test]
    fn elixir_test_extract_public_function() {
        let source = r#"defmodule MyApp do
  def greet(name) do
    "Hello, #{name}!"
  end
end
"#;
        let mut parser = make_parser();
        let tree = parser.parse(source, None).expect("parse failed");
        let lang = ElixirLanguage;
        let result = lang.extract(source, &tree);

        let funcs: Vec<_> = result
            .symbols
            .iter()
            .filter(|s| s.kind == SymbolKind::Function && s.name == "greet")
            .collect();
        assert!(!funcs.is_empty(), "expected public function 'greet'");
        assert_eq!(funcs[0].visibility, Visibility::Public);

        let exported: Vec<_> = result
            .exports
            .iter()
            .filter(|e| e.name == "greet")
            .collect();
        assert!(!exported.is_empty(), "public function should be exported");
    }

    #[test]
    fn elixir_test_extract_private_function() {
        let source = r#"defmodule MyApp do
  defp helper(x) do
    x * 2
  end
end
"#;
        let mut parser = make_parser();
        let tree = parser.parse(source, None).expect("parse failed");
        let lang = ElixirLanguage;
        let result = lang.extract(source, &tree);

        let funcs: Vec<_> = result
            .symbols
            .iter()
            .filter(|s| s.kind == SymbolKind::Function && s.name == "helper")
            .collect();
        assert!(!funcs.is_empty(), "expected private function 'helper'");
        assert_eq!(funcs[0].visibility, Visibility::Private);

        assert!(
            !result.exports.iter().any(|e| e.name == "helper"),
            "private function should not be exported"
        );
    }

    #[test]
    fn elixir_test_extract_module() {
        let source = r#"defmodule MyApp.Router do
  def index do
    :ok
  end
end
"#;
        let mut parser = make_parser();
        let tree = parser.parse(source, None).expect("parse failed");
        let lang = ElixirLanguage;
        let result = lang.extract(source, &tree);

        let classes: Vec<_> = result
            .symbols
            .iter()
            .filter(|s| s.kind == SymbolKind::Class)
            .collect();
        assert!(!classes.is_empty(), "expected module as class symbol");
        assert_eq!(classes[0].visibility, Visibility::Public);
    }

    #[test]
    fn elixir_test_extract_imports() {
        let source = r#"defmodule MyApp do
  alias MyApp.Repo
  import Ecto.Query
  use GenServer
end
"#;
        let mut parser = make_parser();
        let tree = parser.parse(source, None).expect("parse failed");
        let lang = ElixirLanguage;
        let result = lang.extract(source, &tree);

        assert!(!result.imports.is_empty(), "expected imports");
    }

    #[test]
    fn elixir_test_empty_source() {
        let source = "";
        let mut parser = make_parser();
        let tree = parser.parse(source, None).unwrap();
        let lang = ElixirLanguage;
        let result = lang.extract(source, &tree);
        assert!(result.symbols.is_empty());
        assert!(result.imports.is_empty());
        assert!(result.exports.is_empty());
    }

    #[test]
    fn test_complex_module_with_macro() {
        let source = r#"defmodule MyApp.Helpers do
  defmacro debug(msg) do
    quote do
      IO.puts(unquote(msg))
    end
  end

  def run do
    debug("starting")
  end

  defp internal do
    :ok
  end
end
"#;
        let mut parser = make_parser();
        let tree = parser.parse(source, None).expect("parse failed");
        let lang = ElixirLanguage;
        let result = lang.extract(source, &tree);

        let classes: Vec<_> = result
            .symbols
            .iter()
            .filter(|s| s.kind == SymbolKind::Class)
            .collect();
        assert!(!classes.is_empty(), "expected module");

        let funcs: Vec<_> = result
            .symbols
            .iter()
            .filter(|s| s.kind == SymbolKind::Function)
            .collect();
        assert!(funcs.len() >= 2, "expected at least 2 functions");

        let private_funcs: Vec<_> = funcs
            .iter()
            .filter(|f| f.visibility == Visibility::Private)
            .collect();
        assert!(!private_funcs.is_empty(), "expected private function");
    }

    #[test]
    fn test_coverage_defmacrop() {
        let source = r#"defmodule MyApp do
  defmacrop private_macro(x) do
    quote do
      unquote(x) + 1
    end
  end
end
"#;
        let mut parser = make_parser();
        let tree = parser.parse(source, None).expect("parse failed");
        let lang = ElixirLanguage;
        let result = lang.extract(source, &tree);

        let private_fns: Vec<_> = result
            .symbols
            .iter()
            .filter(|s| s.kind == SymbolKind::Function && s.visibility == Visibility::Private)
            .collect();
        assert!(
            !private_fns.is_empty(),
            "expected private macro from defmacrop"
        );
        assert!(
            !result.exports.iter().any(|e| e.name == "private_macro"),
            "defmacrop should not be exported"
        );
    }

    #[test]
    fn test_coverage_nested_modules() {
        let source = r#"defmodule Outer do
  defmodule Inner do
    def inner_func do
      :ok
    end
  end

  def outer_func do
    :ok
  end
end
"#;
        let mut parser = make_parser();
        let tree = parser.parse(source, None).expect("parse failed");
        let lang = ElixirLanguage;
        let result = lang.extract(source, &tree);

        let classes: Vec<_> = result
            .symbols
            .iter()
            .filter(|s| s.kind == SymbolKind::Class)
            .collect();
        assert!(classes.len() >= 2, "expected at least 2 modules");

        let funcs: Vec<_> = result
            .symbols
            .iter()
            .filter(|s| s.kind == SymbolKind::Function)
            .collect();
        assert!(funcs.len() >= 2, "expected at least 2 functions");
    }

    #[test]
    fn test_coverage_require_import() {
        let source = r#"defmodule MyApp do
  require Logger
end
"#;
        let mut parser = make_parser();
        let tree = parser.parse(source, None).expect("parse failed");
        let lang = ElixirLanguage;
        let result = lang.extract(source, &tree);

        let has_logger = result.imports.iter().any(|i| i.source.contains("Logger"));
        assert!(has_logger, "expected require Logger import");
    }

    #[test]
    fn elixir_test_coverage_multiple_imports() {
        let source = r#"defmodule MyApp do
  alias MyApp.Repo
  import Ecto.Query
  use GenServer
  require Logger

  def start do
    :ok
  end
end
"#;
        let mut parser = make_parser();
        let tree = parser.parse(source, None).expect("parse failed");
        let lang = ElixirLanguage;
        let result = lang.extract(source, &tree);

        assert!(result.imports.len() >= 3, "expected at least 3 imports");
    }

    #[test]
    fn test_coverage_module_with_multiple_functions() {
        let source = r#"defmodule Calculator do
  def add(a, b) do
    a + b
  end

  def subtract(a, b) do
    a - b
  end

  defp validate(x) do
    x > 0
  end

  defmacro assert_positive(x) do
    quote do
      if unquote(x) <= 0, do: raise("not positive")
    end
  end
end
"#;
        let mut parser = make_parser();
        let tree = parser.parse(source, None).expect("parse failed");
        let lang = ElixirLanguage;
        let result = lang.extract(source, &tree);

        let pub_funcs: Vec<_> = result
            .symbols
            .iter()
            .filter(|s| s.kind == SymbolKind::Function && s.visibility == Visibility::Public)
            .collect();
        assert!(pub_funcs.len() >= 3, "expected at least 3 public functions");

        let priv_funcs: Vec<_> = result
            .symbols
            .iter()
            .filter(|s| s.kind == SymbolKind::Function && s.visibility == Visibility::Private)
            .collect();
        assert!(!priv_funcs.is_empty(), "expected private function");
    }

    #[test]
    fn test_def_with_guard() {
        // Test the binary_operator path in extract_def_name: def foo(x) when is_integer(x)
        let source = r#"defmodule MyApp do
  def guarded(x) when is_integer(x) do
    x + 1
  end
end
"#;
        let mut parser = make_parser();
        let tree = parser.parse(source, None).expect("parse failed");
        let lang = ElixirLanguage;
        let result = lang.extract(source, &tree);

        let funcs: Vec<_> = result
            .symbols
            .iter()
            .filter(|s| s.kind == SymbolKind::Function && s.name == "guarded")
            .collect();
        assert!(!funcs.is_empty(), "expected guarded function");
    }

    #[test]
    fn test_def_no_args() {
        // Exercise the identifier path in extract_def_name (no-arg function)
        let source = r#"defmodule MyApp do
  def hello do
    :world
  end
end
"#;
        let mut parser = make_parser();
        let tree = parser.parse(source, None).expect("parse failed");
        let lang = ElixirLanguage;
        let result = lang.extract(source, &tree);

        let funcs: Vec<_> = result
            .symbols
            .iter()
            .filter(|s| s.kind == SymbolKind::Function && s.name == "hello")
            .collect();
        assert!(!funcs.is_empty(), "expected no-arg function 'hello'");
    }

    #[test]
    fn test_extract_import_from_call_non_import() {
        // Calling extract_import_from_call on a non-import call should return None
        let source = r#"defmodule MyApp do
  def foo do
    :ok
  end
end
"#;
        let mut parser = make_parser();
        let tree = parser.parse(source, None).expect("parse failed");
        let lang = ElixirLanguage;
        let result = lang.extract(source, &tree);

        // Just ensure no spurious imports from non-import calls
        assert!(
            !result.imports.iter().any(|i| i.source.contains("foo")),
            "def should not produce imports"
        );
    }

    #[test]
    fn test_push_do_children_no_do_block() {
        // A call node without a do_block should not push anything
        let source = r#"defmodule MyApp do
  alias MyApp.Repo
end
"#;
        let mut parser = make_parser();
        let tree = parser.parse(source, None).expect("parse failed");
        let lang = ElixirLanguage;
        let result = lang.extract(source, &tree);
        // Should still work -- alias should be found
        assert!(!result.imports.is_empty(), "expected alias import");
    }

    #[test]
    fn test_non_call_node_scanning() {
        // Test that non-call nodes have their children scanned
        let source = r#"defmodule MyApp do
  def start do
    :ok
  end
end
"#;
        let mut parser = make_parser();
        let tree = parser.parse(source, None).expect("parse failed");
        let lang = ElixirLanguage;
        let result = lang.extract(source, &tree);

        // The do_block and other non-call nodes should be traversed
        let has_start = result
            .symbols
            .iter()
            .any(|s| s.name == "start" && s.kind == SymbolKind::Function);
        assert!(has_start, "expected function 'start'");
    }

    #[test]
    fn test_unknown_call_with_do_block() {
        // Test the _ => push_do_children path for unknown calls
        let source = r#"defmodule MyApp do
  if Mix.env() == :test do
    def test_helper do
      :ok
    end
  end
end
"#;
        let mut parser = make_parser();
        let tree = parser.parse(source, None).expect("parse failed");
        let lang = ElixirLanguage;
        let result = lang.extract(source, &tree);

        // The `if` call should recurse via push_do_children
        let has_helper = result
            .symbols
            .iter()
            .any(|s| s.name == "test_helper" && s.kind == SymbolKind::Function);
        assert!(
            has_helper,
            "expected test_helper via unknown call recursion"
        );
    }

    #[test]
    fn elixir_test_first_line_helper() {
        let source = r#"defmodule MyApp do
  def foo do
    :ok
  end
end
"#;
        let mut parser = make_parser();
        let tree = parser.parse(source, None).expect("parse failed");
        let lang = ElixirLanguage;
        let result = lang.extract(source, &tree);

        let module = result.symbols.iter().find(|s| s.kind == SymbolKind::Class);
        assert!(module.is_some(), "expected module");
        if let Some(m) = module {
            assert_eq!(m.signature, "defmodule MyApp do");
        }
    }

    #[test]
    fn test_defmodule_with_atom_name() {
        // Exercise the "atom" branch in extract_module_name
        let source = "defmodule :my_mod do\n  def foo, do: :ok\nend\n";
        let mut parser = make_parser();
        let tree = parser.parse(source, None).unwrap();
        let lang = ElixirLanguage;
        let result = lang.extract(source, &tree);

        let modules: Vec<_> = result
            .symbols
            .iter()
            .filter(|s| s.kind == SymbolKind::Class)
            .collect();
        assert!(!modules.is_empty(), "expected module from atom name");
        assert_eq!(modules[0].name, "my_mod");
    }

    #[test]
    fn test_extract_call_target_empty() {
        // A non-call node without identifier children should return empty
        let mut parser = make_parser();
        let source = ":ok\n";
        let tree = parser.parse(source, None).unwrap();
        let root = tree.root_node();
        for child in root.children.iter() {
            let target = ElixirLanguage::extract_call_target(&child, &tree.source);
            // atom node has no identifier child, should return ""
            assert!(target.is_empty(), "atom should not have call target");
        }
    }

    #[test]
    fn test_extract_def_name_no_arguments() {
        // A call-like node without an arguments child returns ""
        let mut parser = make_parser();
        let source = ":ok\n";
        let tree = parser.parse(source, None).unwrap();
        let root = tree.root_node();
        for child in root.children.iter() {
            let name = ElixirLanguage::extract_def_name(&child, &tree.source);
            assert!(
                name.is_empty(),
                "no-arguments node should return empty name"
            );
        }
    }

    #[test]
    fn test_extract_module_name_no_arguments() {
        // exercise the None => return String::new() branch
        let mut parser = make_parser();
        let source = ":ok\n";
        let tree = parser.parse(source, None).unwrap();
        let root = tree.root_node();
        for child in root.children.iter() {
            let name = ElixirLanguage::extract_module_name(&child, &tree.source);
            assert!(name.is_empty());
        }
    }

    #[test]
    fn test_extract_import_from_call_no_arguments() {
        // exercise the found? (None) path in extract_import_from_call
        // by calling it on a non-call node
        let mut parser = make_parser();
        let source = "alias MyApp.Repo\n";
        let tree = parser.parse(source, None).unwrap();
        let lang = ElixirLanguage;
        let result = lang.extract(source, &tree);
        // Just ensures we parse without panicking and find the import
        assert!(!result.imports.is_empty(), "expected alias import");
    }

    #[test]
    fn test_def_with_keyword_syntax() {
        // Exercise the one-liner `def foo, do: :ok` (no do block) path
        let source = "defmodule M do\n  def bar, do: :ok\nend\n";
        let mut parser = make_parser();
        let tree = parser.parse(source, None).unwrap();
        let lang = ElixirLanguage;
        let result = lang.extract(source, &tree);

        let funcs: Vec<_> = result
            .symbols
            .iter()
            .filter(|s| s.kind == SymbolKind::Function && s.name == "bar")
            .collect();
        assert!(
            !funcs.is_empty(),
            "expected function 'bar' from keyword syntax"
        );
    }
