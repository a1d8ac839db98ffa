// Languages whose grammar this build does not carry, run on trees written
// out by hand in the shape their grammars produce.
use codemap::parser::language::{LanguageSupport, SymbolKind, Visibility};
use codemap::parser::languages::dockerfile::DockerfileLanguage;
use codemap::parser::languages::markdown::MarkdownLanguage;
use codemap::parser::languages::svelte::SvelteLanguage;
use codemap::parser::languages::toml_lang::TomlLangLanguage;
use codemap::syntax::{SyntaxNode, SyntaxTree};

fn node(kind: &str, start: usize, end: usize, line: usize, children: Vec<SyntaxNode>) -> SyntaxNode {
    SyntaxNode {
        kind: kind.to_string(),
        field: None,
        start,
        end,
        start_line: line,
        end_line: line,
        children,
    }
}

fn tree(source: &str, root: SyntaxNode) -> SyntaxTree {
    SyntaxTree { source: source.chars().collect(), root }
}

#[test]
fn markdown_heading_and_code_block() {
    let source = "# Title\n\n```rust\nfn main() {}\n```\n";
    let heading = node("atx_heading", 0, 7, 1, vec![
        node("atx_h1_marker", 0, 1, 1, vec![]),
        node("inline", 2, 7, 1, vec![]),
    ]);
    let code = node("fenced_code_block", 9, 33, 3, vec![
        node("fenced_code_block_delimiter", 9, 12, 3, vec![]),
        node("info_string", 12, 16, 3, vec![node("language", 12, 16, 3, vec![])]),
    ]);
    let section = node("section", 0, 34, 1, vec![heading, code]);
    let t = tree(source, node("document", 0, 34, 1, vec![section]));
    let result = MarkdownLanguage.extract(source, &t);
    assert_eq!(result.symbols.len(), 2);
    assert_eq!(result.symbols[0].name, "Title");
    assert_eq!(result.symbols[0].kind, SymbolKind::Heading);
    assert_eq!(result.symbols[0].signature, "# Title");
    assert_eq!(result.symbols[1].name, "code block (rust)");
    assert_eq!(result.symbols[1].kind, SymbolKind::Block);
    assert!(result.imports.is_empty());
    assert!(result.exports.is_empty());
}

#[test]
fn markdown_empty_heading_named_by_level() {
    let source = "##\n###\n";
    let h2 = node("atx_heading", 0, 2, 1, vec![node("atx_h2_marker", 0, 2, 1, vec![])]);
    // no marker child: the level is the number of leading `#`
    let h3 = node("atx_heading", 3, 6, 2, vec![]);
    let t = tree(source, node("document", 0, 7, 1, vec![h2, h3]));
    let result = MarkdownLanguage.extract(source, &t);
    let names: Vec<&str> = result.symbols.iter().map(|s| s.name.as_str()).collect();
    assert_eq!(names, vec!["h2", "h3"]);
}

#[test]
fn markdown_nested_sections_last_first() {
    // headings inside later sections come out before those of earlier ones,
    // as the traversal stack pops them
    let source = "# A\n# B\n";
    let a = node("section", 0, 4, 1, vec![node("atx_heading", 0, 3, 1, vec![node("inline", 2, 3, 1, vec![])])]);
    let b = node("section", 4, 8, 2, vec![node("atx_heading", 4, 7, 2, vec![node("inline", 6, 7, 2, vec![])])]);
    let t = tree(source, node("document", 0, 8, 1, vec![a, b]));
    let result = MarkdownLanguage.extract(source, &t);
    let names: Vec<&str> = result.symbols.iter().map(|s| s.name.as_str()).collect();
    assert_eq!(names, vec!["B", "A"]);
}

#[test]
fn dockerfile_stage_and_instruction() {
    let source = "FROM node:18 AS builder\nRUN npm install\n";
    let from = node("from_instruction", 0, 23, 1, vec![
        node("FROM", 0, 4, 1, vec![]),
        node("image_spec", 5, 12, 1, vec![node("image_name", 5, 9, 1, vec![]), node("image_tag", 9, 12, 1, vec![])]),
        node("AS", 13, 15, 1, vec![]),
        node("image_alias", 16, 23, 1, vec![]),
    ]);
    let run = node("run_instruction", 24, 39, 2, vec![]);
    let t = tree(source, node("source_file", 0, 40, 1, vec![from, run]));
    let result = DockerfileLanguage.extract(source, &t);
    assert_eq!(result.symbols.len(), 2);
    assert_eq!(result.symbols[0].name, "node (as builder)");
    assert_eq!(result.symbols[0].kind, SymbolKind::Section);
    assert_eq!(result.symbols[1].name, "RUN npm install");
    assert_eq!(result.symbols[1].kind, SymbolKind::Instruction);
    assert_eq!(result.symbols[1].visibility, Visibility::Public);
}

#[test]
fn dockerfile_image_from_text_and_alias_after_as() {
    let source = "FROM alpine as base\n";
    let from = node("from_instruction", 0, 19, 1, vec![
        node("FROM", 0, 4, 1, vec![]),
        node("as", 12, 14, 1, vec![]),
        node("word", 15, 19, 1, vec![]),
    ]);
    let t = tree(source, node("source_file", 0, 20, 1, vec![from]));
    let result = DockerfileLanguage.extract(source, &t);
    assert_eq!(result.symbols[0].name, "alpine (as base)");
}

#[test]
fn toml_tables_and_keys() {
    let source = "[package]\nname = \"codemap\"\n";
    let table = node("table", 0, 9, 1, vec![node("bare_key", 1, 8, 1, vec![])]);
    let pair = node("pair", 10, 26, 2, vec![node("bare_key", 10, 14, 2, vec![]), node("string", 17, 26, 2, vec![])]);
    let quoted = node("pair", 10, 26, 2, vec![node("quoted_key", 17, 26, 2, vec![])]);
    let t = tree(source, node("document", 0, 27, 1, vec![table, pair, quoted]));
    let result = TomlLangLanguage.extract(source, &t);
    let found: Vec<(&str, SymbolKind)> = result.symbols.iter().map(|s| (s.name.as_str(), s.kind)).collect();
    assert_eq!(
        found,
        vec![("package", SymbolKind::Table), ("name", SymbolKind::Key), ("codemap", SymbolKind::Key)]
    );
}

#[test]
fn svelte_blocks_and_elements() {
    let source = "<script>let x;</script>\n<div></div>\n<p/>\n";
    let script = node("script_element", 0, 23, 1, vec![]);
    let div = node("element", 24, 35, 2, vec![
        node("start_tag", 24, 29, 2, vec![node("tag_name", 25, 28, 2, vec![])]),
        node("end_tag", 29, 35, 2, vec![]),
    ]);
    let unnamed = node("element", 36, 40, 3, vec![]);
    let t = tree(source, node("document", 0, 41, 1, vec![script, div, unnamed]));
    let result = SvelteLanguage.extract(source, &t);
    let names: Vec<&str> = result.symbols.iter().map(|s| s.name.as_str()).collect();
    assert_eq!(names, vec!["script", "div", "element"]);
    assert_eq!(result.symbols[0].kind, SymbolKind::Block);
    assert_eq!(result.symbols[1].kind, SymbolKind::Section);
}

// Languages whose grammar the library does not link: trees in the shape
// their grammars produce, with offsets looked up in the (ASCII) source.

use codemap::parser::languages::c::CLanguage;
use codemap::parser::languages::java::JavaLanguage;
use codemap::parser::languages::kotlin::KotlinLanguage;
use codemap::parser::languages::ruby::RubyLanguage;

/// A node spanning the first occurrence of `text` at or after `from`.
fn at(source: &str, kind: &str, text: &str, from: usize, children: Vec<SyntaxNode>) -> SyntaxNode {
    let start = from + source[from..].find(text).expect("text in source");
    let line = source[..start].matches('\n').count() + 1;
    let end_line = line + text.matches('\n').count();
    SyntaxNode {
        kind: kind.to_string(),
        field: None,
        start,
        end: start + text.len(),
        start_line: line,
        end_line,
        children,
    }
}

fn with_field(mut n: SyntaxNode, field: &str) -> SyntaxNode {
    n.field = Some(field.to_string());
    n
}

#[test]
fn c_function_include_and_struct() {
    let s = "#include <stdio.h>\nint add(int a, int b) {\n    return a + b;\n}\nstruct Point { int x; };\n";
    let directive = at(s, "preproc_include", "#include <stdio.h>\n", 0, vec![
        at(s, "#include", "#include", 0, vec![]),
        at(s, "system_lib_string", "<stdio.h>", 0, vec![]),
    ]);
    let func = at(s, "function_definition", "int add(int a, int b) {\n    return a + b;\n}", 0, vec![
        at(s, "primitive_type", "int", 19, vec![]),
        at(s, "function_declarator", "add(int a, int b)", 0, vec![
            at(s, "identifier", "add", 0, vec![]),
            at(s, "parameter_list", "(int a, int b)", 0, vec![]),
        ]),
        at(s, "compound_statement", "{\n    return a + b;\n}", 0, vec![]),
    ]);
    let strukt = at(s, "struct_specifier", "struct Point { int x; }", 0, vec![
        at(s, "struct", "struct", 0, vec![]),
        at(s, "type_identifier", "Point", 0, vec![]),
        at(s, "field_declaration_list", "{ int x; }", 0, vec![]),
    ]);
    let t = tree(s, node("translation_unit", 0, s.len(), 1, vec![directive, func, strukt]));
    let r = CLanguage.extract(s, &t);
    assert_eq!(r.imports.len(), 1);
    assert_eq!(r.imports[0].source, "stdio.h");
    assert_eq!(r.symbols.len(), 2);
    assert_eq!(r.symbols[0].name, "add");
    assert_eq!(r.symbols[0].kind, SymbolKind::Function);
    assert_eq!(r.symbols[0].signature, "int add(int a, int b)");
    assert_eq!(r.symbols[0].body, "{\n    return a + b;\n}");
    assert_eq!(r.symbols[0].start_line, 2);
    assert_eq!(r.symbols[0].end_line, 4);
    assert_eq!(r.symbols[1].name, "Point");
    assert_eq!(r.symbols[1].kind, SymbolKind::Struct);
    assert_eq!(r.exports.len(), 2);
}

#[test]
fn java_class_methods_and_import() {
    let s = "import java.util.List;\npublic class Greeter {\n    public void hi() {}\n    private int n() { return 1; }\n}\n";
    let import = at(s, "import_declaration", "import java.util.List;", 0, vec![]);
    let hi = at(s, "method_declaration", "public void hi() {}", 0, vec![
        at(s, "modifiers", "public", 40, vec![]),
        at(s, "identifier", "hi", 40, vec![]),
        at(s, "block", "{}", 40, vec![]),
    ]);
    let n = at(s, "method_declaration", "private int n() { return 1; }", 0, vec![
        at(s, "modifiers", "private", 0, vec![]),
        at(s, "identifier", "n", s.find("n()").unwrap(), vec![]),
        at(s, "block", "{ return 1; }", 0, vec![]),
    ]);
    let body = at(s, "class_body", "{\n    public void hi() {}\n    private int n() { return 1; }\n}", 0, vec![hi, n]);
    let class = at(s, "class_declaration", "public class Greeter {\n    public void hi() {}\n    private int n() { return 1; }\n}", 0, vec![
        at(s, "modifiers", "public", 23, vec![]),
        at(s, "identifier", "Greeter", 0, vec![]),
        body,
    ]);
    let t = tree(s, node("program", 0, s.len(), 1, vec![import, class]));
    let r = JavaLanguage.extract(s, &t);
    assert_eq!(r.imports.len(), 1);
    assert_eq!(r.imports[0].source, "java.util");
    assert_eq!(r.imports[0].names, vec!["List".to_string()]);
    let found: Vec<(&str, SymbolKind, Visibility)> =
        r.symbols.iter().map(|x| (x.name.as_str(), x.kind, x.visibility)).collect();
    // the class body's members come out last first, as a stack pops them
    assert_eq!(
        found,
        vec![
            ("Greeter", SymbolKind::Class, Visibility::Public),
            ("n", SymbolKind::Method, Visibility::Private),
            ("hi", SymbolKind::Method, Visibility::Public),
        ]
    );
    assert_eq!(r.exports.len(), 2);
}

#[test]
fn kotlin_visibility_and_class_body() {
    let s = "import kotlin.collections.List\nclass Box {\n    private fun hidden() {}\n    fun shown() {}\n}\n";
    let import = at(s, "import", "import kotlin.collections.List", 0, vec![]);
    let hidden = at(s, "function_declaration", "private fun hidden() {}", 0, vec![
        at(s, "modifiers", "private", 0, vec![]),
        at(s, "simple_identifier", "hidden", 0, vec![]),
        at(s, "function_body", "{}", 50, vec![]),
    ]);
    let shown = at(s, "function_declaration", "fun shown() {}", 60, vec![
        with_field(at(s, "identifier", "shown", 0, vec![]), "name"),
        at(s, "function_body", "{}", 70, vec![]),
    ]);
    let class = at(s, "class_declaration", "class Box {\n    private fun hidden() {}\n    fun shown() {}\n}", 0, vec![
        with_field(at(s, "identifier", "Box", 0, vec![]), "name"),
        at(s, "class_body", "{\n    private fun hidden() {}\n    fun shown() {}\n}", 0, vec![hidden, shown]),
    ]);
    let t = tree(s, node("source_file", 0, s.len(), 1, vec![import, class]));
    let r = KotlinLanguage.extract(s, &t);
    assert_eq!(r.imports[0].source, "kotlin.collections");
    let names: Vec<&str> = r.symbols.iter().map(|x| x.name.as_str()).collect();
    assert_eq!(names, vec!["Box", "shown", "hidden"]);
    assert_eq!(r.symbols[2].visibility, Visibility::Private);
    assert_eq!(r.symbols[1].signature, "fun shown()");
    let exported: Vec<&str> = r.exports.iter().map(|e| e.name.as_str()).collect();
    assert_eq!(exported, vec!["Box", "shown"]);
}

#[test]
fn ruby_require_module_and_methods() {
    let s = "require 'json'\nmodule Util\n  def self.run\n  end\n  def helper\n  end\nend\n";
    let call = at(s, "call", "require 'json'", 0, vec![
        with_field(at(s, "identifier", "require", 0, vec![]), "method"),
        with_field(at(s, "argument_list", "'json'", 0, vec![at(s, "string", "'json'", 0, vec![])]), "arguments"),
    ]);
    let run = at(s, "singleton_method", "def self.run\n  end", 0, vec![
        at(s, "self", "self", 0, vec![]),
        at(s, "identifier", "run", 0, vec![]),
    ]);
    let helper = at(s, "method", "def helper\n  end", 0, vec![at(s, "identifier", "helper", 0, vec![])]);
    let body = with_field(at(s, "body_statement", "def self.run\n  end\n  def helper\n  end", 0, vec![run, helper]), "body");
    let module = at(s, "module", "module Util\n  def self.run\n  end\n  def helper\n  end\nend", 0, vec![
        at(s, "constant", "Util", 0, vec![]),
        body,
    ]);
    let t = tree(s, node("program", 0, s.len(), 1, vec![call, module]));
    let r = RubyLanguage.extract(s, &t);
    assert_eq!(r.imports.len(), 1);
    assert_eq!(r.imports[0].source, "json");
    let found: Vec<(&str, SymbolKind)> = r.symbols.iter().map(|x| (x.name.as_str(), x.kind)).collect();
    assert_eq!(
        found,
        vec![("Util", SymbolKind::Trait), ("helper", SymbolKind::Method), ("run", SymbolKind::Method)]
    );
    assert_eq!(r.exports.len(), 3);
}
