// Properties that hold of every input, checked here on concrete ones.
use codemap::parser::language::{LanguageSupport, ParseResult, SymbolKind, Visibility};
use codemap::parser::languages::go::GoLanguage;
use codemap::parser::languages::python::PythonLanguage;
use codemap::parser::languages::rust::RustLanguage;
use codemap::parser::languages::zig::ZigLanguage;
use codemap::parser::LanguageRegistry;
use codemap::syntax::SyntaxNode;
use codemap::text::{decimal_exec, parse_usize_exec};
use codemap::treesitter::{tree_from_records, NodeRecord, TreeParser};

fn every_export_names_a_public_symbol(r: &ParseResult) -> bool {
    r.exports.iter().all(|e| {
        r.symbols
            .iter()
            .any(|s| s.name == e.name && s.kind == e.kind && s.visibility == Visibility::Public)
    })
}

fn parse_with(lang: &dyn LanguageSupport, source: &str) -> ParseResult {
    let mut parser = TreeParser::new();
    parser.set_language(&lang.ts_language()).expect("grammar");
    let tree = parser.parse(source, None).expect("parse");
    lang.extract(source, &tree)
}

#[test]
fn law_exports_are_public_go() {
    let r = parse_with(&GoLanguage, "package p\nfunc Open() {}\nfunc close() {}\ntype T struct{}\ntype u int\n");
    assert!(!r.exports.is_empty());
    assert!(r.symbols.iter().any(|s| s.visibility == Visibility::Private));
    assert!(every_export_names_a_public_symbol(&r));
}

#[test]
fn law_exports_are_public_python() {
    let r = parse_with(&PythonLanguage, "def run():\n    pass\n\ndef _hidden():\n    pass\n\nclass A:\n    def m(self):\n        pass\n    def _p(self):\n        pass\n");
    assert_eq!(r.exports.len(), 3);
    assert!(every_export_names_a_public_symbol(&r));
}

#[test]
fn law_exports_are_public_rust() {
    let r = parse_with(&RustLanguage, "pub fn a() {}\nfn b() {}\npub struct S;\nimpl S { pub fn m(&self) {} fn n(&self) {} }\n");
    assert!(every_export_names_a_public_symbol(&r));
    assert_eq!(r.exports.len(), 3);
}

fn exports_mirror_public_symbols(r: &ParseResult) -> bool {
    let public: Vec<(String, SymbolKind)> = r
        .symbols
        .iter()
        .filter(|s| s.visibility == Visibility::Public)
        .map(|s| (s.name.clone(), s.kind))
        .collect();
    let exported: Vec<(String, SymbolKind)> = r.exports.iter().map(|e| (e.name.clone(), e.kind)).collect();
    public == exported
}

#[test]
fn law_exports_mirror_public_symbols() {
    let go = parse_with(&GoLanguage, "package p
func Open() {}
func close() {}
type T struct{}
type u int
");
    let py = parse_with(&PythonLanguage, "def run():\n    pass\n\ndef _hidden():\n    pass\n\nclass A:\n    def m(self):\n        pass\n");
    let rs = parse_with(&RustLanguage, "pub fn a() {}
fn b() {}
pub struct S;
impl S { pub fn m(&self) {} fn n(&self) {} }
");
    let zig = parse_with(&ZigLanguage, "pub fn a() void {}
fn b() void {}
");
    for r in [&go, &py, &rs, &zig] {
        assert!(!r.exports.is_empty());
        assert!(exports_mirror_public_symbols(r));
    }
}

fn all_within(n: &SyntaxNode, len: usize) -> bool {
    n.start <= n.end
        && n.end <= len
        && n.start_line >= 1
        && n.end_line >= 1
        && n.children.iter().all(|c| all_within(c, len))
}

#[test]
fn law_parsed_nodes_lie_within_the_text() {
    // multi-byte characters: offsets are in characters, not bytes
    let source = "package p\n// é ü 漢字\nfunc Ünïcode() {}\n";
    let mut parser = TreeParser::new();
    parser.set_language(&GoLanguage.ts_language()).expect("grammar");
    let tree = parser.parse(source, None).expect("parse");
    assert_eq!(tree.source.len(), source.chars().count());
    assert!(all_within(&tree.root, tree.source.len()));
    let r = GoLanguage.extract(source, &tree);
    let f = r.symbols.iter().find(|s| s.name == "Ünïcode").expect("function");
    assert_eq!(f.start_line, 3);
    assert_eq!(f.body, "{}");
}

#[test]
fn law_registered_is_found() {
    let mut registry = LanguageRegistry::empty();
    assert!(registry.get("zig").is_none());
    registry.register(Box::new(ZigLanguage));
    assert!(registry.get("zig").is_some());
    assert_eq!(registry.get("zig").unwrap().name(), "zig");
    assert!(registry.get("zi").is_none());
}

#[test]
fn law_entry_answers_to_its_name() {
    let registry = LanguageRegistry::new();
    for name in registry.supported_languages() {
        assert_eq!(registry.get(name).expect("listed name").name(), name);
    }
}

#[test]
fn law_register_again_keeps_names() {
    let mut registry = LanguageRegistry::new();
    let before: Vec<String> = registry.supported_languages().iter().map(|s| s.to_string()).collect();
    registry.register(Box::new(GoLanguage));
    let after: Vec<String> = registry.supported_languages().iter().map(|s| s.to_string()).collect();
    assert_eq!(before, after);
}

#[test]
fn law_register_keeps_others_and_names_unique() {
    let mut registry = LanguageRegistry::empty();
    registry.register(Box::new(GoLanguage));
    registry.register(Box::new(RustLanguage));
    registry.register(Box::new(GoLanguage));
    assert_eq!(registry.supported_languages(), vec!["go", "rust"]);
    assert!(registry.get("go").is_some());
    assert!(registry.get("rust").is_some());
}

#[test]
fn default_registry_lists_each_grammar_once() {
    let registry = LanguageRegistry::new();
    let mut names = registry.supported_languages();
    assert_eq!(names.len(), 29);
    names.sort();
    names.dedup();
    assert_eq!(names.len(), 29);
    assert!(names.contains(&"python"));
    assert!(names.contains(&"prisma"));
}

#[test]
fn decimal_numbers() {
    assert_eq!(parse_usize_exec(&"42".chars().collect()), Some(42));
    assert_eq!(parse_usize_exec(&"+7".chars().collect()), Some(7));
    assert_eq!(parse_usize_exec(&"".chars().collect()), None);
    assert_eq!(parse_usize_exec(&"+".chars().collect()), None);
    assert_eq!(parse_usize_exec(&"-1".chars().collect()), None);
    assert_eq!(parse_usize_exec(&"4a".chars().collect()), None);
    assert_eq!(parse_usize_exec(&"18446744073709551616".chars().collect()), None);
    assert_eq!(
        parse_usize_exec(&"18446744073709551615".chars().collect()),
        Some(18446744073709551615)
    );
    assert_eq!(decimal_exec(0), vec!['0']);
    assert_eq!(decimal_exec(1207).into_iter().collect::<String>(), "1207");
}

#[test]
fn unicode_character_classes() {
    // uppercase and alphanumeric go by Unicode, not by ASCII
    assert!(GoLanguage::is_public("Éclair"));
    assert!(!GoLanguage::is_public("éclair"));
    assert!(!GoLanguage::is_public(""));
    assert_eq!(ZigLanguage::extract_fn_name_from_text("fn añb_2() void {"), "añb_2");
    assert!(PythonLanguage::is_public("visible"));
    assert!(!PythonLanguage::is_public("_hidden"));
}

fn record(kind: &str, depth: u32, start_byte: usize, end_byte: usize, row: usize) -> NodeRecord {
    NodeRecord {
        kind: kind.to_string(),
        field: None,
        depth,
        start_byte,
        end_byte,
        start_row: row,
        end_row: row,
    }
}

#[test]
fn records_rebuild_into_a_tree_with_char_offsets() {
    // "é" takes two bytes, so "x" starts at byte 3 and character 2.
    let text = "é x";
    let recs = vec![record("source_file", 0, 0, 4, 0), record("identifier", 1, 3, 4, 0)];
    let tree = tree_from_records(text, &recs).expect("well-formed records give a tree");
    assert_eq!(tree.root.kind, "source_file");
    assert_eq!((tree.root.start, tree.root.end), (0, 3));
    assert_eq!(tree.root.start_line, 1);
    assert_eq!(tree.root.children.len(), 1);
    assert_eq!(tree.root.children[0].kind, "identifier");
    assert_eq!((tree.root.children[0].start, tree.root.children[0].end), (2, 3));
    assert_eq!(tree.source.iter().collect::<String>(), text);
}

#[test]
fn records_off_a_char_boundary_give_no_tree() {
    let text = "é x";
    let recs = vec![record("source_file", 0, 0, 4, 0), record("identifier", 1, 1, 4, 0)];
    assert!(tree_from_records(text, &recs).is_none());
    let backwards = vec![record("source_file", 0, 4, 0, 0)];
    assert!(tree_from_records(text, &backwards).is_none());
    assert!(tree_from_records(text, &Vec::new()).is_none());
}
