use ra_ap_ide::{Analysis, FileStructureConfig};
use ra_batch::error::ErrorKind;
use ra_batch::interrupt::{interrupted, Interruption};
use ra_batch::introspect::{
    highlight, markup_answer, nesting_depth, outline_answer, parse, symbol_line, symbols, Symbol,
    TextSpan,
};

fn outline(text: &str) -> Vec<Symbol> {
    let (analysis, file) = Analysis::from_single_file(String::from(text));
    symbols(&analysis, file.index()).unwrap()
}

fn markup(text: &str, rainbow: bool) -> String {
    let (analysis, file) = Analysis::from_single_file(String::from(text));
    highlight(&analysis, file.index(), rainbow).unwrap()
}

#[test]
fn parse_of_nothing_is_a_bare_root() {
    assert_eq!(parse("", false), Some(String::from("SOURCE_FILE@0..0\n")));
}

#[test]
fn parse_without_dump_gives_nothing() {
    assert_eq!(parse("fn main() {}", true), None);
    assert_eq!(parse("", true), None);
}

#[test]
fn parse_lists_nodes_and_tokens() {
    let listing = parse("fn f() {}", false).unwrap();
    assert!(listing.starts_with("SOURCE_FILE@0..9\n  FN@0..9\n"));
    assert!(listing.contains("FN_KW@0..2 \"fn\""));
    assert!(listing.contains("IDENT@3..4 \"f\""));
}

#[test]
fn parse_keeps_malformed_text_in_the_tree() {
    let listing = parse("fn (", false).unwrap();
    assert!(listing.starts_with("SOURCE_FILE@0..4\n"));
    assert!(listing.contains("ERROR"));
}

#[test]
fn outline_of_three_declarations() {
    let text = "fn one() {}\nstruct Two;\nconst THREE: u8 = 3;\n";
    let outline = outline(text);
    assert_eq!(outline.len(), 3);
    assert_eq!(outline[0].label, "one");
    assert_eq!(outline[1].label, "Two");
    assert_eq!(outline[2].label, "THREE");
    for symbol in &outline {
        assert_eq!(symbol.parent, None);
        assert!(symbol.node_range.start <= symbol.node_range.end);
        assert!(symbol.node_range.end as usize <= text.len());
        assert!(symbol.navigation_range.start <= symbol.navigation_range.end);
        assert!(symbol.navigation_range.end as usize <= text.len());
    }
    assert_eq!(outline[0].node_range, TextSpan { start: 0, end: 11 });
    assert_eq!(outline[0].navigation_range, TextSpan { start: 3, end: 6 });
    assert_eq!(outline[0].kind, "SymbolKind(Function)");
    assert_eq!(outline[0].detail.as_deref(), Some("fn()"));
    assert_eq!(outline[2].detail.as_deref(), Some("u8"));
    assert!(!outline[0].deprecated);
}

#[test]
fn outline_of_nothing_is_empty() {
    assert!(outline("").is_empty());
}

#[test]
fn outline_leaves_locals_out() {
    assert_eq!(outline("fn f() { let x = 1; }").len(), 1);
}

#[test]
fn outline_measures_ranges_in_bytes() {
    let text = "const E: &str = \"\u{e9}\u{e9}\";\nfn f() {}\n";
    let outline = outline(text);
    assert_eq!(outline.len(), 2);
    assert_eq!(outline[0].node_range, TextSpan { start: 0, end: 23 });
    assert_eq!(outline[1].node_range, TextSpan { start: 24, end: 33 });
    assert_eq!(text.len(), 34);
    assert_eq!(text.chars().count(), 32);
}

#[test]
fn outline_records_nesting() {
    let text = "struct S { a: u8 }\nmod m { mod n { fn f() {} } }\n";
    let outline = outline(text);
    let labels: Vec<&str> = outline.iter().map(|symbol| symbol.label.as_str()).collect();
    assert_eq!(labels, vec!["S", "a", "m", "n", "f"]);
    assert_eq!(outline[1].parent, Some(0));
    assert_eq!(outline[4].parent, Some(3));
    assert_eq!(nesting_depth(&outline, 0), 0);
    assert_eq!(nesting_depth(&outline, 1), 1);
    assert_eq!(nesting_depth(&outline, 2), 0);
    assert_eq!(nesting_depth(&outline, 3), 1);
    assert_eq!(nesting_depth(&outline, 4), 2);
}

#[test]
fn outline_answer_passes_the_outline_on() {
    let given = outline("fn f() {}");
    let out = outline_answer(Ok(given)).unwrap();
    assert_eq!(out.len(), 1);
    assert_eq!(out[0].label, "f");
    let why = outline_answer(Err(Interruption::PendingWrite)).err().unwrap();
    assert_eq!(why.kind, ErrorKind::Cancelled);
    assert_eq!(why.message(), "PendingWrite");
}

#[test]
fn markup_answer_passes_the_document_on() {
    assert_eq!(markup_answer(Ok(String::from("<pre></pre>"))).unwrap(), "<pre></pre>");
    let why = markup_answer(Err(Interruption::Local)).err().unwrap();
    assert_eq!(why.kind, ErrorKind::Cancelled);
    assert_eq!(why.message(), "Local");
}

#[test]
fn interrupted_names_the_reason() {
    assert_eq!(interrupted(Interruption::Local).message(), "Local");
    assert_eq!(interrupted(Interruption::PendingWrite).message(), "PendingWrite");
    assert_eq!(interrupted(Interruption::PropagatedPanic).message(), "PropagatedPanic");
    assert_eq!(interrupted(Interruption::Other).message(), "Cancelled");
    assert_eq!(interrupted(Interruption::Other).kind, ErrorKind::Cancelled);
}

#[test]
fn symbol_line_names_every_field() {
    let outline = outline("fn one() {}\n");
    assert_eq!(
        symbol_line(&outline[0]),
        "StructureNode { parent: None, label: \"one\", navigation_range: 3..6, \
         node_range: 0..11, kind: SymbolKind(Function), detail: Some(\"fn()\"), \
         deprecated: false }"
    );
    let made = Symbol {
        parent: Some(12),
        label: String::from("a\"b"),
        navigation_range: TextSpan { start: 0, end: 4294967295 },
        node_range: TextSpan { start: 10, end: 10 },
        kind: String::from("Region"),
        detail: None,
        deprecated: true,
    };
    assert_eq!(
        symbol_line(&made),
        "StructureNode { parent: Some(12), label: \"a\\\"b\", navigation_range: 0..4294967295, \
         node_range: 10..10, kind: Region, detail: None, deprecated: true }"
    );
}

#[test]
fn symbol_line_is_the_engine_s_own() {
    let text = "#[deprecated]\nstruct S { a: u8 }\nmod m { fn f(x: u8) -> u8 { x } }\n// region: r\n";
    let (analysis, file) = Analysis::from_single_file(String::from(text));
    let theirs = analysis.file_structure(&FileStructureConfig { exclude_locals: true }, file).unwrap();
    let ours = symbols(&analysis, file.index()).unwrap();
    assert_eq!(ours.len(), theirs.len());
    assert!(ours.len() >= 4);
    for (mine, node) in ours.iter().zip(theirs.iter()) {
        assert_eq!(symbol_line(mine), format!("{:?}", node));
    }
}

#[test]
fn highlight_of_nothing_has_no_spans() {
    let html = markup("", false);
    assert!(html.ends_with("<pre><code></code></pre>"));
    assert!(html.contains("<style>"));
    assert!(!html.contains("<span"));
}

#[test]
fn highlight_marks_tokens() {
    let html = markup("fn main() {}", false);
    assert!(html.contains("<span class=\"keyword\">fn</span>"));
    assert!(html.ends_with("</code></pre>"));
}

#[test]
fn rainbow_only_adds_colour() {
    let text = "fn f() { let x = 1; let y = x; }";
    let plain = markup(text, false);
    let rainbow = markup(text, true);
    assert!(!plain.contains("data-binding-hash"));
    assert!(rainbow.contains("data-binding-hash"));
    assert_eq!(plain.matches("<span class=").count(), rainbow.matches("<span class=").count());
    assert_eq!(rainbow, markup(text, true));
}
