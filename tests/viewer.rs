use csv_viewer::{display_text, parse_document, CsvViewerApp, Document, Screen};

fn strings(v: &[&str]) -> Vec<String> {
    v.iter().map(|s| s.to_string()).collect()
}

#[test]
fn short_cell_is_unchanged() {
    assert_eq!(display_text(""), "");
    assert_eq!(display_text("hello"), "hello");
    let fifty = "x".repeat(50);
    assert_eq!(display_text(&fifty), fifty);
}

#[test]
fn long_cell_is_cut_to_fifty_characters() {
    let cell: String = (0..60).map(|i| char::from(b'a' + (i % 26) as u8)).collect();
    let shown = display_text(&cell);
    assert_eq!(shown.chars().count(), 50);
    assert_eq!(shown, format!("{}...", &cell[..47]));
    let fifty_one = "y".repeat(51);
    assert_eq!(display_text(&fifty_one), format!("{}...", "y".repeat(47)));
}

#[test]
fn long_cell_counts_characters_not_bytes() {
    let cell = "é".repeat(49);
    assert_eq!(display_text(&cell), cell);
    let long = "é".repeat(52);
    assert_eq!(display_text(&long), format!("{}...", "é".repeat(47)));
}

#[test]
fn well_formed_csv_gives_header_and_rows() {
    let doc = parse_document(b"name,age\nann,31\nbob,42\n").unwrap();
    assert_eq!(doc.headers, strings(&["name", "age"]));
    assert_eq!(doc.rows, vec![strings(&["ann", "31"]), strings(&["bob", "42"])]);
}

#[test]
fn quoted_fields_are_unquoted() {
    let doc = parse_document(b"a,b\n\"x, y\",\"say \"\"hi\"\"\"\n").unwrap();
    assert_eq!(doc.rows, vec![strings(&["x, y", "say \"hi\""])]);
}

#[test]
fn empty_csv_has_no_header_and_no_rows() {
    let doc = parse_document(b"").unwrap();
    assert!(doc.headers.is_empty());
    assert!(doc.rows.is_empty());
}

#[test]
fn unequal_row_lengths_are_an_error() {
    let err = match parse_document(b"a,b\n1,2,3\n") {
        Err(e) => e,
        Ok(_) => panic!("a row with too many fields must fail"),
    };
    assert!(!err.is_empty());
}

#[test]
fn load_replaces_document_and_clears_error() {
    let mut app = CsvViewerApp::default();
    app.apply_load("missing.csv".to_string(), Err("no such file".to_string()));
    assert_eq!(app.error_message.as_deref(), Some("Error loading CSV: no such file"));
    assert!(app.load_csv("data.csv".to_string(), b"h1,h2\n1,2\n3,4\n5,6\n").is_ok());
    assert_eq!(app.headers.len(), 2);
    assert_eq!(app.csv_data.len(), 3);
    assert_eq!(app.file_path.as_deref(), Some("data.csv"));
    assert_eq!(app.error_message, None);
}

#[test]
fn failed_load_keeps_document_and_sets_error() {
    let mut app = CsvViewerApp::default();
    app.load_csv("good.csv".to_string(), b"a\n1\n").unwrap();
    let err = app.load_csv("bad.csv".to_string(), b"a,b\n1\n").unwrap_err();
    assert!(err.starts_with("Error loading CSV: "));
    assert!(err.len() > "Error loading CSV: ".len());
    assert_eq!(app.error_message.as_deref(), Some(err.as_str()));
    assert_eq!(app.headers, strings(&["a"]));
    assert_eq!(app.csv_data, vec![strings(&["1"])]);
    assert_eq!(app.file_path.as_deref(), Some("good.csv"));
}

#[test]
fn invalid_utf8_is_an_error() {
    let mut app = CsvViewerApp::default();
    assert!(app.load_csv("bin.csv".to_string(), b"a\n\xff\xfe\n").is_err());
    assert_eq!(app.file_path, None);
    assert!(app.error_message.is_some());
}

#[test]
fn frame_before_any_load_is_welcome() {
    let app = CsvViewerApp::default();
    assert!(matches!(app.frame(), Screen::Welcome));
}

#[test]
fn frame_after_header_only_load_is_blank() {
    let mut app = CsvViewerApp::default();
    app.load_csv("h.csv".to_string(), b"a,b\n").unwrap();
    assert!(matches!(app.frame(), Screen::Blank));
}

#[test]
fn frame_shows_numbered_rows_and_cut_cells() {
    let mut app = CsvViewerApp::default();
    let long = "z".repeat(70);
    app.apply_load(
        "t.csv".to_string(),
        Ok(Document {
            headers: strings(&["k", "v"]),
            rows: vec![strings(&["1", &long]), strings(&["2", "two", "extra"])],
        }),
    );
    let table = match app.frame() {
        Screen::Table(t) => t,
        _ => panic!("a loaded document must show as a grid"),
    };
    assert_eq!(table.row_count, 2);
    assert_eq!(table.column_count, 2);
    assert_eq!(table.headers, strings(&["k", "v"]));
    assert_eq!(table.rows[0].number, 1);
    assert_eq!(table.rows[1].number, 2);
    assert_eq!(table.rows[0].cells[1].shown, format!("{}...", "z".repeat(47)));
    assert_eq!(table.rows[0].cells[1].full, long);
    assert_eq!(table.rows[1].cells.len(), 2);
    assert_eq!(table.rows[1].cells[1].shown, "two");
}
