//! End-to-end checks of the record builder, the row shapes, the selector
//! probe and the tabular sink.

use check_html::extract::count_selector_matches;
use check_html::record::build_record;
use check_html::record::default_lang;
use check_html::record::lang_hint;
use check_html::record::transform_outcome;
use check_html::row::header_fields;
use check_html::row::row_fields;
use check_html::sink::Sink;

#[test]
fn transform_outcome_success() {
    let (size, error) = transform_outcome(Ok(7));
    assert_eq!(size, Some(7));
    assert_eq!(error, None);
}

#[test]
fn transform_outcome_failure() {
    let (size, error) = transform_outcome(Err("ParseError(\"bad\")".to_string()));
    assert_eq!(size, None);
    assert_eq!(error, Some("ParseError(\"bad\")".to_string()));
}

#[test]
fn lang_hint_detected_and_fallback() {
    let detected = Some("fr".to_string());
    assert_eq!(lang_hint(&detected, "en"), "fr");
    let missing: Option<String> = None;
    assert_eq!(lang_hint(&missing, "en"), "en");
    assert_eq!(default_lang(), "en");
}

#[test]
fn record_is_mutually_exclusive() {
    let ok = build_record("a.html".to_string(), None, None, None, 10, Ok(4));
    assert!(ok.is_wf());
    assert_eq!(ok.processed_size, Some(4));
    assert_eq!(ok.error, None);
    let bad = build_record("a.html".to_string(), None, None, None, 10, Err("E".to_string()));
    assert!(bad.is_wf());
    assert_eq!(bad.processed_size, None);
    assert_eq!(bad.error, Some("E".to_string()));
}

#[test]
fn successful_page_row() {
    let rec = build_record(
        "page_ok.html".to_string(),
        Some("fr".to_string()),
        Some("Example".to_string()),
        Some("Other page".to_string()),
        120,
        Ok(98),
    );
    let counts: Vec<usize> = vec![];
    let fields = row_fields(&rec, &counts);
    assert_eq!(
        fields,
        vec!["page_ok.html", "fr", "Example", "120", "98", "", "Other page"]
    );
}

#[test]
fn failing_page_row() {
    let rec = build_record(
        "page_bad.html".to_string(),
        Some("fr".to_string()),
        None,
        Some("Other page".to_string()),
        64,
        Err("NoRecognizedLang".to_string()),
    );
    let counts: Vec<usize> = vec![];
    let fields = row_fields(&rec, &counts);
    assert_eq!(fields[4], "");
    assert_eq!(fields[5], "NoRecognizedLang");
    assert_eq!(fields[1], "fr");
    assert_eq!(fields[6], "Other page");
}

#[test]
fn zero_selectors_header_and_row_width() {
    let labels: Vec<String> = vec![];
    let header = header_fields(&labels);
    assert_eq!(
        header,
        vec!["file", "lang", "title", "original_size", "processed_size", "error", "redirect"]
    );
    let rec = build_record("a.html".to_string(), None, None, None, 0, Ok(0));
    let fields = row_fields(&rec, &vec![]);
    assert_eq!(fields.len(), header.len());
}

#[test]
fn two_selectors_counts_in_order() {
    let doc = scraper::Html::parse_document(
        "<html><body><p>a</p><p>b</p><p>c</p></body></html>",
    );
    let selectors = vec![
        scraper::Selector::parse("p").unwrap(),
        scraper::Selector::parse("em").unwrap(),
    ];
    let counts = count_selector_matches(&doc, &selectors);
    assert_eq!(counts, vec![3, 0]);
    let rec = build_record("a.html".to_string(), None, None, None, 48, Ok(48));
    let fields = row_fields(&rec, &counts);
    assert_eq!(fields.len(), 9);
    assert_eq!(fields[7], "3");
    assert_eq!(fields[8], "0");
}

#[test]
fn extraction_is_idempotent() {
    let doc = scraper::Html::parse_document("<html><body><p>a</p><em>b</em></body></html>");
    let selectors = vec![
        scraper::Selector::parse("p").unwrap(),
        scraper::Selector::parse("em").unwrap(),
        scraper::Selector::parse("div").unwrap(),
    ];
    let first = count_selector_matches(&doc, &selectors);
    let second = count_selector_matches(&doc, &selectors);
    assert_eq!(first, second);
}

#[test]
fn decimal_rendering_exact() {
    let rec = build_record("a.html".to_string(), None, None, None, 9876543, Ok(0));
    let fields = row_fields(&rec, &vec![]);
    assert_eq!(fields[3], "9876543");
    assert_eq!(fields[4], "0");
}

#[test]
fn header_line_bytes() {
    let labels: Vec<String> = vec![];
    let (_sink, header) = Sink::new(&labels);
    assert_eq!(
        header,
        b"file\tlang\ttitle\toriginal_size\tprocessed_size\terror\tredirect\n".to_vec()
    );
}

#[test]
fn row_line_bytes_with_selector_column() {
    let labels = vec!["p".to_string()];
    let (mut sink, header) = Sink::new(&labels);
    assert_eq!(
        header,
        b"file\tlang\ttitle\toriginal_size\tprocessed_size\terror\tredirect\tp\n".to_vec()
    );
    assert_eq!(sink.width(), 1);
    let rec = build_record("a.html".to_string(), None, None, None, 5, Ok(3));
    let line = sink.write_row(&rec, &vec![2usize]);
    assert_eq!(line, b"a.html\t\t\t5\t3\t\t\t2\n".to_vec());
}

#[test]
fn rows_in_input_order() {
    let labels: Vec<String> = vec![];
    let (mut sink, _header) = Sink::new(&labels);
    let first = build_record("one.html".to_string(), None, None, None, 1, Ok(1));
    let second = build_record("two.html".to_string(), None, None, None, 2, Ok(2));
    let mut out = Vec::new();
    out.extend(sink.write_row(&first, &vec![]));
    out.extend(sink.write_row(&second, &vec![]));
    let text = String::from_utf8(out).unwrap();
    let lines: Vec<&str> = text.lines().collect();
    assert_eq!(lines.len(), 2);
    assert!(lines[0].starts_with("one.html\t"));
    assert!(lines[1].starts_with("two.html\t"));
}

#[test]
fn awkward_fields_round_trip() {
    let labels: Vec<String> = vec![];
    let (mut sink, _header) = Sink::new(&labels);
    let rec = build_record(
        "tab\tin name.html".to_string(),
        Some("en".to_string()),
        Some("A \"quoted\" title".to_string()),
        None,
        0,
        Err("Tab\there".to_string()),
    );
    let line = sink.write_row(&rec, &vec![]);
    let mut reader = csv::ReaderBuilder::new()
        .delimiter(b'\t')
        .has_headers(false)
        .from_reader(&line[..]);
    let records: Vec<csv::StringRecord> = reader.records().map(|r| r.unwrap()).collect();
    assert_eq!(records.len(), 1);
    assert_eq!(records[0].len(), 7);
    assert_eq!(&records[0][0], "tab\tin name.html");
    assert_eq!(&records[0][2], "A \"quoted\" title");
    assert_eq!(&records[0][5], "Tab\there");
}
