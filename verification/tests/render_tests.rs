use anno::column::{AnnotationColumn, ColumnCursor};
use anno::compose::compose;
use anno::diff::Style;
use anno::document::TargetDocument;
use anno::errors::AnnoError;
use anno::producer::ProducerSpec;
use anno::render::{render, table_to_text};
use anno::text::{fit_to_width, pad_to_width, split_lines, usize_to_decimal};

fn spec(name: &str) -> ProducerSpec {
    ProducerSpec {
        name: name.to_string(),
        source: String::new(),
        params: Vec::new(),
    }
}

fn column(name: &str, captured: &str, expected: usize) -> AnnotationColumn {
    AnnotationColumn::build(spec(name), captured, expected).unwrap()
}

#[test]
fn split_lines_cases() {
    let empty: Vec<String> = Vec::new();
    assert_eq!(split_lines(""), empty);
    assert_eq!(split_lines("a"), vec!["a".to_string()]);
    assert_eq!(split_lines("a\nb"), vec!["a".to_string(), "b".to_string()]);
    assert_eq!(split_lines("a\nb\n"), vec!["a".to_string(), "b".to_string()]);
    assert_eq!(split_lines("a\r\nb\r\n"), vec!["a".to_string(), "b".to_string()]);
    assert_eq!(split_lines("\n"), vec!["".to_string()]);
    assert_eq!(split_lines(" \n \n"), vec![" ".to_string(), " ".to_string()]);
}

#[test]
fn padding_and_fitting() {
    assert_eq!(pad_to_width("ab", 4), "ab  ");
    assert_eq!(pad_to_width("ab", 2), "ab");
    assert_eq!(pad_to_width("", 3), "   ");
    assert_eq!(fit_to_width("abcdef", 4), "abcd");
    assert_eq!(fit_to_width("ab", 4), "ab  ");
}

#[test]
fn decimal_rendering() {
    assert_eq!(usize_to_decimal(0), "0");
    assert_eq!(usize_to_decimal(7), "7");
    assert_eq!(usize_to_decimal(10), "10");
    assert_eq!(usize_to_decimal(120), "120");
    assert_eq!(usize_to_decimal(90210), "90210");
}

#[test]
fn column_width_is_longest_line() {
    let c = column("w", "ab\nx\n\ncdef", 4);
    assert_eq!(c.width, 4);
    let c = column("w", "", 0);
    assert_eq!(c.width, 0);
}

#[test]
fn count_mismatch_is_fatal() {
    let r = AnnotationColumn::build(spec("cov"), "x\nx", 3);
    match r {
        Err(AnnoError::AnnotationCountMismatch {
            producer,
            expected,
            actual,
        }) => {
            assert_eq!(producer, "cov");
            assert_eq!(expected, 3);
            assert_eq!(actual, 2);
        }
        _ => panic!("expected AnnotationCountMismatch"),
    }
}

#[test]
fn compose_rejects_short_output_and_renders_nothing() {
    let doc = TargetDocument::new("t.c".to_string(), "a\nb\nc\n");
    let captured = vec![(spec("one"), "x\n \nx\n".to_string()), (spec("two"), "x\nx\n".to_string())];
    let r = compose(&doc, captured, false, false);
    match r {
        Err(AnnoError::AnnotationCountMismatch {
            producer,
            expected,
            actual,
        }) => {
            assert_eq!(producer, "two");
            assert_eq!(expected, 3);
            assert_eq!(actual, 2);
        }
        _ => panic!("expected AnnotationCountMismatch"),
    }
}

#[test]
fn header_and_one_row_per_line() {
    let target = TargetDocument::new("t.c".to_string(), "l1\nl2\nl3\n");
    let x = column("x", "a\na\nb\n", 3);
    let y = column("y", "a\nc\nb\n", 3);
    let cols = vec![x, y];
    let table = render(&target.lines, &cols, false, false);
    assert_eq!(table.header.len(), 2);
    assert_eq!(table.rows.len(), 3);
    for row in &table.rows {
        assert_eq!(row.cells.len(), 2);
    }
}

#[test]
fn cell_width_matches_column_width() {
    let target = TargetDocument::new("t.c".to_string(), "l1\nl2\nl3\n");
    let c = column("widename", "ab\n\ncdef\n", 3);
    let cols = vec![c];
    let table = render(&target.lines, &cols, false, false);
    assert_eq!(table.header[0], "wide");
    for row in &table.rows {
        assert_eq!(row.cells[0].text.chars().count(), 4);
    }
}

#[test]
fn diff_only_emits_exactly_disagreeing_lines() {
    let target = TargetDocument::new("t.c".to_string(), "l1\nl2\nl3\n");
    let x = column("x", "a\na\nb\n", 3);
    let y = column("y", "a\nc\nb\n", 3);
    let cols = vec![x, y];
    let table = render(&target.lines, &cols, false, true);
    assert_eq!(table.rows.len(), 1);
    assert_eq!(table.rows[0].source, "l2");
    assert_eq!(table.rows[0].cells[0].text, "a");
    assert_eq!(table.rows[0].cells[1].text, "c");
}

#[test]
fn diff_highlights_disagreeing_cells() {
    let target = TargetDocument::new("t.c".to_string(), "l1\nl2\nl3\n");
    let x = column("x", "a\na\nb\n", 3);
    let y = column("y", "a\nc\nb\n", 3);
    let cols = vec![x, y];
    let table = render(&target.lines, &cols, true, false);
    assert_eq!(table.rows.len(), 3);
    assert_eq!(table.rows[0].cells[0].style, Style::Normal);
    assert_eq!(table.rows[0].cells[1].style, Style::Normal);
    assert_eq!(table.rows[1].cells[0].style, Style::EmphasisA);
    assert_eq!(table.rows[1].cells[1].style, Style::EmphasisB);
    assert_eq!(table.rows[2].cells[0].style, Style::Normal);
    assert_eq!(table.rows[2].cells[1].style, Style::Normal);
}

#[test]
fn third_column_renders_unstyled() {
    let target = TargetDocument::new("t.c".to_string(), "l1\nl2\n");
    let cols = vec![
        column("x", "a\nb\n", 2),
        column("y", "c\nd\n", 2),
        column("z", "e\nf\n", 2),
    ];
    let table = render(&target.lines, &cols, true, false);
    for row in &table.rows {
        assert_eq!(row.cells[2].style, Style::Normal);
    }
}

#[test]
fn single_column_is_never_filtered_or_styled() {
    let target = TargetDocument::new("t.c".to_string(), "l1\nl2\n");
    let cols = vec![column("x", "a\nb\n", 2)];
    let table = render(&target.lines, &cols, true, true);
    assert_eq!(table.rows.len(), 2);
    for row in &table.rows {
        assert_eq!(row.cells[0].style, Style::Normal);
    }
}

#[test]
fn no_producers_yields_bare_document() {
    let target = TargetDocument::new("t.c".to_string(), "int a;\nint b;\n");
    let cols = Vec::new();
    let table = render(&target.lines, &cols, false, false);
    assert_eq!(table.header.len(), 0);
    assert_eq!(table.rows.len(), 2);
    assert_eq!(table.rows[0].source, "int a;");
    assert_eq!(table.rows[1].source, "int b;");
    assert_eq!(table_to_text(&table), "int a;\nint b;\n");
}

#[test]
fn rendered_text_layout() {
    let doc = TargetDocument::new("t.c".to_string(), "int a;\nint b;\nint c;\n");
    let captured = vec![(spec("x"), "a\na\nb\n".to_string()), (spec("y"), "a\nc\nb\n".to_string())];
    let table = compose(&doc, captured, false, true).unwrap();
    assert_eq!(table_to_text(&table), "x | y | \na | c | int b;\n");
}

#[test]
fn identical_runs_render_byte_identical_tables() {
    let doc = TargetDocument::new("t.c".to_string(), "l1\nl2\nl3\n");
    let captured = || {
        vec![
            (spec("x"), "one\ntwo\nthree\n".to_string()),
            (spec("y"), "one\n2\nthree\n".to_string()),
        ]
    };
    let first = compose(&doc, captured(), true, false).unwrap();
    let second = compose(&doc, captured(), true, false).unwrap();
    assert_eq!(first, second);
    assert_eq!(table_to_text(&first), table_to_text(&second));
}

#[test]
fn peek_never_consumes() {
    let col = column("x", "a\nb\n", 2);
    let mut cur = ColumnCursor::new();
    let peeked = cur.peek(&col).clone();
    let consumed = cur.consume(&col);
    assert_eq!(peeked, consumed);
    assert_eq!(consumed, "a");
    assert_eq!(cur.pos, 1);
    assert_eq!(cur.peek(&col).as_str(), "b");
    assert_eq!(cur.pos, 1);
}

#[test]
fn single_space_line_means_no_annotation() {
    let col = column("cov", " \nx\n \n", 3);
    assert_eq!(col.lines, vec![" ".to_string(), "x".to_string(), " ".to_string()]);
    assert_eq!(col.width, 1);
}

#[test]
fn filter_and_highlight_compose() {
    let target = TargetDocument::new("t.c".to_string(), "l1\nl2\nl3\n");
    let cols = vec![column("x", "a\na\nb\n", 3), column("y", "a\nc\nb\n", 3)];
    let table = render(&target.lines, &cols, true, true);
    assert_eq!(table.rows.len(), 1);
    assert_eq!(table.rows[0].cells[0].style, Style::EmphasisA);
    assert_eq!(table.rows[0].cells[1].style, Style::EmphasisB);
    assert_eq!(table.rows[0].source, "l2");
}
