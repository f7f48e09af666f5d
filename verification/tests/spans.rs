use topiary_core::decimal::decimal;
use topiary_core::span::{ErrorSpan, NodeSpan, Point, Range};

fn node(start: (u32, u32), end: (u32, u32), bytes: (u32, u32)) -> NodeSpan {
    NodeSpan {
        range: Range::new(
            bytes.0,
            bytes.1,
            &Point::new(start.0, start.1),
            &Point::new(end.0, end.1),
        ),
        content: None,
        location: None,
        language: "rust",
    }
}

#[test]
fn span_reports_rows_and_columns_from_zero() {
    let mut located = node((0, 0), (0, 8), (0, 8));
    located.location = Some("a.rs".to_string());
    located.content = Some("fn f() {".to_string());
    let span = ErrorSpan::from(located);
    assert_eq!(
        span.render(),
        "Parsing error between line 0, column 0 and line 0, column 8"
    );
    assert_eq!(
        span.to_string(),
        "Parsing error between line 0, column 0 and line 0, column 8"
    );
}

#[test]
fn span_keeps_what_it_was_given() {
    let mut located = node((0, 0), (0, 8), (0, 8));
    located.location = Some("a.rs".to_string());
    located.content = Some("fn f() {".to_string());
    let span = ErrorSpan::from(located);
    assert_eq!(span.name(), "a.rs");
    assert_eq!(span.content(), "fn f() {");
    assert_eq!(span.language(), "rust");
    assert_eq!(span.offset(), 0);
    assert_eq!(span.length(), 8);
    assert_eq!(
        span.range(),
        Range::new(0, 8, &Point::new(0, 0), &Point::new(0, 8))
    );
}

#[test]
fn span_without_name_and_content_has_empty_ones() {
    let span = ErrorSpan::from(node((3, 1), (4, 0), (30, 42)));
    assert_eq!(span.name(), "");
    assert_eq!(span.content(), "");
    assert_eq!(span.offset(), 30);
    assert_eq!(span.length(), 12);
    assert_eq!(
        span.render(),
        "Parsing error between line 3, column 1 and line 4, column 0"
    );
}

#[test]
fn span_with_a_name_only() {
    let mut located = node((1, 2), (1, 5), (12, 15));
    located.location = Some("query.scm".to_string());
    let span = ErrorSpan::from(located);
    assert_eq!(span.name(), "query.scm");
    assert_eq!(span.content(), "");
}

#[test]
fn span_whose_end_lies_before_its_start_highlights_nothing() {
    let span = ErrorSpan::from(node((2, 0), (1, 0), (20, 10)));
    assert_eq!(span.offset(), 20);
    assert_eq!(span.length(), 0);
    assert_eq!(
        span.render(),
        "Parsing error between line 2, column 0 and line 1, column 0"
    );
}

#[test]
fn span_reports_large_rows_and_columns() {
    let span = ErrorSpan::from(node((10, 99), (4294967295, 100), (0, 4294967295)));
    assert_eq!(
        span.render(),
        "Parsing error between line 10, column 99 and line 4294967295, column 100"
    );
    assert_eq!(span.length(), 4294967295);
}

#[test]
fn numbers_are_written_in_decimal() {
    assert_eq!(decimal(0), "0");
    assert_eq!(decimal(7), "7");
    assert_eq!(decimal(9), "9");
    assert_eq!(decimal(10), "10");
    assert_eq!(decimal(101), "101");
    assert_eq!(decimal(1000), "1000");
    assert_eq!(decimal(65535), "65535");
    assert_eq!(decimal(4294967295), "4294967295");
}

#[test]
fn decimal_agrees_with_the_standard_notation() {
    let mut n: u32 = 1;
    for _ in 0..32 {
        assert_eq!(decimal(n), n.to_string());
        assert_eq!(decimal(n - 1), (n - 1).to_string());
        assert_eq!(decimal(n).parse::<u32>(), Ok(n));
        n = n.wrapping_mul(2);
        if n == 0 {
            break;
        }
    }
}

#[test]
fn points_and_ranges_hold_their_parts() {
    let start = Point::new(1, 2);
    let end = Point::new(3, 4);
    let range = Range::new(5, 6, &start, &end);
    assert_eq!(start.row, 1);
    assert_eq!(start.column, 2);
    assert_eq!(range.start_byte, 5);
    assert_eq!(range.end_byte, 6);
    assert_eq!(range.start_point, start);
    assert_eq!(range.end_point, end);
}
