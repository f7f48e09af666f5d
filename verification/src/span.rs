//! Where in its source a parsing failure lies, and how that is reported.

use crate::decimal::{decimal, decimal_text};
use vstd::prelude::*;
use vstd::string::*;

verus! {

/// A position in a text, counted from zero.
#[derive(Debug, Clone, Copy, PartialEq, Eq)]
pub struct Point {
    pub row: u32,
    pub column: u32,
}

/// A stretch of a text, by bytes and by positions.
#[derive(Debug, Clone, Copy, PartialEq, Eq)]
pub struct Range {
    pub start_byte: u32,
    pub end_byte: u32,
    pub start_point: Point,
    pub end_point: Point,
}

impl Point {
    /// The position in the given row and column.
    pub fn new(row: u32, column: u32) -> (point: Point)
        ensures
            point == (Point { row, column }),
    {
        Point { row, column }
    }
}

impl Range {
    /// The stretch between the given bytes and positions.
    pub fn new(start_byte: u32, end_byte: u32, start_point: &Point, end_point: &Point) -> (range:
        Range)
        ensures
            range == (Range {
                start_byte,
                end_byte,
                start_point: *start_point,
                end_point: *end_point,
            }),
    {
        Range { start_byte, end_byte, start_point: *start_point, end_point: *end_point }
    }

    /// The number of bytes from the first to the one past the last; none
    /// where the end lies before the start.
    pub open spec fn byte_len(self) -> nat {
        if self.end_byte >= self.start_byte {
            (self.end_byte - self.start_byte) as nat
        } else {
            0
        }
    }

    /// Whether the stretch lies within the first `len` bytes.
    pub open spec fn within(self, len: nat) -> bool {
        self.start_byte + self.byte_len() <= len
    }
}

/// The number of bytes that a text takes.
pub open spec fn byte_count(text: Seq<char>) -> nat {
    vstd::utf8::encode_utf8(text).len()
}

/// The sentence that tells a reader where a parsing failure lies.
pub open spec fn position_report(range: Range) -> Seq<char> {
    "Parsing error between line "@ + decimal_text(range.start_point.row as nat) + ", column "@
        + decimal_text(range.start_point.column as nat) + " and line "@ + decimal_text(
        range.end_point.row as nat,
    ) + ", column "@ + decimal_text(range.end_point.column as nat)
}

/// A syntax node that could not be parsed: its place, and what is known of
/// the source it was found in.
#[derive(Debug, Clone, PartialEq, Eq)]
pub struct NodeSpan {
    pub range: Range,
    /// The whole source text.
    pub content: Option<String>,
    /// The name of the source, such as a file's path.
    pub location: Option<String>,
    pub language: &'static str,
}

/// What a text that may be absent stands for: the text, or the empty one.
pub open spec fn text_or_empty(text: Option<String>) -> Seq<char> {
    match text {
        Some(text) => text@,
        None => Seq::empty(),
    }
}

/// A source excerpt with the range of a failure in it.
#[derive(Debug, Clone, PartialEq, Eq)]
pub struct ErrorSpan {
    name: String,
    content: String,
    language: &'static str,
    offset: usize,
    length: usize,
    range: Range,
}

/// An `ErrorSpan` as a mathematical value.
pub struct SpanView {
    pub name: Seq<char>,
    pub content: Seq<char>,
    pub language: Seq<char>,
    pub offset: nat,
    pub length: nat,
    pub range: Range,
}

impl View for ErrorSpan {
    type V = SpanView;

    closed spec fn view(&self) -> SpanView {
        SpanView {
            name: self.name@,
            content: self.content@,
            language: self.language@,
            offset: self.offset as nat,
            length: self.length as nat,
            range: self.range,
        }
    }
}

impl SpanView {
    /// The highlighted bytes lie within the source text.
    pub open spec fn in_bounds(self) -> bool {
        self.offset + self.length <= byte_count(self.content)
    }
}

/// No spec function stands for `from`: to spec code a `String` is known by
/// its characters only, so the span that `from` returns is described by the
/// `ensures` of `from`, over its view.
impl vstd::std_specs::convert::FromSpecImpl<NodeSpan> for ErrorSpan {
    open spec fn obeys_from_spec() -> bool {
        false
    }

    open spec fn from_spec(span: NodeSpan) -> ErrorSpan {
        arbitrary()
    }
}

impl From<NodeSpan> for ErrorSpan {
    /// Packages a located failure for display. Name and content are taken
    /// as they are, or empty where absent; the highlighted bytes are those
    /// of the range.
    fn from(span: NodeSpan) -> (error_span: ErrorSpan)
        ensures
            error_span@ == (SpanView {
                name: text_or_empty(span.location),
                content: text_or_empty(span.content),
                language: span.language@,
                offset: span.range.start_byte as nat,
                length: span.range.byte_len(),
                range: span.range,
            }),
            error_span@.in_bounds() <==> span.range.within(byte_count(text_or_empty(span.content))),
    {
        let range = span.range;
        let name = match span.location {
            Some(location) => location,
            None => String::new(),
        };
        let content = match span.content {
            Some(content) => content,
            None => String::new(),
        };
        let length: u32 = if range.end_byte >= range.start_byte {
            range.end_byte - range.start_byte
        } else {
            0
        };
        ErrorSpan {
            name,
            content,
            language: span.language,
            offset: range.start_byte as usize,
            length: length as usize,
            range,
        }
    }
}

impl ErrorSpan {
    /// The sentence that tells a reader where the failure lies: the rows
    /// and columns of the range, counted from zero.
    pub fn render(&self) -> (text: String)
        ensures
            text@ == position_report(self@.range),
    {
        let mut text = String::from_str("Parsing error between line ");
        text.append(decimal(self.range.start_point.row).as_str());
        text.append(", column ");
        text.append(decimal(self.range.start_point.column).as_str());
        text.append(" and line ");
        text.append(decimal(self.range.end_point.row).as_str());
        text.append(", column ");
        text.append(decimal(self.range.end_point.column).as_str());
        text
    }

    /// The name of the source, empty where none was known.
    pub fn name(&self) -> (name: &str)
        ensures
            name@ == self@.name,
    {
        self.name.as_str()
    }

    /// The whole source text, empty where none was known.
    pub fn content(&self) -> (content: &str)
        ensures
            content@ == self@.content,
    {
        self.content.as_str()
    }

    /// The language of the source.
    pub fn language(&self) -> (language: &'static str)
        ensures
            language@ == self@.language,
    {
        self.language
    }

    /// The byte at which the highlighted part starts.
    pub fn offset(&self) -> (offset: usize)
        ensures
            offset == self@.offset,
    {
        self.offset
    }

    /// The number of highlighted bytes.
    pub fn length(&self) -> (length: usize)
        ensures
            length == self@.length,
    {
        self.length
    }

    /// The rows and columns between which the failure lies.
    pub fn range(&self) -> (range: Range)
        ensures
            range == self@.range,
    {
        self.range
    }
}

impl std::fmt::Display for ErrorSpan {
    /// Writes what `render` returns.
    fn fmt(&self, f: &mut std::fmt::Formatter<'_>) -> std::fmt::Result {
        let text = self.render();
        f.write_str(text.as_str())
    }
}

impl std::error::Error for ErrorSpan {

}

} // verus!
