//! The failure kinds a formatting run can end in, and the text shown for each.

use vstd::prelude::*;
use vstd::string::*;

verus! {

/// Request to report a failure that can only come from a defect of the
/// formatter or of its built-in query files.
pub const PLEASE_LOG_MESSAGE: &'static str =
    "If this happened with the built-in query files, it is a bug. It would be\nhelpful if you logged this error at\nhttps://github.com/tweag/topiary/issues/new?assignees=&labels=type%3A+bug&template=bug_report.md";

/// What is said before the request when a second pass changed the output.
pub const IDEMPOTENCE_MESSAGE: &'static str =
    "The formatter did not produce the same\nresult when invoked twice (idempotence check).\n\n";

/// What is said before the request when a second pass could not parse the output.
pub const IDEMPOTENCE_PARSING_MESSAGE: &'static str =
    "The formatter produced invalid output and\nfailed when trying to format twice (idempotence check).\n\n";

/// What follows the request when a second pass could not parse the output.
pub const IDEMPOTENCE_PARSING_NOTE: &'static str =
    "\n\nThe following is the error received when running the second time, but note\nthat any line and column numbers refer to the formatted code, not the\noriginal input. Run Topiary with the --skip-idempotence flag to see this\ninvalid formatted code.";

/// Shown when the input has syntax errors.
pub const PARSING_MESSAGE: &'static str = "Tree-sitter could not parse the input without errors.";

/// Shown when a pattern of the query matched nothing.
pub const PATTERN_DOES_NOT_MATCH_MESSAGE: &'static str =
    "The query contains a pattern that does not match the input";

/// The various errors the formatter may return.
#[derive(Debug, Clone, PartialEq, Eq)]
pub enum FormatterError {
    /// The input produced output that isn't idempotent, i.e. formatting the
    /// output again made further changes.
    Idempotence,
    /// The input produced invalid output, i.e. formatting the output again
    /// led to a parsing error.
    IdempotenceParsing,
    /// An internal error occurred.
    Internal(String),
    /// The input could not be parsed without errors.
    Parsing,
    /// The query contains a pattern that had no match in the input.
    PatternDoesNotMatch,
    /// There was an error in the query file.
    Query(String),
    /// I/O-related errors.
    Io(String),
}

/// A failure kind as a mathematical value: the variant, and the message it
/// carries as a sequence of characters.
pub enum Failure {
    Idempotence,
    IdempotenceParsing,
    Internal(Seq<char>),
    Parsing,
    PatternDoesNotMatch,
    Query(Seq<char>),
    Io(Seq<char>),
}

impl Failure {
    /// The text shown to the user for this failure.
    pub open spec fn message(self) -> Seq<char> {
        match self {
            Failure::Idempotence => IDEMPOTENCE_MESSAGE@ + PLEASE_LOG_MESSAGE@,
            Failure::IdempotenceParsing => IDEMPOTENCE_PARSING_MESSAGE@ + PLEASE_LOG_MESSAGE@
                + IDEMPOTENCE_PARSING_NOTE@,
            Failure::Parsing => PARSING_MESSAGE@,
            Failure::PatternDoesNotMatch => PATTERN_DOES_NOT_MATCH_MESSAGE@,
            Failure::Internal(message) | Failure::Query(message) | Failure::Io(message) => message,
        }
    }
}

impl View for FormatterError {
    type V = Failure;

    open spec fn view(&self) -> Failure {
        match self {
            FormatterError::Idempotence => Failure::Idempotence,
            FormatterError::IdempotenceParsing => Failure::IdempotenceParsing,
            FormatterError::Internal(message) => Failure::Internal(message@),
            FormatterError::Parsing => Failure::Parsing,
            FormatterError::PatternDoesNotMatch => Failure::PatternDoesNotMatch,
            FormatterError::Query(message) => Failure::Query(message@),
            FormatterError::Io(message) => Failure::Io(message@),
        }
    }
}

impl FormatterError {
    /// The text shown to the user for this error.
    pub fn render(&self) -> (text: String)
        ensures
            text@ == self@.message(),
    {
        match self {
            FormatterError::Idempotence => {
                let mut text = String::from_str(IDEMPOTENCE_MESSAGE);
                text.append(PLEASE_LOG_MESSAGE);
                text
            },
            FormatterError::IdempotenceParsing => {
                let mut text = String::from_str(IDEMPOTENCE_PARSING_MESSAGE);
                text.append(PLEASE_LOG_MESSAGE);
                text.append(IDEMPOTENCE_PARSING_NOTE);
                text
            },
            FormatterError::Parsing => String::from_str(PARSING_MESSAGE),
            FormatterError::PatternDoesNotMatch => String::from_str(PATTERN_DOES_NOT_MATCH_MESSAGE),
            FormatterError::Internal(message)
            | FormatterError::Query(message)
            | FormatterError::Io(message) => message.clone(),
        }
    }
}

/// Whether `needle` stands in `text` between some `before` and some `after`.
pub open spec fn occurs_in(needle: Seq<char>, text: Seq<char>) -> bool {
    exists|before: Seq<char>, after: Seq<char>| text == #[trigger] framed(before, needle, after)
}

/// `needle` with `before` in front of it and `after` behind it.
pub open spec fn framed(before: Seq<char>, needle: Seq<char>, after: Seq<char>) -> Seq<char> {
    before + needle + after
}

/// A kind that carries a message of its own shows that message and
/// nothing else.
pub proof fn lemma_payload_shown_as_is(message: Seq<char>)
    ensures
        Failure::Internal(message).message() == message,
        Failure::Query(message).message() == message,
        Failure::Io(message).message() == message,
{
}

/// Among the kinds that carry no message of their own, exactly the two
/// idempotence failures ask for a bug report.
pub proof fn lemma_bug_report_request(kind: Failure)
    requires
        !(kind is Internal),
        !(kind is Query),
        !(kind is Io),
    ensures
        occurs_in(PLEASE_LOG_MESSAGE@, kind.message()) <==> (kind is Idempotence
            || kind is IdempotenceParsing),
{
    reveal_strlit("If this happened with the built-in query files, it is a bug. It would be\nhelpful if you logged this error at\nhttps://github.com/tweag/topiary/issues/new?assignees=&labels=type%3A+bug&template=bug_report.md");
    reveal_strlit("Tree-sitter could not parse the input without errors.");
    reveal_strlit("The query contains a pattern that does not match the input");
    match kind {
        Failure::Idempotence => {
            assert(kind.message() == framed(IDEMPOTENCE_MESSAGE@, PLEASE_LOG_MESSAGE@, Seq::empty()));
        },
        Failure::IdempotenceParsing => {
            assert(kind.message() == framed(
                IDEMPOTENCE_PARSING_MESSAGE@,
                PLEASE_LOG_MESSAGE@,
                IDEMPOTENCE_PARSING_NOTE@,
            ));
        },
        _ => {
            assert(kind.message().len() < PLEASE_LOG_MESSAGE@.len());
            assert forall|before: Seq<char>, after: Seq<char>|
                kind.message() != #[trigger] framed(before, PLEASE_LOG_MESSAGE@, after) by {
                assert(framed(before, PLEASE_LOG_MESSAGE@, after).len() >= PLEASE_LOG_MESSAGE@.len());
            }
        },
    }
}

impl std::fmt::Display for FormatterError {
    /// Writes what `render` returns.
    fn fmt(&self, f: &mut std::fmt::Formatter<'_>) -> std::fmt::Result {
        let text = self.render();
        f.write_str(text.as_str())
    }
}

impl std::error::Error for FormatterError {

}

/// The file that a report is about; attached to a report.
pub struct Filename(pub std::path::PathBuf);

/// The source text that a report is about; attached to a report.
pub struct Source(pub String);

/// The language of the source that a report is about; attached to a report.
pub struct Language(pub &'static str);

} // verus!
