//! From the failures of the parser, the query engine, the serialiser and
//! the operating system to the formatter's own kinds. Which kind a failure
//! becomes depends on its type alone, except for I/O errors, where it
//! depends on whether something was not found.

use crate::error::{Failure, FormatterError};
use vstd::prelude::*;
use vstd::string::*;

verus! {

/// Shown when the input is not UTF-8.
pub const INVALID_UTF8_MESSAGE: &'static str = "Input is not valid UTF-8";

/// Shown when the formatted text could not be written out.
pub const FORMAT_MESSAGE: &'static str = "Failed to format output";

/// Shown when the output could not be written as JSON.
pub const JSON_MESSAGE: &'static str = "Could not serialise JSON output";

/// Shown when a grammar could not be loaded.
pub const LANGUAGE_MESSAGE: &'static str = "Error while loading language grammar";

/// Shown when a parser could not be set up.
pub const PARSER_MESSAGE: &'static str = "Error while parsing";

/// Shown when a query did not compile.
pub const QUERY_MESSAGE: &'static str = "Error parsing query file";

/// Shown when buffered output could not be flushed.
pub const FLUSH_MESSAGE: &'static str = "Cannot flush internal buffer";

/// Shown when a file or another resource was not found.
pub const NOT_FOUND_MESSAGE: &'static str = "File not found";

/// Shown for every other failure of the file system or of a stream.
pub const READ_WRITE_MESSAGE: &'static str = "Could not read or write to file";

/// The message for an I/O error of the given kind: one for what was not
/// found, another for every other kind.
pub open spec fn io_message(kind: std::io::ErrorKind) -> Seq<char> {
    if kind == std::io::ErrorKind::NotFound {
        NOT_FOUND_MESSAGE@
    } else {
        READ_WRITE_MESSAGE@
    }
}

/// The two I/O messages differ, so the message tells whether something
/// was not found.
pub proof fn lemma_not_found_is_told_apart(kind: std::io::ErrorKind)
    ensures
        io_message(kind) == NOT_FOUND_MESSAGE@ <==> kind == std::io::ErrorKind::NotFound,
        io_message(kind) == READ_WRITE_MESSAGE@ <==> kind != std::io::ErrorKind::NotFound,
{
    reveal_strlit("File not found");
    reveal_strlit("Could not read or write to file");
    assert(NOT_FOUND_MESSAGE@.len() != READ_WRITE_MESSAGE@.len());
}

/// Bytes borrowed as text that are not UTF-8 are an I/O error.
pub fn from_utf8_error(_cause: &std::str::Utf8Error) -> (error: FormatterError)
    ensures
        error@ == Failure::Io(INVALID_UTF8_MESSAGE@),
{
    FormatterError::Io(String::from_str(INVALID_UTF8_MESSAGE))
}

/// Bytes taken over as text that are not UTF-8 are the same I/O error.
pub fn from_string_utf8_error(_cause: &std::string::FromUtf8Error) -> (error: FormatterError)
    ensures
        error@ == Failure::Io(INVALID_UTF8_MESSAGE@),
{
    FormatterError::Io(String::from_str(INVALID_UTF8_MESSAGE))
}

/// Output that could not be written out is an I/O error.
pub fn from_fmt_error(_cause: &std::fmt::Error) -> (error: FormatterError)
    ensures
        error@ == Failure::Io(FORMAT_MESSAGE@),
{
    FormatterError::Io(String::from_str(FORMAT_MESSAGE))
}

/// A failure of the JSON serialiser is an I/O error.
pub fn from_json_error(_cause: &serde_json::Error) -> (error: FormatterError)
    ensures
        error@ == Failure::Io(JSON_MESSAGE@),
{
    FormatterError::Io(String::from_str(JSON_MESSAGE))
}

/// A grammar that could not be loaded is an I/O error.
pub fn from_language_error(_cause: &topiary_tree_sitter_facade::LanguageError) -> (error:
    FormatterError)
    ensures
        error@ == Failure::Io(LANGUAGE_MESSAGE@),
{
    FormatterError::Io(String::from_str(LANGUAGE_MESSAGE))
}

/// A parser that could not be set up is an I/O error.
pub fn from_parser_error(_cause: &topiary_tree_sitter_facade::ParserError) -> (error:
    FormatterError)
    ensures
        error@ == Failure::Io(PARSER_MESSAGE@),
{
    FormatterError::Io(String::from_str(PARSER_MESSAGE))
}

/// A query that did not compile is a query error.
pub fn from_query_error(_cause: &topiary_tree_sitter_facade::QueryError) -> (error: FormatterError)
    ensures
        error@ == Failure::Query(QUERY_MESSAGE@),
{
    FormatterError::Query(String::from_str(QUERY_MESSAGE))
}

/// A buffered writer that could not flush is an I/O error.
pub fn from_into_inner_error<W>(_cause: &std::io::IntoInnerError<W>) -> (error: FormatterError)
    ensures
        error@ == Failure::Io(FLUSH_MESSAGE@),
{
    FormatterError::Io(String::from_str(FLUSH_MESSAGE))
}

/// An I/O error of the given kind, with the message for that kind.
pub fn from_io_error_kind(kind: std::io::ErrorKind) -> (error: FormatterError)
    ensures
        error@ == Failure::Io(io_message(kind)),
{
    let message = match kind {
        std::io::ErrorKind::NotFound => NOT_FOUND_MESSAGE,
        _ => READ_WRITE_MESSAGE,
    };
    FormatterError::Io(String::from_str(message))
}

/// An I/O error stays one; its message is chosen by the kind that
/// `std::io::Error::kind` reads from it.
pub fn from_io_error(cause: &std::io::Error) -> (error: FormatterError)
    ensures
        error@ == Failure::Io(NOT_FOUND_MESSAGE@) || error@ == Failure::Io(READ_WRITE_MESSAGE@),
        exists|kind: std::io::ErrorKind|
            call_ensures(std::io::Error::kind, (cause,), kind) && error@ == Failure::Io(
                io_message(kind),
            ),
{
    let kind = cause.kind();
    from_io_error_kind(kind)
}

} // verus!
