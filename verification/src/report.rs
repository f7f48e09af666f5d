//! Conversions of reports. A report that holds a foreign failure becomes a
//! report that holds the formatter's kind for it; the report that came in
//! is kept beneath the new one, so that the cause can still be shown.
//!
//! Each conversion exists for reports that may cross threads and for
//! reports that stay on their thread.
//!
//! What a new report holds is `rootcause`'s to say, and the hooks that a
//! program installs have a say in it too. So a conversion promises what
//! it hands over: the report that came in and the kind for its failure.

use crate::convert::{
    from_fmt_error, from_into_inner_error, from_io_error, from_json_error, from_language_error,
    from_parser_error, from_query_error, from_string_utf8_error, from_utf8_error, io_message,
    FLUSH_MESSAGE, FORMAT_MESSAGE, INVALID_UTF8_MESSAGE, JSON_MESSAGE, LANGUAGE_MESSAGE,
    PARSER_MESSAGE, QUERY_MESSAGE,
};
use crate::error::{Failure, FormatterError};
use rootcause::markers::{Local, Mutable, SendSync};
use rootcause::{Report, ReportConversion};
use vstd::prelude::*;

verus! {

/// `converted` is what `rootcause::Report::context` made of `report` and
/// of the kind `failure`: a report that may cross threads.
pub open spec fn put_on_top<C: 'static>(
    report: Report<C, Mutable, SendSync>,
    failure: Failure,
    converted: Report<FormatterError, Mutable, SendSync>,
) -> bool {
    exists|kind: FormatterError|
        kind@ == failure && call_ensures(
            Report::<C, Mutable, SendSync>::context::<FormatterError>,
            (report, kind),
            converted,
        )
}

/// `converted` is what `rootcause::Report::context` made of `report` and
/// of the kind `failure`: a report that stays on its thread.
pub open spec fn put_on_top_local<C: 'static>(
    report: Report<C, Mutable, Local>,
    failure: Failure,
    converted: Report<FormatterError, Mutable, Local>,
) -> bool {
    exists|kind: FormatterError|
        kind@ == failure && call_ensures(
            Report::<C, Mutable, Local>::context::<FormatterError>,
            (report, kind),
            converted,
        )
}

/// `kind` is what `std::io::Error::kind` read from the error that a report
/// which may cross threads holds on top.
pub open spec fn kind_on_top(
    report: Report<std::io::Error, Mutable, SendSync>,
    kind: std::io::ErrorKind,
) -> bool {
    exists|cause: &std::io::Error|
        call_ensures(
            Report::<std::io::Error, Mutable, SendSync>::current_context,
            (&report,),
            cause,
        ) && call_ensures(std::io::Error::kind, (cause,), kind)
}

/// `kind` is what `std::io::Error::kind` read from the error that a report
/// which stays on its thread holds on top.
pub open spec fn kind_on_top_local(
    report: Report<std::io::Error, Mutable, Local>,
    kind: std::io::ErrorKind,
) -> bool {
    exists|cause: &std::io::Error|
        call_ensures(
            Report::<std::io::Error, Mutable, Local>::current_context,
            (&report,),
            cause,
        ) && call_ensures(std::io::Error::kind, (cause,), kind)
}

/// Bytes borrowed as text were not UTF-8, in a report that may cross threads.
impl ReportConversion<std::str::Utf8Error, Mutable, SendSync> for FormatterError {
    fn convert_report(report: Report<std::str::Utf8Error, Mutable, SendSync>) -> (converted: Report<
        Self,
        Mutable,
        SendSync,
    >)
        ensures
            put_on_top(report, Failure::Io(INVALID_UTF8_MESSAGE@), converted),
    {
        let kind = from_utf8_error(report.current_context());
        report.context(kind)
    }
}

/// Bytes borrowed as text were not UTF-8, in a report that stays on its thread.
impl ReportConversion<std::str::Utf8Error, Mutable, Local> for FormatterError {
    fn convert_report(report: Report<std::str::Utf8Error, Mutable, Local>) -> (converted: Report<
        Self,
        Mutable,
        Local,
    >)
        ensures
            put_on_top_local(report, Failure::Io(INVALID_UTF8_MESSAGE@), converted),
    {
        let kind = from_utf8_error(report.current_context());
        report.context(kind)
    }
}

/// Bytes taken over as text were not UTF-8, in a report that may cross threads.
impl ReportConversion<std::string::FromUtf8Error, Mutable, SendSync> for FormatterError {
    fn convert_report(report: Report<std::string::FromUtf8Error, Mutable, SendSync>) -> (converted: Report<
        Self,
        Mutable,
        SendSync,
    >)
        ensures
            put_on_top(report, Failure::Io(INVALID_UTF8_MESSAGE@), converted),
    {
        let kind = from_string_utf8_error(report.current_context());
        report.context(kind)
    }
}

/// Bytes taken over as text were not UTF-8, in a report that stays on its thread.
impl ReportConversion<std::string::FromUtf8Error, Mutable, Local> for FormatterError {
    fn convert_report(report: Report<std::string::FromUtf8Error, Mutable, Local>) -> (converted: Report<
        Self,
        Mutable,
        Local,
    >)
        ensures
            put_on_top_local(report, Failure::Io(INVALID_UTF8_MESSAGE@), converted),
    {
        let kind = from_string_utf8_error(report.current_context());
        report.context(kind)
    }
}

/// Output could not be written out, in a report that may cross threads.
impl ReportConversion<std::fmt::Error, Mutable, SendSync> for FormatterError {
    fn convert_report(report: Report<std::fmt::Error, Mutable, SendSync>) -> (converted: Report<
        Self,
        Mutable,
        SendSync,
    >)
        ensures
            put_on_top(report, Failure::Io(FORMAT_MESSAGE@), converted),
    {
        let kind = from_fmt_error(report.current_context());
        report.context(kind)
    }
}

/// Output could not be written out, in a report that stays on its thread.
impl ReportConversion<std::fmt::Error, Mutable, Local> for FormatterError {
    fn convert_report(report: Report<std::fmt::Error, Mutable, Local>) -> (converted: Report<
        Self,
        Mutable,
        Local,
    >)
        ensures
            put_on_top_local(report, Failure::Io(FORMAT_MESSAGE@), converted),
    {
        let kind = from_fmt_error(report.current_context());
        report.context(kind)
    }
}

/// The JSON serialiser failed, in a report that may cross threads.
impl ReportConversion<serde_json::Error, Mutable, SendSync> for FormatterError {
    fn convert_report(report: Report<serde_json::Error, Mutable, SendSync>) -> (converted: Report<
        Self,
        Mutable,
        SendSync,
    >)
        ensures
            put_on_top(report, Failure::Io(JSON_MESSAGE@), converted),
    {
        let kind = from_json_error(report.current_context());
        report.context(kind)
    }
}

/// The JSON serialiser failed, in a report that stays on its thread.
impl ReportConversion<serde_json::Error, Mutable, Local> for FormatterError {
    fn convert_report(report: Report<serde_json::Error, Mutable, Local>) -> (converted: Report<
        Self,
        Mutable,
        Local,
    >)
        ensures
            put_on_top_local(report, Failure::Io(JSON_MESSAGE@), converted),
    {
        let kind = from_json_error(report.current_context());
        report.context(kind)
    }
}

/// A grammar could not be loaded, in a report that may cross threads.
impl ReportConversion<topiary_tree_sitter_facade::LanguageError, Mutable, SendSync> for FormatterError {
    fn convert_report(report: Report<topiary_tree_sitter_facade::LanguageError, Mutable, SendSync>) -> (converted: Report<
        Self,
        Mutable,
        SendSync,
    >)
        ensures
            put_on_top(report, Failure::Io(LANGUAGE_MESSAGE@), converted),
    {
        let kind = from_language_error(report.current_context());
        report.context(kind)
    }
}

/// A grammar could not be loaded, in a report that stays on its thread.
impl ReportConversion<topiary_tree_sitter_facade::LanguageError, Mutable, Local> for FormatterError {
    fn convert_report(report: Report<topiary_tree_sitter_facade::LanguageError, Mutable, Local>) -> (converted: Report<
        Self,
        Mutable,
        Local,
    >)
        ensures
            put_on_top_local(report, Failure::Io(LANGUAGE_MESSAGE@), converted),
    {
        let kind = from_language_error(report.current_context());
        report.context(kind)
    }
}

/// A parser could not be set up, in a report that may cross threads.
impl ReportConversion<topiary_tree_sitter_facade::ParserError, Mutable, SendSync> for FormatterError {
    fn convert_report(report: Report<topiary_tree_sitter_facade::ParserError, Mutable, SendSync>) -> (converted: Report<
        Self,
        Mutable,
        SendSync,
    >)
        ensures
            put_on_top(report, Failure::Io(PARSER_MESSAGE@), converted),
    {
        let kind = from_parser_error(report.current_context());
        report.context(kind)
    }
}

/// A parser could not be set up, in a report that stays on its thread.
impl ReportConversion<topiary_tree_sitter_facade::ParserError, Mutable, Local> for FormatterError {
    fn convert_report(report: Report<topiary_tree_sitter_facade::ParserError, Mutable, Local>) -> (converted: Report<
        Self,
        Mutable,
        Local,
    >)
        ensures
            put_on_top_local(report, Failure::Io(PARSER_MESSAGE@), converted),
    {
        let kind = from_parser_error(report.current_context());
        report.context(kind)
    }
}

/// A query did not compile, in a report that may cross threads.
impl ReportConversion<topiary_tree_sitter_facade::QueryError, Mutable, SendSync> for FormatterError {
    fn convert_report(report: Report<topiary_tree_sitter_facade::QueryError, Mutable, SendSync>) -> (converted: Report<
        Self,
        Mutable,
        SendSync,
    >)
        ensures
            put_on_top(report, Failure::Query(QUERY_MESSAGE@), converted),
    {
        let kind = from_query_error(report.current_context());
        report.context(kind)
    }
}

/// A query did not compile, in a report that stays on its thread.
impl ReportConversion<topiary_tree_sitter_facade::QueryError, Mutable, Local> for FormatterError {
    fn convert_report(report: Report<topiary_tree_sitter_facade::QueryError, Mutable, Local>) -> (converted: Report<
        Self,
        Mutable,
        Local,
    >)
        ensures
            put_on_top_local(report, Failure::Query(QUERY_MESSAGE@), converted),
    {
        let kind = from_query_error(report.current_context());
        report.context(kind)
    }
}

/// The file system or a stream failed, in a report that may cross threads.
impl ReportConversion<std::io::Error, Mutable, SendSync> for FormatterError {
    fn convert_report(report: Report<std::io::Error, Mutable, SendSync>) -> (converted: Report<
        Self,
        Mutable,
        SendSync,
    >)
        ensures
            exists|kind: std::io::ErrorKind|
                kind_on_top(report, kind) && put_on_top(
                    report,
                    Failure::Io(io_message(kind)),
                    converted,
                ),
    {
        let cause = report.current_context();
        let ghost lent = cause;
        let error = from_io_error(cause);
        let ghost failure = error@;
        let converted = report.context(error);
        proof {
            let kind = choose|kind: std::io::ErrorKind|
                call_ensures(std::io::Error::kind, (lent,), kind) && failure == Failure::Io(
                    io_message(kind),
                );
            assert(kind_on_top(report, kind));
            assert(put_on_top(report, Failure::Io(io_message(kind)), converted));
        }
        converted
    }
}

/// The file system or a stream failed, in a report that stays on its thread.
impl ReportConversion<std::io::Error, Mutable, Local> for FormatterError {
    fn convert_report(report: Report<std::io::Error, Mutable, Local>) -> (converted: Report<
        Self,
        Mutable,
        Local,
    >)
        ensures
            exists|kind: std::io::ErrorKind|
                kind_on_top_local(report, kind) && put_on_top_local(
                    report,
                    Failure::Io(io_message(kind)),
                    converted,
                ),
    {
        let cause = report.current_context();
        let ghost lent = cause;
        let error = from_io_error(cause);
        let ghost failure = error@;
        let converted = report.context(error);
        proof {
            let kind = choose|kind: std::io::ErrorKind|
                call_ensures(std::io::Error::kind, (lent,), kind) && failure == Failure::Io(
                    io_message(kind),
                );
            assert(kind_on_top_local(report, kind));
            assert(put_on_top_local(report, Failure::Io(io_message(kind)), converted));
        }
        converted
    }
}

/// A buffered writer could not flush, in a report that may cross threads.
impl<W: 'static> ReportConversion<std::io::IntoInnerError<W>, Mutable, SendSync> for FormatterError {
    fn convert_report(report: Report<std::io::IntoInnerError<W>, Mutable, SendSync>) -> (converted: Report<
        Self,
        Mutable,
        SendSync,
    >)
        ensures
            put_on_top(report, Failure::Io(FLUSH_MESSAGE@), converted),
    {
        let kind = from_into_inner_error(report.current_context());
        report.context(kind)
    }
}

/// A buffered writer could not flush, in a report that stays on its thread.
impl<W: 'static> ReportConversion<std::io::IntoInnerError<W>, Mutable, Local> for FormatterError {
    fn convert_report(report: Report<std::io::IntoInnerError<W>, Mutable, Local>) -> (converted: Report<
        Self,
        Mutable,
        Local,
    >)
        ensures
            put_on_top_local(report, Failure::Io(FLUSH_MESSAGE@), converted),
    {
        let kind = from_into_inner_error(report.current_context());
        report.context(kind)
    }
}

} // verus!
