//! The types and functions of other crates and of the standard library
//! that this library meets. Nothing here is proved: each item says what is
//! taken on trust.

use vstd::prelude::*;

verus! {

/// `std::str::Utf8Error`: bytes borrowed as text were not UTF-8. Opaque.
#[verifier::external_type_specification]
#[verifier::external_body]
pub struct ExUtf8Error(std::str::Utf8Error);

/// `std::string::FromUtf8Error`: bytes taken over as text were not UTF-8. Opaque.
#[verifier::external_type_specification]
#[verifier::external_body]
pub struct ExFromUtf8Error(std::string::FromUtf8Error);

/// `std::fmt::Error`: a formatting trait could not write. Opaque.
#[verifier::external_type_specification]
#[verifier::external_body]
pub struct ExFmtError(std::fmt::Error);

/// `std::fmt::Formatter`: where a formatting trait writes to. Opaque.
#[verifier::external_type_specification]
#[verifier::external_body]
pub struct ExFormatter<'a>(std::fmt::Formatter<'a>);

/// `std::io::Error`: a failure of the file system or of a stream. Opaque.
#[verifier::external_type_specification]
#[verifier::external_body]
pub struct ExIoError(std::io::Error);

/// `std::io::ErrorKind`: the list of causes an I/O error can have. Its
/// variants are those that the standard library declares.
#[verifier::external_type_specification]
pub struct ExIoErrorKind(std::io::ErrorKind);

/// `std::io::IntoInnerError`: a buffered writer could not flush what it
/// still held. Opaque.
#[verifier::external_type_specification]
#[verifier::external_body]
#[verifier::reject_recursive_types(W)]
pub struct ExIntoInnerError<W>(std::io::IntoInnerError<W>);

/// `std::path::PathBuf`: an owned path. Opaque.
#[verifier::external_type_specification]
#[verifier::external_body]
pub struct ExPathBuf(std::path::PathBuf);

/// `serde_json::Error`: a value could not be written as JSON, or read from it. Opaque.
#[verifier::external_type_specification]
#[verifier::external_body]
pub struct ExJsonError(serde_json::Error);

/// `topiary_tree_sitter_facade::LanguageError`: a grammar could not be loaded. Opaque.
#[verifier::external_type_specification]
#[verifier::external_body]
pub struct ExLanguageError(topiary_tree_sitter_facade::LanguageError);

/// `topiary_tree_sitter_facade::ParserError`: a parser could not be set up. Opaque.
#[verifier::external_type_specification]
#[verifier::external_body]
pub struct ExParserError(topiary_tree_sitter_facade::ParserError);

/// `topiary_tree_sitter_facade::QueryError`: a query did not compile. Opaque.
#[verifier::external_type_specification]
#[verifier::external_body]
pub struct ExQueryError(topiary_tree_sitter_facade::QueryError);

/// `rootcause::Report`: an error value of type `C` together with the
/// reports it came from and what was attached to it. Opaque.
#[verifier::external_type_specification]
#[verifier::external_body]
#[verifier::reject_recursive_types(C)]
#[verifier::reject_recursive_types(O)]
#[verifier::reject_recursive_types(T)]
pub struct ExReport<C: ?Sized + 'static, O: 'static, T: 'static>(rootcause::Report<C, O, T>);

/// `rootcause::markers::Mutable`: marks a report that has one owner.
#[verifier::external_type_specification]
#[verifier::external_body]
pub struct ExMutable(rootcause::markers::Mutable);

/// `rootcause::markers::SendSync`: marks a report that may cross threads.
#[verifier::external_type_specification]
#[verifier::external_body]
pub struct ExSendSync(rootcause::markers::SendSync);

/// `rootcause::markers::Local`: marks a report that stays on its thread.
#[verifier::external_type_specification]
#[verifier::external_body]
pub struct ExLocal(rootcause::markers::Local);

/// `std::fmt::Formatter::write_str` hands `data` to the formatter's sink.
/// It returns, with the sink's verdict; nothing is claimed of that verdict.
pub assume_specification<'a>[ std::fmt::Formatter::<'a>::write_str ](
    f: &mut std::fmt::Formatter<'a>,
    data: &str,
) -> (result: std::fmt::Result)
;

/// `std::io::Error::kind` reads the cause out of an I/O error. It returns;
/// nothing is claimed of which cause it gives.
pub assume_specification[ std::io::Error::kind ](error: &std::io::Error) -> (kind:
    std::io::ErrorKind)
;

/// `rootcause::Report::current_context` lends the error value that a
/// report holds on top. It returns; nothing is claimed of the value.
pub assume_specification<'a, C, O, T>[ rootcause::Report::<C, O, T>::current_context ](
    report: &'a rootcause::Report<C, O, T>,
) -> (context: &'a C)
;

/// `rootcause::Report::context` makes a new report that holds `context`
/// on top and `report` beneath it. It returns; nothing is claimed of what
/// the new report holds, since the hooks that a program installs may add
/// to it.
pub assume_specification<C: ?Sized, O, T, D>[ rootcause::Report::<C, O, T>::context ](
    report: rootcause::Report<C, O, T>,
    context: D,
) -> (wrapped: rootcause::Report<D, rootcause::markers::Mutable, T>) where
    D: rootcause::markers::ObjectMarkerFor<T> + std::fmt::Display + std::fmt::Debug,
;

} // verus!
