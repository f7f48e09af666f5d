//! Errors of a source-code formatter: a closed set of failure kinds with
//! fixed messages, the mapping of foreign failures onto it, and the span
//! that locates a parsing failure in its source.

pub mod convert;
pub mod decimal;
pub mod error;
pub mod foreign;
pub mod report;
pub mod span;
