use std::io::Write;
use topiary_core::convert::{
    from_fmt_error, from_into_inner_error, from_io_error, from_io_error_kind, from_json_error,
    from_string_utf8_error, from_utf8_error,
};
use topiary_core::error::FormatterError;

#[derive(Debug)]
struct Refusing;

impl Write for Refusing {
    fn write(&mut self, _buf: &[u8]) -> std::io::Result<usize> {
        Err(std::io::Error::new(std::io::ErrorKind::Other, "refused"))
    }

    fn flush(&mut self) -> std::io::Result<()> {
        Err(std::io::Error::new(std::io::ErrorKind::Other, "refused"))
    }
}

fn io(message: &str) -> FormatterError {
    FormatterError::Io(message.to_string())
}

#[test]
fn borrowed_bytes_that_are_not_utf8() {
    let bytes: Vec<u8> = vec![0xff, 0xfe];
    let cause = std::str::from_utf8(&bytes).unwrap_err();
    assert_eq!(from_utf8_error(&cause), io("Input is not valid UTF-8"));
}

#[test]
fn borrowed_bytes_that_break_off_in_a_character() {
    let bytes: Vec<u8> = vec![b'a', 0xe2, 0x82];
    let cause = std::str::from_utf8(&bytes).unwrap_err();
    assert_eq!(from_utf8_error(&cause), io("Input is not valid UTF-8"));
}

#[test]
fn owned_bytes_that_are_not_utf8() {
    let cause = String::from_utf8(vec![b'o', b'k', 0xc0]).unwrap_err();
    assert_eq!(from_string_utf8_error(&cause), io("Input is not valid UTF-8"));
}

#[test]
fn output_that_could_not_be_formatted() {
    assert_eq!(from_fmt_error(&std::fmt::Error), io("Failed to format output"));
}

#[test]
fn json_that_could_not_be_serialised() {
    let cause = serde_json::from_str::<serde_json::Value>("{").unwrap_err();
    assert_eq!(from_json_error(&cause), io("Could not serialise JSON output"));
    let other = serde_json::from_str::<bool>("12").unwrap_err();
    assert_eq!(from_json_error(&other), io("Could not serialise JSON output"));
}

#[test]
fn buffer_that_could_not_be_flushed() {
    let mut writer = std::io::BufWriter::new(Refusing);
    writer.write_all(b"text").unwrap();
    let cause = writer.into_inner().unwrap_err();
    assert_eq!(from_into_inner_error(&cause), io("Cannot flush internal buffer"));
}

#[test]
fn file_that_was_not_found() {
    let cause = std::io::Error::new(std::io::ErrorKind::NotFound, "no such file");
    assert_eq!(from_io_error(&cause), io("File not found"));
    let bare = std::io::Error::from(std::io::ErrorKind::NotFound);
    assert_eq!(from_io_error(&bare), io("File not found"));
}

#[test]
fn other_io_errors_share_one_message() {
    let kinds = vec![
        std::io::ErrorKind::PermissionDenied,
        std::io::ErrorKind::ConnectionRefused,
        std::io::ErrorKind::AlreadyExists,
        std::io::ErrorKind::InvalidInput,
        std::io::ErrorKind::InvalidData,
        std::io::ErrorKind::TimedOut,
        std::io::ErrorKind::WriteZero,
        std::io::ErrorKind::Interrupted,
        std::io::ErrorKind::Unsupported,
        std::io::ErrorKind::UnexpectedEof,
        std::io::ErrorKind::OutOfMemory,
        std::io::ErrorKind::Other,
    ];
    for kind in kinds {
        assert_eq!(from_io_error_kind(kind), io("Could not read or write to file"));
        let cause = std::io::Error::new(kind, "details that do not matter");
        assert_eq!(from_io_error(&cause), io("Could not read or write to file"));
    }
}

#[test]
fn the_kind_alone_decides_the_io_message() {
    assert_eq!(from_io_error_kind(std::io::ErrorKind::NotFound), io("File not found"));
    let one = std::io::Error::new(std::io::ErrorKind::NotFound, "a.rs");
    let other = std::io::Error::new(std::io::ErrorKind::NotFound, "b.rs");
    assert_eq!(from_io_error(&one), from_io_error(&other));
}

#[test]
fn a_missing_file_of_the_operating_system_is_not_found() {
    let cause = std::io::Error::from_raw_os_error(2);
    if cause.kind() == std::io::ErrorKind::NotFound {
        assert_eq!(from_io_error(&cause), io("File not found"));
    } else {
        assert_eq!(from_io_error(&cause), io("Could not read or write to file"));
    }
}

#[test]
fn grammar_that_could_not_be_loaded() {
    let cause = topiary_tree_sitter_facade::LanguageError::from(
        tree_sitter::LanguageError::Version(3),
    );
    assert_eq!(
        topiary_core::convert::from_language_error(&cause),
        io("Error while loading language grammar")
    );
    let other = topiary_tree_sitter_facade::LanguageError::from(
        tree_sitter::LanguageError::Version(99),
    );
    assert_eq!(
        topiary_core::convert::from_language_error(&other),
        io("Error while loading language grammar")
    );
}

fn json() -> topiary_tree_sitter_facade::Language {
    topiary_tree_sitter_facade::Language::from(tree_sitter::Language::new(
        tree_sitter_json::LANGUAGE,
    ))
}

#[test]
fn query_that_did_not_compile() {
    let cause = match topiary_tree_sitter_facade::Query::new(&json(), "(no_such_node)") {
        Ok(_) => panic!("the query names a node that the grammar lacks"),
        Err(cause) => cause,
    };
    assert_eq!(
        topiary_core::convert::from_query_error(&cause),
        FormatterError::Query("Error parsing query file".to_string())
    );
    let other = match topiary_tree_sitter_facade::Query::new(&json(), "(((") {
        Ok(_) => panic!("the query breaks off"),
        Err(cause) => cause,
    };
    assert_eq!(
        topiary_core::convert::from_query_error(&other),
        FormatterError::Query("Error parsing query file".to_string())
    );
}
