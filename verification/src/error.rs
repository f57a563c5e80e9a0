//! Error type for IFC parsing operations.
use vstd::prelude::*;
use vstd::std_specs::convert::IntoSpec;
use vstd::string::StringExecFns;
use crate::text::{decimal, decimal_chars};

verus! {

/// `std::io::Error`, carried by [`Error::Io`].
#[verifier::external_type_specification]
#[verifier::external_body]
pub struct ExIoError(std::io::Error);

/// `std::str::Utf8Error`, carried by [`Error::Utf8`].
#[verifier::external_type_specification]
#[verifier::external_body]
pub struct ExUtf8Error(std::str::Utf8Error);

/// Errors that can occur during IFC parsing.
#[derive(Debug)]
pub enum Error {
    /// A syntactic error encountered during STEP tokenization or entity parsing.
    Parse {
        /// Byte offset in the source where the error was detected.
        position: usize,
        /// Human-readable description of what went wrong.
        message: String,
    },
    /// An entity reference (`#id`) pointed to a non-existent entity.
    InvalidEntityRef(u32),
    /// A type name string did not map to any known IFC type.
    InvalidIfcType(String),
    /// The tokenizer found a token it did not expect at the given position.
    UnexpectedToken {
        /// Byte offset in the source.
        position: usize,
        /// What the parser expected to see.
        expected: String,
        /// What the parser actually encountered.
        got: String,
    },
    /// An I/O error propagated from `std::io`.
    Io(std::io::Error),
    /// A UTF-8 decoding error propagated from `std::str`.
    Utf8(std::str::Utf8Error),
}

/// Convenience alias used throughout the crate.
pub type Result<T> = core::result::Result<T, Error>;

impl Error {
    /// Create a parse error at the given byte position.
    pub fn parse<M: Into<String>>(position: usize, message: M) -> (e: Self)
        ensures
            e is Parse,
            e->Parse_position == position,
            <M as IntoSpec<String>>::obeys_into_spec() ==> e->Parse_message == message.into_spec(),
    {
        Error::Parse { position, message: message.into() }
    }

    /// Create an unexpected-token error.
    pub fn unexpected<X: Into<String>, G: Into<String>>(position: usize, expected: X, got: G) -> (e:
        Self)
        ensures
            e is UnexpectedToken,
            e->UnexpectedToken_position == position,
            <X as IntoSpec<String>>::obeys_into_spec() ==> e->UnexpectedToken_expected
                == expected.into_spec(),
            <G as IntoSpec<String>>::obeys_into_spec() ==> e->UnexpectedToken_got == got.into_spec(),
    {
        Error::UnexpectedToken { position, expected: expected.into(), got: got.into() }
    }
}

/// `format!("{}", e)` for an I/O error; the text comes from std and the platform.
#[verifier::external_body]
fn io_error_text(e: &std::io::Error) -> String {
    format!("{}", e)
}

/// `format!("{}", e)` for a UTF-8 error; the text comes from std.
#[verifier::external_body]
fn utf8_error_text(e: &std::str::Utf8Error) -> String {
    format!("{}", e)
}

/// The human-readable description of an error, for the variants whose
/// text this crate composes.
pub open spec fn message_of(e: Error) -> Option<Seq<char>> {
    match e {
        Error::Parse { position, message } => Some(
            "parse error at position "@ + decimal_chars(position as nat) + ": "@ + message@,
        ),
        Error::InvalidEntityRef(id) => Some("invalid entity reference: #"@ + decimal_chars(id as nat)),
        Error::InvalidIfcType(name) => Some("invalid IFC type: "@ + name@),
        Error::UnexpectedToken { position, expected, got } => Some(
            "unexpected token at position "@ + decimal_chars(position as nat) + ": expected "@
                + expected@ + ", got "@ + got@,
        ),
        _ => None,
    }
}

impl Error {
    /// The human-readable description of the error.
    ///
    /// For `Io` and `Utf8` the text after the prefix is std's description
    /// of the wrapped error.
    pub fn to_string(&self) -> (s: String)
        ensures
            message_of(*self) matches Some(m) ==> s@ == m,
            self is Io ==> exists|rest: Seq<char>| s@ == "IO error: "@ + rest,
            self is Utf8 ==> exists|rest: Seq<char>| s@ == "UTF-8 error: "@ + rest,
    {
        match self {
            Error::Parse { position, message } => {
                let mut s = String::from_str("parse error at position ");
                s.append(decimal(*position as u64).as_str());
                s.append(": ");
                s.append(message.as_str());
                s
            },
            Error::InvalidEntityRef(id) => {
                let mut s = String::from_str("invalid entity reference: #");
                s.append(decimal(*id as u64).as_str());
                s
            },
            Error::InvalidIfcType(name) => {
                let mut s = String::from_str("invalid IFC type: ");
                s.append(name.as_str());
                s
            },
            Error::UnexpectedToken { position, expected, got } => {
                let mut s = String::from_str("unexpected token at position ");
                s.append(decimal(*position as u64).as_str());
                s.append(": expected ");
                s.append(expected.as_str());
                s.append(", got ");
                s.append(got.as_str());
                s
            },
            Error::Io(e) => {
                let mut s = String::from_str("IO error: ");
                let rest = io_error_text(e);
                s.append(rest.as_str());
                s
            },
            Error::Utf8(e) => {
                let mut s = String::from_str("UTF-8 error: ");
                let rest = utf8_error_text(e);
                s.append(rest.as_str());
                s
            },
        }
    }
}

impl From<std::io::Error> for Error {
    fn from(e: std::io::Error) -> (r: Self) {
        Error::Io(e)
    }
}

impl vstd::std_specs::convert::FromSpecImpl<std::io::Error> for Error {
    open spec fn obeys_from_spec() -> bool {
        true
    }

    open spec fn from_spec(e: std::io::Error) -> Self {
        Error::Io(e)
    }
}

impl From<std::str::Utf8Error> for Error {
    fn from(e: std::str::Utf8Error) -> (r: Self) {
        Error::Utf8(e)
    }
}

impl vstd::std_specs::convert::FromSpecImpl<std::str::Utf8Error> for Error {
    open spec fn obeys_from_spec() -> bool {
        true
    }

    open spec fn from_spec(e: std::str::Utf8Error) -> Self {
        Error::Utf8(e)
    }
}

} // verus!
