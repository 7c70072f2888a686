//! The failures that every parser of this crate reports.

use vstd::prelude::*;

verus! {

/// std's error of reading an integer, carried as it is.
#[verifier::external_type_specification]
#[verifier::external_body]
pub struct ExParseIntError(std::num::ParseIntError);

/// std's error of reading a floating-point number, carried as it is.
#[verifier::external_type_specification]
#[verifier::external_body]
pub struct ExParseFloatError(std::num::ParseFloatError);

/// `Clone` of std's integer parse error: the copy is the same value.
pub assume_specification[ <std::num::ParseIntError as Clone>::clone ](
    e: &std::num::ParseIntError,
) -> (r: std::num::ParseIntError)
    ensures
        r == *e,
;

/// `Clone` of std's float parse error: the copy is the same value.
pub assume_specification[ <std::num::ParseFloatError as Clone>::clone ](
    e: &std::num::ParseFloatError,
) -> (r: std::num::ParseFloatError)
    ensures
        r == *e,
;

/// What went wrong while reading a value, a line or a block.
#[derive(Debug, PartialEq, Eq)]
pub enum Error {
    /// A value of one of the code tables could not be read.
    InvalidArgument(String),
    /// A line does not have the shape of the record it was read as.
    InvalidRecordLine(String),
    /// A line is a record that may not stand where it was found.
    GotUnexpectedRecordLine(String),
    /// A block ended without a record that it must hold.
    MissingRequiredRecord(String),
    /// A state that the parsers never reach.
    Unreachable(String),
    /// A run of digits is not a number of the field's type.
    ParseIntError(std::num::ParseIntError),
    /// A decimal text is not a floating-point number.
    ParseFloatError(std::num::ParseFloatError),
}

/// The variant of an [`Error`], without what it carries.
#[derive(Debug, Clone, Copy, PartialEq, Eq, Structural)]
pub enum ErrorKind {
    InvalidArgument,
    InvalidRecordLine,
    GotUnexpectedRecordLine,
    MissingRequiredRecord,
    Unreachable,
    ParseIntError,
    ParseFloatError,
}

/// The model of an [`Error`]: its kind and its message. The two numeric
/// variants carry std's error and have an empty message here.
pub struct ErrorView {
    pub kind: ErrorKind,
    pub message: Seq<char>,
}

impl View for Error {
    type V = ErrorView;

    open spec fn view(&self) -> ErrorView {
        match self {
            Error::InvalidArgument(m) => ErrorView {
                kind: ErrorKind::InvalidArgument,
                message: m@,
            },
            Error::InvalidRecordLine(m) => ErrorView {
                kind: ErrorKind::InvalidRecordLine,
                message: m@,
            },
            Error::GotUnexpectedRecordLine(m) => ErrorView {
                kind: ErrorKind::GotUnexpectedRecordLine,
                message: m@,
            },
            Error::MissingRequiredRecord(m) => ErrorView {
                kind: ErrorKind::MissingRequiredRecord,
                message: m@,
            },
            Error::Unreachable(m) => ErrorView { kind: ErrorKind::Unreachable, message: m@ },
            Error::ParseIntError(_) => ErrorView {
                kind: ErrorKind::ParseIntError,
                message: Seq::empty(),
            },
            Error::ParseFloatError(_) => ErrorView {
                kind: ErrorKind::ParseFloatError,
                message: Seq::empty(),
            },
        }
    }
}

/// The model of an `InvalidArgument` with the given message.
pub open spec fn invalid_argument(message: Seq<char>) -> ErrorView {
    ErrorView { kind: ErrorKind::InvalidArgument, message }
}

/// The model of an `InvalidRecordLine` with the given message.
pub open spec fn invalid_record_line(message: Seq<char>) -> ErrorView {
    ErrorView { kind: ErrorKind::InvalidRecordLine, message }
}

/// The model of a `GotUnexpectedRecordLine` with the given message.
pub open spec fn unexpected_record_line(message: Seq<char>) -> ErrorView {
    ErrorView { kind: ErrorKind::GotUnexpectedRecordLine, message }
}

/// The model of a `MissingRequiredRecord` with the given message.
pub open spec fn missing_required_record(message: Seq<char>) -> ErrorView {
    ErrorView { kind: ErrorKind::MissingRequiredRecord, message }
}

/// The model of a `ParseIntError`.
pub open spec fn parse_int_error() -> ErrorView {
    ErrorView { kind: ErrorKind::ParseIntError, message: Seq::empty() }
}

/// The model of a parser's result whose value has a view.
pub open spec fn outcome<T: View>(r: Result<T, Error>) -> Result<T::V, ErrorView> {
    match r {
        Ok(v) => Ok(v@),
        Err(e) => Err(e@),
    }
}

/// The model of a parser's result whose value is its own model.
pub open spec fn plain_outcome<T>(r: Result<T, Error>) -> Result<T, ErrorView> {
    match r {
        Ok(v) => Ok(v),
        Err(e) => Err(e@),
    }
}

impl Clone for Error {
    fn clone(&self) -> (r: Self)
        ensures
            r@ == self@,
    {
        match self {
            Error::InvalidArgument(m) => Error::InvalidArgument(m.clone()),
            Error::InvalidRecordLine(m) => Error::InvalidRecordLine(m.clone()),
            Error::GotUnexpectedRecordLine(m) => Error::GotUnexpectedRecordLine(m.clone()),
            Error::MissingRequiredRecord(m) => Error::MissingRequiredRecord(m.clone()),
            Error::Unreachable(m) => Error::Unreachable(m.clone()),
            Error::ParseIntError(e) => Error::ParseIntError(e.clone()),
            Error::ParseFloatError(e) => Error::ParseFloatError(e.clone()),
        }
    }
}

impl Error {
    /// The variant of this error.
    pub fn kind(&self) -> (k: ErrorKind)
        ensures
            k == self@.kind,
    {
        match self {
            Error::InvalidArgument(_) => ErrorKind::InvalidArgument,
            Error::InvalidRecordLine(_) => ErrorKind::InvalidRecordLine,
            Error::GotUnexpectedRecordLine(_) => ErrorKind::GotUnexpectedRecordLine,
            Error::MissingRequiredRecord(_) => ErrorKind::MissingRequiredRecord,
            Error::Unreachable(_) => ErrorKind::Unreachable,
            Error::ParseIntError(_) => ErrorKind::ParseIntError,
            Error::ParseFloatError(_) => ErrorKind::ParseFloatError,
        }
    }
}

/// The text `before`, then `value`, then `after`: the form of every message
/// that quotes what was read.
pub fn framed(before: &str, value: &str, after: &str) -> (r: String)
    ensures
        r@ == before@ + value@ + after@,
{
    let mut r = before.to_owned();
    r.append(value);
    r.append(after);
    r
}

} // verus!
