use crate::util::cursor::WriteError;
use vstd::prelude::*;

verus! {

/// The kind of an I/O error
#[verifier::external_type_specification]
#[verifier::external_body]
pub struct ExErrorKind(std::io::ErrorKind);

// these errors should never occur, but they are preferable to using
// functions that could panic
#[derive(Copy, Clone, PartialEq, Eq, Debug, Structural)]
pub enum LogicError {
    BadRead,
    BadWrite,
    BadSize,
}

/// Errors in the framing of received bytes
#[derive(Copy, Clone, PartialEq, Eq, Debug, Structural)]
pub enum FrameError {
    UnexpectedStart1(u8),
    UnexpectedStart2(u8),
    BadLength(u8),
    BadHeaderCRC,
    BadBodyCRC,
}

/// Errors while reading received bytes
#[derive(Copy, Clone, PartialEq, Eq, Debug, Structural)]
pub enum ParseError {
    BadFrame(FrameError),
    BadLogic(LogicError),
}

/// Errors of the library
#[derive(Copy, Clone, PartialEq, Debug)]
pub enum Error {
    IO(std::io::ErrorKind),
    BadFrame(FrameError),
    BadLogic(LogicError),
}

impl From<ParseError> for Error {
    fn from(err: ParseError) -> (r: Self) {
        match err {
            ParseError::BadFrame(inner) => Error::BadFrame(inner),
            ParseError::BadLogic(inner) => Error::BadLogic(inner),
        }
    }
}

impl vstd::std_specs::convert::FromSpecImpl<ParseError> for Error {
    open spec fn obeys_from_spec() -> bool {
        true
    }

    open spec fn from_spec(err: ParseError) -> Error {
        match err {
            ParseError::BadFrame(inner) => Error::BadFrame(inner),
            ParseError::BadLogic(inner) => Error::BadLogic(inner),
        }
    }
}

impl From<LogicError> for Error {
    fn from(err: LogicError) -> (r: Self) {
        Error::BadLogic(err)
    }
}

impl vstd::std_specs::convert::FromSpecImpl<LogicError> for Error {
    open spec fn obeys_from_spec() -> bool {
        true
    }

    open spec fn from_spec(err: LogicError) -> Error {
        Error::BadLogic(err)
    }
}

impl From<WriteError> for Error {
    fn from(err: WriteError) -> (r: Self) {
        Error::BadLogic(LogicError::BadWrite)
    }
}

impl vstd::std_specs::convert::FromSpecImpl<WriteError> for Error {
    open spec fn obeys_from_spec() -> bool {
        true
    }

    open spec fn from_spec(err: WriteError) -> Error {
        Error::BadLogic(LogicError::BadWrite)
    }
}

} // verus!
