use crate::app::gen::enums::{FunctionCode, QualifierCode};
use crate::app::gen::variations::variation::Variation;
use crate::app::parse::range::InvalidRange;
use crate::util::cursor::ReadError;
use vstd::prelude::*;

verus! {

/// Errors in the header of a fragment
#[derive(Copy, Clone, Debug, PartialEq, Eq, Structural)]
pub enum HeaderParseError {
    UnknownFunction(u8),
    InsufficientBytes,
    UnsolicitedBitNotAllowed(FunctionCode),
    ExpectedFirAndFin(FunctionCode),
    UnexpectedResponseFunction(FunctionCode),
    UnexpectedRequestFunction(FunctionCode),
    UnsolicitedResponseWithoutUnsBit,
    ResponseWithUnsBit,
}

/// Errors in the object headers of a fragment
#[derive(Copy, Clone, Debug, PartialEq, Eq, Structural)]
pub enum ObjectParseError {
    UnknownGroupVariation(u8, u8),
    UnknownQualifier(u8),
    InsufficientBytes,
    InvalidRange(u16, u16),
    InvalidQualifierForVariation(Variation, QualifierCode),
    UnsupportedQualifierCode(QualifierCode),
    ZeroLengthOctetData,
}

/// Why a parsed fragment is not a valid request
#[derive(Copy, Clone, Debug, PartialEq, Eq, Structural)]
pub enum RequestValidationError {
    /// the function code is that of a response
    UnexpectedFunction(FunctionCode),
    /// requests must have FIR and FIN set
    NonFirFin,
    /// only confirms may have the UNS bit set
    UnexpectedUnsBit(FunctionCode),
}

/// Why a parsed fragment is not a valid response
#[derive(Copy, Clone, Debug, PartialEq, Eq, Structural)]
pub enum ResponseValidationError {
    /// the function code is not that of a response
    UnexpectedFunction(FunctionCode),
    SolicitedResponseWithUnsBit,
    UnsolicitedResponseWithoutUnsBit,
    UnsolicitedResponseWithoutFirAndFin,
}

impl From<ReadError> for ObjectParseError {
    fn from(e: ReadError) -> (r: Self) {
        ObjectParseError::InsufficientBytes
    }
}

impl vstd::std_specs::convert::FromSpecImpl<ReadError> for ObjectParseError {
    open spec fn obeys_from_spec() -> bool {
        true
    }

    open spec fn from_spec(e: ReadError) -> ObjectParseError {
        ObjectParseError::InsufficientBytes
    }
}

impl From<ReadError> for HeaderParseError {
    fn from(e: ReadError) -> (r: Self) {
        HeaderParseError::InsufficientBytes
    }
}

impl vstd::std_specs::convert::FromSpecImpl<ReadError> for HeaderParseError {
    open spec fn obeys_from_spec() -> bool {
        true
    }

    open spec fn from_spec(e: ReadError) -> HeaderParseError {
        HeaderParseError::InsufficientBytes
    }
}

impl From<InvalidRange> for ObjectParseError {
    fn from(r: InvalidRange) -> (e: Self) {
        ObjectParseError::InvalidRange(r.start, r.stop)
    }
}

impl vstd::std_specs::convert::FromSpecImpl<InvalidRange> for ObjectParseError {
    open spec fn obeys_from_spec() -> bool {
        true
    }

    open spec fn from_spec(r: InvalidRange) -> ObjectParseError {
        ObjectParseError::InvalidRange(r.start, r.stop)
    }
}

} // verus!
