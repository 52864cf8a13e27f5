use crate::app::range::InvalidRange;
use crate::util::cursor::{ReadCursor, ReadError};
use vstd::prelude::*;

verus! {

/// Whether object headers come from a read request, which carries no object
/// data, or from any other fragment
#[derive(Copy, Clone, Debug, PartialEq, Eq, Structural)]
pub enum ParseType {
    Read,
    NonRead,
}

/// Errors in the object headers of a fragment
#[derive(Copy, Clone, Debug, PartialEq, Eq, Structural)]
pub enum ParseError {
    UnknownGroupVariation(u8, u8),
    UnknownQualifier(u8),
    InsufficientBytes,
    InvalidRange,
    InvalidQualifierAndObject,
    ZeroLengthOctetData,
}

impl From<ReadError> for ParseError {
    fn from(e: ReadError) -> (r: Self) {
        ParseError::InsufficientBytes
    }
}

impl vstd::std_specs::convert::FromSpecImpl<ReadError> for ParseError {
    open spec fn obeys_from_spec() -> bool {
        true
    }

    open spec fn from_spec(e: ReadError) -> ParseError {
        ParseError::InsufficientBytes
    }
}

impl From<InvalidRange> for ParseError {
    fn from(e: InvalidRange) -> (r: Self) {
        ParseError::InvalidRange
    }
}

impl vstd::std_specs::convert::FromSpecImpl<InvalidRange> for ParseError {
    open spec fn obeys_from_spec() -> bool {
        true
    }

    open spec fn from_spec(e: InvalidRange) -> ParseError {
        ParseError::InvalidRange
    }
}

/// The qualifiers of ranged object headers
#[derive(Copy, Clone, Debug, PartialEq, Eq, Structural)]
pub enum Qualifier {
    OneByteStartStop,
    TwoByteStartStop,
}

impl Qualifier {
    /// the qualifier with code `value`: 0 for a one-byte start and stop, 1
    /// for a two-byte one
    pub fn from(value: u8) -> (r: Result<Qualifier, ParseError>)
        ensures
            value == 0 ==> r == Ok::<Qualifier, ParseError>(Qualifier::OneByteStartStop),
            value == 1 ==> r == Ok::<Qualifier, ParseError>(Qualifier::TwoByteStartStop),
            value > 1 ==> r == Err::<Qualifier, ParseError>(ParseError::UnknownQualifier(value)),
    {
        match value {
            0 => Ok(Qualifier::OneByteStartStop),
            1 => Ok(Qualifier::TwoByteStartStop),
            _ => Err(ParseError::UnknownQualifier(value)),
        }
    }

    /// reads a qualifier code
    pub fn parse(cursor: &mut ReadCursor) -> (r: Result<Qualifier, ParseError>)
        ensures
            old(cursor)@.len() == 0 ==> r == Err::<Qualifier, ParseError>(
                ParseError::InsufficientBytes,
            ),
            old(cursor)@.len() > 0 && old(cursor)@[0] == 0 ==> r == Ok::<Qualifier, ParseError>(
                Qualifier::OneByteStartStop,
            ) && final(cursor)@ == old(cursor)@.skip(1),
            old(cursor)@.len() > 0 && old(cursor)@[0] == 1 ==> r == Ok::<Qualifier, ParseError>(
                Qualifier::TwoByteStartStop,
            ) && final(cursor)@ == old(cursor)@.skip(1),
            old(cursor)@.len() > 0 && old(cursor)@[0] > 1 ==> r == Err::<Qualifier, ParseError>(
                ParseError::UnknownQualifier(old(cursor)@[0]),
            ),
    {
        match cursor.read_u8() {
            Ok(x) => Self::from(x),
            Err(_) => Err(ParseError::InsufficientBytes),
        }
    }
}

} // verus!
