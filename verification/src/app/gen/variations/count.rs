use crate::app::gen::enums::QualifierCode;
use crate::app::gen::variations::fixed::{Group50Var1, Group50Var3, Group50Var4, Group51Var1, Group51Var2, Group52Var1, Group52Var2};
use crate::app::gen::variations::variation::Variation;
use crate::app::parse::count::CountSequence;
use crate::app::parse::error::ObjectParseError;
use crate::app::parse::traits::FixedSize;
use crate::util::cursor::ReadCursor;
use vstd::prelude::*;

verus! {

/// What a count header holds: the variation, the number of objects and
/// their bytes
pub struct CountModel {
    pub variation: Variation,
    pub count: nat,
    pub data: Seq<u8>,
}

/// the size of each object of `v` after a count; `None` where `v` may not be
/// used with a count
pub open spec fn count_object_size(v: Variation) -> Option<nat> {
    match v {
        Variation::Group50Var1 => Some(6),
        Variation::Group50Var3 => Some(6),
        Variation::Group50Var4 => Some(11),
        Variation::Group51Var1 => Some(6),
        Variation::Group51Var2 => Some(6),
        Variation::Group52Var1 => Some(2),
        Variation::Group52Var2 => Some(2),
        _ => None,
    }
}

/// the result of reading the objects of a count header from `s`, with the
/// number of bytes read
pub open spec fn spec_parse_count(v: Variation, qualifier: QualifierCode, count: u16, s: Seq<u8>) -> Result<(CountModel, int), ObjectParseError> {
    match count_object_size(v) {
        None => Err(ObjectParseError::InvalidQualifierForVariation(v, qualifier)),
        Some(z) => if count * z <= s.len() {
            Ok((CountModel { variation: v, count: count as nat, data: s.take(count * z) }, count * z))
        } else {
            Err(ObjectParseError::InsufficientBytes)
        },
    }
}

/// The objects of a header with a count qualifier
#[derive(Debug, PartialEq)]
pub enum CountVariation<'a> {
    /// Time and Date - Absolute Time
    Group50Var1(CountSequence<'a, Group50Var1>),
    /// Time and Date - Absolute Time at last recorded time
    Group50Var3(CountSequence<'a, Group50Var3>),
    /// Time and Date - Indexed absolute time and long interval
    Group50Var4(CountSequence<'a, Group50Var4>),
    /// Time and Date CTO - Absolute time, synchronized
    Group51Var1(CountSequence<'a, Group51Var1>),
    /// Time and Date CTO - Absolute time, unsynchronized
    Group51Var2(CountSequence<'a, Group51Var2>),
    /// Time Delay - Coarse
    Group52Var1(CountSequence<'a, Group52Var1>),
    /// Time Delay - Fine
    Group52Var2(CountSequence<'a, Group52Var2>),
}

impl<'a> CountVariation<'a> {
    pub open spec fn spec_model(&self) -> CountModel {
        match self {
            CountVariation::Group50Var1(seq) => CountModel { variation: Variation::Group50Var1, count: seq.spec_count(), data: seq.spec_data() },
            CountVariation::Group50Var3(seq) => CountModel { variation: Variation::Group50Var3, count: seq.spec_count(), data: seq.spec_data() },
            CountVariation::Group50Var4(seq) => CountModel { variation: Variation::Group50Var4, count: seq.spec_count(), data: seq.spec_data() },
            CountVariation::Group51Var1(seq) => CountModel { variation: Variation::Group51Var1, count: seq.spec_count(), data: seq.spec_data() },
            CountVariation::Group51Var2(seq) => CountModel { variation: Variation::Group51Var2, count: seq.spec_count(), data: seq.spec_data() },
            CountVariation::Group52Var1(seq) => CountModel { variation: Variation::Group52Var1, count: seq.spec_count(), data: seq.spec_data() },
            CountVariation::Group52Var2(seq) => CountModel { variation: Variation::Group52Var2, count: seq.spec_count(), data: seq.spec_data() },
        }
    }

    /// reads `count` objects of variation `v`
    pub fn parse(v: Variation, qualifier: QualifierCode, count: u16, cursor: &mut ReadCursor<'a>) -> (res: Result<CountVariation<'a>, ObjectParseError>)
        ensures
            match spec_parse_count(v, qualifier, count, old(cursor)@) {
                Ok((m, n)) => res is Ok && res.unwrap().spec_model() == m && final(cursor)@ == old(cursor)@.skip(n as int),
                Err(e) => res == Err::<CountVariation<'a>, ObjectParseError>(e) && final(cursor)@
                    == old(cursor)@,
            },
    {
        match v {
            Variation::Group50Var1 => match CountSequence::parse(count, cursor) {
                Ok(seq) => Ok(CountVariation::Group50Var1(seq)),
                Err(_) => Err(ObjectParseError::InsufficientBytes),
            },
            Variation::Group50Var3 => match CountSequence::parse(count, cursor) {
                Ok(seq) => Ok(CountVariation::Group50Var3(seq)),
                Err(_) => Err(ObjectParseError::InsufficientBytes),
            },
            Variation::Group50Var4 => match CountSequence::parse(count, cursor) {
                Ok(seq) => Ok(CountVariation::Group50Var4(seq)),
                Err(_) => Err(ObjectParseError::InsufficientBytes),
            },
            Variation::Group51Var1 => match CountSequence::parse(count, cursor) {
                Ok(seq) => Ok(CountVariation::Group51Var1(seq)),
                Err(_) => Err(ObjectParseError::InsufficientBytes),
            },
            Variation::Group51Var2 => match CountSequence::parse(count, cursor) {
                Ok(seq) => Ok(CountVariation::Group51Var2(seq)),
                Err(_) => Err(ObjectParseError::InsufficientBytes),
            },
            Variation::Group52Var1 => match CountSequence::parse(count, cursor) {
                Ok(seq) => Ok(CountVariation::Group52Var1(seq)),
                Err(_) => Err(ObjectParseError::InsufficientBytes),
            },
            Variation::Group52Var2 => match CountSequence::parse(count, cursor) {
                Ok(seq) => Ok(CountVariation::Group52Var2(seq)),
                Err(_) => Err(ObjectParseError::InsufficientBytes),
            },
            _ => Err(ObjectParseError::InvalidQualifierForVariation(v, qualifier)),
        }
    }
}

} // verus!
