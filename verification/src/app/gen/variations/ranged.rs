use crate::app::gen::enums::QualifierCode;
use crate::app::gen::variations::fixed::{Group1Var2, Group3Var2, Group10Var2, Group20Var1, Group20Var2, Group20Var5, Group20Var6, Group21Var1, Group21Var2, Group21Var5, Group21Var6, Group21Var9, Group21Var10, Group30Var1, Group30Var2, Group30Var3, Group30Var4, Group30Var5, Group30Var6, Group40Var1, Group40Var2, Group40Var3, Group40Var4};
use crate::app::gen::variations::variation::Variation;
use crate::app::parse::bit::{IndexedBitSequence, IndexedDoubleBitSequence};
use crate::app::parse::bytes::RangedBytesSequence;
use crate::app::parse::error::ObjectParseError;
use crate::app::parse::range::{Range, RangedSequence};
use crate::app::parse::traits::FixedSize;
use crate::util::cursor::ReadCursor;
use vstd::prelude::*;

verus! {

broadcast use crate::app::parse::range::Range::lemma_bounds;

/// How the objects of a variation are laid out after a range
pub enum RangedLayout {
    /// no object data (variation 0, or a class of static data)
    NoData,
    /// one bit for each index
    Bits,
    /// two bits for each index
    DoubleBits,
    /// a fixed number of bytes for each index
    Fixed(nat),
    /// an octet string of the given length for each index
    Octets(u8),
}

/// What a ranged header holds: the variation, the first index and number of
/// objects, and the bytes of the objects
pub struct RangedModel {
    pub variation: Variation,
    pub start: u16,
    pub count: nat,
    pub data: Seq<u8>,
}

/// the model of a header that holds no object data
pub open spec fn no_data_model(v: Variation) -> RangedModel {
    RangedModel { variation: v, start: 0, count: 0, data: Seq::empty() }
}

/// the layout of the objects of `v` after a range; `None` where `v` may not
/// be used with a range
pub open spec fn ranged_layout(v: Variation) -> Option<RangedLayout> {
    match v {
        Variation::Group1Var0 => Some(RangedLayout::NoData),
        Variation::Group1Var1 => Some(RangedLayout::Bits),
        Variation::Group1Var2 => Some(RangedLayout::Fixed(1)),
        Variation::Group3Var0 => Some(RangedLayout::NoData),
        Variation::Group3Var1 => Some(RangedLayout::DoubleBits),
        Variation::Group3Var2 => Some(RangedLayout::Fixed(1)),
        Variation::Group10Var0 => Some(RangedLayout::NoData),
        Variation::Group10Var1 => Some(RangedLayout::Bits),
        Variation::Group10Var2 => Some(RangedLayout::Fixed(1)),
        Variation::Group20Var0 => Some(RangedLayout::NoData),
        Variation::Group20Var1 => Some(RangedLayout::Fixed(5)),
        Variation::Group20Var2 => Some(RangedLayout::Fixed(3)),
        Variation::Group20Var5 => Some(RangedLayout::Fixed(4)),
        Variation::Group20Var6 => Some(RangedLayout::Fixed(2)),
        Variation::Group21Var0 => Some(RangedLayout::NoData),
        Variation::Group21Var1 => Some(RangedLayout::Fixed(5)),
        Variation::Group21Var2 => Some(RangedLayout::Fixed(3)),
        Variation::Group21Var5 => Some(RangedLayout::Fixed(11)),
        Variation::Group21Var6 => Some(RangedLayout::Fixed(9)),
        Variation::Group21Var9 => Some(RangedLayout::Fixed(4)),
        Variation::Group21Var10 => Some(RangedLayout::Fixed(2)),
        Variation::Group30Var0 => Some(RangedLayout::NoData),
        Variation::Group30Var1 => Some(RangedLayout::Fixed(5)),
        Variation::Group30Var2 => Some(RangedLayout::Fixed(3)),
        Variation::Group30Var3 => Some(RangedLayout::Fixed(4)),
        Variation::Group30Var4 => Some(RangedLayout::Fixed(2)),
        Variation::Group30Var5 => Some(RangedLayout::Fixed(5)),
        Variation::Group30Var6 => Some(RangedLayout::Fixed(9)),
        Variation::Group40Var0 => Some(RangedLayout::NoData),
        Variation::Group40Var1 => Some(RangedLayout::Fixed(5)),
        Variation::Group40Var2 => Some(RangedLayout::Fixed(3)),
        Variation::Group40Var3 => Some(RangedLayout::Fixed(5)),
        Variation::Group40Var4 => Some(RangedLayout::Fixed(9)),
        Variation::Group80Var1 => Some(RangedLayout::Bits),
        Variation::Group110(x) => Some(RangedLayout::Octets(x)),
        _ => None,
    }
}

/// the result of reading the objects of a ranged header with a read request:
/// no object data, only the variation
pub open spec fn spec_parse_read(v: Variation, qualifier: QualifierCode) -> Result<RangedModel, ObjectParseError> {
    match ranged_layout(v) {
        Some(RangedLayout::Octets(x)) => if x == 0 {
            Ok(no_data_model(v))
        } else {
            Err(ObjectParseError::InvalidQualifierForVariation(v, qualifier))
        },
        Some(_) => Ok(no_data_model(v)),
        None => Err(ObjectParseError::InvalidQualifierForVariation(v, qualifier)),
    }
}

/// the model of `n` object bytes taken from `s`, with the number of bytes read
pub open spec fn take_objects(v: Variation, start: u16, count: nat, n: nat, s: Seq<u8>) -> Result<(RangedModel, nat), ObjectParseError> {
    if n <= s.len() {
        Ok((RangedModel { variation: v, start, count, data: s.take(n as int) }, n))
    } else {
        Err(ObjectParseError::InsufficientBytes)
    }
}

/// the result of reading the objects of a ranged header from `s` with any
/// other function, with the number of bytes read
pub open spec fn spec_parse_non_read(v: Variation, qualifier: QualifierCode, range: Range, s: Seq<u8>) -> Result<(RangedModel, nat), ObjectParseError> {
    let start = range.spec_start();
    let count = range.spec_count();
    match ranged_layout(v) {
        None => Err(ObjectParseError::InvalidQualifierForVariation(v, qualifier)),
        Some(RangedLayout::NoData) => Ok((no_data_model(v), 0)),
        Some(RangedLayout::Bits) => take_objects(v, start, count, (count + 7) / 8, s),
        Some(RangedLayout::DoubleBits) => take_objects(v, start, count, (count + 3) / 4, s),
        Some(RangedLayout::Fixed(z)) => take_objects(v, start, count, count * z, s),
        Some(RangedLayout::Octets(x)) => if x == 0 {
            Err(ObjectParseError::ZeroLengthOctetData)
        } else {
            take_objects(v, start, count, (x as nat) * count, s)
        },
    }
}

/// The objects of a header with a range qualifier
#[derive(Debug, PartialEq)]
pub enum RangedVariation<'a> {
    Group1Var0,
    Group1Var1(IndexedBitSequence<'a>),
    /// Binary Input - With Flags
    Group1Var2(RangedSequence<'a, Group1Var2>),
    Group3Var0,
    Group3Var1(IndexedDoubleBitSequence<'a>),
    /// Double-bit Binary Input - With Flags
    Group3Var2(RangedSequence<'a, Group3Var2>),
    Group10Var0,
    Group10Var1(IndexedBitSequence<'a>),
    /// Binary Output - Output Status With Flags
    Group10Var2(RangedSequence<'a, Group10Var2>),
    Group20Var0,
    /// Counter - 32-bit With Flag
    Group20Var1(RangedSequence<'a, Group20Var1>),
    /// Counter - 16-bit With Flag
    Group20Var2(RangedSequence<'a, Group20Var2>),
    /// Counter - 32-bit Without Flag
    Group20Var5(RangedSequence<'a, Group20Var5>),
    /// Counter - 16-bit Without Flag
    Group20Var6(RangedSequence<'a, Group20Var6>),
    Group21Var0,
    /// Frozen Counter - 32-bit With Flag
    Group21Var1(RangedSequence<'a, Group21Var1>),
    /// Frozen Counter - 16-bit With Flag
    Group21Var2(RangedSequence<'a, Group21Var2>),
    /// Frozen Counter - 32-bit With Flag and Time
    Group21Var5(RangedSequence<'a, Group21Var5>),
    /// Frozen Counter - 16-bit With Flag and Time
    Group21Var6(RangedSequence<'a, Group21Var6>),
    /// Frozen Counter - 32-bit Without Flag
    Group21Var9(RangedSequence<'a, Group21Var9>),
    /// Frozen Counter - 16-bit Without Flag
    Group21Var10(RangedSequence<'a, Group21Var10>),
    Group30Var0,
    /// Analog Input - 32-bit With Flag
    Group30Var1(RangedSequence<'a, Group30Var1>),
    /// Analog Input - 16-bit With Flag
    Group30Var2(RangedSequence<'a, Group30Var2>),
    /// Analog Input - 32-bit Without Flag
    Group30Var3(RangedSequence<'a, Group30Var3>),
    /// Analog Input - 16-bit Without Flag
    Group30Var4(RangedSequence<'a, Group30Var4>),
    /// Analog Input - Single-precision With Flag
    Group30Var5(RangedSequence<'a, Group30Var5>),
    /// Analog Input - Double-precision With Flag
    Group30Var6(RangedSequence<'a, Group30Var6>),
    Group40Var0,
    /// Analog Output Status - 32-bit With Flag
    Group40Var1(RangedSequence<'a, Group40Var1>),
    /// Analog Output Status - 16-bit With Flag
    Group40Var2(RangedSequence<'a, Group40Var2>),
    /// Analog Output Status - Single-precision With Flag
    Group40Var3(RangedSequence<'a, Group40Var3>),
    /// Analog Output Status - Double-precision With Flag
    Group40Var4(RangedSequence<'a, Group40Var4>),
    Group80Var1(IndexedBitSequence<'a>),
    Group110Var0,
    Group110VarX(u8, RangedBytesSequence<'a>),
}

impl<'a> RangedVariation<'a> {
    pub open spec fn spec_model(&self) -> RangedModel {
        match self {
            RangedVariation::Group1Var0 => no_data_model(Variation::Group1Var0),
            RangedVariation::Group1Var1(seq) => RangedModel { variation: Variation::Group1Var1, start: seq.spec_range().spec_start(), count: seq.spec_range().spec_count(), data: seq.spec_bytes() },
            RangedVariation::Group1Var2(seq) => RangedModel { variation: Variation::Group1Var2, start: seq.spec_range().spec_start(), count: seq.spec_range().spec_count(), data: seq.spec_data() },
            RangedVariation::Group3Var0 => no_data_model(Variation::Group3Var0),
            RangedVariation::Group3Var1(seq) => RangedModel { variation: Variation::Group3Var1, start: seq.spec_range().spec_start(), count: seq.spec_range().spec_count(), data: seq.spec_bytes() },
            RangedVariation::Group3Var2(seq) => RangedModel { variation: Variation::Group3Var2, start: seq.spec_range().spec_start(), count: seq.spec_range().spec_count(), data: seq.spec_data() },
            RangedVariation::Group10Var0 => no_data_model(Variation::Group10Var0),
            RangedVariation::Group10Var1(seq) => RangedModel { variation: Variation::Group10Var1, start: seq.spec_range().spec_start(), count: seq.spec_range().spec_count(), data: seq.spec_bytes() },
            RangedVariation::Group10Var2(seq) => RangedModel { variation: Variation::Group10Var2, start: seq.spec_range().spec_start(), count: seq.spec_range().spec_count(), data: seq.spec_data() },
            RangedVariation::Group20Var0 => no_data_model(Variation::Group20Var0),
            RangedVariation::Group20Var1(seq) => RangedModel { variation: Variation::Group20Var1, start: seq.spec_range().spec_start(), count: seq.spec_range().spec_count(), data: seq.spec_data() },
            RangedVariation::Group20Var2(seq) => RangedModel { variation: Variation::Group20Var2, start: seq.spec_range().spec_start(), count: seq.spec_range().spec_count(), data: seq.spec_data() },
            RangedVariation::Group20Var5(seq) => RangedModel { variation: Variation::Group20Var5, start: seq.spec_range().spec_start(), count: seq.spec_range().spec_count(), data: seq.spec_data() },
            RangedVariation::Group20Var6(seq) => RangedModel { variation: Variation::Group20Var6, start: seq.spec_range().spec_start(), count: seq.spec_range().spec_count(), data: seq.spec_data() },
            RangedVariation::Group21Var0 => no_data_model(Variation::Group21Var0),
            RangedVariation::Group21Var1(seq) => RangedModel { variation: Variation::Group21Var1, start: seq.spec_range().spec_start(), count: seq.spec_range().spec_count(), data: seq.spec_data() },
            RangedVariation::Group21Var2(seq) => RangedModel { variation: Variation::Group21Var2, start: seq.spec_range().spec_start(), count: seq.spec_range().spec_count(), data: seq.spec_data() },
            RangedVariation::Group21Var5(seq) => RangedModel { variation: Variation::Group21Var5, start: seq.spec_range().spec_start(), count: seq.spec_range().spec_count(), data: seq.spec_data() },
            RangedVariation::Group21Var6(seq) => RangedModel { variation: Variation::Group21Var6, start: seq.spec_range().spec_start(), count: seq.spec_range().spec_count(), data: seq.spec_data() },
            RangedVariation::Group21Var9(seq) => RangedModel { variation: Variation::Group21Var9, start: seq.spec_range().spec_start(), count: seq.spec_range().spec_count(), data: seq.spec_data() },
            RangedVariation::Group21Var10(seq) => RangedModel { variation: Variation::Group21Var10, start: seq.spec_range().spec_start(), count: seq.spec_range().spec_count(), data: seq.spec_data() },
            RangedVariation::Group30Var0 => no_data_model(Variation::Group30Var0),
            RangedVariation::Group30Var1(seq) => RangedModel { variation: Variation::Group30Var1, start: seq.spec_range().spec_start(), count: seq.spec_range().spec_count(), data: seq.spec_data() },
            RangedVariation::Group30Var2(seq) => RangedModel { variation: Variation::Group30Var2, start: seq.spec_range().spec_start(), count: seq.spec_range().spec_count(), data: seq.spec_data() },
            RangedVariation::Group30Var3(seq) => RangedModel { variation: Variation::Group30Var3, start: seq.spec_range().spec_start(), count: seq.spec_range().spec_count(), data: seq.spec_data() },
            RangedVariation::Group30Var4(seq) => RangedModel { variation: Variation::Group30Var4, start: seq.spec_range().spec_start(), count: seq.spec_range().spec_count(), data: seq.spec_data() },
            RangedVariation::Group30Var5(seq) => RangedModel { variation: Variation::Group30Var5, start: seq.spec_range().spec_start(), count: seq.spec_range().spec_count(), data: seq.spec_data() },
            RangedVariation::Group30Var6(seq) => RangedModel { variation: Variation::Group30Var6, start: seq.spec_range().spec_start(), count: seq.spec_range().spec_count(), data: seq.spec_data() },
            RangedVariation::Group40Var0 => no_data_model(Variation::Group40Var0),
            RangedVariation::Group40Var1(seq) => RangedModel { variation: Variation::Group40Var1, start: seq.spec_range().spec_start(), count: seq.spec_range().spec_count(), data: seq.spec_data() },
            RangedVariation::Group40Var2(seq) => RangedModel { variation: Variation::Group40Var2, start: seq.spec_range().spec_start(), count: seq.spec_range().spec_count(), data: seq.spec_data() },
            RangedVariation::Group40Var3(seq) => RangedModel { variation: Variation::Group40Var3, start: seq.spec_range().spec_start(), count: seq.spec_range().spec_count(), data: seq.spec_data() },
            RangedVariation::Group40Var4(seq) => RangedModel { variation: Variation::Group40Var4, start: seq.spec_range().spec_start(), count: seq.spec_range().spec_count(), data: seq.spec_data() },
            RangedVariation::Group80Var1(seq) => RangedModel { variation: Variation::Group80Var1, start: seq.spec_range().spec_start(), count: seq.spec_range().spec_count(), data: seq.spec_bytes() },
            RangedVariation::Group110Var0 => no_data_model(Variation::Group110(0)),
            RangedVariation::Group110VarX(x, seq) => RangedModel { variation: Variation::Group110(*x), start: seq.spec_index(), count: seq.spec_count(), data: seq.spec_bytes() },
        }
    }

    /// the octet-string size of `Group110VarX` is its variation
    pub open spec fn spec_wf(&self) -> bool {
        match self {
            RangedVariation::Group110VarX(x, seq) => seq.spec_size() == *x,
            _ => true,
        }
    }

    /// the objects of a header of a read request: none, only the variation
    pub fn parse_read(v: Variation, qualifier: QualifierCode) -> (res: Result<RangedVariation<'a>, ObjectParseError>)
        ensures
            match spec_parse_read(v, qualifier) {
                Ok(m) => res is Ok && res.unwrap().spec_model() == m && res.unwrap().spec_wf(),
                Err(e) => res == Err::<RangedVariation<'a>, ObjectParseError>(e),
            },
    {
        match v {
            Variation::Group1Var0 => Ok(RangedVariation::Group1Var0),
            Variation::Group1Var1 => Ok(RangedVariation::Group1Var1(IndexedBitSequence::empty())),
            Variation::Group1Var2 => Ok(RangedVariation::Group1Var2(RangedSequence::empty())),
            Variation::Group3Var0 => Ok(RangedVariation::Group3Var0),
            Variation::Group3Var1 => Ok(RangedVariation::Group3Var1(IndexedDoubleBitSequence::empty())),
            Variation::Group3Var2 => Ok(RangedVariation::Group3Var2(RangedSequence::empty())),
            Variation::Group10Var0 => Ok(RangedVariation::Group10Var0),
            Variation::Group10Var1 => Ok(RangedVariation::Group10Var1(IndexedBitSequence::empty())),
            Variation::Group10Var2 => Ok(RangedVariation::Group10Var2(RangedSequence::empty())),
            Variation::Group20Var0 => Ok(RangedVariation::Group20Var0),
            Variation::Group20Var1 => Ok(RangedVariation::Group20Var1(RangedSequence::empty())),
            Variation::Group20Var2 => Ok(RangedVariation::Group20Var2(RangedSequence::empty())),
            Variation::Group20Var5 => Ok(RangedVariation::Group20Var5(RangedSequence::empty())),
            Variation::Group20Var6 => Ok(RangedVariation::Group20Var6(RangedSequence::empty())),
            Variation::Group21Var0 => Ok(RangedVariation::Group21Var0),
            Variation::Group21Var1 => Ok(RangedVariation::Group21Var1(RangedSequence::empty())),
            Variation::Group21Var2 => Ok(RangedVariation::Group21Var2(RangedSequence::empty())),
            Variation::Group21Var5 => Ok(RangedVariation::Group21Var5(RangedSequence::empty())),
            Variation::Group21Var6 => Ok(RangedVariation::Group21Var6(RangedSequence::empty())),
            Variation::Group21Var9 => Ok(RangedVariation::Group21Var9(RangedSequence::empty())),
            Variation::Group21Var10 => Ok(RangedVariation::Group21Var10(RangedSequence::empty())),
            Variation::Group30Var0 => Ok(RangedVariation::Group30Var0),
            Variation::Group30Var1 => Ok(RangedVariation::Group30Var1(RangedSequence::empty())),
            Variation::Group30Var2 => Ok(RangedVariation::Group30Var2(RangedSequence::empty())),
            Variation::Group30Var3 => Ok(RangedVariation::Group30Var3(RangedSequence::empty())),
            Variation::Group30Var4 => Ok(RangedVariation::Group30Var4(RangedSequence::empty())),
            Variation::Group30Var5 => Ok(RangedVariation::Group30Var5(RangedSequence::empty())),
            Variation::Group30Var6 => Ok(RangedVariation::Group30Var6(RangedSequence::empty())),
            Variation::Group40Var0 => Ok(RangedVariation::Group40Var0),
            Variation::Group40Var1 => Ok(RangedVariation::Group40Var1(RangedSequence::empty())),
            Variation::Group40Var2 => Ok(RangedVariation::Group40Var2(RangedSequence::empty())),
            Variation::Group40Var3 => Ok(RangedVariation::Group40Var3(RangedSequence::empty())),
            Variation::Group40Var4 => Ok(RangedVariation::Group40Var4(RangedSequence::empty())),
            Variation::Group80Var1 => Ok(RangedVariation::Group80Var1(IndexedBitSequence::empty())),
            Variation::Group110(0) => Ok(RangedVariation::Group110Var0),
            _ => Err(ObjectParseError::InvalidQualifierForVariation(v, qualifier)),
        }
    }

    /// reads the objects of a header with a range, for any function other than read
    #[verifier::spinoff_prover]
    #[verifier::rlimit(60)]
    pub fn parse_non_read(v: Variation, qualifier: QualifierCode, range: Range, cursor: &mut ReadCursor<'a>) -> (res: Result<RangedVariation<'a>, ObjectParseError>)
        ensures
            match spec_parse_non_read(v, qualifier, range, old(cursor)@) {
                Ok((m, n)) => res is Ok && res.unwrap().spec_model() == m && res.unwrap().spec_wf() && final(cursor)@ == old(cursor)@.skip(n as int),
                Err(e) => res == Err::<RangedVariation<'a>, ObjectParseError>(e),
            },
    {
        proof {
            assert(cursor@.skip(0) =~= cursor@);
        }
        match v {
            Variation::Group1Var0 => Ok(RangedVariation::Group1Var0),
            Variation::Group1Var1 => match IndexedBitSequence::parse(range, cursor) {
                Ok(seq) => Ok(RangedVariation::Group1Var1(seq)),
                Err(_) => Err(ObjectParseError::InsufficientBytes),
            },
            Variation::Group1Var2 => match RangedSequence::parse(range, cursor) {
                Ok(seq) => Ok(RangedVariation::Group1Var2(seq)),
                Err(_) => Err(ObjectParseError::InsufficientBytes),
            },
            Variation::Group3Var0 => Ok(RangedVariation::Group3Var0),
            Variation::Group3Var1 => match IndexedDoubleBitSequence::parse(range, cursor) {
                Ok(seq) => Ok(RangedVariation::Group3Var1(seq)),
                Err(_) => Err(ObjectParseError::InsufficientBytes),
            },
            Variation::Group3Var2 => match RangedSequence::parse(range, cursor) {
                Ok(seq) => Ok(RangedVariation::Group3Var2(seq)),
                Err(_) => Err(ObjectParseError::InsufficientBytes),
            },
            Variation::Group10Var0 => Ok(RangedVariation::Group10Var0),
            Variation::Group10Var1 => match IndexedBitSequence::parse(range, cursor) {
                Ok(seq) => Ok(RangedVariation::Group10Var1(seq)),
                Err(_) => Err(ObjectParseError::InsufficientBytes),
            },
            Variation::Group10Var2 => match RangedSequence::parse(range, cursor) {
                Ok(seq) => Ok(RangedVariation::Group10Var2(seq)),
                Err(_) => Err(ObjectParseError::InsufficientBytes),
            },
            Variation::Group20Var0 => Ok(RangedVariation::Group20Var0),
            Variation::Group20Var1 => match RangedSequence::parse(range, cursor) {
                Ok(seq) => Ok(RangedVariation::Group20Var1(seq)),
                Err(_) => Err(ObjectParseError::InsufficientBytes),
            },
            Variation::Group20Var2 => match RangedSequence::parse(range, cursor) {
                Ok(seq) => Ok(RangedVariation::Group20Var2(seq)),
                Err(_) => Err(ObjectParseError::InsufficientBytes),
            },
            Variation::Group20Var5 => match RangedSequence::parse(range, cursor) {
                Ok(seq) => Ok(RangedVariation::Group20Var5(seq)),
                Err(_) => Err(ObjectParseError::InsufficientBytes),
            },
            Variation::Group20Var6 => match RangedSequence::parse(range, cursor) {
                Ok(seq) => Ok(RangedVariation::Group20Var6(seq)),
                Err(_) => Err(ObjectParseError::InsufficientBytes),
            },
            Variation::Group21Var0 => Ok(RangedVariation::Group21Var0),
            Variation::Group21Var1 => match RangedSequence::parse(range, cursor) {
                Ok(seq) => Ok(RangedVariation::Group21Var1(seq)),
                Err(_) => Err(ObjectParseError::InsufficientBytes),
            },
            Variation::Group21Var2 => match RangedSequence::parse(range, cursor) {
                Ok(seq) => Ok(RangedVariation::Group21Var2(seq)),
                Err(_) => Err(ObjectParseError::InsufficientBytes),
            },
            Variation::Group21Var5 => match RangedSequence::parse(range, cursor) {
                Ok(seq) => Ok(RangedVariation::Group21Var5(seq)),
                Err(_) => Err(ObjectParseError::InsufficientBytes),
            },
            Variation::Group21Var6 => match RangedSequence::parse(range, cursor) {
                Ok(seq) => Ok(RangedVariation::Group21Var6(seq)),
                Err(_) => Err(ObjectParseError::InsufficientBytes),
            },
            Variation::Group21Var9 => match RangedSequence::parse(range, cursor) {
                Ok(seq) => Ok(RangedVariation::Group21Var9(seq)),
                Err(_) => Err(ObjectParseError::InsufficientBytes),
            },
            Variation::Group21Var10 => match RangedSequence::parse(range, cursor) {
                Ok(seq) => Ok(RangedVariation::Group21Var10(seq)),
                Err(_) => Err(ObjectParseError::InsufficientBytes),
            },
            Variation::Group30Var0 => Ok(RangedVariation::Group30Var0),
            Variation::Group30Var1 => match RangedSequence::parse(range, cursor) {
                Ok(seq) => Ok(RangedVariation::Group30Var1(seq)),
                Err(_) => Err(ObjectParseError::InsufficientBytes),
            },
            Variation::Group30Var2 => match RangedSequence::parse(range, cursor) {
                Ok(seq) => Ok(RangedVariation::Group30Var2(seq)),
                Err(_) => Err(ObjectParseError::InsufficientBytes),
            },
            Variation::Group30Var3 => match RangedSequence::parse(range, cursor) {
                Ok(seq) => Ok(RangedVariation::Group30Var3(seq)),
                Err(_) => Err(ObjectParseError::InsufficientBytes),
            },
            Variation::Group30Var4 => match RangedSequence::parse(range, cursor) {
                Ok(seq) => Ok(RangedVariation::Group30Var4(seq)),
                Err(_) => Err(ObjectParseError::InsufficientBytes),
            },
            Variation::Group30Var5 => match RangedSequence::parse(range, cursor) {
                Ok(seq) => Ok(RangedVariation::Group30Var5(seq)),
                Err(_) => Err(ObjectParseError::InsufficientBytes),
            },
            Variation::Group30Var6 => match RangedSequence::parse(range, cursor) {
                Ok(seq) => Ok(RangedVariation::Group30Var6(seq)),
                Err(_) => Err(ObjectParseError::InsufficientBytes),
            },
            Variation::Group40Var0 => Ok(RangedVariation::Group40Var0),
            Variation::Group40Var1 => match RangedSequence::parse(range, cursor) {
                Ok(seq) => Ok(RangedVariation::Group40Var1(seq)),
                Err(_) => Err(ObjectParseError::InsufficientBytes),
            },
            Variation::Group40Var2 => match RangedSequence::parse(range, cursor) {
                Ok(seq) => Ok(RangedVariation::Group40Var2(seq)),
                Err(_) => Err(ObjectParseError::InsufficientBytes),
            },
            Variation::Group40Var3 => match RangedSequence::parse(range, cursor) {
                Ok(seq) => Ok(RangedVariation::Group40Var3(seq)),
                Err(_) => Err(ObjectParseError::InsufficientBytes),
            },
            Variation::Group40Var4 => match RangedSequence::parse(range, cursor) {
                Ok(seq) => Ok(RangedVariation::Group40Var4(seq)),
                Err(_) => Err(ObjectParseError::InsufficientBytes),
            },
            Variation::Group80Var1 => match IndexedBitSequence::parse(range, cursor) {
                Ok(seq) => Ok(RangedVariation::Group80Var1(seq)),
                Err(_) => Err(ObjectParseError::InsufficientBytes),
            },
            Variation::Group110(0) => Err(ObjectParseError::ZeroLengthOctetData),
            Variation::Group110(x) => {
                match RangedBytesSequence::parse(x, range.get_start(), range.get_count(), cursor) {
                    Ok(seq) => Ok(RangedVariation::Group110VarX(x, seq)),
                    Err(e) => Err(e),
                }
            },
            _ => Err(ObjectParseError::InvalidQualifierForVariation(v, qualifier)),
        }
    }
}

} // verus!
