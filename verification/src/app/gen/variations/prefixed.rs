use crate::app::gen::variations::fixed::{Group2Var1, Group2Var2, Group2Var3, Group4Var1, Group4Var2, Group4Var3, Group11Var1, Group11Var2, Group12Var1, Group13Var1, Group13Var2, Group22Var1, Group22Var2, Group22Var5, Group22Var6, Group23Var1, Group23Var2, Group23Var5, Group23Var6, Group32Var1, Group32Var2, Group32Var3, Group32Var4, Group32Var5, Group32Var6, Group32Var7, Group32Var8, Group41Var1, Group41Var2, Group41Var3, Group41Var4, Group42Var1, Group42Var2, Group42Var3, Group42Var4, Group42Var5, Group42Var6, Group42Var7, Group42Var8, Group43Var1, Group43Var2, Group43Var3, Group43Var4, Group43Var5, Group43Var6, Group43Var7, Group43Var8};
use crate::app::gen::variations::variation::Variation;
use crate::app::parse::bytes::PrefixedBytesSequence;
use crate::app::parse::count::CountSequence;
use crate::app::parse::error::ObjectParseError;
use crate::app::parse::prefix::Prefix;
use crate::app::parse::traits::{FixedSize, FixedSizeVariation, Index};
use crate::util::cursor::ReadCursor;
use vstd::prelude::*;

verus! {

/// How the objects of a variation are laid out after a count and prefix
pub enum PrefixedLayout {
    /// an index then a fixed number of bytes for each object
    Fixed(nat),
    /// an octet string of the given length then an index for each object
    Octets(u8),
}

/// What a count-and-prefix header holds: the variation, the number of objects
/// and their bytes, indices included
pub struct PrefixedModel {
    pub variation: Variation,
    pub count: nat,
    pub data: Seq<u8>,
}

/// the layout of the objects of `v` after a count and prefix; `None` where
/// `v` may not be used with a count and prefix
pub open spec fn prefixed_layout(v: Variation) -> Option<PrefixedLayout> {
    match v {
        Variation::Group2Var1 => Some(PrefixedLayout::Fixed(1)),
        Variation::Group2Var2 => Some(PrefixedLayout::Fixed(7)),
        Variation::Group2Var3 => Some(PrefixedLayout::Fixed(3)),
        Variation::Group4Var1 => Some(PrefixedLayout::Fixed(1)),
        Variation::Group4Var2 => Some(PrefixedLayout::Fixed(7)),
        Variation::Group4Var3 => Some(PrefixedLayout::Fixed(3)),
        Variation::Group11Var1 => Some(PrefixedLayout::Fixed(1)),
        Variation::Group11Var2 => Some(PrefixedLayout::Fixed(7)),
        Variation::Group12Var1 => Some(PrefixedLayout::Fixed(11)),
        Variation::Group13Var1 => Some(PrefixedLayout::Fixed(1)),
        Variation::Group13Var2 => Some(PrefixedLayout::Fixed(7)),
        Variation::Group22Var1 => Some(PrefixedLayout::Fixed(5)),
        Variation::Group22Var2 => Some(PrefixedLayout::Fixed(3)),
        Variation::Group22Var5 => Some(PrefixedLayout::Fixed(11)),
        Variation::Group22Var6 => Some(PrefixedLayout::Fixed(9)),
        Variation::Group23Var1 => Some(PrefixedLayout::Fixed(5)),
        Variation::Group23Var2 => Some(PrefixedLayout::Fixed(3)),
        Variation::Group23Var5 => Some(PrefixedLayout::Fixed(11)),
        Variation::Group23Var6 => Some(PrefixedLayout::Fixed(9)),
        Variation::Group32Var1 => Some(PrefixedLayout::Fixed(5)),
        Variation::Group32Var2 => Some(PrefixedLayout::Fixed(3)),
        Variation::Group32Var3 => Some(PrefixedLayout::Fixed(11)),
        Variation::Group32Var4 => Some(PrefixedLayout::Fixed(9)),
        Variation::Group32Var5 => Some(PrefixedLayout::Fixed(5)),
        Variation::Group32Var6 => Some(PrefixedLayout::Fixed(9)),
        Variation::Group32Var7 => Some(PrefixedLayout::Fixed(11)),
        Variation::Group32Var8 => Some(PrefixedLayout::Fixed(15)),
        Variation::Group41Var1 => Some(PrefixedLayout::Fixed(5)),
        Variation::Group41Var2 => Some(PrefixedLayout::Fixed(3)),
        Variation::Group41Var3 => Some(PrefixedLayout::Fixed(5)),
        Variation::Group41Var4 => Some(PrefixedLayout::Fixed(9)),
        Variation::Group42Var1 => Some(PrefixedLayout::Fixed(5)),
        Variation::Group42Var2 => Some(PrefixedLayout::Fixed(3)),
        Variation::Group42Var3 => Some(PrefixedLayout::Fixed(11)),
        Variation::Group42Var4 => Some(PrefixedLayout::Fixed(9)),
        Variation::Group42Var5 => Some(PrefixedLayout::Fixed(5)),
        Variation::Group42Var6 => Some(PrefixedLayout::Fixed(9)),
        Variation::Group42Var7 => Some(PrefixedLayout::Fixed(11)),
        Variation::Group42Var8 => Some(PrefixedLayout::Fixed(15)),
        Variation::Group43Var1 => Some(PrefixedLayout::Fixed(5)),
        Variation::Group43Var2 => Some(PrefixedLayout::Fixed(3)),
        Variation::Group43Var3 => Some(PrefixedLayout::Fixed(11)),
        Variation::Group43Var4 => Some(PrefixedLayout::Fixed(9)),
        Variation::Group43Var5 => Some(PrefixedLayout::Fixed(5)),
        Variation::Group43Var6 => Some(PrefixedLayout::Fixed(9)),
        Variation::Group43Var7 => Some(PrefixedLayout::Fixed(11)),
        Variation::Group43Var8 => Some(PrefixedLayout::Fixed(15)),
        Variation::Group111(x) => Some(PrefixedLayout::Octets(x)),
        _ => None,
    }
}

/// the model of `n` bytes taken from `s`, with the number of bytes read
pub open spec fn take_prefixed(v: Variation, count: u16, n: int, s: Seq<u8>) -> Result<(PrefixedModel, int), ObjectParseError> {
    if n <= s.len() {
        Ok((PrefixedModel { variation: v, count: count as nat, data: s.take(n) }, n))
    } else {
        Err(ObjectParseError::InsufficientBytes)
    }
}

/// the result of reading the objects of a count-and-prefix header with index
/// type `I` from `s`, with the number of bytes read
pub open spec fn spec_parse_prefixed<I: FixedSize + Index>(v: Variation, count: u16, s: Seq<u8>) -> Result<(PrefixedModel, int), ObjectParseError> {
    match prefixed_layout(v) {
        None => Err(ObjectParseError::InvalidQualifierForVariation(v, I::spec_count_and_prefix_qualifier())),
        Some(PrefixedLayout::Fixed(z)) => take_prefixed(v, count, count * (I::spec_size() + z), s),
        Some(PrefixedLayout::Octets(x)) => if x == 0 {
            Err(ObjectParseError::ZeroLengthOctetData)
        } else {
            take_prefixed(v, count, (x + I::spec_size()) * count, s)
        },
    }
}

/// The objects of a header with a count-and-prefix qualifier
#[derive(Debug, PartialEq)]
pub enum PrefixedVariation<'a, I> where I: FixedSize + Index {
    /// Binary Input Event - Without Time
    Group2Var1(CountSequence<'a, Prefix<I, Group2Var1>>),
    /// Binary Input Event - With Absolute Time
    Group2Var2(CountSequence<'a, Prefix<I, Group2Var2>>),
    /// Binary Input Event - With Relative Time
    Group2Var3(CountSequence<'a, Prefix<I, Group2Var3>>),
    /// Double-bit Binary Input Event - Without Time
    Group4Var1(CountSequence<'a, Prefix<I, Group4Var1>>),
    /// Double-bit Binary Input Event - With Absolute Time
    Group4Var2(CountSequence<'a, Prefix<I, Group4Var2>>),
    /// Double-bit Binary Input Event - With Relative Time
    Group4Var3(CountSequence<'a, Prefix<I, Group4Var3>>),
    /// Binary Output Event - Output Status Without Time
    Group11Var1(CountSequence<'a, Prefix<I, Group11Var1>>),
    /// Binary Output Event - Output Status With Time
    Group11Var2(CountSequence<'a, Prefix<I, Group11Var2>>),
    /// Binary Command - Control Relay Output Block
    Group12Var1(CountSequence<'a, Prefix<I, Group12Var1>>),
    /// Binary Command Event - Without Time
    Group13Var1(CountSequence<'a, Prefix<I, Group13Var1>>),
    /// Binary Command Event - With Time
    Group13Var2(CountSequence<'a, Prefix<I, Group13Var2>>),
    /// Counter Event - 32-bit With Flag
    Group22Var1(CountSequence<'a, Prefix<I, Group22Var1>>),
    /// Counter Event - 16-bit With Flag
    Group22Var2(CountSequence<'a, Prefix<I, Group22Var2>>),
    /// Counter Event - 32-bit With Flag and Time
    Group22Var5(CountSequence<'a, Prefix<I, Group22Var5>>),
    /// Counter Event - 16-bit With Flag and Time
    Group22Var6(CountSequence<'a, Prefix<I, Group22Var6>>),
    /// Frozen Counter Event - 32-bit With Flag
    Group23Var1(CountSequence<'a, Prefix<I, Group23Var1>>),
    /// Frozen Counter Event - 16-bit With Flag
    Group23Var2(CountSequence<'a, Prefix<I, Group23Var2>>),
    /// Frozen Counter Event - 32-bit With Flag and Time
    Group23Var5(CountSequence<'a, Prefix<I, Group23Var5>>),
    /// Frozen Counter Event - 16-bit With Flag and Time
    Group23Var6(CountSequence<'a, Prefix<I, Group23Var6>>),
    /// Analog Input Event - 32-bit With Flag
    Group32Var1(CountSequence<'a, Prefix<I, Group32Var1>>),
    /// Analog Input Event - 16-bit With Flag
    Group32Var2(CountSequence<'a, Prefix<I, Group32Var2>>),
    /// Analog Input Event - 32-bit With Flag and Time
    Group32Var3(CountSequence<'a, Prefix<I, Group32Var3>>),
    /// Analog Input Event - 16-bit With Flag and Time
    Group32Var4(CountSequence<'a, Prefix<I, Group32Var4>>),
    /// Analog Input Event - Single-precision With Flag
    Group32Var5(CountSequence<'a, Prefix<I, Group32Var5>>),
    /// Analog Input Event - Double-precision With Flag
    Group32Var6(CountSequence<'a, Prefix<I, Group32Var6>>),
    /// Analog Input Event - Single-precision With Flag and Time
    Group32Var7(CountSequence<'a, Prefix<I, Group32Var7>>),
    /// Analog Input Event - Double-precision With Flag and Time
    Group32Var8(CountSequence<'a, Prefix<I, Group32Var8>>),
    /// Analog Output - 32-bit With Flag
    Group41Var1(CountSequence<'a, Prefix<I, Group41Var1>>),
    /// Analog Output - 16-bit With Flag
    Group41Var2(CountSequence<'a, Prefix<I, Group41Var2>>),
    /// Analog Output - Single-precision
    Group41Var3(CountSequence<'a, Prefix<I, Group41Var3>>),
    /// Analog Output - Double-precision
    Group41Var4(CountSequence<'a, Prefix<I, Group41Var4>>),
    /// Analog Output Event - 32-bit With Flag
    Group42Var1(CountSequence<'a, Prefix<I, Group42Var1>>),
    /// Analog Output Event - 16-bit With Flag
    Group42Var2(CountSequence<'a, Prefix<I, Group42Var2>>),
    /// Analog Output Event - 32-bit With Flag and Time
    Group42Var3(CountSequence<'a, Prefix<I, Group42Var3>>),
    /// Analog Output Event - 16-bit With Flag and Time
    Group42Var4(CountSequence<'a, Prefix<I, Group42Var4>>),
    /// Analog Output Event - Single-precision With Flag
    Group42Var5(CountSequence<'a, Prefix<I, Group42Var5>>),
    /// Analog Output Event - Double-precision With Flag
    Group42Var6(CountSequence<'a, Prefix<I, Group42Var6>>),
    /// Analog Output Event - Single-precision With Flag and Time
    Group42Var7(CountSequence<'a, Prefix<I, Group42Var7>>),
    /// Analog Output Event - Double-precision With Flag and Time
    Group42Var8(CountSequence<'a, Prefix<I, Group42Var8>>),
    /// Analog Command Event - 32-bit
    Group43Var1(CountSequence<'a, Prefix<I, Group43Var1>>),
    /// Analog Command Event - 16-bit
    Group43Var2(CountSequence<'a, Prefix<I, Group43Var2>>),
    /// Analog Command Event - 32-bit With Time
    Group43Var3(CountSequence<'a, Prefix<I, Group43Var3>>),
    /// Analog Command Event - 16-bit With Time
    Group43Var4(CountSequence<'a, Prefix<I, Group43Var4>>),
    /// Analog Command Event - Single-precision
    Group43Var5(CountSequence<'a, Prefix<I, Group43Var5>>),
    /// Analog Command Event - Double-precision
    Group43Var6(CountSequence<'a, Prefix<I, Group43Var6>>),
    /// Analog Command Event - Single-precision With Time
    Group43Var7(CountSequence<'a, Prefix<I, Group43Var7>>),
    /// Analog Command Event - Double-precision With Time
    Group43Var8(CountSequence<'a, Prefix<I, Group43Var8>>),
    /// Octet String Event - Sized by variation
    Group111VarX(u8, PrefixedBytesSequence<'a, I>),
}

impl<'a, I> PrefixedVariation<'a, I> where I: FixedSize + Index {
    pub open spec fn spec_model(&self) -> PrefixedModel {
        match self {
            PrefixedVariation::Group2Var1(seq) => PrefixedModel { variation: Variation::Group2Var1, count: seq.spec_count(), data: seq.spec_data() },
            PrefixedVariation::Group2Var2(seq) => PrefixedModel { variation: Variation::Group2Var2, count: seq.spec_count(), data: seq.spec_data() },
            PrefixedVariation::Group2Var3(seq) => PrefixedModel { variation: Variation::Group2Var3, count: seq.spec_count(), data: seq.spec_data() },
            PrefixedVariation::Group4Var1(seq) => PrefixedModel { variation: Variation::Group4Var1, count: seq.spec_count(), data: seq.spec_data() },
            PrefixedVariation::Group4Var2(seq) => PrefixedModel { variation: Variation::Group4Var2, count: seq.spec_count(), data: seq.spec_data() },
            PrefixedVariation::Group4Var3(seq) => PrefixedModel { variation: Variation::Group4Var3, count: seq.spec_count(), data: seq.spec_data() },
            PrefixedVariation::Group11Var1(seq) => PrefixedModel { variation: Variation::Group11Var1, count: seq.spec_count(), data: seq.spec_data() },
            PrefixedVariation::Group11Var2(seq) => PrefixedModel { variation: Variation::Group11Var2, count: seq.spec_count(), data: seq.spec_data() },
            PrefixedVariation::Group12Var1(seq) => PrefixedModel { variation: Variation::Group12Var1, count: seq.spec_count(), data: seq.spec_data() },
            PrefixedVariation::Group13Var1(seq) => PrefixedModel { variation: Variation::Group13Var1, count: seq.spec_count(), data: seq.spec_data() },
            PrefixedVariation::Group13Var2(seq) => PrefixedModel { variation: Variation::Group13Var2, count: seq.spec_count(), data: seq.spec_data() },
            PrefixedVariation::Group22Var1(seq) => PrefixedModel { variation: Variation::Group22Var1, count: seq.spec_count(), data: seq.spec_data() },
            PrefixedVariation::Group22Var2(seq) => PrefixedModel { variation: Variation::Group22Var2, count: seq.spec_count(), data: seq.spec_data() },
            PrefixedVariation::Group22Var5(seq) => PrefixedModel { variation: Variation::Group22Var5, count: seq.spec_count(), data: seq.spec_data() },
            PrefixedVariation::Group22Var6(seq) => PrefixedModel { variation: Variation::Group22Var6, count: seq.spec_count(), data: seq.spec_data() },
            PrefixedVariation::Group23Var1(seq) => PrefixedModel { variation: Variation::Group23Var1, count: seq.spec_count(), data: seq.spec_data() },
            PrefixedVariation::Group23Var2(seq) => PrefixedModel { variation: Variation::Group23Var2, count: seq.spec_count(), data: seq.spec_data() },
            PrefixedVariation::Group23Var5(seq) => PrefixedModel { variation: Variation::Group23Var5, count: seq.spec_count(), data: seq.spec_data() },
            PrefixedVariation::Group23Var6(seq) => PrefixedModel { variation: Variation::Group23Var6, count: seq.spec_count(), data: seq.spec_data() },
            PrefixedVariation::Group32Var1(seq) => PrefixedModel { variation: Variation::Group32Var1, count: seq.spec_count(), data: seq.spec_data() },
            PrefixedVariation::Group32Var2(seq) => PrefixedModel { variation: Variation::Group32Var2, count: seq.spec_count(), data: seq.spec_data() },
            PrefixedVariation::Group32Var3(seq) => PrefixedModel { variation: Variation::Group32Var3, count: seq.spec_count(), data: seq.spec_data() },
            PrefixedVariation::Group32Var4(seq) => PrefixedModel { variation: Variation::Group32Var4, count: seq.spec_count(), data: seq.spec_data() },
            PrefixedVariation::Group32Var5(seq) => PrefixedModel { variation: Variation::Group32Var5, count: seq.spec_count(), data: seq.spec_data() },
            PrefixedVariation::Group32Var6(seq) => PrefixedModel { variation: Variation::Group32Var6, count: seq.spec_count(), data: seq.spec_data() },
            PrefixedVariation::Group32Var7(seq) => PrefixedModel { variation: Variation::Group32Var7, count: seq.spec_count(), data: seq.spec_data() },
            PrefixedVariation::Group32Var8(seq) => PrefixedModel { variation: Variation::Group32Var8, count: seq.spec_count(), data: seq.spec_data() },
            PrefixedVariation::Group41Var1(seq) => PrefixedModel { variation: Variation::Group41Var1, count: seq.spec_count(), data: seq.spec_data() },
            PrefixedVariation::Group41Var2(seq) => PrefixedModel { variation: Variation::Group41Var2, count: seq.spec_count(), data: seq.spec_data() },
            PrefixedVariation::Group41Var3(seq) => PrefixedModel { variation: Variation::Group41Var3, count: seq.spec_count(), data: seq.spec_data() },
            PrefixedVariation::Group41Var4(seq) => PrefixedModel { variation: Variation::Group41Var4, count: seq.spec_count(), data: seq.spec_data() },
            PrefixedVariation::Group42Var1(seq) => PrefixedModel { variation: Variation::Group42Var1, count: seq.spec_count(), data: seq.spec_data() },
            PrefixedVariation::Group42Var2(seq) => PrefixedModel { variation: Variation::Group42Var2, count: seq.spec_count(), data: seq.spec_data() },
            PrefixedVariation::Group42Var3(seq) => PrefixedModel { variation: Variation::Group42Var3, count: seq.spec_count(), data: seq.spec_data() },
            PrefixedVariation::Group42Var4(seq) => PrefixedModel { variation: Variation::Group42Var4, count: seq.spec_count(), data: seq.spec_data() },
            PrefixedVariation::Group42Var5(seq) => PrefixedModel { variation: Variation::Group42Var5, count: seq.spec_count(), data: seq.spec_data() },
            PrefixedVariation::Group42Var6(seq) => PrefixedModel { variation: Variation::Group42Var6, count: seq.spec_count(), data: seq.spec_data() },
            PrefixedVariation::Group42Var7(seq) => PrefixedModel { variation: Variation::Group42Var7, count: seq.spec_count(), data: seq.spec_data() },
            PrefixedVariation::Group42Var8(seq) => PrefixedModel { variation: Variation::Group42Var8, count: seq.spec_count(), data: seq.spec_data() },
            PrefixedVariation::Group43Var1(seq) => PrefixedModel { variation: Variation::Group43Var1, count: seq.spec_count(), data: seq.spec_data() },
            PrefixedVariation::Group43Var2(seq) => PrefixedModel { variation: Variation::Group43Var2, count: seq.spec_count(), data: seq.spec_data() },
            PrefixedVariation::Group43Var3(seq) => PrefixedModel { variation: Variation::Group43Var3, count: seq.spec_count(), data: seq.spec_data() },
            PrefixedVariation::Group43Var4(seq) => PrefixedModel { variation: Variation::Group43Var4, count: seq.spec_count(), data: seq.spec_data() },
            PrefixedVariation::Group43Var5(seq) => PrefixedModel { variation: Variation::Group43Var5, count: seq.spec_count(), data: seq.spec_data() },
            PrefixedVariation::Group43Var6(seq) => PrefixedModel { variation: Variation::Group43Var6, count: seq.spec_count(), data: seq.spec_data() },
            PrefixedVariation::Group43Var7(seq) => PrefixedModel { variation: Variation::Group43Var7, count: seq.spec_count(), data: seq.spec_data() },
            PrefixedVariation::Group43Var8(seq) => PrefixedModel { variation: Variation::Group43Var8, count: seq.spec_count(), data: seq.spec_data() },
            PrefixedVariation::Group111VarX(x, seq) => PrefixedModel { variation: Variation::Group111(*x), count: seq.spec_count(), data: seq.spec_bytes() },
        }
    }

    /// the octet-string size of `Group111VarX` is its variation
    pub open spec fn spec_wf(&self) -> bool {
        match self {
            PrefixedVariation::Group111VarX(x, seq) => seq.spec_size() == *x,
            _ => true,
        }
    }

    /// reads `count` objects of variation `v`, each with its index
    #[verifier::spinoff_prover]
    pub fn parse(v: Variation, count: u16, cursor: &mut ReadCursor<'a>) -> (res: Result<PrefixedVariation<'a, I>, ObjectParseError>)
        ensures
            match spec_parse_prefixed::<I>(v, count, old(cursor)@) {
                Ok((m, n)) => res is Ok && res.unwrap().spec_model() == m && res.unwrap().spec_wf() && final(cursor)@ == old(cursor)@.skip(n as int),
                Err(e) => res == Err::<PrefixedVariation<'a, I>, ObjectParseError>(e),
            },
    {
        proof {
            I::lemma_index_size();
        }
        match v {
            Variation::Group2Var1 => {
                proof {
                    Group2Var1::lemma_size_bound();
                }
                match CountSequence::parse(count, cursor) {
                    Ok(seq) => Ok(PrefixedVariation::Group2Var1(seq)),
                    Err(_) => Err(ObjectParseError::InsufficientBytes),
                }
            },
            Variation::Group2Var2 => {
                proof {
                    Group2Var2::lemma_size_bound();
                }
                match CountSequence::parse(count, cursor) {
                    Ok(seq) => Ok(PrefixedVariation::Group2Var2(seq)),
                    Err(_) => Err(ObjectParseError::InsufficientBytes),
                }
            },
            Variation::Group2Var3 => {
                proof {
                    Group2Var3::lemma_size_bound();
                }
                match CountSequence::parse(count, cursor) {
                    Ok(seq) => Ok(PrefixedVariation::Group2Var3(seq)),
                    Err(_) => Err(ObjectParseError::InsufficientBytes),
                }
            },
            Variation::Group4Var1 => {
                proof {
                    Group4Var1::lemma_size_bound();
                }
                match CountSequence::parse(count, cursor) {
                    Ok(seq) => Ok(PrefixedVariation::Group4Var1(seq)),
                    Err(_) => Err(ObjectParseError::InsufficientBytes),
                }
            },
            Variation::Group4Var2 => {
                proof {
                    Group4Var2::lemma_size_bound();
                }
                match CountSequence::parse(count, cursor) {
                    Ok(seq) => Ok(PrefixedVariation::Group4Var2(seq)),
                    Err(_) => Err(ObjectParseError::InsufficientBytes),
                }
            },
            Variation::Group4Var3 => {
                proof {
                    Group4Var3::lemma_size_bound();
                }
                match CountSequence::parse(count, cursor) {
                    Ok(seq) => Ok(PrefixedVariation::Group4Var3(seq)),
                    Err(_) => Err(ObjectParseError::InsufficientBytes),
                }
            },
            Variation::Group11Var1 => {
                proof {
                    Group11Var1::lemma_size_bound();
                }
                match CountSequence::parse(count, cursor) {
                    Ok(seq) => Ok(PrefixedVariation::Group11Var1(seq)),
                    Err(_) => Err(ObjectParseError::InsufficientBytes),
                }
            },
            Variation::Group11Var2 => {
                proof {
                    Group11Var2::lemma_size_bound();
                }
                match CountSequence::parse(count, cursor) {
                    Ok(seq) => Ok(PrefixedVariation::Group11Var2(seq)),
                    Err(_) => Err(ObjectParseError::InsufficientBytes),
                }
            },
            Variation::Group12Var1 => {
                proof {
                    Group12Var1::lemma_size_bound();
                }
                match CountSequence::parse(count, cursor) {
                    Ok(seq) => Ok(PrefixedVariation::Group12Var1(seq)),
                    Err(_) => Err(ObjectParseError::InsufficientBytes),
                }
            },
            Variation::Group13Var1 => {
                proof {
                    Group13Var1::lemma_size_bound();
                }
                match CountSequence::parse(count, cursor) {
                    Ok(seq) => Ok(PrefixedVariation::Group13Var1(seq)),
                    Err(_) => Err(ObjectParseError::InsufficientBytes),
                }
            },
            Variation::Group13Var2 => {
                proof {
                    Group13Var2::lemma_size_bound();
                }
                match CountSequence::parse(count, cursor) {
                    Ok(seq) => Ok(PrefixedVariation::Group13Var2(seq)),
                    Err(_) => Err(ObjectParseError::InsufficientBytes),
                }
            },
            Variation::Group22Var1 => {
                proof {
                    Group22Var1::lemma_size_bound();
                }
                match CountSequence::parse(count, cursor) {
                    Ok(seq) => Ok(PrefixedVariation::Group22Var1(seq)),
                    Err(_) => Err(ObjectParseError::InsufficientBytes),
                }
            },
            Variation::Group22Var2 => {
                proof {
                    Group22Var2::lemma_size_bound();
                }
                match CountSequence::parse(count, cursor) {
                    Ok(seq) => Ok(PrefixedVariation::Group22Var2(seq)),
                    Err(_) => Err(ObjectParseError::InsufficientBytes),
                }
            },
            Variation::Group22Var5 => {
                proof {
                    Group22Var5::lemma_size_bound();
                }
                match CountSequence::parse(count, cursor) {
                    Ok(seq) => Ok(PrefixedVariation::Group22Var5(seq)),
                    Err(_) => Err(ObjectParseError::InsufficientBytes),
                }
            },
            Variation::Group22Var6 => {
                proof {
                    Group22Var6::lemma_size_bound();
                }
                match CountSequence::parse(count, cursor) {
                    Ok(seq) => Ok(PrefixedVariation::Group22Var6(seq)),
                    Err(_) => Err(ObjectParseError::InsufficientBytes),
                }
            },
            Variation::Group23Var1 => {
                proof {
                    Group23Var1::lemma_size_bound();
                }
                match CountSequence::parse(count, cursor) {
                    Ok(seq) => Ok(PrefixedVariation::Group23Var1(seq)),
                    Err(_) => Err(ObjectParseError::InsufficientBytes),
                }
            },
            Variation::Group23Var2 => {
                proof {
                    Group23Var2::lemma_size_bound();
                }
                match CountSequence::parse(count, cursor) {
                    Ok(seq) => Ok(PrefixedVariation::Group23Var2(seq)),
                    Err(_) => Err(ObjectParseError::InsufficientBytes),
                }
            },
            Variation::Group23Var5 => {
                proof {
                    Group23Var5::lemma_size_bound();
                }
                match CountSequence::parse(count, cursor) {
                    Ok(seq) => Ok(PrefixedVariation::Group23Var5(seq)),
                    Err(_) => Err(ObjectParseError::InsufficientBytes),
                }
            },
            Variation::Group23Var6 => {
                proof {
                    Group23Var6::lemma_size_bound();
                }
                match CountSequence::parse(count, cursor) {
                    Ok(seq) => Ok(PrefixedVariation::Group23Var6(seq)),
                    Err(_) => Err(ObjectParseError::InsufficientBytes),
                }
            },
            Variation::Group32Var1 => {
                proof {
                    Group32Var1::lemma_size_bound();
                }
                match CountSequence::parse(count, cursor) {
                    Ok(seq) => Ok(PrefixedVariation::Group32Var1(seq)),
                    Err(_) => Err(ObjectParseError::InsufficientBytes),
                }
            },
            Variation::Group32Var2 => {
                proof {
                    Group32Var2::lemma_size_bound();
                }
                match CountSequence::parse(count, cursor) {
                    Ok(seq) => Ok(PrefixedVariation::Group32Var2(seq)),
                    Err(_) => Err(ObjectParseError::InsufficientBytes),
                }
            },
            Variation::Group32Var3 => {
                proof {
                    Group32Var3::lemma_size_bound();
                }
                match CountSequence::parse(count, cursor) {
                    Ok(seq) => Ok(PrefixedVariation::Group32Var3(seq)),
                    Err(_) => Err(ObjectParseError::InsufficientBytes),
                }
            },
            Variation::Group32Var4 => {
                proof {
                    Group32Var4::lemma_size_bound();
                }
                match CountSequence::parse(count, cursor) {
                    Ok(seq) => Ok(PrefixedVariation::Group32Var4(seq)),
                    Err(_) => Err(ObjectParseError::InsufficientBytes),
                }
            },
            Variation::Group32Var5 => {
                proof {
                    Group32Var5::lemma_size_bound();
                }
                match CountSequence::parse(count, cursor) {
                    Ok(seq) => Ok(PrefixedVariation::Group32Var5(seq)),
                    Err(_) => Err(ObjectParseError::InsufficientBytes),
                }
            },
            Variation::Group32Var6 => {
                proof {
                    Group32Var6::lemma_size_bound();
                }
                match CountSequence::parse(count, cursor) {
                    Ok(seq) => Ok(PrefixedVariation::Group32Var6(seq)),
                    Err(_) => Err(ObjectParseError::InsufficientBytes),
                }
            },
            Variation::Group32Var7 => {
                proof {
                    Group32Var7::lemma_size_bound();
                }
                match CountSequence::parse(count, cursor) {
                    Ok(seq) => Ok(PrefixedVariation::Group32Var7(seq)),
                    Err(_) => Err(ObjectParseError::InsufficientBytes),
                }
            },
            Variation::Group32Var8 => {
                proof {
                    Group32Var8::lemma_size_bound();
                }
                match CountSequence::parse(count, cursor) {
                    Ok(seq) => Ok(PrefixedVariation::Group32Var8(seq)),
                    Err(_) => Err(ObjectParseError::InsufficientBytes),
                }
            },
            Variation::Group41Var1 => {
                proof {
                    Group41Var1::lemma_size_bound();
                }
                match CountSequence::parse(count, cursor) {
                    Ok(seq) => Ok(PrefixedVariation::Group41Var1(seq)),
                    Err(_) => Err(ObjectParseError::InsufficientBytes),
                }
            },
            Variation::Group41Var2 => {
                proof {
                    Group41Var2::lemma_size_bound();
                }
                match CountSequence::parse(count, cursor) {
                    Ok(seq) => Ok(PrefixedVariation::Group41Var2(seq)),
                    Err(_) => Err(ObjectParseError::InsufficientBytes),
                }
            },
            Variation::Group41Var3 => {
                proof {
                    Group41Var3::lemma_size_bound();
                }
                match CountSequence::parse(count, cursor) {
                    Ok(seq) => Ok(PrefixedVariation::Group41Var3(seq)),
                    Err(_) => Err(ObjectParseError::InsufficientBytes),
                }
            },
            Variation::Group41Var4 => {
                proof {
                    Group41Var4::lemma_size_bound();
                }
                match CountSequence::parse(count, cursor) {
                    Ok(seq) => Ok(PrefixedVariation::Group41Var4(seq)),
                    Err(_) => Err(ObjectParseError::InsufficientBytes),
                }
            },
            Variation::Group42Var1 => {
                proof {
                    Group42Var1::lemma_size_bound();
                }
                match CountSequence::parse(count, cursor) {
                    Ok(seq) => Ok(PrefixedVariation::Group42Var1(seq)),
                    Err(_) => Err(ObjectParseError::InsufficientBytes),
                }
            },
            Variation::Group42Var2 => {
                proof {
                    Group42Var2::lemma_size_bound();
                }
                match CountSequence::parse(count, cursor) {
                    Ok(seq) => Ok(PrefixedVariation::Group42Var2(seq)),
                    Err(_) => Err(ObjectParseError::InsufficientBytes),
                }
            },
            Variation::Group42Var3 => {
                proof {
                    Group42Var3::lemma_size_bound();
                }
                match CountSequence::parse(count, cursor) {
                    Ok(seq) => Ok(PrefixedVariation::Group42Var3(seq)),
                    Err(_) => Err(ObjectParseError::InsufficientBytes),
                }
            },
            Variation::Group42Var4 => {
                proof {
                    Group42Var4::lemma_size_bound();
                }
                match CountSequence::parse(count, cursor) {
                    Ok(seq) => Ok(PrefixedVariation::Group42Var4(seq)),
                    Err(_) => Err(ObjectParseError::InsufficientBytes),
                }
            },
            Variation::Group42Var5 => {
                proof {
                    Group42Var5::lemma_size_bound();
                }
                match CountSequence::parse(count, cursor) {
                    Ok(seq) => Ok(PrefixedVariation::Group42Var5(seq)),
                    Err(_) => Err(ObjectParseError::InsufficientBytes),
                }
            },
            Variation::Group42Var6 => {
                proof {
                    Group42Var6::lemma_size_bound();
                }
                match CountSequence::parse(count, cursor) {
                    Ok(seq) => Ok(PrefixedVariation::Group42Var6(seq)),
                    Err(_) => Err(ObjectParseError::InsufficientBytes),
                }
            },
            Variation::Group42Var7 => {
                proof {
                    Group42Var7::lemma_size_bound();
                }
                match CountSequence::parse(count, cursor) {
                    Ok(seq) => Ok(PrefixedVariation::Group42Var7(seq)),
                    Err(_) => Err(ObjectParseError::InsufficientBytes),
                }
            },
            Variation::Group42Var8 => {
                proof {
                    Group42Var8::lemma_size_bound();
                }
                match CountSequence::parse(count, cursor) {
                    Ok(seq) => Ok(PrefixedVariation::Group42Var8(seq)),
                    Err(_) => Err(ObjectParseError::InsufficientBytes),
                }
            },
            Variation::Group43Var1 => {
                proof {
                    Group43Var1::lemma_size_bound();
                }
                match CountSequence::parse(count, cursor) {
                    Ok(seq) => Ok(PrefixedVariation::Group43Var1(seq)),
                    Err(_) => Err(ObjectParseError::InsufficientBytes),
                }
            },
            Variation::Group43Var2 => {
                proof {
                    Group43Var2::lemma_size_bound();
                }
                match CountSequence::parse(count, cursor) {
                    Ok(seq) => Ok(PrefixedVariation::Group43Var2(seq)),
                    Err(_) => Err(ObjectParseError::InsufficientBytes),
                }
            },
            Variation::Group43Var3 => {
                proof {
                    Group43Var3::lemma_size_bound();
                }
                match CountSequence::parse(count, cursor) {
                    Ok(seq) => Ok(PrefixedVariation::Group43Var3(seq)),
                    Err(_) => Err(ObjectParseError::InsufficientBytes),
                }
            },
            Variation::Group43Var4 => {
                proof {
                    Group43Var4::lemma_size_bound();
                }
                match CountSequence::parse(count, cursor) {
                    Ok(seq) => Ok(PrefixedVariation::Group43Var4(seq)),
                    Err(_) => Err(ObjectParseError::InsufficientBytes),
                }
            },
            Variation::Group43Var5 => {
                proof {
                    Group43Var5::lemma_size_bound();
                }
                match CountSequence::parse(count, cursor) {
                    Ok(seq) => Ok(PrefixedVariation::Group43Var5(seq)),
                    Err(_) => Err(ObjectParseError::InsufficientBytes),
                }
            },
            Variation::Group43Var6 => {
                proof {
                    Group43Var6::lemma_size_bound();
                }
                match CountSequence::parse(count, cursor) {
                    Ok(seq) => Ok(PrefixedVariation::Group43Var6(seq)),
                    Err(_) => Err(ObjectParseError::InsufficientBytes),
                }
            },
            Variation::Group43Var7 => {
                proof {
                    Group43Var7::lemma_size_bound();
                }
                match CountSequence::parse(count, cursor) {
                    Ok(seq) => Ok(PrefixedVariation::Group43Var7(seq)),
                    Err(_) => Err(ObjectParseError::InsufficientBytes),
                }
            },
            Variation::Group43Var8 => {
                proof {
                    Group43Var8::lemma_size_bound();
                }
                match CountSequence::parse(count, cursor) {
                    Ok(seq) => Ok(PrefixedVariation::Group43Var8(seq)),
                    Err(_) => Err(ObjectParseError::InsufficientBytes),
                }
            },
            Variation::Group111(0) => Err(ObjectParseError::ZeroLengthOctetData),
            Variation::Group111(x) => match PrefixedBytesSequence::parse(x, count, cursor) {
                Ok(seq) => Ok(PrefixedVariation::Group111VarX(x, seq)),
                Err(e) => Err(e),
            },
            _ => Err(ObjectParseError::InvalidQualifierForVariation(v, I::count_and_prefix_qualifier())),
        }
    }
}

} // verus!
