use crate::app::gen::enums::QualifierCode;
use crate::util::cursor::{le_u16, lemma_u16_roundtrip, u16_le_bytes, ReadCursor, ReadError, WriteCursor, WriteError};
use vstd::prelude::*;

verus! {

/// An object of a fixed number of bytes, read from and written to cursors.
/// `decode` gives the object that the first `spec_size()` bytes of a sequence
/// hold, `encode` the bytes an object is written as.
pub trait FixedSize: Sized {
    spec fn spec_size() -> nat;

    spec fn decode(s: Seq<u8>) -> Self;

    spec fn encode(&self) -> Seq<u8>;

    /// the objects that decoding can produce
    spec fn canonical(&self) -> bool;

    /// every object takes at least one byte
    proof fn lemma_size_positive()
        ensures
            0 < Self::spec_size(),
    ;

    fn size() -> (n: u8)
        ensures
            n == Self::spec_size(),
    ;

    fn read(cursor: &mut ReadCursor) -> (res: Result<Self, ReadError>)
        ensures
            old(cursor)@.len() >= Self::spec_size() ==> res == Ok::<Self, ReadError>(
                Self::decode(old(cursor)@),
            ) && final(cursor)@ == old(cursor)@.skip(Self::spec_size() as int),
            old(cursor)@.len() < Self::spec_size() ==> res is Err && final(cursor)@ == old(
                cursor,
            )@,
    ;

    fn write(&self, cursor: &mut WriteCursor) -> (res: Result<(), WriteError>)
        ensures
            WriteCursor::write_result(old(cursor), final(cursor), self.encode(), res),
    ;

    proof fn lemma_encode_len(&self)
        ensures
            self.encode().len() == Self::spec_size(),
    ;

    /// decoding only looks at the first `spec_size()` bytes, and produces
    /// canonical objects
    proof fn lemma_decode_prefix(s: Seq<u8>, t: Seq<u8>)
        requires
            s.len() >= Self::spec_size(),
            t.len() >= Self::spec_size(),
            s.take(Self::spec_size() as int) == t.take(Self::spec_size() as int),
        ensures
            Self::decode(s) == Self::decode(t),
            Self::decode(s).canonical(),
    ;

    /// Reading what was written gives the object back, for every object that
    /// a read can produce.
    proof fn lemma_decode_encode(&self)
        requires
            self.canonical(),
        ensures
            Self::decode(self.encode()) == *self,
    ;
}

/// A fixed-size object of a protocol variation; none takes more than 64 bytes
pub trait FixedSizeVariation: FixedSize {
    proof fn lemma_size_bound()
        ensures
            0 < Self::spec_size() <= 64,
    ;
}

/// An index type of a count-and-prefix header
pub trait Index: FixedSize {
    /// index types take one or two bytes
    proof fn lemma_index_size()
        ensures
            0 < Self::spec_size() <= 2,
    ;

    spec fn spec_widen(&self) -> u16;

    /// the qualifier of count-and-prefix headers with this index type
    spec fn spec_count_and_prefix_qualifier() -> QualifierCode;

    fn widen_to_u16(self) -> (x: u16)
        ensures
            x == self.spec_widen(),
    ;

    fn count_and_prefix_qualifier() -> (q: QualifierCode)
        ensures
            q == Self::spec_count_and_prefix_qualifier(),
    ;
}

impl FixedSize for u8 {
    open spec fn spec_size() -> nat {
        1
    }

    proof fn lemma_size_positive() {
    }

    open spec fn decode(s: Seq<u8>) -> u8 {
        s[0]
    }

    open spec fn encode(&self) -> Seq<u8> {
        seq![*self]
    }

    open spec fn canonical(&self) -> bool {
        true
    }

    fn size() -> (n: u8) {
        1
    }

    fn read(cursor: &mut ReadCursor) -> (res: Result<Self, ReadError>) {
        cursor.read_u8()
    }

    fn write(&self, cursor: &mut WriteCursor) -> (res: Result<(), WriteError>) {
        cursor.write_u8(*self)
    }

    proof fn lemma_encode_len(&self) {
    }

    proof fn lemma_decode_prefix(s: Seq<u8>, t: Seq<u8>) {
        assert(s[0] == s.take(1)[0]);
        assert(t[0] == t.take(1)[0]);
    }

    proof fn lemma_decode_encode(&self) {
    }
}

impl FixedSize for u16 {
    open spec fn spec_size() -> nat {
        2
    }

    proof fn lemma_size_positive() {
    }

    open spec fn decode(s: Seq<u8>) -> u16 {
        le_u16(s)
    }

    open spec fn encode(&self) -> Seq<u8> {
        u16_le_bytes(*self)
    }

    open spec fn canonical(&self) -> bool {
        true
    }

    fn size() -> (n: u8) {
        2
    }

    fn read(cursor: &mut ReadCursor) -> (res: Result<Self, ReadError>) {
        cursor.read_u16_le()
    }

    fn write(&self, cursor: &mut WriteCursor) -> (res: Result<(), WriteError>) {
        cursor.write_u16_le(*self)
    }

    proof fn lemma_encode_len(&self) {
    }

    proof fn lemma_decode_prefix(s: Seq<u8>, t: Seq<u8>) {
        assert(s[0] == s.take(2)[0] && s[1] == s.take(2)[1]);
        assert(t[0] == t.take(2)[0] && t[1] == t.take(2)[1]);
    }

    proof fn lemma_decode_encode(&self) {
        lemma_u16_roundtrip(*self);
    }
}

impl Index for u8 {
    proof fn lemma_index_size() {
    }

    open spec fn spec_widen(&self) -> u16 {
        *self as u16
    }

    open spec fn spec_count_and_prefix_qualifier() -> QualifierCode {
        QualifierCode::CountAndPrefix8
    }

    fn widen_to_u16(self) -> (x: u16) {
        self as u16
    }

    fn count_and_prefix_qualifier() -> (q: QualifierCode) {
        QualifierCode::CountAndPrefix8
    }
}

impl Index for u16 {
    proof fn lemma_index_size() {
    }

    open spec fn spec_widen(&self) -> u16 {
        *self
    }

    open spec fn spec_count_and_prefix_qualifier() -> QualifierCode {
        QualifierCode::CountAndPrefix16
    }

    fn widen_to_u16(self) -> (x: u16) {
        self
    }

    fn count_and_prefix_qualifier() -> (q: QualifierCode) {
        QualifierCode::CountAndPrefix16
    }
}

} // verus!
