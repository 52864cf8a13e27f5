use crate::app::parse::traits::{FixedSize, FixedSizeVariation};
use crate::util::cursor::{
    le_u16, le_u48, lemma_u16_roundtrip, lemma_u48_bytes_roundtrip, lemma_u48_roundtrip, spliced,
    u16_le_bytes, u48_le_bytes, ReadCursor, ReadError, WriteCursor, WriteError,
};
use vstd::prelude::*;

/// the group and variation pairs of the protocol
pub mod gv;

verus! {

/// Binary Input Event - Without Time
#[derive(Copy, Clone, Debug, PartialEq, Eq, Structural)]
pub struct Group2Var1 {
    pub flags: u8,
}

/// Binary Input Event - With Absolute Time
#[derive(Copy, Clone, Debug, PartialEq, Eq, Structural)]
pub struct Group2Var2 {
    pub flags: u8,
    pub time: u64,
}

/// Binary Input Event - With Relative Time
#[derive(Copy, Clone, Debug, PartialEq, Eq, Structural)]
pub struct Group2Var3 {
    pub flags: u8,
    pub time: u16,
}

impl FixedSize for Group2Var1 {
    open spec fn spec_size() -> nat {
        1
    }

    proof fn lemma_size_positive() {
    }

    open spec fn decode(s: Seq<u8>) -> Group2Var1 {
        Group2Var1 {
            flags: s[0],
        }
    }

    open spec fn encode(&self) -> Seq<u8> {
        seq![self.flags]
    }

    open spec fn canonical(&self) -> bool {
        true
    }

    fn size() -> (n: u8) {
        1
    }

    fn read(cursor: &mut ReadCursor) -> (res: Result<Self, ReadError>) {
        if cursor.len() < 1 {
            return Err(ReadError);
        }
        let ghost s = cursor@;
        let flags = cursor.read_u8()?;
        proof {
            assert(cursor@ =~= s.skip(1));
        }
        Ok(Group2Var1 { flags })
    }

    fn write(&self, cursor: &mut WriteCursor) -> (res: Result<(), WriteError>) {
        if cursor.remaining() < 1 {
            return Err(WriteError);
        }
        let ghost c0 = *cursor;
        let _ = cursor.write_u8(self.flags);
        proof {
            assert(cursor.buffer() =~= spliced(c0.buffer(), c0.position() as int, self.encode()));
        }
        Ok(())
    }

    proof fn lemma_encode_len(&self) {
    }

    proof fn lemma_decode_prefix(s: Seq<u8>, t: Seq<u8>) {
        assert forall|i: int| 0 <= i < 1 implies s[i] == t[i] by {
            assert(s.take(1)[i] == t.take(1)[i]);
        }
    }

    proof fn lemma_decode_encode(&self) {
        let e = self.encode();
    }
}

impl FixedSizeVariation for Group2Var1 {
    proof fn lemma_size_bound() {
    }
}

impl FixedSize for Group2Var2 {
    open spec fn spec_size() -> nat {
        7
    }

    proof fn lemma_size_positive() {
    }

    open spec fn decode(s: Seq<u8>) -> Group2Var2 {
        Group2Var2 {
            flags: s[0],
            time: le_u48(s.skip(1)),
        }
    }

    open spec fn encode(&self) -> Seq<u8> {
        seq![self.flags] + u48_le_bytes(self.time)
    }

    open spec fn canonical(&self) -> bool {
        self.time < 0x1_0000_0000_0000
    }

    fn size() -> (n: u8) {
        7
    }

    fn read(cursor: &mut ReadCursor) -> (res: Result<Self, ReadError>) {
        if cursor.len() < 7 {
            return Err(ReadError);
        }
        let ghost s = cursor@;
        let flags = cursor.read_u8()?;
        proof {
            assert(cursor@ =~= s.skip(1));
        }
        let time = cursor.read_u48_le()?;
        proof {
            assert(cursor@ =~= s.skip(7));
        }
        Ok(Group2Var2 { flags, time })
    }

    fn write(&self, cursor: &mut WriteCursor) -> (res: Result<(), WriteError>) {
        if cursor.remaining() < 7 {
            return Err(WriteError);
        }
        let ghost c0 = *cursor;
        let _ = cursor.write_u8(self.flags);
        let _ = cursor.write_u48_le(self.time);
        proof {
            assert(cursor.buffer() =~= spliced(c0.buffer(), c0.position() as int, self.encode()));
        }
        Ok(())
    }

    proof fn lemma_encode_len(&self) {
    }

    proof fn lemma_decode_prefix(s: Seq<u8>, t: Seq<u8>) {
        assert forall|i: int| 0 <= i < 7 implies s[i] == t[i] by {
            assert(s.take(7)[i] == t.take(7)[i]);
        }
        assert(s.skip(1).take(6) =~= t.skip(1).take(6));
        lemma_u48_bytes_roundtrip(s.skip(1));
    }

    proof fn lemma_decode_encode(&self) {
        lemma_u48_roundtrip(self.time);
        let e = self.encode();
        assert(e.skip(1).take(6) =~= u48_le_bytes(self.time));
    }
}

impl FixedSizeVariation for Group2Var2 {
    proof fn lemma_size_bound() {
    }
}

impl FixedSize for Group2Var3 {
    open spec fn spec_size() -> nat {
        3
    }

    proof fn lemma_size_positive() {
    }

    open spec fn decode(s: Seq<u8>) -> Group2Var3 {
        Group2Var3 {
            flags: s[0],
            time: le_u16(s.skip(1)),
        }
    }

    open spec fn encode(&self) -> Seq<u8> {
        seq![self.flags] + u16_le_bytes(self.time)
    }

    open spec fn canonical(&self) -> bool {
        true
    }

    fn size() -> (n: u8) {
        3
    }

    fn read(cursor: &mut ReadCursor) -> (res: Result<Self, ReadError>) {
        if cursor.len() < 3 {
            return Err(ReadError);
        }
        let ghost s = cursor@;
        let flags = cursor.read_u8()?;
        proof {
            assert(cursor@ =~= s.skip(1));
        }
        let time = cursor.read_u16_le()?;
        proof {
            assert(cursor@ =~= s.skip(3));
        }
        Ok(Group2Var3 { flags, time })
    }

    fn write(&self, cursor: &mut WriteCursor) -> (res: Result<(), WriteError>) {
        if cursor.remaining() < 3 {
            return Err(WriteError);
        }
        let ghost c0 = *cursor;
        let _ = cursor.write_u8(self.flags);
        let _ = cursor.write_u16_le(self.time);
        proof {
            assert(cursor.buffer() =~= spliced(c0.buffer(), c0.position() as int, self.encode()));
        }
        Ok(())
    }

    proof fn lemma_encode_len(&self) {
    }

    proof fn lemma_decode_prefix(s: Seq<u8>, t: Seq<u8>) {
        assert forall|i: int| 0 <= i < 3 implies s[i] == t[i] by {
            assert(s.take(3)[i] == t.take(3)[i]);
        }
        assert(s.skip(1).take(2) =~= t.skip(1).take(2));
    }

    proof fn lemma_decode_encode(&self) {
        lemma_u16_roundtrip(self.time);
        let e = self.encode();
        assert(e.skip(1).take(2) =~= u16_le_bytes(self.time));
    }
}

impl FixedSizeVariation for Group2Var3 {
    proof fn lemma_size_bound() {
    }
}

} // verus!
