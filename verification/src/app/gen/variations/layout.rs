use crate::app::gen::enums::CommandStatus;
use crate::app::gen::variations::fixed::{
    Group2Var1, Group2Var2, Group2Var3, Group52Var2, Group52Var1, Group51Var2, Group51Var1,
    Group50Var4, Group50Var3, Group50Var1, Group43Var8, Group43Var7, Group43Var6, Group43Var5,
    Group43Var4, Group43Var3, Group43Var2, Group43Var1, Group42Var8, Group42Var7, Group42Var6,
    Group42Var5, Group42Var4, Group42Var3, Group42Var2, Group42Var1, Group41Var4, Group41Var3,
    Group41Var2, Group41Var1, Group40Var4, Group40Var3, Group40Var2, Group40Var1, Group32Var8,
    Group32Var7, Group32Var6, Group32Var5, Group32Var4, Group32Var3, Group32Var2, Group32Var1,
    Group30Var6, Group30Var5, Group30Var4, Group30Var3, Group30Var2, Group30Var1, Group23Var6,
    Group23Var5, Group23Var2, Group23Var1, Group22Var6, Group22Var5, Group22Var2, Group22Var1,
    Group21Var10, Group21Var9, Group21Var6, Group21Var5, Group21Var2, Group21Var1, Group20Var6,
    Group20Var5, Group20Var2, Group20Var1, Group13Var2, Group13Var1, Group12Var1, Group11Var2,
    Group11Var1, Group10Var2, Group4Var3, Group4Var2, Group4Var1, Group3Var2, Group1Var2,
};
use crate::app::parse::traits::FixedSize;
use crate::app::types::ControlCode;
use crate::util::cursor::{
    i16_to_u16, i32_to_u32, le_u16, le_u32, le_u48, le_u64, u16_le_bytes, u16_to_i16, u32_le_bytes,
    u32_to_i32, u48_le_bytes, u64_le_bytes,
};
use vstd::prelude::*;

verus! {

impl Group52Var2 {
    /// The wire layout, 2 bytes: bytes 0 to 1: `time`, a little-endian 16-bit value.
    pub proof fn lemma_wire_layout(x: Self, s: Seq<u8>)
        requires
            s.len() >= 2,
        ensures
            x.encode().len() == 2,
            x.encode().subrange(0, 2) == u16_le_bytes(x.time),
            Group52Var2::decode(s).time == le_u16(s.subrange(0, 2)),
    {
        assert(x.encode().subrange(0, 2) =~= u16_le_bytes(x.time));
    }
}

impl Group52Var1 {
    /// The wire layout, 2 bytes: bytes 0 to 1: `time`, a little-endian 16-bit value.
    pub proof fn lemma_wire_layout(x: Self, s: Seq<u8>)
        requires
            s.len() >= 2,
        ensures
            x.encode().len() == 2,
            x.encode().subrange(0, 2) == u16_le_bytes(x.time),
            Group52Var1::decode(s).time == le_u16(s.subrange(0, 2)),
    {
        assert(x.encode().subrange(0, 2) =~= u16_le_bytes(x.time));
    }
}

impl Group51Var2 {
    /// The wire layout, 6 bytes: bytes 0 to 5: `time`, a little-endian 48-bit timestamp.
    pub proof fn lemma_wire_layout(x: Self, s: Seq<u8>)
        requires
            s.len() >= 6,
        ensures
            x.encode().len() == 6,
            x.encode().subrange(0, 6) == u48_le_bytes(x.time.value),
            Group51Var2::decode(s).time.value == le_u48(s.subrange(0, 6)),
    {
        assert(x.encode().subrange(0, 6) =~= u48_le_bytes(x.time.value));
    }
}

impl Group51Var1 {
    /// The wire layout, 6 bytes: bytes 0 to 5: `time`, a little-endian 48-bit timestamp.
    pub proof fn lemma_wire_layout(x: Self, s: Seq<u8>)
        requires
            s.len() >= 6,
        ensures
            x.encode().len() == 6,
            x.encode().subrange(0, 6) == u48_le_bytes(x.time.value),
            Group51Var1::decode(s).time.value == le_u48(s.subrange(0, 6)),
    {
        assert(x.encode().subrange(0, 6) =~= u48_le_bytes(x.time.value));
    }
}

impl Group50Var4 {
    /// The wire layout, 11 bytes: bytes 0 to 5: `time`, a little-endian 48-bit timestamp; bytes
    /// 6 to 9: `interval`, a little-endian 32-bit value; byte 10: `units`, a byte.
    pub proof fn lemma_wire_layout(x: Self, s: Seq<u8>)
        requires
            s.len() >= 11,
        ensures
            x.encode().len() == 11,
            x.encode().subrange(0, 6) == u48_le_bytes(x.time.value),
            x.encode().subrange(6, 10) == u32_le_bytes(x.interval),
            x.encode()[10] == x.units,
            Group50Var4::decode(s).time.value == le_u48(s.subrange(0, 6)),
            Group50Var4::decode(s).interval == le_u32(s.subrange(6, 10)),
            Group50Var4::decode(s).units == s[10],
    {
        assert(x.encode().subrange(0, 6) =~= u48_le_bytes(x.time.value));
        assert(x.encode().subrange(6, 10) =~= u32_le_bytes(x.interval));
    }
}

impl Group50Var3 {
    /// The wire layout, 6 bytes: bytes 0 to 5: `time`, a little-endian 48-bit timestamp.
    pub proof fn lemma_wire_layout(x: Self, s: Seq<u8>)
        requires
            s.len() >= 6,
        ensures
            x.encode().len() == 6,
            x.encode().subrange(0, 6) == u48_le_bytes(x.time.value),
            Group50Var3::decode(s).time.value == le_u48(s.subrange(0, 6)),
    {
        assert(x.encode().subrange(0, 6) =~= u48_le_bytes(x.time.value));
    }
}

impl Group50Var1 {
    /// The wire layout, 6 bytes: bytes 0 to 5: `time`, a little-endian 48-bit timestamp.
    pub proof fn lemma_wire_layout(x: Self, s: Seq<u8>)
        requires
            s.len() >= 6,
        ensures
            x.encode().len() == 6,
            x.encode().subrange(0, 6) == u48_le_bytes(x.time.value),
            Group50Var1::decode(s).time.value == le_u48(s.subrange(0, 6)),
    {
        assert(x.encode().subrange(0, 6) =~= u48_le_bytes(x.time.value));
    }
}

impl Group43Var8 {
    /// The wire layout, 15 bytes: byte 0: `status`, the code of a command status; bytes 1 to 8:
    /// `value`, the little-endian bit pattern of a 64-bit float; bytes 9 to 14: `time`, a
    /// little-endian 48-bit timestamp.
    pub proof fn lemma_wire_layout(x: Self, s: Seq<u8>)
        requires
            s.len() >= 15,
        ensures
            x.encode().len() == 15,
            x.encode()[0] == x.status.code(),
            x.encode().subrange(1, 9) == u64_le_bytes(x.value),
            x.encode().subrange(9, 15) == u48_le_bytes(x.time.value),
            Group43Var8::decode(s).status == CommandStatus::from_code_spec(s[0]),
            Group43Var8::decode(s).value == le_u64(s.subrange(1, 9)),
            Group43Var8::decode(s).time.value == le_u48(s.subrange(9, 15)),
    {
        assert(x.encode().subrange(1, 9) =~= u64_le_bytes(x.value));
        assert(x.encode().subrange(9, 15) =~= u48_le_bytes(x.time.value));
    }
}

impl Group43Var7 {
    /// The wire layout, 11 bytes: byte 0: `status`, the code of a command status; bytes 1 to 4:
    /// `value`, the little-endian bit pattern of a 32-bit float; bytes 5 to 10: `time`, a
    /// little-endian 48-bit timestamp.
    pub proof fn lemma_wire_layout(x: Self, s: Seq<u8>)
        requires
            s.len() >= 11,
        ensures
            x.encode().len() == 11,
            x.encode()[0] == x.status.code(),
            x.encode().subrange(1, 5) == u32_le_bytes(x.value),
            x.encode().subrange(5, 11) == u48_le_bytes(x.time.value),
            Group43Var7::decode(s).status == CommandStatus::from_code_spec(s[0]),
            Group43Var7::decode(s).value == le_u32(s.subrange(1, 5)),
            Group43Var7::decode(s).time.value == le_u48(s.subrange(5, 11)),
    {
        assert(x.encode().subrange(1, 5) =~= u32_le_bytes(x.value));
        assert(x.encode().subrange(5, 11) =~= u48_le_bytes(x.time.value));
    }
}

impl Group43Var6 {
    /// The wire layout, 9 bytes: byte 0: `status`, the code of a command status; bytes 1 to 8:
    /// `value`, the little-endian bit pattern of a 64-bit float.
    pub proof fn lemma_wire_layout(x: Self, s: Seq<u8>)
        requires
            s.len() >= 9,
        ensures
            x.encode().len() == 9,
            x.encode()[0] == x.status.code(),
            x.encode().subrange(1, 9) == u64_le_bytes(x.value),
            Group43Var6::decode(s).status == CommandStatus::from_code_spec(s[0]),
            Group43Var6::decode(s).value == le_u64(s.subrange(1, 9)),
    {
        assert(x.encode().subrange(1, 9) =~= u64_le_bytes(x.value));
    }
}

impl Group43Var5 {
    /// The wire layout, 5 bytes: byte 0: `status`, the code of a command status; bytes 1 to 4:
    /// `value`, the little-endian bit pattern of a 32-bit float.
    pub proof fn lemma_wire_layout(x: Self, s: Seq<u8>)
        requires
            s.len() >= 5,
        ensures
            x.encode().len() == 5,
            x.encode()[0] == x.status.code(),
            x.encode().subrange(1, 5) == u32_le_bytes(x.value),
            Group43Var5::decode(s).status == CommandStatus::from_code_spec(s[0]),
            Group43Var5::decode(s).value == le_u32(s.subrange(1, 5)),
    {
        assert(x.encode().subrange(1, 5) =~= u32_le_bytes(x.value));
    }
}

impl Group43Var4 {
    /// The wire layout, 9 bytes: byte 0: `status`, the code of a command status; bytes 1 to 2:
    /// `value`, a little-endian 16-bit two's complement value; bytes 3 to 8: `time`, a
    /// little-endian 48-bit timestamp.
    pub proof fn lemma_wire_layout(x: Self, s: Seq<u8>)
        requires
            s.len() >= 9,
        ensures
            x.encode().len() == 9,
            x.encode()[0] == x.status.code(),
            x.encode().subrange(1, 3) == u16_le_bytes(i16_to_u16(x.value)),
            x.encode().subrange(3, 9) == u48_le_bytes(x.time.value),
            Group43Var4::decode(s).status == CommandStatus::from_code_spec(s[0]),
            Group43Var4::decode(s).value == u16_to_i16(le_u16(s.subrange(1, 3))),
            Group43Var4::decode(s).time.value == le_u48(s.subrange(3, 9)),
    {
        assert(x.encode().subrange(1, 3) =~= u16_le_bytes(i16_to_u16(x.value)));
        assert(x.encode().subrange(3, 9) =~= u48_le_bytes(x.time.value));
    }
}

impl Group43Var3 {
    /// The wire layout, 11 bytes: byte 0: `status`, the code of a command status; bytes 1 to 4:
    /// `value`, a little-endian 32-bit two's complement value; bytes 5 to 10: `time`, a
    /// little-endian 48-bit timestamp.
    pub proof fn lemma_wire_layout(x: Self, s: Seq<u8>)
        requires
            s.len() >= 11,
        ensures
            x.encode().len() == 11,
            x.encode()[0] == x.status.code(),
            x.encode().subrange(1, 5) == u32_le_bytes(i32_to_u32(x.value)),
            x.encode().subrange(5, 11) == u48_le_bytes(x.time.value),
            Group43Var3::decode(s).status == CommandStatus::from_code_spec(s[0]),
            Group43Var3::decode(s).value == u32_to_i32(le_u32(s.subrange(1, 5))),
            Group43Var3::decode(s).time.value == le_u48(s.subrange(5, 11)),
    {
        assert(x.encode().subrange(1, 5) =~= u32_le_bytes(i32_to_u32(x.value)));
        assert(x.encode().subrange(5, 11) =~= u48_le_bytes(x.time.value));
    }
}

impl Group43Var2 {
    /// The wire layout, 3 bytes: byte 0: `status`, the code of a command status; bytes 1 to 2:
    /// `value`, a little-endian 16-bit two's complement value.
    pub proof fn lemma_wire_layout(x: Self, s: Seq<u8>)
        requires
            s.len() >= 3,
        ensures
            x.encode().len() == 3,
            x.encode()[0] == x.status.code(),
            x.encode().subrange(1, 3) == u16_le_bytes(i16_to_u16(x.value)),
            Group43Var2::decode(s).status == CommandStatus::from_code_spec(s[0]),
            Group43Var2::decode(s).value == u16_to_i16(le_u16(s.subrange(1, 3))),
    {
        assert(x.encode().subrange(1, 3) =~= u16_le_bytes(i16_to_u16(x.value)));
    }
}

impl Group43Var1 {
    /// The wire layout, 5 bytes: byte 0: `status`, the code of a command status; bytes 1 to 4:
    /// `value`, a little-endian 32-bit two's complement value.
    pub proof fn lemma_wire_layout(x: Self, s: Seq<u8>)
        requires
            s.len() >= 5,
        ensures
            x.encode().len() == 5,
            x.encode()[0] == x.status.code(),
            x.encode().subrange(1, 5) == u32_le_bytes(i32_to_u32(x.value)),
            Group43Var1::decode(s).status == CommandStatus::from_code_spec(s[0]),
            Group43Var1::decode(s).value == u32_to_i32(le_u32(s.subrange(1, 5))),
    {
        assert(x.encode().subrange(1, 5) =~= u32_le_bytes(i32_to_u32(x.value)));
    }
}

impl Group42Var8 {
    /// The wire layout, 15 bytes: byte 0: `flags`, a byte; bytes 1 to 8: `value`, the
    /// little-endian bit pattern of a 64-bit float; bytes 9 to 14: `time`, a little-endian
    /// 48-bit timestamp.
    pub proof fn lemma_wire_layout(x: Self, s: Seq<u8>)
        requires
            s.len() >= 15,
        ensures
            x.encode().len() == 15,
            x.encode()[0] == x.flags,
            x.encode().subrange(1, 9) == u64_le_bytes(x.value),
            x.encode().subrange(9, 15) == u48_le_bytes(x.time.value),
            Group42Var8::decode(s).flags == s[0],
            Group42Var8::decode(s).value == le_u64(s.subrange(1, 9)),
            Group42Var8::decode(s).time.value == le_u48(s.subrange(9, 15)),
    {
        assert(x.encode().subrange(1, 9) =~= u64_le_bytes(x.value));
        assert(x.encode().subrange(9, 15) =~= u48_le_bytes(x.time.value));
    }
}

impl Group42Var7 {
    /// The wire layout, 11 bytes: byte 0: `flags`, a byte; bytes 1 to 4: `value`, the
    /// little-endian bit pattern of a 32-bit float; bytes 5 to 10: `time`, a little-endian
    /// 48-bit timestamp.
    pub proof fn lemma_wire_layout(x: Self, s: Seq<u8>)
        requires
            s.len() >= 11,
        ensures
            x.encode().len() == 11,
            x.encode()[0] == x.flags,
            x.encode().subrange(1, 5) == u32_le_bytes(x.value),
            x.encode().subrange(5, 11) == u48_le_bytes(x.time.value),
            Group42Var7::decode(s).flags == s[0],
            Group42Var7::decode(s).value == le_u32(s.subrange(1, 5)),
            Group42Var7::decode(s).time.value == le_u48(s.subrange(5, 11)),
    {
        assert(x.encode().subrange(1, 5) =~= u32_le_bytes(x.value));
        assert(x.encode().subrange(5, 11) =~= u48_le_bytes(x.time.value));
    }
}

impl Group42Var6 {
    /// The wire layout, 9 bytes: byte 0: `flags`, a byte; bytes 1 to 8: `value`, the
    /// little-endian bit pattern of a 64-bit float.
    pub proof fn lemma_wire_layout(x: Self, s: Seq<u8>)
        requires
            s.len() >= 9,
        ensures
            x.encode().len() == 9,
            x.encode()[0] == x.flags,
            x.encode().subrange(1, 9) == u64_le_bytes(x.value),
            Group42Var6::decode(s).flags == s[0],
            Group42Var6::decode(s).value == le_u64(s.subrange(1, 9)),
    {
        assert(x.encode().subrange(1, 9) =~= u64_le_bytes(x.value));
    }
}

impl Group42Var5 {
    /// The wire layout, 5 bytes: byte 0: `flags`, a byte; bytes 1 to 4: `value`, the
    /// little-endian bit pattern of a 32-bit float.
    pub proof fn lemma_wire_layout(x: Self, s: Seq<u8>)
        requires
            s.len() >= 5,
        ensures
            x.encode().len() == 5,
            x.encode()[0] == x.flags,
            x.encode().subrange(1, 5) == u32_le_bytes(x.value),
            Group42Var5::decode(s).flags == s[0],
            Group42Var5::decode(s).value == le_u32(s.subrange(1, 5)),
    {
        assert(x.encode().subrange(1, 5) =~= u32_le_bytes(x.value));
    }
}

impl Group42Var4 {
    /// The wire layout, 9 bytes: byte 0: `flags`, a byte; bytes 1 to 2: `value`, a
    /// little-endian 16-bit two's complement value; bytes 3 to 8: `time`, a little-endian
    /// 48-bit timestamp.
    pub proof fn lemma_wire_layout(x: Self, s: Seq<u8>)
        requires
            s.len() >= 9,
        ensures
            x.encode().len() == 9,
            x.encode()[0] == x.flags,
            x.encode().subrange(1, 3) == u16_le_bytes(i16_to_u16(x.value)),
            x.encode().subrange(3, 9) == u48_le_bytes(x.time.value),
            Group42Var4::decode(s).flags == s[0],
            Group42Var4::decode(s).value == u16_to_i16(le_u16(s.subrange(1, 3))),
            Group42Var4::decode(s).time.value == le_u48(s.subrange(3, 9)),
    {
        assert(x.encode().subrange(1, 3) =~= u16_le_bytes(i16_to_u16(x.value)));
        assert(x.encode().subrange(3, 9) =~= u48_le_bytes(x.time.value));
    }
}

impl Group42Var3 {
    /// The wire layout, 11 bytes: byte 0: `flags`, a byte; bytes 1 to 4: `value`, a
    /// little-endian 32-bit two's complement value; bytes 5 to 10: `time`, a little-endian
    /// 48-bit timestamp.
    pub proof fn lemma_wire_layout(x: Self, s: Seq<u8>)
        requires
            s.len() >= 11,
        ensures
            x.encode().len() == 11,
            x.encode()[0] == x.flags,
            x.encode().subrange(1, 5) == u32_le_bytes(i32_to_u32(x.value)),
            x.encode().subrange(5, 11) == u48_le_bytes(x.time.value),
            Group42Var3::decode(s).flags == s[0],
            Group42Var3::decode(s).value == u32_to_i32(le_u32(s.subrange(1, 5))),
            Group42Var3::decode(s).time.value == le_u48(s.subrange(5, 11)),
    {
        assert(x.encode().subrange(1, 5) =~= u32_le_bytes(i32_to_u32(x.value)));
        assert(x.encode().subrange(5, 11) =~= u48_le_bytes(x.time.value));
    }
}

impl Group42Var2 {
    /// The wire layout, 3 bytes: byte 0: `flags`, a byte; bytes 1 to 2: `value`, a
    /// little-endian 16-bit two's complement value.
    pub proof fn lemma_wire_layout(x: Self, s: Seq<u8>)
        requires
            s.len() >= 3,
        ensures
            x.encode().len() == 3,
            x.encode()[0] == x.flags,
            x.encode().subrange(1, 3) == u16_le_bytes(i16_to_u16(x.value)),
            Group42Var2::decode(s).flags == s[0],
            Group42Var2::decode(s).value == u16_to_i16(le_u16(s.subrange(1, 3))),
    {
        assert(x.encode().subrange(1, 3) =~= u16_le_bytes(i16_to_u16(x.value)));
    }
}

impl Group42Var1 {
    /// The wire layout, 5 bytes: byte 0: `flags`, a byte; bytes 1 to 4: `value`, a
    /// little-endian 32-bit two's complement value.
    pub proof fn lemma_wire_layout(x: Self, s: Seq<u8>)
        requires
            s.len() >= 5,
        ensures
            x.encode().len() == 5,
            x.encode()[0] == x.flags,
            x.encode().subrange(1, 5) == u32_le_bytes(i32_to_u32(x.value)),
            Group42Var1::decode(s).flags == s[0],
            Group42Var1::decode(s).value == u32_to_i32(le_u32(s.subrange(1, 5))),
    {
        assert(x.encode().subrange(1, 5) =~= u32_le_bytes(i32_to_u32(x.value)));
    }
}

impl Group41Var4 {
    /// The wire layout, 9 bytes: bytes 0 to 7: `value`, the little-endian bit pattern of a
    /// 64-bit float; byte 8: `status`, the code of a command status.
    pub proof fn lemma_wire_layout(x: Self, s: Seq<u8>)
        requires
            s.len() >= 9,
        ensures
            x.encode().len() == 9,
            x.encode().subrange(0, 8) == u64_le_bytes(x.value),
            x.encode()[8] == x.status.code(),
            Group41Var4::decode(s).value == le_u64(s.subrange(0, 8)),
            Group41Var4::decode(s).status == CommandStatus::from_code_spec(s[8]),
    {
        assert(x.encode().subrange(0, 8) =~= u64_le_bytes(x.value));
    }
}

impl Group41Var3 {
    /// The wire layout, 5 bytes: bytes 0 to 3: `value`, the little-endian bit pattern of a
    /// 32-bit float; byte 4: `status`, the code of a command status.
    pub proof fn lemma_wire_layout(x: Self, s: Seq<u8>)
        requires
            s.len() >= 5,
        ensures
            x.encode().len() == 5,
            x.encode().subrange(0, 4) == u32_le_bytes(x.value),
            x.encode()[4] == x.status.code(),
            Group41Var3::decode(s).value == le_u32(s.subrange(0, 4)),
            Group41Var3::decode(s).status == CommandStatus::from_code_spec(s[4]),
    {
        assert(x.encode().subrange(0, 4) =~= u32_le_bytes(x.value));
    }
}

impl Group41Var2 {
    /// The wire layout, 3 bytes: bytes 0 to 1: `value`, a little-endian 16-bit two's complement
    /// value; byte 2: `status`, the code of a command status.
    pub proof fn lemma_wire_layout(x: Self, s: Seq<u8>)
        requires
            s.len() >= 3,
        ensures
            x.encode().len() == 3,
            x.encode().subrange(0, 2) == u16_le_bytes(i16_to_u16(x.value)),
            x.encode()[2] == x.status.code(),
            Group41Var2::decode(s).value == u16_to_i16(le_u16(s.subrange(0, 2))),
            Group41Var2::decode(s).status == CommandStatus::from_code_spec(s[2]),
    {
        assert(x.encode().subrange(0, 2) =~= u16_le_bytes(i16_to_u16(x.value)));
    }
}

impl Group41Var1 {
    /// The wire layout, 5 bytes: bytes 0 to 3: `value`, a little-endian 32-bit two's complement
    /// value; byte 4: `status`, the code of a command status.
    pub proof fn lemma_wire_layout(x: Self, s: Seq<u8>)
        requires
            s.len() >= 5,
        ensures
            x.encode().len() == 5,
            x.encode().subrange(0, 4) == u32_le_bytes(i32_to_u32(x.value)),
            x.encode()[4] == x.status.code(),
            Group41Var1::decode(s).value == u32_to_i32(le_u32(s.subrange(0, 4))),
            Group41Var1::decode(s).status == CommandStatus::from_code_spec(s[4]),
    {
        assert(x.encode().subrange(0, 4) =~= u32_le_bytes(i32_to_u32(x.value)));
    }
}

impl Group40Var4 {
    /// The wire layout, 9 bytes: byte 0: `flags`, a byte; bytes 1 to 8: `value`, the
    /// little-endian bit pattern of a 64-bit float.
    pub proof fn lemma_wire_layout(x: Self, s: Seq<u8>)
        requires
            s.len() >= 9,
        ensures
            x.encode().len() == 9,
            x.encode()[0] == x.flags,
            x.encode().subrange(1, 9) == u64_le_bytes(x.value),
            Group40Var4::decode(s).flags == s[0],
            Group40Var4::decode(s).value == le_u64(s.subrange(1, 9)),
    {
        assert(x.encode().subrange(1, 9) =~= u64_le_bytes(x.value));
    }
}

impl Group40Var3 {
    /// The wire layout, 5 bytes: byte 0: `flags`, a byte; bytes 1 to 4: `value`, the
    /// little-endian bit pattern of a 32-bit float.
    pub proof fn lemma_wire_layout(x: Self, s: Seq<u8>)
        requires
            s.len() >= 5,
        ensures
            x.encode().len() == 5,
            x.encode()[0] == x.flags,
            x.encode().subrange(1, 5) == u32_le_bytes(x.value),
            Group40Var3::decode(s).flags == s[0],
            Group40Var3::decode(s).value == le_u32(s.subrange(1, 5)),
    {
        assert(x.encode().subrange(1, 5) =~= u32_le_bytes(x.value));
    }
}

impl Group40Var2 {
    /// The wire layout, 3 bytes: byte 0: `flags`, a byte; bytes 1 to 2: `value`, a
    /// little-endian 16-bit two's complement value.
    pub proof fn lemma_wire_layout(x: Self, s: Seq<u8>)
        requires
            s.len() >= 3,
        ensures
            x.encode().len() == 3,
            x.encode()[0] == x.flags,
            x.encode().subrange(1, 3) == u16_le_bytes(i16_to_u16(x.value)),
            Group40Var2::decode(s).flags == s[0],
            Group40Var2::decode(s).value == u16_to_i16(le_u16(s.subrange(1, 3))),
    {
        assert(x.encode().subrange(1, 3) =~= u16_le_bytes(i16_to_u16(x.value)));
    }
}

impl Group40Var1 {
    /// The wire layout, 5 bytes: byte 0: `flags`, a byte; bytes 1 to 4: `value`, a
    /// little-endian 32-bit two's complement value.
    pub proof fn lemma_wire_layout(x: Self, s: Seq<u8>)
        requires
            s.len() >= 5,
        ensures
            x.encode().len() == 5,
            x.encode()[0] == x.flags,
            x.encode().subrange(1, 5) == u32_le_bytes(i32_to_u32(x.value)),
            Group40Var1::decode(s).flags == s[0],
            Group40Var1::decode(s).value == u32_to_i32(le_u32(s.subrange(1, 5))),
    {
        assert(x.encode().subrange(1, 5) =~= u32_le_bytes(i32_to_u32(x.value)));
    }
}

impl Group32Var8 {
    /// The wire layout, 15 bytes: byte 0: `flags`, a byte; bytes 1 to 8: `value`, the
    /// little-endian bit pattern of a 64-bit float; bytes 9 to 14: `time`, a little-endian
    /// 48-bit timestamp.
    pub proof fn lemma_wire_layout(x: Self, s: Seq<u8>)
        requires
            s.len() >= 15,
        ensures
            x.encode().len() == 15,
            x.encode()[0] == x.flags,
            x.encode().subrange(1, 9) == u64_le_bytes(x.value),
            x.encode().subrange(9, 15) == u48_le_bytes(x.time.value),
            Group32Var8::decode(s).flags == s[0],
            Group32Var8::decode(s).value == le_u64(s.subrange(1, 9)),
            Group32Var8::decode(s).time.value == le_u48(s.subrange(9, 15)),
    {
        assert(x.encode().subrange(1, 9) =~= u64_le_bytes(x.value));
        assert(x.encode().subrange(9, 15) =~= u48_le_bytes(x.time.value));
    }
}

impl Group32Var7 {
    /// The wire layout, 11 bytes: byte 0: `flags`, a byte; bytes 1 to 4: `value`, the
    /// little-endian bit pattern of a 32-bit float; bytes 5 to 10: `time`, a little-endian
    /// 48-bit timestamp.
    pub proof fn lemma_wire_layout(x: Self, s: Seq<u8>)
        requires
            s.len() >= 11,
        ensures
            x.encode().len() == 11,
            x.encode()[0] == x.flags,
            x.encode().subrange(1, 5) == u32_le_bytes(x.value),
            x.encode().subrange(5, 11) == u48_le_bytes(x.time.value),
            Group32Var7::decode(s).flags == s[0],
            Group32Var7::decode(s).value == le_u32(s.subrange(1, 5)),
            Group32Var7::decode(s).time.value == le_u48(s.subrange(5, 11)),
    {
        assert(x.encode().subrange(1, 5) =~= u32_le_bytes(x.value));
        assert(x.encode().subrange(5, 11) =~= u48_le_bytes(x.time.value));
    }
}

impl Group32Var6 {
    /// The wire layout, 9 bytes: byte 0: `flags`, a byte; bytes 1 to 8: `value`, the
    /// little-endian bit pattern of a 64-bit float.
    pub proof fn lemma_wire_layout(x: Self, s: Seq<u8>)
        requires
            s.len() >= 9,
        ensures
            x.encode().len() == 9,
            x.encode()[0] == x.flags,
            x.encode().subrange(1, 9) == u64_le_bytes(x.value),
            Group32Var6::decode(s).flags == s[0],
            Group32Var6::decode(s).value == le_u64(s.subrange(1, 9)),
    {
        assert(x.encode().subrange(1, 9) =~= u64_le_bytes(x.value));
    }
}

impl Group32Var5 {
    /// The wire layout, 5 bytes: byte 0: `flags`, a byte; bytes 1 to 4: `value`, the
    /// little-endian bit pattern of a 32-bit float.
    pub proof fn lemma_wire_layout(x: Self, s: Seq<u8>)
        requires
            s.len() >= 5,
        ensures
            x.encode().len() == 5,
            x.encode()[0] == x.flags,
            x.encode().subrange(1, 5) == u32_le_bytes(x.value),
            Group32Var5::decode(s).flags == s[0],
            Group32Var5::decode(s).value == le_u32(s.subrange(1, 5)),
    {
        assert(x.encode().subrange(1, 5) =~= u32_le_bytes(x.value));
    }
}

impl Group32Var4 {
    /// The wire layout, 9 bytes: byte 0: `flags`, a byte; bytes 1 to 2: `value`, a
    /// little-endian 16-bit two's complement value; bytes 3 to 8: `time`, a little-endian
    /// 48-bit timestamp.
    pub proof fn lemma_wire_layout(x: Self, s: Seq<u8>)
        requires
            s.len() >= 9,
        ensures
            x.encode().len() == 9,
            x.encode()[0] == x.flags,
            x.encode().subrange(1, 3) == u16_le_bytes(i16_to_u16(x.value)),
            x.encode().subrange(3, 9) == u48_le_bytes(x.time.value),
            Group32Var4::decode(s).flags == s[0],
            Group32Var4::decode(s).value == u16_to_i16(le_u16(s.subrange(1, 3))),
            Group32Var4::decode(s).time.value == le_u48(s.subrange(3, 9)),
    {
        assert(x.encode().subrange(1, 3) =~= u16_le_bytes(i16_to_u16(x.value)));
        assert(x.encode().subrange(3, 9) =~= u48_le_bytes(x.time.value));
    }
}

impl Group32Var3 {
    /// The wire layout, 11 bytes: byte 0: `flags`, a byte; bytes 1 to 4: `value`, a
    /// little-endian 32-bit two's complement value; bytes 5 to 10: `time`, a little-endian
    /// 48-bit timestamp.
    pub proof fn lemma_wire_layout(x: Self, s: Seq<u8>)
        requires
            s.len() >= 11,
        ensures
            x.encode().len() == 11,
            x.encode()[0] == x.flags,
            x.encode().subrange(1, 5) == u32_le_bytes(i32_to_u32(x.value)),
            x.encode().subrange(5, 11) == u48_le_bytes(x.time.value),
            Group32Var3::decode(s).flags == s[0],
            Group32Var3::decode(s).value == u32_to_i32(le_u32(s.subrange(1, 5))),
            Group32Var3::decode(s).time.value == le_u48(s.subrange(5, 11)),
    {
        assert(x.encode().subrange(1, 5) =~= u32_le_bytes(i32_to_u32(x.value)));
        assert(x.encode().subrange(5, 11) =~= u48_le_bytes(x.time.value));
    }
}

impl Group32Var2 {
    /// The wire layout, 3 bytes: byte 0: `flags`, a byte; bytes 1 to 2: `value`, a
    /// little-endian 16-bit two's complement value.
    pub proof fn lemma_wire_layout(x: Self, s: Seq<u8>)
        requires
            s.len() >= 3,
        ensures
            x.encode().len() == 3,
            x.encode()[0] == x.flags,
            x.encode().subrange(1, 3) == u16_le_bytes(i16_to_u16(x.value)),
            Group32Var2::decode(s).flags == s[0],
            Group32Var2::decode(s).value == u16_to_i16(le_u16(s.subrange(1, 3))),
    {
        assert(x.encode().subrange(1, 3) =~= u16_le_bytes(i16_to_u16(x.value)));
    }
}

impl Group32Var1 {
    /// The wire layout, 5 bytes: byte 0: `flags`, a byte; bytes 1 to 4: `value`, a
    /// little-endian 32-bit two's complement value.
    pub proof fn lemma_wire_layout(x: Self, s: Seq<u8>)
        requires
            s.len() >= 5,
        ensures
            x.encode().len() == 5,
            x.encode()[0] == x.flags,
            x.encode().subrange(1, 5) == u32_le_bytes(i32_to_u32(x.value)),
            Group32Var1::decode(s).flags == s[0],
            Group32Var1::decode(s).value == u32_to_i32(le_u32(s.subrange(1, 5))),
    {
        assert(x.encode().subrange(1, 5) =~= u32_le_bytes(i32_to_u32(x.value)));
    }
}

impl Group30Var6 {
    /// The wire layout, 9 bytes: byte 0: `flags`, a byte; bytes 1 to 8: `value`, the
    /// little-endian bit pattern of a 64-bit float.
    pub proof fn lemma_wire_layout(x: Self, s: Seq<u8>)
        requires
            s.len() >= 9,
        ensures
            x.encode().len() == 9,
            x.encode()[0] == x.flags,
            x.encode().subrange(1, 9) == u64_le_bytes(x.value),
            Group30Var6::decode(s).flags == s[0],
            Group30Var6::decode(s).value == le_u64(s.subrange(1, 9)),
    {
        assert(x.encode().subrange(1, 9) =~= u64_le_bytes(x.value));
    }
}

impl Group30Var5 {
    /// The wire layout, 5 bytes: byte 0: `flags`, a byte; bytes 1 to 4: `value`, the
    /// little-endian bit pattern of a 32-bit float.
    pub proof fn lemma_wire_layout(x: Self, s: Seq<u8>)
        requires
            s.len() >= 5,
        ensures
            x.encode().len() == 5,
            x.encode()[0] == x.flags,
            x.encode().subrange(1, 5) == u32_le_bytes(x.value),
            Group30Var5::decode(s).flags == s[0],
            Group30Var5::decode(s).value == le_u32(s.subrange(1, 5)),
    {
        assert(x.encode().subrange(1, 5) =~= u32_le_bytes(x.value));
    }
}

impl Group30Var4 {
    /// The wire layout, 2 bytes: bytes 0 to 1: `value`, a little-endian 16-bit two's complement
    /// value.
    pub proof fn lemma_wire_layout(x: Self, s: Seq<u8>)
        requires
            s.len() >= 2,
        ensures
            x.encode().len() == 2,
            x.encode().subrange(0, 2) == u16_le_bytes(i16_to_u16(x.value)),
            Group30Var4::decode(s).value == u16_to_i16(le_u16(s.subrange(0, 2))),
    {
        assert(x.encode().subrange(0, 2) =~= u16_le_bytes(i16_to_u16(x.value)));
    }
}

impl Group30Var3 {
    /// The wire layout, 4 bytes: bytes 0 to 3: `value`, a little-endian 32-bit two's complement
    /// value.
    pub proof fn lemma_wire_layout(x: Self, s: Seq<u8>)
        requires
            s.len() >= 4,
        ensures
            x.encode().len() == 4,
            x.encode().subrange(0, 4) == u32_le_bytes(i32_to_u32(x.value)),
            Group30Var3::decode(s).value == u32_to_i32(le_u32(s.subrange(0, 4))),
    {
        assert(x.encode().subrange(0, 4) =~= u32_le_bytes(i32_to_u32(x.value)));
    }
}

impl Group30Var2 {
    /// The wire layout, 3 bytes: byte 0: `flags`, a byte; bytes 1 to 2: `value`, a
    /// little-endian 16-bit two's complement value.
    pub proof fn lemma_wire_layout(x: Self, s: Seq<u8>)
        requires
            s.len() >= 3,
        ensures
            x.encode().len() == 3,
            x.encode()[0] == x.flags,
            x.encode().subrange(1, 3) == u16_le_bytes(i16_to_u16(x.value)),
            Group30Var2::decode(s).flags == s[0],
            Group30Var2::decode(s).value == u16_to_i16(le_u16(s.subrange(1, 3))),
    {
        assert(x.encode().subrange(1, 3) =~= u16_le_bytes(i16_to_u16(x.value)));
    }
}

impl Group30Var1 {
    /// The wire layout, 5 bytes: byte 0: `flags`, a byte; bytes 1 to 4: `value`, a
    /// little-endian 32-bit two's complement value.
    pub proof fn lemma_wire_layout(x: Self, s: Seq<u8>)
        requires
            s.len() >= 5,
        ensures
            x.encode().len() == 5,
            x.encode()[0] == x.flags,
            x.encode().subrange(1, 5) == u32_le_bytes(i32_to_u32(x.value)),
            Group30Var1::decode(s).flags == s[0],
            Group30Var1::decode(s).value == u32_to_i32(le_u32(s.subrange(1, 5))),
    {
        assert(x.encode().subrange(1, 5) =~= u32_le_bytes(i32_to_u32(x.value)));
    }
}

impl Group23Var6 {
    /// The wire layout, 9 bytes: byte 0: `flags`, a byte; bytes 1 to 2: `value`, a
    /// little-endian 16-bit value; bytes 3 to 8: `time`, a little-endian 48-bit timestamp.
    pub proof fn lemma_wire_layout(x: Self, s: Seq<u8>)
        requires
            s.len() >= 9,
        ensures
            x.encode().len() == 9,
            x.encode()[0] == x.flags,
            x.encode().subrange(1, 3) == u16_le_bytes(x.value),
            x.encode().subrange(3, 9) == u48_le_bytes(x.time.value),
            Group23Var6::decode(s).flags == s[0],
            Group23Var6::decode(s).value == le_u16(s.subrange(1, 3)),
            Group23Var6::decode(s).time.value == le_u48(s.subrange(3, 9)),
    {
        assert(x.encode().subrange(1, 3) =~= u16_le_bytes(x.value));
        assert(x.encode().subrange(3, 9) =~= u48_le_bytes(x.time.value));
    }
}

impl Group23Var5 {
    /// The wire layout, 11 bytes: byte 0: `flags`, a byte; bytes 1 to 4: `value`, a
    /// little-endian 32-bit value; bytes 5 to 10: `time`, a little-endian 48-bit timestamp.
    pub proof fn lemma_wire_layout(x: Self, s: Seq<u8>)
        requires
            s.len() >= 11,
        ensures
            x.encode().len() == 11,
            x.encode()[0] == x.flags,
            x.encode().subrange(1, 5) == u32_le_bytes(x.value),
            x.encode().subrange(5, 11) == u48_le_bytes(x.time.value),
            Group23Var5::decode(s).flags == s[0],
            Group23Var5::decode(s).value == le_u32(s.subrange(1, 5)),
            Group23Var5::decode(s).time.value == le_u48(s.subrange(5, 11)),
    {
        assert(x.encode().subrange(1, 5) =~= u32_le_bytes(x.value));
        assert(x.encode().subrange(5, 11) =~= u48_le_bytes(x.time.value));
    }
}

impl Group23Var2 {
    /// The wire layout, 3 bytes: byte 0: `flags`, a byte; bytes 1 to 2: `value`, a
    /// little-endian 16-bit value.
    pub proof fn lemma_wire_layout(x: Self, s: Seq<u8>)
        requires
            s.len() >= 3,
        ensures
            x.encode().len() == 3,
            x.encode()[0] == x.flags,
            x.encode().subrange(1, 3) == u16_le_bytes(x.value),
            Group23Var2::decode(s).flags == s[0],
            Group23Var2::decode(s).value == le_u16(s.subrange(1, 3)),
    {
        assert(x.encode().subrange(1, 3) =~= u16_le_bytes(x.value));
    }
}

impl Group23Var1 {
    /// The wire layout, 5 bytes: byte 0: `flags`, a byte; bytes 1 to 4: `value`, a
    /// little-endian 32-bit value.
    pub proof fn lemma_wire_layout(x: Self, s: Seq<u8>)
        requires
            s.len() >= 5,
        ensures
            x.encode().len() == 5,
            x.encode()[0] == x.flags,
            x.encode().subrange(1, 5) == u32_le_bytes(x.value),
            Group23Var1::decode(s).flags == s[0],
            Group23Var1::decode(s).value == le_u32(s.subrange(1, 5)),
    {
        assert(x.encode().subrange(1, 5) =~= u32_le_bytes(x.value));
    }
}

impl Group22Var6 {
    /// The wire layout, 9 bytes: byte 0: `flags`, a byte; bytes 1 to 2: `value`, a
    /// little-endian 16-bit value; bytes 3 to 8: `time`, a little-endian 48-bit timestamp.
    pub proof fn lemma_wire_layout(x: Self, s: Seq<u8>)
        requires
            s.len() >= 9,
        ensures
            x.encode().len() == 9,
            x.encode()[0] == x.flags,
            x.encode().subrange(1, 3) == u16_le_bytes(x.value),
            x.encode().subrange(3, 9) == u48_le_bytes(x.time.value),
            Group22Var6::decode(s).flags == s[0],
            Group22Var6::decode(s).value == le_u16(s.subrange(1, 3)),
            Group22Var6::decode(s).time.value == le_u48(s.subrange(3, 9)),
    {
        assert(x.encode().subrange(1, 3) =~= u16_le_bytes(x.value));
        assert(x.encode().subrange(3, 9) =~= u48_le_bytes(x.time.value));
    }
}

impl Group22Var5 {
    /// The wire layout, 11 bytes: byte 0: `flags`, a byte; bytes 1 to 4: `value`, a
    /// little-endian 32-bit value; bytes 5 to 10: `time`, a little-endian 48-bit timestamp.
    pub proof fn lemma_wire_layout(x: Self, s: Seq<u8>)
        requires
            s.len() >= 11,
        ensures
            x.encode().len() == 11,
            x.encode()[0] == x.flags,
            x.encode().subrange(1, 5) == u32_le_bytes(x.value),
            x.encode().subrange(5, 11) == u48_le_bytes(x.time.value),
            Group22Var5::decode(s).flags == s[0],
            Group22Var5::decode(s).value == le_u32(s.subrange(1, 5)),
            Group22Var5::decode(s).time.value == le_u48(s.subrange(5, 11)),
    {
        assert(x.encode().subrange(1, 5) =~= u32_le_bytes(x.value));
        assert(x.encode().subrange(5, 11) =~= u48_le_bytes(x.time.value));
    }
}

impl Group22Var2 {
    /// The wire layout, 3 bytes: byte 0: `flags`, a byte; bytes 1 to 2: `value`, a
    /// little-endian 16-bit value.
    pub proof fn lemma_wire_layout(x: Self, s: Seq<u8>)
        requires
            s.len() >= 3,
        ensures
            x.encode().len() == 3,
            x.encode()[0] == x.flags,
            x.encode().subrange(1, 3) == u16_le_bytes(x.value),
            Group22Var2::decode(s).flags == s[0],
            Group22Var2::decode(s).value == le_u16(s.subrange(1, 3)),
    {
        assert(x.encode().subrange(1, 3) =~= u16_le_bytes(x.value));
    }
}

impl Group22Var1 {
    /// The wire layout, 5 bytes: byte 0: `flags`, a byte; bytes 1 to 4: `value`, a
    /// little-endian 32-bit value.
    pub proof fn lemma_wire_layout(x: Self, s: Seq<u8>)
        requires
            s.len() >= 5,
        ensures
            x.encode().len() == 5,
            x.encode()[0] == x.flags,
            x.encode().subrange(1, 5) == u32_le_bytes(x.value),
            Group22Var1::decode(s).flags == s[0],
            Group22Var1::decode(s).value == le_u32(s.subrange(1, 5)),
    {
        assert(x.encode().subrange(1, 5) =~= u32_le_bytes(x.value));
    }
}

impl Group21Var10 {
    /// The wire layout, 2 bytes: bytes 0 to 1: `value`, a little-endian 16-bit value.
    pub proof fn lemma_wire_layout(x: Self, s: Seq<u8>)
        requires
            s.len() >= 2,
        ensures
            x.encode().len() == 2,
            x.encode().subrange(0, 2) == u16_le_bytes(x.value),
            Group21Var10::decode(s).value == le_u16(s.subrange(0, 2)),
    {
        assert(x.encode().subrange(0, 2) =~= u16_le_bytes(x.value));
    }
}

impl Group21Var9 {
    /// The wire layout, 4 bytes: bytes 0 to 3: `value`, a little-endian 32-bit value.
    pub proof fn lemma_wire_layout(x: Self, s: Seq<u8>)
        requires
            s.len() >= 4,
        ensures
            x.encode().len() == 4,
            x.encode().subrange(0, 4) == u32_le_bytes(x.value),
            Group21Var9::decode(s).value == le_u32(s.subrange(0, 4)),
    {
        assert(x.encode().subrange(0, 4) =~= u32_le_bytes(x.value));
    }
}

impl Group21Var6 {
    /// The wire layout, 9 bytes: byte 0: `flags`, a byte; bytes 1 to 2: `value`, a
    /// little-endian 16-bit value; bytes 3 to 8: `time`, a little-endian 48-bit timestamp.
    pub proof fn lemma_wire_layout(x: Self, s: Seq<u8>)
        requires
            s.len() >= 9,
        ensures
            x.encode().len() == 9,
            x.encode()[0] == x.flags,
            x.encode().subrange(1, 3) == u16_le_bytes(x.value),
            x.encode().subrange(3, 9) == u48_le_bytes(x.time.value),
            Group21Var6::decode(s).flags == s[0],
            Group21Var6::decode(s).value == le_u16(s.subrange(1, 3)),
            Group21Var6::decode(s).time.value == le_u48(s.subrange(3, 9)),
    {
        assert(x.encode().subrange(1, 3) =~= u16_le_bytes(x.value));
        assert(x.encode().subrange(3, 9) =~= u48_le_bytes(x.time.value));
    }
}

impl Group21Var5 {
    /// The wire layout, 11 bytes: byte 0: `flags`, a byte; bytes 1 to 4: `value`, a
    /// little-endian 32-bit value; bytes 5 to 10: `time`, a little-endian 48-bit timestamp.
    pub proof fn lemma_wire_layout(x: Self, s: Seq<u8>)
        requires
            s.len() >= 11,
        ensures
            x.encode().len() == 11,
            x.encode()[0] == x.flags,
            x.encode().subrange(1, 5) == u32_le_bytes(x.value),
            x.encode().subrange(5, 11) == u48_le_bytes(x.time.value),
            Group21Var5::decode(s).flags == s[0],
            Group21Var5::decode(s).value == le_u32(s.subrange(1, 5)),
            Group21Var5::decode(s).time.value == le_u48(s.subrange(5, 11)),
    {
        assert(x.encode().subrange(1, 5) =~= u32_le_bytes(x.value));
        assert(x.encode().subrange(5, 11) =~= u48_le_bytes(x.time.value));
    }
}

impl Group21Var2 {
    /// The wire layout, 3 bytes: byte 0: `flags`, a byte; bytes 1 to 2: `value`, a
    /// little-endian 16-bit value.
    pub proof fn lemma_wire_layout(x: Self, s: Seq<u8>)
        requires
            s.len() >= 3,
        ensures
            x.encode().len() == 3,
            x.encode()[0] == x.flags,
            x.encode().subrange(1, 3) == u16_le_bytes(x.value),
            Group21Var2::decode(s).flags == s[0],
            Group21Var2::decode(s).value == le_u16(s.subrange(1, 3)),
    {
        assert(x.encode().subrange(1, 3) =~= u16_le_bytes(x.value));
    }
}

impl Group21Var1 {
    /// The wire layout, 5 bytes: byte 0: `flags`, a byte; bytes 1 to 4: `value`, a
    /// little-endian 32-bit value.
    pub proof fn lemma_wire_layout(x: Self, s: Seq<u8>)
        requires
            s.len() >= 5,
        ensures
            x.encode().len() == 5,
            x.encode()[0] == x.flags,
            x.encode().subrange(1, 5) == u32_le_bytes(x.value),
            Group21Var1::decode(s).flags == s[0],
            Group21Var1::decode(s).value == le_u32(s.subrange(1, 5)),
    {
        assert(x.encode().subrange(1, 5) =~= u32_le_bytes(x.value));
    }
}

impl Group20Var6 {
    /// The wire layout, 2 bytes: bytes 0 to 1: `value`, a little-endian 16-bit value.
    pub proof fn lemma_wire_layout(x: Self, s: Seq<u8>)
        requires
            s.len() >= 2,
        ensures
            x.encode().len() == 2,
            x.encode().subrange(0, 2) == u16_le_bytes(x.value),
            Group20Var6::decode(s).value == le_u16(s.subrange(0, 2)),
    {
        assert(x.encode().subrange(0, 2) =~= u16_le_bytes(x.value));
    }
}

impl Group20Var5 {
    /// The wire layout, 4 bytes: bytes 0 to 3: `value`, a little-endian 32-bit value.
    pub proof fn lemma_wire_layout(x: Self, s: Seq<u8>)
        requires
            s.len() >= 4,
        ensures
            x.encode().len() == 4,
            x.encode().subrange(0, 4) == u32_le_bytes(x.value),
            Group20Var5::decode(s).value == le_u32(s.subrange(0, 4)),
    {
        assert(x.encode().subrange(0, 4) =~= u32_le_bytes(x.value));
    }
}

impl Group20Var2 {
    /// The wire layout, 3 bytes: byte 0: `flags`, a byte; bytes 1 to 2: `value`, a
    /// little-endian 16-bit value.
    pub proof fn lemma_wire_layout(x: Self, s: Seq<u8>)
        requires
            s.len() >= 3,
        ensures
            x.encode().len() == 3,
            x.encode()[0] == x.flags,
            x.encode().subrange(1, 3) == u16_le_bytes(x.value),
            Group20Var2::decode(s).flags == s[0],
            Group20Var2::decode(s).value == le_u16(s.subrange(1, 3)),
    {
        assert(x.encode().subrange(1, 3) =~= u16_le_bytes(x.value));
    }
}

impl Group20Var1 {
    /// The wire layout, 5 bytes: byte 0: `flags`, a byte; bytes 1 to 4: `value`, a
    /// little-endian 32-bit value.
    pub proof fn lemma_wire_layout(x: Self, s: Seq<u8>)
        requires
            s.len() >= 5,
        ensures
            x.encode().len() == 5,
            x.encode()[0] == x.flags,
            x.encode().subrange(1, 5) == u32_le_bytes(x.value),
            Group20Var1::decode(s).flags == s[0],
            Group20Var1::decode(s).value == le_u32(s.subrange(1, 5)),
    {
        assert(x.encode().subrange(1, 5) =~= u32_le_bytes(x.value));
    }
}

impl Group13Var2 {
    /// The wire layout, 7 bytes: byte 0: `flags`, a byte; bytes 1 to 6: `time`, a little-endian
    /// 48-bit timestamp.
    pub proof fn lemma_wire_layout(x: Self, s: Seq<u8>)
        requires
            s.len() >= 7,
        ensures
            x.encode().len() == 7,
            x.encode()[0] == x.flags,
            x.encode().subrange(1, 7) == u48_le_bytes(x.time.value),
            Group13Var2::decode(s).flags == s[0],
            Group13Var2::decode(s).time.value == le_u48(s.subrange(1, 7)),
    {
        assert(x.encode().subrange(1, 7) =~= u48_le_bytes(x.time.value));
    }
}

impl Group13Var1 {
    /// The wire layout, 1 byte: byte 0: `flags`, a byte.
    pub proof fn lemma_wire_layout(x: Self, s: Seq<u8>)
        requires
            s.len() >= 1,
        ensures
            x.encode().len() == 1,
            x.encode()[0] == x.flags,
            Group13Var1::decode(s).flags == s[0],
    {
    }
}

impl Group12Var1 {
    /// The wire layout, 11 bytes: byte 0: `code`, the code of a control code; byte 1: `count`,
    /// a byte; bytes 2 to 5: `on_time`, a little-endian 32-bit value; bytes 6 to 9: `off_time`,
    /// a little-endian 32-bit value; byte 10: `status`, the code of a command status.
    pub proof fn lemma_wire_layout(x: Self, s: Seq<u8>)
        requires
            s.len() >= 11,
        ensures
            x.encode().len() == 11,
            x.encode()[0] == x.code.code(),
            x.encode()[1] == x.count,
            x.encode().subrange(2, 6) == u32_le_bytes(x.on_time),
            x.encode().subrange(6, 10) == u32_le_bytes(x.off_time),
            x.encode()[10] == x.status.code(),
            Group12Var1::decode(s).code == ControlCode::spec_from(s[0]),
            Group12Var1::decode(s).count == s[1],
            Group12Var1::decode(s).on_time == le_u32(s.subrange(2, 6)),
            Group12Var1::decode(s).off_time == le_u32(s.subrange(6, 10)),
            Group12Var1::decode(s).status == CommandStatus::from_code_spec(s[10]),
    {
        assert(x.encode().subrange(2, 6) =~= u32_le_bytes(x.on_time));
        assert(x.encode().subrange(6, 10) =~= u32_le_bytes(x.off_time));
    }
}

impl Group11Var2 {
    /// The wire layout, 7 bytes: byte 0: `flags`, a byte; bytes 1 to 6: `time`, a little-endian
    /// 48-bit timestamp.
    pub proof fn lemma_wire_layout(x: Self, s: Seq<u8>)
        requires
            s.len() >= 7,
        ensures
            x.encode().len() == 7,
            x.encode()[0] == x.flags,
            x.encode().subrange(1, 7) == u48_le_bytes(x.time.value),
            Group11Var2::decode(s).flags == s[0],
            Group11Var2::decode(s).time.value == le_u48(s.subrange(1, 7)),
    {
        assert(x.encode().subrange(1, 7) =~= u48_le_bytes(x.time.value));
    }
}

impl Group11Var1 {
    /// The wire layout, 1 byte: byte 0: `flags`, a byte.
    pub proof fn lemma_wire_layout(x: Self, s: Seq<u8>)
        requires
            s.len() >= 1,
        ensures
            x.encode().len() == 1,
            x.encode()[0] == x.flags,
            Group11Var1::decode(s).flags == s[0],
    {
    }
}

impl Group10Var2 {
    /// The wire layout, 1 byte: byte 0: `flags`, a byte.
    pub proof fn lemma_wire_layout(x: Self, s: Seq<u8>)
        requires
            s.len() >= 1,
        ensures
            x.encode().len() == 1,
            x.encode()[0] == x.flags,
            Group10Var2::decode(s).flags == s[0],
    {
    }
}

impl Group4Var3 {
    /// The wire layout, 3 bytes: byte 0: `flags`, a byte; bytes 1 to 2: `time`, a little-endian
    /// 16-bit value.
    pub proof fn lemma_wire_layout(x: Self, s: Seq<u8>)
        requires
            s.len() >= 3,
        ensures
            x.encode().len() == 3,
            x.encode()[0] == x.flags,
            x.encode().subrange(1, 3) == u16_le_bytes(x.time),
            Group4Var3::decode(s).flags == s[0],
            Group4Var3::decode(s).time == le_u16(s.subrange(1, 3)),
    {
        assert(x.encode().subrange(1, 3) =~= u16_le_bytes(x.time));
    }
}

impl Group4Var2 {
    /// The wire layout, 7 bytes: byte 0: `flags`, a byte; bytes 1 to 6: `time`, a little-endian
    /// 48-bit timestamp.
    pub proof fn lemma_wire_layout(x: Self, s: Seq<u8>)
        requires
            s.len() >= 7,
        ensures
            x.encode().len() == 7,
            x.encode()[0] == x.flags,
            x.encode().subrange(1, 7) == u48_le_bytes(x.time.value),
            Group4Var2::decode(s).flags == s[0],
            Group4Var2::decode(s).time.value == le_u48(s.subrange(1, 7)),
    {
        assert(x.encode().subrange(1, 7) =~= u48_le_bytes(x.time.value));
    }
}

impl Group4Var1 {
    /// The wire layout, 1 byte: byte 0: `flags`, a byte.
    pub proof fn lemma_wire_layout(x: Self, s: Seq<u8>)
        requires
            s.len() >= 1,
        ensures
            x.encode().len() == 1,
            x.encode()[0] == x.flags,
            Group4Var1::decode(s).flags == s[0],
    {
    }
}

impl Group3Var2 {
    /// The wire layout, 1 byte: byte 0: `flags`, a byte.
    pub proof fn lemma_wire_layout(x: Self, s: Seq<u8>)
        requires
            s.len() >= 1,
        ensures
            x.encode().len() == 1,
            x.encode()[0] == x.flags,
            Group3Var2::decode(s).flags == s[0],
    {
    }
}

impl Group2Var3 {
    /// The wire layout, 3 bytes: byte 0: `flags`, a byte; bytes 1 to 2: `time`, a little-endian
    /// 16-bit value.
    pub proof fn lemma_wire_layout(x: Self, s: Seq<u8>)
        requires
            s.len() >= 3,
        ensures
            x.encode().len() == 3,
            x.encode()[0] == x.flags,
            x.encode().subrange(1, 3) == u16_le_bytes(x.time),
            Group2Var3::decode(s).flags == s[0],
            Group2Var3::decode(s).time == le_u16(s.subrange(1, 3)),
    {
        assert(x.encode().subrange(1, 3) =~= u16_le_bytes(x.time));
    }
}

impl Group2Var2 {
    /// The wire layout, 7 bytes: byte 0: `flags`, a byte; bytes 1 to 6: `time`, a little-endian
    /// 48-bit timestamp.
    pub proof fn lemma_wire_layout(x: Self, s: Seq<u8>)
        requires
            s.len() >= 7,
        ensures
            x.encode().len() == 7,
            x.encode()[0] == x.flags,
            x.encode().subrange(1, 7) == u48_le_bytes(x.time.value),
            Group2Var2::decode(s).flags == s[0],
            Group2Var2::decode(s).time.value == le_u48(s.subrange(1, 7)),
    {
        assert(x.encode().subrange(1, 7) =~= u48_le_bytes(x.time.value));
    }
}

impl Group2Var1 {
    /// The wire layout, 1 byte: byte 0: `flags`, a byte.
    pub proof fn lemma_wire_layout(x: Self, s: Seq<u8>)
        requires
            s.len() >= 1,
        ensures
            x.encode().len() == 1,
            x.encode()[0] == x.flags,
            Group2Var1::decode(s).flags == s[0],
    {
    }
}

impl Group1Var2 {
    /// The wire layout, 1 byte: byte 0: `flags`, a byte.
    pub proof fn lemma_wire_layout(x: Self, s: Seq<u8>)
        requires
            s.len() >= 1,
        ensures
            x.encode().len() == 1,
            x.encode()[0] == x.flags,
            Group1Var2::decode(s).flags == s[0],
    {
    }
}

impl crate::app::variations::Group2Var1 {
    /// The wire layout, 1 byte: byte 0: `flags`, a byte.
    pub proof fn lemma_wire_layout(x: Self, s: Seq<u8>)
        requires
            s.len() >= 1,
        ensures
            x.encode().len() == 1,
            x.encode()[0] == x.flags,
            Self::decode(s).flags == s[0],
    {
    }
}

impl crate::app::variations::Group2Var2 {
    /// The wire layout, 7 bytes: byte 0: `flags`, a byte; bytes 1 to 6: `time`, a little-endian
    /// 48-bit timestamp.
    pub proof fn lemma_wire_layout(x: Self, s: Seq<u8>)
        requires
            s.len() >= 7,
        ensures
            x.encode().len() == 7,
            x.encode()[0] == x.flags,
            x.encode().subrange(1, 7) == u48_le_bytes(x.time),
            Self::decode(s).flags == s[0],
            Self::decode(s).time == le_u48(s.subrange(1, 7)),
    {
        assert(x.encode().subrange(1, 7) =~= u48_le_bytes(x.time));
    }
}

impl crate::app::variations::Group2Var3 {
    /// The wire layout, 3 bytes: byte 0: `flags`, a byte; bytes 1 to 2: `time`, a little-endian
    /// 16-bit value.
    pub proof fn lemma_wire_layout(x: Self, s: Seq<u8>)
        requires
            s.len() >= 3,
        ensures
            x.encode().len() == 3,
            x.encode()[0] == x.flags,
            x.encode().subrange(1, 3) == u16_le_bytes(x.time),
            Self::decode(s).flags == s[0],
            Self::decode(s).time == le_u16(s.subrange(1, 3)),
    {
        assert(x.encode().subrange(1, 3) =~= u16_le_bytes(x.time));
    }
}


} // verus!
