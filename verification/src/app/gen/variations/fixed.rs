use crate::app::gen::enums::CommandStatus;
use crate::app::parse::traits::{FixedSize, FixedSizeVariation};
use crate::app::types::{ControlCode, Timestamp};
use crate::util::cursor::{
    le_u16, le_u32, le_u48, le_u64, lemma_i16_roundtrip, lemma_i32_roundtrip, lemma_u16_roundtrip,
    lemma_u32_roundtrip, lemma_u48_bytes_roundtrip, lemma_u48_roundtrip, lemma_u64_roundtrip,
    i16_to_u16, i32_to_u32, spliced, u16_le_bytes, u16_to_i16, u32_le_bytes, u32_to_i32,
    u48_le_bytes, u64_le_bytes, ReadCursor, ReadError, WriteCursor, WriteError,
};
use vstd::prelude::*;

verus! {

/// Time Delay - Fine
#[derive(Copy, Clone, Debug, PartialEq, Eq, Structural)]
pub struct Group52Var2 {
    pub time: u16,
}

/// Time Delay - Coarse
#[derive(Copy, Clone, Debug, PartialEq, Eq, Structural)]
pub struct Group52Var1 {
    pub time: u16,
}

/// Time and Date CTO - Absolute time, unsynchronized
#[derive(Copy, Clone, Debug, PartialEq, Eq, Structural)]
pub struct Group51Var2 {
    pub time: Timestamp,
}

/// Time and Date CTO - Absolute time, synchronized
#[derive(Copy, Clone, Debug, PartialEq, Eq, Structural)]
pub struct Group51Var1 {
    pub time: Timestamp,
}

/// Time and Date - Indexed absolute time and long interval
#[derive(Copy, Clone, Debug, PartialEq, Eq, Structural)]
pub struct Group50Var4 {
    pub time: Timestamp,
    pub interval: u32,
    pub units: u8,
}

/// Time and Date - Absolute Time at last recorded time
#[derive(Copy, Clone, Debug, PartialEq, Eq, Structural)]
pub struct Group50Var3 {
    pub time: Timestamp,
}

/// Time and Date - Absolute Time
#[derive(Copy, Clone, Debug, PartialEq, Eq, Structural)]
pub struct Group50Var1 {
    pub time: Timestamp,
}

/// Analog Command Event - Double-precision With Time
///
/// The floating-point value is held as its IEEE-754 bit pattern.
#[derive(Copy, Clone, Debug, PartialEq, Eq, Structural)]
pub struct Group43Var8 {
    pub status: CommandStatus,
    pub value: u64,
    pub time: Timestamp,
}

/// Analog Command Event - Single-precision With Time
///
/// The floating-point value is held as its IEEE-754 bit pattern.
#[derive(Copy, Clone, Debug, PartialEq, Eq, Structural)]
pub struct Group43Var7 {
    pub status: CommandStatus,
    pub value: u32,
    pub time: Timestamp,
}

/// Analog Command Event - Double-precision
///
/// The floating-point value is held as its IEEE-754 bit pattern.
#[derive(Copy, Clone, Debug, PartialEq, Eq, Structural)]
pub struct Group43Var6 {
    pub status: CommandStatus,
    pub value: u64,
}

/// Analog Command Event - Single-precision
///
/// The floating-point value is held as its IEEE-754 bit pattern.
#[derive(Copy, Clone, Debug, PartialEq, Eq, Structural)]
pub struct Group43Var5 {
    pub status: CommandStatus,
    pub value: u32,
}

/// Analog Command Event - 16-bit With Time
#[derive(Copy, Clone, Debug, PartialEq, Eq, Structural)]
pub struct Group43Var4 {
    pub status: CommandStatus,
    pub value: i16,
    pub time: Timestamp,
}

/// Analog Command Event - 32-bit With Time
#[derive(Copy, Clone, Debug, PartialEq, Eq, Structural)]
pub struct Group43Var3 {
    pub status: CommandStatus,
    pub value: i32,
    pub time: Timestamp,
}

/// Analog Command Event - 16-bit
#[derive(Copy, Clone, Debug, PartialEq, Eq, Structural)]
pub struct Group43Var2 {
    pub status: CommandStatus,
    pub value: i16,
}

/// Analog Command Event - 32-bit
#[derive(Copy, Clone, Debug, PartialEq, Eq, Structural)]
pub struct Group43Var1 {
    pub status: CommandStatus,
    pub value: i32,
}

/// Analog Output Event - Double-precision With Flag and Time
///
/// The floating-point value is held as its IEEE-754 bit pattern.
#[derive(Copy, Clone, Debug, PartialEq, Eq, Structural)]
pub struct Group42Var8 {
    pub flags: u8,
    pub value: u64,
    pub time: Timestamp,
}

/// Analog Output Event - Single-precision With Flag and Time
///
/// The floating-point value is held as its IEEE-754 bit pattern.
#[derive(Copy, Clone, Debug, PartialEq, Eq, Structural)]
pub struct Group42Var7 {
    pub flags: u8,
    pub value: u32,
    pub time: Timestamp,
}

/// Analog Output Event - Double-precision With Flag
///
/// The floating-point value is held as its IEEE-754 bit pattern.
#[derive(Copy, Clone, Debug, PartialEq, Eq, Structural)]
pub struct Group42Var6 {
    pub flags: u8,
    pub value: u64,
}

/// Analog Output Event - Single-precision With Flag
///
/// The floating-point value is held as its IEEE-754 bit pattern.
#[derive(Copy, Clone, Debug, PartialEq, Eq, Structural)]
pub struct Group42Var5 {
    pub flags: u8,
    pub value: u32,
}

/// Analog Output Event - 16-bit With Flag and Time
#[derive(Copy, Clone, Debug, PartialEq, Eq, Structural)]
pub struct Group42Var4 {
    pub flags: u8,
    pub value: i16,
    pub time: Timestamp,
}

/// Analog Output Event - 32-bit With Flag and Time
#[derive(Copy, Clone, Debug, PartialEq, Eq, Structural)]
pub struct Group42Var3 {
    pub flags: u8,
    pub value: i32,
    pub time: Timestamp,
}

/// Analog Output Event - 16-bit With Flag
#[derive(Copy, Clone, Debug, PartialEq, Eq, Structural)]
pub struct Group42Var2 {
    pub flags: u8,
    pub value: i16,
}

/// Analog Output Event - 32-bit With Flag
#[derive(Copy, Clone, Debug, PartialEq, Eq, Structural)]
pub struct Group42Var1 {
    pub flags: u8,
    pub value: i32,
}

/// Analog Output - Double-precision
///
/// The floating-point value is held as its IEEE-754 bit pattern.
#[derive(Copy, Clone, Debug, PartialEq, Eq, Structural)]
pub struct Group41Var4 {
    pub value: u64,
    pub status: CommandStatus,
}

/// Analog Output - Single-precision
///
/// The floating-point value is held as its IEEE-754 bit pattern.
#[derive(Copy, Clone, Debug, PartialEq, Eq, Structural)]
pub struct Group41Var3 {
    pub value: u32,
    pub status: CommandStatus,
}

/// Analog Output - 16-bit With Flag
#[derive(Copy, Clone, Debug, PartialEq, Eq, Structural)]
pub struct Group41Var2 {
    pub value: i16,
    pub status: CommandStatus,
}

/// Analog Output - 32-bit With Flag
#[derive(Copy, Clone, Debug, PartialEq, Eq, Structural)]
pub struct Group41Var1 {
    pub value: i32,
    pub status: CommandStatus,
}

/// Analog Output Status - Double-precision With Flag
///
/// The floating-point value is held as its IEEE-754 bit pattern.
#[derive(Copy, Clone, Debug, PartialEq, Eq, Structural)]
pub struct Group40Var4 {
    pub flags: u8,
    pub value: u64,
}

/// Analog Output Status - Single-precision With Flag
///
/// The floating-point value is held as its IEEE-754 bit pattern.
#[derive(Copy, Clone, Debug, PartialEq, Eq, Structural)]
pub struct Group40Var3 {
    pub flags: u8,
    pub value: u32,
}

/// Analog Output Status - 16-bit With Flag
#[derive(Copy, Clone, Debug, PartialEq, Eq, Structural)]
pub struct Group40Var2 {
    pub flags: u8,
    pub value: i16,
}

/// Analog Output Status - 32-bit With Flag
#[derive(Copy, Clone, Debug, PartialEq, Eq, Structural)]
pub struct Group40Var1 {
    pub flags: u8,
    pub value: i32,
}

/// Analog Input Event - Double-precision With Flag and Time
///
/// The floating-point value is held as its IEEE-754 bit pattern.
#[derive(Copy, Clone, Debug, PartialEq, Eq, Structural)]
pub struct Group32Var8 {
    pub flags: u8,
    pub value: u64,
    pub time: Timestamp,
}

/// Analog Input Event - Single-precision With Flag and Time
///
/// The floating-point value is held as its IEEE-754 bit pattern.
#[derive(Copy, Clone, Debug, PartialEq, Eq, Structural)]
pub struct Group32Var7 {
    pub flags: u8,
    pub value: u32,
    pub time: Timestamp,
}

/// Analog Input Event - Double-precision With Flag
///
/// The floating-point value is held as its IEEE-754 bit pattern.
#[derive(Copy, Clone, Debug, PartialEq, Eq, Structural)]
pub struct Group32Var6 {
    pub flags: u8,
    pub value: u64,
}

/// Analog Input Event - Single-precision With Flag
///
/// The floating-point value is held as its IEEE-754 bit pattern.
#[derive(Copy, Clone, Debug, PartialEq, Eq, Structural)]
pub struct Group32Var5 {
    pub flags: u8,
    pub value: u32,
}

/// Analog Input Event - 16-bit With Flag and Time
#[derive(Copy, Clone, Debug, PartialEq, Eq, Structural)]
pub struct Group32Var4 {
    pub flags: u8,
    pub value: i16,
    pub time: Timestamp,
}

/// Analog Input Event - 32-bit With Flag and Time
#[derive(Copy, Clone, Debug, PartialEq, Eq, Structural)]
pub struct Group32Var3 {
    pub flags: u8,
    pub value: i32,
    pub time: Timestamp,
}

/// Analog Input Event - 16-bit With Flag
#[derive(Copy, Clone, Debug, PartialEq, Eq, Structural)]
pub struct Group32Var2 {
    pub flags: u8,
    pub value: i16,
}

/// Analog Input Event - 32-bit With Flag
#[derive(Copy, Clone, Debug, PartialEq, Eq, Structural)]
pub struct Group32Var1 {
    pub flags: u8,
    pub value: i32,
}

/// Analog Input - Double-precision With Flag
///
/// The floating-point value is held as its IEEE-754 bit pattern.
#[derive(Copy, Clone, Debug, PartialEq, Eq, Structural)]
pub struct Group30Var6 {
    pub flags: u8,
    pub value: u64,
}

/// Analog Input - Single-precision With Flag
///
/// The floating-point value is held as its IEEE-754 bit pattern.
#[derive(Copy, Clone, Debug, PartialEq, Eq, Structural)]
pub struct Group30Var5 {
    pub flags: u8,
    pub value: u32,
}

/// Analog Input - 16-bit Without Flag
#[derive(Copy, Clone, Debug, PartialEq, Eq, Structural)]
pub struct Group30Var4 {
    pub value: i16,
}

/// Analog Input - 32-bit Without Flag
#[derive(Copy, Clone, Debug, PartialEq, Eq, Structural)]
pub struct Group30Var3 {
    pub value: i32,
}

/// Analog Input - 16-bit With Flag
#[derive(Copy, Clone, Debug, PartialEq, Eq, Structural)]
pub struct Group30Var2 {
    pub flags: u8,
    pub value: i16,
}

/// Analog Input - 32-bit With Flag
#[derive(Copy, Clone, Debug, PartialEq, Eq, Structural)]
pub struct Group30Var1 {
    pub flags: u8,
    pub value: i32,
}

/// Frozen Counter Event - 16-bit With Flag and Time
#[derive(Copy, Clone, Debug, PartialEq, Eq, Structural)]
pub struct Group23Var6 {
    pub flags: u8,
    pub value: u16,
    pub time: Timestamp,
}

/// Frozen Counter Event - 32-bit With Flag and Time
#[derive(Copy, Clone, Debug, PartialEq, Eq, Structural)]
pub struct Group23Var5 {
    pub flags: u8,
    pub value: u32,
    pub time: Timestamp,
}

/// Frozen Counter Event - 16-bit With Flag
#[derive(Copy, Clone, Debug, PartialEq, Eq, Structural)]
pub struct Group23Var2 {
    pub flags: u8,
    pub value: u16,
}

/// Frozen Counter Event - 32-bit With Flag
#[derive(Copy, Clone, Debug, PartialEq, Eq, Structural)]
pub struct Group23Var1 {
    pub flags: u8,
    pub value: u32,
}

/// Counter Event - 16-bit With Flag and Time
#[derive(Copy, Clone, Debug, PartialEq, Eq, Structural)]
pub struct Group22Var6 {
    pub flags: u8,
    pub value: u16,
    pub time: Timestamp,
}

/// Counter Event - 32-bit With Flag and Time
#[derive(Copy, Clone, Debug, PartialEq, Eq, Structural)]
pub struct Group22Var5 {
    pub flags: u8,
    pub value: u32,
    pub time: Timestamp,
}

/// Counter Event - 16-bit With Flag
#[derive(Copy, Clone, Debug, PartialEq, Eq, Structural)]
pub struct Group22Var2 {
    pub flags: u8,
    pub value: u16,
}

/// Counter Event - 32-bit With Flag
#[derive(Copy, Clone, Debug, PartialEq, Eq, Structural)]
pub struct Group22Var1 {
    pub flags: u8,
    pub value: u32,
}

/// Frozen Counter - 16-bit Without Flag
#[derive(Copy, Clone, Debug, PartialEq, Eq, Structural)]
pub struct Group21Var10 {
    pub value: u16,
}

/// Frozen Counter - 32-bit Without Flag
#[derive(Copy, Clone, Debug, PartialEq, Eq, Structural)]
pub struct Group21Var9 {
    pub value: u32,
}

/// Frozen Counter - 16-bit With Flag and Time
#[derive(Copy, Clone, Debug, PartialEq, Eq, Structural)]
pub struct Group21Var6 {
    pub flags: u8,
    pub value: u16,
    pub time: Timestamp,
}

/// Frozen Counter - 32-bit With Flag and Time
#[derive(Copy, Clone, Debug, PartialEq, Eq, Structural)]
pub struct Group21Var5 {
    pub flags: u8,
    pub value: u32,
    pub time: Timestamp,
}

/// Frozen Counter - 16-bit With Flag
#[derive(Copy, Clone, Debug, PartialEq, Eq, Structural)]
pub struct Group21Var2 {
    pub flags: u8,
    pub value: u16,
}

/// Frozen Counter - 32-bit With Flag
#[derive(Copy, Clone, Debug, PartialEq, Eq, Structural)]
pub struct Group21Var1 {
    pub flags: u8,
    pub value: u32,
}

/// Counter - 16-bit Without Flag
#[derive(Copy, Clone, Debug, PartialEq, Eq, Structural)]
pub struct Group20Var6 {
    pub value: u16,
}

/// Counter - 32-bit Without Flag
#[derive(Copy, Clone, Debug, PartialEq, Eq, Structural)]
pub struct Group20Var5 {
    pub value: u32,
}

/// Counter - 16-bit With Flag
#[derive(Copy, Clone, Debug, PartialEq, Eq, Structural)]
pub struct Group20Var2 {
    pub flags: u8,
    pub value: u16,
}

/// Counter - 32-bit With Flag
#[derive(Copy, Clone, Debug, PartialEq, Eq, Structural)]
pub struct Group20Var1 {
    pub flags: u8,
    pub value: u32,
}

/// Binary Command Event - With Time
#[derive(Copy, Clone, Debug, PartialEq, Eq, Structural)]
pub struct Group13Var2 {
    pub flags: u8,
    pub time: Timestamp,
}

/// Binary Command Event - Without Time
#[derive(Copy, Clone, Debug, PartialEq, Eq, Structural)]
pub struct Group13Var1 {
    pub flags: u8,
}

/// Binary Command - Control Relay Output Block
#[derive(Copy, Clone, Debug, PartialEq, Eq, Structural)]
pub struct Group12Var1 {
    pub code: ControlCode,
    pub count: u8,
    pub on_time: u32,
    pub off_time: u32,
    pub status: CommandStatus,
}

/// Binary Output Event - Output Status With Time
#[derive(Copy, Clone, Debug, PartialEq, Eq, Structural)]
pub struct Group11Var2 {
    pub flags: u8,
    pub time: Timestamp,
}

/// Binary Output Event - Output Status Without Time
#[derive(Copy, Clone, Debug, PartialEq, Eq, Structural)]
pub struct Group11Var1 {
    pub flags: u8,
}

/// Binary Output - Output Status With Flags
#[derive(Copy, Clone, Debug, PartialEq, Eq, Structural)]
pub struct Group10Var2 {
    pub flags: u8,
}

/// Double-bit Binary Input Event - With Relative Time
#[derive(Copy, Clone, Debug, PartialEq, Eq, Structural)]
pub struct Group4Var3 {
    pub flags: u8,
    pub time: u16,
}

/// Double-bit Binary Input Event - With Absolute Time
#[derive(Copy, Clone, Debug, PartialEq, Eq, Structural)]
pub struct Group4Var2 {
    pub flags: u8,
    pub time: Timestamp,
}

/// Double-bit Binary Input Event - Without Time
#[derive(Copy, Clone, Debug, PartialEq, Eq, Structural)]
pub struct Group4Var1 {
    pub flags: u8,
}

/// Double-bit Binary Input - With Flags
#[derive(Copy, Clone, Debug, PartialEq, Eq, Structural)]
pub struct Group3Var2 {
    pub flags: u8,
}

/// Binary Input Event - With Relative Time
#[derive(Copy, Clone, Debug, PartialEq, Eq, Structural)]
pub struct Group2Var3 {
    pub flags: u8,
    pub time: u16,
}

/// Binary Input Event - With Absolute Time
#[derive(Copy, Clone, Debug, PartialEq, Eq, Structural)]
pub struct Group2Var2 {
    pub flags: u8,
    pub time: Timestamp,
}

/// Binary Input Event - Without Time
#[derive(Copy, Clone, Debug, PartialEq, Eq, Structural)]
pub struct Group2Var1 {
    pub flags: u8,
}

/// Binary Input - With Flags
#[derive(Copy, Clone, Debug, PartialEq, Eq, Structural)]
pub struct Group1Var2 {
    pub flags: u8,
}

impl FixedSize for Group52Var2 {
    open spec fn spec_size() -> nat {
        2
    }

    proof fn lemma_size_positive() {
    }

    open spec fn decode(s: Seq<u8>) -> Group52Var2 {
        Group52Var2 {
            time: le_u16(s),
        }
    }

    open spec fn encode(&self) -> Seq<u8> {
        u16_le_bytes(self.time)
    }

    open spec fn canonical(&self) -> bool {
        true
    }

    fn size() -> (n: u8) {
        2
    }

    fn read(cursor: &mut ReadCursor) -> (res: Result<Self, ReadError>) {
        if cursor.len() < 2 {
            return Err(ReadError);
        }
        let ghost s = cursor@;
        let time = cursor.read_u16_le()?;
        proof {
            assert(cursor@ =~= s.skip(2));
        }
        Ok(Group52Var2 { time })
    }

    fn write(&self, cursor: &mut WriteCursor) -> (res: Result<(), WriteError>) {
        if cursor.remaining() < 2 {
            return Err(WriteError);
        }
        let ghost c0 = *cursor;
        let _ = cursor.write_u16_le(self.time);
        proof {
            assert(cursor.buffer() =~= spliced(c0.buffer(), c0.position() as int, self.encode()));
        }
        Ok(())
    }

    proof fn lemma_encode_len(&self) {
    }

    proof fn lemma_decode_prefix(s: Seq<u8>, t: Seq<u8>) {
        assert forall|i: int| 0 <= i < 2 implies s[i] == t[i] by {
            assert(s.take(2)[i] == t.take(2)[i]);
        }
    }

    proof fn lemma_decode_encode(&self) {
        lemma_u16_roundtrip(self.time);
        let e = self.encode();
    }
}

impl FixedSizeVariation for Group52Var2 {
    proof fn lemma_size_bound() {
    }
}

impl FixedSize for Group52Var1 {
    open spec fn spec_size() -> nat {
        2
    }

    proof fn lemma_size_positive() {
    }

    open spec fn decode(s: Seq<u8>) -> Group52Var1 {
        Group52Var1 {
            time: le_u16(s),
        }
    }

    open spec fn encode(&self) -> Seq<u8> {
        u16_le_bytes(self.time)
    }

    open spec fn canonical(&self) -> bool {
        true
    }

    fn size() -> (n: u8) {
        2
    }

    fn read(cursor: &mut ReadCursor) -> (res: Result<Self, ReadError>) {
        if cursor.len() < 2 {
            return Err(ReadError);
        }
        let ghost s = cursor@;
        let time = cursor.read_u16_le()?;
        proof {
            assert(cursor@ =~= s.skip(2));
        }
        Ok(Group52Var1 { time })
    }

    fn write(&self, cursor: &mut WriteCursor) -> (res: Result<(), WriteError>) {
        if cursor.remaining() < 2 {
            return Err(WriteError);
        }
        let ghost c0 = *cursor;
        let _ = cursor.write_u16_le(self.time);
        proof {
            assert(cursor.buffer() =~= spliced(c0.buffer(), c0.position() as int, self.encode()));
        }
        Ok(())
    }

    proof fn lemma_encode_len(&self) {
    }

    proof fn lemma_decode_prefix(s: Seq<u8>, t: Seq<u8>) {
        assert forall|i: int| 0 <= i < 2 implies s[i] == t[i] by {
            assert(s.take(2)[i] == t.take(2)[i]);
        }
    }

    proof fn lemma_decode_encode(&self) {
        lemma_u16_roundtrip(self.time);
        let e = self.encode();
    }
}

impl FixedSizeVariation for Group52Var1 {
    proof fn lemma_size_bound() {
    }
}

impl FixedSize for Group51Var2 {
    open spec fn spec_size() -> nat {
        6
    }

    proof fn lemma_size_positive() {
    }

    open spec fn decode(s: Seq<u8>) -> Group51Var2 {
        Group51Var2 {
            time: Timestamp { value: le_u48(s) },
        }
    }

    open spec fn encode(&self) -> Seq<u8> {
        u48_le_bytes(self.time.value)
    }

    open spec fn canonical(&self) -> bool {
        self.time.value < 0x1_0000_0000_0000
    }

    fn size() -> (n: u8) {
        6
    }

    fn read(cursor: &mut ReadCursor) -> (res: Result<Self, ReadError>) {
        if cursor.len() < 6 {
            return Err(ReadError);
        }
        let ghost s = cursor@;
        let time = Timestamp { value: cursor.read_u48_le()? };
        proof {
            assert(cursor@ =~= s.skip(6));
        }
        Ok(Group51Var2 { time })
    }

    fn write(&self, cursor: &mut WriteCursor) -> (res: Result<(), WriteError>) {
        if cursor.remaining() < 6 {
            return Err(WriteError);
        }
        let ghost c0 = *cursor;
        let _ = cursor.write_u48_le(self.time.value);
        proof {
            assert(cursor.buffer() =~= spliced(c0.buffer(), c0.position() as int, self.encode()));
        }
        Ok(())
    }

    proof fn lemma_encode_len(&self) {
    }

    proof fn lemma_decode_prefix(s: Seq<u8>, t: Seq<u8>) {
        assert forall|i: int| 0 <= i < 6 implies s[i] == t[i] by {
            assert(s.take(6)[i] == t.take(6)[i]);
        }
        lemma_u48_bytes_roundtrip(s);
    }

    proof fn lemma_decode_encode(&self) {
        lemma_u48_roundtrip(self.time.value);
        let e = self.encode();
    }
}

impl FixedSizeVariation for Group51Var2 {
    proof fn lemma_size_bound() {
    }
}

impl FixedSize for Group51Var1 {
    open spec fn spec_size() -> nat {
        6
    }

    proof fn lemma_size_positive() {
    }

    open spec fn decode(s: Seq<u8>) -> Group51Var1 {
        Group51Var1 {
            time: Timestamp { value: le_u48(s) },
        }
    }

    open spec fn encode(&self) -> Seq<u8> {
        u48_le_bytes(self.time.value)
    }

    open spec fn canonical(&self) -> bool {
        self.time.value < 0x1_0000_0000_0000
    }

    fn size() -> (n: u8) {
        6
    }

    fn read(cursor: &mut ReadCursor) -> (res: Result<Self, ReadError>) {
        if cursor.len() < 6 {
            return Err(ReadError);
        }
        let ghost s = cursor@;
        let time = Timestamp { value: cursor.read_u48_le()? };
        proof {
            assert(cursor@ =~= s.skip(6));
        }
        Ok(Group51Var1 { time })
    }

    fn write(&self, cursor: &mut WriteCursor) -> (res: Result<(), WriteError>) {
        if cursor.remaining() < 6 {
            return Err(WriteError);
        }
        let ghost c0 = *cursor;
        let _ = cursor.write_u48_le(self.time.value);
        proof {
            assert(cursor.buffer() =~= spliced(c0.buffer(), c0.position() as int, self.encode()));
        }
        Ok(())
    }

    proof fn lemma_encode_len(&self) {
    }

    proof fn lemma_decode_prefix(s: Seq<u8>, t: Seq<u8>) {
        assert forall|i: int| 0 <= i < 6 implies s[i] == t[i] by {
            assert(s.take(6)[i] == t.take(6)[i]);
        }
        lemma_u48_bytes_roundtrip(s);
    }

    proof fn lemma_decode_encode(&self) {
        lemma_u48_roundtrip(self.time.value);
        let e = self.encode();
    }
}

impl FixedSizeVariation for Group51Var1 {
    proof fn lemma_size_bound() {
    }
}

impl FixedSize for Group50Var4 {
    open spec fn spec_size() -> nat {
        11
    }

    proof fn lemma_size_positive() {
    }

    open spec fn decode(s: Seq<u8>) -> Group50Var4 {
        Group50Var4 {
            time: Timestamp { value: le_u48(s) },
            interval: le_u32(s.skip(6)),
            units: s[10],
        }
    }

    open spec fn encode(&self) -> Seq<u8> {
        u48_le_bytes(self.time.value) + u32_le_bytes(self.interval) + seq![self.units]
    }

    open spec fn canonical(&self) -> bool {
        self.time.value < 0x1_0000_0000_0000
    }

    fn size() -> (n: u8) {
        11
    }

    fn read(cursor: &mut ReadCursor) -> (res: Result<Self, ReadError>) {
        if cursor.len() < 11 {
            return Err(ReadError);
        }
        let ghost s = cursor@;
        let time = Timestamp { value: cursor.read_u48_le()? };
        proof {
            assert(cursor@ =~= s.skip(6));
        }
        let interval = cursor.read_u32_le()?;
        proof {
            assert(cursor@ =~= s.skip(10));
        }
        let units = cursor.read_u8()?;
        proof {
            assert(cursor@ =~= s.skip(11));
        }
        Ok(Group50Var4 { time, interval, units })
    }

    fn write(&self, cursor: &mut WriteCursor) -> (res: Result<(), WriteError>) {
        if cursor.remaining() < 11 {
            return Err(WriteError);
        }
        let ghost c0 = *cursor;
        let _ = cursor.write_u48_le(self.time.value);
        let _ = cursor.write_u32_le(self.interval);
        let _ = cursor.write_u8(self.units);
        proof {
            assert(cursor.buffer() =~= spliced(c0.buffer(), c0.position() as int, self.encode()));
        }
        Ok(())
    }

    proof fn lemma_encode_len(&self) {
    }

    proof fn lemma_decode_prefix(s: Seq<u8>, t: Seq<u8>) {
        assert forall|i: int| 0 <= i < 11 implies s[i] == t[i] by {
            assert(s.take(11)[i] == t.take(11)[i]);
        }
        lemma_u48_bytes_roundtrip(s);
        assert(s.skip(6).take(4) =~= t.skip(6).take(4));
    }

    proof fn lemma_decode_encode(&self) {
        lemma_u48_roundtrip(self.time.value);
        lemma_u32_roundtrip(self.interval);
        let e = self.encode();
        assert(e.skip(6).take(4) =~= u32_le_bytes(self.interval));
        assert(e.skip(10).take(1) =~= seq![self.units]);
    }
}

impl FixedSizeVariation for Group50Var4 {
    proof fn lemma_size_bound() {
    }
}

impl FixedSize for Group50Var3 {
    open spec fn spec_size() -> nat {
        6
    }

    proof fn lemma_size_positive() {
    }

    open spec fn decode(s: Seq<u8>) -> Group50Var3 {
        Group50Var3 {
            time: Timestamp { value: le_u48(s) },
        }
    }

    open spec fn encode(&self) -> Seq<u8> {
        u48_le_bytes(self.time.value)
    }

    open spec fn canonical(&self) -> bool {
        self.time.value < 0x1_0000_0000_0000
    }

    fn size() -> (n: u8) {
        6
    }

    fn read(cursor: &mut ReadCursor) -> (res: Result<Self, ReadError>) {
        if cursor.len() < 6 {
            return Err(ReadError);
        }
        let ghost s = cursor@;
        let time = Timestamp { value: cursor.read_u48_le()? };
        proof {
            assert(cursor@ =~= s.skip(6));
        }
        Ok(Group50Var3 { time })
    }

    fn write(&self, cursor: &mut WriteCursor) -> (res: Result<(), WriteError>) {
        if cursor.remaining() < 6 {
            return Err(WriteError);
        }
        let ghost c0 = *cursor;
        let _ = cursor.write_u48_le(self.time.value);
        proof {
            assert(cursor.buffer() =~= spliced(c0.buffer(), c0.position() as int, self.encode()));
        }
        Ok(())
    }

    proof fn lemma_encode_len(&self) {
    }

    proof fn lemma_decode_prefix(s: Seq<u8>, t: Seq<u8>) {
        assert forall|i: int| 0 <= i < 6 implies s[i] == t[i] by {
            assert(s.take(6)[i] == t.take(6)[i]);
        }
        lemma_u48_bytes_roundtrip(s);
    }

    proof fn lemma_decode_encode(&self) {
        lemma_u48_roundtrip(self.time.value);
        let e = self.encode();
    }
}

impl FixedSizeVariation for Group50Var3 {
    proof fn lemma_size_bound() {
    }
}

impl FixedSize for Group50Var1 {
    open spec fn spec_size() -> nat {
        6
    }

    proof fn lemma_size_positive() {
    }

    open spec fn decode(s: Seq<u8>) -> Group50Var1 {
        Group50Var1 {
            time: Timestamp { value: le_u48(s) },
        }
    }

    open spec fn encode(&self) -> Seq<u8> {
        u48_le_bytes(self.time.value)
    }

    open spec fn canonical(&self) -> bool {
        self.time.value < 0x1_0000_0000_0000
    }

    fn size() -> (n: u8) {
        6
    }

    fn read(cursor: &mut ReadCursor) -> (res: Result<Self, ReadError>) {
        if cursor.len() < 6 {
            return Err(ReadError);
        }
        let ghost s = cursor@;
        let time = Timestamp { value: cursor.read_u48_le()? };
        proof {
            assert(cursor@ =~= s.skip(6));
        }
        Ok(Group50Var1 { time })
    }

    fn write(&self, cursor: &mut WriteCursor) -> (res: Result<(), WriteError>) {
        if cursor.remaining() < 6 {
            return Err(WriteError);
        }
        let ghost c0 = *cursor;
        let _ = cursor.write_u48_le(self.time.value);
        proof {
            assert(cursor.buffer() =~= spliced(c0.buffer(), c0.position() as int, self.encode()));
        }
        Ok(())
    }

    proof fn lemma_encode_len(&self) {
    }

    proof fn lemma_decode_prefix(s: Seq<u8>, t: Seq<u8>) {
        assert forall|i: int| 0 <= i < 6 implies s[i] == t[i] by {
            assert(s.take(6)[i] == t.take(6)[i]);
        }
        lemma_u48_bytes_roundtrip(s);
    }

    proof fn lemma_decode_encode(&self) {
        lemma_u48_roundtrip(self.time.value);
        let e = self.encode();
    }
}

impl FixedSizeVariation for Group50Var1 {
    proof fn lemma_size_bound() {
    }
}

impl FixedSize for Group43Var8 {
    open spec fn spec_size() -> nat {
        15
    }

    proof fn lemma_size_positive() {
    }

    open spec fn decode(s: Seq<u8>) -> Group43Var8 {
        Group43Var8 {
            status: CommandStatus::from_code_spec(s[0]),
            value: le_u64(s.skip(1)),
            time: Timestamp { value: le_u48(s.skip(9)) },
        }
    }

    open spec fn encode(&self) -> Seq<u8> {
        seq![self.status.code()] + u64_le_bytes(self.value) + u48_le_bytes(self.time.value)
    }

    open spec fn canonical(&self) -> bool {
        self.status.canonical() && self.time.value < 0x1_0000_0000_0000
    }

    fn size() -> (n: u8) {
        15
    }

    fn read(cursor: &mut ReadCursor) -> (res: Result<Self, ReadError>) {
        if cursor.len() < 15 {
            return Err(ReadError);
        }
        let ghost s = cursor@;
        let status = CommandStatus::from(cursor.read_u8()?);
        proof {
            assert(cursor@ =~= s.skip(1));
        }
        let value = cursor.read_u64_le()?;
        proof {
            assert(cursor@ =~= s.skip(9));
        }
        let time = Timestamp { value: cursor.read_u48_le()? };
        proof {
            assert(cursor@ =~= s.skip(15));
        }
        Ok(Group43Var8 { status, value, time })
    }

    fn write(&self, cursor: &mut WriteCursor) -> (res: Result<(), WriteError>) {
        if cursor.remaining() < 15 {
            return Err(WriteError);
        }
        let ghost c0 = *cursor;
        let _ = cursor.write_u8(self.status.as_u8());
        let _ = cursor.write_u64_le(self.value);
        let _ = cursor.write_u48_le(self.time.value);
        proof {
            assert(cursor.buffer() =~= spliced(c0.buffer(), c0.position() as int, self.encode()));
        }
        Ok(())
    }

    proof fn lemma_encode_len(&self) {
    }

    proof fn lemma_decode_prefix(s: Seq<u8>, t: Seq<u8>) {
        assert forall|i: int| 0 <= i < 15 implies s[i] == t[i] by {
            assert(s.take(15)[i] == t.take(15)[i]);
        }
        CommandStatus::lemma_from_code_spec(s[0]);
        assert(s.skip(1).take(8) =~= t.skip(1).take(8));
        assert(s.skip(9).take(6) =~= t.skip(9).take(6));
        lemma_u48_bytes_roundtrip(s.skip(9));
    }

    proof fn lemma_decode_encode(&self) {
        self.status.lemma_canonical_roundtrip();
        lemma_u64_roundtrip(self.value);
        lemma_u48_roundtrip(self.time.value);
        let e = self.encode();
        assert(e.skip(1).take(8) =~= u64_le_bytes(self.value));
        assert(e.skip(9).take(6) =~= u48_le_bytes(self.time.value));
    }
}

impl FixedSizeVariation for Group43Var8 {
    proof fn lemma_size_bound() {
    }
}

impl FixedSize for Group43Var7 {
    open spec fn spec_size() -> nat {
        11
    }

    proof fn lemma_size_positive() {
    }

    open spec fn decode(s: Seq<u8>) -> Group43Var7 {
        Group43Var7 {
            status: CommandStatus::from_code_spec(s[0]),
            value: le_u32(s.skip(1)),
            time: Timestamp { value: le_u48(s.skip(5)) },
        }
    }

    open spec fn encode(&self) -> Seq<u8> {
        seq![self.status.code()] + u32_le_bytes(self.value) + u48_le_bytes(self.time.value)
    }

    open spec fn canonical(&self) -> bool {
        self.status.canonical() && self.time.value < 0x1_0000_0000_0000
    }

    fn size() -> (n: u8) {
        11
    }

    fn read(cursor: &mut ReadCursor) -> (res: Result<Self, ReadError>) {
        if cursor.len() < 11 {
            return Err(ReadError);
        }
        let ghost s = cursor@;
        let status = CommandStatus::from(cursor.read_u8()?);
        proof {
            assert(cursor@ =~= s.skip(1));
        }
        let value = cursor.read_u32_le()?;
        proof {
            assert(cursor@ =~= s.skip(5));
        }
        let time = Timestamp { value: cursor.read_u48_le()? };
        proof {
            assert(cursor@ =~= s.skip(11));
        }
        Ok(Group43Var7 { status, value, time })
    }

    fn write(&self, cursor: &mut WriteCursor) -> (res: Result<(), WriteError>) {
        if cursor.remaining() < 11 {
            return Err(WriteError);
        }
        let ghost c0 = *cursor;
        let _ = cursor.write_u8(self.status.as_u8());
        let _ = cursor.write_u32_le(self.value);
        let _ = cursor.write_u48_le(self.time.value);
        proof {
            assert(cursor.buffer() =~= spliced(c0.buffer(), c0.position() as int, self.encode()));
        }
        Ok(())
    }

    proof fn lemma_encode_len(&self) {
    }

    proof fn lemma_decode_prefix(s: Seq<u8>, t: Seq<u8>) {
        assert forall|i: int| 0 <= i < 11 implies s[i] == t[i] by {
            assert(s.take(11)[i] == t.take(11)[i]);
        }
        CommandStatus::lemma_from_code_spec(s[0]);
        assert(s.skip(1).take(4) =~= t.skip(1).take(4));
        assert(s.skip(5).take(6) =~= t.skip(5).take(6));
        lemma_u48_bytes_roundtrip(s.skip(5));
    }

    proof fn lemma_decode_encode(&self) {
        self.status.lemma_canonical_roundtrip();
        lemma_u32_roundtrip(self.value);
        lemma_u48_roundtrip(self.time.value);
        let e = self.encode();
        assert(e.skip(1).take(4) =~= u32_le_bytes(self.value));
        assert(e.skip(5).take(6) =~= u48_le_bytes(self.time.value));
    }
}

impl FixedSizeVariation for Group43Var7 {
    proof fn lemma_size_bound() {
    }
}

impl FixedSize for Group43Var6 {
    open spec fn spec_size() -> nat {
        9
    }

    proof fn lemma_size_positive() {
    }

    open spec fn decode(s: Seq<u8>) -> Group43Var6 {
        Group43Var6 {
            status: CommandStatus::from_code_spec(s[0]),
            value: le_u64(s.skip(1)),
        }
    }

    open spec fn encode(&self) -> Seq<u8> {
        seq![self.status.code()] + u64_le_bytes(self.value)
    }

    open spec fn canonical(&self) -> bool {
        self.status.canonical()
    }

    fn size() -> (n: u8) {
        9
    }

    fn read(cursor: &mut ReadCursor) -> (res: Result<Self, ReadError>) {
        if cursor.len() < 9 {
            return Err(ReadError);
        }
        let ghost s = cursor@;
        let status = CommandStatus::from(cursor.read_u8()?);
        proof {
            assert(cursor@ =~= s.skip(1));
        }
        let value = cursor.read_u64_le()?;
        proof {
            assert(cursor@ =~= s.skip(9));
        }
        Ok(Group43Var6 { status, value })
    }

    fn write(&self, cursor: &mut WriteCursor) -> (res: Result<(), WriteError>) {
        if cursor.remaining() < 9 {
            return Err(WriteError);
        }
        let ghost c0 = *cursor;
        let _ = cursor.write_u8(self.status.as_u8());
        let _ = cursor.write_u64_le(self.value);
        proof {
            assert(cursor.buffer() =~= spliced(c0.buffer(), c0.position() as int, self.encode()));
        }
        Ok(())
    }

    proof fn lemma_encode_len(&self) {
    }

    proof fn lemma_decode_prefix(s: Seq<u8>, t: Seq<u8>) {
        assert forall|i: int| 0 <= i < 9 implies s[i] == t[i] by {
            assert(s.take(9)[i] == t.take(9)[i]);
        }
        CommandStatus::lemma_from_code_spec(s[0]);
        assert(s.skip(1).take(8) =~= t.skip(1).take(8));
    }

    proof fn lemma_decode_encode(&self) {
        self.status.lemma_canonical_roundtrip();
        lemma_u64_roundtrip(self.value);
        let e = self.encode();
        assert(e.skip(1).take(8) =~= u64_le_bytes(self.value));
    }
}

impl FixedSizeVariation for Group43Var6 {
    proof fn lemma_size_bound() {
    }
}

impl FixedSize for Group43Var5 {
    open spec fn spec_size() -> nat {
        5
    }

    proof fn lemma_size_positive() {
    }

    open spec fn decode(s: Seq<u8>) -> Group43Var5 {
        Group43Var5 {
            status: CommandStatus::from_code_spec(s[0]),
            value: le_u32(s.skip(1)),
        }
    }

    open spec fn encode(&self) -> Seq<u8> {
        seq![self.status.code()] + u32_le_bytes(self.value)
    }

    open spec fn canonical(&self) -> bool {
        self.status.canonical()
    }

    fn size() -> (n: u8) {
        5
    }

    fn read(cursor: &mut ReadCursor) -> (res: Result<Self, ReadError>) {
        if cursor.len() < 5 {
            return Err(ReadError);
        }
        let ghost s = cursor@;
        let status = CommandStatus::from(cursor.read_u8()?);
        proof {
            assert(cursor@ =~= s.skip(1));
        }
        let value = cursor.read_u32_le()?;
        proof {
            assert(cursor@ =~= s.skip(5));
        }
        Ok(Group43Var5 { status, value })
    }

    fn write(&self, cursor: &mut WriteCursor) -> (res: Result<(), WriteError>) {
        if cursor.remaining() < 5 {
            return Err(WriteError);
        }
        let ghost c0 = *cursor;
        let _ = cursor.write_u8(self.status.as_u8());
        let _ = cursor.write_u32_le(self.value);
        proof {
            assert(cursor.buffer() =~= spliced(c0.buffer(), c0.position() as int, self.encode()));
        }
        Ok(())
    }

    proof fn lemma_encode_len(&self) {
    }

    proof fn lemma_decode_prefix(s: Seq<u8>, t: Seq<u8>) {
        assert forall|i: int| 0 <= i < 5 implies s[i] == t[i] by {
            assert(s.take(5)[i] == t.take(5)[i]);
        }
        CommandStatus::lemma_from_code_spec(s[0]);
        assert(s.skip(1).take(4) =~= t.skip(1).take(4));
    }

    proof fn lemma_decode_encode(&self) {
        self.status.lemma_canonical_roundtrip();
        lemma_u32_roundtrip(self.value);
        let e = self.encode();
        assert(e.skip(1).take(4) =~= u32_le_bytes(self.value));
    }
}

impl FixedSizeVariation for Group43Var5 {
    proof fn lemma_size_bound() {
    }
}

impl FixedSize for Group43Var4 {
    open spec fn spec_size() -> nat {
        9
    }

    proof fn lemma_size_positive() {
    }

    open spec fn decode(s: Seq<u8>) -> Group43Var4 {
        Group43Var4 {
            status: CommandStatus::from_code_spec(s[0]),
            value: u16_to_i16(le_u16(s.skip(1))),
            time: Timestamp { value: le_u48(s.skip(3)) },
        }
    }

    open spec fn encode(&self) -> Seq<u8> {
        seq![self.status.code()] + u16_le_bytes(i16_to_u16(self.value)) + u48_le_bytes(self.time.value)
    }

    open spec fn canonical(&self) -> bool {
        self.status.canonical() && self.time.value < 0x1_0000_0000_0000
    }

    fn size() -> (n: u8) {
        9
    }

    fn read(cursor: &mut ReadCursor) -> (res: Result<Self, ReadError>) {
        if cursor.len() < 9 {
            return Err(ReadError);
        }
        let ghost s = cursor@;
        let status = CommandStatus::from(cursor.read_u8()?);
        proof {
            assert(cursor@ =~= s.skip(1));
        }
        let value = cursor.read_i16_le()?;
        proof {
            assert(cursor@ =~= s.skip(3));
        }
        let time = Timestamp { value: cursor.read_u48_le()? };
        proof {
            assert(cursor@ =~= s.skip(9));
        }
        Ok(Group43Var4 { status, value, time })
    }

    fn write(&self, cursor: &mut WriteCursor) -> (res: Result<(), WriteError>) {
        if cursor.remaining() < 9 {
            return Err(WriteError);
        }
        let ghost c0 = *cursor;
        let _ = cursor.write_u8(self.status.as_u8());
        let _ = cursor.write_i16_le(self.value);
        let _ = cursor.write_u48_le(self.time.value);
        proof {
            assert(cursor.buffer() =~= spliced(c0.buffer(), c0.position() as int, self.encode()));
        }
        Ok(())
    }

    proof fn lemma_encode_len(&self) {
    }

    proof fn lemma_decode_prefix(s: Seq<u8>, t: Seq<u8>) {
        assert forall|i: int| 0 <= i < 9 implies s[i] == t[i] by {
            assert(s.take(9)[i] == t.take(9)[i]);
        }
        CommandStatus::lemma_from_code_spec(s[0]);
        assert(s.skip(1).take(2) =~= t.skip(1).take(2));
        assert(s.skip(3).take(6) =~= t.skip(3).take(6));
        lemma_u48_bytes_roundtrip(s.skip(3));
    }

    proof fn lemma_decode_encode(&self) {
        self.status.lemma_canonical_roundtrip();
        lemma_u16_roundtrip(i16_to_u16(self.value));
        lemma_i16_roundtrip(self.value);
        lemma_u48_roundtrip(self.time.value);
        let e = self.encode();
        assert(e.skip(1).take(2) =~= u16_le_bytes(i16_to_u16(self.value)));
        assert(e.skip(3).take(6) =~= u48_le_bytes(self.time.value));
    }
}

impl FixedSizeVariation for Group43Var4 {
    proof fn lemma_size_bound() {
    }
}

impl FixedSize for Group43Var3 {
    open spec fn spec_size() -> nat {
        11
    }

    proof fn lemma_size_positive() {
    }

    open spec fn decode(s: Seq<u8>) -> Group43Var3 {
        Group43Var3 {
            status: CommandStatus::from_code_spec(s[0]),
            value: u32_to_i32(le_u32(s.skip(1))),
            time: Timestamp { value: le_u48(s.skip(5)) },
        }
    }

    open spec fn encode(&self) -> Seq<u8> {
        seq![self.status.code()] + u32_le_bytes(i32_to_u32(self.value)) + u48_le_bytes(self.time.value)
    }

    open spec fn canonical(&self) -> bool {
        self.status.canonical() && self.time.value < 0x1_0000_0000_0000
    }

    fn size() -> (n: u8) {
        11
    }

    fn read(cursor: &mut ReadCursor) -> (res: Result<Self, ReadError>) {
        if cursor.len() < 11 {
            return Err(ReadError);
        }
        let ghost s = cursor@;
        let status = CommandStatus::from(cursor.read_u8()?);
        proof {
            assert(cursor@ =~= s.skip(1));
        }
        let value = cursor.read_i32_le()?;
        proof {
            assert(cursor@ =~= s.skip(5));
        }
        let time = Timestamp { value: cursor.read_u48_le()? };
        proof {
            assert(cursor@ =~= s.skip(11));
        }
        Ok(Group43Var3 { status, value, time })
    }

    fn write(&self, cursor: &mut WriteCursor) -> (res: Result<(), WriteError>) {
        if cursor.remaining() < 11 {
            return Err(WriteError);
        }
        let ghost c0 = *cursor;
        let _ = cursor.write_u8(self.status.as_u8());
        let _ = cursor.write_i32_le(self.value);
        let _ = cursor.write_u48_le(self.time.value);
        proof {
            assert(cursor.buffer() =~= spliced(c0.buffer(), c0.position() as int, self.encode()));
        }
        Ok(())
    }

    proof fn lemma_encode_len(&self) {
    }

    proof fn lemma_decode_prefix(s: Seq<u8>, t: Seq<u8>) {
        assert forall|i: int| 0 <= i < 11 implies s[i] == t[i] by {
            assert(s.take(11)[i] == t.take(11)[i]);
        }
        CommandStatus::lemma_from_code_spec(s[0]);
        assert(s.skip(1).take(4) =~= t.skip(1).take(4));
        assert(s.skip(5).take(6) =~= t.skip(5).take(6));
        lemma_u48_bytes_roundtrip(s.skip(5));
    }

    proof fn lemma_decode_encode(&self) {
        self.status.lemma_canonical_roundtrip();
        lemma_u32_roundtrip(i32_to_u32(self.value));
        lemma_i32_roundtrip(self.value);
        lemma_u48_roundtrip(self.time.value);
        let e = self.encode();
        assert(e.skip(1).take(4) =~= u32_le_bytes(i32_to_u32(self.value)));
        assert(e.skip(5).take(6) =~= u48_le_bytes(self.time.value));
    }
}

impl FixedSizeVariation for Group43Var3 {
    proof fn lemma_size_bound() {
    }
}

impl FixedSize for Group43Var2 {
    open spec fn spec_size() -> nat {
        3
    }

    proof fn lemma_size_positive() {
    }

    open spec fn decode(s: Seq<u8>) -> Group43Var2 {
        Group43Var2 {
            status: CommandStatus::from_code_spec(s[0]),
            value: u16_to_i16(le_u16(s.skip(1))),
        }
    }

    open spec fn encode(&self) -> Seq<u8> {
        seq![self.status.code()] + u16_le_bytes(i16_to_u16(self.value))
    }

    open spec fn canonical(&self) -> bool {
        self.status.canonical()
    }

    fn size() -> (n: u8) {
        3
    }

    fn read(cursor: &mut ReadCursor) -> (res: Result<Self, ReadError>) {
        if cursor.len() < 3 {
            return Err(ReadError);
        }
        let ghost s = cursor@;
        let status = CommandStatus::from(cursor.read_u8()?);
        proof {
            assert(cursor@ =~= s.skip(1));
        }
        let value = cursor.read_i16_le()?;
        proof {
            assert(cursor@ =~= s.skip(3));
        }
        Ok(Group43Var2 { status, value })
    }

    fn write(&self, cursor: &mut WriteCursor) -> (res: Result<(), WriteError>) {
        if cursor.remaining() < 3 {
            return Err(WriteError);
        }
        let ghost c0 = *cursor;
        let _ = cursor.write_u8(self.status.as_u8());
        let _ = cursor.write_i16_le(self.value);
        proof {
            assert(cursor.buffer() =~= spliced(c0.buffer(), c0.position() as int, self.encode()));
        }
        Ok(())
    }

    proof fn lemma_encode_len(&self) {
    }

    proof fn lemma_decode_prefix(s: Seq<u8>, t: Seq<u8>) {
        assert forall|i: int| 0 <= i < 3 implies s[i] == t[i] by {
            assert(s.take(3)[i] == t.take(3)[i]);
        }
        CommandStatus::lemma_from_code_spec(s[0]);
        assert(s.skip(1).take(2) =~= t.skip(1).take(2));
    }

    proof fn lemma_decode_encode(&self) {
        self.status.lemma_canonical_roundtrip();
        lemma_u16_roundtrip(i16_to_u16(self.value));
        lemma_i16_roundtrip(self.value);
        let e = self.encode();
        assert(e.skip(1).take(2) =~= u16_le_bytes(i16_to_u16(self.value)));
    }
}

impl FixedSizeVariation for Group43Var2 {
    proof fn lemma_size_bound() {
    }
}

impl FixedSize for Group43Var1 {
    open spec fn spec_size() -> nat {
        5
    }

    proof fn lemma_size_positive() {
    }

    open spec fn decode(s: Seq<u8>) -> Group43Var1 {
        Group43Var1 {
            status: CommandStatus::from_code_spec(s[0]),
            value: u32_to_i32(le_u32(s.skip(1))),
        }
    }

    open spec fn encode(&self) -> Seq<u8> {
        seq![self.status.code()] + u32_le_bytes(i32_to_u32(self.value))
    }

    open spec fn canonical(&self) -> bool {
        self.status.canonical()
    }

    fn size() -> (n: u8) {
        5
    }

    fn read(cursor: &mut ReadCursor) -> (res: Result<Self, ReadError>) {
        if cursor.len() < 5 {
            return Err(ReadError);
        }
        let ghost s = cursor@;
        let status = CommandStatus::from(cursor.read_u8()?);
        proof {
            assert(cursor@ =~= s.skip(1));
        }
        let value = cursor.read_i32_le()?;
        proof {
            assert(cursor@ =~= s.skip(5));
        }
        Ok(Group43Var1 { status, value })
    }

    fn write(&self, cursor: &mut WriteCursor) -> (res: Result<(), WriteError>) {
        if cursor.remaining() < 5 {
            return Err(WriteError);
        }
        let ghost c0 = *cursor;
        let _ = cursor.write_u8(self.status.as_u8());
        let _ = cursor.write_i32_le(self.value);
        proof {
            assert(cursor.buffer() =~= spliced(c0.buffer(), c0.position() as int, self.encode()));
        }
        Ok(())
    }

    proof fn lemma_encode_len(&self) {
    }

    proof fn lemma_decode_prefix(s: Seq<u8>, t: Seq<u8>) {
        assert forall|i: int| 0 <= i < 5 implies s[i] == t[i] by {
            assert(s.take(5)[i] == t.take(5)[i]);
        }
        CommandStatus::lemma_from_code_spec(s[0]);
        assert(s.skip(1).take(4) =~= t.skip(1).take(4));
    }

    proof fn lemma_decode_encode(&self) {
        self.status.lemma_canonical_roundtrip();
        lemma_u32_roundtrip(i32_to_u32(self.value));
        lemma_i32_roundtrip(self.value);
        let e = self.encode();
        assert(e.skip(1).take(4) =~= u32_le_bytes(i32_to_u32(self.value)));
    }
}

impl FixedSizeVariation for Group43Var1 {
    proof fn lemma_size_bound() {
    }
}

impl FixedSize for Group42Var8 {
    open spec fn spec_size() -> nat {
        15
    }

    proof fn lemma_size_positive() {
    }

    open spec fn decode(s: Seq<u8>) -> Group42Var8 {
        Group42Var8 {
            flags: s[0],
            value: le_u64(s.skip(1)),
            time: Timestamp { value: le_u48(s.skip(9)) },
        }
    }

    open spec fn encode(&self) -> Seq<u8> {
        seq![self.flags] + u64_le_bytes(self.value) + u48_le_bytes(self.time.value)
    }

    open spec fn canonical(&self) -> bool {
        self.time.value < 0x1_0000_0000_0000
    }

    fn size() -> (n: u8) {
        15
    }

    fn read(cursor: &mut ReadCursor) -> (res: Result<Self, ReadError>) {
        if cursor.len() < 15 {
            return Err(ReadError);
        }
        let ghost s = cursor@;
        let flags = cursor.read_u8()?;
        proof {
            assert(cursor@ =~= s.skip(1));
        }
        let value = cursor.read_u64_le()?;
        proof {
            assert(cursor@ =~= s.skip(9));
        }
        let time = Timestamp { value: cursor.read_u48_le()? };
        proof {
            assert(cursor@ =~= s.skip(15));
        }
        Ok(Group42Var8 { flags, value, time })
    }

    fn write(&self, cursor: &mut WriteCursor) -> (res: Result<(), WriteError>) {
        if cursor.remaining() < 15 {
            return Err(WriteError);
        }
        let ghost c0 = *cursor;
        let _ = cursor.write_u8(self.flags);
        let _ = cursor.write_u64_le(self.value);
        let _ = cursor.write_u48_le(self.time.value);
        proof {
            assert(cursor.buffer() =~= spliced(c0.buffer(), c0.position() as int, self.encode()));
        }
        Ok(())
    }

    proof fn lemma_encode_len(&self) {
    }

    proof fn lemma_decode_prefix(s: Seq<u8>, t: Seq<u8>) {
        assert forall|i: int| 0 <= i < 15 implies s[i] == t[i] by {
            assert(s.take(15)[i] == t.take(15)[i]);
        }
        assert(s.skip(1).take(8) =~= t.skip(1).take(8));
        assert(s.skip(9).take(6) =~= t.skip(9).take(6));
        lemma_u48_bytes_roundtrip(s.skip(9));
    }

    proof fn lemma_decode_encode(&self) {
        lemma_u64_roundtrip(self.value);
        lemma_u48_roundtrip(self.time.value);
        let e = self.encode();
        assert(e.skip(1).take(8) =~= u64_le_bytes(self.value));
        assert(e.skip(9).take(6) =~= u48_le_bytes(self.time.value));
    }
}

impl FixedSizeVariation for Group42Var8 {
    proof fn lemma_size_bound() {
    }
}

impl FixedSize for Group42Var7 {
    open spec fn spec_size() -> nat {
        11
    }

    proof fn lemma_size_positive() {
    }

    open spec fn decode(s: Seq<u8>) -> Group42Var7 {
        Group42Var7 {
            flags: s[0],
            value: le_u32(s.skip(1)),
            time: Timestamp { value: le_u48(s.skip(5)) },
        }
    }

    open spec fn encode(&self) -> Seq<u8> {
        seq![self.flags] + u32_le_bytes(self.value) + u48_le_bytes(self.time.value)
    }

    open spec fn canonical(&self) -> bool {
        self.time.value < 0x1_0000_0000_0000
    }

    fn size() -> (n: u8) {
        11
    }

    fn read(cursor: &mut ReadCursor) -> (res: Result<Self, ReadError>) {
        if cursor.len() < 11 {
            return Err(ReadError);
        }
        let ghost s = cursor@;
        let flags = cursor.read_u8()?;
        proof {
            assert(cursor@ =~= s.skip(1));
        }
        let value = cursor.read_u32_le()?;
        proof {
            assert(cursor@ =~= s.skip(5));
        }
        let time = Timestamp { value: cursor.read_u48_le()? };
        proof {
            assert(cursor@ =~= s.skip(11));
        }
        Ok(Group42Var7 { flags, value, time })
    }

    fn write(&self, cursor: &mut WriteCursor) -> (res: Result<(), WriteError>) {
        if cursor.remaining() < 11 {
            return Err(WriteError);
        }
        let ghost c0 = *cursor;
        let _ = cursor.write_u8(self.flags);
        let _ = cursor.write_u32_le(self.value);
        let _ = cursor.write_u48_le(self.time.value);
        proof {
            assert(cursor.buffer() =~= spliced(c0.buffer(), c0.position() as int, self.encode()));
        }
        Ok(())
    }

    proof fn lemma_encode_len(&self) {
    }

    proof fn lemma_decode_prefix(s: Seq<u8>, t: Seq<u8>) {
        assert forall|i: int| 0 <= i < 11 implies s[i] == t[i] by {
            assert(s.take(11)[i] == t.take(11)[i]);
        }
        assert(s.skip(1).take(4) =~= t.skip(1).take(4));
        assert(s.skip(5).take(6) =~= t.skip(5).take(6));
        lemma_u48_bytes_roundtrip(s.skip(5));
    }

    proof fn lemma_decode_encode(&self) {
        lemma_u32_roundtrip(self.value);
        lemma_u48_roundtrip(self.time.value);
        let e = self.encode();
        assert(e.skip(1).take(4) =~= u32_le_bytes(self.value));
        assert(e.skip(5).take(6) =~= u48_le_bytes(self.time.value));
    }
}

impl FixedSizeVariation for Group42Var7 {
    proof fn lemma_size_bound() {
    }
}

impl FixedSize for Group42Var6 {
    open spec fn spec_size() -> nat {
        9
    }

    proof fn lemma_size_positive() {
    }

    open spec fn decode(s: Seq<u8>) -> Group42Var6 {
        Group42Var6 {
            flags: s[0],
            value: le_u64(s.skip(1)),
        }
    }

    open spec fn encode(&self) -> Seq<u8> {
        seq![self.flags] + u64_le_bytes(self.value)
    }

    open spec fn canonical(&self) -> bool {
        true
    }

    fn size() -> (n: u8) {
        9
    }

    fn read(cursor: &mut ReadCursor) -> (res: Result<Self, ReadError>) {
        if cursor.len() < 9 {
            return Err(ReadError);
        }
        let ghost s = cursor@;
        let flags = cursor.read_u8()?;
        proof {
            assert(cursor@ =~= s.skip(1));
        }
        let value = cursor.read_u64_le()?;
        proof {
            assert(cursor@ =~= s.skip(9));
        }
        Ok(Group42Var6 { flags, value })
    }

    fn write(&self, cursor: &mut WriteCursor) -> (res: Result<(), WriteError>) {
        if cursor.remaining() < 9 {
            return Err(WriteError);
        }
        let ghost c0 = *cursor;
        let _ = cursor.write_u8(self.flags);
        let _ = cursor.write_u64_le(self.value);
        proof {
            assert(cursor.buffer() =~= spliced(c0.buffer(), c0.position() as int, self.encode()));
        }
        Ok(())
    }

    proof fn lemma_encode_len(&self) {
    }

    proof fn lemma_decode_prefix(s: Seq<u8>, t: Seq<u8>) {
        assert forall|i: int| 0 <= i < 9 implies s[i] == t[i] by {
            assert(s.take(9)[i] == t.take(9)[i]);
        }
        assert(s.skip(1).take(8) =~= t.skip(1).take(8));
    }

    proof fn lemma_decode_encode(&self) {
        lemma_u64_roundtrip(self.value);
        let e = self.encode();
        assert(e.skip(1).take(8) =~= u64_le_bytes(self.value));
    }
}

impl FixedSizeVariation for Group42Var6 {
    proof fn lemma_size_bound() {
    }
}

impl FixedSize for Group42Var5 {
    open spec fn spec_size() -> nat {
        5
    }

    proof fn lemma_size_positive() {
    }

    open spec fn decode(s: Seq<u8>) -> Group42Var5 {
        Group42Var5 {
            flags: s[0],
            value: le_u32(s.skip(1)),
        }
    }

    open spec fn encode(&self) -> Seq<u8> {
        seq![self.flags] + u32_le_bytes(self.value)
    }

    open spec fn canonical(&self) -> bool {
        true
    }

    fn size() -> (n: u8) {
        5
    }

    fn read(cursor: &mut ReadCursor) -> (res: Result<Self, ReadError>) {
        if cursor.len() < 5 {
            return Err(ReadError);
        }
        let ghost s = cursor@;
        let flags = cursor.read_u8()?;
        proof {
            assert(cursor@ =~= s.skip(1));
        }
        let value = cursor.read_u32_le()?;
        proof {
            assert(cursor@ =~= s.skip(5));
        }
        Ok(Group42Var5 { flags, value })
    }

    fn write(&self, cursor: &mut WriteCursor) -> (res: Result<(), WriteError>) {
        if cursor.remaining() < 5 {
            return Err(WriteError);
        }
        let ghost c0 = *cursor;
        let _ = cursor.write_u8(self.flags);
        let _ = cursor.write_u32_le(self.value);
        proof {
            assert(cursor.buffer() =~= spliced(c0.buffer(), c0.position() as int, self.encode()));
        }
        Ok(())
    }

    proof fn lemma_encode_len(&self) {
    }

    proof fn lemma_decode_prefix(s: Seq<u8>, t: Seq<u8>) {
        assert forall|i: int| 0 <= i < 5 implies s[i] == t[i] by {
            assert(s.take(5)[i] == t.take(5)[i]);
        }
        assert(s.skip(1).take(4) =~= t.skip(1).take(4));
    }

    proof fn lemma_decode_encode(&self) {
        lemma_u32_roundtrip(self.value);
        let e = self.encode();
        assert(e.skip(1).take(4) =~= u32_le_bytes(self.value));
    }
}

impl FixedSizeVariation for Group42Var5 {
    proof fn lemma_size_bound() {
    }
}

impl FixedSize for Group42Var4 {
    open spec fn spec_size() -> nat {
        9
    }

    proof fn lemma_size_positive() {
    }

    open spec fn decode(s: Seq<u8>) -> Group42Var4 {
        Group42Var4 {
            flags: s[0],
            value: u16_to_i16(le_u16(s.skip(1))),
            time: Timestamp { value: le_u48(s.skip(3)) },
        }
    }

    open spec fn encode(&self) -> Seq<u8> {
        seq![self.flags] + u16_le_bytes(i16_to_u16(self.value)) + u48_le_bytes(self.time.value)
    }

    open spec fn canonical(&self) -> bool {
        self.time.value < 0x1_0000_0000_0000
    }

    fn size() -> (n: u8) {
        9
    }

    fn read(cursor: &mut ReadCursor) -> (res: Result<Self, ReadError>) {
        if cursor.len() < 9 {
            return Err(ReadError);
        }
        let ghost s = cursor@;
        let flags = cursor.read_u8()?;
        proof {
            assert(cursor@ =~= s.skip(1));
        }
        let value = cursor.read_i16_le()?;
        proof {
            assert(cursor@ =~= s.skip(3));
        }
        let time = Timestamp { value: cursor.read_u48_le()? };
        proof {
            assert(cursor@ =~= s.skip(9));
        }
        Ok(Group42Var4 { flags, value, time })
    }

    fn write(&self, cursor: &mut WriteCursor) -> (res: Result<(), WriteError>) {
        if cursor.remaining() < 9 {
            return Err(WriteError);
        }
        let ghost c0 = *cursor;
        let _ = cursor.write_u8(self.flags);
        let _ = cursor.write_i16_le(self.value);
        let _ = cursor.write_u48_le(self.time.value);
        proof {
            assert(cursor.buffer() =~= spliced(c0.buffer(), c0.position() as int, self.encode()));
        }
        Ok(())
    }

    proof fn lemma_encode_len(&self) {
    }

    proof fn lemma_decode_prefix(s: Seq<u8>, t: Seq<u8>) {
        assert forall|i: int| 0 <= i < 9 implies s[i] == t[i] by {
            assert(s.take(9)[i] == t.take(9)[i]);
        }
        assert(s.skip(1).take(2) =~= t.skip(1).take(2));
        assert(s.skip(3).take(6) =~= t.skip(3).take(6));
        lemma_u48_bytes_roundtrip(s.skip(3));
    }

    proof fn lemma_decode_encode(&self) {
        lemma_u16_roundtrip(i16_to_u16(self.value));
        lemma_i16_roundtrip(self.value);
        lemma_u48_roundtrip(self.time.value);
        let e = self.encode();
        assert(e.skip(1).take(2) =~= u16_le_bytes(i16_to_u16(self.value)));
        assert(e.skip(3).take(6) =~= u48_le_bytes(self.time.value));
    }
}

impl FixedSizeVariation for Group42Var4 {
    proof fn lemma_size_bound() {
    }
}

impl FixedSize for Group42Var3 {
    open spec fn spec_size() -> nat {
        11
    }

    proof fn lemma_size_positive() {
    }

    open spec fn decode(s: Seq<u8>) -> Group42Var3 {
        Group42Var3 {
            flags: s[0],
            value: u32_to_i32(le_u32(s.skip(1))),
            time: Timestamp { value: le_u48(s.skip(5)) },
        }
    }

    open spec fn encode(&self) -> Seq<u8> {
        seq![self.flags] + u32_le_bytes(i32_to_u32(self.value)) + u48_le_bytes(self.time.value)
    }

    open spec fn canonical(&self) -> bool {
        self.time.value < 0x1_0000_0000_0000
    }

    fn size() -> (n: u8) {
        11
    }

    fn read(cursor: &mut ReadCursor) -> (res: Result<Self, ReadError>) {
        if cursor.len() < 11 {
            return Err(ReadError);
        }
        let ghost s = cursor@;
        let flags = cursor.read_u8()?;
        proof {
            assert(cursor@ =~= s.skip(1));
        }
        let value = cursor.read_i32_le()?;
        proof {
            assert(cursor@ =~= s.skip(5));
        }
        let time = Timestamp { value: cursor.read_u48_le()? };
        proof {
            assert(cursor@ =~= s.skip(11));
        }
        Ok(Group42Var3 { flags, value, time })
    }

    fn write(&self, cursor: &mut WriteCursor) -> (res: Result<(), WriteError>) {
        if cursor.remaining() < 11 {
            return Err(WriteError);
        }
        let ghost c0 = *cursor;
        let _ = cursor.write_u8(self.flags);
        let _ = cursor.write_i32_le(self.value);
        let _ = cursor.write_u48_le(self.time.value);
        proof {
            assert(cursor.buffer() =~= spliced(c0.buffer(), c0.position() as int, self.encode()));
        }
        Ok(())
    }

    proof fn lemma_encode_len(&self) {
    }

    proof fn lemma_decode_prefix(s: Seq<u8>, t: Seq<u8>) {
        assert forall|i: int| 0 <= i < 11 implies s[i] == t[i] by {
            assert(s.take(11)[i] == t.take(11)[i]);
        }
        assert(s.skip(1).take(4) =~= t.skip(1).take(4));
        assert(s.skip(5).take(6) =~= t.skip(5).take(6));
        lemma_u48_bytes_roundtrip(s.skip(5));
    }

    proof fn lemma_decode_encode(&self) {
        lemma_u32_roundtrip(i32_to_u32(self.value));
        lemma_i32_roundtrip(self.value);
        lemma_u48_roundtrip(self.time.value);
        let e = self.encode();
        assert(e.skip(1).take(4) =~= u32_le_bytes(i32_to_u32(self.value)));
        assert(e.skip(5).take(6) =~= u48_le_bytes(self.time.value));
    }
}

impl FixedSizeVariation for Group42Var3 {
    proof fn lemma_size_bound() {
    }
}

impl FixedSize for Group42Var2 {
    open spec fn spec_size() -> nat {
        3
    }

    proof fn lemma_size_positive() {
    }

    open spec fn decode(s: Seq<u8>) -> Group42Var2 {
        Group42Var2 {
            flags: s[0],
            value: u16_to_i16(le_u16(s.skip(1))),
        }
    }

    open spec fn encode(&self) -> Seq<u8> {
        seq![self.flags] + u16_le_bytes(i16_to_u16(self.value))
    }

    open spec fn canonical(&self) -> bool {
        true
    }

    fn size() -> (n: u8) {
        3
    }

    fn read(cursor: &mut ReadCursor) -> (res: Result<Self, ReadError>) {
        if cursor.len() < 3 {
            return Err(ReadError);
        }
        let ghost s = cursor@;
        let flags = cursor.read_u8()?;
        proof {
            assert(cursor@ =~= s.skip(1));
        }
        let value = cursor.read_i16_le()?;
        proof {
            assert(cursor@ =~= s.skip(3));
        }
        Ok(Group42Var2 { flags, value })
    }

    fn write(&self, cursor: &mut WriteCursor) -> (res: Result<(), WriteError>) {
        if cursor.remaining() < 3 {
            return Err(WriteError);
        }
        let ghost c0 = *cursor;
        let _ = cursor.write_u8(self.flags);
        let _ = cursor.write_i16_le(self.value);
        proof {
            assert(cursor.buffer() =~= spliced(c0.buffer(), c0.position() as int, self.encode()));
        }
        Ok(())
    }

    proof fn lemma_encode_len(&self) {
    }

    proof fn lemma_decode_prefix(s: Seq<u8>, t: Seq<u8>) {
        assert forall|i: int| 0 <= i < 3 implies s[i] == t[i] by {
            assert(s.take(3)[i] == t.take(3)[i]);
        }
        assert(s.skip(1).take(2) =~= t.skip(1).take(2));
    }

    proof fn lemma_decode_encode(&self) {
        lemma_u16_roundtrip(i16_to_u16(self.value));
        lemma_i16_roundtrip(self.value);
        let e = self.encode();
        assert(e.skip(1).take(2) =~= u16_le_bytes(i16_to_u16(self.value)));
    }
}

impl FixedSizeVariation for Group42Var2 {
    proof fn lemma_size_bound() {
    }
}

impl FixedSize for Group42Var1 {
    open spec fn spec_size() -> nat {
        5
    }

    proof fn lemma_size_positive() {
    }

    open spec fn decode(s: Seq<u8>) -> Group42Var1 {
        Group42Var1 {
            flags: s[0],
            value: u32_to_i32(le_u32(s.skip(1))),
        }
    }

    open spec fn encode(&self) -> Seq<u8> {
        seq![self.flags] + u32_le_bytes(i32_to_u32(self.value))
    }

    open spec fn canonical(&self) -> bool {
        true
    }

    fn size() -> (n: u8) {
        5
    }

    fn read(cursor: &mut ReadCursor) -> (res: Result<Self, ReadError>) {
        if cursor.len() < 5 {
            return Err(ReadError);
        }
        let ghost s = cursor@;
        let flags = cursor.read_u8()?;
        proof {
            assert(cursor@ =~= s.skip(1));
        }
        let value = cursor.read_i32_le()?;
        proof {
            assert(cursor@ =~= s.skip(5));
        }
        Ok(Group42Var1 { flags, value })
    }

    fn write(&self, cursor: &mut WriteCursor) -> (res: Result<(), WriteError>) {
        if cursor.remaining() < 5 {
            return Err(WriteError);
        }
        let ghost c0 = *cursor;
        let _ = cursor.write_u8(self.flags);
        let _ = cursor.write_i32_le(self.value);
        proof {
            assert(cursor.buffer() =~= spliced(c0.buffer(), c0.position() as int, self.encode()));
        }
        Ok(())
    }

    proof fn lemma_encode_len(&self) {
    }

    proof fn lemma_decode_prefix(s: Seq<u8>, t: Seq<u8>) {
        assert forall|i: int| 0 <= i < 5 implies s[i] == t[i] by {
            assert(s.take(5)[i] == t.take(5)[i]);
        }
        assert(s.skip(1).take(4) =~= t.skip(1).take(4));
    }

    proof fn lemma_decode_encode(&self) {
        lemma_u32_roundtrip(i32_to_u32(self.value));
        lemma_i32_roundtrip(self.value);
        let e = self.encode();
        assert(e.skip(1).take(4) =~= u32_le_bytes(i32_to_u32(self.value)));
    }
}

impl FixedSizeVariation for Group42Var1 {
    proof fn lemma_size_bound() {
    }
}

impl FixedSize for Group41Var4 {
    open spec fn spec_size() -> nat {
        9
    }

    proof fn lemma_size_positive() {
    }

    open spec fn decode(s: Seq<u8>) -> Group41Var4 {
        Group41Var4 {
            value: le_u64(s),
            status: CommandStatus::from_code_spec(s[8]),
        }
    }

    open spec fn encode(&self) -> Seq<u8> {
        u64_le_bytes(self.value) + seq![self.status.code()]
    }

    open spec fn canonical(&self) -> bool {
        self.status.canonical()
    }

    fn size() -> (n: u8) {
        9
    }

    fn read(cursor: &mut ReadCursor) -> (res: Result<Self, ReadError>) {
        if cursor.len() < 9 {
            return Err(ReadError);
        }
        let ghost s = cursor@;
        let value = cursor.read_u64_le()?;
        proof {
            assert(cursor@ =~= s.skip(8));
        }
        let status = CommandStatus::from(cursor.read_u8()?);
        proof {
            assert(cursor@ =~= s.skip(9));
        }
        Ok(Group41Var4 { value, status })
    }

    fn write(&self, cursor: &mut WriteCursor) -> (res: Result<(), WriteError>) {
        if cursor.remaining() < 9 {
            return Err(WriteError);
        }
        let ghost c0 = *cursor;
        let _ = cursor.write_u64_le(self.value);
        let _ = cursor.write_u8(self.status.as_u8());
        proof {
            assert(cursor.buffer() =~= spliced(c0.buffer(), c0.position() as int, self.encode()));
        }
        Ok(())
    }

    proof fn lemma_encode_len(&self) {
    }

    proof fn lemma_decode_prefix(s: Seq<u8>, t: Seq<u8>) {
        assert forall|i: int| 0 <= i < 9 implies s[i] == t[i] by {
            assert(s.take(9)[i] == t.take(9)[i]);
        }
        CommandStatus::lemma_from_code_spec(s[8]);
    }

    proof fn lemma_decode_encode(&self) {
        lemma_u64_roundtrip(self.value);
        self.status.lemma_canonical_roundtrip();
        let e = self.encode();
        assert(e.skip(8).take(1) =~= seq![self.status.code()]);
    }
}

impl FixedSizeVariation for Group41Var4 {
    proof fn lemma_size_bound() {
    }
}

impl FixedSize for Group41Var3 {
    open spec fn spec_size() -> nat {
        5
    }

    proof fn lemma_size_positive() {
    }

    open spec fn decode(s: Seq<u8>) -> Group41Var3 {
        Group41Var3 {
            value: le_u32(s),
            status: CommandStatus::from_code_spec(s[4]),
        }
    }

    open spec fn encode(&self) -> Seq<u8> {
        u32_le_bytes(self.value) + seq![self.status.code()]
    }

    open spec fn canonical(&self) -> bool {
        self.status.canonical()
    }

    fn size() -> (n: u8) {
        5
    }

    fn read(cursor: &mut ReadCursor) -> (res: Result<Self, ReadError>) {
        if cursor.len() < 5 {
            return Err(ReadError);
        }
        let ghost s = cursor@;
        let value = cursor.read_u32_le()?;
        proof {
            assert(cursor@ =~= s.skip(4));
        }
        let status = CommandStatus::from(cursor.read_u8()?);
        proof {
            assert(cursor@ =~= s.skip(5));
        }
        Ok(Group41Var3 { value, status })
    }

    fn write(&self, cursor: &mut WriteCursor) -> (res: Result<(), WriteError>) {
        if cursor.remaining() < 5 {
            return Err(WriteError);
        }
        let ghost c0 = *cursor;
        let _ = cursor.write_u32_le(self.value);
        let _ = cursor.write_u8(self.status.as_u8());
        proof {
            assert(cursor.buffer() =~= spliced(c0.buffer(), c0.position() as int, self.encode()));
        }
        Ok(())
    }

    proof fn lemma_encode_len(&self) {
    }

    proof fn lemma_decode_prefix(s: Seq<u8>, t: Seq<u8>) {
        assert forall|i: int| 0 <= i < 5 implies s[i] == t[i] by {
            assert(s.take(5)[i] == t.take(5)[i]);
        }
        CommandStatus::lemma_from_code_spec(s[4]);
    }

    proof fn lemma_decode_encode(&self) {
        lemma_u32_roundtrip(self.value);
        self.status.lemma_canonical_roundtrip();
        let e = self.encode();
        assert(e.skip(4).take(1) =~= seq![self.status.code()]);
    }
}

impl FixedSizeVariation for Group41Var3 {
    proof fn lemma_size_bound() {
    }
}

impl FixedSize for Group41Var2 {
    open spec fn spec_size() -> nat {
        3
    }

    proof fn lemma_size_positive() {
    }

    open spec fn decode(s: Seq<u8>) -> Group41Var2 {
        Group41Var2 {
            value: u16_to_i16(le_u16(s)),
            status: CommandStatus::from_code_spec(s[2]),
        }
    }

    open spec fn encode(&self) -> Seq<u8> {
        u16_le_bytes(i16_to_u16(self.value)) + seq![self.status.code()]
    }

    open spec fn canonical(&self) -> bool {
        self.status.canonical()
    }

    fn size() -> (n: u8) {
        3
    }

    fn read(cursor: &mut ReadCursor) -> (res: Result<Self, ReadError>) {
        if cursor.len() < 3 {
            return Err(ReadError);
        }
        let ghost s = cursor@;
        let value = cursor.read_i16_le()?;
        proof {
            assert(cursor@ =~= s.skip(2));
        }
        let status = CommandStatus::from(cursor.read_u8()?);
        proof {
            assert(cursor@ =~= s.skip(3));
        }
        Ok(Group41Var2 { value, status })
    }

    fn write(&self, cursor: &mut WriteCursor) -> (res: Result<(), WriteError>) {
        if cursor.remaining() < 3 {
            return Err(WriteError);
        }
        let ghost c0 = *cursor;
        let _ = cursor.write_i16_le(self.value);
        let _ = cursor.write_u8(self.status.as_u8());
        proof {
            assert(cursor.buffer() =~= spliced(c0.buffer(), c0.position() as int, self.encode()));
        }
        Ok(())
    }

    proof fn lemma_encode_len(&self) {
    }

    proof fn lemma_decode_prefix(s: Seq<u8>, t: Seq<u8>) {
        assert forall|i: int| 0 <= i < 3 implies s[i] == t[i] by {
            assert(s.take(3)[i] == t.take(3)[i]);
        }
        CommandStatus::lemma_from_code_spec(s[2]);
    }

    proof fn lemma_decode_encode(&self) {
        lemma_u16_roundtrip(i16_to_u16(self.value));
        lemma_i16_roundtrip(self.value);
        self.status.lemma_canonical_roundtrip();
        let e = self.encode();
        assert(e.skip(2).take(1) =~= seq![self.status.code()]);
    }
}

impl FixedSizeVariation for Group41Var2 {
    proof fn lemma_size_bound() {
    }
}

impl FixedSize for Group41Var1 {
    open spec fn spec_size() -> nat {
        5
    }

    proof fn lemma_size_positive() {
    }

    open spec fn decode(s: Seq<u8>) -> Group41Var1 {
        Group41Var1 {
            value: u32_to_i32(le_u32(s)),
            status: CommandStatus::from_code_spec(s[4]),
        }
    }

    open spec fn encode(&self) -> Seq<u8> {
        u32_le_bytes(i32_to_u32(self.value)) + seq![self.status.code()]
    }

    open spec fn canonical(&self) -> bool {
        self.status.canonical()
    }

    fn size() -> (n: u8) {
        5
    }

    fn read(cursor: &mut ReadCursor) -> (res: Result<Self, ReadError>) {
        if cursor.len() < 5 {
            return Err(ReadError);
        }
        let ghost s = cursor@;
        let value = cursor.read_i32_le()?;
        proof {
            assert(cursor@ =~= s.skip(4));
        }
        let status = CommandStatus::from(cursor.read_u8()?);
        proof {
            assert(cursor@ =~= s.skip(5));
        }
        Ok(Group41Var1 { value, status })
    }

    fn write(&self, cursor: &mut WriteCursor) -> (res: Result<(), WriteError>) {
        if cursor.remaining() < 5 {
            return Err(WriteError);
        }
        let ghost c0 = *cursor;
        let _ = cursor.write_i32_le(self.value);
        let _ = cursor.write_u8(self.status.as_u8());
        proof {
            assert(cursor.buffer() =~= spliced(c0.buffer(), c0.position() as int, self.encode()));
        }
        Ok(())
    }

    proof fn lemma_encode_len(&self) {
    }

    proof fn lemma_decode_prefix(s: Seq<u8>, t: Seq<u8>) {
        assert forall|i: int| 0 <= i < 5 implies s[i] == t[i] by {
            assert(s.take(5)[i] == t.take(5)[i]);
        }
        CommandStatus::lemma_from_code_spec(s[4]);
    }

    proof fn lemma_decode_encode(&self) {
        lemma_u32_roundtrip(i32_to_u32(self.value));
        lemma_i32_roundtrip(self.value);
        self.status.lemma_canonical_roundtrip();
        let e = self.encode();
        assert(e.skip(4).take(1) =~= seq![self.status.code()]);
    }
}

impl FixedSizeVariation for Group41Var1 {
    proof fn lemma_size_bound() {
    }
}

impl FixedSize for Group40Var4 {
    open spec fn spec_size() -> nat {
        9
    }

    proof fn lemma_size_positive() {
    }

    open spec fn decode(s: Seq<u8>) -> Group40Var4 {
        Group40Var4 {
            flags: s[0],
            value: le_u64(s.skip(1)),
        }
    }

    open spec fn encode(&self) -> Seq<u8> {
        seq![self.flags] + u64_le_bytes(self.value)
    }

    open spec fn canonical(&self) -> bool {
        true
    }

    fn size() -> (n: u8) {
        9
    }

    fn read(cursor: &mut ReadCursor) -> (res: Result<Self, ReadError>) {
        if cursor.len() < 9 {
            return Err(ReadError);
        }
        let ghost s = cursor@;
        let flags = cursor.read_u8()?;
        proof {
            assert(cursor@ =~= s.skip(1));
        }
        let value = cursor.read_u64_le()?;
        proof {
            assert(cursor@ =~= s.skip(9));
        }
        Ok(Group40Var4 { flags, value })
    }

    fn write(&self, cursor: &mut WriteCursor) -> (res: Result<(), WriteError>) {
        if cursor.remaining() < 9 {
            return Err(WriteError);
        }
        let ghost c0 = *cursor;
        let _ = cursor.write_u8(self.flags);
        let _ = cursor.write_u64_le(self.value);
        proof {
            assert(cursor.buffer() =~= spliced(c0.buffer(), c0.position() as int, self.encode()));
        }
        Ok(())
    }

    proof fn lemma_encode_len(&self) {
    }

    proof fn lemma_decode_prefix(s: Seq<u8>, t: Seq<u8>) {
        assert forall|i: int| 0 <= i < 9 implies s[i] == t[i] by {
            assert(s.take(9)[i] == t.take(9)[i]);
        }
        assert(s.skip(1).take(8) =~= t.skip(1).take(8));
    }

    proof fn lemma_decode_encode(&self) {
        lemma_u64_roundtrip(self.value);
        let e = self.encode();
        assert(e.skip(1).take(8) =~= u64_le_bytes(self.value));
    }
}

impl FixedSizeVariation for Group40Var4 {
    proof fn lemma_size_bound() {
    }
}

impl FixedSize for Group40Var3 {
    open spec fn spec_size() -> nat {
        5
    }

    proof fn lemma_size_positive() {
    }

    open spec fn decode(s: Seq<u8>) -> Group40Var3 {
        Group40Var3 {
            flags: s[0],
            value: le_u32(s.skip(1)),
        }
    }

    open spec fn encode(&self) -> Seq<u8> {
        seq![self.flags] + u32_le_bytes(self.value)
    }

    open spec fn canonical(&self) -> bool {
        true
    }

    fn size() -> (n: u8) {
        5
    }

    fn read(cursor: &mut ReadCursor) -> (res: Result<Self, ReadError>) {
        if cursor.len() < 5 {
            return Err(ReadError);
        }
        let ghost s = cursor@;
        let flags = cursor.read_u8()?;
        proof {
            assert(cursor@ =~= s.skip(1));
        }
        let value = cursor.read_u32_le()?;
        proof {
            assert(cursor@ =~= s.skip(5));
        }
        Ok(Group40Var3 { flags, value })
    }

    fn write(&self, cursor: &mut WriteCursor) -> (res: Result<(), WriteError>) {
        if cursor.remaining() < 5 {
            return Err(WriteError);
        }
        let ghost c0 = *cursor;
        let _ = cursor.write_u8(self.flags);
        let _ = cursor.write_u32_le(self.value);
        proof {
            assert(cursor.buffer() =~= spliced(c0.buffer(), c0.position() as int, self.encode()));
        }
        Ok(())
    }

    proof fn lemma_encode_len(&self) {
    }

    proof fn lemma_decode_prefix(s: Seq<u8>, t: Seq<u8>) {
        assert forall|i: int| 0 <= i < 5 implies s[i] == t[i] by {
            assert(s.take(5)[i] == t.take(5)[i]);
        }
        assert(s.skip(1).take(4) =~= t.skip(1).take(4));
    }

    proof fn lemma_decode_encode(&self) {
        lemma_u32_roundtrip(self.value);
        let e = self.encode();
        assert(e.skip(1).take(4) =~= u32_le_bytes(self.value));
    }
}

impl FixedSizeVariation for Group40Var3 {
    proof fn lemma_size_bound() {
    }
}

impl FixedSize for Group40Var2 {
    open spec fn spec_size() -> nat {
        3
    }

    proof fn lemma_size_positive() {
    }

    open spec fn decode(s: Seq<u8>) -> Group40Var2 {
        Group40Var2 {
            flags: s[0],
            value: u16_to_i16(le_u16(s.skip(1))),
        }
    }

    open spec fn encode(&self) -> Seq<u8> {
        seq![self.flags] + u16_le_bytes(i16_to_u16(self.value))
    }

    open spec fn canonical(&self) -> bool {
        true
    }

    fn size() -> (n: u8) {
        3
    }

    fn read(cursor: &mut ReadCursor) -> (res: Result<Self, ReadError>) {
        if cursor.len() < 3 {
            return Err(ReadError);
        }
        let ghost s = cursor@;
        let flags = cursor.read_u8()?;
        proof {
            assert(cursor@ =~= s.skip(1));
        }
        let value = cursor.read_i16_le()?;
        proof {
            assert(cursor@ =~= s.skip(3));
        }
        Ok(Group40Var2 { flags, value })
    }

    fn write(&self, cursor: &mut WriteCursor) -> (res: Result<(), WriteError>) {
        if cursor.remaining() < 3 {
            return Err(WriteError);
        }
        let ghost c0 = *cursor;
        let _ = cursor.write_u8(self.flags);
        let _ = cursor.write_i16_le(self.value);
        proof {
            assert(cursor.buffer() =~= spliced(c0.buffer(), c0.position() as int, self.encode()));
        }
        Ok(())
    }

    proof fn lemma_encode_len(&self) {
    }

    proof fn lemma_decode_prefix(s: Seq<u8>, t: Seq<u8>) {
        assert forall|i: int| 0 <= i < 3 implies s[i] == t[i] by {
            assert(s.take(3)[i] == t.take(3)[i]);
        }
        assert(s.skip(1).take(2) =~= t.skip(1).take(2));
    }

    proof fn lemma_decode_encode(&self) {
        lemma_u16_roundtrip(i16_to_u16(self.value));
        lemma_i16_roundtrip(self.value);
        let e = self.encode();
        assert(e.skip(1).take(2) =~= u16_le_bytes(i16_to_u16(self.value)));
    }
}

impl FixedSizeVariation for Group40Var2 {
    proof fn lemma_size_bound() {
    }
}

impl FixedSize for Group40Var1 {
    open spec fn spec_size() -> nat {
        5
    }

    proof fn lemma_size_positive() {
    }

    open spec fn decode(s: Seq<u8>) -> Group40Var1 {
        Group40Var1 {
            flags: s[0],
            value: u32_to_i32(le_u32(s.skip(1))),
        }
    }

    open spec fn encode(&self) -> Seq<u8> {
        seq![self.flags] + u32_le_bytes(i32_to_u32(self.value))
    }

    open spec fn canonical(&self) -> bool {
        true
    }

    fn size() -> (n: u8) {
        5
    }

    fn read(cursor: &mut ReadCursor) -> (res: Result<Self, ReadError>) {
        if cursor.len() < 5 {
            return Err(ReadError);
        }
        let ghost s = cursor@;
        let flags = cursor.read_u8()?;
        proof {
            assert(cursor@ =~= s.skip(1));
        }
        let value = cursor.read_i32_le()?;
        proof {
            assert(cursor@ =~= s.skip(5));
        }
        Ok(Group40Var1 { flags, value })
    }

    fn write(&self, cursor: &mut WriteCursor) -> (res: Result<(), WriteError>) {
        if cursor.remaining() < 5 {
            return Err(WriteError);
        }
        let ghost c0 = *cursor;
        let _ = cursor.write_u8(self.flags);
        let _ = cursor.write_i32_le(self.value);
        proof {
            assert(cursor.buffer() =~= spliced(c0.buffer(), c0.position() as int, self.encode()));
        }
        Ok(())
    }

    proof fn lemma_encode_len(&self) {
    }

    proof fn lemma_decode_prefix(s: Seq<u8>, t: Seq<u8>) {
        assert forall|i: int| 0 <= i < 5 implies s[i] == t[i] by {
            assert(s.take(5)[i] == t.take(5)[i]);
        }
        assert(s.skip(1).take(4) =~= t.skip(1).take(4));
    }

    proof fn lemma_decode_encode(&self) {
        lemma_u32_roundtrip(i32_to_u32(self.value));
        lemma_i32_roundtrip(self.value);
        let e = self.encode();
        assert(e.skip(1).take(4) =~= u32_le_bytes(i32_to_u32(self.value)));
    }
}

impl FixedSizeVariation for Group40Var1 {
    proof fn lemma_size_bound() {
    }
}

impl FixedSize for Group32Var8 {
    open spec fn spec_size() -> nat {
        15
    }

    proof fn lemma_size_positive() {
    }

    open spec fn decode(s: Seq<u8>) -> Group32Var8 {
        Group32Var8 {
            flags: s[0],
            value: le_u64(s.skip(1)),
            time: Timestamp { value: le_u48(s.skip(9)) },
        }
    }

    open spec fn encode(&self) -> Seq<u8> {
        seq![self.flags] + u64_le_bytes(self.value) + u48_le_bytes(self.time.value)
    }

    open spec fn canonical(&self) -> bool {
        self.time.value < 0x1_0000_0000_0000
    }

    fn size() -> (n: u8) {
        15
    }

    fn read(cursor: &mut ReadCursor) -> (res: Result<Self, ReadError>) {
        if cursor.len() < 15 {
            return Err(ReadError);
        }
        let ghost s = cursor@;
        let flags = cursor.read_u8()?;
        proof {
            assert(cursor@ =~= s.skip(1));
        }
        let value = cursor.read_u64_le()?;
        proof {
            assert(cursor@ =~= s.skip(9));
        }
        let time = Timestamp { value: cursor.read_u48_le()? };
        proof {
            assert(cursor@ =~= s.skip(15));
        }
        Ok(Group32Var8 { flags, value, time })
    }

    fn write(&self, cursor: &mut WriteCursor) -> (res: Result<(), WriteError>) {
        if cursor.remaining() < 15 {
            return Err(WriteError);
        }
        let ghost c0 = *cursor;
        let _ = cursor.write_u8(self.flags);
        let _ = cursor.write_u64_le(self.value);
        let _ = cursor.write_u48_le(self.time.value);
        proof {
            assert(cursor.buffer() =~= spliced(c0.buffer(), c0.position() as int, self.encode()));
        }
        Ok(())
    }

    proof fn lemma_encode_len(&self) {
    }

    proof fn lemma_decode_prefix(s: Seq<u8>, t: Seq<u8>) {
        assert forall|i: int| 0 <= i < 15 implies s[i] == t[i] by {
            assert(s.take(15)[i] == t.take(15)[i]);
        }
        assert(s.skip(1).take(8) =~= t.skip(1).take(8));
        assert(s.skip(9).take(6) =~= t.skip(9).take(6));
        lemma_u48_bytes_roundtrip(s.skip(9));
    }

    proof fn lemma_decode_encode(&self) {
        lemma_u64_roundtrip(self.value);
        lemma_u48_roundtrip(self.time.value);
        let e = self.encode();
        assert(e.skip(1).take(8) =~= u64_le_bytes(self.value));
        assert(e.skip(9).take(6) =~= u48_le_bytes(self.time.value));
    }
}

impl FixedSizeVariation for Group32Var8 {
    proof fn lemma_size_bound() {
    }
}

impl FixedSize for Group32Var7 {
    open spec fn spec_size() -> nat {
        11
    }

    proof fn lemma_size_positive() {
    }

    open spec fn decode(s: Seq<u8>) -> Group32Var7 {
        Group32Var7 {
            flags: s[0],
            value: le_u32(s.skip(1)),
            time: Timestamp { value: le_u48(s.skip(5)) },
        }
    }

    open spec fn encode(&self) -> Seq<u8> {
        seq![self.flags] + u32_le_bytes(self.value) + u48_le_bytes(self.time.value)
    }

    open spec fn canonical(&self) -> bool {
        self.time.value < 0x1_0000_0000_0000
    }

    fn size() -> (n: u8) {
        11
    }

    fn read(cursor: &mut ReadCursor) -> (res: Result<Self, ReadError>) {
        if cursor.len() < 11 {
            return Err(ReadError);
        }
        let ghost s = cursor@;
        let flags = cursor.read_u8()?;
        proof {
            assert(cursor@ =~= s.skip(1));
        }
        let value = cursor.read_u32_le()?;
        proof {
            assert(cursor@ =~= s.skip(5));
        }
        let time = Timestamp { value: cursor.read_u48_le()? };
        proof {
            assert(cursor@ =~= s.skip(11));
        }
        Ok(Group32Var7 { flags, value, time })
    }

    fn write(&self, cursor: &mut WriteCursor) -> (res: Result<(), WriteError>) {
        if cursor.remaining() < 11 {
            return Err(WriteError);
        }
        let ghost c0 = *cursor;
        let _ = cursor.write_u8(self.flags);
        let _ = cursor.write_u32_le(self.value);
        let _ = cursor.write_u48_le(self.time.value);
        proof {
            assert(cursor.buffer() =~= spliced(c0.buffer(), c0.position() as int, self.encode()));
        }
        Ok(())
    }

    proof fn lemma_encode_len(&self) {
    }

    proof fn lemma_decode_prefix(s: Seq<u8>, t: Seq<u8>) {
        assert forall|i: int| 0 <= i < 11 implies s[i] == t[i] by {
            assert(s.take(11)[i] == t.take(11)[i]);
        }
        assert(s.skip(1).take(4) =~= t.skip(1).take(4));
        assert(s.skip(5).take(6) =~= t.skip(5).take(6));
        lemma_u48_bytes_roundtrip(s.skip(5));
    }

    proof fn lemma_decode_encode(&self) {
        lemma_u32_roundtrip(self.value);
        lemma_u48_roundtrip(self.time.value);
        let e = self.encode();
        assert(e.skip(1).take(4) =~= u32_le_bytes(self.value));
        assert(e.skip(5).take(6) =~= u48_le_bytes(self.time.value));
    }
}

impl FixedSizeVariation for Group32Var7 {
    proof fn lemma_size_bound() {
    }
}

impl FixedSize for Group32Var6 {
    open spec fn spec_size() -> nat {
        9
    }

    proof fn lemma_size_positive() {
    }

    open spec fn decode(s: Seq<u8>) -> Group32Var6 {
        Group32Var6 {
            flags: s[0],
            value: le_u64(s.skip(1)),
        }
    }

    open spec fn encode(&self) -> Seq<u8> {
        seq![self.flags] + u64_le_bytes(self.value)
    }

    open spec fn canonical(&self) -> bool {
        true
    }

    fn size() -> (n: u8) {
        9
    }

    fn read(cursor: &mut ReadCursor) -> (res: Result<Self, ReadError>) {
        if cursor.len() < 9 {
            return Err(ReadError);
        }
        let ghost s = cursor@;
        let flags = cursor.read_u8()?;
        proof {
            assert(cursor@ =~= s.skip(1));
        }
        let value = cursor.read_u64_le()?;
        proof {
            assert(cursor@ =~= s.skip(9));
        }
        Ok(Group32Var6 { flags, value })
    }

    fn write(&self, cursor: &mut WriteCursor) -> (res: Result<(), WriteError>) {
        if cursor.remaining() < 9 {
            return Err(WriteError);
        }
        let ghost c0 = *cursor;
        let _ = cursor.write_u8(self.flags);
        let _ = cursor.write_u64_le(self.value);
        proof {
            assert(cursor.buffer() =~= spliced(c0.buffer(), c0.position() as int, self.encode()));
        }
        Ok(())
    }

    proof fn lemma_encode_len(&self) {
    }

    proof fn lemma_decode_prefix(s: Seq<u8>, t: Seq<u8>) {
        assert forall|i: int| 0 <= i < 9 implies s[i] == t[i] by {
            assert(s.take(9)[i] == t.take(9)[i]);
        }
        assert(s.skip(1).take(8) =~= t.skip(1).take(8));
    }

    proof fn lemma_decode_encode(&self) {
        lemma_u64_roundtrip(self.value);
        let e = self.encode();
        assert(e.skip(1).take(8) =~= u64_le_bytes(self.value));
    }
}

impl FixedSizeVariation for Group32Var6 {
    proof fn lemma_size_bound() {
    }
}

impl FixedSize for Group32Var5 {
    open spec fn spec_size() -> nat {
        5
    }

    proof fn lemma_size_positive() {
    }

    open spec fn decode(s: Seq<u8>) -> Group32Var5 {
        Group32Var5 {
            flags: s[0],
            value: le_u32(s.skip(1)),
        }
    }

    open spec fn encode(&self) -> Seq<u8> {
        seq![self.flags] + u32_le_bytes(self.value)
    }

    open spec fn canonical(&self) -> bool {
        true
    }

    fn size() -> (n: u8) {
        5
    }

    fn read(cursor: &mut ReadCursor) -> (res: Result<Self, ReadError>) {
        if cursor.len() < 5 {
            return Err(ReadError);
        }
        let ghost s = cursor@;
        let flags = cursor.read_u8()?;
        proof {
            assert(cursor@ =~= s.skip(1));
        }
        let value = cursor.read_u32_le()?;
        proof {
            assert(cursor@ =~= s.skip(5));
        }
        Ok(Group32Var5 { flags, value })
    }

    fn write(&self, cursor: &mut WriteCursor) -> (res: Result<(), WriteError>) {
        if cursor.remaining() < 5 {
            return Err(WriteError);
        }
        let ghost c0 = *cursor;
        let _ = cursor.write_u8(self.flags);
        let _ = cursor.write_u32_le(self.value);
        proof {
            assert(cursor.buffer() =~= spliced(c0.buffer(), c0.position() as int, self.encode()));
        }
        Ok(())
    }

    proof fn lemma_encode_len(&self) {
    }

    proof fn lemma_decode_prefix(s: Seq<u8>, t: Seq<u8>) {
        assert forall|i: int| 0 <= i < 5 implies s[i] == t[i] by {
            assert(s.take(5)[i] == t.take(5)[i]);
        }
        assert(s.skip(1).take(4) =~= t.skip(1).take(4));
    }

    proof fn lemma_decode_encode(&self) {
        lemma_u32_roundtrip(self.value);
        let e = self.encode();
        assert(e.skip(1).take(4) =~= u32_le_bytes(self.value));
    }
}

impl FixedSizeVariation for Group32Var5 {
    proof fn lemma_size_bound() {
    }
}

impl FixedSize for Group32Var4 {
    open spec fn spec_size() -> nat {
        9
    }

    proof fn lemma_size_positive() {
    }

    open spec fn decode(s: Seq<u8>) -> Group32Var4 {
        Group32Var4 {
            flags: s[0],
            value: u16_to_i16(le_u16(s.skip(1))),
            time: Timestamp { value: le_u48(s.skip(3)) },
        }
    }

    open spec fn encode(&self) -> Seq<u8> {
        seq![self.flags] + u16_le_bytes(i16_to_u16(self.value)) + u48_le_bytes(self.time.value)
    }

    open spec fn canonical(&self) -> bool {
        self.time.value < 0x1_0000_0000_0000
    }

    fn size() -> (n: u8) {
        9
    }

    fn read(cursor: &mut ReadCursor) -> (res: Result<Self, ReadError>) {
        if cursor.len() < 9 {
            return Err(ReadError);
        }
        let ghost s = cursor@;
        let flags = cursor.read_u8()?;
        proof {
            assert(cursor@ =~= s.skip(1));
        }
        let value = cursor.read_i16_le()?;
        proof {
            assert(cursor@ =~= s.skip(3));
        }
        let time = Timestamp { value: cursor.read_u48_le()? };
        proof {
            assert(cursor@ =~= s.skip(9));
        }
        Ok(Group32Var4 { flags, value, time })
    }

    fn write(&self, cursor: &mut WriteCursor) -> (res: Result<(), WriteError>) {
        if cursor.remaining() < 9 {
            return Err(WriteError);
        }
        let ghost c0 = *cursor;
        let _ = cursor.write_u8(self.flags);
        let _ = cursor.write_i16_le(self.value);
        let _ = cursor.write_u48_le(self.time.value);
        proof {
            assert(cursor.buffer() =~= spliced(c0.buffer(), c0.position() as int, self.encode()));
        }
        Ok(())
    }

    proof fn lemma_encode_len(&self) {
    }

    proof fn lemma_decode_prefix(s: Seq<u8>, t: Seq<u8>) {
        assert forall|i: int| 0 <= i < 9 implies s[i] == t[i] by {
            assert(s.take(9)[i] == t.take(9)[i]);
        }
        assert(s.skip(1).take(2) =~= t.skip(1).take(2));
        assert(s.skip(3).take(6) =~= t.skip(3).take(6));
        lemma_u48_bytes_roundtrip(s.skip(3));
    }

    proof fn lemma_decode_encode(&self) {
        lemma_u16_roundtrip(i16_to_u16(self.value));
        lemma_i16_roundtrip(self.value);
        lemma_u48_roundtrip(self.time.value);
        let e = self.encode();
        assert(e.skip(1).take(2) =~= u16_le_bytes(i16_to_u16(self.value)));
        assert(e.skip(3).take(6) =~= u48_le_bytes(self.time.value));
    }
}

impl FixedSizeVariation for Group32Var4 {
    proof fn lemma_size_bound() {
    }
}

impl FixedSize for Group32Var3 {
    open spec fn spec_size() -> nat {
        11
    }

    proof fn lemma_size_positive() {
    }

    open spec fn decode(s: Seq<u8>) -> Group32Var3 {
        Group32Var3 {
            flags: s[0],
            value: u32_to_i32(le_u32(s.skip(1))),
            time: Timestamp { value: le_u48(s.skip(5)) },
        }
    }

    open spec fn encode(&self) -> Seq<u8> {
        seq![self.flags] + u32_le_bytes(i32_to_u32(self.value)) + u48_le_bytes(self.time.value)
    }

    open spec fn canonical(&self) -> bool {
        self.time.value < 0x1_0000_0000_0000
    }

    fn size() -> (n: u8) {
        11
    }

    fn read(cursor: &mut ReadCursor) -> (res: Result<Self, ReadError>) {
        if cursor.len() < 11 {
            return Err(ReadError);
        }
        let ghost s = cursor@;
        let flags = cursor.read_u8()?;
        proof {
            assert(cursor@ =~= s.skip(1));
        }
        let value = cursor.read_i32_le()?;
        proof {
            assert(cursor@ =~= s.skip(5));
        }
        let time = Timestamp { value: cursor.read_u48_le()? };
        proof {
            assert(cursor@ =~= s.skip(11));
        }
        Ok(Group32Var3 { flags, value, time })
    }

    fn write(&self, cursor: &mut WriteCursor) -> (res: Result<(), WriteError>) {
        if cursor.remaining() < 11 {
            return Err(WriteError);
        }
        let ghost c0 = *cursor;
        let _ = cursor.write_u8(self.flags);
        let _ = cursor.write_i32_le(self.value);
        let _ = cursor.write_u48_le(self.time.value);
        proof {
            assert(cursor.buffer() =~= spliced(c0.buffer(), c0.position() as int, self.encode()));
        }
        Ok(())
    }

    proof fn lemma_encode_len(&self) {
    }

    proof fn lemma_decode_prefix(s: Seq<u8>, t: Seq<u8>) {
        assert forall|i: int| 0 <= i < 11 implies s[i] == t[i] by {
            assert(s.take(11)[i] == t.take(11)[i]);
        }
        assert(s.skip(1).take(4) =~= t.skip(1).take(4));
        assert(s.skip(5).take(6) =~= t.skip(5).take(6));
        lemma_u48_bytes_roundtrip(s.skip(5));
    }

    proof fn lemma_decode_encode(&self) {
        lemma_u32_roundtrip(i32_to_u32(self.value));
        lemma_i32_roundtrip(self.value);
        lemma_u48_roundtrip(self.time.value);
        let e = self.encode();
        assert(e.skip(1).take(4) =~= u32_le_bytes(i32_to_u32(self.value)));
        assert(e.skip(5).take(6) =~= u48_le_bytes(self.time.value));
    }
}

impl FixedSizeVariation for Group32Var3 {
    proof fn lemma_size_bound() {
    }
}

impl FixedSize for Group32Var2 {
    open spec fn spec_size() -> nat {
        3
    }

    proof fn lemma_size_positive() {
    }

    open spec fn decode(s: Seq<u8>) -> Group32Var2 {
        Group32Var2 {
            flags: s[0],
            value: u16_to_i16(le_u16(s.skip(1))),
        }
    }

    open spec fn encode(&self) -> Seq<u8> {
        seq![self.flags] + u16_le_bytes(i16_to_u16(self.value))
    }

    open spec fn canonical(&self) -> bool {
        true
    }

    fn size() -> (n: u8) {
        3
    }

    fn read(cursor: &mut ReadCursor) -> (res: Result<Self, ReadError>) {
        if cursor.len() < 3 {
            return Err(ReadError);
        }
        let ghost s = cursor@;
        let flags = cursor.read_u8()?;
        proof {
            assert(cursor@ =~= s.skip(1));
        }
        let value = cursor.read_i16_le()?;
        proof {
            assert(cursor@ =~= s.skip(3));
        }
        Ok(Group32Var2 { flags, value })
    }

    fn write(&self, cursor: &mut WriteCursor) -> (res: Result<(), WriteError>) {
        if cursor.remaining() < 3 {
            return Err(WriteError);
        }
        let ghost c0 = *cursor;
        let _ = cursor.write_u8(self.flags);
        let _ = cursor.write_i16_le(self.value);
        proof {
            assert(cursor.buffer() =~= spliced(c0.buffer(), c0.position() as int, self.encode()));
        }
        Ok(())
    }

    proof fn lemma_encode_len(&self) {
    }

    proof fn lemma_decode_prefix(s: Seq<u8>, t: Seq<u8>) {
        assert forall|i: int| 0 <= i < 3 implies s[i] == t[i] by {
            assert(s.take(3)[i] == t.take(3)[i]);
        }
        assert(s.skip(1).take(2) =~= t.skip(1).take(2));
    }

    proof fn lemma_decode_encode(&self) {
        lemma_u16_roundtrip(i16_to_u16(self.value));
        lemma_i16_roundtrip(self.value);
        let e = self.encode();
        assert(e.skip(1).take(2) =~= u16_le_bytes(i16_to_u16(self.value)));
    }
}

impl FixedSizeVariation for Group32Var2 {
    proof fn lemma_size_bound() {
    }
}

impl FixedSize for Group32Var1 {
    open spec fn spec_size() -> nat {
        5
    }

    proof fn lemma_size_positive() {
    }

    open spec fn decode(s: Seq<u8>) -> Group32Var1 {
        Group32Var1 {
            flags: s[0],
            value: u32_to_i32(le_u32(s.skip(1))),
        }
    }

    open spec fn encode(&self) -> Seq<u8> {
        seq![self.flags] + u32_le_bytes(i32_to_u32(self.value))
    }

    open spec fn canonical(&self) -> bool {
        true
    }

    fn size() -> (n: u8) {
        5
    }

    fn read(cursor: &mut ReadCursor) -> (res: Result<Self, ReadError>) {
        if cursor.len() < 5 {
            return Err(ReadError);
        }
        let ghost s = cursor@;
        let flags = cursor.read_u8()?;
        proof {
            assert(cursor@ =~= s.skip(1));
        }
        let value = cursor.read_i32_le()?;
        proof {
            assert(cursor@ =~= s.skip(5));
        }
        Ok(Group32Var1 { flags, value })
    }

    fn write(&self, cursor: &mut WriteCursor) -> (res: Result<(), WriteError>) {
        if cursor.remaining() < 5 {
            return Err(WriteError);
        }
        let ghost c0 = *cursor;
        let _ = cursor.write_u8(self.flags);
        let _ = cursor.write_i32_le(self.value);
        proof {
            assert(cursor.buffer() =~= spliced(c0.buffer(), c0.position() as int, self.encode()));
        }
        Ok(())
    }

    proof fn lemma_encode_len(&self) {
    }

    proof fn lemma_decode_prefix(s: Seq<u8>, t: Seq<u8>) {
        assert forall|i: int| 0 <= i < 5 implies s[i] == t[i] by {
            assert(s.take(5)[i] == t.take(5)[i]);
        }
        assert(s.skip(1).take(4) =~= t.skip(1).take(4));
    }

    proof fn lemma_decode_encode(&self) {
        lemma_u32_roundtrip(i32_to_u32(self.value));
        lemma_i32_roundtrip(self.value);
        let e = self.encode();
        assert(e.skip(1).take(4) =~= u32_le_bytes(i32_to_u32(self.value)));
    }
}

impl FixedSizeVariation for Group32Var1 {
    proof fn lemma_size_bound() {
    }
}

impl FixedSize for Group30Var6 {
    open spec fn spec_size() -> nat {
        9
    }

    proof fn lemma_size_positive() {
    }

    open spec fn decode(s: Seq<u8>) -> Group30Var6 {
        Group30Var6 {
            flags: s[0],
            value: le_u64(s.skip(1)),
        }
    }

    open spec fn encode(&self) -> Seq<u8> {
        seq![self.flags] + u64_le_bytes(self.value)
    }

    open spec fn canonical(&self) -> bool {
        true
    }

    fn size() -> (n: u8) {
        9
    }

    fn read(cursor: &mut ReadCursor) -> (res: Result<Self, ReadError>) {
        if cursor.len() < 9 {
            return Err(ReadError);
        }
        let ghost s = cursor@;
        let flags = cursor.read_u8()?;
        proof {
            assert(cursor@ =~= s.skip(1));
        }
        let value = cursor.read_u64_le()?;
        proof {
            assert(cursor@ =~= s.skip(9));
        }
        Ok(Group30Var6 { flags, value })
    }

    fn write(&self, cursor: &mut WriteCursor) -> (res: Result<(), WriteError>) {
        if cursor.remaining() < 9 {
            return Err(WriteError);
        }
        let ghost c0 = *cursor;
        let _ = cursor.write_u8(self.flags);
        let _ = cursor.write_u64_le(self.value);
        proof {
            assert(cursor.buffer() =~= spliced(c0.buffer(), c0.position() as int, self.encode()));
        }
        Ok(())
    }

    proof fn lemma_encode_len(&self) {
    }

    proof fn lemma_decode_prefix(s: Seq<u8>, t: Seq<u8>) {
        assert forall|i: int| 0 <= i < 9 implies s[i] == t[i] by {
            assert(s.take(9)[i] == t.take(9)[i]);
        }
        assert(s.skip(1).take(8) =~= t.skip(1).take(8));
    }

    proof fn lemma_decode_encode(&self) {
        lemma_u64_roundtrip(self.value);
        let e = self.encode();
        assert(e.skip(1).take(8) =~= u64_le_bytes(self.value));
    }
}

impl FixedSizeVariation for Group30Var6 {
    proof fn lemma_size_bound() {
    }
}

impl FixedSize for Group30Var5 {
    open spec fn spec_size() -> nat {
        5
    }

    proof fn lemma_size_positive() {
    }

    open spec fn decode(s: Seq<u8>) -> Group30Var5 {
        Group30Var5 {
            flags: s[0],
            value: le_u32(s.skip(1)),
        }
    }

    open spec fn encode(&self) -> Seq<u8> {
        seq![self.flags] + u32_le_bytes(self.value)
    }

    open spec fn canonical(&self) -> bool {
        true
    }

    fn size() -> (n: u8) {
        5
    }

    fn read(cursor: &mut ReadCursor) -> (res: Result<Self, ReadError>) {
        if cursor.len() < 5 {
            return Err(ReadError);
        }
        let ghost s = cursor@;
        let flags = cursor.read_u8()?;
        proof {
            assert(cursor@ =~= s.skip(1));
        }
        let value = cursor.read_u32_le()?;
        proof {
            assert(cursor@ =~= s.skip(5));
        }
        Ok(Group30Var5 { flags, value })
    }

    fn write(&self, cursor: &mut WriteCursor) -> (res: Result<(), WriteError>) {
        if cursor.remaining() < 5 {
            return Err(WriteError);
        }
        let ghost c0 = *cursor;
        let _ = cursor.write_u8(self.flags);
        let _ = cursor.write_u32_le(self.value);
        proof {
            assert(cursor.buffer() =~= spliced(c0.buffer(), c0.position() as int, self.encode()));
        }
        Ok(())
    }

    proof fn lemma_encode_len(&self) {
    }

    proof fn lemma_decode_prefix(s: Seq<u8>, t: Seq<u8>) {
        assert forall|i: int| 0 <= i < 5 implies s[i] == t[i] by {
            assert(s.take(5)[i] == t.take(5)[i]);
        }
        assert(s.skip(1).take(4) =~= t.skip(1).take(4));
    }

    proof fn lemma_decode_encode(&self) {
        lemma_u32_roundtrip(self.value);
        let e = self.encode();
        assert(e.skip(1).take(4) =~= u32_le_bytes(self.value));
    }
}

impl FixedSizeVariation for Group30Var5 {
    proof fn lemma_size_bound() {
    }
}

impl FixedSize for Group30Var4 {
    open spec fn spec_size() -> nat {
        2
    }

    proof fn lemma_size_positive() {
    }

    open spec fn decode(s: Seq<u8>) -> Group30Var4 {
        Group30Var4 {
            value: u16_to_i16(le_u16(s)),
        }
    }

    open spec fn encode(&self) -> Seq<u8> {
        u16_le_bytes(i16_to_u16(self.value))
    }

    open spec fn canonical(&self) -> bool {
        true
    }

    fn size() -> (n: u8) {
        2
    }

    fn read(cursor: &mut ReadCursor) -> (res: Result<Self, ReadError>) {
        if cursor.len() < 2 {
            return Err(ReadError);
        }
        let ghost s = cursor@;
        let value = cursor.read_i16_le()?;
        proof {
            assert(cursor@ =~= s.skip(2));
        }
        Ok(Group30Var4 { value })
    }

    fn write(&self, cursor: &mut WriteCursor) -> (res: Result<(), WriteError>) {
        if cursor.remaining() < 2 {
            return Err(WriteError);
        }
        let ghost c0 = *cursor;
        let _ = cursor.write_i16_le(self.value);
        proof {
            assert(cursor.buffer() =~= spliced(c0.buffer(), c0.position() as int, self.encode()));
        }
        Ok(())
    }

    proof fn lemma_encode_len(&self) {
    }

    proof fn lemma_decode_prefix(s: Seq<u8>, t: Seq<u8>) {
        assert forall|i: int| 0 <= i < 2 implies s[i] == t[i] by {
            assert(s.take(2)[i] == t.take(2)[i]);
        }
    }

    proof fn lemma_decode_encode(&self) {
        lemma_u16_roundtrip(i16_to_u16(self.value));
        lemma_i16_roundtrip(self.value);
        let e = self.encode();
    }
}

impl FixedSizeVariation for Group30Var4 {
    proof fn lemma_size_bound() {
    }
}

impl FixedSize for Group30Var3 {
    open spec fn spec_size() -> nat {
        4
    }

    proof fn lemma_size_positive() {
    }

    open spec fn decode(s: Seq<u8>) -> Group30Var3 {
        Group30Var3 {
            value: u32_to_i32(le_u32(s)),
        }
    }

    open spec fn encode(&self) -> Seq<u8> {
        u32_le_bytes(i32_to_u32(self.value))
    }

    open spec fn canonical(&self) -> bool {
        true
    }

    fn size() -> (n: u8) {
        4
    }

    fn read(cursor: &mut ReadCursor) -> (res: Result<Self, ReadError>) {
        if cursor.len() < 4 {
            return Err(ReadError);
        }
        let ghost s = cursor@;
        let value = cursor.read_i32_le()?;
        proof {
            assert(cursor@ =~= s.skip(4));
        }
        Ok(Group30Var3 { value })
    }

    fn write(&self, cursor: &mut WriteCursor) -> (res: Result<(), WriteError>) {
        if cursor.remaining() < 4 {
            return Err(WriteError);
        }
        let ghost c0 = *cursor;
        let _ = cursor.write_i32_le(self.value);
        proof {
            assert(cursor.buffer() =~= spliced(c0.buffer(), c0.position() as int, self.encode()));
        }
        Ok(())
    }

    proof fn lemma_encode_len(&self) {
    }

    proof fn lemma_decode_prefix(s: Seq<u8>, t: Seq<u8>) {
        assert forall|i: int| 0 <= i < 4 implies s[i] == t[i] by {
            assert(s.take(4)[i] == t.take(4)[i]);
        }
    }

    proof fn lemma_decode_encode(&self) {
        lemma_u32_roundtrip(i32_to_u32(self.value));
        lemma_i32_roundtrip(self.value);
        let e = self.encode();
    }
}

impl FixedSizeVariation for Group30Var3 {
    proof fn lemma_size_bound() {
    }
}

impl FixedSize for Group30Var2 {
    open spec fn spec_size() -> nat {
        3
    }

    proof fn lemma_size_positive() {
    }

    open spec fn decode(s: Seq<u8>) -> Group30Var2 {
        Group30Var2 {
            flags: s[0],
            value: u16_to_i16(le_u16(s.skip(1))),
        }
    }

    open spec fn encode(&self) -> Seq<u8> {
        seq![self.flags] + u16_le_bytes(i16_to_u16(self.value))
    }

    open spec fn canonical(&self) -> bool {
        true
    }

    fn size() -> (n: u8) {
        3
    }

    fn read(cursor: &mut ReadCursor) -> (res: Result<Self, ReadError>) {
        if cursor.len() < 3 {
            return Err(ReadError);
        }
        let ghost s = cursor@;
        let flags = cursor.read_u8()?;
        proof {
            assert(cursor@ =~= s.skip(1));
        }
        let value = cursor.read_i16_le()?;
        proof {
            assert(cursor@ =~= s.skip(3));
        }
        Ok(Group30Var2 { flags, value })
    }

    fn write(&self, cursor: &mut WriteCursor) -> (res: Result<(), WriteError>) {
        if cursor.remaining() < 3 {
            return Err(WriteError);
        }
        let ghost c0 = *cursor;
        let _ = cursor.write_u8(self.flags);
        let _ = cursor.write_i16_le(self.value);
        proof {
            assert(cursor.buffer() =~= spliced(c0.buffer(), c0.position() as int, self.encode()));
        }
        Ok(())
    }

    proof fn lemma_encode_len(&self) {
    }

    proof fn lemma_decode_prefix(s: Seq<u8>, t: Seq<u8>) {
        assert forall|i: int| 0 <= i < 3 implies s[i] == t[i] by {
            assert(s.take(3)[i] == t.take(3)[i]);
        }
        assert(s.skip(1).take(2) =~= t.skip(1).take(2));
    }

    proof fn lemma_decode_encode(&self) {
        lemma_u16_roundtrip(i16_to_u16(self.value));
        lemma_i16_roundtrip(self.value);
        let e = self.encode();
        assert(e.skip(1).take(2) =~= u16_le_bytes(i16_to_u16(self.value)));
    }
}

impl FixedSizeVariation for Group30Var2 {
    proof fn lemma_size_bound() {
    }
}

impl FixedSize for Group30Var1 {
    open spec fn spec_size() -> nat {
        5
    }

    proof fn lemma_size_positive() {
    }

    open spec fn decode(s: Seq<u8>) -> Group30Var1 {
        Group30Var1 {
            flags: s[0],
            value: u32_to_i32(le_u32(s.skip(1))),
        }
    }

    open spec fn encode(&self) -> Seq<u8> {
        seq![self.flags] + u32_le_bytes(i32_to_u32(self.value))
    }

    open spec fn canonical(&self) -> bool {
        true
    }

    fn size() -> (n: u8) {
        5
    }

    fn read(cursor: &mut ReadCursor) -> (res: Result<Self, ReadError>) {
        if cursor.len() < 5 {
            return Err(ReadError);
        }
        let ghost s = cursor@;
        let flags = cursor.read_u8()?;
        proof {
            assert(cursor@ =~= s.skip(1));
        }
        let value = cursor.read_i32_le()?;
        proof {
            assert(cursor@ =~= s.skip(5));
        }
        Ok(Group30Var1 { flags, value })
    }

    fn write(&self, cursor: &mut WriteCursor) -> (res: Result<(), WriteError>) {
        if cursor.remaining() < 5 {
            return Err(WriteError);
        }
        let ghost c0 = *cursor;
        let _ = cursor.write_u8(self.flags);
        let _ = cursor.write_i32_le(self.value);
        proof {
            assert(cursor.buffer() =~= spliced(c0.buffer(), c0.position() as int, self.encode()));
        }
        Ok(())
    }

    proof fn lemma_encode_len(&self) {
    }

    proof fn lemma_decode_prefix(s: Seq<u8>, t: Seq<u8>) {
        assert forall|i: int| 0 <= i < 5 implies s[i] == t[i] by {
            assert(s.take(5)[i] == t.take(5)[i]);
        }
        assert(s.skip(1).take(4) =~= t.skip(1).take(4));
    }

    proof fn lemma_decode_encode(&self) {
        lemma_u32_roundtrip(i32_to_u32(self.value));
        lemma_i32_roundtrip(self.value);
        let e = self.encode();
        assert(e.skip(1).take(4) =~= u32_le_bytes(i32_to_u32(self.value)));
    }
}

impl FixedSizeVariation for Group30Var1 {
    proof fn lemma_size_bound() {
    }
}

impl FixedSize for Group23Var6 {
    open spec fn spec_size() -> nat {
        9
    }

    proof fn lemma_size_positive() {
    }

    open spec fn decode(s: Seq<u8>) -> Group23Var6 {
        Group23Var6 {
            flags: s[0],
            value: le_u16(s.skip(1)),
            time: Timestamp { value: le_u48(s.skip(3)) },
        }
    }

    open spec fn encode(&self) -> Seq<u8> {
        seq![self.flags] + u16_le_bytes(self.value) + u48_le_bytes(self.time.value)
    }

    open spec fn canonical(&self) -> bool {
        self.time.value < 0x1_0000_0000_0000
    }

    fn size() -> (n: u8) {
        9
    }

    fn read(cursor: &mut ReadCursor) -> (res: Result<Self, ReadError>) {
        if cursor.len() < 9 {
            return Err(ReadError);
        }
        let ghost s = cursor@;
        let flags = cursor.read_u8()?;
        proof {
            assert(cursor@ =~= s.skip(1));
        }
        let value = cursor.read_u16_le()?;
        proof {
            assert(cursor@ =~= s.skip(3));
        }
        let time = Timestamp { value: cursor.read_u48_le()? };
        proof {
            assert(cursor@ =~= s.skip(9));
        }
        Ok(Group23Var6 { flags, value, time })
    }

    fn write(&self, cursor: &mut WriteCursor) -> (res: Result<(), WriteError>) {
        if cursor.remaining() < 9 {
            return Err(WriteError);
        }
        let ghost c0 = *cursor;
        let _ = cursor.write_u8(self.flags);
        let _ = cursor.write_u16_le(self.value);
        let _ = cursor.write_u48_le(self.time.value);
        proof {
            assert(cursor.buffer() =~= spliced(c0.buffer(), c0.position() as int, self.encode()));
        }
        Ok(())
    }

    proof fn lemma_encode_len(&self) {
    }

    proof fn lemma_decode_prefix(s: Seq<u8>, t: Seq<u8>) {
        assert forall|i: int| 0 <= i < 9 implies s[i] == t[i] by {
            assert(s.take(9)[i] == t.take(9)[i]);
        }
        assert(s.skip(1).take(2) =~= t.skip(1).take(2));
        assert(s.skip(3).take(6) =~= t.skip(3).take(6));
        lemma_u48_bytes_roundtrip(s.skip(3));
    }

    proof fn lemma_decode_encode(&self) {
        lemma_u16_roundtrip(self.value);
        lemma_u48_roundtrip(self.time.value);
        let e = self.encode();
        assert(e.skip(1).take(2) =~= u16_le_bytes(self.value));
        assert(e.skip(3).take(6) =~= u48_le_bytes(self.time.value));
    }
}

impl FixedSizeVariation for Group23Var6 {
    proof fn lemma_size_bound() {
    }
}

impl FixedSize for Group23Var5 {
    open spec fn spec_size() -> nat {
        11
    }

    proof fn lemma_size_positive() {
    }

    open spec fn decode(s: Seq<u8>) -> Group23Var5 {
        Group23Var5 {
            flags: s[0],
            value: le_u32(s.skip(1)),
            time: Timestamp { value: le_u48(s.skip(5)) },
        }
    }

    open spec fn encode(&self) -> Seq<u8> {
        seq![self.flags] + u32_le_bytes(self.value) + u48_le_bytes(self.time.value)
    }

    open spec fn canonical(&self) -> bool {
        self.time.value < 0x1_0000_0000_0000
    }

    fn size() -> (n: u8) {
        11
    }

    fn read(cursor: &mut ReadCursor) -> (res: Result<Self, ReadError>) {
        if cursor.len() < 11 {
            return Err(ReadError);
        }
        let ghost s = cursor@;
        let flags = cursor.read_u8()?;
        proof {
            assert(cursor@ =~= s.skip(1));
        }
        let value = cursor.read_u32_le()?;
        proof {
            assert(cursor@ =~= s.skip(5));
        }
        let time = Timestamp { value: cursor.read_u48_le()? };
        proof {
            assert(cursor@ =~= s.skip(11));
        }
        Ok(Group23Var5 { flags, value, time })
    }

    fn write(&self, cursor: &mut WriteCursor) -> (res: Result<(), WriteError>) {
        if cursor.remaining() < 11 {
            return Err(WriteError);
        }
        let ghost c0 = *cursor;
        let _ = cursor.write_u8(self.flags);
        let _ = cursor.write_u32_le(self.value);
        let _ = cursor.write_u48_le(self.time.value);
        proof {
            assert(cursor.buffer() =~= spliced(c0.buffer(), c0.position() as int, self.encode()));
        }
        Ok(())
    }

    proof fn lemma_encode_len(&self) {
    }

    proof fn lemma_decode_prefix(s: Seq<u8>, t: Seq<u8>) {
        assert forall|i: int| 0 <= i < 11 implies s[i] == t[i] by {
            assert(s.take(11)[i] == t.take(11)[i]);
        }
        assert(s.skip(1).take(4) =~= t.skip(1).take(4));
        assert(s.skip(5).take(6) =~= t.skip(5).take(6));
        lemma_u48_bytes_roundtrip(s.skip(5));
    }

    proof fn lemma_decode_encode(&self) {
        lemma_u32_roundtrip(self.value);
        lemma_u48_roundtrip(self.time.value);
        let e = self.encode();
        assert(e.skip(1).take(4) =~= u32_le_bytes(self.value));
        assert(e.skip(5).take(6) =~= u48_le_bytes(self.time.value));
    }
}

impl FixedSizeVariation for Group23Var5 {
    proof fn lemma_size_bound() {
    }
}

impl FixedSize for Group23Var2 {
    open spec fn spec_size() -> nat {
        3
    }

    proof fn lemma_size_positive() {
    }

    open spec fn decode(s: Seq<u8>) -> Group23Var2 {
        Group23Var2 {
            flags: s[0],
            value: le_u16(s.skip(1)),
        }
    }

    open spec fn encode(&self) -> Seq<u8> {
        seq![self.flags] + u16_le_bytes(self.value)
    }

    open spec fn canonical(&self) -> bool {
        true
    }

    fn size() -> (n: u8) {
        3
    }

    fn read(cursor: &mut ReadCursor) -> (res: Result<Self, ReadError>) {
        if cursor.len() < 3 {
            return Err(ReadError);
        }
        let ghost s = cursor@;
        let flags = cursor.read_u8()?;
        proof {
            assert(cursor@ =~= s.skip(1));
        }
        let value = cursor.read_u16_le()?;
        proof {
            assert(cursor@ =~= s.skip(3));
        }
        Ok(Group23Var2 { flags, value })
    }

    fn write(&self, cursor: &mut WriteCursor) -> (res: Result<(), WriteError>) {
        if cursor.remaining() < 3 {
            return Err(WriteError);
        }
        let ghost c0 = *cursor;
        let _ = cursor.write_u8(self.flags);
        let _ = cursor.write_u16_le(self.value);
        proof {
            assert(cursor.buffer() =~= spliced(c0.buffer(), c0.position() as int, self.encode()));
        }
        Ok(())
    }

    proof fn lemma_encode_len(&self) {
    }

    proof fn lemma_decode_prefix(s: Seq<u8>, t: Seq<u8>) {
        assert forall|i: int| 0 <= i < 3 implies s[i] == t[i] by {
            assert(s.take(3)[i] == t.take(3)[i]);
        }
        assert(s.skip(1).take(2) =~= t.skip(1).take(2));
    }

    proof fn lemma_decode_encode(&self) {
        lemma_u16_roundtrip(self.value);
        let e = self.encode();
        assert(e.skip(1).take(2) =~= u16_le_bytes(self.value));
    }
}

impl FixedSizeVariation for Group23Var2 {
    proof fn lemma_size_bound() {
    }
}

impl FixedSize for Group23Var1 {
    open spec fn spec_size() -> nat {
        5
    }

    proof fn lemma_size_positive() {
    }

    open spec fn decode(s: Seq<u8>) -> Group23Var1 {
        Group23Var1 {
            flags: s[0],
            value: le_u32(s.skip(1)),
        }
    }

    open spec fn encode(&self) -> Seq<u8> {
        seq![self.flags] + u32_le_bytes(self.value)
    }

    open spec fn canonical(&self) -> bool {
        true
    }

    fn size() -> (n: u8) {
        5
    }

    fn read(cursor: &mut ReadCursor) -> (res: Result<Self, ReadError>) {
        if cursor.len() < 5 {
            return Err(ReadError);
        }
        let ghost s = cursor@;
        let flags = cursor.read_u8()?;
        proof {
            assert(cursor@ =~= s.skip(1));
        }
        let value = cursor.read_u32_le()?;
        proof {
            assert(cursor@ =~= s.skip(5));
        }
        Ok(Group23Var1 { flags, value })
    }

    fn write(&self, cursor: &mut WriteCursor) -> (res: Result<(), WriteError>) {
        if cursor.remaining() < 5 {
            return Err(WriteError);
        }
        let ghost c0 = *cursor;
        let _ = cursor.write_u8(self.flags);
        let _ = cursor.write_u32_le(self.value);
        proof {
            assert(cursor.buffer() =~= spliced(c0.buffer(), c0.position() as int, self.encode()));
        }
        Ok(())
    }

    proof fn lemma_encode_len(&self) {
    }

    proof fn lemma_decode_prefix(s: Seq<u8>, t: Seq<u8>) {
        assert forall|i: int| 0 <= i < 5 implies s[i] == t[i] by {
            assert(s.take(5)[i] == t.take(5)[i]);
        }
        assert(s.skip(1).take(4) =~= t.skip(1).take(4));
    }

    proof fn lemma_decode_encode(&self) {
        lemma_u32_roundtrip(self.value);
        let e = self.encode();
        assert(e.skip(1).take(4) =~= u32_le_bytes(self.value));
    }
}

impl FixedSizeVariation for Group23Var1 {
    proof fn lemma_size_bound() {
    }
}

impl FixedSize for Group22Var6 {
    open spec fn spec_size() -> nat {
        9
    }

    proof fn lemma_size_positive() {
    }

    open spec fn decode(s: Seq<u8>) -> Group22Var6 {
        Group22Var6 {
            flags: s[0],
            value: le_u16(s.skip(1)),
            time: Timestamp { value: le_u48(s.skip(3)) },
        }
    }

    open spec fn encode(&self) -> Seq<u8> {
        seq![self.flags] + u16_le_bytes(self.value) + u48_le_bytes(self.time.value)
    }

    open spec fn canonical(&self) -> bool {
        self.time.value < 0x1_0000_0000_0000
    }

    fn size() -> (n: u8) {
        9
    }

    fn read(cursor: &mut ReadCursor) -> (res: Result<Self, ReadError>) {
        if cursor.len() < 9 {
            return Err(ReadError);
        }
        let ghost s = cursor@;
        let flags = cursor.read_u8()?;
        proof {
            assert(cursor@ =~= s.skip(1));
        }
        let value = cursor.read_u16_le()?;
        proof {
            assert(cursor@ =~= s.skip(3));
        }
        let time = Timestamp { value: cursor.read_u48_le()? };
        proof {
            assert(cursor@ =~= s.skip(9));
        }
        Ok(Group22Var6 { flags, value, time })
    }

    fn write(&self, cursor: &mut WriteCursor) -> (res: Result<(), WriteError>) {
        if cursor.remaining() < 9 {
            return Err(WriteError);
        }
        let ghost c0 = *cursor;
        let _ = cursor.write_u8(self.flags);
        let _ = cursor.write_u16_le(self.value);
        let _ = cursor.write_u48_le(self.time.value);
        proof {
            assert(cursor.buffer() =~= spliced(c0.buffer(), c0.position() as int, self.encode()));
        }
        Ok(())
    }

    proof fn lemma_encode_len(&self) {
    }

    proof fn lemma_decode_prefix(s: Seq<u8>, t: Seq<u8>) {
        assert forall|i: int| 0 <= i < 9 implies s[i] == t[i] by {
            assert(s.take(9)[i] == t.take(9)[i]);
        }
        assert(s.skip(1).take(2) =~= t.skip(1).take(2));
        assert(s.skip(3).take(6) =~= t.skip(3).take(6));
        lemma_u48_bytes_roundtrip(s.skip(3));
    }

    proof fn lemma_decode_encode(&self) {
        lemma_u16_roundtrip(self.value);
        lemma_u48_roundtrip(self.time.value);
        let e = self.encode();
        assert(e.skip(1).take(2) =~= u16_le_bytes(self.value));
        assert(e.skip(3).take(6) =~= u48_le_bytes(self.time.value));
    }
}

impl FixedSizeVariation for Group22Var6 {
    proof fn lemma_size_bound() {
    }
}

impl FixedSize for Group22Var5 {
    open spec fn spec_size() -> nat {
        11
    }

    proof fn lemma_size_positive() {
    }

    open spec fn decode(s: Seq<u8>) -> Group22Var5 {
        Group22Var5 {
            flags: s[0],
            value: le_u32(s.skip(1)),
            time: Timestamp { value: le_u48(s.skip(5)) },
        }
    }

    open spec fn encode(&self) -> Seq<u8> {
        seq![self.flags] + u32_le_bytes(self.value) + u48_le_bytes(self.time.value)
    }

    open spec fn canonical(&self) -> bool {
        self.time.value < 0x1_0000_0000_0000
    }

    fn size() -> (n: u8) {
        11
    }

    fn read(cursor: &mut ReadCursor) -> (res: Result<Self, ReadError>) {
        if cursor.len() < 11 {
            return Err(ReadError);
        }
        let ghost s = cursor@;
        let flags = cursor.read_u8()?;
        proof {
            assert(cursor@ =~= s.skip(1));
        }
        let value = cursor.read_u32_le()?;
        proof {
            assert(cursor@ =~= s.skip(5));
        }
        let time = Timestamp { value: cursor.read_u48_le()? };
        proof {
            assert(cursor@ =~= s.skip(11));
        }
        Ok(Group22Var5 { flags, value, time })
    }

    fn write(&self, cursor: &mut WriteCursor) -> (res: Result<(), WriteError>) {
        if cursor.remaining() < 11 {
            return Err(WriteError);
        }
        let ghost c0 = *cursor;
        let _ = cursor.write_u8(self.flags);
        let _ = cursor.write_u32_le(self.value);
        let _ = cursor.write_u48_le(self.time.value);
        proof {
            assert(cursor.buffer() =~= spliced(c0.buffer(), c0.position() as int, self.encode()));
        }
        Ok(())
    }

    proof fn lemma_encode_len(&self) {
    }

    proof fn lemma_decode_prefix(s: Seq<u8>, t: Seq<u8>) {
        assert forall|i: int| 0 <= i < 11 implies s[i] == t[i] by {
            assert(s.take(11)[i] == t.take(11)[i]);
        }
        assert(s.skip(1).take(4) =~= t.skip(1).take(4));
        assert(s.skip(5).take(6) =~= t.skip(5).take(6));
        lemma_u48_bytes_roundtrip(s.skip(5));
    }

    proof fn lemma_decode_encode(&self) {
        lemma_u32_roundtrip(self.value);
        lemma_u48_roundtrip(self.time.value);
        let e = self.encode();
        assert(e.skip(1).take(4) =~= u32_le_bytes(self.value));
        assert(e.skip(5).take(6) =~= u48_le_bytes(self.time.value));
    }
}

impl FixedSizeVariation for Group22Var5 {
    proof fn lemma_size_bound() {
    }
}

impl FixedSize for Group22Var2 {
    open spec fn spec_size() -> nat {
        3
    }

    proof fn lemma_size_positive() {
    }

    open spec fn decode(s: Seq<u8>) -> Group22Var2 {
        Group22Var2 {
            flags: s[0],
            value: le_u16(s.skip(1)),
        }
    }

    open spec fn encode(&self) -> Seq<u8> {
        seq![self.flags] + u16_le_bytes(self.value)
    }

    open spec fn canonical(&self) -> bool {
        true
    }

    fn size() -> (n: u8) {
        3
    }

    fn read(cursor: &mut ReadCursor) -> (res: Result<Self, ReadError>) {
        if cursor.len() < 3 {
            return Err(ReadError);
        }
        let ghost s = cursor@;
        let flags = cursor.read_u8()?;
        proof {
            assert(cursor@ =~= s.skip(1));
        }
        let value = cursor.read_u16_le()?;
        proof {
            assert(cursor@ =~= s.skip(3));
        }
        Ok(Group22Var2 { flags, value })
    }

    fn write(&self, cursor: &mut WriteCursor) -> (res: Result<(), WriteError>) {
        if cursor.remaining() < 3 {
            return Err(WriteError);
        }
        let ghost c0 = *cursor;
        let _ = cursor.write_u8(self.flags);
        let _ = cursor.write_u16_le(self.value);
        proof {
            assert(cursor.buffer() =~= spliced(c0.buffer(), c0.position() as int, self.encode()));
        }
        Ok(())
    }

    proof fn lemma_encode_len(&self) {
    }

    proof fn lemma_decode_prefix(s: Seq<u8>, t: Seq<u8>) {
        assert forall|i: int| 0 <= i < 3 implies s[i] == t[i] by {
            assert(s.take(3)[i] == t.take(3)[i]);
        }
        assert(s.skip(1).take(2) =~= t.skip(1).take(2));
    }

    proof fn lemma_decode_encode(&self) {
        lemma_u16_roundtrip(self.value);
        let e = self.encode();
        assert(e.skip(1).take(2) =~= u16_le_bytes(self.value));
    }
}

impl FixedSizeVariation for Group22Var2 {
    proof fn lemma_size_bound() {
    }
}

impl FixedSize for Group22Var1 {
    open spec fn spec_size() -> nat {
        5
    }

    proof fn lemma_size_positive() {
    }

    open spec fn decode(s: Seq<u8>) -> Group22Var1 {
        Group22Var1 {
            flags: s[0],
            value: le_u32(s.skip(1)),
        }
    }

    open spec fn encode(&self) -> Seq<u8> {
        seq![self.flags] + u32_le_bytes(self.value)
    }

    open spec fn canonical(&self) -> bool {
        true
    }

    fn size() -> (n: u8) {
        5
    }

    fn read(cursor: &mut ReadCursor) -> (res: Result<Self, ReadError>) {
        if cursor.len() < 5 {
            return Err(ReadError);
        }
        let ghost s = cursor@;
        let flags = cursor.read_u8()?;
        proof {
            assert(cursor@ =~= s.skip(1));
        }
        let value = cursor.read_u32_le()?;
        proof {
            assert(cursor@ =~= s.skip(5));
        }
        Ok(Group22Var1 { flags, value })
    }

    fn write(&self, cursor: &mut WriteCursor) -> (res: Result<(), WriteError>) {
        if cursor.remaining() < 5 {
            return Err(WriteError);
        }
        let ghost c0 = *cursor;
        let _ = cursor.write_u8(self.flags);
        let _ = cursor.write_u32_le(self.value);
        proof {
            assert(cursor.buffer() =~= spliced(c0.buffer(), c0.position() as int, self.encode()));
        }
        Ok(())
    }

    proof fn lemma_encode_len(&self) {
    }

    proof fn lemma_decode_prefix(s: Seq<u8>, t: Seq<u8>) {
        assert forall|i: int| 0 <= i < 5 implies s[i] == t[i] by {
            assert(s.take(5)[i] == t.take(5)[i]);
        }
        assert(s.skip(1).take(4) =~= t.skip(1).take(4));
    }

    proof fn lemma_decode_encode(&self) {
        lemma_u32_roundtrip(self.value);
        let e = self.encode();
        assert(e.skip(1).take(4) =~= u32_le_bytes(self.value));
    }
}

impl FixedSizeVariation for Group22Var1 {
    proof fn lemma_size_bound() {
    }
}

impl FixedSize for Group21Var10 {
    open spec fn spec_size() -> nat {
        2
    }

    proof fn lemma_size_positive() {
    }

    open spec fn decode(s: Seq<u8>) -> Group21Var10 {
        Group21Var10 {
            value: le_u16(s),
        }
    }

    open spec fn encode(&self) -> Seq<u8> {
        u16_le_bytes(self.value)
    }

    open spec fn canonical(&self) -> bool {
        true
    }

    fn size() -> (n: u8) {
        2
    }

    fn read(cursor: &mut ReadCursor) -> (res: Result<Self, ReadError>) {
        if cursor.len() < 2 {
            return Err(ReadError);
        }
        let ghost s = cursor@;
        let value = cursor.read_u16_le()?;
        proof {
            assert(cursor@ =~= s.skip(2));
        }
        Ok(Group21Var10 { value })
    }

    fn write(&self, cursor: &mut WriteCursor) -> (res: Result<(), WriteError>) {
        if cursor.remaining() < 2 {
            return Err(WriteError);
        }
        let ghost c0 = *cursor;
        let _ = cursor.write_u16_le(self.value);
        proof {
            assert(cursor.buffer() =~= spliced(c0.buffer(), c0.position() as int, self.encode()));
        }
        Ok(())
    }

    proof fn lemma_encode_len(&self) {
    }

    proof fn lemma_decode_prefix(s: Seq<u8>, t: Seq<u8>) {
        assert forall|i: int| 0 <= i < 2 implies s[i] == t[i] by {
            assert(s.take(2)[i] == t.take(2)[i]);
        }
    }

    proof fn lemma_decode_encode(&self) {
        lemma_u16_roundtrip(self.value);
        let e = self.encode();
    }
}

impl FixedSizeVariation for Group21Var10 {
    proof fn lemma_size_bound() {
    }
}

impl FixedSize for Group21Var9 {
    open spec fn spec_size() -> nat {
        4
    }

    proof fn lemma_size_positive() {
    }

    open spec fn decode(s: Seq<u8>) -> Group21Var9 {
        Group21Var9 {
            value: le_u32(s),
        }
    }

    open spec fn encode(&self) -> Seq<u8> {
        u32_le_bytes(self.value)
    }

    open spec fn canonical(&self) -> bool {
        true
    }

    fn size() -> (n: u8) {
        4
    }

    fn read(cursor: &mut ReadCursor) -> (res: Result<Self, ReadError>) {
        if cursor.len() < 4 {
            return Err(ReadError);
        }
        let ghost s = cursor@;
        let value = cursor.read_u32_le()?;
        proof {
            assert(cursor@ =~= s.skip(4));
        }
        Ok(Group21Var9 { value })
    }

    fn write(&self, cursor: &mut WriteCursor) -> (res: Result<(), WriteError>) {
        if cursor.remaining() < 4 {
            return Err(WriteError);
        }
        let ghost c0 = *cursor;
        let _ = cursor.write_u32_le(self.value);
        proof {
            assert(cursor.buffer() =~= spliced(c0.buffer(), c0.position() as int, self.encode()));
        }
        Ok(())
    }

    proof fn lemma_encode_len(&self) {
    }

    proof fn lemma_decode_prefix(s: Seq<u8>, t: Seq<u8>) {
        assert forall|i: int| 0 <= i < 4 implies s[i] == t[i] by {
            assert(s.take(4)[i] == t.take(4)[i]);
        }
    }

    proof fn lemma_decode_encode(&self) {
        lemma_u32_roundtrip(self.value);
        let e = self.encode();
    }
}

impl FixedSizeVariation for Group21Var9 {
    proof fn lemma_size_bound() {
    }
}

impl FixedSize for Group21Var6 {
    open spec fn spec_size() -> nat {
        9
    }

    proof fn lemma_size_positive() {
    }

    open spec fn decode(s: Seq<u8>) -> Group21Var6 {
        Group21Var6 {
            flags: s[0],
            value: le_u16(s.skip(1)),
            time: Timestamp { value: le_u48(s.skip(3)) },
        }
    }

    open spec fn encode(&self) -> Seq<u8> {
        seq![self.flags] + u16_le_bytes(self.value) + u48_le_bytes(self.time.value)
    }

    open spec fn canonical(&self) -> bool {
        self.time.value < 0x1_0000_0000_0000
    }

    fn size() -> (n: u8) {
        9
    }

    fn read(cursor: &mut ReadCursor) -> (res: Result<Self, ReadError>) {
        if cursor.len() < 9 {
            return Err(ReadError);
        }
        let ghost s = cursor@;
        let flags = cursor.read_u8()?;
        proof {
            assert(cursor@ =~= s.skip(1));
        }
        let value = cursor.read_u16_le()?;
        proof {
            assert(cursor@ =~= s.skip(3));
        }
        let time = Timestamp { value: cursor.read_u48_le()? };
        proof {
            assert(cursor@ =~= s.skip(9));
        }
        Ok(Group21Var6 { flags, value, time })
    }

    fn write(&self, cursor: &mut WriteCursor) -> (res: Result<(), WriteError>) {
        if cursor.remaining() < 9 {
            return Err(WriteError);
        }
        let ghost c0 = *cursor;
        let _ = cursor.write_u8(self.flags);
        let _ = cursor.write_u16_le(self.value);
        let _ = cursor.write_u48_le(self.time.value);
        proof {
            assert(cursor.buffer() =~= spliced(c0.buffer(), c0.position() as int, self.encode()));
        }
        Ok(())
    }

    proof fn lemma_encode_len(&self) {
    }

    proof fn lemma_decode_prefix(s: Seq<u8>, t: Seq<u8>) {
        assert forall|i: int| 0 <= i < 9 implies s[i] == t[i] by {
            assert(s.take(9)[i] == t.take(9)[i]);
        }
        assert(s.skip(1).take(2) =~= t.skip(1).take(2));
        assert(s.skip(3).take(6) =~= t.skip(3).take(6));
        lemma_u48_bytes_roundtrip(s.skip(3));
    }

    proof fn lemma_decode_encode(&self) {
        lemma_u16_roundtrip(self.value);
        lemma_u48_roundtrip(self.time.value);
        let e = self.encode();
        assert(e.skip(1).take(2) =~= u16_le_bytes(self.value));
        assert(e.skip(3).take(6) =~= u48_le_bytes(self.time.value));
    }
}

impl FixedSizeVariation for Group21Var6 {
    proof fn lemma_size_bound() {
    }
}

impl FixedSize for Group21Var5 {
    open spec fn spec_size() -> nat {
        11
    }

    proof fn lemma_size_positive() {
    }

    open spec fn decode(s: Seq<u8>) -> Group21Var5 {
        Group21Var5 {
            flags: s[0],
            value: le_u32(s.skip(1)),
            time: Timestamp { value: le_u48(s.skip(5)) },
        }
    }

    open spec fn encode(&self) -> Seq<u8> {
        seq![self.flags] + u32_le_bytes(self.value) + u48_le_bytes(self.time.value)
    }

    open spec fn canonical(&self) -> bool {
        self.time.value < 0x1_0000_0000_0000
    }

    fn size() -> (n: u8) {
        11
    }

    fn read(cursor: &mut ReadCursor) -> (res: Result<Self, ReadError>) {
        if cursor.len() < 11 {
            return Err(ReadError);
        }
        let ghost s = cursor@;
        let flags = cursor.read_u8()?;
        proof {
            assert(cursor@ =~= s.skip(1));
        }
        let value = cursor.read_u32_le()?;
        proof {
            assert(cursor@ =~= s.skip(5));
        }
        let time = Timestamp { value: cursor.read_u48_le()? };
        proof {
            assert(cursor@ =~= s.skip(11));
        }
        Ok(Group21Var5 { flags, value, time })
    }

    fn write(&self, cursor: &mut WriteCursor) -> (res: Result<(), WriteError>) {
        if cursor.remaining() < 11 {
            return Err(WriteError);
        }
        let ghost c0 = *cursor;
        let _ = cursor.write_u8(self.flags);
        let _ = cursor.write_u32_le(self.value);
        let _ = cursor.write_u48_le(self.time.value);
        proof {
            assert(cursor.buffer() =~= spliced(c0.buffer(), c0.position() as int, self.encode()));
        }
        Ok(())
    }

    proof fn lemma_encode_len(&self) {
    }

    proof fn lemma_decode_prefix(s: Seq<u8>, t: Seq<u8>) {
        assert forall|i: int| 0 <= i < 11 implies s[i] == t[i] by {
            assert(s.take(11)[i] == t.take(11)[i]);
        }
        assert(s.skip(1).take(4) =~= t.skip(1).take(4));
        assert(s.skip(5).take(6) =~= t.skip(5).take(6));
        lemma_u48_bytes_roundtrip(s.skip(5));
    }

    proof fn lemma_decode_encode(&self) {
        lemma_u32_roundtrip(self.value);
        lemma_u48_roundtrip(self.time.value);
        let e = self.encode();
        assert(e.skip(1).take(4) =~= u32_le_bytes(self.value));
        assert(e.skip(5).take(6) =~= u48_le_bytes(self.time.value));
    }
}

impl FixedSizeVariation for Group21Var5 {
    proof fn lemma_size_bound() {
    }
}

impl FixedSize for Group21Var2 {
    open spec fn spec_size() -> nat {
        3
    }

    proof fn lemma_size_positive() {
    }

    open spec fn decode(s: Seq<u8>) -> Group21Var2 {
        Group21Var2 {
            flags: s[0],
            value: le_u16(s.skip(1)),
        }
    }

    open spec fn encode(&self) -> Seq<u8> {
        seq![self.flags] + u16_le_bytes(self.value)
    }

    open spec fn canonical(&self) -> bool {
        true
    }

    fn size() -> (n: u8) {
        3
    }

    fn read(cursor: &mut ReadCursor) -> (res: Result<Self, ReadError>) {
        if cursor.len() < 3 {
            return Err(ReadError);
        }
        let ghost s = cursor@;
        let flags = cursor.read_u8()?;
        proof {
            assert(cursor@ =~= s.skip(1));
        }
        let value = cursor.read_u16_le()?;
        proof {
            assert(cursor@ =~= s.skip(3));
        }
        Ok(Group21Var2 { flags, value })
    }

    fn write(&self, cursor: &mut WriteCursor) -> (res: Result<(), WriteError>) {
        if cursor.remaining() < 3 {
            return Err(WriteError);
        }
        let ghost c0 = *cursor;
        let _ = cursor.write_u8(self.flags);
        let _ = cursor.write_u16_le(self.value);
        proof {
            assert(cursor.buffer() =~= spliced(c0.buffer(), c0.position() as int, self.encode()));
        }
        Ok(())
    }

    proof fn lemma_encode_len(&self) {
    }

    proof fn lemma_decode_prefix(s: Seq<u8>, t: Seq<u8>) {
        assert forall|i: int| 0 <= i < 3 implies s[i] == t[i] by {
            assert(s.take(3)[i] == t.take(3)[i]);
        }
        assert(s.skip(1).take(2) =~= t.skip(1).take(2));
    }

    proof fn lemma_decode_encode(&self) {
        lemma_u16_roundtrip(self.value);
        let e = self.encode();
        assert(e.skip(1).take(2) =~= u16_le_bytes(self.value));
    }
}

impl FixedSizeVariation for Group21Var2 {
    proof fn lemma_size_bound() {
    }
}

impl FixedSize for Group21Var1 {
    open spec fn spec_size() -> nat {
        5
    }

    proof fn lemma_size_positive() {
    }

    open spec fn decode(s: Seq<u8>) -> Group21Var1 {
        Group21Var1 {
            flags: s[0],
            value: le_u32(s.skip(1)),
        }
    }

    open spec fn encode(&self) -> Seq<u8> {
        seq![self.flags] + u32_le_bytes(self.value)
    }

    open spec fn canonical(&self) -> bool {
        true
    }

    fn size() -> (n: u8) {
        5
    }

    fn read(cursor: &mut ReadCursor) -> (res: Result<Self, ReadError>) {
        if cursor.len() < 5 {
            return Err(ReadError);
        }
        let ghost s = cursor@;
        let flags = cursor.read_u8()?;
        proof {
            assert(cursor@ =~= s.skip(1));
        }
        let value = cursor.read_u32_le()?;
        proof {
            assert(cursor@ =~= s.skip(5));
        }
        Ok(Group21Var1 { flags, value })
    }

    fn write(&self, cursor: &mut WriteCursor) -> (res: Result<(), WriteError>) {
        if cursor.remaining() < 5 {
            return Err(WriteError);
        }
        let ghost c0 = *cursor;
        let _ = cursor.write_u8(self.flags);
        let _ = cursor.write_u32_le(self.value);
        proof {
            assert(cursor.buffer() =~= spliced(c0.buffer(), c0.position() as int, self.encode()));
        }
        Ok(())
    }

    proof fn lemma_encode_len(&self) {
    }

    proof fn lemma_decode_prefix(s: Seq<u8>, t: Seq<u8>) {
        assert forall|i: int| 0 <= i < 5 implies s[i] == t[i] by {
            assert(s.take(5)[i] == t.take(5)[i]);
        }
        assert(s.skip(1).take(4) =~= t.skip(1).take(4));
    }

    proof fn lemma_decode_encode(&self) {
        lemma_u32_roundtrip(self.value);
        let e = self.encode();
        assert(e.skip(1).take(4) =~= u32_le_bytes(self.value));
    }
}

impl FixedSizeVariation for Group21Var1 {
    proof fn lemma_size_bound() {
    }
}

impl FixedSize for Group20Var6 {
    open spec fn spec_size() -> nat {
        2
    }

    proof fn lemma_size_positive() {
    }

    open spec fn decode(s: Seq<u8>) -> Group20Var6 {
        Group20Var6 {
            value: le_u16(s),
        }
    }

    open spec fn encode(&self) -> Seq<u8> {
        u16_le_bytes(self.value)
    }

    open spec fn canonical(&self) -> bool {
        true
    }

    fn size() -> (n: u8) {
        2
    }

    fn read(cursor: &mut ReadCursor) -> (res: Result<Self, ReadError>) {
        if cursor.len() < 2 {
            return Err(ReadError);
        }
        let ghost s = cursor@;
        let value = cursor.read_u16_le()?;
        proof {
            assert(cursor@ =~= s.skip(2));
        }
        Ok(Group20Var6 { value })
    }

    fn write(&self, cursor: &mut WriteCursor) -> (res: Result<(), WriteError>) {
        if cursor.remaining() < 2 {
            return Err(WriteError);
        }
        let ghost c0 = *cursor;
        let _ = cursor.write_u16_le(self.value);
        proof {
            assert(cursor.buffer() =~= spliced(c0.buffer(), c0.position() as int, self.encode()));
        }
        Ok(())
    }

    proof fn lemma_encode_len(&self) {
    }

    proof fn lemma_decode_prefix(s: Seq<u8>, t: Seq<u8>) {
        assert forall|i: int| 0 <= i < 2 implies s[i] == t[i] by {
            assert(s.take(2)[i] == t.take(2)[i]);
        }
    }

    proof fn lemma_decode_encode(&self) {
        lemma_u16_roundtrip(self.value);
        let e = self.encode();
    }
}

impl FixedSizeVariation for Group20Var6 {
    proof fn lemma_size_bound() {
    }
}

impl FixedSize for Group20Var5 {
    open spec fn spec_size() -> nat {
        4
    }

    proof fn lemma_size_positive() {
    }

    open spec fn decode(s: Seq<u8>) -> Group20Var5 {
        Group20Var5 {
            value: le_u32(s),
        }
    }

    open spec fn encode(&self) -> Seq<u8> {
        u32_le_bytes(self.value)
    }

    open spec fn canonical(&self) -> bool {
        true
    }

    fn size() -> (n: u8) {
        4
    }

    fn read(cursor: &mut ReadCursor) -> (res: Result<Self, ReadError>) {
        if cursor.len() < 4 {
            return Err(ReadError);
        }
        let ghost s = cursor@;
        let value = cursor.read_u32_le()?;
        proof {
            assert(cursor@ =~= s.skip(4));
        }
        Ok(Group20Var5 { value })
    }

    fn write(&self, cursor: &mut WriteCursor) -> (res: Result<(), WriteError>) {
        if cursor.remaining() < 4 {
            return Err(WriteError);
        }
        let ghost c0 = *cursor;
        let _ = cursor.write_u32_le(self.value);
        proof {
            assert(cursor.buffer() =~= spliced(c0.buffer(), c0.position() as int, self.encode()));
        }
        Ok(())
    }

    proof fn lemma_encode_len(&self) {
    }

    proof fn lemma_decode_prefix(s: Seq<u8>, t: Seq<u8>) {
        assert forall|i: int| 0 <= i < 4 implies s[i] == t[i] by {
            assert(s.take(4)[i] == t.take(4)[i]);
        }
    }

    proof fn lemma_decode_encode(&self) {
        lemma_u32_roundtrip(self.value);
        let e = self.encode();
    }
}

impl FixedSizeVariation for Group20Var5 {
    proof fn lemma_size_bound() {
    }
}

impl FixedSize for Group20Var2 {
    open spec fn spec_size() -> nat {
        3
    }

    proof fn lemma_size_positive() {
    }

    open spec fn decode(s: Seq<u8>) -> Group20Var2 {
        Group20Var2 {
            flags: s[0],
            value: le_u16(s.skip(1)),
        }
    }

    open spec fn encode(&self) -> Seq<u8> {
        seq![self.flags] + u16_le_bytes(self.value)
    }

    open spec fn canonical(&self) -> bool {
        true
    }

    fn size() -> (n: u8) {
        3
    }

    fn read(cursor: &mut ReadCursor) -> (res: Result<Self, ReadError>) {
        if cursor.len() < 3 {
            return Err(ReadError);
        }
        let ghost s = cursor@;
        let flags = cursor.read_u8()?;
        proof {
            assert(cursor@ =~= s.skip(1));
        }
        let value = cursor.read_u16_le()?;
        proof {
            assert(cursor@ =~= s.skip(3));
        }
        Ok(Group20Var2 { flags, value })
    }

    fn write(&self, cursor: &mut WriteCursor) -> (res: Result<(), WriteError>) {
        if cursor.remaining() < 3 {
            return Err(WriteError);
        }
        let ghost c0 = *cursor;
        let _ = cursor.write_u8(self.flags);
        let _ = cursor.write_u16_le(self.value);
        proof {
            assert(cursor.buffer() =~= spliced(c0.buffer(), c0.position() as int, self.encode()));
        }
        Ok(())
    }

    proof fn lemma_encode_len(&self) {
    }

    proof fn lemma_decode_prefix(s: Seq<u8>, t: Seq<u8>) {
        assert forall|i: int| 0 <= i < 3 implies s[i] == t[i] by {
            assert(s.take(3)[i] == t.take(3)[i]);
        }
        assert(s.skip(1).take(2) =~= t.skip(1).take(2));
    }

    proof fn lemma_decode_encode(&self) {
        lemma_u16_roundtrip(self.value);
        let e = self.encode();
        assert(e.skip(1).take(2) =~= u16_le_bytes(self.value));
    }
}

impl FixedSizeVariation for Group20Var2 {
    proof fn lemma_size_bound() {
    }
}

impl FixedSize for Group20Var1 {
    open spec fn spec_size() -> nat {
        5
    }

    proof fn lemma_size_positive() {
    }

    open spec fn decode(s: Seq<u8>) -> Group20Var1 {
        Group20Var1 {
            flags: s[0],
            value: le_u32(s.skip(1)),
        }
    }

    open spec fn encode(&self) -> Seq<u8> {
        seq![self.flags] + u32_le_bytes(self.value)
    }

    open spec fn canonical(&self) -> bool {
        true
    }

    fn size() -> (n: u8) {
        5
    }

    fn read(cursor: &mut ReadCursor) -> (res: Result<Self, ReadError>) {
        if cursor.len() < 5 {
            return Err(ReadError);
        }
        let ghost s = cursor@;
        let flags = cursor.read_u8()?;
        proof {
            assert(cursor@ =~= s.skip(1));
        }
        let value = cursor.read_u32_le()?;
        proof {
            assert(cursor@ =~= s.skip(5));
        }
        Ok(Group20Var1 { flags, value })
    }

    fn write(&self, cursor: &mut WriteCursor) -> (res: Result<(), WriteError>) {
        if cursor.remaining() < 5 {
            return Err(WriteError);
        }
        let ghost c0 = *cursor;
        let _ = cursor.write_u8(self.flags);
        let _ = cursor.write_u32_le(self.value);
        proof {
            assert(cursor.buffer() =~= spliced(c0.buffer(), c0.position() as int, self.encode()));
        }
        Ok(())
    }

    proof fn lemma_encode_len(&self) {
    }

    proof fn lemma_decode_prefix(s: Seq<u8>, t: Seq<u8>) {
        assert forall|i: int| 0 <= i < 5 implies s[i] == t[i] by {
            assert(s.take(5)[i] == t.take(5)[i]);
        }
        assert(s.skip(1).take(4) =~= t.skip(1).take(4));
    }

    proof fn lemma_decode_encode(&self) {
        lemma_u32_roundtrip(self.value);
        let e = self.encode();
        assert(e.skip(1).take(4) =~= u32_le_bytes(self.value));
    }
}

impl FixedSizeVariation for Group20Var1 {
    proof fn lemma_size_bound() {
    }
}

impl FixedSize for Group13Var2 {
    open spec fn spec_size() -> nat {
        7
    }

    proof fn lemma_size_positive() {
    }

    open spec fn decode(s: Seq<u8>) -> Group13Var2 {
        Group13Var2 {
            flags: s[0],
            time: Timestamp { value: le_u48(s.skip(1)) },
        }
    }

    open spec fn encode(&self) -> Seq<u8> {
        seq![self.flags] + u48_le_bytes(self.time.value)
    }

    open spec fn canonical(&self) -> bool {
        self.time.value < 0x1_0000_0000_0000
    }

    fn size() -> (n: u8) {
        7
    }

    fn read(cursor: &mut ReadCursor) -> (res: Result<Self, ReadError>) {
        if cursor.len() < 7 {
            return Err(ReadError);
        }
        let ghost s = cursor@;
        let flags = cursor.read_u8()?;
        proof {
            assert(cursor@ =~= s.skip(1));
        }
        let time = Timestamp { value: cursor.read_u48_le()? };
        proof {
            assert(cursor@ =~= s.skip(7));
        }
        Ok(Group13Var2 { flags, time })
    }

    fn write(&self, cursor: &mut WriteCursor) -> (res: Result<(), WriteError>) {
        if cursor.remaining() < 7 {
            return Err(WriteError);
        }
        let ghost c0 = *cursor;
        let _ = cursor.write_u8(self.flags);
        let _ = cursor.write_u48_le(self.time.value);
        proof {
            assert(cursor.buffer() =~= spliced(c0.buffer(), c0.position() as int, self.encode()));
        }
        Ok(())
    }

    proof fn lemma_encode_len(&self) {
    }

    proof fn lemma_decode_prefix(s: Seq<u8>, t: Seq<u8>) {
        assert forall|i: int| 0 <= i < 7 implies s[i] == t[i] by {
            assert(s.take(7)[i] == t.take(7)[i]);
        }
        assert(s.skip(1).take(6) =~= t.skip(1).take(6));
        lemma_u48_bytes_roundtrip(s.skip(1));
    }

    proof fn lemma_decode_encode(&self) {
        lemma_u48_roundtrip(self.time.value);
        let e = self.encode();
        assert(e.skip(1).take(6) =~= u48_le_bytes(self.time.value));
    }
}

impl FixedSizeVariation for Group13Var2 {
    proof fn lemma_size_bound() {
    }
}

impl FixedSize for Group13Var1 {
    open spec fn spec_size() -> nat {
        1
    }

    proof fn lemma_size_positive() {
    }

    open spec fn decode(s: Seq<u8>) -> Group13Var1 {
        Group13Var1 {
            flags: s[0],
        }
    }

    open spec fn encode(&self) -> Seq<u8> {
        seq![self.flags]
    }

    open spec fn canonical(&self) -> bool {
        true
    }

    fn size() -> (n: u8) {
        1
    }

    fn read(cursor: &mut ReadCursor) -> (res: Result<Self, ReadError>) {
        if cursor.len() < 1 {
            return Err(ReadError);
        }
        let ghost s = cursor@;
        let flags = cursor.read_u8()?;
        proof {
            assert(cursor@ =~= s.skip(1));
        }
        Ok(Group13Var1 { flags })
    }

    fn write(&self, cursor: &mut WriteCursor) -> (res: Result<(), WriteError>) {
        if cursor.remaining() < 1 {
            return Err(WriteError);
        }
        let ghost c0 = *cursor;
        let _ = cursor.write_u8(self.flags);
        proof {
            assert(cursor.buffer() =~= spliced(c0.buffer(), c0.position() as int, self.encode()));
        }
        Ok(())
    }

    proof fn lemma_encode_len(&self) {
    }

    proof fn lemma_decode_prefix(s: Seq<u8>, t: Seq<u8>) {
        assert forall|i: int| 0 <= i < 1 implies s[i] == t[i] by {
            assert(s.take(1)[i] == t.take(1)[i]);
        }
    }

    proof fn lemma_decode_encode(&self) {
        let e = self.encode();
    }
}

impl FixedSizeVariation for Group13Var1 {
    proof fn lemma_size_bound() {
    }
}

impl FixedSize for Group12Var1 {
    open spec fn spec_size() -> nat {
        11
    }

    proof fn lemma_size_positive() {
    }

    open spec fn decode(s: Seq<u8>) -> Group12Var1 {
        Group12Var1 {
            code: ControlCode::spec_from(s[0]),
            count: s[1],
            on_time: le_u32(s.skip(2)),
            off_time: le_u32(s.skip(6)),
            status: CommandStatus::from_code_spec(s[10]),
        }
    }

    open spec fn encode(&self) -> Seq<u8> {
        seq![self.code.code()] + seq![self.count] + u32_le_bytes(self.on_time) + u32_le_bytes(self.off_time) + seq![self.status.code()]
    }

    open spec fn canonical(&self) -> bool {
        self.code == ControlCode::spec_from(self.code.code()) && self.status.canonical()
    }

    fn size() -> (n: u8) {
        11
    }

    fn read(cursor: &mut ReadCursor) -> (res: Result<Self, ReadError>) {
        if cursor.len() < 11 {
            return Err(ReadError);
        }
        let ghost s = cursor@;
        let code = ControlCode::from(cursor.read_u8()?);
        proof {
            assert(cursor@ =~= s.skip(1));
        }
        let count = cursor.read_u8()?;
        proof {
            assert(cursor@ =~= s.skip(2));
        }
        let on_time = cursor.read_u32_le()?;
        proof {
            assert(cursor@ =~= s.skip(6));
        }
        let off_time = cursor.read_u32_le()?;
        proof {
            assert(cursor@ =~= s.skip(10));
        }
        let status = CommandStatus::from(cursor.read_u8()?);
        proof {
            assert(cursor@ =~= s.skip(11));
        }
        Ok(Group12Var1 { code, count, on_time, off_time, status })
    }

    fn write(&self, cursor: &mut WriteCursor) -> (res: Result<(), WriteError>) {
        if cursor.remaining() < 11 {
            return Err(WriteError);
        }
        let ghost c0 = *cursor;
        let _ = cursor.write_u8(self.code.as_u8());
        let _ = cursor.write_u8(self.count);
        let _ = cursor.write_u32_le(self.on_time);
        let _ = cursor.write_u32_le(self.off_time);
        let _ = cursor.write_u8(self.status.as_u8());
        proof {
            assert(cursor.buffer() =~= spliced(c0.buffer(), c0.position() as int, self.encode()));
        }
        Ok(())
    }

    proof fn lemma_encode_len(&self) {
    }

    proof fn lemma_decode_prefix(s: Seq<u8>, t: Seq<u8>) {
        assert forall|i: int| 0 <= i < 11 implies s[i] == t[i] by {
            assert(s.take(11)[i] == t.take(11)[i]);
        }
        ControlCode::lemma_spec_from_canonical(s[0]);
        assert(s.skip(2).take(4) =~= t.skip(2).take(4));
        assert(s.skip(6).take(4) =~= t.skip(6).take(4));
        CommandStatus::lemma_from_code_spec(s[10]);
    }

    proof fn lemma_decode_encode(&self) {
        lemma_u32_roundtrip(self.on_time);
        lemma_u32_roundtrip(self.off_time);
        self.status.lemma_canonical_roundtrip();
        let e = self.encode();
        assert(e.skip(1).take(1) =~= seq![self.count]);
        assert(e.skip(2).take(4) =~= u32_le_bytes(self.on_time));
        assert(e.skip(6).take(4) =~= u32_le_bytes(self.off_time));
        assert(e.skip(10).take(1) =~= seq![self.status.code()]);
    }
}

impl FixedSizeVariation for Group12Var1 {
    proof fn lemma_size_bound() {
    }
}

impl FixedSize for Group11Var2 {
    open spec fn spec_size() -> nat {
        7
    }

    proof fn lemma_size_positive() {
    }

    open spec fn decode(s: Seq<u8>) -> Group11Var2 {
        Group11Var2 {
            flags: s[0],
            time: Timestamp { value: le_u48(s.skip(1)) },
        }
    }

    open spec fn encode(&self) -> Seq<u8> {
        seq![self.flags] + u48_le_bytes(self.time.value)
    }

    open spec fn canonical(&self) -> bool {
        self.time.value < 0x1_0000_0000_0000
    }

    fn size() -> (n: u8) {
        7
    }

    fn read(cursor: &mut ReadCursor) -> (res: Result<Self, ReadError>) {
        if cursor.len() < 7 {
            return Err(ReadError);
        }
        let ghost s = cursor@;
        let flags = cursor.read_u8()?;
        proof {
            assert(cursor@ =~= s.skip(1));
        }
        let time = Timestamp { value: cursor.read_u48_le()? };
        proof {
            assert(cursor@ =~= s.skip(7));
        }
        Ok(Group11Var2 { flags, time })
    }

    fn write(&self, cursor: &mut WriteCursor) -> (res: Result<(), WriteError>) {
        if cursor.remaining() < 7 {
            return Err(WriteError);
        }
        let ghost c0 = *cursor;
        let _ = cursor.write_u8(self.flags);
        let _ = cursor.write_u48_le(self.time.value);
        proof {
            assert(cursor.buffer() =~= spliced(c0.buffer(), c0.position() as int, self.encode()));
        }
        Ok(())
    }

    proof fn lemma_encode_len(&self) {
    }

    proof fn lemma_decode_prefix(s: Seq<u8>, t: Seq<u8>) {
        assert forall|i: int| 0 <= i < 7 implies s[i] == t[i] by {
            assert(s.take(7)[i] == t.take(7)[i]);
        }
        assert(s.skip(1).take(6) =~= t.skip(1).take(6));
        lemma_u48_bytes_roundtrip(s.skip(1));
    }

    proof fn lemma_decode_encode(&self) {
        lemma_u48_roundtrip(self.time.value);
        let e = self.encode();
        assert(e.skip(1).take(6) =~= u48_le_bytes(self.time.value));
    }
}

impl FixedSizeVariation for Group11Var2 {
    proof fn lemma_size_bound() {
    }
}

impl FixedSize for Group11Var1 {
    open spec fn spec_size() -> nat {
        1
    }

    proof fn lemma_size_positive() {
    }

    open spec fn decode(s: Seq<u8>) -> Group11Var1 {
        Group11Var1 {
            flags: s[0],
        }
    }

    open spec fn encode(&self) -> Seq<u8> {
        seq![self.flags]
    }

    open spec fn canonical(&self) -> bool {
        true
    }

    fn size() -> (n: u8) {
        1
    }

    fn read(cursor: &mut ReadCursor) -> (res: Result<Self, ReadError>) {
        if cursor.len() < 1 {
            return Err(ReadError);
        }
        let ghost s = cursor@;
        let flags = cursor.read_u8()?;
        proof {
            assert(cursor@ =~= s.skip(1));
        }
        Ok(Group11Var1 { flags })
    }

    fn write(&self, cursor: &mut WriteCursor) -> (res: Result<(), WriteError>) {
        if cursor.remaining() < 1 {
            return Err(WriteError);
        }
        let ghost c0 = *cursor;
        let _ = cursor.write_u8(self.flags);
        proof {
            assert(cursor.buffer() =~= spliced(c0.buffer(), c0.position() as int, self.encode()));
        }
        Ok(())
    }

    proof fn lemma_encode_len(&self) {
    }

    proof fn lemma_decode_prefix(s: Seq<u8>, t: Seq<u8>) {
        assert forall|i: int| 0 <= i < 1 implies s[i] == t[i] by {
            assert(s.take(1)[i] == t.take(1)[i]);
        }
    }

    proof fn lemma_decode_encode(&self) {
        let e = self.encode();
    }
}

impl FixedSizeVariation for Group11Var1 {
    proof fn lemma_size_bound() {
    }
}

impl FixedSize for Group10Var2 {
    open spec fn spec_size() -> nat {
        1
    }

    proof fn lemma_size_positive() {
    }

    open spec fn decode(s: Seq<u8>) -> Group10Var2 {
        Group10Var2 {
            flags: s[0],
        }
    }

    open spec fn encode(&self) -> Seq<u8> {
        seq![self.flags]
    }

    open spec fn canonical(&self) -> bool {
        true
    }

    fn size() -> (n: u8) {
        1
    }

    fn read(cursor: &mut ReadCursor) -> (res: Result<Self, ReadError>) {
        if cursor.len() < 1 {
            return Err(ReadError);
        }
        let ghost s = cursor@;
        let flags = cursor.read_u8()?;
        proof {
            assert(cursor@ =~= s.skip(1));
        }
        Ok(Group10Var2 { flags })
    }

    fn write(&self, cursor: &mut WriteCursor) -> (res: Result<(), WriteError>) {
        if cursor.remaining() < 1 {
            return Err(WriteError);
        }
        let ghost c0 = *cursor;
        let _ = cursor.write_u8(self.flags);
        proof {
            assert(cursor.buffer() =~= spliced(c0.buffer(), c0.position() as int, self.encode()));
        }
        Ok(())
    }

    proof fn lemma_encode_len(&self) {
    }

    proof fn lemma_decode_prefix(s: Seq<u8>, t: Seq<u8>) {
        assert forall|i: int| 0 <= i < 1 implies s[i] == t[i] by {
            assert(s.take(1)[i] == t.take(1)[i]);
        }
    }

    proof fn lemma_decode_encode(&self) {
        let e = self.encode();
    }
}

impl FixedSizeVariation for Group10Var2 {
    proof fn lemma_size_bound() {
    }
}

impl FixedSize for Group4Var3 {
    open spec fn spec_size() -> nat {
        3
    }

    proof fn lemma_size_positive() {
    }

    open spec fn decode(s: Seq<u8>) -> Group4Var3 {
        Group4Var3 {
            flags: s[0],
            time: le_u16(s.skip(1)),
        }
    }

    open spec fn encode(&self) -> Seq<u8> {
        seq![self.flags] + u16_le_bytes(self.time)
    }

    open spec fn canonical(&self) -> bool {
        true
    }

    fn size() -> (n: u8) {
        3
    }

    fn read(cursor: &mut ReadCursor) -> (res: Result<Self, ReadError>) {
        if cursor.len() < 3 {
            return Err(ReadError);
        }
        let ghost s = cursor@;
        let flags = cursor.read_u8()?;
        proof {
            assert(cursor@ =~= s.skip(1));
        }
        let time = cursor.read_u16_le()?;
        proof {
            assert(cursor@ =~= s.skip(3));
        }
        Ok(Group4Var3 { flags, time })
    }

    fn write(&self, cursor: &mut WriteCursor) -> (res: Result<(), WriteError>) {
        if cursor.remaining() < 3 {
            return Err(WriteError);
        }
        let ghost c0 = *cursor;
        let _ = cursor.write_u8(self.flags);
        let _ = cursor.write_u16_le(self.time);
        proof {
            assert(cursor.buffer() =~= spliced(c0.buffer(), c0.position() as int, self.encode()));
        }
        Ok(())
    }

    proof fn lemma_encode_len(&self) {
    }

    proof fn lemma_decode_prefix(s: Seq<u8>, t: Seq<u8>) {
        assert forall|i: int| 0 <= i < 3 implies s[i] == t[i] by {
            assert(s.take(3)[i] == t.take(3)[i]);
        }
        assert(s.skip(1).take(2) =~= t.skip(1).take(2));
    }

    proof fn lemma_decode_encode(&self) {
        lemma_u16_roundtrip(self.time);
        let e = self.encode();
        assert(e.skip(1).take(2) =~= u16_le_bytes(self.time));
    }
}

impl FixedSizeVariation for Group4Var3 {
    proof fn lemma_size_bound() {
    }
}

impl FixedSize for Group4Var2 {
    open spec fn spec_size() -> nat {
        7
    }

    proof fn lemma_size_positive() {
    }

    open spec fn decode(s: Seq<u8>) -> Group4Var2 {
        Group4Var2 {
            flags: s[0],
            time: Timestamp { value: le_u48(s.skip(1)) },
        }
    }

    open spec fn encode(&self) -> Seq<u8> {
        seq![self.flags] + u48_le_bytes(self.time.value)
    }

    open spec fn canonical(&self) -> bool {
        self.time.value < 0x1_0000_0000_0000
    }

    fn size() -> (n: u8) {
        7
    }

    fn read(cursor: &mut ReadCursor) -> (res: Result<Self, ReadError>) {
        if cursor.len() < 7 {
            return Err(ReadError);
        }
        let ghost s = cursor@;
        let flags = cursor.read_u8()?;
        proof {
            assert(cursor@ =~= s.skip(1));
        }
        let time = Timestamp { value: cursor.read_u48_le()? };
        proof {
            assert(cursor@ =~= s.skip(7));
        }
        Ok(Group4Var2 { flags, time })
    }

    fn write(&self, cursor: &mut WriteCursor) -> (res: Result<(), WriteError>) {
        if cursor.remaining() < 7 {
            return Err(WriteError);
        }
        let ghost c0 = *cursor;
        let _ = cursor.write_u8(self.flags);
        let _ = cursor.write_u48_le(self.time.value);
        proof {
            assert(cursor.buffer() =~= spliced(c0.buffer(), c0.position() as int, self.encode()));
        }
        Ok(())
    }

    proof fn lemma_encode_len(&self) {
    }

    proof fn lemma_decode_prefix(s: Seq<u8>, t: Seq<u8>) {
        assert forall|i: int| 0 <= i < 7 implies s[i] == t[i] by {
            assert(s.take(7)[i] == t.take(7)[i]);
        }
        assert(s.skip(1).take(6) =~= t.skip(1).take(6));
        lemma_u48_bytes_roundtrip(s.skip(1));
    }

    proof fn lemma_decode_encode(&self) {
        lemma_u48_roundtrip(self.time.value);
        let e = self.encode();
        assert(e.skip(1).take(6) =~= u48_le_bytes(self.time.value));
    }
}

impl FixedSizeVariation for Group4Var2 {
    proof fn lemma_size_bound() {
    }
}

impl FixedSize for Group4Var1 {
    open spec fn spec_size() -> nat {
        1
    }

    proof fn lemma_size_positive() {
    }

    open spec fn decode(s: Seq<u8>) -> Group4Var1 {
        Group4Var1 {
            flags: s[0],
        }
    }

    open spec fn encode(&self) -> Seq<u8> {
        seq![self.flags]
    }

    open spec fn canonical(&self) -> bool {
        true
    }

    fn size() -> (n: u8) {
        1
    }

    fn read(cursor: &mut ReadCursor) -> (res: Result<Self, ReadError>) {
        if cursor.len() < 1 {
            return Err(ReadError);
        }
        let ghost s = cursor@;
        let flags = cursor.read_u8()?;
        proof {
            assert(cursor@ =~= s.skip(1));
        }
        Ok(Group4Var1 { flags })
    }

    fn write(&self, cursor: &mut WriteCursor) -> (res: Result<(), WriteError>) {
        if cursor.remaining() < 1 {
            return Err(WriteError);
        }
        let ghost c0 = *cursor;
        let _ = cursor.write_u8(self.flags);
        proof {
            assert(cursor.buffer() =~= spliced(c0.buffer(), c0.position() as int, self.encode()));
        }
        Ok(())
    }

    proof fn lemma_encode_len(&self) {
    }

    proof fn lemma_decode_prefix(s: Seq<u8>, t: Seq<u8>) {
        assert forall|i: int| 0 <= i < 1 implies s[i] == t[i] by {
            assert(s.take(1)[i] == t.take(1)[i]);
        }
    }

    proof fn lemma_decode_encode(&self) {
        let e = self.encode();
    }
}

impl FixedSizeVariation for Group4Var1 {
    proof fn lemma_size_bound() {
    }
}

impl FixedSize for Group3Var2 {
    open spec fn spec_size() -> nat {
        1
    }

    proof fn lemma_size_positive() {
    }

    open spec fn decode(s: Seq<u8>) -> Group3Var2 {
        Group3Var2 {
            flags: s[0],
        }
    }

    open spec fn encode(&self) -> Seq<u8> {
        seq![self.flags]
    }

    open spec fn canonical(&self) -> bool {
        true
    }

    fn size() -> (n: u8) {
        1
    }

    fn read(cursor: &mut ReadCursor) -> (res: Result<Self, ReadError>) {
        if cursor.len() < 1 {
            return Err(ReadError);
        }
        let ghost s = cursor@;
        let flags = cursor.read_u8()?;
        proof {
            assert(cursor@ =~= s.skip(1));
        }
        Ok(Group3Var2 { flags })
    }

    fn write(&self, cursor: &mut WriteCursor) -> (res: Result<(), WriteError>) {
        if cursor.remaining() < 1 {
            return Err(WriteError);
        }
        let ghost c0 = *cursor;
        let _ = cursor.write_u8(self.flags);
        proof {
            assert(cursor.buffer() =~= spliced(c0.buffer(), c0.position() as int, self.encode()));
        }
        Ok(())
    }

    proof fn lemma_encode_len(&self) {
    }

    proof fn lemma_decode_prefix(s: Seq<u8>, t: Seq<u8>) {
        assert forall|i: int| 0 <= i < 1 implies s[i] == t[i] by {
            assert(s.take(1)[i] == t.take(1)[i]);
        }
    }

    proof fn lemma_decode_encode(&self) {
        let e = self.encode();
    }
}

impl FixedSizeVariation for Group3Var2 {
    proof fn lemma_size_bound() {
    }
}

impl FixedSize for Group2Var3 {
    open spec fn spec_size() -> nat {
        3
    }

    proof fn lemma_size_positive() {
    }

    open spec fn decode(s: Seq<u8>) -> Group2Var3 {
        Group2Var3 {
            flags: s[0],
            time: le_u16(s.skip(1)),
        }
    }

    open spec fn encode(&self) -> Seq<u8> {
        seq![self.flags] + u16_le_bytes(self.time)
    }

    open spec fn canonical(&self) -> bool {
        true
    }

    fn size() -> (n: u8) {
        3
    }

    fn read(cursor: &mut ReadCursor) -> (res: Result<Self, ReadError>) {
        if cursor.len() < 3 {
            return Err(ReadError);
        }
        let ghost s = cursor@;
        let flags = cursor.read_u8()?;
        proof {
            assert(cursor@ =~= s.skip(1));
        }
        let time = cursor.read_u16_le()?;
        proof {
            assert(cursor@ =~= s.skip(3));
        }
        Ok(Group2Var3 { flags, time })
    }

    fn write(&self, cursor: &mut WriteCursor) -> (res: Result<(), WriteError>) {
        if cursor.remaining() < 3 {
            return Err(WriteError);
        }
        let ghost c0 = *cursor;
        let _ = cursor.write_u8(self.flags);
        let _ = cursor.write_u16_le(self.time);
        proof {
            assert(cursor.buffer() =~= spliced(c0.buffer(), c0.position() as int, self.encode()));
        }
        Ok(())
    }

    proof fn lemma_encode_len(&self) {
    }

    proof fn lemma_decode_prefix(s: Seq<u8>, t: Seq<u8>) {
        assert forall|i: int| 0 <= i < 3 implies s[i] == t[i] by {
            assert(s.take(3)[i] == t.take(3)[i]);
        }
        assert(s.skip(1).take(2) =~= t.skip(1).take(2));
    }

    proof fn lemma_decode_encode(&self) {
        lemma_u16_roundtrip(self.time);
        let e = self.encode();
        assert(e.skip(1).take(2) =~= u16_le_bytes(self.time));
    }
}

impl FixedSizeVariation for Group2Var3 {
    proof fn lemma_size_bound() {
    }
}

impl FixedSize for Group2Var2 {
    open spec fn spec_size() -> nat {
        7
    }

    proof fn lemma_size_positive() {
    }

    open spec fn decode(s: Seq<u8>) -> Group2Var2 {
        Group2Var2 {
            flags: s[0],
            time: Timestamp { value: le_u48(s.skip(1)) },
        }
    }

    open spec fn encode(&self) -> Seq<u8> {
        seq![self.flags] + u48_le_bytes(self.time.value)
    }

    open spec fn canonical(&self) -> bool {
        self.time.value < 0x1_0000_0000_0000
    }

    fn size() -> (n: u8) {
        7
    }

    fn read(cursor: &mut ReadCursor) -> (res: Result<Self, ReadError>) {
        if cursor.len() < 7 {
            return Err(ReadError);
        }
        let ghost s = cursor@;
        let flags = cursor.read_u8()?;
        proof {
            assert(cursor@ =~= s.skip(1));
        }
        let time = Timestamp { value: cursor.read_u48_le()? };
        proof {
            assert(cursor@ =~= s.skip(7));
        }
        Ok(Group2Var2 { flags, time })
    }

    fn write(&self, cursor: &mut WriteCursor) -> (res: Result<(), WriteError>) {
        if cursor.remaining() < 7 {
            return Err(WriteError);
        }
        let ghost c0 = *cursor;
        let _ = cursor.write_u8(self.flags);
        let _ = cursor.write_u48_le(self.time.value);
        proof {
            assert(cursor.buffer() =~= spliced(c0.buffer(), c0.position() as int, self.encode()));
        }
        Ok(())
    }

    proof fn lemma_encode_len(&self) {
    }

    proof fn lemma_decode_prefix(s: Seq<u8>, t: Seq<u8>) {
        assert forall|i: int| 0 <= i < 7 implies s[i] == t[i] by {
            assert(s.take(7)[i] == t.take(7)[i]);
        }
        assert(s.skip(1).take(6) =~= t.skip(1).take(6));
        lemma_u48_bytes_roundtrip(s.skip(1));
    }

    proof fn lemma_decode_encode(&self) {
        lemma_u48_roundtrip(self.time.value);
        let e = self.encode();
        assert(e.skip(1).take(6) =~= u48_le_bytes(self.time.value));
    }
}

impl FixedSizeVariation for Group2Var2 {
    proof fn lemma_size_bound() {
    }
}

impl FixedSize for Group2Var1 {
    open spec fn spec_size() -> nat {
        1
    }

    proof fn lemma_size_positive() {
    }

    open spec fn decode(s: Seq<u8>) -> Group2Var1 {
        Group2Var1 {
            flags: s[0],
        }
    }

    open spec fn encode(&self) -> Seq<u8> {
        seq![self.flags]
    }

    open spec fn canonical(&self) -> bool {
        true
    }

    fn size() -> (n: u8) {
        1
    }

    fn read(cursor: &mut ReadCursor) -> (res: Result<Self, ReadError>) {
        if cursor.len() < 1 {
            return Err(ReadError);
        }
        let ghost s = cursor@;
        let flags = cursor.read_u8()?;
        proof {
            assert(cursor@ =~= s.skip(1));
        }
        Ok(Group2Var1 { flags })
    }

    fn write(&self, cursor: &mut WriteCursor) -> (res: Result<(), WriteError>) {
        if cursor.remaining() < 1 {
            return Err(WriteError);
        }
        let ghost c0 = *cursor;
        let _ = cursor.write_u8(self.flags);
        proof {
            assert(cursor.buffer() =~= spliced(c0.buffer(), c0.position() as int, self.encode()));
        }
        Ok(())
    }

    proof fn lemma_encode_len(&self) {
    }

    proof fn lemma_decode_prefix(s: Seq<u8>, t: Seq<u8>) {
        assert forall|i: int| 0 <= i < 1 implies s[i] == t[i] by {
            assert(s.take(1)[i] == t.take(1)[i]);
        }
    }

    proof fn lemma_decode_encode(&self) {
        let e = self.encode();
    }
}

impl FixedSizeVariation for Group2Var1 {
    proof fn lemma_size_bound() {
    }
}

impl FixedSize for Group1Var2 {
    open spec fn spec_size() -> nat {
        1
    }

    proof fn lemma_size_positive() {
    }

    open spec fn decode(s: Seq<u8>) -> Group1Var2 {
        Group1Var2 {
            flags: s[0],
        }
    }

    open spec fn encode(&self) -> Seq<u8> {
        seq![self.flags]
    }

    open spec fn canonical(&self) -> bool {
        true
    }

    fn size() -> (n: u8) {
        1
    }

    fn read(cursor: &mut ReadCursor) -> (res: Result<Self, ReadError>) {
        if cursor.len() < 1 {
            return Err(ReadError);
        }
        let ghost s = cursor@;
        let flags = cursor.read_u8()?;
        proof {
            assert(cursor@ =~= s.skip(1));
        }
        Ok(Group1Var2 { flags })
    }

    fn write(&self, cursor: &mut WriteCursor) -> (res: Result<(), WriteError>) {
        if cursor.remaining() < 1 {
            return Err(WriteError);
        }
        let ghost c0 = *cursor;
        let _ = cursor.write_u8(self.flags);
        proof {
            assert(cursor.buffer() =~= spliced(c0.buffer(), c0.position() as int, self.encode()));
        }
        Ok(())
    }

    proof fn lemma_encode_len(&self) {
    }

    proof fn lemma_decode_prefix(s: Seq<u8>, t: Seq<u8>) {
        assert forall|i: int| 0 <= i < 1 implies s[i] == t[i] by {
            assert(s.take(1)[i] == t.take(1)[i]);
        }
    }

    proof fn lemma_decode_encode(&self) {
        let e = self.encode();
    }
}

impl FixedSizeVariation for Group1Var2 {
    proof fn lemma_size_bound() {
    }
}

} // verus!
