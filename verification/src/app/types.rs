use crate::app::gen::enums::{OpType, TripCloseCode};
use crate::util::cursor::{ReadCursor, ReadError};
use vstd::prelude::*;

verus! {

/// Control code of a control relay output block (g12v1)
#[derive(Copy, Clone, Debug, PartialEq, Eq, Structural)]
pub struct ControlCode {
    pub tcc: TripCloseCode,
    pub clear: bool,
    pub queue: bool,
    pub op_type: OpType,
}

/// bit `i` (0 = least significant) of `x`
pub open spec fn bit_of(x: u8, i: nat) -> bool {
    (x as nat / vstd::arithmetic::power2::pow2(i)) % 2 == 1
}

/// the value of the bit under `mask` (a power of two) is tested with `&`
pub proof fn lemma_mask_bits(x: u8)
    ensures
        (x & 0x01 != 0) == bit_of(x, 0),
        (x & 0x02 != 0) == bit_of(x, 1),
        (x & 0x04 != 0) == bit_of(x, 2),
        (x & 0x08 != 0) == bit_of(x, 3),
        (x & 0x10 != 0) == bit_of(x, 4),
        (x & 0x20 != 0) == bit_of(x, 5),
        (x & 0x40 != 0) == bit_of(x, 6),
        (x & 0x80 != 0) == bit_of(x, 7),
{
    vstd::arithmetic::power2::lemma2_to64();
    assert((x & 0x01 != 0) == (x % 2 == 1)) by (bit_vector);
    assert((x & 0x02 != 0) == ((x / 2) % 2 == 1)) by (bit_vector);
    assert((x & 0x04 != 0) == ((x / 4) % 2 == 1)) by (bit_vector);
    assert((x & 0x08 != 0) == ((x / 8) % 2 == 1)) by (bit_vector);
    assert((x & 0x10 != 0) == ((x / 16) % 2 == 1)) by (bit_vector);
    assert((x & 0x20 != 0) == ((x / 32) % 2 == 1)) by (bit_vector);
    assert((x & 0x40 != 0) == ((x / 64) % 2 == 1)) by (bit_vector);
    assert((x & 0x80 != 0) == ((x / 128) % 2 == 1)) by (bit_vector);
}

impl ControlCode {
    /// The fields read from a control byte. The trip-close code is taken from
    /// `x & (0b1100_0000 >> 6)`, that is from the two low bits of `x`, as the
    /// operator precedence of the expression decides.
    pub open spec fn spec_from(x: u8) -> ControlCode {
        ControlCode {
            tcc: TripCloseCode::from_code_spec(x % 4),
            clear: bit_of(x, 5),
            queue: bit_of(x, 4),
            op_type: OpType::from_code_spec(x % 16),
        }
    }

    /// a control code read from a byte is written back as a byte from which
    /// the same control code is read
    pub proof fn lemma_spec_from_canonical(x: u8)
        ensures
            ControlCode::spec_from(x) == ControlCode::spec_from(ControlCode::spec_from(x).code()),
    {
        let c = ControlCode::spec_from(x);
        TripCloseCode::lemma_from_code_spec(x % 4);
        OpType::lemma_from_code_spec(x % 16);
        vstd::arithmetic::power2::lemma2_to64();
        let y = c.code();
        let cl: int = if (x / 32) % 2 == 1 { 32 } else { 0 };
        let qu: int = if (x / 16) % 2 == 1 { 16 } else { 0 };
        assert(y == (x % 4) * 64 + cl + qu + x % 16);
        assert(y % 4 == x % 4 && y % 16 == x % 16 && ((y / 32) % 2 == 1) == ((x / 32) % 2 == 1)
            && ((y / 16) % 2 == 1) == ((x / 16) % 2 == 1)) by (nonlinear_arith)
            requires
                y == (x % 4) * 64 + cl + qu + x % 16,
                cl == (if (x / 32) % 2 == 1 { 32int } else { 0int }),
                qu == (if (x / 16) % 2 == 1 { 16int } else { 0int }),
                0 <= x < 256,
        ;
    }

    pub fn from(x: u8) -> (c: Self)
        ensures
            c == ControlCode::spec_from(x),
            c.tcc.code() == x % 4 && c.tcc.canonical(),
            c.clear == bit_of(x, 5),
            c.queue == bit_of(x, 4),
            c.op_type.code() == x % 16 && c.op_type.canonical(),
    {
        proof {
            lemma_mask_bits(x);
            assert(x & (0b1100_0000u8 >> 6u8) == x % 4) by (bit_vector);
            assert(x & 0b0000_1111 == x % 16) by (bit_vector);
        }
        Self {
            tcc: TripCloseCode::from(x & (0b1100_0000u8 >> 6u8)),
            clear: x & 0b0010_0000 != 0,
            queue: x & 0b0001_0000 != 0,
            op_type: OpType::from(x & 0b0000_1111),
        }
    }

    /// the control byte: trip-close code in bits 7-6, clear in bit 5, queue
    /// in bit 4 and the operation type in bits 3-0
    pub open spec fn code(self) -> u8 {
        ((self.tcc.code() % 4) * 64 + (if self.clear { 32int } else { 0int }) + (if self.queue {
            16int
        } else {
            0int
        }) + self.op_type.code() % 16) as u8
    }

    pub fn as_u8(self) -> (x: u8)
        ensures
            x == self.code(),
    {
        let clear: u8 = if self.clear {
            32
        } else {
            0
        };
        let queue: u8 = if self.queue {
            16
        } else {
            0
        };
        (self.tcc.as_u8() % 4) * 64 + clear + queue + self.op_type.as_u8() % 16
    }
}

/// Internal indications, as the older form of the response header held them
#[derive(Copy, Clone, Debug, PartialEq, Eq, Structural)]
pub struct IIN {
    iin1: u8,
    iin2: u8,
}

impl IIN {
    pub closed spec fn spec_iin1(self) -> u8 {
        self.iin1
    }

    pub closed spec fn spec_iin2(self) -> u8 {
        self.iin2
    }

    pub fn new(iin1: u8, iin2: u8) -> (i: Self)
        ensures
            i.spec_iin1() == iin1,
            i.spec_iin2() == iin2,
    {
        Self { iin1, iin2 }
    }

    /// reads the two indication bytes, in order
    pub fn parse(cursor: &mut ReadCursor) -> (res: Result<Self, ReadError>)
        ensures
            old(cursor)@.len() >= 2 ==> res is Ok && res.unwrap().spec_iin1() == old(cursor)@[0]
                && res.unwrap().spec_iin2() == old(cursor)@[1] && final(cursor)@ == old(
                cursor,
            )@.skip(2),
            old(cursor)@.len() < 2 ==> res is Err,
    {
        let ghost s = cursor@;
        let iin1 = cursor.read_u8()?;
        let iin2 = cursor.read_u8()?;
        proof {
            assert(s.skip(1).skip(1) =~= s.skip(2));
        }
        Ok(Self { iin1, iin2 })
    }
}

/// bit 7 of a byte is set exactly when the byte is at least 0x80, and bits 7
/// (high) and 6 (low) read as a two-bit number are the byte divided by 64
pub proof fn lemma_top_bits(x: u8)
    ensures
        bit_of(x, 7) == (x >= 0x80),
        x / 64 == (if bit_of(x, 7) { 2int } else { 0int }) + (if bit_of(x, 6) { 1int } else { 0int }),
{
    vstd::arithmetic::power2::lemma2_to64();
    assert(((x / 128) % 2 == 1) == (x >= 0x80)) by (bit_vector);
    assert(x / 64 == (x / 128) % 2 * 2 + (x / 64) % 2) by (bit_vector);
}

/// Value of a double-bit binary point
#[derive(Copy, Clone, Debug, PartialEq, Eq, Structural)]
pub enum DoubleBit {
    Intermediate,
    DeterminedOff,
    DeterminedOn,
    Indeterminate,
}

impl DoubleBit {
    /// the two-bit code: 0 intermediate, 1 determined off, 2 determined on,
    /// 3 indeterminate
    pub open spec fn code(self) -> u8 {
        match self {
            DoubleBit::Intermediate => 0,
            DoubleBit::DeterminedOff => 1,
            DoubleBit::DeterminedOn => 2,
            DoubleBit::Indeterminate => 3,
        }
    }

    /// The two-bit code table: 0 intermediate, 1 determined off, 2 determined
    /// on, 3 indeterminate.
    pub proof fn lemma_code_table()
        ensures
            DoubleBit::Intermediate.code() == 0,
            DoubleBit::DeterminedOff.code() == 1,
            DoubleBit::DeterminedOn.code() == 2,
            DoubleBit::Indeterminate.code() == 3,
    {
    }

    /// the value coded by the two low bits of `x`
    pub fn from(x: u8) -> (d: Self)
        ensures
            d.code() == x % 4,
    {
        match x % 4 {
            0 => DoubleBit::Intermediate,
            1 => DoubleBit::DeterminedOff,
            2 => DoubleBit::DeterminedOn,
            _ => DoubleBit::Indeterminate,
        }
    }

    /// the value coded by a high and a low bit
    pub fn from_bits(high: bool, low: bool) -> (d: Self)
        ensures
            d.code() == (if high { 2int } else { 0int }) + (if low { 1int } else { 0int }),
    {
        match (high, low) {
            (false, false) => DoubleBit::Intermediate,
            (false, true) => DoubleBit::DeterminedOff,
            (true, false) => DoubleBit::DeterminedOn,
            (true, true) => DoubleBit::Indeterminate,
        }
    }

    /// the name of the value
    pub open spec fn spec_name(self) -> Seq<char> {
        match self {
            DoubleBit::Intermediate => "Intermediate"@,
            DoubleBit::DeterminedOff => "DeterminedOff"@,
            DoubleBit::DeterminedOn => "DeterminedOn"@,
            DoubleBit::Indeterminate => "Indeterminate"@,
        }
    }

    /// the name that `Debug` prints
    pub fn name(self) -> (s: &'static str)
        ensures
            s@ == self.spec_name(),
    {
        match self {
            DoubleBit::Intermediate => "Intermediate",
            DoubleBit::DeterminedOff => "DeterminedOff",
            DoubleBit::DeterminedOn => "DeterminedOn",
            DoubleBit::Indeterminate => "Indeterminate",
        }
    }
}

/// the largest value a 48-bit DNP3 timestamp can hold
pub const TIMESTAMP_MAX: u64 = 0x0000_FFFF_FFFF_FFFF;

/// Milliseconds since the Unix epoch, held in 48 bits
#[derive(Copy, Clone, Debug, PartialEq, Eq, Structural)]
pub struct Timestamp {
    pub value: u64,
}

impl Timestamp {
    /// the timestamp of the low 48 bits of `value`
    pub fn new(value: u64) -> (t: Self)
        ensures
            t.value == value % 0x1_0000_0000_0000,
    {
        Timestamp { value: value % 0x1_0000_0000_0000 }
    }

    /// the timestamp `x` milliseconds later, or `None` where it would not fit
    /// in 48 bits
    pub fn checked_add(self, x: u16) -> (r: Option<Timestamp>)
        ensures
            self.value + x <= TIMESTAMP_MAX ==> r == Some(Timestamp { value: (self.value + x) as u64 }),
            self.value + x > TIMESTAMP_MAX ==> r is None,
    {
        if self.value > TIMESTAMP_MAX || TIMESTAMP_MAX - self.value < x as u64 {
            return None;
        }
        Some(Timestamp { value: self.value + x as u64 })
    }
}

} // verus!
