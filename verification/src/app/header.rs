use crate::app::gen::enums::FunctionCode;
use crate::app::sequence::Sequence;
use crate::app::types::{bit_of, lemma_mask_bits};
use crate::util::cursor::{ReadCursor, ReadError, WriteCursor, WriteError};
use crate::util::writes::{write_bytes_result, lemma_single_byte, lemma_write_bytes_seq};
use vstd::prelude::*;

verus! {

broadcast use crate::app::sequence::Sequence::lemma_spec_new_value, crate::app::sequence::Sequence::lemma_value_bound;

/// Application control field
#[derive(Copy, Clone, Debug, PartialEq, Eq, Structural)]
pub struct Control {
    pub fir: bool,
    pub fin: bool,
    pub con: bool,
    pub uns: bool,
    pub seq: Sequence,
}

pub open spec fn flag_value(b: bool, weight: int) -> int {
    if b {
        weight
    } else {
        0
    }
}

impl Control {
    /// the control field that the byte `x` holds
    pub open spec fn spec_from(x: u8) -> Control {
        Control {
            fir: bit_of(x, 7),
            fin: bit_of(x, 6),
            con: bit_of(x, 5),
            uns: bit_of(x, 4),
            seq: Sequence::spec_new(x),
        }
    }

    /// the byte that holds this control field: FIR in bit 7, FIN in bit 6,
    /// CON in bit 5, UNS in bit 4 and the sequence number in bits 3-0
    pub open spec fn code(self) -> u8 {
        (flag_value(self.fir, 128) + flag_value(self.fin, 64) + flag_value(self.con, 32)
            + flag_value(self.uns, 16) + self.seq.spec_value()) as u8
    }

    /// FIR and FIN set, CON and UNS clear
    pub fn request(seq: Sequence) -> (c: Self)
        ensures
            c == (Control { fir: true, fin: true, con: false, uns: false, seq }),
    {
        Self { fir: true, fin: true, con: false, uns: false, seq }
    }

    /// FIR, FIN and UNS set, CON clear
    pub fn unsolicited(seq: Sequence) -> (c: Self)
        ensures
            c == (Control { fir: true, fin: true, con: false, uns: true, seq }),
    {
        Self { fir: true, fin: true, con: false, uns: true, seq }
    }

    pub fn from(x: u8) -> (c: Self)
        ensures
            c == Control::spec_from(x),
    {
        proof {
            lemma_mask_bits(x);
        }
        Self {
            fir: x & 0b1000_0000 != 0,
            fin: x & 0b0100_0000 != 0,
            con: x & 0b0010_0000 != 0,
            uns: x & 0b0001_0000 != 0,
            seq: Sequence::new(x),
        }
    }

    pub fn is_fir_and_fin(self) -> (b: bool)
        ensures
            b == (self.fir && self.fin),
    {
        self.fir && self.fin
    }

    pub fn to_u8(self) -> (x: u8)
        ensures
            x == self.code(),
    {
        let mut x: u8 = self.seq.value();
        if self.fir {
            x = x + 128;
        }
        if self.fin {
            x = x + 64;
        }
        if self.con {
            x = x + 32;
        }
        if self.uns {
            x = x + 16;
        }
        x
    }

    pub fn parse(cursor: &mut ReadCursor) -> (res: Result<Self, ReadError>)
        ensures
            old(cursor)@.len() >= 1 ==> res == Ok::<Control, ReadError>(
                Control::spec_from(old(cursor)@[0]),
            ) && final(cursor)@ == old(cursor)@.skip(1),
            old(cursor)@.len() < 1 ==> res is Err && final(cursor)@ == old(cursor)@,
    {
        Ok(Self::from(cursor.read_u8()?))
    }

    pub fn write(self, cursor: &mut WriteCursor) -> (res: Result<(), WriteError>)
        ensures
            old(cursor).position() <= old(cursor).buffer().len(),
            write_bytes_result(old(cursor), final(cursor), seq![self.code()], res),
    {
        let ghost c0 = *cursor;
        let r = cursor.write_u8(self.to_u8());
        proof {
            lemma_single_byte(&c0, cursor, self.code(), r);
        }
        r
    }

    /// Reading the byte that a control field is written as gives the field
    /// back (the sequence number compared by its value).
    pub proof fn lemma_code_then_from(self)
        ensures
            Control::spec_from(self.code()).fir == self.fir,
            Control::spec_from(self.code()).fin == self.fin,
            Control::spec_from(self.code()).con == self.con,
            Control::spec_from(self.code()).uns == self.uns,
            Control::spec_from(self.code()).seq.spec_value() == self.seq.spec_value(),
    {
        let x = self.code();
        let f = flag_value(self.fir, 128);
        let n = flag_value(self.fin, 64);
        let c = flag_value(self.con, 32);
        let u = flag_value(self.uns, 16);
        let s = self.seq.spec_value();
        assert(x == f + n + c + u + s);
        vstd::arithmetic::power2::lemma2_to64();
        assert(((x / 128) % 2 == 1) == (f == 128) && ((x / 64) % 2 == 1) == (n == 64) && ((x / 32)
            % 2 == 1) == (c == 32) && ((x / 16) % 2 == 1) == (u == 16) && x % 16 == s)
            by (nonlinear_arith)
            requires
                x == f + n + c + u + s,
                f == 0 || f == 128,
                n == 0 || n == 64,
                c == 0 || c == 32,
                u == 0 || u == 16,
                0 <= s < 16,
        ;
    }

    /// Reading the byte that a control field is written as gives the same
    /// control field back.
    pub proof fn lemma_control_roundtrip(self)
        requires
            self.seq.wf(),
        ensures
            Control::spec_from(self.code()) == self,
    {
        self.lemma_code_then_from();
        Sequence::lemma_spec_new_value(self.code());
        Sequence::lemma_eq_by_value(Control::spec_from(self.code()).seq, self.seq);
    }

    /// The control byte: FIR is bit 7 (0x80), FIN bit 6 (0x40), CON bit 5
    /// (0x20), UNS bit 4 (0x10), and the sequence number the low four bits.
    pub proof fn lemma_control_bits(x: u8)
        ensures
            Control::spec_from(x).fir == (x >= 0x80),
            Control::spec_from(x).fin == (x % 0x80 >= 0x40),
            Control::spec_from(x).con == (x % 0x40 >= 0x20),
            Control::spec_from(x).uns == (x % 0x20 >= 0x10),
            Control::spec_from(x).seq.spec_value() == x % 0x10,
    {
        vstd::arithmetic::power2::lemma2_to64();
        Sequence::lemma_spec_new_value(x);
        assert(((x / 128) % 2 == 1) == (x >= 0x80)) by (bit_vector);
        assert(((x / 64) % 2 == 1) == (x % 0x80 >= 0x40)) by (bit_vector);
        assert(((x / 32) % 2 == 1) == (x % 0x40 >= 0x20)) by (bit_vector);
        assert(((x / 16) % 2 == 1) == (x % 0x20 >= 0x10)) by (bit_vector);
    }

    /// Writing the control field read from a byte gives the byte back.
    pub proof fn lemma_from_then_code(x: u8)
        ensures
            Control::spec_from(x).code() == x,
    {
        vstd::arithmetic::power2::lemma2_to64();
        let b7 = if (x / 128) % 2 == 1 { 128int } else { 0int };
        let b6 = if (x / 64) % 2 == 1 { 64int } else { 0int };
        let b5 = if (x / 32) % 2 == 1 { 32int } else { 0int };
        let b4 = if (x / 16) % 2 == 1 { 16int } else { 0int };
        assert(b7 + b6 + b5 + b4 + x % 16 == x) by (nonlinear_arith)
            requires
                b7 == (if (x / 128) % 2 == 1 { 128int } else { 0int }),
                b6 == (if (x / 64) % 2 == 1 { 64int } else { 0int }),
                b5 == (if (x / 32) % 2 == 1 { 32int } else { 0int }),
                b4 == (if (x / 16) % 2 == 1 { 16int } else { 0int }),
                0 <= x < 256,
        ;
    }
}

/// Internal indications of a response
#[derive(Copy, Clone, Debug, PartialEq, Eq, Structural)]
pub struct IIN {
    pub iin0: u8,
    pub iin1: u8,
}

impl IIN {
    pub fn new(iin0: u8, iin1: u8) -> (i: Self)
        ensures
            i == (IIN { iin0, iin1 }),
    {
        Self { iin0, iin1 }
    }

    pub fn parse(cursor: &mut ReadCursor) -> (res: Result<Self, ReadError>)
        ensures
            old(cursor)@.len() >= 2 ==> res == Ok::<IIN, ReadError>(
                IIN { iin0: old(cursor)@[0], iin1: old(cursor)@[1] },
            ) && final(cursor)@ == old(cursor)@.skip(2),
            old(cursor)@.len() < 2 ==> res is Err,
    {
        let ghost s = cursor@;
        let iin0 = cursor.read_u8()?;
        let iin1 = cursor.read_u8()?;
        proof {
            assert(s.skip(1).skip(1) =~= s.skip(2));
        }
        Ok(Self { iin0, iin1 })
    }

    pub open spec fn bytes(self) -> Seq<u8> {
        seq![self.iin0, self.iin1]
    }

    pub fn write(self, cursor: &mut WriteCursor) -> (res: Result<(), WriteError>)
        ensures
            old(cursor).position() <= old(cursor).buffer().len(),
            write_bytes_result(old(cursor), final(cursor), self.bytes(), res),
    {
        let ghost c0 = *cursor;
        let r = cursor.write_u8(self.iin0);
        proof {
            lemma_single_byte(&c0, cursor, self.iin0, r);
            assert(seq![self.iin0] + seq![self.iin1] =~= self.bytes());
        }
        if r.is_err() {
            proof {
                lemma_write_bytes_seq(&c0, cursor, cursor, seq![self.iin0], seq![self.iin1], r, r);
            }
            return r;
        }
        let ghost c1 = *cursor;
        let r2 = cursor.write_u8(self.iin1);
        proof {
            lemma_single_byte(&c1, cursor, self.iin1, r2);
            lemma_write_bytes_seq(&c0, &c1, cursor, seq![self.iin0], seq![self.iin1], r, r2);
        }
        r2
    }
}

/// Header of a request fragment
#[derive(Copy, Clone, Debug, PartialEq, Eq, Structural)]
pub struct RequestHeader {
    pub control: Control,
    pub function: FunctionCode,
}

/// Header of a response fragment
#[derive(Copy, Clone, Debug, PartialEq, Eq, Structural)]
pub struct ResponseHeader {
    pub control: Control,
    pub unsolicited: bool,
    pub iin: IIN,
}

impl RequestHeader {
    pub fn new(control: Control, function: FunctionCode) -> (h: Self)
        ensures
            h == (RequestHeader { control, function }),
    {
        Self { control, function }
    }

    /// the control byte then the function code
    pub open spec fn bytes(self) -> Seq<u8> {
        seq![self.control.code(), self.function.code()]
    }

    pub fn write(self, cursor: &mut WriteCursor) -> (res: Result<(), WriteError>)
        ensures
            old(cursor).position() <= old(cursor).buffer().len(),
            write_bytes_result(old(cursor), final(cursor), self.bytes(), res),
    {
        let ghost c0 = *cursor;
        let ghost a = seq![self.control.code()];
        let ghost b = seq![self.function.code()];
        proof {
            assert(a + b =~= self.bytes());
        }
        let r = self.control.write(cursor);
        if r.is_err() {
            proof {
                lemma_write_bytes_seq(&c0, cursor, cursor, a, b, r, r);
            }
            return r;
        }
        let ghost c1 = *cursor;
        let r2 = cursor.write_u8(self.function.as_u8());
        proof {
            lemma_single_byte(&c1, cursor, self.function.code(), r2);
            lemma_write_bytes_seq(&c0, &c1, cursor, a, b, r, r2);
        }
        r2
    }
}

impl ResponseHeader {
    pub fn new(control: Control, unsolicited: bool, iin: IIN) -> (h: Self)
        ensures
            h == (ResponseHeader { control, unsolicited, iin }),
    {
        Self { control, unsolicited, iin }
    }

    pub open spec fn spec_function(self) -> FunctionCode {
        if self.unsolicited {
            FunctionCode::UnsolicitedResponse
        } else {
            FunctionCode::Response
        }
    }

    /// `UnsolicitedResponse` for unsolicited responses, `Response` otherwise
    pub fn function(self) -> (f: FunctionCode)
        ensures
            f == self.spec_function(),
    {
        if self.unsolicited {
            FunctionCode::UnsolicitedResponse
        } else {
            FunctionCode::Response
        }
    }

    /// the control byte, the function code, then the two indication bytes
    pub open spec fn bytes(self) -> Seq<u8> {
        seq![self.control.code(), self.spec_function().code(), self.iin.iin0, self.iin.iin1]
    }

    pub fn write(self, cursor: &mut WriteCursor) -> (res: Result<(), WriteError>)
        ensures
            old(cursor).position() <= old(cursor).buffer().len(),
            write_bytes_result(old(cursor), final(cursor), self.bytes(), res),
    {
        let ghost c0 = *cursor;
        let ghost a = seq![self.control.code()];
        let ghost b = seq![self.spec_function().code()];
        let ghost c = self.iin.bytes();
        proof {
            assert(a + b + c =~= self.bytes());
        }
        let r = self.control.write(cursor);
        if r.is_err() {
            proof {
                lemma_write_bytes_seq(&c0, cursor, cursor, a, b, r, r);
                lemma_write_bytes_seq(&c0, cursor, cursor, a + b, c, r, r);
            }
            return r;
        }
        let ghost c1 = *cursor;
        let r2 = cursor.write_u8(self.function().as_u8());
        proof {
            lemma_single_byte(&c1, cursor, self.spec_function().code(), r2);
            lemma_write_bytes_seq(&c0, &c1, cursor, a, b, r, r2);
        }
        if r2.is_err() {
            proof {
                lemma_write_bytes_seq(&c0, cursor, cursor, a + b, c, r2, r2);
            }
            return r2;
        }
        let ghost c2 = *cursor;
        let r3 = self.iin.write(cursor);
        proof {
            lemma_write_bytes_seq(&c0, &c2, cursor, a + b, c, r2, r3);
        }
        r3
    }
}

} // verus!
