use vstd::prelude::*;

verus! {

/// Returned when a read asks for more bytes than remain in the cursor.
#[derive(Copy, Clone, Debug, PartialEq, Eq)]
pub struct ReadError;

/// Returned when a write asks for more room than remains in the buffer.
#[derive(Copy, Clone, Debug, PartialEq, Eq)]
pub struct WriteError;

// ---------------------------------------------------------------------------
// little-endian encodings, as mathematical functions over byte sequences
// ---------------------------------------------------------------------------

/// the unsigned 16-bit value whose little-endian encoding starts `s`
pub open spec fn le_u16(s: Seq<u8>) -> u16 {
    (s[0] + 256 * s[1]) as u16
}

/// the unsigned 32-bit value whose little-endian encoding starts `s`
pub open spec fn le_u32(s: Seq<u8>) -> u32 {
    (s[0] + 256 * s[1] + 65536 * s[2] + 16777216 * s[3]) as u32
}

/// the unsigned 48-bit value whose little-endian encoding starts `s`
pub open spec fn le_u48(s: Seq<u8>) -> u64 {
    (s[0] + 256 * s[1] + 65536 * s[2] + 16777216 * s[3] + 4294967296 * s[4] + 1099511627776
        * s[5]) as u64
}

/// the unsigned 64-bit value whose little-endian encoding starts `s`
pub open spec fn le_u64(s: Seq<u8>) -> u64 {
    (le_u32(s) + 4294967296 * le_u32(s.skip(4))) as u64
}

/// two's complement reading of a 16-bit pattern
pub open spec fn u16_to_i16(x: u16) -> i16 {
    if x < 0x8000 {
        x as i16
    } else {
        (x - 65536) as i16
    }
}

/// two's complement reading of a 32-bit pattern
pub open spec fn u32_to_i32(x: u32) -> i32 {
    if x < 0x8000_0000 {
        x as i32
    } else {
        (x - 4294967296) as i32
    }
}

/// two's complement bit pattern of a 16-bit signed value
pub open spec fn i16_to_u16(x: i16) -> u16 {
    if x >= 0 {
        x as u16
    } else {
        (x + 65536) as u16
    }
}

/// two's complement bit pattern of a 32-bit signed value
pub open spec fn i32_to_u32(x: i32) -> u32 {
    if x >= 0 {
        x as u32
    } else {
        (x + 4294967296) as u32
    }
}

pub open spec fn u16_le_bytes(v: u16) -> Seq<u8> {
    seq![(v % 256) as u8, (v / 256) as u8]
}

pub open spec fn u32_le_bytes(v: u32) -> Seq<u8> {
    seq![(v % 256) as u8, ((v / 256) % 256) as u8, ((v / 65536) % 256) as u8, (v / 16777216) as u8]
}

pub open spec fn u48_le_bytes(v: u64) -> Seq<u8> {
    seq![
        (v % 256) as u8,
        ((v / 256) % 256) as u8,
        ((v / 65536) % 256) as u8,
        ((v / 16777216) % 256) as u8,
        ((v / 4294967296) % 256) as u8,
        ((v / 1099511627776) % 256) as u8,
    ]
}

pub open spec fn u64_le_bytes(v: u64) -> Seq<u8> {
    u32_le_bytes((v % 4294967296) as u32) + u32_le_bytes((v / 4294967296) as u32)
}

pub proof fn lemma_u16_roundtrip(v: u16)
    ensures
        u16_le_bytes(v).len() == 2,
        le_u16(u16_le_bytes(v)) == v,
{
}

pub proof fn lemma_u16_bytes_roundtrip(s: Seq<u8>)
    requires
        s.len() >= 2,
    ensures
        u16_le_bytes(le_u16(s)) == s.take(2),
{
    assert(u16_le_bytes(le_u16(s)) =~= s.take(2));
}

pub proof fn lemma_u32_roundtrip(v: u32)
    ensures
        u32_le_bytes(v).len() == 4,
        le_u32(u32_le_bytes(v)) == v,
{
    assert((v % 256) + 256 * ((v / 256) % 256) + 65536 * ((v / 65536) % 256) + 16777216 * (v
        / 16777216) == v) by (bit_vector);
}

pub proof fn lemma_u32_bytes_roundtrip(s: Seq<u8>)
    requires
        s.len() >= 4,
    ensures
        u32_le_bytes(le_u32(s)) == s.take(4),
{
    let v = le_u32(s);
    let (a, b, c, d) = (s[0], s[1], s[2], s[3]);
    assert(v == a + 256 * b + 65536 * c + 16777216 * d);
    assert(v % 256 == a && (v / 256) % 256 == b && (v / 65536) % 256 == c && v / 16777216 == d)
        by (bit_vector)
        requires
            v == a + 256 * b + 65536 * c + 16777216 * d,
    ;
    assert(u32_le_bytes(le_u32(s)) =~= s.take(4));
}

pub proof fn lemma_u48_roundtrip(v: u64)
    requires
        v < 0x1_0000_0000_0000,
    ensures
        u48_le_bytes(v).len() == 6,
        le_u48(u48_le_bytes(v)) == v,
{
    assert(v % 256 + 256 * ((v / 256) % 256) + 65536 * ((v / 65536) % 256) + 16777216 * ((v
        / 16777216) % 256) + 4294967296 * ((v / 4294967296) % 256) + 1099511627776 * ((v
        / 1099511627776) % 256) == v) by (bit_vector)
        requires
            v < 0x1_0000_0000_0000,
    ;
}

pub proof fn lemma_u48_bytes_roundtrip(s: Seq<u8>)
    requires
        s.len() >= 6,
    ensures
        le_u48(s) < 0x1_0000_0000_0000,
        u48_le_bytes(le_u48(s)) == s.take(6),
{
    let v = le_u48(s);
    let (a, b, c, d, e, f) = (s[0], s[1], s[2], s[3], s[4], s[5]);
    assert(v == a + 256 * b + 65536 * c + 16777216 * d + 4294967296 * e + 1099511627776 * f);
    assert(v % 256 == a && (v / 256) % 256 == b && (v / 65536) % 256 == c && (v / 16777216) % 256
        == d && (v / 4294967296) % 256 == e && (v / 1099511627776) % 256 == f) by (bit_vector)
        requires
            v == a + 256 * b + 65536 * c + 16777216 * d + 4294967296 * e + 1099511627776 * f,
    ;
    assert(u48_le_bytes(le_u48(s)) =~= s.take(6));
}

pub proof fn lemma_u64_roundtrip(v: u64)
    ensures
        u64_le_bytes(v).len() == 8,
        le_u64(u64_le_bytes(v)) == v,
{
    let lo = (v % 4294967296) as u32;
    let hi = (v / 4294967296) as u32;
    lemma_u32_roundtrip(lo);
    lemma_u32_roundtrip(hi);
    let b = u64_le_bytes(v);
    assert(b.skip(4) =~= u32_le_bytes(hi));
    assert(b.take(4) =~= u32_le_bytes(lo));
    assert(le_u32(b) == le_u32(b.take(4)));
    assert((v % 4294967296) + 4294967296 * (v / 4294967296) == v) by (bit_vector);
}

pub proof fn lemma_u64_bytes_roundtrip(s: Seq<u8>)
    requires
        s.len() >= 8,
    ensures
        u64_le_bytes(le_u64(s)) == s.take(8),
{
    let lo = le_u32(s);
    let hi = le_u32(s.skip(4));
    let v = le_u64(s);
    assert(v == lo + 4294967296 * hi);
    assert(v % 4294967296 == lo && v / 4294967296 == hi) by (bit_vector)
        requires
            v == lo + 4294967296 * hi,
    ;
    lemma_u32_bytes_roundtrip(s);
    lemma_u32_bytes_roundtrip(s.skip(4));
    assert(u64_le_bytes(le_u64(s)) =~= s.take(8));
}

pub proof fn lemma_i16_roundtrip(v: i16)
    ensures
        u16_to_i16(i16_to_u16(v)) == v,
{
}

pub proof fn lemma_i32_roundtrip(v: i32)
    ensures
        u32_to_i32(i32_to_u32(v)) == v,
{
}

pub proof fn lemma_u16_i16_roundtrip(v: u16)
    ensures
        i16_to_u16(u16_to_i16(v)) == v,
{
}

pub proof fn lemma_u32_i32_roundtrip(v: u32)
    ensures
        i32_to_u32(u32_to_i32(v)) == v,
{
}

// ---------------------------------------------------------------------------
// read cursor
// ---------------------------------------------------------------------------

/// A cursor over borrowed bytes that only moves forward. Its view is the
/// sequence of bytes that have not been read yet.
#[derive(Copy, Clone, Debug, PartialEq)]
pub struct ReadCursor<'a> {
    src: &'a [u8],
}

impl<'a> View for ReadCursor<'a> {
    type V = Seq<u8>;

    closed spec fn view(&self) -> Seq<u8> {
        self.src@
    }
}

impl<'a> ReadCursor<'a> {
    pub fn new(src: &'a [u8]) -> (c: Self)
        ensures
            c@ == src@,
    {
        ReadCursor { src }
    }

    pub fn len(&self) -> (n: usize)
        ensures
            n == self@.len(),
    {
        self.src.len()
    }

    pub fn is_empty(&self) -> (b: bool)
        ensures
            b == (self@.len() == 0),
    {
        self.src.len() == 0
    }

    /// all remaining bytes; the cursor is empty afterwards
    pub fn read_all(&mut self) -> (all: &'a [u8])
        ensures
            all@ == old(self)@,
            final(self)@.len() == 0,
    {
        let all = self.src;
        let (_, rest) = self.src.split_at(self.src.len());
        self.src = rest;
        all
    }

    pub fn read_bytes(&mut self, count: usize) -> (res: Result<&'a [u8], ReadError>)
        ensures
            count <= old(self)@.len() ==> res is Ok && res.unwrap()@ == old(self)@.take(
                count as int,
            ) && final(self)@ == old(self)@.skip(count as int),
            count > old(self)@.len() ==> res is Err && final(self)@ == old(self)@,
    {
        if count > self.src.len() {
            return Err(ReadError);
        }
        let (a, b) = self.src.split_at(count);
        self.src = b;
        Ok(a)
    }

    pub fn read_u8(&mut self) -> (res: Result<u8, ReadError>)
        ensures
            old(self)@.len() >= 1 ==> res == Ok::<u8, ReadError>(old(self)@[0]) && final(self)@
                == old(self)@.skip(1),
            old(self)@.len() < 1 ==> res is Err && final(self)@ == old(self)@,
    {
        if self.src.len() < 1 {
            return Err(ReadError);
        }
        let x = self.src[0];
        let (_, b) = self.src.split_at(1);
        self.src = b;
        Ok(x)
    }

    pub fn read_u16_le(&mut self) -> (res: Result<u16, ReadError>)
        ensures
            old(self)@.len() >= 2 ==> res == Ok::<u16, ReadError>(le_u16(old(self)@))
                && final(self)@ == old(self)@.skip(2),
            old(self)@.len() < 2 ==> res is Err && final(self)@ == old(self)@,
    {
        if self.src.len() < 2 {
            return Err(ReadError);
        }
        let x = self.src[0] as u16 + 256 * (self.src[1] as u16);
        let (_, b) = self.src.split_at(2);
        self.src = b;
        Ok(x)
    }

    pub fn read_i16_le(&mut self) -> (res: Result<i16, ReadError>)
        ensures
            old(self)@.len() >= 2 ==> res == Ok::<i16, ReadError>(u16_to_i16(le_u16(old(self)@)))
                && final(self)@ == old(self)@.skip(2),
            old(self)@.len() < 2 ==> res is Err && final(self)@ == old(self)@,
    {
        let x = self.read_u16_le()?;
        if x < 0x8000 {
            Ok(x as i16)
        } else {
            Ok((x as i32 - 65536) as i16)
        }
    }

    pub fn read_u32_le(&mut self) -> (res: Result<u32, ReadError>)
        ensures
            old(self)@.len() >= 4 ==> res == Ok::<u32, ReadError>(le_u32(old(self)@))
                && final(self)@ == old(self)@.skip(4),
            old(self)@.len() < 4 ==> res is Err && final(self)@ == old(self)@,
    {
        if self.src.len() < 4 {
            return Err(ReadError);
        }
        let x = self.src[0] as u32 + 256 * (self.src[1] as u32) + 65536 * (self.src[2] as u32)
            + 16777216 * (self.src[3] as u32);
        let (_, b) = self.src.split_at(4);
        self.src = b;
        Ok(x)
    }

    pub fn read_i32_le(&mut self) -> (res: Result<i32, ReadError>)
        ensures
            old(self)@.len() >= 4 ==> res == Ok::<i32, ReadError>(u32_to_i32(le_u32(old(self)@)))
                && final(self)@ == old(self)@.skip(4),
            old(self)@.len() < 4 ==> res is Err && final(self)@ == old(self)@,
    {
        let x = self.read_u32_le()?;
        if x < 0x8000_0000 {
            Ok(x as i32)
        } else {
            Ok((x as i64 - 4294967296) as i32)
        }
    }

    pub fn read_u48_le(&mut self) -> (res: Result<u64, ReadError>)
        ensures
            old(self)@.len() >= 6 ==> res == Ok::<u64, ReadError>(le_u48(old(self)@))
                && final(self)@ == old(self)@.skip(6),
            old(self)@.len() < 6 ==> res is Err && final(self)@ == old(self)@,
    {
        if self.src.len() < 6 {
            return Err(ReadError);
        }
        let x = self.src[0] as u64 + 256 * (self.src[1] as u64) + 65536 * (self.src[2] as u64)
            + 16777216 * (self.src[3] as u64) + 4294967296 * (self.src[4] as u64) + 1099511627776
            * (self.src[5] as u64);
        let (_, b) = self.src.split_at(6);
        self.src = b;
        Ok(x)
    }

    pub fn read_u64_le(&mut self) -> (res: Result<u64, ReadError>)
        ensures
            old(self)@.len() >= 8 ==> res == Ok::<u64, ReadError>(le_u64(old(self)@))
                && final(self)@ == old(self)@.skip(8),
            old(self)@.len() < 8 ==> res is Err && final(self)@ == old(self)@,
    {
        if self.src.len() < 8 {
            return Err(ReadError);
        }
        let ghost s = self@;
        let lo = self.read_u32_le()?;
        let hi = self.read_u32_le()?;
        proof {
            assert(s.skip(4).skip(4) =~= s.skip(8));
        }
        Ok(lo as u64 + 4294967296 * (hi as u64))
    }
}

// ---------------------------------------------------------------------------
// write cursor
// ---------------------------------------------------------------------------

/// the buffer after `bytes` are written at `pos`
pub open spec fn spliced(buffer: Seq<u8>, pos: int, bytes: Seq<u8>) -> Seq<u8> {
    buffer.take(pos) + bytes + buffer.skip(pos + bytes.len())
}

/// A cursor that writes into a borrowed buffer from its start. `buffer()` is
/// the whole buffer and `position()` the number of bytes written so far.
pub struct WriteCursor<'a> {
    dest: &'a mut [u8],
    pos: usize,
}

impl<'a> WriteCursor<'a> {
    #[verifier::type_invariant]
    closed spec fn inv(self) -> bool {
        self.pos <= self.dest@.len()
    }

    pub closed spec fn buffer(&self) -> Seq<u8> {
        self.dest@
    }

    pub closed spec fn position(&self) -> nat {
        self.pos as nat
    }

    /// the bytes written so far
    pub open spec fn spec_written(&self) -> Seq<u8> {
        self.buffer().take(self.position() as int)
    }

    /// the effect on a cursor of a successful write of `bytes`
    pub open spec fn wrote(old_c: &Self, new_c: &Self, bytes: Seq<u8>) -> bool {
        &&& new_c.position() == old_c.position() + bytes.len()
        &&& new_c.buffer() == spliced(old_c.buffer(), old_c.position() as int, bytes)
    }

    /// what each write guarantees: it writes all of `bytes` if they fit, or
    /// leaves the cursor as it was and fails
    pub open spec fn write_result(
        old_c: &Self,
        new_c: &Self,
        bytes: Seq<u8>,
        res: Result<(), WriteError>,
    ) -> bool {
        &&& old_c.position() + bytes.len() <= old_c.buffer().len() ==> res is Ok && Self::wrote(
            old_c,
            new_c,
            bytes,
        )
        &&& old_c.position() + bytes.len() > old_c.buffer().len() ==> res is Err && new_c
            == old_c
    }

    pub fn new(dest: &'a mut [u8]) -> (c: Self)
        ensures
            c.position() == 0,
            c.buffer() == old(dest)@,
    {
        WriteCursor { dest, pos: 0 }
    }

    /// number of bytes that can still be written
    pub fn remaining(&self) -> (n: usize)
        ensures
            n == self.buffer().len() - self.position(),
    {
        proof {
            use_type_invariant(self);
        }
        self.dest.len() - self.pos
    }

    pub fn position_now(&self) -> (n: usize)
        ensures
            n == self.position(),
    {
        self.pos
    }

    fn put(&mut self, b: u8)
        requires
            old(self).position() < old(self).buffer().len(),
        ensures
            final(self).buffer() == old(self).buffer().update(old(self).position() as int, b),
            final(self).position() == old(self).position() + 1,
    {
        self.dest[self.pos] = b;
        self.pos = self.pos + 1;
    }

    pub fn write_u8(&mut self, b: u8) -> (res: Result<(), WriteError>)
        ensures
            old(self).position() <= old(self).buffer().len(),
            Self::write_result(old(self), final(self), seq![b], res),
    {
        proof {
            use_type_invariant(&*self);
        }
        if self.pos >= self.dest.len() {
            return Err(WriteError);
        }
        let ghost old_buf = self.buffer();
        let ghost p = self.position() as int;
        self.put(b);
        assert(self.buffer() =~= spliced(old_buf, p, seq![b]));
        Ok(())
    }

    pub fn write_u16_le(&mut self, v: u16) -> (res: Result<(), WriteError>)
        ensures
            Self::write_result(old(self), final(self), u16_le_bytes(v), res),
    {
        proof {
            use_type_invariant(&*self);
        }
        if self.dest.len() - self.pos < 2 {
            return Err(WriteError);
        }
        let ghost old_buf = self.buffer();
        let ghost p = self.position() as int;
        self.put((v % 256) as u8);
        self.put((v / 256) as u8);
        assert(self.buffer() =~= spliced(old_buf, p, u16_le_bytes(v)));
        Ok(())
    }

    pub fn write_i16_le(&mut self, v: i16) -> (res: Result<(), WriteError>)
        ensures
            Self::write_result(old(self), final(self), u16_le_bytes(i16_to_u16(v)), res),
    {
        let u: u16 = if v >= 0 {
            v as u16
        } else {
            (v as i32 + 65536) as u16
        };
        self.write_u16_le(u)
    }

    pub fn write_u32_le(&mut self, v: u32) -> (res: Result<(), WriteError>)
        ensures
            Self::write_result(old(self), final(self), u32_le_bytes(v), res),
    {
        proof {
            use_type_invariant(&*self);
        }
        if self.dest.len() - self.pos < 4 {
            return Err(WriteError);
        }
        let ghost old_buf = self.buffer();
        let ghost p = self.position() as int;
        self.put((v % 256) as u8);
        self.put(((v / 256) % 256) as u8);
        self.put(((v / 65536) % 256) as u8);
        self.put((v / 16777216) as u8);
        assert(self.buffer() =~= spliced(old_buf, p, u32_le_bytes(v)));
        Ok(())
    }

    pub fn write_i32_le(&mut self, v: i32) -> (res: Result<(), WriteError>)
        ensures
            Self::write_result(old(self), final(self), u32_le_bytes(i32_to_u32(v)), res),
    {
        let u: u32 = if v >= 0 {
            v as u32
        } else {
            (v as i64 + 4294967296) as u32
        };
        self.write_u32_le(u)
    }

    /// writes the low 48 bits of `v`
    pub fn write_u48_le(&mut self, v: u64) -> (res: Result<(), WriteError>)
        ensures
            Self::write_result(old(self), final(self), u48_le_bytes(v), res),
    {
        proof {
            use_type_invariant(&*self);
        }
        if self.dest.len() - self.pos < 6 {
            return Err(WriteError);
        }
        let ghost old_buf = self.buffer();
        let ghost p = self.position() as int;
        self.put((v % 256) as u8);
        self.put(((v / 256) % 256) as u8);
        self.put(((v / 65536) % 256) as u8);
        self.put(((v / 16777216) % 256) as u8);
        self.put(((v / 4294967296) % 256) as u8);
        self.put(((v / 1099511627776) % 256) as u8);
        assert(self.buffer() =~= spliced(old_buf, p, u48_le_bytes(v)));
        Ok(())
    }

    pub fn write_u64_le(&mut self, v: u64) -> (res: Result<(), WriteError>)
        ensures
            Self::write_result(old(self), final(self), u64_le_bytes(v), res),
    {
        proof {
            use_type_invariant(&*self);
        }
        if self.dest.len() - self.pos < 8 {
            return Err(WriteError);
        }
        let ghost old_buf = self.buffer();
        let ghost p = self.position() as int;
        let lo = (v % 4294967296) as u32;
        let hi = (v / 4294967296) as u32;
        self.put((lo % 256) as u8);
        self.put(((lo / 256) % 256) as u8);
        self.put(((lo / 65536) % 256) as u8);
        self.put((lo / 16777216) as u8);
        self.put((hi % 256) as u8);
        self.put(((hi / 256) % 256) as u8);
        self.put(((hi / 65536) % 256) as u8);
        self.put((hi / 16777216) as u8);
        assert(self.buffer() =~= spliced(old_buf, p, u64_le_bytes(v)));
        Ok(())
    }

    /// the bytes written so far
    pub fn written(&self) -> (w: &[u8])
        ensures
            w@ == self.spec_written(),
    {
        proof {
            use_type_invariant(self);
        }
        let (a, _) = self.dest.split_at(self.pos);
        a
    }

    /// the bytes written since position `start`
    pub fn written_since(&self, start: usize) -> (res: Result<&[u8], WriteError>)
        ensures
            start <= self.position() ==> res is Ok && res.unwrap()@ == self.buffer().subrange(
                start as int,
                self.position() as int,
            ),
            start > self.position() ==> res is Err,
    {
        proof {
            use_type_invariant(self);
        }
        if start > self.pos {
            return Err(WriteError);
        }
        let (a, _) = self.dest.split_at(self.pos);
        let (_, b) = a.split_at(start);
        Ok(b)
    }
}

} // verus!
