use crate::app::parse::range::Range;
use crate::app::types::DoubleBit;
use crate::util::cursor::{ReadCursor, ReadError};
use vstd::prelude::*;

verus! {

broadcast use crate::app::parse::range::Range::lemma_bounds;

/// number of bytes that hold `count` bits
pub fn num_bytes_for_bits(count: usize) -> (n: usize)
    ensures
        n == (count + 7) / 8,
{
    count / 8 + if count % 8 == 0 {
        0
    } else {
        1
    }
}

/// number of bytes that hold `count` double bits
pub fn num_bytes_for_double_bits(count: usize) -> (n: usize)
    ensures
        n == (count + 3) / 4,
{
    count / 4 + if count % 4 == 0 {
        0
    } else {
        1
    }
}

/// bit `i` of a packed sequence: bit `i % 8` of byte `i / 8`
pub open spec fn bit_at(bytes: Seq<u8>, i: int) -> bool {
    (bytes[i / 8] >> ((i % 8) as u8)) & 1 == 1
}

/// double bit `i` of a packed sequence: bits `2 * (i % 4)` and up of byte `i / 4`
pub open spec fn double_bit_at(bytes: Seq<u8>, i: int) -> u8 {
    (bytes[i / 4] >> ((2 * (i % 4)) as u8)) % 4
}

/// zero-copy type used to iterate over a collection of bits without allocating
#[derive(Debug, PartialEq, Copy, Clone)]
pub struct IndexedBitSequence<'a> {
    bytes: &'a [u8],
    range: Range,
}

/// zero-copy type used to iterate over a collection of double bits without allocating
#[derive(Debug, PartialEq, Copy, Clone)]
pub struct IndexedDoubleBitSequence<'a> {
    bytes: &'a [u8],
    range: Range,
}

impl<'a> IndexedBitSequence<'a> {
    #[verifier::type_invariant]
    closed spec fn inv(self) -> bool {
        self.bytes@.len() == (self.range.spec_count() + 7) / 8
    }

    pub closed spec fn spec_range(&self) -> Range {
        self.range
    }

    pub closed spec fn spec_bytes(&self) -> Seq<u8> {
        self.bytes@
    }

    /// the bits with their indices, in order
    pub open spec fn spec_items(&self) -> Seq<(bool, u16)> {
        Seq::new(
            self.spec_range().spec_count(),
            |i: int| (bit_at(self.spec_bytes(), i), (self.spec_range().spec_start() + i) as u16),
        )
    }

    pub fn empty() -> (s: Self)
        ensures
            s.spec_range().spec_start() == 0,
            s.spec_range().spec_count() == 0,
            s.spec_bytes() == Seq::<u8>::empty(),
    {
        let bytes: &[u8] = &[];
        assert(bytes@ =~= Seq::<u8>::empty());
        Self { bytes, range: Range::empty() }
    }

    /// reads the bits of `range`, 8 to a byte
    pub fn parse(range: Range, cursor: &mut ReadCursor<'a>) -> (res: Result<Self, ReadError>)
        ensures
            ({
                let n = (range.spec_count() + 7) / 8;
                &&& n <= old(cursor)@.len() ==> res is Ok && res.unwrap().spec_range() == range
                    && res.unwrap().spec_bytes() == old(cursor)@.take(n as int) && final(cursor)@
                    == old(cursor)@.skip(n as int)
                &&& n > old(cursor)@.len() ==> res is Err && final(cursor)@ == old(cursor)@
            }),
    {
        let bytes = cursor.read_bytes(num_bytes_for_bits(range.get_count()))?;
        Ok(Self { bytes, range })
    }

    pub fn iter(&self) -> (it: IndexedBitIterator<'a>)
        ensures
            it.spec_items() == self.spec_items(),
    {
        proof {
            use_type_invariant(self);
        }
        let it = IndexedBitIterator::<'a> {
            index: self.range.get_start(),
            bytes: self.bytes,
            count: self.range.get_count(),
            pos: 0,
        };
        assert(it.spec_items() =~= self.spec_items());
        it
    }

    /// the bits with their indices, in order
    pub fn to_vec(&self) -> (v: Vec<(bool, u16)>)
        ensures
            v@ == self.spec_items(),
    {
        let mut it = self.iter();
        it.collect_remaining()
    }
}

impl<'a> IndexedDoubleBitSequence<'a> {
    #[verifier::type_invariant]
    closed spec fn inv(self) -> bool {
        self.bytes@.len() == (self.range.spec_count() + 3) / 4
    }

    pub closed spec fn spec_range(&self) -> Range {
        self.range
    }

    pub closed spec fn spec_bytes(&self) -> Seq<u8> {
        self.bytes@
    }

    /// the codes of the double bits with their indices, in order
    pub open spec fn spec_items(&self) -> Seq<(u8, u16)> {
        Seq::new(
            self.spec_range().spec_count(),
            |i: int|
                (double_bit_at(self.spec_bytes(), i), (self.spec_range().spec_start() + i) as u16),
        )
    }

    pub fn empty() -> (s: Self)
        ensures
            s.spec_range().spec_start() == 0,
            s.spec_range().spec_count() == 0,
            s.spec_bytes() == Seq::<u8>::empty(),
    {
        let bytes: &[u8] = &[];
        assert(bytes@ =~= Seq::<u8>::empty());
        Self { bytes, range: Range::empty() }
    }

    /// reads the double bits of `range`, 4 to a byte
    pub fn parse(range: Range, cursor: &mut ReadCursor<'a>) -> (res: Result<Self, ReadError>)
        ensures
            ({
                let n = (range.spec_count() + 3) / 4;
                &&& n <= old(cursor)@.len() ==> res is Ok && res.unwrap().spec_range() == range
                    && res.unwrap().spec_bytes() == old(cursor)@.take(n as int) && final(cursor)@
                    == old(cursor)@.skip(n as int)
                &&& n > old(cursor)@.len() ==> res is Err && final(cursor)@ == old(cursor)@
            }),
    {
        let bytes = cursor.read_bytes(num_bytes_for_double_bits(range.get_count()))?;
        Ok(Self { bytes, range })
    }

    pub fn iter(&self) -> (it: IndexedDoubleBitIterator<'a>)
        ensures
            it.spec_items() == self.spec_items(),
    {
        proof {
            use_type_invariant(self);
        }
        let it = IndexedDoubleBitIterator::<'a> {
            index: self.range.get_start(),
            bytes: self.bytes,
            count: self.range.get_count(),
            pos: 0,
        };
        assert(it.spec_items() =~= self.spec_items());
        it
    }

    /// the double bits with their indices, in order
    pub fn to_vec(&self) -> (v: Vec<(DoubleBit, u16)>)
        ensures
            v@.len() == self.spec_items().len(),
            forall|i: int|
                0 <= i < v@.len() ==> (#[trigger] v@[i]).0.code() == self.spec_items()[i].0
                    && v@[i].1 == self.spec_items()[i].1,
    {
        let mut it = self.iter();
        it.collect_remaining()
    }
}

/// Yields the bits of an indexed bit sequence with their indices
pub struct IndexedBitIterator<'a> {
    index: u16,
    bytes: &'a [u8],
    count: usize,
    pos: usize,
}

/// Yields the double bits of an indexed double-bit sequence with their indices
pub struct IndexedDoubleBitIterator<'a> {
    index: u16,
    bytes: &'a [u8],
    count: usize,
    pos: usize,
}

impl<'a> IndexedBitIterator<'a> {
    #[verifier::type_invariant]
    closed spec fn inv(self) -> bool {
        &&& self.pos <= self.count
        &&& self.bytes@.len() >= (self.count + 7) / 8
        &&& self.index + (self.count - self.pos) <= 65536
    }

    /// the bits not yet yielded, with their indices
    pub closed spec fn spec_items(&self) -> Seq<(bool, u16)> {
        Seq::new(
            (self.count - self.pos) as nat,
            |k: int| (bit_at(self.bytes@, self.pos + k), (self.index + k) as u16),
        )
    }

    pub fn next(&mut self) -> (item: Option<(bool, u16)>)
        ensures
            old(self).spec_items().len() == 0 ==> item is None && final(self).spec_items()
                == old(self).spec_items(),
            old(self).spec_items().len() > 0 ==> item == Some(old(self).spec_items()[0])
                && final(self).spec_items() == old(self).spec_items().drop_first(),
    {
        proof {
            use_type_invariant(&*self);
        }
        if self.pos >= self.count {
            return None;
        }
        let ghost old_items = self.spec_items();
        let byte = self.pos / 8;
        let bit = (self.pos % 8) as u8;  // [0,7]
        let value = (self.bytes[byte] >> bit) & 1 == 1;
        let index = self.index;
        let pos = self.pos + 1;
        // protect from overflow
        let next_index = if pos < self.count {
            self.index + 1
        } else {
            self.index
        };
        *self = IndexedBitIterator { index: next_index, bytes: self.bytes, count: self.count, pos };
        assert(self.spec_items() =~= old_items.drop_first());
        Some((value, index))
    }

    /// the bits not yet yielded, in order; the iterator is empty afterwards
    pub fn collect_remaining(&mut self) -> (v: Vec<(bool, u16)>)
        ensures
            v@ == old(self).spec_items(),
            final(self).spec_items().len() == 0,
    {
        let mut v: Vec<(bool, u16)> = Vec::new();
        let ghost all = self.spec_items();
        loop
            invariant
                all == old(self).spec_items(),
                all == v@ + self.spec_items(),
            decreases self.spec_items().len(),
        {
            match self.next() {
                Some(x) => {
                    v.push(x);
                    proof {
                        assert(all =~= v@ + self.spec_items());
                    }
                },
                None => {
                    assert(all =~= v@);
                    return v;
                },
            }
        }
    }
}

impl<'a> IndexedDoubleBitIterator<'a> {
    #[verifier::type_invariant]
    closed spec fn inv(self) -> bool {
        &&& self.pos <= self.count
        &&& self.bytes@.len() >= (self.count + 3) / 4
        &&& self.index + (self.count - self.pos) <= 65536
    }

    /// the codes of the double bits not yet yielded, with their indices
    pub closed spec fn spec_items(&self) -> Seq<(u8, u16)> {
        Seq::new(
            (self.count - self.pos) as nat,
            |k: int| (double_bit_at(self.bytes@, self.pos + k), (self.index + k) as u16),
        )
    }

    pub fn next(&mut self) -> (item: Option<(DoubleBit, u16)>)
        ensures
            old(self).spec_items().len() == 0 ==> item is None && final(self).spec_items()
                == old(self).spec_items(),
            old(self).spec_items().len() > 0 ==> item is Some && item.unwrap().0.code() == old(
                self,
            ).spec_items()[0].0 && item.unwrap().1 == old(self).spec_items()[0].1
                && final(self).spec_items() == old(self).spec_items().drop_first(),
    {
        proof {
            use_type_invariant(&*self);
        }
        if self.pos >= self.count {
            return None;
        }
        let ghost old_items = self.spec_items();
        let byte = self.pos / 4;
        let shift = 2 * (self.pos % 4) as u8;  // [0,2,4,6]
        let value = DoubleBit::from(self.bytes[byte] >> shift);
        let index = self.index;
        let pos = self.pos + 1;
        // protect from overflow
        let next_index = if pos < self.count {
            self.index + 1
        } else {
            self.index
        };
        *self = IndexedDoubleBitIterator {
            index: next_index,
            bytes: self.bytes,
            count: self.count,
            pos,
        };
        assert(self.spec_items() =~= old_items.drop_first());
        Some((value, index))
    }

    /// the double bits not yet yielded, in order; the iterator is empty afterwards
    pub fn collect_remaining(&mut self) -> (v: Vec<(DoubleBit, u16)>)
        ensures
            v@.len() == old(self).spec_items().len(),
            forall|i: int|
                0 <= i < v@.len() ==> (#[trigger] v@[i]).0.code() == old(self).spec_items()[i].0
                    && v@[i].1 == old(self).spec_items()[i].1,
            final(self).spec_items().len() == 0,
    {
        let mut v: Vec<(DoubleBit, u16)> = Vec::new();
        let ghost all = self.spec_items();
        loop
            invariant
                all == old(self).spec_items(),
                v@.len() + self.spec_items().len() == all.len(),
                forall|i: int|
                    0 <= i < v@.len() ==> (#[trigger] v@[i]).0.code() == all[i].0 && v@[i].1
                        == all[i].1,
                forall|j: int|
                    0 <= j < self.spec_items().len() ==> #[trigger] self.spec_items()[j] == all[v@.len() + j],
            decreases self.spec_items().len(),
        {
            let ghost before = self.spec_items();
            match self.next() {
                Some(x) => {
                    v.push(x);
                },
                None => {
                    return v;
                },
            }
        }
    }
}

} // verus!
