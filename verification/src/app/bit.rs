use crate::app::parse::bit::bit_at;
use crate::app::range::Range;
use crate::util::cursor::{ReadCursor, ReadError};
use vstd::prelude::*;

verus! {

broadcast use crate::app::range::Range::lemma_bounds;

/// number of bytes that hold `count` bits
pub fn num_bytes_for_bits(count: usize) -> (n: usize)
    ensures
        n == (count + 7) / 8,
{
    count / 8 + if count % 8 == 0 {
        0
    } else {
        1
    }
}

/// zero-copy type used to iterate over a collection of bits without allocating
#[derive(Debug, PartialEq, Copy, Clone)]
pub struct BitSequence<'a> {
    bytes: &'a [u8],
    count: usize,
}

/// zero-copy type used to iterate over a collection of bits without allocating
pub struct IndexedBitSequence<'a> {
    bytes: &'a [u8],
    range: Range,
}

impl<'a> BitSequence<'a> {
    #[verifier::type_invariant]
    closed spec fn inv(self) -> bool {
        self.bytes@.len() == (self.count + 7) / 8
    }

    /// the bytes that hold the bits
    pub closed spec fn spec_bytes(&self) -> Seq<u8> {
        self.bytes@
    }

    /// the bits, in order
    pub closed spec fn spec_items(&self) -> Seq<bool> {
        Seq::new(self.count as nat, |i: int| bit_at(self.bytes@, i))
    }

    /// reads `count` bits, 8 to a byte
    pub fn parse(cursor: &mut ReadCursor<'a>, count: usize) -> (res: Result<Self, ReadError>)
        ensures
            ({
                let n = (count + 7) / 8;
                &&& n <= old(cursor)@.len() ==> res is Ok && res.unwrap().spec_bytes() == old(
                    cursor,
                )@.take(n as int) && res.unwrap().spec_items() == Seq::new(
                    count as nat,
                    |i: int| bit_at(old(cursor)@, i),
                ) && final(cursor)@ == old(cursor)@.skip(n as int)
                &&& n > old(cursor)@.len() ==> res is Err && final(cursor)@ == old(cursor)@
            }),
    {
        let ghost s = cursor@;
        let bytes = cursor.read_bytes(num_bytes_for_bits(count))?;
        let r = Self { bytes, count };
        proof {
            assert forall|i: int| 0 <= i < count implies bit_at(bytes@, i) == bit_at(s, i) by {
                assert(i / 8 < (count + 7) / 8) by (nonlinear_arith)
                    requires
                        0 <= i < count,
                ;
            }
            assert(r.spec_items() =~= Seq::new(count as nat, |i: int| bit_at(s, i)));
        }
        Ok(r)
    }

    pub fn iter(&self) -> (it: BitIterator<'a>)
        ensures
            it.spec_items() == self.spec_items(),
    {
        proof {
            use_type_invariant(self);
        }
        let it = BitIterator { bytes: self.bytes, count: self.count, pos: 0 };
        assert(it.spec_items() =~= self.spec_items());
        it
    }
}

impl<'a> IndexedBitSequence<'a> {
    #[verifier::type_invariant]
    closed spec fn inv(self) -> bool {
        self.bytes@.len() == (self.range.spec_count() + 7) / 8
    }

    /// the bytes that hold the bits
    pub closed spec fn spec_bytes(&self) -> Seq<u8> {
        self.bytes@
    }

    /// the bits with their indices, in order
    pub closed spec fn spec_items(&self) -> Seq<(bool, u16)> {
        Seq::new(
            self.range.spec_count(),
            |i: int| (bit_at(self.bytes@, i), (self.range.spec_start() + i) as u16),
        )
    }

    /// reads one bit for each index of `range`, 8 to a byte
    pub fn parse(cursor: &mut ReadCursor<'a>, range: Range) -> (res: Result<Self, ReadError>)
        ensures
            ({
                let n = (range.spec_count() + 7) / 8;
                &&& n <= old(cursor)@.len() ==> res is Ok && res.unwrap().spec_bytes() == old(
                    cursor,
                )@.take(n as int) && res.unwrap().spec_items() == Seq::new(
                    range.spec_count(),
                    |i: int| (bit_at(old(cursor)@, i), (range.spec_start() + i) as u16),
                ) && final(cursor)@ == old(cursor)@.skip(n as int)
                &&& n > old(cursor)@.len() ==> res is Err && final(cursor)@ == old(cursor)@
            }),
    {
        let ghost s = cursor@;
        let count = range.get_count();
        let bytes = cursor.read_bytes(num_bytes_for_bits(count))?;
        let r = Self { bytes, range };
        proof {
            assert forall|i: int| 0 <= i < count implies bit_at(bytes@, i) == bit_at(s, i) by {
                assert(i / 8 < (count + 7) / 8) by (nonlinear_arith)
                    requires
                        0 <= i < count,
                ;
            }
            assert(r.spec_items() =~= Seq::new(
                range.spec_count(),
                |i: int| (bit_at(s, i), (range.spec_start() + i) as u16),
            ));
        }
        Ok(r)
    }

    pub fn iter(&self) -> (it: IndexedBitIterator<'a>)
        ensures
            it.spec_items() == self.spec_items(),
    {
        proof {
            use_type_invariant(self);
        }
        let it = IndexedBitIterator::<'a> {
            index: self.range.get_start(),
            inner: BitIterator::<'a> { bytes: self.bytes, count: self.range.get_count(), pos: 0 },
        };
        assert(it.spec_items() =~= self.spec_items());
        it
    }
}

/// Yields the bits of a sequence, in order
pub struct BitIterator<'a> {
    bytes: &'a [u8],
    count: usize,
    pos: usize,
}

/// Yields the bits of a sequence with their indices
pub struct IndexedBitIterator<'a> {
    index: u16,
    inner: BitIterator<'a>,
}

impl<'a> BitIterator<'a> {
    #[verifier::type_invariant]
    closed spec fn inv(self) -> bool {
        &&& self.pos <= self.count
        &&& self.bytes@.len() >= (self.count + 7) / 8
    }

    /// the bits not yet yielded
    pub closed spec fn spec_items(&self) -> Seq<bool> {
        Seq::new((self.count - self.pos) as nat, |k: int| bit_at(self.bytes@, self.pos + k))
    }

    pub fn next(&mut self) -> (item: Option<bool>)
        ensures
            old(self).spec_items().len() == 0 ==> item is None && final(self).spec_items()
                == old(self).spec_items(),
            old(self).spec_items().len() > 0 ==> item == Some(old(self).spec_items()[0])
                && final(self).spec_items() == old(self).spec_items().drop_first(),
    {
        proof {
            use_type_invariant(&*self);
        }
        if self.pos >= self.count {
            return None;
        }
        let ghost old_items = self.spec_items();
        let byte = self.pos / 8;
        let bit = (self.pos % 8) as u8;
        proof {
            assert(byte < (self.count + 7) / 8) by (nonlinear_arith)
                requires
                    byte == self.pos / 8,
                    self.pos < self.count,
            ;
        }
        let value = (self.bytes[byte] >> bit) & 1 == 1;
        *self = BitIterator { bytes: self.bytes, count: self.count, pos: self.pos + 1 };
        assert(self.spec_items() =~= old_items.drop_first());
        Some(value)
    }

    /// the bits not yet yielded, in order; the iterator is empty afterwards
    pub fn collect_remaining(&mut self) -> (v: Vec<bool>)
        ensures
            v@ == old(self).spec_items(),
            final(self).spec_items().len() == 0,
    {
        let mut v: Vec<bool> = Vec::new();
        let ghost all = self.spec_items();
        loop
            invariant
                all == old(self).spec_items(),
                all == v@ + self.spec_items(),
            decreases self.spec_items().len(),
        {
            match self.next() {
                Some(x) => {
                    v.push(x);
                    proof {
                        assert(all =~= v@ + self.spec_items());
                    }
                },
                None => {
                    assert(all =~= v@);
                    return v;
                },
            }
        }
    }
}

/// the index of the `k`th item from `index` on: one more for each item, but
/// never past 65535
pub open spec fn saturating_index(index: u16, k: int) -> u16 {
    if index + k <= 65535 {
        (index + k) as u16
    } else {
        65535
    }
}

impl<'a> IndexedBitIterator<'a> {
    /// the bits not yet yielded, with their indices
    pub closed spec fn spec_items(&self) -> Seq<(bool, u16)> {
        Seq::new(
            self.inner.spec_items().len(),
            |k: int| (self.inner.spec_items()[k], saturating_index(self.index, k)),
        )
    }

    pub fn next(&mut self) -> (item: Option<(bool, u16)>)
        ensures
            old(self).spec_items().len() == 0 ==> item is None && final(self).spec_items()
                == old(self).spec_items(),
            old(self).spec_items().len() > 0 ==> item == Some(old(self).spec_items()[0])
                && final(self).spec_items() == old(self).spec_items().drop_first(),
    {
        let ghost old_items = self.spec_items();
        match self.inner.next() {
            Some(x) => {
                let index = self.index;
                // this guard is required, b/c if the last
                // element has an index of 65535, this would
                // cause overflow
                if index < 65535 {
                    self.index = index + 1;
                }
                assert(self.spec_items() =~= old_items.drop_first());
                Some((x, index))
            },
            None => None,
        }
    }

    /// the bits not yet yielded, in order; the iterator is empty afterwards
    pub fn collect_remaining(&mut self) -> (v: Vec<(bool, u16)>)
        ensures
            v@ == old(self).spec_items(),
            final(self).spec_items().len() == 0,
    {
        let mut v: Vec<(bool, u16)> = Vec::new();
        let ghost all = self.spec_items();
        loop
            invariant
                all == old(self).spec_items(),
                all == v@ + self.spec_items(),
            decreases self.spec_items().len(),
        {
            match self.next() {
                Some(x) => {
                    v.push(x);
                    proof {
                        assert(all =~= v@ + self.spec_items());
                    }
                },
                None => {
                    assert(all =~= v@);
                    return v;
                },
            }
        }
    }
}

} // verus!
