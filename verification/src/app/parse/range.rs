use crate::app::parse::traits::{FixedSize, FixedSizeVariation};
use crate::util::cursor::{ReadCursor, ReadError};
use vstd::prelude::*;

verus! {

/// A start/stop pair whose stop is below its start
#[derive(Copy, Clone, Debug, PartialEq, Eq, Structural)]
pub struct InvalidRange {
    pub start: u16,
    pub stop: u16,
}

/// An inclusive range of point indices, held as its start and its count
#[derive(Copy, Clone, Debug, PartialEq, Eq, Structural)]
pub struct Range {
    start: u16,
    count: usize,
}

impl Range {
    #[verifier::type_invariant]
    closed spec fn inv(self) -> bool {
        self.start + self.count <= 65536
    }

    pub closed spec fn spec_start(self) -> u16 {
        self.start
    }

    pub closed spec fn spec_count(self) -> nat {
        if self.start + self.count <= 65536 {
            self.count as nat
        } else {
            0
        }
    }

    /// the indices of a range never pass 65535
    pub broadcast proof fn lemma_bounds(r: Range)
        ensures
            #[trigger] r.spec_start() + r.spec_count() <= 65536,
    {
    }

    /// the range [start, stop]
    pub closed spec fn spec_new(start: u16, stop: u16) -> Range {
        Range { start, count: (stop - start + 1) as usize }
    }

    /// the range [start, stop] starts at `start` and holds `stop - start + 1`
    /// indices
    pub broadcast proof fn lemma_spec_new(start: u16, stop: u16)
        requires
            start <= stop,
        ensures
            #[trigger] Range::spec_new(start, stop).spec_start() == start,
            Range::spec_new(start, stop).spec_count() == stop - start + 1,
    {
    }

    /// the range [start, stop], or an error where stop < start
    pub fn from(start: u16, stop: u16) -> (res: Result<Self, InvalidRange>)
        ensures
            stop < start ==> res == Err::<Range, InvalidRange>(InvalidRange { start, stop }),
            stop >= start ==> res == Ok::<Range, InvalidRange>(Range::spec_new(start, stop)),
            stop >= start ==> res is Ok && res.unwrap().spec_start() == start
                && res.unwrap().spec_count() == stop - start + 1,
    {
        if stop < start {
            return Err(InvalidRange { start, stop });
        }
        Ok(Self { start, count: stop as usize - start as usize + 1 })
    }

    /// the range of no index, starting at 0
    pub fn empty() -> (r: Self)
        ensures
            r.spec_start() == 0,
            r.spec_count() == 0,
    {
        Self { start: 0, count: 0 }
    }

    pub fn get_start(&self) -> (s: u16)
        ensures
            s == self.spec_start(),
    {
        self.start
    }

    pub fn get_count(&self) -> (c: usize)
        ensures
            c == self.spec_count(),
    {
        proof {
            use_type_invariant(self);
        }
        self.count
    }
}

/// the objects of a ranged sequence: the `i`th is decoded from the `i`th
/// run of `T::spec_size()` bytes and has index `start + i`
pub open spec fn ranged_items<T: FixedSize>(start: u16, count: nat, data: Seq<u8>) -> Seq<(T, u16)> {
    Seq::new(count, |i: int| (T::decode(data.skip(i * T::spec_size())), (start + i) as u16))
}

/// Objects of one fixed-size type, one for each index of a range
#[derive(Debug, PartialEq)]
pub struct RangedSequence<'a, T> where T: FixedSizeVariation {
    range: Range,
    data: &'a [u8],
    phantom: std::marker::PhantomData<T>,
}

impl<'a, T> RangedSequence<'a, T> where T: FixedSizeVariation {
    #[verifier::type_invariant]
    closed spec fn inv(self) -> bool {
        self.data@.len() == self.range.spec_count() * T::spec_size()
    }

    pub closed spec fn spec_range(&self) -> Range {
        self.range
    }

    /// the bytes that hold the objects
    pub closed spec fn spec_data(&self) -> Seq<u8> {
        self.data@
    }

    /// the objects with their indices, in order
    pub open spec fn spec_items(&self) -> Seq<(T, u16)> {
        ranged_items::<T>(self.spec_range().spec_start(), self.spec_range().spec_count(), self.spec_data())
    }

    /// reads the objects of `range`: `T::spec_size()` bytes for each index
    pub fn parse(range: Range, cursor: &mut ReadCursor<'a>) -> (res: Result<Self, ReadError>)
        ensures
            ({
                let n = range.spec_count() * T::spec_size();
                &&& n <= old(cursor)@.len() ==> res is Ok && res.unwrap().spec_range() == range
                    && res.unwrap().spec_data() == old(cursor)@.take(n as int) && final(cursor)@
                    == old(cursor)@.skip(n as int)
                &&& n > old(cursor)@.len() ==> res is Err && final(cursor)@ == old(cursor)@
            }),
    {
        proof {
            T::lemma_size_bound();
            Range::lemma_bounds(range);
            assert(range.spec_count() * T::spec_size() <= 65536 * 64) by (nonlinear_arith)
                requires
                    range.spec_count() <= 65536,
                    T::spec_size() <= 64,
            ;
        }
        let size = T::size();
        let num_bytes = range.get_count() * size as usize;
        let data = cursor.read_bytes(num_bytes)?;
        Ok(Self { range, data, phantom: std::marker::PhantomData })
    }

    /// no object, over the empty range
    pub fn empty() -> (s: Self)
        ensures
            s.spec_range().spec_start() == 0,
            s.spec_range().spec_count() == 0,
            s.spec_data() == Seq::<u8>::empty(),
    {
        let data: &[u8] = &[];
        assert(data@ =~= Seq::<u8>::empty());
        Self { range: Range::empty(), data, phantom: std::marker::PhantomData }
    }

    pub fn is_empty(&self) -> (b: bool)
        ensures
            b == (self.spec_data().len() == 0),
    {
        self.data.len() == 0
    }

    pub fn iter(&self) -> (it: RangeIterator<'a, T>)
        ensures
            it.spec_items() == self.spec_items(),
    {
        proof {
            use_type_invariant(self);
            use_type_invariant(&self.range);
        }
        RangeIterator {
            index: self.range.get_start(),
            remaining: self.range.get_count(),
            cursor: ReadCursor::new(self.data),
            phantom: std::marker::PhantomData,
        }
    }

    /// the objects with their indices, in order
    pub fn to_vec(&self) -> (v: Vec<(T, u16)>)
        ensures
            v@ == self.spec_items(),
    {
        let mut it = self.iter();
        it.collect_remaining()
    }
}

/// Yields the objects of a ranged sequence with their indices
pub struct RangeIterator<'a, T> where T: FixedSizeVariation {
    index: u16,
    remaining: usize,
    cursor: ReadCursor<'a>,
    phantom: std::marker::PhantomData<T>,
}

impl<'a, T> RangeIterator<'a, T> where T: FixedSizeVariation {
    #[verifier::type_invariant]
    closed spec fn inv(self) -> bool {
        &&& self.cursor@.len() == self.remaining * T::spec_size()
        &&& self.index + self.remaining <= 65536
    }

    /// the items not yet yielded
    pub closed spec fn spec_items(&self) -> Seq<(T, u16)> {
        ranged_items::<T>(self.index, self.remaining as nat, self.cursor@)
    }

    pub fn next(&mut self) -> (item: Option<(T, u16)>)
        ensures
            old(self).spec_items().len() == 0 ==> item is None && final(self).spec_items()
                == old(self).spec_items(),
            old(self).spec_items().len() > 0 ==> item == Some(old(self).spec_items()[0])
                && final(self).spec_items() == old(self).spec_items().drop_first(),
    {
        proof {
            use_type_invariant(&*self);
            T::lemma_size_bound();
        }
        if self.remaining == 0 {
            return None;
        }
        let ghost old_items = self.spec_items();
        let ghost s = self.cursor@;
        proof {
            assert(s.len() >= T::spec_size()) by (nonlinear_arith)
                requires
                    s.len() == self.remaining * T::spec_size(),
                    self.remaining >= 1,
            ;
            assert(s.skip(0) =~= s);
        }
        let mut cursor = self.cursor;
        let value = match T::read(&mut cursor) {
            Ok(x) => x,
            Err(_) => {
                return None;
            },
        };
        let index = self.index;
        let remaining = self.remaining - 1;
        let next_index = if remaining > 0 {
            self.index + 1
        } else {
            self.index
        };
        proof {
            let z = T::spec_size();
            assert(cursor@.len() == remaining * z) by (nonlinear_arith)
                requires
                    cursor@.len() == s.len() - z,
                    s.len() == (remaining + 1) * z,
            ;
            assert forall|k: int| 0 <= k < remaining implies #[trigger] cursor@.skip(k * z)
                =~= s.skip((k + 1) * z) by {
                assert((k + 1) * z == k * z + z) by (nonlinear_arith);
                assert(0 <= k * z <= remaining * z) by (nonlinear_arith)
                    requires
                        0 <= k < remaining,
                        z > 0,
                ;
                assert(cursor@ == s.skip(z as int));
            }
        }
        *self = RangeIterator { index: next_index, remaining, cursor, phantom: std::marker::PhantomData };
        proof {
            let z = T::spec_size();
            assert forall|k: int| 0 <= k < self.remaining implies self.spec_items()[k]
                == old_items[k + 1] by {
                assert(cursor@.skip(k * z) =~= s.skip((k + 1) * z));
            }
            assert(self.spec_items() =~= old_items.drop_first());
        }
        Some((value, index))
    }

    /// the items not yet yielded, in order; the iterator is empty afterwards
    pub fn collect_remaining(&mut self) -> (v: Vec<(T, u16)>)
        ensures
            v@ == old(self).spec_items(),
            final(self).spec_items().len() == 0,
    {
        let mut v: Vec<(T, u16)> = Vec::new();
        let ghost all = self.spec_items();
        loop
            invariant
                all == old(self).spec_items(),
                all == v@ + self.spec_items(),
            decreases self.spec_items().len(),
        {
            let ghost before = self.spec_items();
            match self.next() {
                Some(x) => {
                    v.push(x);
                    proof {
                        assert(all =~= v@ + self.spec_items());
                    }
                },
                None => {
                    assert(all =~= v@);
                    return v;
                },
            }
        }
    }
}

} // verus!
