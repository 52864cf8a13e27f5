use crate::app::parse::traits::{FixedSize, FixedSizeVariation};
use crate::util::cursor::{ReadCursor, ReadError};
use vstd::prelude::*;

verus! {

/// Returned where the stop of a range is below its start
#[derive(Copy, Clone, Debug, PartialEq, Eq, Structural)]
pub struct InvalidRange;

/// An inclusive range of point indices, held as its start and its count
pub struct Range {
    start: u16,
    count: usize,
}

impl Range {
    #[verifier::type_invariant]
    closed spec fn inv(self) -> bool {
        self.start + self.count <= 65536
    }

    pub closed spec fn spec_start(self) -> u16 {
        self.start
    }

    pub closed spec fn spec_count(self) -> nat {
        if self.start + self.count <= 65536 {
            self.count as nat
        } else {
            0
        }
    }

    /// the indices of a range never pass 65535
    pub broadcast proof fn lemma_bounds(r: Range)
        ensures
            #[trigger] r.spec_start() + r.spec_count() <= 65536,
    {
    }

    /// the range [start, stop], or an error where stop < start
    pub fn from(start: u16, stop: u16) -> (res: Result<Self, InvalidRange>)
        ensures
            stop < start ==> res == Err::<Range, InvalidRange>(InvalidRange),
            stop >= start ==> res is Ok && res.unwrap().spec_start() == start
                && res.unwrap().spec_count() == stop - start + 1,
    {
        if stop < start {
            return Err(InvalidRange);
        }
        Ok(Self { start, count: stop as usize - start as usize + 1 })
    }

    pub fn get_start(&self) -> (s: u16)
        ensures
            s == self.spec_start(),
    {
        self.start
    }

    pub fn get_count(&self) -> (c: usize)
        ensures
            c == self.spec_count(),
    {
        proof {
            use_type_invariant(self);
        }
        self.count
    }
}

/// the whole objects that `data` holds, the `i`th with index `start + i`,
/// counted modulo 65536
pub open spec fn sequence_items<T: FixedSize>(start: u16, data: Seq<u8>) -> Seq<(T, u16)> {
    Seq::new(
        data.len() / T::spec_size(),
        |i: int| (T::decode(data.skip(i * T::spec_size())), ((start + i) % 65536) as u16),
    )
}

/// Objects of one fixed-size type with consecutive indices from a start
#[derive(Debug, PartialEq)]
pub struct RangedSequence<'a, T> where T: FixedSizeVariation {
    start: u16,
    data: &'a [u8],
    phantom: std::marker::PhantomData<T>,
}

impl<'a, T> RangedSequence<'a, T> where T: FixedSizeVariation {
    /// the index of the first object
    pub closed spec fn spec_start(&self) -> u16 {
        self.start
    }

    /// the bytes that hold the objects
    pub closed spec fn spec_data(&self) -> Seq<u8> {
        self.data@
    }

    /// the objects with their indices, in order
    pub open spec fn spec_items(&self) -> Seq<(T, u16)> {
        sequence_items::<T>(self.spec_start(), self.spec_data())
    }

    /// reads the objects of `range`: `T::spec_size()` bytes for each index
    pub fn parse(range: Range, cursor: &mut ReadCursor<'a>) -> (res: Result<
        RangedSequence<'a, T>,
        ReadError,
    >)
        ensures
            ({
                let n = range.spec_count() * T::spec_size();
                &&& n <= old(cursor)@.len() ==> res is Ok && res.unwrap().spec_start()
                    == range.spec_start() && res.unwrap().spec_data() == old(cursor)@.take(
                    n as int,
                ) && final(cursor)@ == old(cursor)@.skip(n as int)
                &&& n > old(cursor)@.len() ==> res is Err && final(cursor)@ == old(cursor)@
            }),
    {
        proof {
            T::lemma_size_bound();
            Range::lemma_bounds(range);
            assert(range.spec_count() * T::spec_size() <= 65536 * 64) by (nonlinear_arith)
                requires
                    range.spec_count() <= 65536,
                    T::spec_size() <= 64,
            ;
        }
        // this cannot overflow b/c SIZE is [1, 64] and count is [0, 65536]
        let num_bytes = T::size() as usize * range.get_count();
        let data = cursor.read_bytes(num_bytes)?;
        Ok(Self::new(range.get_start(), data))
    }

    /// no object
    pub fn empty() -> (s: Self)
        ensures
            s.spec_start() == 0,
            s.spec_data() == Seq::<u8>::empty(),
    {
        let data: &[u8] = &[];
        assert(data@ =~= Seq::<u8>::empty());
        Self::new(0, data)
    }

    pub fn is_empty(&self) -> (b: bool)
        ensures
            b == (self.spec_data().len() == 0),
    {
        self.data.len() == 0
    }

    /// the objects held by `data`, the first with index `start`
    pub fn new(start: u16, data: &'a [u8]) -> (s: Self)
        ensures
            s.spec_start() == start,
            s.spec_data() == data@,
    {
        Self { start, data, phantom: std::marker::PhantomData }
    }

    pub fn iter(&self) -> (it: RangeIterator<'a, T>)
        ensures
            it.spec_items() == self.spec_items(),
    {
        RangeIterator {
            index: self.start,
            cursor: ReadCursor::new(self.data),
            phantom: std::marker::PhantomData,
        }
    }
}

/// Yields the objects of a ranged sequence with their indices
pub struct RangeIterator<'a, T> {
    index: u16,
    cursor: ReadCursor<'a>,
    phantom: std::marker::PhantomData<T>,
}

impl<'a, T> RangeIterator<'a, T> where T: FixedSizeVariation {
    /// the items not yet yielded
    pub closed spec fn spec_items(&self) -> Seq<(T, u16)> {
        sequence_items::<T>(self.index, self.cursor@)
    }

    pub fn next(&mut self) -> (item: Option<(T, u16)>)
        ensures
            old(self).spec_items().len() == 0 ==> item is None && final(self).spec_items()
                == old(self).spec_items(),
            old(self).spec_items().len() > 0 ==> item == Some(old(self).spec_items()[0])
                && final(self).spec_items() == old(self).spec_items().drop_first(),
    {
        proof {
            T::lemma_size_bound();
        }
        let ghost old_items = self.spec_items();
        let ghost s = self.cursor@;
        let ghost z = T::spec_size();
        if self.cursor.len() < T::size() as usize {
            proof {
                vstd::arithmetic::div_mod::lemma_basic_div(s.len() as int, z as int);
            }
            return None;
        }
        proof {
            assert(s.skip(0) =~= s);
            vstd::arithmetic::div_mod::lemma_div_minus_one(s.len() as int, z as int);
            assert(s.len() / z >= 1) by (nonlinear_arith)
                requires
                    s.len() >= z,
                    z > 0,
            ;
        }
        let value = match T::read(&mut self.cursor) {
            Ok(x) => x,
            Err(_) => {
                return None;
            },
        };
        let index = self.index;
        self.index = if self.index == 65535 {
            0
        } else {
            self.index + 1
        };
        proof {
            assert(self.cursor@ == s.skip(z as int));
            assert(self.spec_items().len() == old_items.len() - 1);
            assert forall|k: int| 0 <= k < self.spec_items().len() implies self.spec_items()[k]
                == old_items[k + 1] by {
                crate::app::count::lemma_whole_runs(s.len() as int, z as int, k);
                assert(self.cursor@.skip(k * z) =~= s.skip((k + 1) * z));
                vstd::arithmetic::div_mod::lemma_add_mod_noop(index + 1, k, 65536);
                vstd::arithmetic::div_mod::lemma_add_mod_noop_right(((index + 1) % 65536) as int, k, 65536);
                assert((index + 1) % 65536 == self.index);
            }
            assert(self.spec_items() =~= old_items.drop_first());
            assert(index == ((index + 0) % 65536) as u16);
        }
        Some((value, index))
    }

    /// the items not yet yielded, in order; the iterator is empty afterwards
    pub fn collect_remaining(&mut self) -> (v: Vec<(T, u16)>)
        ensures
            v@ == old(self).spec_items(),
            final(self).spec_items().len() == 0,
    {
        let mut v: Vec<(T, u16)> = Vec::new();
        let ghost all = self.spec_items();
        loop
            invariant
                all == old(self).spec_items(),
                all == v@ + self.spec_items(),
            decreases self.spec_items().len(),
        {
            match self.next() {
                Some(x) => {
                    v.push(x);
                    proof {
                        assert(all =~= v@ + self.spec_items());
                    }
                },
                None => {
                    assert(all =~= v@);
                    return v;
                },
            }
        }
    }
}

} // verus!
