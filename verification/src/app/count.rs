use crate::app::parse::count::counted_items;
use crate::app::parse::traits::FixedSize;
use crate::util::cursor::{ReadCursor, ReadError};
use vstd::prelude::*;

verus! {

/// where `k` counts the whole runs of `z` bytes that follow the first in
/// `len` bytes, the run after the `k`th of them still lies within `len`
pub proof fn lemma_whole_runs(len: int, z: int, k: int)
    requires
        z > 0,
        len >= z,
        0 <= k < (len - z) / z,
    ensures
        0 <= k * z,
        (k + 1) * z == k * z + z,
        k * z + z + z <= len,
{
    let q = (len - z) / z;
    vstd::arithmetic::div_mod::lemma_fundamental_div_mod(len - z, z);
    vstd::arithmetic::mul::lemma_mul_inequality(k + 1, q, z);
    vstd::arithmetic::mul::lemma_mul_is_distributive_add_other_way(z, k, 1);
    vstd::arithmetic::mul::lemma_mul_nonnegative(k, z);
    vstd::arithmetic::mul::lemma_mul_is_commutative(z, q);
    assert((len - z) % z >= 0) by {
        vstd::arithmetic::div_mod::lemma_mod_pos_bound(len - z, z);
    }
}

/// the whole objects that `data` holds, in order
pub open spec fn whole_items<T: FixedSize>(data: Seq<u8>) -> Seq<T> {
    counted_items::<T>(data.len() / T::spec_size(), data)
}

/// Objects of one fixed-size type, as many as the bytes hold
#[derive(Debug, PartialEq)]
pub struct CountSequence<'a, T> where T: FixedSize {
    data: &'a [u8],
    phantom: std::marker::PhantomData<T>,
}

impl<'a, T> CountSequence<'a, T> where T: FixedSize {
    /// the bytes that hold the objects
    pub closed spec fn spec_data(&self) -> Seq<u8> {
        self.data@
    }

    /// the objects, in order
    pub open spec fn spec_items(&self) -> Seq<T> {
        whole_items::<T>(self.spec_data())
    }

    /// reads `count` objects
    pub fn parse(count: u16, cursor: &mut ReadCursor<'a>) -> (res: Result<
        CountSequence<'a, T>,
        ReadError,
    >)
        ensures
            ({
                let n = count * T::spec_size();
                &&& n <= old(cursor)@.len() ==> res is Ok && res.unwrap().spec_data() == old(
                    cursor,
                )@.take(n as int) && res.unwrap().spec_items().len() == count && final(cursor)@
                    == old(cursor)@.skip(n as int)
                &&& n > old(cursor)@.len() ==> res is Err && final(cursor)@ == old(cursor)@
            }),
    {
        let size = T::size();
        proof {
            T::lemma_size_positive();
            vstd::arithmetic::mul::lemma_mul_upper_bound(count as int, 65535, size as int, 255);
            vstd::arithmetic::mul::lemma_mul_is_commutative(count as int, size as int);
            vstd::arithmetic::div_mod::lemma_div_multiples_vanish(count as int, size as int);
        }
        // this cannot overflow b/c SIZE is [0, 255] and count is [0, 65535]
        let num_bytes = count as usize * size as usize;
        Ok(Self::new(cursor.read_bytes(num_bytes)?))
    }

    /// no object
    pub fn empty() -> (s: Self)
        ensures
            s.spec_data() == Seq::<u8>::empty(),
    {
        let data: &[u8] = &[];
        assert(data@ =~= Seq::<u8>::empty());
        Self::new(data)
    }

    pub fn is_empty(&self) -> (b: bool)
        ensures
            b == (self.spec_data().len() == 0),
    {
        self.data.len() == 0
    }

    /// the objects that `data` holds
    pub fn new(data: &'a [u8]) -> (s: Self)
        ensures
            s.spec_data() == data@,
    {
        Self { data, phantom: std::marker::PhantomData }
    }

    pub fn iter(&self) -> (it: CountIterator<'a, T>)
        ensures
            it.spec_items() == self.spec_items(),
    {
        CountIterator { cursor: ReadCursor::new(self.data), phantom: std::marker::PhantomData }
    }
}

/// Yields the objects of a sequence, in order
pub struct CountIterator<'a, T> {
    cursor: ReadCursor<'a>,
    phantom: std::marker::PhantomData<T>,
}

impl<'a, T> CountIterator<'a, T> where T: FixedSize {
    /// the objects not yet yielded
    pub closed spec fn spec_items(&self) -> Seq<T> {
        whole_items::<T>(self.cursor@)
    }

    pub fn next(&mut self) -> (item: Option<T>)
        ensures
            old(self).spec_items().len() == 0 ==> item is None && final(self).spec_items()
                == old(self).spec_items(),
            old(self).spec_items().len() > 0 ==> item == Some(old(self).spec_items()[0])
                && final(self).spec_items() == old(self).spec_items().drop_first(),
    {
        proof {
            T::lemma_size_positive();
        }
        let ghost old_items = self.spec_items();
        let ghost s = self.cursor@;
        let ghost z = T::spec_size();
        if self.cursor.len() < T::size() as usize {
            proof {
                vstd::arithmetic::div_mod::lemma_basic_div(s.len() as int, z as int);
            }
            return None;
        }
        proof {
            assert(s.skip(0) =~= s);
            vstd::arithmetic::div_mod::lemma_div_minus_one(s.len() as int, z as int);
            assert(s.len() / z >= 1) by (nonlinear_arith)
                requires
                    s.len() >= z,
                    z > 0,
            ;
        }
        let value = match T::read(&mut self.cursor) {
            Ok(x) => x,
            Err(_) => {
                return None;
            },
        };
        proof {
            assert(self.cursor@ == s.skip(z as int));
            assert forall|k: int| 0 <= k < self.spec_items().len() implies self.spec_items()[k]
                == old_items[k + 1] by {
                lemma_whole_runs(s.len() as int, z as int, k);
                assert(self.cursor@.skip(k * z) =~= s.skip((k + 1) * z));
            }
            assert(self.spec_items() =~= old_items.drop_first());
        }
        Some(value)
    }

    /// the objects not yet yielded, in order; the iterator is empty afterwards
    pub fn collect_remaining(&mut self) -> (v: Vec<T>)
        ensures
            v@ == old(self).spec_items(),
            final(self).spec_items().len() == 0,
    {
        let mut v: Vec<T> = Vec::new();
        let ghost all = self.spec_items();
        loop
            invariant
                all == old(self).spec_items(),
                all == v@ + self.spec_items(),
            decreases self.spec_items().len(),
        {
            match self.next() {
                Some(x) => {
                    v.push(x);
                    proof {
                        assert(all =~= v@ + self.spec_items());
                    }
                },
                None => {
                    assert(all =~= v@);
                    return v;
                },
            }
        }
    }
}

} // verus!
