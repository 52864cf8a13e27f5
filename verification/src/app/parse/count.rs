use crate::app::parse::traits::FixedSize;
use crate::util::cursor::{ReadCursor, ReadError};
use vstd::prelude::*;

verus! {

/// the objects of a counted sequence: the `i`th is decoded from the `i`th
/// run of `T::spec_size()` bytes
pub open spec fn counted_items<T: FixedSize>(count: nat, data: Seq<u8>) -> Seq<T> {
    Seq::new(count, |i: int| T::decode(data.skip(i * T::spec_size())))
}

/// A counted sequence of objects of one fixed-size type
#[derive(Debug, PartialEq)]
pub struct CountSequence<'a, T> where T: FixedSize {
    count: usize,
    data: &'a [u8],
    phantom: std::marker::PhantomData<T>,
}

impl<'a, T> CountSequence<'a, T> where T: FixedSize {
    #[verifier::type_invariant]
    closed spec fn inv(self) -> bool {
        &&& self.data@.len() == self.count * T::spec_size()
        &&& T::spec_size() > 0
    }

    pub closed spec fn spec_count(&self) -> nat {
        self.count as nat
    }

    /// the bytes that hold the objects
    pub closed spec fn spec_data(&self) -> Seq<u8> {
        self.data@
    }

    pub open spec fn spec_items(&self) -> Seq<T> {
        counted_items::<T>(self.spec_count(), self.spec_data())
    }

    /// reads `count` objects: `T::spec_size()` bytes for each
    pub fn parse(count: u16, cursor: &mut ReadCursor<'a>) -> (res: Result<Self, ReadError>)
        ensures
            ({
                let n = count * T::spec_size();
                &&& n <= old(cursor)@.len() ==> res is Ok && res.unwrap().spec_count() == count
                    && res.unwrap().spec_data() == old(cursor)@.take(n as int) && final(cursor)@
                    == old(cursor)@.skip(n as int)
                &&& n > old(cursor)@.len() ==> res is Err && final(cursor)@ == old(cursor)@
            }),
    {
        // this cannot overflow b/c SIZE is [0, 255] and count is [0, 65535]
        let size = T::size();
        proof {
            T::lemma_size_positive();
            assert(count * T::spec_size() <= 65535 * 255) by (nonlinear_arith)
                requires
                    count <= 65535,
                    T::spec_size() <= 255,
            ;
        }
        let num_bytes = count as usize * size as usize;
        let data = cursor.read_bytes(num_bytes)?;
        Ok(Self { count: count as usize, data, phantom: std::marker::PhantomData })
    }

    /// no object
    pub fn empty() -> (s: Self)
        ensures
            s.spec_count() == 0,
            s.spec_data() == Seq::<u8>::empty(),
    {
        let data: &[u8] = &[];
        assert(data@ =~= Seq::<u8>::empty());
        proof {
            T::lemma_size_positive();
        }
        assert(0 * T::spec_size() == 0) by (nonlinear_arith);
        Self { count: 0, data, phantom: std::marker::PhantomData }
    }

    pub fn is_empty(&self) -> (b: bool)
        ensures
            b == (self.spec_data().len() == 0),
    {
        self.data.len() == 0
    }

    pub fn iter(&self) -> (it: CountIterator<'a, T>)
        ensures
            it.spec_items() == self.spec_items(),
    {
        proof {
            use_type_invariant(self);
        }
        CountIterator {
            remaining: self.count,
            cursor: ReadCursor::new(self.data),
            phantom: std::marker::PhantomData,
        }
    }

    /// the objects, in order
    pub fn to_vec(&self) -> (v: Vec<T>)
        ensures
            v@ == self.spec_items(),
    {
        let mut it = self.iter();
        it.collect_remaining()
    }
}

/// Yields the objects of a counted sequence
pub struct CountIterator<'a, T> where T: FixedSize {
    remaining: usize,
    cursor: ReadCursor<'a>,
    phantom: std::marker::PhantomData<T>,
}

impl<'a, T> CountIterator<'a, T> where T: FixedSize {
    #[verifier::type_invariant]
    closed spec fn inv(self) -> bool {
        &&& self.cursor@.len() == self.remaining * T::spec_size()
        &&& T::spec_size() > 0
    }

    /// the objects not yet yielded
    pub closed spec fn spec_items(&self) -> Seq<T> {
        counted_items::<T>(self.remaining as nat, self.cursor@)
    }

    pub fn next(&mut self) -> (item: Option<T>)
        ensures
            old(self).spec_items().len() == 0 ==> item is None && final(self).spec_items()
                == old(self).spec_items(),
            old(self).spec_items().len() > 0 ==> item == Some(old(self).spec_items()[0])
                && final(self).spec_items() == old(self).spec_items().drop_first(),
    {
        proof {
            use_type_invariant(&*self);
        }
        if self.remaining == 0 {
            return None;
        }
        let ghost old_items = self.spec_items();
        let ghost s = self.cursor@;
        let ghost z = T::spec_size();
        proof {
            assert(s.len() >= z) by (nonlinear_arith)
                requires
                    s.len() == self.remaining * z,
                    self.remaining >= 1,
            ;
            assert(s.skip(0) =~= s);
        }
        let mut cursor = self.cursor;
        let value = match T::read(&mut cursor) {
            Ok(x) => x,
            Err(_) => {
                return None;
            },
        };
        let remaining = self.remaining - 1;
        proof {
            assert(cursor@.len() == remaining * z) by (nonlinear_arith)
                requires
                    cursor@.len() == s.len() - z,
                    s.len() == (remaining + 1) * z,
            ;
            assert forall|k: int| 0 <= k < remaining implies #[trigger] cursor@.skip(k * z)
                =~= s.skip((k + 1) * z) by {
                assert((k + 1) * z == k * z + z) by (nonlinear_arith);
                assert(0 <= k * z <= remaining * z) by (nonlinear_arith)
                    requires
                        0 <= k < remaining,
                        z > 0,
                ;
                assert(cursor@ == s.skip(z as int));
            }
        }
        *self = CountIterator { remaining, cursor, phantom: std::marker::PhantomData };
        proof {
            assert forall|k: int| 0 <= k < self.remaining implies self.spec_items()[k]
                == old_items[k + 1] by {
                assert(cursor@.skip(k * z) =~= s.skip((k + 1) * z));
            }
            assert(self.spec_items() =~= old_items.drop_first());
        }
        Some(value)
    }

    /// the objects not yet yielded, in order; the iterator is empty afterwards
    pub fn collect_remaining(&mut self) -> (v: Vec<T>)
        ensures
            v@ == old(self).spec_items(),
            final(self).spec_items().len() == 0,
    {
        let mut v: Vec<T> = Vec::new();
        let ghost all = self.spec_items();
        loop
            invariant
                all == old(self).spec_items(),
                all == v@ + self.spec_items(),
            decreases self.spec_items().len(),
        {
            match self.next() {
                Some(x) => {
                    v.push(x);
                    proof {
                        assert(all =~= v@ + self.spec_items());
                    }
                },
                None => {
                    assert(all =~= v@);
                    return v;
                },
            }
        }
    }
}

} // verus!
