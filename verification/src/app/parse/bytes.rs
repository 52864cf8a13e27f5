use crate::app::parse::error::ObjectParseError;
use crate::app::parse::traits::{FixedSize, Index};
use crate::util::cursor::ReadCursor;
use vstd::prelude::*;

verus! {

/// A borrowed octet string
#[derive(Debug, PartialEq, Eq)]
pub struct Bytes<'a> {
    pub value: &'a [u8],
}

impl<'a> Bytes<'a> {
    pub fn new(value: &'a [u8]) -> (b: Self)
        ensures
            b.value@ == value@,
    {
        Self { value }
    }
}

/// the octet strings of a ranged sequence: the `i`th is the `i`th run of
/// `size` bytes and has index `index + i`
pub open spec fn ranged_octets(index: u16, size: nat, count: nat, data: Seq<u8>) -> Seq<(Seq<u8>, u16)> {
    Seq::new(count, |i: int| (data.subrange(i * size, i * size + size), (index + i) as u16))
}

/// Octet strings of one size, one for each index of a range
#[derive(Debug, PartialEq)]
pub struct RangedBytesSequence<'a> {
    bytes: &'a [u8],
    index: u16,
    size: usize,
    count: usize,
}

/// Yields the octet strings of a ranged sequence with their indices
#[derive(Debug, PartialEq)]
pub struct RangedBytesIterator<'a> {
    cursor: ReadCursor<'a>,
    index: u16,
    size: usize,
    remaining: usize,
}

impl<'a> RangedBytesSequence<'a> {
    #[verifier::type_invariant]
    closed spec fn inv(self) -> bool {
        &&& self.bytes@.len() == self.size * self.count
        &&& self.size > 0
        &&& self.index + self.count <= 65536
    }

    pub closed spec fn spec_index(&self) -> u16 {
        self.index
    }

    pub closed spec fn spec_size(&self) -> nat {
        self.size as nat
    }

    pub closed spec fn spec_count(&self) -> nat {
        self.count as nat
    }

    pub closed spec fn spec_bytes(&self) -> Seq<u8> {
        self.bytes@
    }

    /// the octet strings with their indices, in order
    pub open spec fn spec_items(&self) -> Seq<(Seq<u8>, u16)> {
        ranged_octets(self.spec_index(), self.spec_size(), self.spec_count(), self.spec_bytes())
    }

    /// reads `count` octet strings of `variation` bytes each
    pub fn parse(variation: u8, index: u16, count: usize, cursor: &mut ReadCursor<'a>) -> (res:
        Result<Self, ObjectParseError>)
        requires
            index + count <= 65536,
        ensures
            variation == 0 ==> res == Err::<Self, ObjectParseError>(
                ObjectParseError::ZeroLengthOctetData,
            ) && final(cursor)@ == old(cursor)@,
            variation != 0 && variation * count <= old(cursor)@.len() ==> res is Ok
                && res.unwrap().spec_index() == index && res.unwrap().spec_size() == variation
                && res.unwrap().spec_count() == count && res.unwrap().spec_bytes() == old(cursor)@.take(variation * count) && final(cursor)@ == old(cursor)@.skip(variation * count),
            variation != 0 && variation * count > old(cursor)@.len() ==> res
                == Err::<Self, ObjectParseError>(ObjectParseError::InsufficientBytes) && final(cursor)@ == old(cursor)@,
    {
        if variation == 0 {
            return Err(ObjectParseError::ZeroLengthOctetData);
        }
        proof {
            assert(variation * count <= 255 * 65536) by (nonlinear_arith)
                requires
                    variation <= 255,
                    count <= 65536,
            ;
        }
        let bytes = match cursor.read_bytes(variation as usize * count) {
            Ok(b) => b,
            Err(_) => {
                return Err(ObjectParseError::InsufficientBytes);
            },
        };
        Ok(RangedBytesSequence { bytes, index, size: variation as usize, count })
    }

    pub fn iter(&self) -> (it: RangedBytesIterator<'a>)
        ensures
            it.spec_items() == self.spec_items(),
    {
        proof {
            use_type_invariant(self);
        }
        RangedBytesIterator {
            cursor: ReadCursor::new(self.bytes),
            index: self.index,
            size: self.size,
            remaining: self.count,
        }
    }

    /// the octet strings with their indices, in order
    pub fn to_vec(&self) -> (v: Vec<(Bytes<'a>, u16)>)
        ensures
            v@.len() == self.spec_items().len(),
            forall|i: int|
                0 <= i < v@.len() ==> (#[trigger] v@[i]).0.value@ == self.spec_items()[i].0
                    && v@[i].1 == self.spec_items()[i].1,
    {
        let mut it = self.iter();
        it.collect_remaining()
    }
}

impl<'a> RangedBytesIterator<'a> {
    #[verifier::type_invariant]
    closed spec fn inv(self) -> bool {
        &&& self.cursor@.len() == self.size * self.remaining
        &&& self.size > 0
        &&& self.index + self.remaining <= 65536
    }

    /// the octet strings not yet yielded, with their indices
    pub closed spec fn spec_items(&self) -> Seq<(Seq<u8>, u16)> {
        ranged_octets(self.index, self.size as nat, self.remaining as nat, self.cursor@)
    }

    pub fn next(&mut self) -> (item: Option<(Bytes<'a>, u16)>)
        ensures
            old(self).spec_items().len() == 0 ==> item is None && final(self).spec_items()
                == old(self).spec_items(),
            old(self).spec_items().len() > 0 ==> item is Some && item.unwrap().0.value@ == old(self).spec_items()[0].0 && item.unwrap().1 == old(self).spec_items()[0].1 && final(self).spec_items() == old(self).spec_items().drop_first(),
    {
        proof {
            use_type_invariant(&*self);
        }
        if self.remaining == 0 {
            return None;
        }
        let ghost old_items = self.spec_items();
        let ghost s = self.cursor@;
        let ghost z = self.size as int;
        proof {
            assert(s.len() >= z) by (nonlinear_arith)
                requires
                    s.len() == z * self.remaining,
                    self.remaining >= 1,
            ;
        }
        let mut cursor = self.cursor;
        let b = match cursor.read_bytes(self.size) {
            Ok(b) => b,
            Err(_) => {
                return None;
            },
        };
        let index = self.index;
        let remaining = self.remaining - 1;
        let next_index = if remaining > 0 {
            self.index + 1
        } else {
            self.index
        };
        proof {
            assert(cursor@.len() == z * remaining) by (nonlinear_arith)
                requires
                    cursor@.len() == s.len() - z,
                    s.len() == z * (remaining + 1),
            ;
            assert(b@ =~= s.subrange(0, z));
        }
        *self = RangedBytesIterator { cursor, index: next_index, size: self.size, remaining };
        proof {
            assert forall|k: int| 0 <= k < remaining implies self.spec_items()[k] == old_items[k
                + 1] by {
                assert((k + 1) * z == k * z + z) by (nonlinear_arith);
                assert(0 <= k * z && k * z + z <= remaining * z) by (nonlinear_arith)
                    requires
                        0 <= k < remaining,
                        z > 0,
                ;
                assert(cursor@.subrange(k * z, k * z + z) =~= s.subrange(
                    (k + 1) * z,
                    (k + 1) * z + z,
                ));
            }
            assert(self.spec_items() =~= old_items.drop_first());
        }
        Some((Bytes::new(b), index))
    }

    /// the number of octet strings not yet yielded
    pub fn size_hint(&self) -> (n: (usize, Option<usize>))
        ensures
            n.0 == self.spec_items().len(),
            n.1 == Some(self.spec_items().len() as usize),
    {
        (self.remaining, Some(self.remaining))
    }

    /// the octet strings not yet yielded, in order; the iterator is empty afterwards
    pub fn collect_remaining(&mut self) -> (v: Vec<(Bytes<'a>, u16)>)
        ensures
            v@.len() == old(self).spec_items().len(),
            forall|i: int|
                0 <= i < v@.len() ==> (#[trigger] v@[i]).0.value@ == old(self).spec_items()[i].0
                    && v@[i].1 == old(self).spec_items()[i].1,
            final(self).spec_items().len() == 0,
    {
        let mut v: Vec<(Bytes<'a>, u16)> = Vec::new();
        let ghost all = self.spec_items();
        loop
            invariant
                all == old(self).spec_items(),
                v@.len() + self.spec_items().len() == all.len(),
                forall|i: int|
                    0 <= i < v@.len() ==> (#[trigger] v@[i]).0.value@ == all[i].0 && v@[i].1
                        == all[i].1,
                forall|j: int|
                    0 <= j < self.spec_items().len() ==> #[trigger] self.spec_items()[j] == all[v@.len() + j],
            decreases self.spec_items().len(),
        {
            match self.next() {
                Some(x) => {
                    v.push(x);
                },
                None => {
                    return v;
                },
            }
        }
    }
}

/// the octet strings of a prefixed sequence: the `i`th item is `size` bytes
/// followed by an index of type `I`
pub open spec fn prefixed_octets<I: FixedSize>(size: nat, count: nat, data: Seq<u8>) -> Seq<(Seq<u8>, I)> {
    Seq::new(
        count,
        |i: int|
            {
                let at = i * (size + I::spec_size());
                (data.subrange(at, at + size), I::decode(data.skip(at + size)))
            },
    )
}

/// Octet strings of one size, each followed by its index
#[derive(Debug, PartialEq)]
pub struct PrefixedBytesSequence<'a, T> where T: FixedSize + Index {
    bytes: &'a [u8],
    size: usize,
    count: usize,
    phantom: std::marker::PhantomData<T>,
}

/// Yields the octet strings of a prefixed sequence with their indices
pub struct PrefixedBytesIterator<'a, T> where T: FixedSize + Index {
    cursor: ReadCursor<'a>,
    size: usize,
    remaining: usize,
    phantom: std::marker::PhantomData<T>,
}

impl<'a, T> PrefixedBytesSequence<'a, T> where T: FixedSize + Index {
    #[verifier::type_invariant]
    closed spec fn inv(self) -> bool {
        &&& self.bytes@.len() == (self.size + T::spec_size()) * self.count
        &&& self.size > 0
    }

    pub closed spec fn spec_size(&self) -> nat {
        self.size as nat
    }

    pub closed spec fn spec_count(&self) -> nat {
        self.count as nat
    }

    pub closed spec fn spec_bytes(&self) -> Seq<u8> {
        self.bytes@
    }

    /// the octet strings with their indices, in order
    pub open spec fn spec_items(&self) -> Seq<(Seq<u8>, T)> {
        prefixed_octets::<T>(self.spec_size(), self.spec_count(), self.spec_bytes())
    }

    /// reads `count` items of `variation` bytes and an index each
    pub fn parse(variation: u8, count: u16, cursor: &mut ReadCursor<'a>) -> (res: Result<
        Self,
        ObjectParseError,
    >)
        ensures
            ({
                let n = (variation + T::spec_size()) * count;
                &&& variation == 0 ==> res == Err::<Self, ObjectParseError>(
                    ObjectParseError::ZeroLengthOctetData,
                ) && final(cursor)@ == old(cursor)@
                &&& variation != 0 && n <= old(cursor)@.len() ==> res is Ok
                    && res.unwrap().spec_size() == variation && res.unwrap().spec_count() == count
                    && res.unwrap().spec_bytes() == old(cursor)@.take(n) && final(cursor)@ == old(cursor)@.skip(n)
                &&& variation != 0 && n > old(cursor)@.len() ==> res
                    == Err::<Self, ObjectParseError>(ObjectParseError::InsufficientBytes) && final(cursor)@ == old(cursor)@
            }),
    {
        if variation == 0 {
            return Err(ObjectParseError::ZeroLengthOctetData);
        }
        proof {
            T::lemma_index_size();
            assert((variation + T::spec_size()) * count <= 257 * 65535) by (nonlinear_arith)
                requires
                    variation <= 255,
                    T::spec_size() <= 2,
                    count <= 65535,
            ;
        }
        let size = (variation as usize + T::size() as usize) * count as usize;
        let bytes = match cursor.read_bytes(size) {
            Ok(b) => b,
            Err(_) => {
                return Err(ObjectParseError::InsufficientBytes);
            },
        };
        Ok(PrefixedBytesSequence {
            bytes,
            size: variation as usize,
            count: count as usize,
            phantom: std::marker::PhantomData,
        })
    }

    pub fn iter(&self) -> (it: PrefixedBytesIterator<'a, T>)
        ensures
            it.spec_items() == self.spec_items(),
    {
        proof {
            use_type_invariant(self);
        }
        PrefixedBytesIterator {
            cursor: ReadCursor::new(self.bytes),
            size: self.size,
            remaining: self.count,
            phantom: std::marker::PhantomData,
        }
    }

    /// the octet strings with their indices, in order
    pub fn to_vec(&self) -> (v: Vec<(Bytes<'a>, T)>)
        ensures
            v@.len() == self.spec_items().len(),
            forall|i: int|
                0 <= i < v@.len() ==> (#[trigger] v@[i]).0.value@ == self.spec_items()[i].0
                    && v@[i].1 == self.spec_items()[i].1,
    {
        let mut it = self.iter();
        it.collect_remaining()
    }
}

impl<'a, T> PrefixedBytesIterator<'a, T> where T: FixedSize + Index {
    #[verifier::type_invariant]
    closed spec fn inv(self) -> bool {
        &&& self.cursor@.len() == (self.size + T::spec_size()) * self.remaining
        &&& self.size > 0
    }

    /// the octet strings not yet yielded, with their indices
    pub closed spec fn spec_items(&self) -> Seq<(Seq<u8>, T)> {
        prefixed_octets::<T>(self.size as nat, self.remaining as nat, self.cursor@)
    }

    pub fn next(&mut self) -> (item: Option<(Bytes<'a>, T)>)
        ensures
            old(self).spec_items().len() == 0 ==> item is None && final(self).spec_items()
                == old(self).spec_items(),
            old(self).spec_items().len() > 0 ==> item is Some && item.unwrap().0.value@ == old(self).spec_items()[0].0 && item.unwrap().1 == old(self).spec_items()[0].1 && final(self).spec_items() == old(self).spec_items().drop_first(),
    {
        proof {
            use_type_invariant(&*self);
        }
        if self.remaining == 0 {
            return None;
        }
        let ghost old_items = self.spec_items();
        let ghost s = self.cursor@;
        let ghost z = self.size + T::spec_size();
        let ghost sz = self.size as int;
        proof {
            assert(s.len() >= z) by (nonlinear_arith)
                requires
                    s.len() == z * self.remaining,
                    self.remaining >= 1,
            ;
        }
        let mut cursor = self.cursor;
        let bytes = match cursor.read_bytes(self.size) {
            Ok(x) => x,
            _ => {
                return None;
            },
        };
        let index = match T::read(&mut cursor) {
            Ok(x) => x,
            _ => {
                return None;
            },
        };
        let remaining = self.remaining - 1;
        proof {
            assert(cursor@.len() == z * remaining) by (nonlinear_arith)
                requires
                    cursor@.len() == s.len() - z,
                    s.len() == z * (remaining + 1),
            ;
            assert(bytes@ =~= s.subrange(0, sz));
            assert(s.skip(0 * z + sz) =~= s.skip(sz));
            assert(cursor@ =~= s.skip(z));
        }
        *self = PrefixedBytesIterator { cursor, size: self.size, remaining, phantom: std::marker::PhantomData };
        proof {
            assert forall|k: int| 0 <= k < remaining implies self.spec_items()[k] == old_items[k
                + 1] by {
                assert((k + 1) * z == k * z + z) by (nonlinear_arith);
                assert(0 <= k * z && k * z + z <= remaining * z) by (nonlinear_arith)
                    requires
                        0 <= k < remaining,
                        z > 0,
                ;
                assert(cursor@.subrange(k * z, k * z + sz) =~= s.subrange(
                    (k + 1) * z,
                    (k + 1) * z + sz,
                ));
                assert(cursor@.skip(k * z + sz) =~= s.skip((k + 1) * z + sz));
            }
            assert(self.spec_items() =~= old_items.drop_first());
        }
        Some((Bytes::new(bytes), index))
    }

    /// the number of items not yet yielded
    pub fn size_hint(&self) -> (n: (usize, Option<usize>))
        ensures
            n.0 == self.spec_items().len(),
            n.1 == Some(self.spec_items().len() as usize),
    {
        (self.remaining, Some(self.remaining))
    }

    /// the items not yet yielded, in order; the iterator is empty afterwards
    pub fn collect_remaining(&mut self) -> (v: Vec<(Bytes<'a>, T)>)
        ensures
            v@.len() == old(self).spec_items().len(),
            forall|i: int|
                0 <= i < v@.len() ==> (#[trigger] v@[i]).0.value@ == old(self).spec_items()[i].0
                    && v@[i].1 == old(self).spec_items()[i].1,
            final(self).spec_items().len() == 0,
    {
        let mut v: Vec<(Bytes<'a>, T)> = Vec::new();
        let ghost all = self.spec_items();
        loop
            invariant
                all == old(self).spec_items(),
                v@.len() + self.spec_items().len() == all.len(),
                forall|i: int|
                    0 <= i < v@.len() ==> (#[trigger] v@[i]).0.value@ == all[i].0 && v@[i].1
                        == all[i].1,
                forall|j: int|
                    0 <= j < self.spec_items().len() ==> #[trigger] self.spec_items()[j] == all[v@.len() + j],
            decreases self.spec_items().len(),
        {
            match self.next() {
                Some(x) => {
                    v.push(x);
                },
                None => {
                    return v;
                },
            }
        }
    }
}

} // verus!
