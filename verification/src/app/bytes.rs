use crate::app::parser::ParseError;
use crate::util::cursor::ReadCursor;
use vstd::prelude::*;

verus! {

/// An octet string
pub struct Bytes<'a> {
    pub value: &'a [u8],
}

/// the octet strings of `size` bytes each that `data` holds whole, in order
pub open spec fn octet_strings(size: nat, data: Seq<u8>) -> Seq<Seq<u8>> {
    Seq::new(data.len() / size, |i: int| data.subrange(i * size, (i + 1) * size))
}

/// Yields octet strings of one size from a run of bytes
pub struct BytesIterator<'a> {
    cursor: ReadCursor<'a>,
    size: usize,
}

impl<'a> BytesIterator<'a> {
    #[verifier::type_invariant]
    closed spec fn inv(self) -> bool {
        self.size > 0
    }

    /// the size of each octet string
    pub closed spec fn spec_size(&self) -> nat {
        self.size as nat
    }

    /// the octet strings not yet yielded
    pub closed spec fn spec_items(&self) -> Seq<Seq<u8>> {
        octet_strings(self.size as nat, self.cursor@)
    }

    /// reads `count` octet strings whose size is the variation
    pub fn parse(variation: u8, count: usize, cursor: &mut ReadCursor<'a>) -> (res: Result<
        Self,
        ParseError,
    >)
        requires
            variation * count <= usize::MAX,
        ensures
            variation == 0 ==> res == Err::<Self, ParseError>(ParseError::ZeroLengthOctetData)
                && final(cursor)@ == old(cursor)@,
            variation != 0 && variation * count <= old(cursor)@.len() ==> res is Ok
                && res.unwrap().spec_size() == variation && res.unwrap().spec_items()
                == octet_strings(variation as nat, old(cursor)@.take(variation * count))
                && final(cursor)@ == old(cursor)@.skip(variation * count),
            variation != 0 && variation * count > old(cursor)@.len() ==> res == Err::<
                Self,
                ParseError,
            >(ParseError::InsufficientBytes) && final(cursor)@ == old(cursor)@,
    {
        if variation == 0 {
            return Err(ParseError::ZeroLengthOctetData);
        }
        let bytes = match cursor.read_bytes(variation as usize * count) {
            Ok(b) => b,
            Err(_) => return Err(ParseError::InsufficientBytes),
        };
        Ok(BytesIterator { cursor: ReadCursor::new(bytes), size: variation as usize })
    }

    pub fn next(&mut self) -> (item: Option<Bytes<'a>>)
        ensures
            final(self).spec_size() == old(self).spec_size(),
            old(self).spec_items().len() == 0 ==> item is None && final(self).spec_items()
                == old(self).spec_items(),
            old(self).spec_items().len() > 0 ==> item is Some && item.unwrap().value@ == old(
                self,
            ).spec_items()[0] && final(self).spec_items() == old(self).spec_items().drop_first(),
    {
        proof {
            use_type_invariant(&*self);
        }
        let ghost old_items = self.spec_items();
        let ghost s = self.cursor@;
        let ghost z = self.size as int;
        let mut cursor = self.cursor;
        match cursor.read_bytes(self.size) {
            Ok(b) => {
                *self = BytesIterator { cursor, size: self.size };
                proof {
                    vstd::arithmetic::div_mod::lemma_div_minus_one(s.len() as int, z);
                    assert(self.cursor@ == s.skip(z));
                    assert forall|k: int| 0 <= k < self.spec_items().len() implies self.spec_items()[k]
                        == old_items[k + 1] by {
                        crate::app::count::lemma_whole_runs(s.len() as int, z, k);
                        assert((k + 2) * z == (k + 1) * z + z) by {
                            vstd::arithmetic::mul::lemma_mul_is_distributive_add_other_way(z, k + 1, 1);
                        }
                    }
                    vstd::arithmetic::div_mod::lemma_div_plus_one(s.len() as int - z, z);
                    assert(self.spec_items() =~= old_items.drop_first());
                    assert(b@ =~= old_items[0]);
                }
                Some(Bytes { value: b })
            },
            Err(_) => {
                proof {
                    vstd::arithmetic::div_mod::lemma_basic_div(s.len() as int, z);
                }
                None
            },
        }
    }
}

} // verus!
