use crate::app::parse::traits::{FixedSize, FixedSizeVariation, Index};
use crate::util::cursor::{spliced, ReadCursor, ReadError, WriteCursor, WriteError};
use vstd::prelude::*;

verus! {

/// An object preceded by its index
#[derive(Debug, PartialEq, Eq)]
pub struct Prefix<I, V> where I: FixedSize + Index, V: FixedSizeVariation {
    pub index: I,
    pub value: V,
}

impl<I, V> FixedSize for Prefix<I, V> where I: FixedSize + Index, V: FixedSizeVariation {
    open spec fn spec_size() -> nat {
        I::spec_size() + V::spec_size()
    }

    proof fn lemma_size_positive() {
        I::lemma_size_positive();
    }

    open spec fn decode(s: Seq<u8>) -> Self {
        Prefix { index: I::decode(s), value: V::decode(s.skip(I::spec_size() as int)) }
    }

    open spec fn encode(&self) -> Seq<u8> {
        self.index.encode() + self.value.encode()
    }

    open spec fn canonical(&self) -> bool {
        self.index.canonical() && self.value.canonical()
    }

    fn size() -> (n: u8) {
        proof {
            I::lemma_index_size();
            V::lemma_size_bound();
        }
        I::size() + V::size()
    }

    fn read(cursor: &mut ReadCursor) -> (res: Result<Self, ReadError>) {
        proof {
            I::lemma_index_size();
            V::lemma_size_bound();
        }
        if cursor.len() < I::size() as usize + V::size() as usize {
            return Err(ReadError);
        }
        let ghost s = cursor@;
        let index = I::read(cursor)?;
        let value = V::read(cursor)?;
        proof {
            assert(s.skip(I::spec_size() as int).skip(V::spec_size() as int) =~= s.skip(
                Self::spec_size() as int,
            ));
        }
        Ok(Prefix { index, value })
    }

    fn write(&self, cursor: &mut WriteCursor) -> (res: Result<(), WriteError>) {
        proof {
            I::lemma_index_size();
            V::lemma_size_bound();
            self.index.lemma_encode_len();
            self.value.lemma_encode_len();
        }
        if cursor.remaining() < I::size() as usize + V::size() as usize {
            return Err(WriteError);
        }
        let ghost c0 = *cursor;
        let _ = self.index.write(cursor);
        let _ = self.value.write(cursor);
        proof {
            assert(cursor.buffer() =~= spliced(c0.buffer(), c0.position() as int, self.encode()));
        }
        Ok(())
    }

    proof fn lemma_encode_len(&self) {
        self.index.lemma_encode_len();
        self.value.lemma_encode_len();
    }

    proof fn lemma_decode_prefix(s: Seq<u8>, t: Seq<u8>) {
        let a = I::spec_size() as int;
        let b = V::spec_size() as int;
        assert(s.take(a) =~= s.take(a + b).take(a));
        assert(t.take(a) =~= t.take(a + b).take(a));
        I::lemma_decode_prefix(s, t);
        assert(s.skip(a).take(b) =~= s.take(a + b).skip(a));
        assert(t.skip(a).take(b) =~= t.take(a + b).skip(a));
        V::lemma_decode_prefix(s.skip(a), t.skip(a));
    }

    proof fn lemma_decode_encode(&self) {
        self.index.lemma_encode_len();
        self.value.lemma_encode_len();
        let e = self.encode();
        let a = I::spec_size() as int;
        assert(e.take(a) =~= self.index.encode().take(a));
        I::lemma_decode_prefix(e, self.index.encode());
        self.index.lemma_decode_encode();
        assert(e.skip(a) =~= self.value.encode());
        self.value.lemma_decode_encode();
    }
}

} // verus!
