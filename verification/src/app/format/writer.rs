use crate::app::format::write::{all_objects_bytes, integrity_objects, write_all_objects};
use crate::app::gen::variations::variation::Variation;
use crate::app::header::RequestHeader;
use crate::util::cursor::{WriteCursor, WriteError};
use crate::util::writes::{write_bytes_result, lemma_write_bytes_seq, lemma_wrote_written};
use vstd::prelude::*;

verus! {

/// Writes a request fragment into a buffer: the header, then object headers
pub struct Writer<'a> {
    cursor: WriteCursor<'a>,
}

/// `new_w` holds the bytes of `old_w` followed by `bytes` where they fit,
/// else by as many of them as fit, with the failure `res`
pub open spec fn appended(old_w: Writer, new_w: Writer, bytes: Seq<u8>, res: Result<(), WriteError>) -> bool {
    let room = old_w.spec_capacity() - old_w.spec_written().len();
    &&& new_w.spec_capacity() == old_w.spec_capacity()
    &&& bytes.len() <= room ==> res is Ok && new_w.spec_written() == old_w.spec_written() + bytes
    &&& bytes.len() > room ==> res is Err && new_w.spec_written() == old_w.spec_written()
        + bytes.take(room)
}

impl<'a> Writer<'a> {
    /// the bytes written so far
    pub closed spec fn spec_written(self) -> Seq<u8> {
        self.cursor.spec_written()
    }

    /// the length of the buffer
    pub closed spec fn spec_capacity(self) -> nat {
        self.cursor.buffer().len()
    }

    proof fn lemma_appended(
        old_w: Writer,
        new_w: Writer,
        bytes: Seq<u8>,
        res: Result<(), WriteError>,
    )
        requires
            old_w.cursor.position() <= old_w.cursor.buffer().len(),
            write_bytes_result(&old_w.cursor, &new_w.cursor, bytes, res),
        ensures
            appended(old_w, new_w, bytes, res),
    {
        let c0 = old_w.cursor;
        let c1 = new_w.cursor;
        if c0.position() + bytes.len() <= c0.buffer().len() {
            lemma_wrote_written(&c0, &c1, bytes);
        } else {
            let part = bytes.take(c0.buffer().len() - c0.position());
            lemma_wrote_written(&c0, &c1, part);
        }
    }

    /// starts a request in `output` with `header`
    pub fn start_request(output: &'a mut [u8], header: RequestHeader) -> (res: Result<
        Self,
        WriteError,
    >)
        ensures
            old(output)@.len() >= 2 ==> res is Ok && res.unwrap().spec_written() == header.bytes()
                && res.unwrap().spec_capacity() == old(output)@.len(),
            old(output)@.len() < 2 ==> res is Err,
    {
        let mut cursor = WriteCursor::new(output);
        let ghost c0 = cursor;
        match header.write(&mut cursor) {
            Ok(()) => {
                proof {
                    lemma_wrote_written(&c0, &cursor, header.bytes());
                    assert(c0.spec_written() =~= Seq::<u8>::empty());
                    assert(Seq::<u8>::empty() + header.bytes() =~= header.bytes());
                }
                Ok(Self { cursor })
            },
            Err(e) => Err(e),
        }
    }

    /// writes an object header that asks for all objects of `variation`
    pub fn write_all_objects(&mut self, variation: Variation) -> (res: Result<(), WriteError>)
        ensures
            appended(*old(self), *final(self), all_objects_bytes(variation), res),
    {
        let ghost w0 = *self;
        let r = write_all_objects(variation, &mut self.cursor);
        proof {
            Self::lemma_appended(w0, *self, all_objects_bytes(variation), r);
        }
        r
    }

    /// writes the object headers of an integrity poll: all objects of class
    /// 1, 2, 3, then class 0
    pub fn write_integrity(&mut self) -> (res: Result<(), WriteError>)
        ensures
            appended(*old(self), *final(self), integrity_objects(), res),
    {
        let ghost c0 = self.cursor;
        let ghost w0 = *self;
        let ghost o2 = all_objects_bytes(Variation::Group60Var2);
        let ghost o3 = all_objects_bytes(Variation::Group60Var3);
        let ghost o4 = all_objects_bytes(Variation::Group60Var4);
        let ghost o1 = all_objects_bytes(Variation::Group60Var1);
        let r = write_all_objects(Variation::Group60Var2, &mut self.cursor);
        if r.is_err() {
            proof {
                lemma_write_bytes_seq(&c0, &self.cursor, &self.cursor, o2, o3 + o4 + o1, r, r);
                assert(o2 + (o3 + o4 + o1) =~= integrity_objects());
                Self::lemma_appended(w0, *self, integrity_objects(), r);
            }
            return r;
        }
        let ghost c1 = self.cursor;
        let r = write_all_objects(Variation::Group60Var3, &mut self.cursor);
        proof {
            lemma_write_bytes_seq(&c0, &c1, &self.cursor, o2, o3, Ok(()), r);
        }
        if r.is_err() {
            proof {
                lemma_write_bytes_seq(&c0, &self.cursor, &self.cursor, o2 + o3, o4 + o1, r, r);
                assert(o2 + o3 + (o4 + o1) =~= integrity_objects());
                Self::lemma_appended(w0, *self, integrity_objects(), r);
            }
            return r;
        }
        let ghost c2 = self.cursor;
        let r = write_all_objects(Variation::Group60Var4, &mut self.cursor);
        proof {
            lemma_write_bytes_seq(&c0, &c2, &self.cursor, o2 + o3, o4, Ok(()), r);
        }
        if r.is_err() {
            proof {
                lemma_write_bytes_seq(&c0, &self.cursor, &self.cursor, o2 + o3 + o4, o1, r, r);
                Self::lemma_appended(w0, *self, integrity_objects(), r);
            }
            return r;
        }
        let ghost c3 = self.cursor;
        let r = write_all_objects(Variation::Group60Var1, &mut self.cursor);
        proof {
            lemma_write_bytes_seq(&c0, &c3, &self.cursor, o2 + o3 + o4, o1, Ok(()), r);
            Self::lemma_appended(w0, *self, integrity_objects(), r);
        }
        r
    }

    /// the bytes written so far
    pub fn written(&self) -> (res: Result<&[u8], WriteError>)
        ensures
            res is Ok && res.unwrap()@ == self.spec_written(),
    {
        self.cursor.written_since(0)
    }
}

} // verus!
