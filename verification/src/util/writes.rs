use crate::util::cursor::{spliced, WriteCursor, WriteError};
use vstd::prelude::*;

verus! {

/// what writing `bytes` one at a time guarantees: all of them where they
/// fit, else as many as fit, and a failure
pub open spec fn write_bytes_result(
    old_c: &WriteCursor,
    new_c: &WriteCursor,
    bytes: Seq<u8>,
    res: Result<(), WriteError>,
) -> bool {
    &&& old_c.position() + bytes.len() <= old_c.buffer().len() ==> res is Ok && WriteCursor::wrote(
        old_c,
        new_c,
        bytes,
    )
    &&& old_c.position() + bytes.len() > old_c.buffer().len() ==> res is Err && WriteCursor::wrote(
        old_c,
        new_c,
        bytes.take(old_c.buffer().len() - old_c.position()),
    )
}

/// writing `a` then `b` right after it is writing `a + b`
proof fn splice_compose(buf: Seq<u8>, p: int, a: Seq<u8>, b: Seq<u8>)
    requires
        0 <= p,
        p + a.len() + b.len() <= buf.len(),
    ensures
        spliced(spliced(buf, p, a), p + a.len(), b) == spliced(buf, p, a + b),
{
    let s1 = spliced(buf, p, a);
    assert(s1.len() == buf.len());
    assert(s1.take(p + a.len()) =~= buf.take(p) + a);
    assert(s1.skip(p + a.len() + b.len()) =~= buf.skip(p + a.len() + b.len()));
    assert(spliced(s1, p + a.len(), b) =~= spliced(buf, p, a + b));
}

/// two writes one after the other write the two byte sequences joined
pub proof fn lemma_wrote_then_wrote(c0: &WriteCursor, c1: &WriteCursor, c2: &WriteCursor, a: Seq<u8>, b: Seq<u8>)
    requires
        c0.position() + a.len() + b.len() <= c0.buffer().len(),
        WriteCursor::wrote(c0, c1, a),
        WriteCursor::wrote(c1, c2, b),
    ensures
        WriteCursor::wrote(c0, c2, a + b),
{
    splice_compose(c0.buffer(), c0.position() as int, a, b);
}

/// a write of one byte, whole or not at all, meets the byte-wise contract
pub proof fn lemma_single_byte(c0: &WriteCursor, c1: &WriteCursor, b: u8, res: Result<(), WriteError>)
    requires
        c0.position() <= c0.buffer().len(),
        WriteCursor::write_result(c0, c1, seq![b], res),
    ensures
        write_bytes_result(c0, c1, seq![b], res),
{
    if c0.position() + 1 > c0.buffer().len() {
        assert(seq![b].take(0) =~= Seq::<u8>::empty());
        assert(spliced(c0.buffer(), c0.position() as int, Seq::<u8>::empty()) =~= c0.buffer());
    }
}

/// writing `a` then `b` one byte at a time, stopping at the first
/// failure, is writing `a + b` one byte at a time
pub proof fn lemma_write_bytes_seq(
    c0: &WriteCursor,
    c1: &WriteCursor,
    c2: &WriteCursor,
    a: Seq<u8>,
    b: Seq<u8>,
    r1: Result<(), WriteError>,
    r2: Result<(), WriteError>,
)
    requires
        c0.position() <= c0.buffer().len(),
        write_bytes_result(c0, c1, a, r1),
        r1 is Ok ==> write_bytes_result(c1, c2, b, r2),
    ensures
        r1 is Err ==> write_bytes_result(c0, c1, a + b, r1),
        r1 is Ok ==> write_bytes_result(c0, c2, a + b, r2),
{
    let room = c0.buffer().len() - c0.position();
    if c0.position() + a.len() > c0.buffer().len() {
        assert((a + b).take(room) =~= a.take(room));
    } else {
        assert(c1.buffer().len() == c0.buffer().len());
        if c0.position() + a.len() + b.len() <= c0.buffer().len() {
            lemma_wrote_then_wrote(c0, c1, c2, a, b);
        } else {
            let rest = b.take(room - a.len());
            assert((a + b).take(room) =~= a + rest);
            lemma_wrote_then_wrote(c0, c1, c2, a, rest);
        }
    }
}

/// after a write that fits, the bytes written so far are those of before
/// followed by the new ones, in a buffer of the same length
pub proof fn lemma_wrote_written(c0: &WriteCursor, c1: &WriteCursor, bytes: Seq<u8>)
    requires
        c0.position() + bytes.len() <= c0.buffer().len(),
        WriteCursor::wrote(c0, c1, bytes),
    ensures
        c1.spec_written() == c0.spec_written() + bytes,
        c1.buffer().len() == c0.buffer().len(),
{
    assert(c1.spec_written() =~= c0.spec_written() + bytes);
}

} // verus!
