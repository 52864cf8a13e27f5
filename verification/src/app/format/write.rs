use crate::app::gen::enums::{FunctionCode, QualifierCode};
use crate::app::gen::variations::variation::Variation;
use crate::app::header::{Control, RequestHeader};
use crate::app::sequence::Sequence;
use crate::util::cursor::{WriteCursor, WriteError};
use crate::util::writes::{write_bytes_result, lemma_single_byte, lemma_write_bytes_seq};
use vstd::prelude::*;

verus! {

/// the header of a confirm: FIR and FIN set, UNS as given
pub open spec fn confirm_header(seq: Sequence, unsolicited: bool) -> RequestHeader {
    RequestHeader {
        control: Control { fir: true, fin: true, con: false, uns: unsolicited, seq },
        function: FunctionCode::Confirm,
    }
}

/// the bytes of an object header that asks for all objects of `v`: group,
/// variation, then the all-objects qualifier
pub open spec fn all_objects_bytes(v: Variation) -> Seq<u8> {
    seq![v.group_var().0, v.group_var().1, QualifierCode::AllObjects.code()]
}

/// the object headers of an integrity poll: all objects of class 1, 2, 3,
/// then class 0
pub open spec fn integrity_objects() -> Seq<u8> {
    all_objects_bytes(Variation::Group60Var2) + all_objects_bytes(Variation::Group60Var3)
        + all_objects_bytes(Variation::Group60Var4) + all_objects_bytes(Variation::Group60Var1)
}

/// the header of a read request with sequence number `seq`
pub open spec fn read_header(seq: Sequence) -> RequestHeader {
    RequestHeader {
        control: Control { fir: true, fin: true, con: false, uns: false, seq },
        function: FunctionCode::Read,
    }
}

/// writes the header of a solicited confirm
pub fn confirm_solicited(seq: Sequence, cursor: &mut WriteCursor) -> (res: Result<(), WriteError>)
    ensures
        old(cursor).position() <= old(cursor).buffer().len(),
        write_bytes_result(
            old(cursor),
            final(cursor),
            confirm_header(seq, false).bytes(),
            res,
        ),
{
    RequestHeader::new(Control::request(seq), FunctionCode::Confirm).write(cursor)
}

/// writes the header of an unsolicited confirm
pub fn confirm_unsolicited(seq: Sequence, cursor: &mut WriteCursor) -> (res: Result<(), WriteError>)
    ensures
        old(cursor).position() <= old(cursor).buffer().len(),
        write_bytes_result(
            old(cursor),
            final(cursor),
            confirm_header(seq, true).bytes(),
            res,
        ),
{
    RequestHeader::new(Control::unsolicited(seq), FunctionCode::Confirm).write(cursor)
}

fn write_gv(variation: Variation, cursor: &mut WriteCursor) -> (res: Result<(), WriteError>)
    ensures
        old(cursor).position() <= old(cursor).buffer().len(),
        write_bytes_result(
            old(cursor),
            final(cursor),
            seq![variation.group_var().0, variation.group_var().1],
            res,
        ),
{
    let (g, v) = variation.to_group_and_var();
    let ghost c0 = *cursor;
    let r = cursor.write_u8(g);
    proof {
        lemma_single_byte(&c0, cursor, g, r);
        assert(seq![g] + seq![v] =~= seq![g, v]);
    }
    if r.is_err() {
        proof {
            lemma_write_bytes_seq(&c0, cursor, cursor, seq![g], seq![v], r, r);
        }
        return r;
    }
    let ghost c1 = *cursor;
    let r2 = cursor.write_u8(v);
    proof {
        lemma_single_byte(&c1, cursor, v, r2);
        lemma_write_bytes_seq(&c0, &c1, cursor, seq![g], seq![v], r, r2);
    }
    r2
}

fn write_qualifier(qualifier: QualifierCode, cursor: &mut WriteCursor) -> (res: Result<
    (),
    WriteError,
>)
    ensures
        old(cursor).position() <= old(cursor).buffer().len(),
        write_bytes_result(old(cursor), final(cursor), seq![qualifier.code()], res),
{
    let ghost c0 = *cursor;
    let r = cursor.write_u8(qualifier.as_u8());
    proof {
        lemma_single_byte(&c0, cursor, qualifier.code(), r);
    }
    r
}

/// writes an object header that asks for all objects of `variation`
pub fn write_all_objects(variation: Variation, cursor: &mut WriteCursor) -> (res: Result<
    (),
    WriteError,
>)
    ensures
        old(cursor).position() <= old(cursor).buffer().len(),
        write_bytes_result(
            old(cursor),
            final(cursor),
            all_objects_bytes(variation),
            res,
        ),
{
    let ghost c0 = *cursor;
    let ghost a = seq![variation.group_var().0, variation.group_var().1];
    let ghost b = seq![QualifierCode::AllObjects.code()];
    proof {
        assert(a + b =~= all_objects_bytes(variation));
    }
    let r = write_gv(variation, cursor);
    if r.is_err() {
        proof {
            lemma_write_bytes_seq(&c0, cursor, cursor, a, b, r, r);
        }
        return r;
    }
    let ghost c1 = *cursor;
    let r2 = write_qualifier(QualifierCode::AllObjects, cursor);
    proof {
        lemma_write_bytes_seq(&c0, &c1, cursor, a, b, r, r2);
    }
    r2
}

/// writes an integrity poll: a read request for all objects of class 1, 2,
/// 3, then class 0
pub fn read_integrity(seq: Sequence, cursor: &mut WriteCursor) -> (res: Result<(), WriteError>)
    ensures
        old(cursor).position() <= old(cursor).buffer().len(),
        write_bytes_result(
            old(cursor),
            final(cursor),
            read_header(seq).bytes() + integrity_objects(),
            res,
        ),
{
    let ghost c0 = *cursor;
    let ghost h = read_header(seq).bytes();
    let ghost o2 = all_objects_bytes(Variation::Group60Var2);
    let ghost o3 = all_objects_bytes(Variation::Group60Var3);
    let ghost o4 = all_objects_bytes(Variation::Group60Var4);
    let ghost o1 = all_objects_bytes(Variation::Group60Var1);
    proof {
        assert(h + integrity_objects() =~= h + o2 + o3 + o4 + o1);
    }
    let r = RequestHeader::new(Control::request(seq), FunctionCode::Read).write(cursor);
    if r.is_err() {
        proof {
            lemma_write_bytes_seq(&c0, cursor, cursor, h, o2 + o3 + o4 + o1, r, r);
            assert(h + (o2 + o3 + o4 + o1) =~= h + o2 + o3 + o4 + o1);
        }
        return r;
    }
    let ghost c1 = *cursor;
    let r = write_all_objects(Variation::Group60Var2, cursor);
    proof {
        lemma_write_bytes_seq(&c0, &c1, cursor, h, o2, Ok(()), r);
    }
    if r.is_err() {
        proof {
            lemma_write_bytes_seq(&c0, cursor, cursor, h + o2, o3 + o4 + o1, r, r);
            assert(h + o2 + (o3 + o4 + o1) =~= h + o2 + o3 + o4 + o1);
        }
        return r;
    }
    let ghost c2 = *cursor;
    let r = write_all_objects(Variation::Group60Var3, cursor);
    proof {
        lemma_write_bytes_seq(&c0, &c2, cursor, h + o2, o3, Ok(()), r);
    }
    if r.is_err() {
        proof {
            lemma_write_bytes_seq(&c0, cursor, cursor, h + o2 + o3, o4 + o1, r, r);
            assert(h + o2 + o3 + (o4 + o1) =~= h + o2 + o3 + o4 + o1);
        }
        return r;
    }
    let ghost c3 = *cursor;
    let r = write_all_objects(Variation::Group60Var4, cursor);
    proof {
        lemma_write_bytes_seq(&c0, &c3, cursor, h + o2 + o3, o4, Ok(()), r);
    }
    if r.is_err() {
        proof {
            lemma_write_bytes_seq(&c0, cursor, cursor, h + o2 + o3 + o4, o1, r, r);
        }
        return r;
    }
    let ghost c4 = *cursor;
    let r = write_all_objects(Variation::Group60Var1, cursor);
    proof {
        lemma_write_bytes_seq(&c0, &c4, cursor, h + o2 + o3 + o4, o1, Ok(()), r);
    }
    r
}

} // verus!
