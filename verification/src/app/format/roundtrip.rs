use crate::app::format::write::all_objects_bytes;
use crate::app::gen::enums::{FunctionCode, QualifierCode};
use crate::app::gen::variations::all::AllObjectsVariation;
use crate::app::gen::variations::variation::Variation;
use crate::app::header::{Control, RequestHeader, ResponseHeader};
use crate::app::parse::parser::{
    spec_parse_fragment_header, spec_parse_header, spec_parse_headers, DetailsModel, HeaderModel,
};
use vstd::prelude::*;

verus! {

/// every variation is found again by its group and variation numbers
pub proof fn lemma_lookup_group_var(v: Variation)
    ensures
        Variation::spec_lookup(v.group_var().0, v.group_var().1) == Some(v),
{
}

/// every function code is found again by its code
pub proof fn lemma_function_from_code(f: FunctionCode)
    ensures
        FunctionCode::spec_from(f.code()) == Some(f),
{
}

/// the object headers that ask for all objects of each of `vs`, in order
pub open spec fn all_objects_request(vs: Seq<Variation>) -> Seq<u8>
    decreases vs.len(),
{
    if vs.len() == 0 {
        Seq::empty()
    } else {
        all_objects_bytes(vs[0]) + all_objects_request(vs.drop_first())
    }
}

/// what reading back an all-objects header of `v` gives
pub open spec fn all_objects_model(v: Variation) -> HeaderModel {
    HeaderModel {
        variation: v,
        details: DetailsModel::AllObjects(AllObjectsVariation::spec_get(v).unwrap()),
    }
}

/// An all-objects header written for a variation that has an all-objects
/// form reads back as that variation with all-objects details, whatever
/// follows it.
pub proof fn lemma_all_objects_roundtrip(function: FunctionCode, v: Variation, rest: Seq<u8>)
    requires
        AllObjectsVariation::spec_get(v) is Some,
    ensures
        spec_parse_header(function, all_objects_bytes(v) + rest) == Ok::<
            (HeaderModel, int),
            crate::app::parse::error::ObjectParseError,
        >((all_objects_model(v), 3int)),
{
    let s = all_objects_bytes(v) + rest;
    lemma_lookup_group_var(v);
    assert(s[0] == v.group_var().0);
    assert(s[1] == v.group_var().1);
    assert(s[2] == QualifierCode::AllObjects.code());
    assert(QualifierCode::spec_from(s[2]) == Some(QualifierCode::AllObjects));
}

/// The all-objects headers written one after the other for variations that
/// have an all-objects form read back as exactly those variations, in order.
pub proof fn lemma_all_objects_request_roundtrip(function: FunctionCode, vs: Seq<Variation>)
    requires
        forall|i: int| 0 <= i < vs.len() ==> (#[trigger] AllObjectsVariation::spec_get(vs[i])) is Some,
    ensures
        spec_parse_headers(function, all_objects_request(vs)) == Ok::<
            Seq<HeaderModel>,
            crate::app::parse::error::ObjectParseError,
        >(vs.map_values(|v: Variation| all_objects_model(v))),
    decreases vs.len(),
{
    if vs.len() > 0 {
        let s = all_objects_request(vs);
        let rest = all_objects_request(vs.drop_first());
        assert(AllObjectsVariation::spec_get(vs[0]) is Some);
        lemma_all_objects_roundtrip(function, vs[0], rest);
        assert(s.skip(3) =~= rest);
        assert forall|i: int| 0 <= i < vs.drop_first().len() implies (
        #[trigger] AllObjectsVariation::spec_get(vs.drop_first()[i])) is Some by {
            assert(vs.drop_first()[i] == vs[i + 1]);
        }
        lemma_all_objects_request_roundtrip(function, vs.drop_first());
        assert(vs.map_values(|v: Variation| all_objects_model(v)) =~= seq![
            all_objects_model(vs[0]),
        ] + vs.drop_first().map_values(|v: Variation| all_objects_model(v)));
    } else {
        assert(vs.map_values(|v: Variation| all_objects_model(v)) =~= Seq::<HeaderModel>::empty());
    }
}

/// A request header that is not a response reads back as its control field
/// and function, with no internal indications, whatever follows it.
pub proof fn lemma_request_header_roundtrip(h: RequestHeader, objects: Seq<u8>)
    requires
        h.function != FunctionCode::Response,
        h.function != FunctionCode::UnsolicitedResponse,
    ensures
        spec_parse_fragment_header(h.bytes() + objects) matches Ok((c, f, iin, n)) && f
            == h.function && iin is None && n == 2 && c.fir == h.control.fir && c.fin
            == h.control.fin && c.con == h.control.con && c.uns == h.control.uns
            && c.seq.spec_value() == h.control.seq.spec_value(),
        spec_parse_fragment_header(h.bytes() + objects) matches Ok((c, f, iin, n)) && (h.bytes()
            + objects).skip(n) == objects,
        h.control.seq.wf() ==> (spec_parse_fragment_header(h.bytes() + objects) matches Ok(
            (c, f, iin, n),
        ) && c == h.control),
{
    let s = h.bytes() + objects;
    if h.control.seq.wf() {
        h.control.lemma_control_roundtrip();
    }
    lemma_function_from_code(h.function);
    h.control.lemma_code_then_from();
    assert(s[0] == h.control.code());
    assert(s[1] == h.function.code());
    assert(s.skip(2) =~= objects);
}

/// The bytes of a request header are its control field and its function
/// code, each read back whole.
pub proof fn lemma_request_header_bytes(h: RequestHeader)
    requires
        h.control.seq.wf(),
    ensures
        h.bytes().len() == 2,
        Control::spec_from(h.bytes()[0]) == h.control,
        FunctionCode::spec_from(h.bytes()[1]) == Some(h.function),
{
    h.control.lemma_control_roundtrip();
    lemma_function_from_code(h.function);
}

/// A response header reads back as its control field, its function and its
/// internal indications, whatever follows it.
pub proof fn lemma_response_header_roundtrip(h: ResponseHeader, objects: Seq<u8>)
    ensures
        spec_parse_fragment_header(h.bytes() + objects) matches Ok((c, f, iin, n)) && f
            == h.spec_function() && iin == Some(h.iin) && n == 4 && c.fir == h.control.fir
            && c.fin == h.control.fin && c.con == h.control.con && c.uns == h.control.uns
            && c.seq.spec_value() == h.control.seq.spec_value(),
        spec_parse_fragment_header(h.bytes() + objects) matches Ok((c, f, iin, n)) && (h.bytes()
            + objects).skip(n) == objects,
        h.control.seq.wf() ==> (spec_parse_fragment_header(h.bytes() + objects) matches Ok(
            (c, f, iin, n),
        ) && c == h.control),
{
    let s = h.bytes() + objects;
    if h.control.seq.wf() {
        h.control.lemma_control_roundtrip();
    }
    lemma_function_from_code(h.spec_function());
    h.control.lemma_code_then_from();
    assert(s[0] == h.control.code());
    assert(s[1] == h.spec_function().code());
    assert(s[2] == h.iin.iin0);
    assert(s[3] == h.iin.iin1);
    assert(s.skip(4) =~= objects);
}

} // verus!
