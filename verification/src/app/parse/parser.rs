use crate::app::gen::enums::{FunctionCode, QualifierCode};
use crate::app::gen::variations::all::AllObjectsVariation;
use crate::app::gen::variations::count::{spec_parse_count, CountModel, CountVariation};
use crate::app::gen::variations::prefixed::{spec_parse_prefixed, PrefixedModel, PrefixedVariation};
use crate::app::gen::variations::ranged::{
    spec_parse_non_read, spec_parse_read, RangedModel, RangedVariation,
};
use crate::app::gen::variations::variation::Variation;
use crate::app::header::{Control, RequestHeader, ResponseHeader, IIN};
use crate::app::parse::error::{
    HeaderParseError, ObjectParseError, RequestValidationError, ResponseValidationError,
};
use crate::app::parse::range::Range;
use crate::util::cursor::{le_u16, ReadCursor};
use vstd::prelude::*;

verus! {

broadcast use crate::app::parse::range::Range::lemma_spec_new;

/// Controls how transmitted and received ASDUs are logged
#[derive(Copy, Clone, Debug, PartialEq, Eq, Structural)]
pub enum DecodeLogLevel {
    /// Log nothing
    Nothing,
    /// Log the header-only
    Header,
    /// Log the header and the object headers
    ObjectHeaders,
    /// Log the header, the object headers, and the object values
    ObjectValues,
}

/// A log level together with the direction of the fragments it applies to
#[derive(Copy, Clone)]
pub struct DecodeSettings {
    is_transmit: bool,
    level: DecodeLogLevel,
}

impl DecodeSettings {
    /// whether the settings apply to transmitted fragments
    pub closed spec fn spec_is_transmit(self) -> bool {
        self.is_transmit
    }

    /// the level of detail to log
    pub closed spec fn spec_level(self) -> DecodeLogLevel {
        self.level
    }

    /// whether the settings apply to transmitted fragments
    pub fn is_transmit(&self) -> (b: bool)
        ensures
            b == self.spec_is_transmit(),
    {
        self.is_transmit
    }

    /// what the log shows of a fragment: `None` for nothing, else whether it
    /// shows the object headers after the fragment's header, and whether it
    /// shows their objects too
    pub fn shown_parts(&self) -> (r: Option<(bool, bool)>)
        ensures
            r == (match self.spec_level() {
                DecodeLogLevel::Nothing => None,
                DecodeLogLevel::Header => Some((false, false)),
                DecodeLogLevel::ObjectHeaders => Some((true, false)),
                DecodeLogLevel::ObjectValues => Some((true, true)),
            }),
    {
        match self.level {
            DecodeLogLevel::Nothing => None,
            DecodeLogLevel::Header => Some((false, false)),
            DecodeLogLevel::ObjectHeaders => Some((true, false)),
            DecodeLogLevel::ObjectValues => Some((true, true)),
        }
    }

    /// the level of detail to log
    pub fn level(&self) -> (l: DecodeLogLevel)
        ensures
            l == self.spec_level(),
    {
        self.level
    }
}

impl DecodeLogLevel {
    /// settings for transmitted fragments at this level
    pub fn transmit(self) -> (s: DecodeSettings)
        ensures
            s.spec_is_transmit(),
            s.spec_level() == self,
    {
        DecodeSettings { is_transmit: true, level: self }
    }

    /// settings for received fragments at this level
    pub fn receive(self) -> (s: DecodeSettings)
        ensures
            !s.spec_is_transmit(),
            s.spec_level() == self,
    {
        DecodeSettings { is_transmit: false, level: self }
    }
}

// ---------------------------------------------------------------------------
// the object headers of a fragment, as functions of its bytes
// ---------------------------------------------------------------------------

/// What the details of an object header hold, with the objects as bytes
pub enum DetailsModel {
    AllObjects(AllObjectsVariation),
    OneByteStartStop(u8, u8, RangedModel),
    TwoByteStartStop(u16, u16, RangedModel),
    OneByteCount(u8, CountModel),
    TwoByteCount(u16, CountModel),
    OneByteCountAndPrefix(u8, PrefixedModel),
    TwoByteCountAndPrefix(u16, PrefixedModel),
}

/// What an object header holds: its variation and its details
pub struct HeaderModel {
    pub variation: Variation,
    pub details: DetailsModel,
}

/// the objects of a ranged header read from `s`, with the number of bytes
/// read: a read request carries no object data
pub open spec fn spec_parse_ranged(
    function: FunctionCode,
    qualifier: QualifierCode,
    v: Variation,
    range: Range,
    s: Seq<u8>,
) -> Result<(RangedModel, int), ObjectParseError> {
    if function == FunctionCode::Read {
        match spec_parse_read(v, qualifier) {
            Ok(m) => Ok((m, 0int)),
            Err(e) => Err(e),
        }
    } else {
        match spec_parse_non_read(v, qualifier, range, s) {
            Ok((m, n)) => Ok((m, n as int)),
            Err(e) => Err(e),
        }
    }
}

/// the details of a header with a one-byte start and stop, read from `s`
pub open spec fn spec_parse_range8(function: FunctionCode, v: Variation, s: Seq<u8>) -> Result<
    (DetailsModel, int),
    ObjectParseError,
> {
    if s.len() < 2 {
        Err(ObjectParseError::InsufficientBytes)
    } else if s[1] < s[0] {
        Err(ObjectParseError::InvalidRange(s[0] as u16, s[1] as u16))
    } else {
        let range = Range::spec_new(s[0] as u16, s[1] as u16);
        match spec_parse_ranged(function, QualifierCode::Range8, v, range, s.skip(2)) {
            Ok((m, n)) => Ok((DetailsModel::OneByteStartStop(s[0], s[1], m), 2 + n)),
            Err(e) => Err(e),
        }
    }
}

/// the details of a header with a two-byte start and stop, read from `s`
pub open spec fn spec_parse_range16(function: FunctionCode, v: Variation, s: Seq<u8>) -> Result<
    (DetailsModel, int),
    ObjectParseError,
> {
    if s.len() < 4 {
        Err(ObjectParseError::InsufficientBytes)
    } else {
        let start = le_u16(s);
        let stop = le_u16(s.skip(2));
        if stop < start {
            Err(ObjectParseError::InvalidRange(start, stop))
        } else {
            let range = Range::spec_new(start, stop);
            match spec_parse_ranged(function, QualifierCode::Range16, v, range, s.skip(4)) {
                Ok((m, n)) => Ok((DetailsModel::TwoByteStartStop(start, stop, m), 4 + n)),
                Err(e) => Err(e),
            }
        }
    }
}

/// the details of a header with a one-byte count, read from `s`
pub open spec fn spec_parse_count8(v: Variation, s: Seq<u8>) -> Result<
    (DetailsModel, int),
    ObjectParseError,
> {
    if s.len() < 1 {
        Err(ObjectParseError::InsufficientBytes)
    } else {
        match spec_parse_count(v, QualifierCode::Count8, s[0] as u16, s.skip(1)) {
            Ok((m, n)) => Ok((DetailsModel::OneByteCount(s[0], m), 1 + n)),
            Err(e) => Err(e),
        }
    }
}

/// the details of a header with a two-byte count, read from `s`
pub open spec fn spec_parse_count16(v: Variation, s: Seq<u8>) -> Result<
    (DetailsModel, int),
    ObjectParseError,
> {
    if s.len() < 2 {
        Err(ObjectParseError::InsufficientBytes)
    } else {
        match spec_parse_count(v, QualifierCode::Count16, le_u16(s), s.skip(2)) {
            Ok((m, n)) => Ok((DetailsModel::TwoByteCount(le_u16(s), m), 2 + n)),
            Err(e) => Err(e),
        }
    }
}

/// the details of a header with a one-byte count and one-byte indices, read
/// from `s`
pub open spec fn spec_parse_prefix8(v: Variation, s: Seq<u8>) -> Result<
    (DetailsModel, int),
    ObjectParseError,
> {
    if s.len() < 1 {
        Err(ObjectParseError::InsufficientBytes)
    } else {
        match spec_parse_prefixed::<u8>(v, s[0] as u16, s.skip(1)) {
            Ok((m, n)) => Ok((DetailsModel::OneByteCountAndPrefix(s[0], m), 1 + n)),
            Err(e) => Err(e),
        }
    }
}

/// the details of a header with a two-byte count and two-byte indices, read
/// from `s`
pub open spec fn spec_parse_prefix16(v: Variation, s: Seq<u8>) -> Result<
    (DetailsModel, int),
    ObjectParseError,
> {
    if s.len() < 2 {
        Err(ObjectParseError::InsufficientBytes)
    } else {
        match spec_parse_prefixed::<u16>(v, le_u16(s), s.skip(2)) {
            Ok((m, n)) => Ok((DetailsModel::TwoByteCountAndPrefix(le_u16(s), m), 2 + n)),
            Err(e) => Err(e),
        }
    }
}

/// the details of a header of variation `v` and qualifier `q`, read from the
/// bytes `s` that follow the qualifier, with the number of bytes read
pub open spec fn spec_parse_details(
    function: FunctionCode,
    v: Variation,
    q: QualifierCode,
    s: Seq<u8>,
) -> Result<(DetailsModel, int), ObjectParseError> {
    match q {
        QualifierCode::AllObjects => match AllObjectsVariation::spec_get(v) {
            Some(a) => Ok((DetailsModel::AllObjects(a), 0int)),
            None => Err(ObjectParseError::InvalidQualifierForVariation(v, q)),
        },
        QualifierCode::Range8 => spec_parse_range8(function, v, s),
        QualifierCode::Range16 => spec_parse_range16(function, v, s),
        QualifierCode::Count8 => spec_parse_count8(v, s),
        QualifierCode::Count16 => spec_parse_count16(v, s),
        QualifierCode::CountAndPrefix8 => spec_parse_prefix8(v, s),
        QualifierCode::CountAndPrefix16 => spec_parse_prefix16(v, s),
        _ => Err(ObjectParseError::UnsupportedQualifierCode(q)),
    }
}

/// the object header at the start of `s`, with the number of bytes it takes:
/// group, variation and qualifier, then the details
pub open spec fn spec_parse_header(function: FunctionCode, s: Seq<u8>) -> Result<
    (HeaderModel, int),
    ObjectParseError,
> {
    if s.len() < 2 {
        Err(ObjectParseError::InsufficientBytes)
    } else {
        match Variation::spec_lookup(s[0], s[1]) {
            None => Err(ObjectParseError::UnknownGroupVariation(s[0], s[1])),
            Some(v) => if s.len() < 3 {
                Err(ObjectParseError::InsufficientBytes)
            } else {
                match QualifierCode::spec_from(s[2]) {
                    None => Err(ObjectParseError::UnknownQualifier(s[2])),
                    Some(q) => match spec_parse_details(function, v, q, s.skip(3)) {
                        Ok((d, n)) => Ok((HeaderModel { variation: v, details: d }, 3 + n)),
                        Err(e) => Err(e),
                    },
                }
            },
        }
    }
}

/// all object headers of `s`, one after the other, or the first error
pub open spec fn spec_parse_headers(function: FunctionCode, s: Seq<u8>) -> Result<
    Seq<HeaderModel>,
    ObjectParseError,
>
    decreases s.len(),
{
    if s.len() == 0 {
        Ok(Seq::empty())
    } else {
        match spec_parse_header(function, s) {
            Err(e) => Err(e),
            Ok((h, n)) => if 0 < n <= s.len() {
                match spec_parse_headers(function, s.skip(n)) {
                    Ok(rest) => Ok(seq![h] + rest),
                    Err(e) => Err(e),
                }
            } else {
                Err(ObjectParseError::InsufficientBytes)
            },
        }
    }
}

/// the object headers of `s` that come before the first error
pub open spec fn spec_headers_before_error(function: FunctionCode, s: Seq<u8>) -> Seq<HeaderModel>
    decreases s.len(),
{
    if s.len() == 0 {
        Seq::empty()
    } else {
        match spec_parse_header(function, s) {
            Err(_) => Seq::empty(),
            Ok((h, n)) => if 0 < n <= s.len() {
                seq![h] + spec_headers_before_error(function, s.skip(n))
            } else {
                Seq::empty()
            },
        }
    }
}

/// what reading the headers of `s` one at a time gives: each header, up to
/// and including the first error
pub open spec fn spec_one_pass(function: FunctionCode, s: Seq<u8>) -> Seq<
    Result<HeaderModel, ObjectParseError>,
>
    decreases s.len(),
{
    if s.len() == 0 {
        Seq::empty()
    } else {
        match spec_parse_header(function, s) {
            Err(e) => seq![Err(e)],
            Ok((h, n)) => if 0 < n <= s.len() {
                seq![Ok(h)] + spec_one_pass(function, s.skip(n))
            } else {
                seq![Err(ObjectParseError::InsufficientBytes)]
            },
        }
    }
}

proof fn lemma_skip_skip(s: Seq<u8>, a: int, b: int)
    requires
        0 <= a,
        0 <= b,
        a + b <= s.len(),
    ensures
        s.skip(a).skip(b) == s.skip(a + b),
{
    assert(s.skip(a).skip(b) =~= s.skip(a + b));
}

proof fn lemma_ranged_bounds(
    function: FunctionCode,
    qualifier: QualifierCode,
    v: Variation,
    range: Range,
    s: Seq<u8>,
)
    ensures
        spec_parse_ranged(function, qualifier, v, range, s) matches Ok((m, n)) ==> 0 <= n
            <= s.len(),
{
}

proof fn lemma_count_bounds(v: Variation, q: QualifierCode, count: u16, s: Seq<u8>)
    ensures
        spec_parse_count(v, q, count, s) matches Ok((m, n)) ==> 0 <= n <= s.len(),
{
    if let Some(z) = crate::app::gen::variations::count::count_object_size(v) {
        assert(count * z >= 0) by (nonlinear_arith)
            requires
                count >= 0,
                z >= 0,
        ;
    }
}

proof fn lemma_prefixed_bounds<I: crate::app::parse::traits::FixedSize + crate::app::parse::traits::Index>(
    v: Variation,
    count: u16,
    s: Seq<u8>,
)
    ensures
        spec_parse_prefixed::<I>(v, count, s) matches Ok((m, n)) ==> 0 <= n <= s.len(),
{
    let a = I::spec_size();
    match crate::app::gen::variations::prefixed::prefixed_layout(v) {
        Some(crate::app::gen::variations::prefixed::PrefixedLayout::Fixed(z)) => {
            assert(count * (a + z) >= 0) by (nonlinear_arith)
                requires
                    count >= 0,
                    a + z >= 0,
            ;
        },
        Some(crate::app::gen::variations::prefixed::PrefixedLayout::Octets(x)) => {
            assert((x + a) * count >= 0) by (nonlinear_arith)
                requires
                    count >= 0,
                    x + a >= 0,
            ;
        },
        None => {},
    }
}

/// the details of a header take no more bytes than there are
proof fn lemma_details_bounds(function: FunctionCode, v: Variation, q: QualifierCode, s: Seq<u8>)
    ensures
        spec_parse_details(function, v, q, s) matches Ok((d, n)) ==> 0 <= n <= s.len(),
{
    if s.len() >= 4 {
        lemma_ranged_bounds(
            function,
            QualifierCode::Range16,
            v,
            Range::spec_new(le_u16(s), le_u16(s.skip(2))),
            s.skip(4),
        );
    }
    if s.len() >= 2 {
        lemma_ranged_bounds(
            function,
            QualifierCode::Range8,
            v,
            Range::spec_new(s[0] as u16, s[1] as u16),
            s.skip(2),
        );
        lemma_count_bounds(v, QualifierCode::Count16, le_u16(s), s.skip(2));
        lemma_prefixed_bounds::<u16>(v, le_u16(s), s.skip(2));
    }
    if s.len() >= 1 {
        lemma_count_bounds(v, QualifierCode::Count8, s[0] as u16, s.skip(1));
        lemma_prefixed_bounds::<u8>(v, s[0] as u16, s.skip(1));
    }
}

/// an object header takes at least three bytes, and no more than there are
pub proof fn lemma_header_bounds(function: FunctionCode, s: Seq<u8>)
    ensures
        spec_parse_header(function, s) matches Ok((h, n)) ==> 3 <= n <= s.len(),
{
    if s.len() >= 3 {
        if let Some(v) = Variation::spec_lookup(s[0], s[1]) {
            if let Some(q) = QualifierCode::spec_from(s[2]) {
                lemma_details_bounds(function, v, q, s.skip(3));
            }
        }
    }
}

/// Where the object headers of `s` all parse, the headers read one by one up
/// to the first error are exactly those headers.
pub proof fn lemma_valid_headers_read_in_full(function: FunctionCode, s: Seq<u8>)
    requires
        spec_parse_headers(function, s) is Ok,
    ensures
        spec_parse_headers(function, s) == Ok::<Seq<HeaderModel>, ObjectParseError>(
            spec_headers_before_error(function, s),
        ),
    decreases s.len(),
{
    if s.len() > 0 {
        lemma_header_bounds(function, s);
        if let Ok((h, n)) = spec_parse_header(function, s) {
            lemma_valid_headers_read_in_full(function, s.skip(n));
        }
    }
}

/// The object headers of `s` all parse exactly where reading them one at a
/// time meets no error; then they are the headers read, in order. Otherwise
/// the error is the first one met, and the reading stops there.
pub proof fn lemma_headers_are_one_pass(function: FunctionCode, s: Seq<u8>)
    ensures
        ({
            let items = spec_one_pass(function, s);
            &&& (spec_parse_headers(function, s) is Ok) <==> (forall|i: int|
                0 <= i < items.len() ==> (#[trigger] items[i]) is Ok)
            &&& spec_parse_headers(function, s) matches Ok(hs) ==> hs.len() == items.len()
                && forall|i: int|
                0 <= i < items.len() ==> #[trigger] items[i] == Ok::<
                    HeaderModel,
                    ObjectParseError,
                >(hs[i])
            &&& spec_parse_headers(function, s) matches Err(e) ==> items.len() > 0 && items.last()
                == Err::<HeaderModel, ObjectParseError>(e) && forall|i: int|
                0 <= i < items.len() - 1 ==> (#[trigger] items[i]) is Ok
        }),
    decreases s.len(),
{
    lemma_header_bounds(function, s);
    if s.len() > 0 {
        if let Ok((h, n)) = spec_parse_header(function, s) {
            let rest = s.skip(n);
            lemma_headers_are_one_pass(function, rest);
            let items = spec_one_pass(function, s);
            let tail = spec_one_pass(function, rest);
            assert(items == seq![Ok::<HeaderModel, ObjectParseError>(h)] + tail);
            assert forall|i: int| 0 < i < items.len() implies items[i] == tail[i - 1] by {}
            if spec_parse_headers(function, rest) is Ok {
                let hs = spec_parse_headers(function, s)->Ok_0;
                assert forall|i: int| 0 <= i < items.len() implies #[trigger] items[i] == Ok::<
                    HeaderModel,
                    ObjectParseError,
                >(hs[i]) by {
                    if i > 0 {
                        assert(hs[i] == spec_parse_headers(function, rest)->Ok_0[i - 1]);
                    }
                }
            } else {
                assert(!(items[tail.len() as int] is Ok));
            }
        }
    }
}

// ---------------------------------------------------------------------------
// the exec side
// ---------------------------------------------------------------------------

/// The details of an object header: its qualifier's values and its objects
#[derive(Debug, PartialEq)]
pub enum HeaderDetails<'a> {
    AllObjects(AllObjectsVariation),
    OneByteStartStop(u8, u8, RangedVariation<'a>),
    TwoByteStartStop(u16, u16, RangedVariation<'a>),
    OneByteCount(u8, CountVariation<'a>),
    TwoByteCount(u16, CountVariation<'a>),
    OneByteCountAndPrefix(u8, PrefixedVariation<'a, u8>),
    TwoByteCountAndPrefix(u16, PrefixedVariation<'a, u16>),
}

impl<'a> HeaderDetails<'a> {
    pub open spec fn spec_model(&self) -> DetailsModel {
        match self {
            HeaderDetails::AllObjects(a) => DetailsModel::AllObjects(*a),
            HeaderDetails::OneByteStartStop(s1, s2, seq) => DetailsModel::OneByteStartStop(
                *s1,
                *s2,
                seq.spec_model(),
            ),
            HeaderDetails::TwoByteStartStop(s1, s2, seq) => DetailsModel::TwoByteStartStop(
                *s1,
                *s2,
                seq.spec_model(),
            ),
            HeaderDetails::OneByteCount(c, seq) => DetailsModel::OneByteCount(*c, seq.spec_model()),
            HeaderDetails::TwoByteCount(c, seq) => DetailsModel::TwoByteCount(*c, seq.spec_model()),
            HeaderDetails::OneByteCountAndPrefix(c, seq) => DetailsModel::OneByteCountAndPrefix(
                *c,
                seq.spec_model(),
            ),
            HeaderDetails::TwoByteCountAndPrefix(c, seq) => DetailsModel::TwoByteCountAndPrefix(
                *c,
                seq.spec_model(),
            ),
        }
    }

    /// the objects agree with their variation
    pub open spec fn spec_wf(&self) -> bool {
        match self {
            HeaderDetails::OneByteStartStop(_, _, seq) => seq.spec_wf(),
            HeaderDetails::TwoByteStartStop(_, _, seq) => seq.spec_wf(),
            HeaderDetails::OneByteCountAndPrefix(_, seq) => seq.spec_wf(),
            HeaderDetails::TwoByteCountAndPrefix(_, seq) => seq.spec_wf(),
            _ => true,
        }
    }

    /// the qualifier that goes with these details
    pub fn qualifier(&self) -> (q: QualifierCode)
        ensures
            q == (match self {
                HeaderDetails::AllObjects(_) => QualifierCode::AllObjects,
                HeaderDetails::OneByteStartStop(_, _, _) => QualifierCode::Range8,
                HeaderDetails::TwoByteStartStop(_, _, _) => QualifierCode::Range16,
                HeaderDetails::OneByteCount(_, _) => QualifierCode::Count8,
                HeaderDetails::TwoByteCount(_, _) => QualifierCode::Count16,
                HeaderDetails::OneByteCountAndPrefix(_, _) => QualifierCode::CountAndPrefix8,
                HeaderDetails::TwoByteCountAndPrefix(_, _) => QualifierCode::CountAndPrefix16,
            }),
    {
        match self {
            HeaderDetails::AllObjects(_) => QualifierCode::AllObjects,
            HeaderDetails::OneByteStartStop(_, _, _) => QualifierCode::Range8,
            HeaderDetails::TwoByteStartStop(_, _, _) => QualifierCode::Range16,
            HeaderDetails::OneByteCount(_, _) => QualifierCode::Count8,
            HeaderDetails::TwoByteCount(_, _) => QualifierCode::Count16,
            HeaderDetails::OneByteCountAndPrefix(_, _) => QualifierCode::CountAndPrefix8,
            HeaderDetails::TwoByteCountAndPrefix(_, _) => QualifierCode::CountAndPrefix16,
        }
    }
}

/// An object header: a variation and its details
#[derive(Debug, PartialEq)]
pub struct ObjectHeader<'a> {
    pub variation: Variation,
    pub details: HeaderDetails<'a>,
}

impl<'a> ObjectHeader<'a> {
    pub open spec fn spec_model(&self) -> HeaderModel {
        HeaderModel { variation: self.variation, details: self.details.spec_model() }
    }

    pub open spec fn spec_wf(&self) -> bool {
        self.details.spec_wf()
    }

    pub fn new(variation: Variation, details: HeaderDetails<'a>) -> (h: Self)
        ensures
            h.variation == variation,
            h.details == details,
    {
        Self { variation, details }
    }
}

/// `r` is what reading a header of variation `v` gives where the details
/// read from `before` were to be `expected`, leaving `after`
pub open spec fn header_read<'a>(
    r: Result<ObjectHeader<'a>, ObjectParseError>,
    v: Variation,
    expected: Result<(DetailsModel, int), ObjectParseError>,
    before: Seq<u8>,
    after: Seq<u8>,
) -> bool {
    match expected {
        Ok((d, n)) => r is Ok && r.unwrap().spec_model() == (HeaderModel {
            variation: v,
            details: d,
        }) && r.unwrap().spec_wf() && after == before.skip(n),
        Err(e) => r == Err::<ObjectHeader<'a>, ObjectParseError>(e),
    }
}

impl Variation {
    /// reads a group and a variation number
    pub fn parse(cursor: &mut ReadCursor) -> (res: Result<Variation, ObjectParseError>)
        ensures
            old(cursor)@.len() < 2 ==> res == Err::<Variation, ObjectParseError>(
                ObjectParseError::InsufficientBytes,
            ),
            old(cursor)@.len() >= 2 ==> match Variation::spec_lookup(old(cursor)@[0], old(cursor)@[1]) {
                Some(v) => res == Ok::<Variation, ObjectParseError>(v) && final(cursor)@ == old(
                    cursor,
                )@.skip(2),
                None => res == Err::<Variation, ObjectParseError>(
                    ObjectParseError::UnknownGroupVariation(old(cursor)@[0], old(cursor)@[1]),
                ) && final(cursor)@ == old(cursor)@.skip(2),
            },
    {
        let ghost s = cursor@;
        let group = match cursor.read_u8() {
            Ok(x) => x,
            Err(_) => return Err(ObjectParseError::InsufficientBytes),
        };
        let var = match cursor.read_u8() {
            Ok(x) => x,
            Err(_) => return Err(ObjectParseError::InsufficientBytes),
        };
        proof {
            lemma_skip_skip(s, 1, 1);
        }
        match Self::lookup(group, var) {
            Some(gv) => Ok(gv),
            None => Err(ObjectParseError::UnknownGroupVariation(group, var)),
        }
    }
}

impl QualifierCode {
    /// reads a qualifier code
    pub fn parse(cursor: &mut ReadCursor) -> (res: Result<QualifierCode, ObjectParseError>)
        ensures
            old(cursor)@.len() < 1 ==> res == Err::<QualifierCode, ObjectParseError>(
                ObjectParseError::InsufficientBytes,
            ),
            old(cursor)@.len() >= 1 ==> match QualifierCode::spec_from(old(cursor)@[0]) {
                Some(q) => res == Ok::<QualifierCode, ObjectParseError>(q) && final(cursor)@ == old(
                    cursor,
                )@.skip(1),
                None => res == Err::<QualifierCode, ObjectParseError>(
                    ObjectParseError::UnknownQualifier(old(cursor)@[0]),
                ) && final(cursor)@ == old(cursor)@.skip(1),
            },
    {
        let x = match cursor.read_u8() {
            Ok(x) => x,
            Err(_) => return Err(ObjectParseError::InsufficientBytes),
        };
        match Self::from(x) {
            Some(qc) => Ok(qc),
            None => Err(ObjectParseError::UnknownQualifier(x)),
        }
    }
}

impl<'a> RangedVariation<'a> {
    /// reads the objects of a ranged header: none where the function is a read
    pub fn parse(
        function: FunctionCode,
        qualifier: QualifierCode,
        v: Variation,
        range: Range,
        cursor: &mut ReadCursor<'a>,
    ) -> (res: Result<RangedVariation<'a>, ObjectParseError>)
        ensures
            match spec_parse_ranged(function, qualifier, v, range, old(cursor)@) {
                Ok((m, n)) => res is Ok && res.unwrap().spec_model() == m && res.unwrap().spec_wf()
                    && final(cursor)@ == old(cursor)@.skip(n),
                Err(e) => res == Err::<RangedVariation<'a>, ObjectParseError>(e),
            },
    {
        proof {
            assert(cursor@.skip(0) =~= cursor@);
        }
        match function {
            FunctionCode::Read => Self::parse_read(v, qualifier),
            _ => Self::parse_non_read(v, qualifier, range, cursor),
        }
    }
}

/// Reads the object headers of a fragment one at a time, and stops at the
/// first error
pub struct ObjectParser<'a> {
    errored: bool,
    function: FunctionCode,
    cursor: ReadCursor<'a>,
}

impl<'a> ObjectParser<'a> {
    /// the object headers still to be read
    pub closed spec fn spec_items(&self) -> Seq<HeaderModel> {
        if self.errored {
            Seq::empty()
        } else {
            spec_headers_before_error(self.function, self.cursor@)
        }
    }

    /// checks that every object header of `data` parses, and gives back the
    /// collection of them, or the first error
    pub fn parse(function: FunctionCode, data: &'a [u8]) -> (res: Result<
        HeaderCollection<'a>,
        ObjectParseError,
    >)
        ensures
            collection_read(res, function, data@),
    {
        let mut parser = ObjectParser::one_pass(function, data);
        loop
            invariant
                parser.function == function,
                !parser.errored,
                spec_parse_headers(function, data@) is Ok ==> spec_parse_headers(
                    function,
                    parser.cursor@,
                ) is Ok,
                spec_parse_headers(function, data@) is Err ==> spec_parse_headers(
                    function,
                    parser.cursor@,
                ) == spec_parse_headers(function, data@),
            ensures
                parser.cursor@.len() == 0,
            decreases parser.cursor@.len(),
        {
            let ghost before = parser.cursor@;
            proof {
                lemma_header_bounds(function, before);
            }
            match parser.parse_one() {
                None => {
                    break ;
                },
                Some(Err(err)) => {
                    return Err(err);
                },
                Some(Ok(_)) => {},
            }
        }
        Ok(HeaderCollection { function, data })
    }

    /// whether a header failed to parse
    pub closed spec fn spec_errored(&self) -> bool {
        self.errored
    }

    /// the function code the headers are read for
    pub closed spec fn spec_function(&self) -> FunctionCode {
        self.function
    }

    /// the bytes not read yet
    pub closed spec fn spec_remaining(&self) -> Seq<u8> {
        self.cursor@
    }

    /// what the parser still gives: each header, up to and including the
    /// first error
    pub closed spec fn spec_pending(&self) -> Seq<Result<HeaderModel, ObjectParseError>> {
        if self.errored {
            Seq::empty()
        } else {
            spec_one_pass(self.function, self.cursor@)
        }
    }

    /// a parser that reads the headers of `data` one at a time
    pub fn one_pass(function: FunctionCode, data: &'a [u8]) -> (p: Self)
        ensures
            !p.spec_errored(),
            p.spec_function() == function,
            p.spec_remaining() == data@,
            p.spec_pending() == spec_one_pass(function, data@),
    {
        ObjectParser { cursor: ReadCursor::new(data), function, errored: false }
    }

    /// the next header or the error that stopped the parser; `None` after an
    /// error or at the end of the bytes
    pub fn next_header(&mut self) -> (r: Option<Result<ObjectHeader<'a>, ObjectParseError>>)
        ensures
            final(self).spec_function() == old(self).spec_function(),
            old(self).spec_errored() || old(self).spec_remaining().len() == 0 ==> r is None
                && *final(self) == *old(self),
            !old(self).spec_errored() && old(self).spec_remaining().len() > 0 ==> match spec_parse_header(
                old(self).spec_function(),
                old(self).spec_remaining(),
            ) {
                Ok((h, n)) => r matches Some(Ok(x)) && x.spec_model() == h && x.spec_wf()
                    && !final(self).spec_errored() && final(self).spec_remaining() == old(
                    self,
                ).spec_remaining().skip(n),
                Err(e) => r == Some(Err::<ObjectHeader<'a>, ObjectParseError>(e))
                    && final(self).spec_errored(),
            },
            old(self).spec_pending().len() == 0 ==> r is None && final(self).spec_pending()
                == old(self).spec_pending(),
            old(self).spec_pending().len() > 0 ==> r is Some && final(self).spec_pending() == old(
                self,
            ).spec_pending().drop_first() && match old(self).spec_pending()[0] {
                Ok(h) => (r matches Some(Ok(x)) && x.spec_model() == h && x.spec_wf()),
                Err(e) => r == Some(Err::<ObjectHeader<'a>, ObjectParseError>(e)),
            },
    {
        proof {
            lemma_header_bounds(self.function, self.cursor@);
        }
        let r = self.parse_one();
        proof {
            if let Some(Ok(_)) = r {
                assert(old(self).spec_pending().drop_first() =~= self.spec_pending());
            }
            if let Some(Err(_)) = r {
                assert(old(self).spec_pending().drop_first() =~= self.spec_pending());
            }
        }
        r
    }

    fn parse_one(&mut self) -> (r: Option<Result<ObjectHeader<'a>, ObjectParseError>>)
        ensures
            final(self).function == old(self).function,
            old(self).errored || old(self).cursor@.len() == 0 ==> r is None && *final(self)
                == *old(self),
            !old(self).errored && old(self).cursor@.len() > 0 ==> match spec_parse_header(
                old(self).function,
                old(self).cursor@,
            ) {
                Ok((h, n)) => r matches Some(Ok(x)) && x.spec_model() == h && x.spec_wf()
                    && !final(self).errored && final(self).cursor@ == old(self).cursor@.skip(n),
                Err(e) => r == Some(Err::<ObjectHeader<'a>, ObjectParseError>(e))
                    && final(self).errored,
            },
    {
        if self.errored || self.cursor.is_empty() {
            return None;
        }
        let result = self.parse_one_inner();

        if result.is_err() {
            self.errored = true;
        }
        Some(result)
    }

    fn parse_one_inner(&mut self) -> (r: Result<ObjectHeader<'a>, ObjectParseError>)
        ensures
            final(self).function == old(self).function,
            final(self).errored == old(self).errored,
            match spec_parse_header(old(self).function, old(self).cursor@) {
                Ok((h, n)) => r is Ok && r.unwrap().spec_model() == h && r.unwrap().spec_wf()
                    && final(self).cursor@ == old(self).cursor@.skip(n),
                Err(e) => r == Err::<ObjectHeader<'a>, ObjectParseError>(e),
            },
    {
        let ghost s = self.cursor@;
        let gv = Variation::parse(&mut self.cursor)?;
        let qualifier = QualifierCode::parse(&mut self.cursor)?;
        proof {
            lemma_skip_skip(s, 2, 1);
            lemma_details_bounds(self.function, gv, qualifier, s.skip(3));
        }
        let ghost t = self.cursor@;
        let r = match qualifier {
            QualifierCode::AllObjects => self.parse_all_objects(gv),
            QualifierCode::Range8 => self.parse_start_stop_u8(gv),
            QualifierCode::Range16 => self.parse_start_stop_u16(gv),
            QualifierCode::Count8 => self.parse_count_u8(gv),
            QualifierCode::Count16 => self.parse_count_u16(gv),
            QualifierCode::CountAndPrefix8 => self.parse_count_and_prefix_u8(gv),
            QualifierCode::CountAndPrefix16 => self.parse_count_and_prefix_u16(gv),
            _ => Err(ObjectParseError::UnsupportedQualifierCode(qualifier)),
        };
        proof {
            if let Ok((d, n)) = spec_parse_details(self.function, gv, qualifier, t) {
                lemma_skip_skip(s, 3, n);
            }
        }
        r
    }

    fn parse_all_objects(&mut self, v: Variation) -> (r: Result<ObjectHeader<'a>, ObjectParseError>)
        ensures
            final(self).function == old(self).function,
            final(self).errored == old(self).errored,
            header_read(
                r,
                v,
                spec_parse_details(old(self).function, v, QualifierCode::AllObjects, old(self).cursor@),
                old(self).cursor@,
                final(self).cursor@,
            ),
    {
        proof {
            assert(self.cursor@.skip(0) =~= self.cursor@);
        }
        match AllObjectsVariation::get(v) {
            Some(av) => Ok(ObjectHeader::new(v, HeaderDetails::AllObjects(av))),
            None => Err(ObjectParseError::InvalidQualifierForVariation(v, QualifierCode::AllObjects)),
        }
    }

    fn parse_count_u8(&mut self, v: Variation) -> (r: Result<ObjectHeader<'a>, ObjectParseError>)
        ensures
            final(self).function == old(self).function,
            final(self).errored == old(self).errored,
            header_read(
                r,
                v,
                spec_parse_details(old(self).function, v, QualifierCode::Count8, old(self).cursor@),
                old(self).cursor@,
                final(self).cursor@,
            ),
    {
        let ghost s = self.cursor@;
        let count = match self.cursor.read_u8() {
            Ok(x) => x,
            Err(_) => return Err(ObjectParseError::InsufficientBytes),
        };
        proof {
            lemma_count_bounds(v, QualifierCode::Count8, count as u16, s.skip(1));
        }
        let data = CountVariation::parse(v, QualifierCode::Count8, count as u16, &mut self.cursor)?;
        proof {
            if let Ok((m, n)) = spec_parse_count(v, QualifierCode::Count8, count as u16, s.skip(1)) {
                lemma_skip_skip(s, 1, n);
            }
        }
        Ok(ObjectHeader::new(v, HeaderDetails::OneByteCount(count, data)))
    }

    fn parse_count_u16(&mut self, v: Variation) -> (r: Result<ObjectHeader<'a>, ObjectParseError>)
        ensures
            final(self).function == old(self).function,
            final(self).errored == old(self).errored,
            header_read(
                r,
                v,
                spec_parse_details(old(self).function, v, QualifierCode::Count16, old(self).cursor@),
                old(self).cursor@,
                final(self).cursor@,
            ),
    {
        let ghost s = self.cursor@;
        let count = match self.cursor.read_u16_le() {
            Ok(x) => x,
            Err(_) => return Err(ObjectParseError::InsufficientBytes),
        };
        proof {
            lemma_count_bounds(v, QualifierCode::Count16, count, s.skip(2));
        }
        let data = CountVariation::parse(v, QualifierCode::Count16, count, &mut self.cursor)?;
        proof {
            if let Ok((m, n)) = spec_parse_count(v, QualifierCode::Count16, count, s.skip(2)) {
                lemma_skip_skip(s, 2, n);
            }
        }
        Ok(ObjectHeader::new(v, HeaderDetails::TwoByteCount(count, data)))
    }

    fn parse_start_stop_u8(&mut self, v: Variation) -> (r: Result<ObjectHeader<'a>, ObjectParseError>)
        ensures
            final(self).function == old(self).function,
            final(self).errored == old(self).errored,
            header_read(
                r,
                v,
                spec_parse_details(old(self).function, v, QualifierCode::Range8, old(self).cursor@),
                old(self).cursor@,
                final(self).cursor@,
            ),
    {
        let ghost s = self.cursor@;
        let start = match self.cursor.read_u8() {
            Ok(x) => x,
            Err(_) => return Err(ObjectParseError::InsufficientBytes),
        };
        let stop = match self.cursor.read_u8() {
            Ok(x) => x,
            Err(_) => return Err(ObjectParseError::InsufficientBytes),
        };
        proof {
            lemma_skip_skip(s, 1, 1);
        }
        let range = match Range::from(start as u16, stop as u16) {
            Ok(r) => r,
            Err(e) => return Err(ObjectParseError::from(e)),
        };
        proof {
            lemma_ranged_bounds(self.function, QualifierCode::Range8, v, range, s.skip(2));
        }
        let data = RangedVariation::parse(
            self.function,
            QualifierCode::Range8,
            v,
            range,
            &mut self.cursor,
        )?;
        proof {
            if let Ok((m, n)) = spec_parse_ranged(
                self.function,
                QualifierCode::Range8,
                v,
                range,
                s.skip(2),
            ) {
                lemma_skip_skip(s, 2, n);
            }
        }
        Ok(ObjectHeader::new(v, HeaderDetails::OneByteStartStop(start, stop, data)))
    }

    fn parse_start_stop_u16(&mut self, v: Variation) -> (r: Result<ObjectHeader<'a>, ObjectParseError>)
        ensures
            final(self).function == old(self).function,
            final(self).errored == old(self).errored,
            header_read(
                r,
                v,
                spec_parse_details(old(self).function, v, QualifierCode::Range16, old(self).cursor@),
                old(self).cursor@,
                final(self).cursor@,
            ),
    {
        let ghost s = self.cursor@;
        let start = match self.cursor.read_u16_le() {
            Ok(x) => x,
            Err(_) => return Err(ObjectParseError::InsufficientBytes),
        };
        let stop = match self.cursor.read_u16_le() {
            Ok(x) => x,
            Err(_) => return Err(ObjectParseError::InsufficientBytes),
        };
        proof {
            lemma_skip_skip(s, 2, 2);
        }
        let range = match Range::from(start, stop) {
            Ok(r) => r,
            Err(e) => return Err(ObjectParseError::from(e)),
        };
        proof {
            lemma_ranged_bounds(self.function, QualifierCode::Range16, v, range, s.skip(4));
        }
        let data = RangedVariation::parse(
            self.function,
            QualifierCode::Range16,
            v,
            range,
            &mut self.cursor,
        )?;
        proof {
            if let Ok((m, n)) = spec_parse_ranged(
                self.function,
                QualifierCode::Range16,
                v,
                range,
                s.skip(4),
            ) {
                lemma_skip_skip(s, 4, n);
            }
        }
        Ok(ObjectHeader::new(v, HeaderDetails::TwoByteStartStop(start, stop, data)))
    }

    fn parse_count_and_prefix_u8(&mut self, v: Variation) -> (r: Result<
        ObjectHeader<'a>,
        ObjectParseError,
    >)
        ensures
            final(self).function == old(self).function,
            final(self).errored == old(self).errored,
            header_read(
                r,
                v,
                spec_parse_details(
                    old(self).function,
                    v,
                    QualifierCode::CountAndPrefix8,
                    old(self).cursor@,
                ),
                old(self).cursor@,
                final(self).cursor@,
            ),
    {
        let ghost s = self.cursor@;
        let count = match self.cursor.read_u8() {
            Ok(x) => x,
            Err(_) => return Err(ObjectParseError::InsufficientBytes),
        };
        proof {
            lemma_prefixed_bounds::<u8>(v, count as u16, s.skip(1));
        }
        let data = PrefixedVariation::<u8>::parse(v, count as u16, &mut self.cursor)?;
        proof {
            if let Ok((m, n)) = spec_parse_prefixed::<u8>(v, count as u16, s.skip(1)) {
                lemma_skip_skip(s, 1, n);
            }
        }
        Ok(ObjectHeader::new(v, HeaderDetails::OneByteCountAndPrefix(count, data)))
    }

    fn parse_count_and_prefix_u16(&mut self, v: Variation) -> (r: Result<
        ObjectHeader<'a>,
        ObjectParseError,
    >)
        ensures
            final(self).function == old(self).function,
            final(self).errored == old(self).errored,
            header_read(
                r,
                v,
                spec_parse_details(
                    old(self).function,
                    v,
                    QualifierCode::CountAndPrefix16,
                    old(self).cursor@,
                ),
                old(self).cursor@,
                final(self).cursor@,
            ),
    {
        let ghost s = self.cursor@;
        let count = match self.cursor.read_u16_le() {
            Ok(x) => x,
            Err(_) => return Err(ObjectParseError::InsufficientBytes),
        };
        proof {
            lemma_prefixed_bounds::<u16>(v, count, s.skip(2));
        }
        let data = PrefixedVariation::<u16>::parse(v, count, &mut self.cursor)?;
        proof {
            if let Ok((m, n)) = spec_parse_prefixed::<u16>(v, count, s.skip(2)) {
                lemma_skip_skip(s, 2, n);
            }
        }
        Ok(ObjectHeader::new(v, HeaderDetails::TwoByteCountAndPrefix(count, data)))
    }
}

/// `res` is what checking the object headers of `data` gives: the collection
/// where every header parses, else the first error
pub open spec fn collection_read<'a>(
    res: Result<HeaderCollection<'a>, ObjectParseError>,
    function: FunctionCode,
    data: Seq<u8>,
) -> bool {
    match spec_parse_headers(function, data) {
        Ok(_) => res is Ok && res.unwrap().spec_function() == function && res.unwrap().spec_data()
            == data,
        Err(e) => res == Err::<HeaderCollection<'a>, ObjectParseError>(e),
    }
}

/// An abstract collection of pre-validated object headers
/// that can provide an iterator of the headers.
#[derive(Copy, Clone, Debug, PartialEq)]
pub struct HeaderCollection<'a> {
    function: FunctionCode,
    data: &'a [u8],
}

impl<'a> HeaderCollection<'a> {
    #[verifier::type_invariant]
    closed spec fn inv(self) -> bool {
        spec_parse_headers(self.function, self.data@) is Ok
    }

    /// the function code the headers were read for
    pub closed spec fn spec_function(self) -> FunctionCode {
        self.function
    }

    /// the bytes of the headers
    pub closed spec fn spec_data(self) -> Seq<u8> {
        self.data@
    }

    /// parse the the raw header data in accordance with the provided function code
    pub fn parse(function: FunctionCode, data: &'a [u8]) -> (res: Result<Self, ObjectParseError>)
        ensures
            collection_read(res, function, data@),
    {
        ObjectParser::parse(function, data)
    }

    pub fn is_empty(&self) -> (b: bool)
        ensures
            b == (self.spec_data().len() == 0),
    {
        self.data.len() == 0
    }

    /// return and iterator of the headers that lazily parses them
    pub fn iter(&self) -> (it: HeaderIterator<'a>)
        ensures
            spec_parse_headers(self.spec_function(), self.spec_data()) == Ok::<
                Seq<HeaderModel>,
                ObjectParseError,
            >(it.spec_items()),
    {
        proof {
            use_type_invariant(self);
            lemma_valid_headers_read_in_full(self.function, self.data@);
        }
        HeaderIterator { parser: ObjectParser::one_pass(self.function, self.data) }
    }
}

/// Yields the object headers of a collection, in order
pub struct HeaderIterator<'a> {
    parser: ObjectParser<'a>,
}

impl<'a> HeaderIterator<'a> {
    /// the headers still to come
    pub closed spec fn spec_items(&self) -> Seq<HeaderModel> {
        self.parser.spec_items()
    }

    /// the next header, or `None` after the last
    pub fn next(&mut self) -> (r: Option<ObjectHeader<'a>>)
        ensures
            old(self).spec_items().len() == 0 ==> r is None && final(self).spec_items() == old(
                self,
            ).spec_items(),
            old(self).spec_items().len() > 0 ==> (r matches Some(x) && x.spec_model() == old(
                self,
            ).spec_items()[0] && x.spec_wf() && final(self).spec_items() == old(
                self,
            ).spec_items().drop_first()),
    {
        proof {
            lemma_header_bounds(self.parser.function, self.parser.cursor@);
        }
        match self.parser.parse_one() {
            None => None,
            Some(Ok(x)) => Some(x),
            // this cannot happen where the headers were checked first
            Some(Err(_)) => None,
        }
    }

    /// all the headers still to come, in order
    pub fn collect_remaining(&mut self) -> (v: Vec<ObjectHeader<'a>>)
        ensures
            v@.len() == old(self).spec_items().len(),
            forall|i: int|
                0 <= i < v@.len() ==> #[trigger] v@[i].spec_model() == old(self).spec_items()[i]
                    && v@[i].spec_wf(),
            final(self).spec_items().len() == 0,
    {
        let ghost items = self.spec_items();
        let mut v: Vec<ObjectHeader<'a>> = Vec::new();
        loop
            invariant
                v@.len() + self.spec_items().len() == items.len(),
                self.spec_items() == items.skip(v@.len() as int),
                forall|i: int|
                    0 <= i < v@.len() ==> #[trigger] v@[i].spec_model() == items[i]
                        && v@[i].spec_wf(),
            ensures
                self.spec_items().len() == 0,
            decreases self.spec_items().len(),
        {
            let ghost before = self.spec_items();
            match self.next() {
                None => {
                    break ;
                },
                Some(x) => {
                    proof {
                        assert(items.skip(v@.len() as int).drop_first() =~= items.skip(
                            v@.len() + 1int,
                        ));
                    }
                    v.push(x);
                },
            }
        }
        v
    }
}

/// A request fragment: its header and its object headers
#[derive(Copy, Clone, Debug, PartialEq)]
pub struct Request<'a> {
    pub header: RequestHeader,
    pub raw_objects: &'a [u8],
    pub objects: Result<HeaderCollection<'a>, ObjectParseError>,
}

/// A response fragment: its header and its object headers
#[derive(Copy, Clone, Debug, PartialEq)]
pub struct Response<'a> {
    pub header: ResponseHeader,
    pub raw_objects: &'a [u8],
    pub objects: Result<HeaderCollection<'a>, ObjectParseError>,
}

/// the header of a fragment read from `s`: control, function, internal
/// indications where the function is a response, and the number of bytes
pub open spec fn spec_parse_fragment_header(s: Seq<u8>) -> Result<
    (Control, FunctionCode, Option<IIN>, int),
    HeaderParseError,
> {
    if s.len() < 2 {
        Err(HeaderParseError::InsufficientBytes)
    } else {
        match FunctionCode::spec_from(s[1]) {
            None => Err(HeaderParseError::UnknownFunction(s[1])),
            Some(f) => if f == FunctionCode::Response || f == FunctionCode::UnsolicitedResponse {
                if s.len() < 4 {
                    Err(HeaderParseError::InsufficientBytes)
                } else {
                    Ok((Control::spec_from(s[0]), f, Some(IIN { iin0: s[2], iin1: s[3] }), 4int))
                }
            } else {
                Ok((Control::spec_from(s[0]), f, None, 2int))
            },
        }
    }
}

/// A fragment split into its header and its object headers
pub struct ParsedFragment<'a> {
    pub control: Control,
    pub function: FunctionCode,
    pub iin: Option<IIN>,
    pub objects: Result<HeaderCollection<'a>, ObjectParseError>,
    pub raw_objects: &'a [u8],
}

/// `res` is what parsing the fragment `s` gives
pub open spec fn fragment_read<'a>(
    res: Result<ParsedFragment<'a>, HeaderParseError>,
    s: Seq<u8>,
) -> bool {
    match spec_parse_fragment_header(s) {
        Err(e) => res == Err::<ParsedFragment<'a>, HeaderParseError>(e),
        Ok((control, function, iin, n)) => res is Ok && res.unwrap().control == control
            && res.unwrap().function == function && res.unwrap().iin == iin
            && res.unwrap().raw_objects@ == s.skip(n) && collection_read(
            res.unwrap().objects,
            function,
            s.skip(n),
        ),
    }
}

impl<'a> ParsedFragment<'a> {
    /// checks the header of a request: no internal indications, FIR and FIN
    /// set, and the UNS bit only on a confirm
    pub fn to_request(&self) -> (r: Result<Request<'a>, RequestValidationError>)
        ensures
            self.iin is Some ==> r == Err::<Request<'a>, RequestValidationError>(
                RequestValidationError::UnexpectedFunction(self.function),
            ),
            self.iin is None && !(self.control.fir && self.control.fin) ==> r == Err::<
                Request<'a>,
                RequestValidationError,
            >(RequestValidationError::NonFirFin),
            self.iin is None && self.control.fir && self.control.fin && self.control.uns
                && self.function != FunctionCode::Confirm ==> r == Err::<
                Request<'a>,
                RequestValidationError,
            >(RequestValidationError::UnexpectedUnsBit(self.function)),
            self.iin is None && self.control.fir && self.control.fin && (!self.control.uns
                || self.function == FunctionCode::Confirm) ==> r == Ok::<
                Request<'a>,
                RequestValidationError,
            >(
                Request {
                    header: RequestHeader { control: self.control, function: self.function },
                    raw_objects: self.raw_objects,
                    objects: self.objects,
                },
            ),
    {
        if self.iin.is_some() {
            return Err(RequestValidationError::UnexpectedFunction(self.function));
        }
        if !(self.control.is_fir_and_fin()) {
            return Err(RequestValidationError::NonFirFin);
        }
        let is_confirm = match self.function {
            FunctionCode::Confirm => true,
            _ => false,
        };
        if self.control.uns && !is_confirm {
            return Err(RequestValidationError::UnexpectedUnsBit(self.function));
        }
        Ok(
            Request {
                header: RequestHeader::new(self.control, self.function),
                raw_objects: self.raw_objects,
                objects: self.objects,
            },
        )
    }

    /// checks the header of a response: a response function with internal
    /// indications, the UNS bit set exactly on unsolicited responses, and
    /// FIR and FIN set on unsolicited responses
    pub fn to_response(&self) -> (r: Result<Response<'a>, ResponseValidationError>)
        ensures
            ({
                let unsolicited = self.function == FunctionCode::UnsolicitedResponse;
                let is_response = self.function == FunctionCode::Response || unsolicited;
                &&& !(is_response && self.iin is Some) ==> r == Err::<
                    Response<'a>,
                    ResponseValidationError,
                >(ResponseValidationError::UnexpectedFunction(self.function))
                &&& is_response && self.iin is Some && !unsolicited && self.control.uns ==> r
                    == Err::<Response<'a>, ResponseValidationError>(
                    ResponseValidationError::SolicitedResponseWithUnsBit,
                )
                &&& is_response && self.iin is Some && unsolicited && !self.control.uns ==> r
                    == Err::<Response<'a>, ResponseValidationError>(
                    ResponseValidationError::UnsolicitedResponseWithoutUnsBit,
                )
                &&& is_response && self.iin is Some && unsolicited && self.control.uns && !(
                self.control.fir && self.control.fin) ==> r == Err::<
                    Response<'a>,
                    ResponseValidationError,
                >(ResponseValidationError::UnsolicitedResponseWithoutFirAndFin)
                &&& is_response && self.iin is Some && self.control.uns == unsolicited && (
                !unsolicited || (self.control.fir && self.control.fin)) ==> r == Ok::<
                    Response<'a>,
                    ResponseValidationError,
                >(
                    Response {
                        header: ResponseHeader {
                            control: self.control,
                            unsolicited,
                            iin: self.iin.unwrap(),
                        },
                        raw_objects: self.raw_objects,
                        objects: self.objects,
                    },
                )
            }),
    {
        let (unsolicited, iin) = match (self.function, self.iin) {
            (FunctionCode::Response, Some(x)) => (false, x),
            (FunctionCode::UnsolicitedResponse, Some(x)) => (true, x),
            _ => return Err(ResponseValidationError::UnexpectedFunction(self.function)),
        };

        if !unsolicited && self.control.uns {
            return Err(ResponseValidationError::SolicitedResponseWithUnsBit);
        }
        if unsolicited && !self.control.uns {
            return Err(ResponseValidationError::UnsolicitedResponseWithoutUnsBit);
        }
        if unsolicited && !self.control.is_fir_and_fin() {
            return Err(ResponseValidationError::UnsolicitedResponseWithoutFirAndFin);
        }
        Ok(
            Response {
                header: ResponseHeader::new(self.control, unsolicited, iin),
                raw_objects: self.raw_objects,
                objects: self.objects,
            },
        )
    }

    fn parse_no_logging(fragment: &'a [u8]) -> (res: Result<Self, HeaderParseError>)
        ensures
            fragment_read(res, fragment@),
    {
        let mut cursor = ReadCursor::new(fragment);
        let ghost s = cursor@;
        let control = match Control::parse(&mut cursor) {
            Ok(c) => c,
            Err(_) => return Err(HeaderParseError::InsufficientBytes),
        };
        let raw_func = match cursor.read_u8() {
            Ok(x) => x,
            Err(_) => return Err(HeaderParseError::InsufficientBytes),
        };
        proof {
            lemma_skip_skip(s, 1, 1);
        }
        let function = match FunctionCode::from(raw_func) {
            None => return Err(HeaderParseError::UnknownFunction(raw_func)),
            Some(x) => x,
        };
        let iin = match function {
            FunctionCode::Response => match IIN::parse(&mut cursor) {
                Ok(x) => Some(x),
                Err(_) => return Err(HeaderParseError::InsufficientBytes),
            },
            FunctionCode::UnsolicitedResponse => match IIN::parse(&mut cursor) {
                Ok(x) => Some(x),
                Err(_) => return Err(HeaderParseError::InsufficientBytes),
            },
            _ => None,
        };
        proof {
            if s.len() >= 4 {
                lemma_skip_skip(s, 2, 2);
            }
        }
        let objects = cursor.read_all();
        let fragment = Self {
            control,
            function,
            iin,
            objects: HeaderCollection::parse(function, objects),
            raw_objects: objects,
        };
        Ok(fragment)
    }

    /// splits a fragment into its header and its object headers; the settings
    /// say how a caller logs the fragment and do not change what is read
    pub fn parse(settings: DecodeSettings, fragment: &'a [u8]) -> (res: Result<
        Self,
        HeaderParseError,
    >)
        ensures
            fragment_read(res, fragment@),
    {
        Self::parse_no_logging(fragment)
    }
}

} // verus!
