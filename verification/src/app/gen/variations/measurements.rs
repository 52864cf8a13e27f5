use crate::app::flags::{Flags, ONLINE};
use crate::app::gen::conversion::IntoMeasurement;
use crate::app::gen::variations::fixed::{Group1Var2, Group2Var1, Group2Var2, Group2Var3, Group3Var2, Group4Var1, Group4Var2, Group4Var3, Group10Var2, Group11Var1, Group11Var2, Group13Var1, Group13Var2, Group20Var1, Group20Var2, Group20Var5, Group20Var6, Group21Var1, Group21Var2, Group21Var5, Group21Var6, Group21Var9, Group21Var10, Group22Var1, Group22Var2, Group22Var5, Group22Var6, Group23Var1, Group23Var2, Group23Var5, Group23Var6};
use crate::app::gen::variations::prefixed::PrefixedVariation;
use crate::app::gen::variations::ranged::RangedVariation;
use crate::app::measurement::{Binary, BinaryOutputStatus, Counter, DoubleBitBinary, FrozenCounter, Time};
use crate::app::parse::bytes::Bytes;
use crate::app::parse::prefix::Prefix;
use crate::app::parse::traits::{FixedSize, FixedSizeVariation, Index};
use crate::app::types::DoubleBit;
use vstd::prelude::*;

verus! {

/// The measurements that the objects of one header stand for, each with its
/// index, grouped by kind
pub enum Measurements<'a> {
    Binary(Vec<(Binary, u16)>),
    DoubleBitBinary(Vec<(DoubleBitBinary, u16)>),
    BinaryOutputStatus(Vec<(BinaryOutputStatus, u16)>),
    Counter(Vec<(Counter, u16)>),
    FrozenCounter(Vec<(FrozenCounter, u16)>),
    OctetString(Vec<(Bytes<'a>, u16)>),
}

/// What a `Measurements` holds, as sequences
pub enum MeasurementsModel {
    Binary(Seq<(Binary, u16)>),
    DoubleBitBinary(Seq<(DoubleBitBinary, u16)>),
    BinaryOutputStatus(Seq<(BinaryOutputStatus, u16)>),
    Counter(Seq<(Counter, u16)>),
    FrozenCounter(Seq<(FrozenCounter, u16)>),
    OctetString(Seq<(Seq<u8>, u16)>),
}

impl<'a> View for Measurements<'a> {
    type V = MeasurementsModel;

    open spec fn view(&self) -> MeasurementsModel {
        match self {
            Measurements::Binary(v) => MeasurementsModel::Binary(v@),
            Measurements::DoubleBitBinary(v) => MeasurementsModel::DoubleBitBinary(v@),
            Measurements::BinaryOutputStatus(v) => MeasurementsModel::BinaryOutputStatus(v@),
            Measurements::Counter(v) => MeasurementsModel::Counter(v@),
            Measurements::FrozenCounter(v) => MeasurementsModel::FrozenCounter(v@),
            Measurements::OctetString(v) => MeasurementsModel::OctetString(
                v@.map_values(|p: (Bytes<'a>, u16)| (p.0.value@, p.1)),
            ),
        }
    }
}

/// a binary read from a packed bit: online, with no time
pub open spec fn packed_binary(value: bool) -> Binary {
    Binary { value, flags: Flags { value: ONLINE }, time: Time::Invalid }
}

/// a binary output status read from a packed bit: online, with no time
pub open spec fn packed_output_status(value: bool) -> BinaryOutputStatus {
    BinaryOutputStatus { value, flags: Flags { value: ONLINE }, time: Time::Invalid }
}

/// the double-bit value of a two-bit code
pub open spec fn double_bit_of(code: u8) -> DoubleBit {
    match code % 4 {
        0 => DoubleBit::Intermediate,
        1 => DoubleBit::DeterminedOff,
        2 => DoubleBit::DeterminedOn,
        _ => DoubleBit::Indeterminate,
    }
}

/// a double-bit binary read from a packed pair of bits: online, with no time
pub open spec fn packed_double_bit(code: u8) -> DoubleBitBinary {
    DoubleBitBinary { value: double_bit_of(code), flags: Flags { value: ONLINE }, time: Time::Invalid }
}

/// converts each object of a range into a measurement, keeping its index
fn convert_ranged<T: IntoMeasurement<M>, M>(items: Vec<(T, u16)>) -> (out: Vec<(M, u16)>)
    ensures
        out@ == items@.map_values(|p: (T, u16)| (p.0.spec_into(), p.1)),
{
    let mut out: Vec<(M, u16)> = Vec::new();
    let mut k: usize = 0;
    while k < items.len()
        invariant
            k <= items@.len(),
            out@.len() == k,
            forall|i: int|
                0 <= i < k ==> #[trigger] out@[i] == (
                    items@[i].0.spec_into(),
                    items@[i].1,
                ),
        decreases items@.len() - k,
    {
        let (v, i) = items[k];
        out.push((v.into_measurement(), i));
        k = k + 1;
    }
    assert(out@ =~= items@.map_values(|p: (T, u16)| (p.0.spec_into(), p.1)));
    out
}

/// converts each object of a count-and-prefix header into a measurement,
/// with its index widened
fn convert_prefixed<I: FixedSize + Index + Copy, V: FixedSizeVariation + IntoMeasurement<M>, M>(
    items: Vec<Prefix<I, V>>,
) -> (out: Vec<(M, u16)>)
    ensures
        out@ == items@.map_values(
            |p: Prefix<I, V>| (p.value.spec_into(), p.index.spec_widen()),
        ),
{
    let mut out: Vec<(M, u16)> = Vec::new();
    let mut k: usize = 0;
    while k < items.len()
        invariant
            k <= items@.len(),
            out@.len() == k,
            forall|i: int|
                0 <= i < k ==> #[trigger] out@[i] == (
                    items@[i].value.spec_into(),
                    items@[i].index.spec_widen(),
                ),
        decreases items@.len() - k,
    {
        let p = &items[k];
        let v = p.value;
        let i = p.index;
        out.push((v.into_measurement(), i.widen_to_u16()));
        k = k + 1;
    }
    assert(out@ =~= items@.map_values(
        |p: Prefix<I, V>| (p.value.spec_into(), p.index.spec_widen()),
    ));
    out
}


fn packed_binaries(items: Vec<(bool, u16)>) -> (out: Vec<(Binary, u16)>)
    ensures
        out@ == items@.map_values(|p: (bool, u16)| (packed_binary(p.0), p.1)),
{
    let mut out: Vec<(Binary, u16)> = Vec::new();
    let mut k: usize = 0;
    while k < items.len()
        invariant
            k <= items@.len(),
            out@.len() == k,
            forall|i: int| 0 <= i < k ==> #[trigger] out@[i] == (packed_binary(items@[i].0), items@[i].1),
        decreases items@.len() - k,
    {
        let (v, i) = items[k];
        out.push((Binary { value: v, flags: Flags::new_online(), time: Time::Invalid }, i));
        k = k + 1;
    }
    assert(out@ =~= items@.map_values(|p: (bool, u16)| (packed_binary(p.0), p.1)));
    out
}


fn packed_output_statuses(items: Vec<(bool, u16)>) -> (out: Vec<(BinaryOutputStatus, u16)>)
    ensures
        out@ == items@.map_values(|p: (bool, u16)| (packed_output_status(p.0), p.1)),
{
    let mut out: Vec<(BinaryOutputStatus, u16)> = Vec::new();
    let mut k: usize = 0;
    while k < items.len()
        invariant
            k <= items@.len(),
            out@.len() == k,
            forall|i: int| 0 <= i < k ==> #[trigger] out@[i] == (packed_output_status(items@[i].0), items@[i].1),
        decreases items@.len() - k,
    {
        let (v, i) = items[k];
        out.push((BinaryOutputStatus { value: v, flags: Flags::new_online(), time: Time::Invalid }, i));
        k = k + 1;
    }
    assert(out@ =~= items@.map_values(|p: (bool, u16)| (packed_output_status(p.0), p.1)));
    out
}


fn packed_double_bits(items: Vec<(DoubleBit, u16)>, codes: Ghost<Seq<(u8, u16)>>) -> (out: Vec<(DoubleBitBinary, u16)>)
    requires
        items@.len() == codes@.len(),
        forall|i: int|
            0 <= i < items@.len() ==> (#[trigger] items@[i]).0.code() == codes@[i].0 && items@[i].1
                == codes@[i].1,
    ensures
        out@ == codes@.map_values(|p: (u8, u16)| (packed_double_bit(p.0), p.1)),
{
    let mut out: Vec<(DoubleBitBinary, u16)> = Vec::new();
    let mut k: usize = 0;
    while k < items.len()
        invariant
            k <= items@.len(),
            items@.len() == codes@.len(),
            forall|i: int|
                0 <= i < items@.len() ==> (#[trigger] items@[i]).0.code() == codes@[i].0
                    && items@[i].1 == codes@[i].1,
            out@.len() == k,
            forall|i: int| 0 <= i < k ==> #[trigger] out@[i] == (packed_double_bit(codes@[i].0), codes@[i].1),
        decreases items@.len() - k,
    {
        let (v, i) = items[k];
        proof {
            assert(items@[k as int].0.code() == codes@[k as int].0);
            assert(v.code() < 4);
            assert(v == double_bit_of(codes@[k as int].0));
        }
        out.push((DoubleBitBinary { value: v, flags: Flags::new_online(), time: Time::Invalid }, i));
        k = k + 1;
    }
    assert(out@ =~= codes@.map_values(|p: (u8, u16)| (packed_double_bit(p.0), p.1)));
    out
}

fn octet_strings<'a>(items: Vec<(Bytes<'a>, u16)>, values: Ghost<Seq<(Seq<u8>, u16)>>) -> (out: Vec<(Bytes<'a>, u16)>)
    requires
        items@.len() == values@.len(),
        forall|i: int|
            0 <= i < items@.len() ==> (#[trigger] items@[i]).0.value@ == values@[i].0 && items@[i].1
                == values@[i].1,
    ensures
        out@.map_values(|p: (Bytes<'a>, u16)| (p.0.value@, p.1)) == values@,
{
    assert(items@.map_values(|p: (Bytes<'a>, u16)| (p.0.value@, p.1)) =~= values@);
    items
}

fn prefixed_octet_strings<'a, I: FixedSize + Index + Copy>(
    items: Vec<(Bytes<'a>, I)>,
    values: Ghost<Seq<(Seq<u8>, I)>>,
) -> (out: Vec<(Bytes<'a>, u16)>)
    requires
        items@.len() == values@.len(),
        forall|i: int|
            0 <= i < items@.len() ==> (#[trigger] items@[i]).0.value@ == values@[i].0 && items@[i].1
                == values@[i].1,
    ensures
        out@.map_values(|p: (Bytes<'a>, u16)| (p.0.value@, p.1)) == values@.map_values(
            |p: (Seq<u8>, I)| (p.0, p.1.spec_widen()),
        ),
{
    let mut out: Vec<(Bytes<'a>, u16)> = Vec::new();
    let mut k: usize = 0;
    while k < items.len()
        invariant
            k <= items@.len(),
            items@.len() == values@.len(),
            forall|i: int|
                0 <= i < items@.len() ==> (#[trigger] items@[i]).0.value@ == values@[i].0
                    && items@[i].1 == values@[i].1,
            out@.len() == k,
            forall|i: int|
                0 <= i < k ==> (#[trigger] out@[i]).0.value@ == values@[i].0 && out@[i].1
                    == values@[i].1.spec_widen(),
        decreases items@.len() - k,
    {
        let p = &items[k];
        let b = Bytes::new(p.0.value);
        let i = p.1;
        out.push((b, i.widen_to_u16()));
        k = k + 1;
    }
    assert(out@.map_values(|p: (Bytes<'a>, u16)| (p.0.value@, p.1)) =~= values@.map_values(
        |p: (Seq<u8>, I)| (p.0, p.1.spec_widen()),
    ));
    out
}


fn relative_Group2Var3<I: FixedSize + Index + Copy>(items: Vec<Prefix<I, Group2Var3>>, cto: Time) -> (out: Vec<(Binary, u16)>)
    ensures
        out@ == items@.map_values(
            |p: Prefix<I, Group2Var3>| (p.value.spec_to_measurement(cto), p.index.spec_widen()),
        ),
{
    let mut out: Vec<(Binary, u16)> = Vec::new();
    let mut k: usize = 0;
    while k < items.len()
        invariant
            k <= items@.len(),
            out@.len() == k,
            forall|i: int|
                0 <= i < k ==> #[trigger] out@[i] == (
                    items@[i].value.spec_to_measurement(cto),
                    items@[i].index.spec_widen(),
                ),
        decreases items@.len() - k,
    {
        let p = &items[k];
        let v = p.value;
        let i = p.index;
        out.push((v.to_measurement(cto), i.widen_to_u16()));
        k = k + 1;
    }
    assert(out@ =~= items@.map_values(
        |p: Prefix<I, Group2Var3>| (p.value.spec_to_measurement(cto), p.index.spec_widen()),
    ));
    out
}


fn relative_Group4Var3<I: FixedSize + Index + Copy>(items: Vec<Prefix<I, Group4Var3>>, cto: Time) -> (out: Vec<(DoubleBitBinary, u16)>)
    ensures
        out@ == items@.map_values(
            |p: Prefix<I, Group4Var3>| (p.value.spec_to_measurement(cto), p.index.spec_widen()),
        ),
{
    let mut out: Vec<(DoubleBitBinary, u16)> = Vec::new();
    let mut k: usize = 0;
    while k < items.len()
        invariant
            k <= items@.len(),
            out@.len() == k,
            forall|i: int|
                0 <= i < k ==> #[trigger] out@[i] == (
                    items@[i].value.spec_to_measurement(cto),
                    items@[i].index.spec_widen(),
                ),
        decreases items@.len() - k,
    {
        let p = &items[k];
        let v = p.value;
        let i = p.index;
        out.push((v.to_measurement(cto), i.widen_to_u16()));
        k = k + 1;
    }
    assert(out@ =~= items@.map_values(
        |p: Prefix<I, Group4Var3>| (p.value.spec_to_measurement(cto), p.index.spec_widen()),
    ));
    out
}


impl<'a> RangedVariation<'a> {
    /// the measurements that the objects stand for; `None` where the
    /// variation carries no measurement or an analog one
    pub open spec fn spec_measurements(&self) -> Option<MeasurementsModel> {
        match self {
            RangedVariation::Group1Var1(seq) => Some(MeasurementsModel::Binary(seq.spec_items().map_values(|p: (bool, u16)| (packed_binary(p.0), p.1)))),
            RangedVariation::Group10Var1(seq) => Some(MeasurementsModel::BinaryOutputStatus(seq.spec_items().map_values(|p: (bool, u16)| (packed_output_status(p.0), p.1)))),
            RangedVariation::Group3Var1(seq) => Some(MeasurementsModel::DoubleBitBinary(seq.spec_items().map_values(|p: (u8, u16)| (packed_double_bit(p.0), p.1)))),
            RangedVariation::Group1Var2(seq) => Some(MeasurementsModel::Binary(seq.spec_items().map_values(|p: (Group1Var2, u16)| (IntoMeasurement::<Binary>::spec_into(p.0), p.1)))),
            RangedVariation::Group3Var2(seq) => Some(MeasurementsModel::DoubleBitBinary(seq.spec_items().map_values(|p: (Group3Var2, u16)| (IntoMeasurement::<DoubleBitBinary>::spec_into(p.0), p.1)))),
            RangedVariation::Group10Var2(seq) => Some(MeasurementsModel::BinaryOutputStatus(seq.spec_items().map_values(|p: (Group10Var2, u16)| (IntoMeasurement::<BinaryOutputStatus>::spec_into(p.0), p.1)))),
            RangedVariation::Group20Var1(seq) => Some(MeasurementsModel::Counter(seq.spec_items().map_values(|p: (Group20Var1, u16)| (IntoMeasurement::<Counter>::spec_into(p.0), p.1)))),
            RangedVariation::Group20Var2(seq) => Some(MeasurementsModel::Counter(seq.spec_items().map_values(|p: (Group20Var2, u16)| (IntoMeasurement::<Counter>::spec_into(p.0), p.1)))),
            RangedVariation::Group20Var5(seq) => Some(MeasurementsModel::Counter(seq.spec_items().map_values(|p: (Group20Var5, u16)| (IntoMeasurement::<Counter>::spec_into(p.0), p.1)))),
            RangedVariation::Group20Var6(seq) => Some(MeasurementsModel::Counter(seq.spec_items().map_values(|p: (Group20Var6, u16)| (IntoMeasurement::<Counter>::spec_into(p.0), p.1)))),
            RangedVariation::Group21Var1(seq) => Some(MeasurementsModel::FrozenCounter(seq.spec_items().map_values(|p: (Group21Var1, u16)| (IntoMeasurement::<FrozenCounter>::spec_into(p.0), p.1)))),
            RangedVariation::Group21Var2(seq) => Some(MeasurementsModel::FrozenCounter(seq.spec_items().map_values(|p: (Group21Var2, u16)| (IntoMeasurement::<FrozenCounter>::spec_into(p.0), p.1)))),
            RangedVariation::Group21Var5(seq) => Some(MeasurementsModel::FrozenCounter(seq.spec_items().map_values(|p: (Group21Var5, u16)| (IntoMeasurement::<FrozenCounter>::spec_into(p.0), p.1)))),
            RangedVariation::Group21Var6(seq) => Some(MeasurementsModel::FrozenCounter(seq.spec_items().map_values(|p: (Group21Var6, u16)| (IntoMeasurement::<FrozenCounter>::spec_into(p.0), p.1)))),
            RangedVariation::Group21Var9(seq) => Some(MeasurementsModel::FrozenCounter(seq.spec_items().map_values(|p: (Group21Var9, u16)| (IntoMeasurement::<FrozenCounter>::spec_into(p.0), p.1)))),
            RangedVariation::Group21Var10(seq) => Some(MeasurementsModel::FrozenCounter(seq.spec_items().map_values(|p: (Group21Var10, u16)| (IntoMeasurement::<FrozenCounter>::spec_into(p.0), p.1)))),
            RangedVariation::Group110VarX(_, seq) => Some(MeasurementsModel::OctetString(seq.spec_items())),
            _ => None,
        }
    }

    /// the measurements that the objects stand for, grouped by kind
    pub fn measurements(&self) -> (r: Option<Measurements<'a>>)
        ensures
            r matches Some(m) ==> self.spec_measurements() == Some(m@),
            r is None ==> self.spec_measurements() is None,
    {
        match self {
            RangedVariation::Group1Var1(seq) => Some(Measurements::Binary(packed_binaries(seq.to_vec()))),
            RangedVariation::Group10Var1(seq) => Some(Measurements::BinaryOutputStatus(packed_output_statuses(seq.to_vec()))),
            RangedVariation::Group3Var1(seq) => Some(Measurements::DoubleBitBinary(packed_double_bits(seq.to_vec(), Ghost(seq.spec_items())))),
            RangedVariation::Group1Var2(seq) => Some(Measurements::Binary(convert_ranged(seq.to_vec()))),
            RangedVariation::Group3Var2(seq) => Some(Measurements::DoubleBitBinary(convert_ranged(seq.to_vec()))),
            RangedVariation::Group10Var2(seq) => Some(Measurements::BinaryOutputStatus(convert_ranged(seq.to_vec()))),
            RangedVariation::Group20Var1(seq) => Some(Measurements::Counter(convert_ranged(seq.to_vec()))),
            RangedVariation::Group20Var2(seq) => Some(Measurements::Counter(convert_ranged(seq.to_vec()))),
            RangedVariation::Group20Var5(seq) => Some(Measurements::Counter(convert_ranged(seq.to_vec()))),
            RangedVariation::Group20Var6(seq) => Some(Measurements::Counter(convert_ranged(seq.to_vec()))),
            RangedVariation::Group21Var1(seq) => Some(Measurements::FrozenCounter(convert_ranged(seq.to_vec()))),
            RangedVariation::Group21Var2(seq) => Some(Measurements::FrozenCounter(convert_ranged(seq.to_vec()))),
            RangedVariation::Group21Var5(seq) => Some(Measurements::FrozenCounter(convert_ranged(seq.to_vec()))),
            RangedVariation::Group21Var6(seq) => Some(Measurements::FrozenCounter(convert_ranged(seq.to_vec()))),
            RangedVariation::Group21Var9(seq) => Some(Measurements::FrozenCounter(convert_ranged(seq.to_vec()))),
            RangedVariation::Group21Var10(seq) => Some(Measurements::FrozenCounter(convert_ranged(seq.to_vec()))),
            RangedVariation::Group110VarX(_, seq) => Some(Measurements::OctetString(octet_strings(seq.to_vec(), Ghost(seq.spec_items())))),
            _ => None,
        }
    }
}

impl<'a, I> PrefixedVariation<'a, I> where I: FixedSize + Index + Copy {
    /// the measurements that the objects stand for, objects with a relative
    /// time taken from the common time of occurrence `cto`; `None` where the
    /// variation is a command or an analog one
    pub open spec fn spec_measurements(&self, cto: Time) -> Option<MeasurementsModel> {
        match self {
            PrefixedVariation::Group2Var1(seq) => Some(MeasurementsModel::Binary(seq.spec_items().map_values(|p: Prefix<I, Group2Var1>| (IntoMeasurement::<Binary>::spec_into(p.value), p.index.spec_widen())))),
            PrefixedVariation::Group2Var2(seq) => Some(MeasurementsModel::Binary(seq.spec_items().map_values(|p: Prefix<I, Group2Var2>| (IntoMeasurement::<Binary>::spec_into(p.value), p.index.spec_widen())))),
            PrefixedVariation::Group4Var1(seq) => Some(MeasurementsModel::DoubleBitBinary(seq.spec_items().map_values(|p: Prefix<I, Group4Var1>| (IntoMeasurement::<DoubleBitBinary>::spec_into(p.value), p.index.spec_widen())))),
            PrefixedVariation::Group4Var2(seq) => Some(MeasurementsModel::DoubleBitBinary(seq.spec_items().map_values(|p: Prefix<I, Group4Var2>| (IntoMeasurement::<DoubleBitBinary>::spec_into(p.value), p.index.spec_widen())))),
            PrefixedVariation::Group11Var1(seq) => Some(MeasurementsModel::BinaryOutputStatus(seq.spec_items().map_values(|p: Prefix<I, Group11Var1>| (IntoMeasurement::<BinaryOutputStatus>::spec_into(p.value), p.index.spec_widen())))),
            PrefixedVariation::Group11Var2(seq) => Some(MeasurementsModel::BinaryOutputStatus(seq.spec_items().map_values(|p: Prefix<I, Group11Var2>| (IntoMeasurement::<BinaryOutputStatus>::spec_into(p.value), p.index.spec_widen())))),
            PrefixedVariation::Group13Var1(seq) => Some(MeasurementsModel::BinaryOutputStatus(seq.spec_items().map_values(|p: Prefix<I, Group13Var1>| (IntoMeasurement::<BinaryOutputStatus>::spec_into(p.value), p.index.spec_widen())))),
            PrefixedVariation::Group13Var2(seq) => Some(MeasurementsModel::BinaryOutputStatus(seq.spec_items().map_values(|p: Prefix<I, Group13Var2>| (IntoMeasurement::<BinaryOutputStatus>::spec_into(p.value), p.index.spec_widen())))),
            PrefixedVariation::Group22Var1(seq) => Some(MeasurementsModel::Counter(seq.spec_items().map_values(|p: Prefix<I, Group22Var1>| (IntoMeasurement::<Counter>::spec_into(p.value), p.index.spec_widen())))),
            PrefixedVariation::Group22Var2(seq) => Some(MeasurementsModel::Counter(seq.spec_items().map_values(|p: Prefix<I, Group22Var2>| (IntoMeasurement::<Counter>::spec_into(p.value), p.index.spec_widen())))),
            PrefixedVariation::Group22Var5(seq) => Some(MeasurementsModel::Counter(seq.spec_items().map_values(|p: Prefix<I, Group22Var5>| (IntoMeasurement::<Counter>::spec_into(p.value), p.index.spec_widen())))),
            PrefixedVariation::Group22Var6(seq) => Some(MeasurementsModel::Counter(seq.spec_items().map_values(|p: Prefix<I, Group22Var6>| (IntoMeasurement::<Counter>::spec_into(p.value), p.index.spec_widen())))),
            PrefixedVariation::Group23Var1(seq) => Some(MeasurementsModel::FrozenCounter(seq.spec_items().map_values(|p: Prefix<I, Group23Var1>| (IntoMeasurement::<FrozenCounter>::spec_into(p.value), p.index.spec_widen())))),
            PrefixedVariation::Group23Var2(seq) => Some(MeasurementsModel::FrozenCounter(seq.spec_items().map_values(|p: Prefix<I, Group23Var2>| (IntoMeasurement::<FrozenCounter>::spec_into(p.value), p.index.spec_widen())))),
            PrefixedVariation::Group23Var5(seq) => Some(MeasurementsModel::FrozenCounter(seq.spec_items().map_values(|p: Prefix<I, Group23Var5>| (IntoMeasurement::<FrozenCounter>::spec_into(p.value), p.index.spec_widen())))),
            PrefixedVariation::Group23Var6(seq) => Some(MeasurementsModel::FrozenCounter(seq.spec_items().map_values(|p: Prefix<I, Group23Var6>| (IntoMeasurement::<FrozenCounter>::spec_into(p.value), p.index.spec_widen())))),
            PrefixedVariation::Group2Var3(seq) => Some(MeasurementsModel::Binary(seq.spec_items().map_values(|p: Prefix<I, Group2Var3>| (p.value.spec_to_measurement(cto), p.index.spec_widen())))),
            PrefixedVariation::Group4Var3(seq) => Some(MeasurementsModel::DoubleBitBinary(seq.spec_items().map_values(|p: Prefix<I, Group4Var3>| (p.value.spec_to_measurement(cto), p.index.spec_widen())))),
            PrefixedVariation::Group111VarX(_, seq) => Some(MeasurementsModel::OctetString(seq.spec_items().map_values(|p: (Seq<u8>, I)| (p.0, p.1.spec_widen())))),
            _ => None,
        }
    }

    /// the measurements that the objects stand for, grouped by kind
    pub fn measurements(&self, cto: Time) -> (r: Option<Measurements<'a>>)
        ensures
            r matches Some(m) ==> self.spec_measurements(cto) == Some(m@),
            r is None ==> self.spec_measurements(cto) is None,
    {
        match self {
            PrefixedVariation::Group2Var1(seq) => Some(Measurements::Binary(convert_prefixed(seq.to_vec()))),
            PrefixedVariation::Group2Var2(seq) => Some(Measurements::Binary(convert_prefixed(seq.to_vec()))),
            PrefixedVariation::Group4Var1(seq) => Some(Measurements::DoubleBitBinary(convert_prefixed(seq.to_vec()))),
            PrefixedVariation::Group4Var2(seq) => Some(Measurements::DoubleBitBinary(convert_prefixed(seq.to_vec()))),
            PrefixedVariation::Group11Var1(seq) => Some(Measurements::BinaryOutputStatus(convert_prefixed(seq.to_vec()))),
            PrefixedVariation::Group11Var2(seq) => Some(Measurements::BinaryOutputStatus(convert_prefixed(seq.to_vec()))),
            PrefixedVariation::Group13Var1(seq) => Some(Measurements::BinaryOutputStatus(convert_prefixed(seq.to_vec()))),
            PrefixedVariation::Group13Var2(seq) => Some(Measurements::BinaryOutputStatus(convert_prefixed(seq.to_vec()))),
            PrefixedVariation::Group22Var1(seq) => Some(Measurements::Counter(convert_prefixed(seq.to_vec()))),
            PrefixedVariation::Group22Var2(seq) => Some(Measurements::Counter(convert_prefixed(seq.to_vec()))),
            PrefixedVariation::Group22Var5(seq) => Some(Measurements::Counter(convert_prefixed(seq.to_vec()))),
            PrefixedVariation::Group22Var6(seq) => Some(Measurements::Counter(convert_prefixed(seq.to_vec()))),
            PrefixedVariation::Group23Var1(seq) => Some(Measurements::FrozenCounter(convert_prefixed(seq.to_vec()))),
            PrefixedVariation::Group23Var2(seq) => Some(Measurements::FrozenCounter(convert_prefixed(seq.to_vec()))),
            PrefixedVariation::Group23Var5(seq) => Some(Measurements::FrozenCounter(convert_prefixed(seq.to_vec()))),
            PrefixedVariation::Group23Var6(seq) => Some(Measurements::FrozenCounter(convert_prefixed(seq.to_vec()))),
            PrefixedVariation::Group2Var3(seq) => Some(Measurements::Binary(relative_Group2Var3(seq.to_vec(), cto))),
            PrefixedVariation::Group4Var3(seq) => Some(Measurements::DoubleBitBinary(relative_Group4Var3(seq.to_vec(), cto))),
            PrefixedVariation::Group111VarX(_, seq) => Some(Measurements::OctetString(prefixed_octet_strings(seq.to_vec(), Ghost(seq.spec_items())))),
            _ => None,
        }
    }
}

} // verus!
