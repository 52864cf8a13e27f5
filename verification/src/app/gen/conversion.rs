use crate::app::flags::{Flags, ONLINE};
use crate::app::gen::variations::fixed::{Group2Var3, Group4Var3, Group1Var2, Group2Var1, Group2Var2, Group3Var2, Group4Var1, Group4Var2, Group10Var2, Group11Var1, Group11Var2, Group13Var1, Group13Var2, Group20Var1, Group20Var2, Group20Var5, Group20Var6, Group21Var1, Group21Var2, Group21Var5, Group21Var6, Group21Var9, Group21Var10, Group22Var1, Group22Var2, Group22Var5, Group22Var6, Group23Var1, Group23Var2, Group23Var5, Group23Var6};
use crate::app::measurement::{Binary, BinaryOutputStatus, Counter, DoubleBitBinary, FrozenCounter, Time};
use crate::app::types::{bit_of, lemma_top_bits, DoubleBit};
use vstd::prelude::*;

verus! {

/// An object that stands for a measurement of kind `M`
pub trait IntoMeasurement<M>: Copy {
    /// the measurement the object stands for
    spec fn spec_into(self) -> M;

    fn into_measurement(self) -> (m: M)
        ensures
            m == self.spec_into(),
    ;
}

impl From<Group2Var2> for Binary {
    fn from(v: Group2Var2) -> (r: Self) {
        let flags = Flags::new(v.flags);
        Binary { value: flags.state(), flags, time: Time::Synchronized(v.time) }
    }
}

impl IntoMeasurement<Binary> for Group2Var2 {
    open spec fn spec_into(self) -> Binary {
        Binary { value: bit_of(self.flags, 7), flags: Flags { value: self.flags }, time: Time::Synchronized(self.time) }
    }

    fn into_measurement(self) -> (m: Binary) {
        let v = self;
        let flags = Flags::new(v.flags);
        Binary { value: flags.state(), flags, time: Time::Synchronized(v.time) }
    }
}

impl vstd::std_specs::convert::FromSpecImpl<Group2Var2> for Binary {
    open spec fn obeys_from_spec() -> bool {
        true
    }

    open spec fn from_spec(v: Group2Var2) -> Binary {
        Binary { value: bit_of(v.flags, 7), flags: Flags { value: v.flags }, time: Time::Synchronized(v.time) }
    }
}

impl From<Group2Var1> for Binary {
    fn from(v: Group2Var1) -> (r: Self) {
        let flags = Flags::new(v.flags);
        Binary { value: flags.state(), flags, time: Time::Invalid }
    }
}

impl IntoMeasurement<Binary> for Group2Var1 {
    open spec fn spec_into(self) -> Binary {
        Binary { value: bit_of(self.flags, 7), flags: Flags { value: self.flags }, time: Time::Invalid }
    }

    fn into_measurement(self) -> (m: Binary) {
        let v = self;
        let flags = Flags::new(v.flags);
        Binary { value: flags.state(), flags, time: Time::Invalid }
    }
}

impl vstd::std_specs::convert::FromSpecImpl<Group2Var1> for Binary {
    open spec fn obeys_from_spec() -> bool {
        true
    }

    open spec fn from_spec(v: Group2Var1) -> Binary {
        Binary { value: bit_of(v.flags, 7), flags: Flags { value: v.flags }, time: Time::Invalid }
    }
}

impl From<Group1Var2> for Binary {
    fn from(v: Group1Var2) -> (r: Self) {
        let flags = Flags::new(v.flags);
        Binary { value: flags.state(), flags, time: Time::Invalid }
    }
}

impl IntoMeasurement<Binary> for Group1Var2 {
    open spec fn spec_into(self) -> Binary {
        Binary { value: bit_of(self.flags, 7), flags: Flags { value: self.flags }, time: Time::Invalid }
    }

    fn into_measurement(self) -> (m: Binary) {
        let v = self;
        let flags = Flags::new(v.flags);
        Binary { value: flags.state(), flags, time: Time::Invalid }
    }
}

impl vstd::std_specs::convert::FromSpecImpl<Group1Var2> for Binary {
    open spec fn obeys_from_spec() -> bool {
        true
    }

    open spec fn from_spec(v: Group1Var2) -> Binary {
        Binary { value: bit_of(v.flags, 7), flags: Flags { value: v.flags }, time: Time::Invalid }
    }
}

impl From<Group13Var2> for BinaryOutputStatus {
    fn from(v: Group13Var2) -> (r: Self) {
        let flags = Flags::new(v.flags);
        BinaryOutputStatus { value: flags.state(), flags, time: Time::Synchronized(v.time) }
    }
}

impl IntoMeasurement<BinaryOutputStatus> for Group13Var2 {
    open spec fn spec_into(self) -> BinaryOutputStatus {
        BinaryOutputStatus { value: bit_of(self.flags, 7), flags: Flags { value: self.flags }, time: Time::Synchronized(self.time) }
    }

    fn into_measurement(self) -> (m: BinaryOutputStatus) {
        let v = self;
        let flags = Flags::new(v.flags);
        BinaryOutputStatus { value: flags.state(), flags, time: Time::Synchronized(v.time) }
    }
}

impl vstd::std_specs::convert::FromSpecImpl<Group13Var2> for BinaryOutputStatus {
    open spec fn obeys_from_spec() -> bool {
        true
    }

    open spec fn from_spec(v: Group13Var2) -> BinaryOutputStatus {
        BinaryOutputStatus { value: bit_of(v.flags, 7), flags: Flags { value: v.flags }, time: Time::Synchronized(v.time) }
    }
}

impl From<Group13Var1> for BinaryOutputStatus {
    fn from(v: Group13Var1) -> (r: Self) {
        let flags = Flags::new(v.flags);
        BinaryOutputStatus { value: flags.state(), flags, time: Time::Invalid }
    }
}

impl IntoMeasurement<BinaryOutputStatus> for Group13Var1 {
    open spec fn spec_into(self) -> BinaryOutputStatus {
        BinaryOutputStatus { value: bit_of(self.flags, 7), flags: Flags { value: self.flags }, time: Time::Invalid }
    }

    fn into_measurement(self) -> (m: BinaryOutputStatus) {
        let v = self;
        let flags = Flags::new(v.flags);
        BinaryOutputStatus { value: flags.state(), flags, time: Time::Invalid }
    }
}

impl vstd::std_specs::convert::FromSpecImpl<Group13Var1> for BinaryOutputStatus {
    open spec fn obeys_from_spec() -> bool {
        true
    }

    open spec fn from_spec(v: Group13Var1) -> BinaryOutputStatus {
        BinaryOutputStatus { value: bit_of(v.flags, 7), flags: Flags { value: v.flags }, time: Time::Invalid }
    }
}

impl From<Group11Var2> for BinaryOutputStatus {
    fn from(v: Group11Var2) -> (r: Self) {
        let flags = Flags::new(v.flags);
        BinaryOutputStatus { value: flags.state(), flags, time: Time::Synchronized(v.time) }
    }
}

impl IntoMeasurement<BinaryOutputStatus> for Group11Var2 {
    open spec fn spec_into(self) -> BinaryOutputStatus {
        BinaryOutputStatus { value: bit_of(self.flags, 7), flags: Flags { value: self.flags }, time: Time::Synchronized(self.time) }
    }

    fn into_measurement(self) -> (m: BinaryOutputStatus) {
        let v = self;
        let flags = Flags::new(v.flags);
        BinaryOutputStatus { value: flags.state(), flags, time: Time::Synchronized(v.time) }
    }
}

impl vstd::std_specs::convert::FromSpecImpl<Group11Var2> for BinaryOutputStatus {
    open spec fn obeys_from_spec() -> bool {
        true
    }

    open spec fn from_spec(v: Group11Var2) -> BinaryOutputStatus {
        BinaryOutputStatus { value: bit_of(v.flags, 7), flags: Flags { value: v.flags }, time: Time::Synchronized(v.time) }
    }
}

impl From<Group11Var1> for BinaryOutputStatus {
    fn from(v: Group11Var1) -> (r: Self) {
        let flags = Flags::new(v.flags);
        BinaryOutputStatus { value: flags.state(), flags, time: Time::Invalid }
    }
}

impl IntoMeasurement<BinaryOutputStatus> for Group11Var1 {
    open spec fn spec_into(self) -> BinaryOutputStatus {
        BinaryOutputStatus { value: bit_of(self.flags, 7), flags: Flags { value: self.flags }, time: Time::Invalid }
    }

    fn into_measurement(self) -> (m: BinaryOutputStatus) {
        let v = self;
        let flags = Flags::new(v.flags);
        BinaryOutputStatus { value: flags.state(), flags, time: Time::Invalid }
    }
}

impl vstd::std_specs::convert::FromSpecImpl<Group11Var1> for BinaryOutputStatus {
    open spec fn obeys_from_spec() -> bool {
        true
    }

    open spec fn from_spec(v: Group11Var1) -> BinaryOutputStatus {
        BinaryOutputStatus { value: bit_of(v.flags, 7), flags: Flags { value: v.flags }, time: Time::Invalid }
    }
}

impl From<Group10Var2> for BinaryOutputStatus {
    fn from(v: Group10Var2) -> (r: Self) {
        let flags = Flags::new(v.flags);
        BinaryOutputStatus { value: flags.state(), flags, time: Time::Invalid }
    }
}

impl IntoMeasurement<BinaryOutputStatus> for Group10Var2 {
    open spec fn spec_into(self) -> BinaryOutputStatus {
        BinaryOutputStatus { value: bit_of(self.flags, 7), flags: Flags { value: self.flags }, time: Time::Invalid }
    }

    fn into_measurement(self) -> (m: BinaryOutputStatus) {
        let v = self;
        let flags = Flags::new(v.flags);
        BinaryOutputStatus { value: flags.state(), flags, time: Time::Invalid }
    }
}

impl vstd::std_specs::convert::FromSpecImpl<Group10Var2> for BinaryOutputStatus {
    open spec fn obeys_from_spec() -> bool {
        true
    }

    open spec fn from_spec(v: Group10Var2) -> BinaryOutputStatus {
        BinaryOutputStatus { value: bit_of(v.flags, 7), flags: Flags { value: v.flags }, time: Time::Invalid }
    }
}

impl From<Group4Var2> for DoubleBitBinary {
    fn from(v: Group4Var2) -> (r: Self) {
        let flags = Flags::new(v.flags);
        DoubleBitBinary { value: flags.double_bit_state(), flags, time: Time::Synchronized(v.time) }
    }
}

impl IntoMeasurement<DoubleBitBinary> for Group4Var2 {
    open spec fn spec_into(self) -> DoubleBitBinary {
        DoubleBitBinary { value: Flags { value: self.flags }.spec_double_bit_state(), flags: Flags { value: self.flags }, time: Time::Synchronized(self.time) }
    }

    fn into_measurement(self) -> (m: DoubleBitBinary) {
        let v = self;
        let flags = Flags::new(v.flags);
        DoubleBitBinary { value: flags.double_bit_state(), flags, time: Time::Synchronized(v.time) }
    }
}

impl vstd::std_specs::convert::FromSpecImpl<Group4Var2> for DoubleBitBinary {
    open spec fn obeys_from_spec() -> bool {
        true
    }

    open spec fn from_spec(v: Group4Var2) -> DoubleBitBinary {
        DoubleBitBinary { value: Flags { value: v.flags }.spec_double_bit_state(), flags: Flags { value: v.flags }, time: Time::Synchronized(v.time) }
    }
}

impl From<Group4Var1> for DoubleBitBinary {
    fn from(v: Group4Var1) -> (r: Self) {
        let flags = Flags::new(v.flags);
        DoubleBitBinary { value: flags.double_bit_state(), flags, time: Time::Invalid }
    }
}

impl IntoMeasurement<DoubleBitBinary> for Group4Var1 {
    open spec fn spec_into(self) -> DoubleBitBinary {
        DoubleBitBinary { value: Flags { value: self.flags }.spec_double_bit_state(), flags: Flags { value: self.flags }, time: Time::Invalid }
    }

    fn into_measurement(self) -> (m: DoubleBitBinary) {
        let v = self;
        let flags = Flags::new(v.flags);
        DoubleBitBinary { value: flags.double_bit_state(), flags, time: Time::Invalid }
    }
}

impl vstd::std_specs::convert::FromSpecImpl<Group4Var1> for DoubleBitBinary {
    open spec fn obeys_from_spec() -> bool {
        true
    }

    open spec fn from_spec(v: Group4Var1) -> DoubleBitBinary {
        DoubleBitBinary { value: Flags { value: v.flags }.spec_double_bit_state(), flags: Flags { value: v.flags }, time: Time::Invalid }
    }
}

impl From<Group3Var2> for DoubleBitBinary {
    fn from(v: Group3Var2) -> (r: Self) {
        let flags = Flags::new(v.flags);
        DoubleBitBinary { value: flags.double_bit_state(), flags, time: Time::Invalid }
    }
}

impl IntoMeasurement<DoubleBitBinary> for Group3Var2 {
    open spec fn spec_into(self) -> DoubleBitBinary {
        DoubleBitBinary { value: Flags { value: self.flags }.spec_double_bit_state(), flags: Flags { value: self.flags }, time: Time::Invalid }
    }

    fn into_measurement(self) -> (m: DoubleBitBinary) {
        let v = self;
        let flags = Flags::new(v.flags);
        DoubleBitBinary { value: flags.double_bit_state(), flags, time: Time::Invalid }
    }
}

impl vstd::std_specs::convert::FromSpecImpl<Group3Var2> for DoubleBitBinary {
    open spec fn obeys_from_spec() -> bool {
        true
    }

    open spec fn from_spec(v: Group3Var2) -> DoubleBitBinary {
        DoubleBitBinary { value: Flags { value: v.flags }.spec_double_bit_state(), flags: Flags { value: v.flags }, time: Time::Invalid }
    }
}

impl From<Group22Var6> for Counter {
    fn from(v: Group22Var6) -> (r: Self) {
        let flags = Flags::new(v.flags);
        Counter { value: v.value as u32, flags, time: Time::Synchronized(v.time) }
    }
}

impl IntoMeasurement<Counter> for Group22Var6 {
    open spec fn spec_into(self) -> Counter {
        Counter { value: self.value as u32, flags: Flags { value: self.flags }, time: Time::Synchronized(self.time) }
    }

    fn into_measurement(self) -> (m: Counter) {
        let v = self;
        let flags = Flags::new(v.flags);
        Counter { value: v.value as u32, flags, time: Time::Synchronized(v.time) }
    }
}

impl vstd::std_specs::convert::FromSpecImpl<Group22Var6> for Counter {
    open spec fn obeys_from_spec() -> bool {
        true
    }

    open spec fn from_spec(v: Group22Var6) -> Counter {
        Counter { value: v.value as u32, flags: Flags { value: v.flags }, time: Time::Synchronized(v.time) }
    }
}

impl From<Group22Var5> for Counter {
    fn from(v: Group22Var5) -> (r: Self) {
        let flags = Flags::new(v.flags);
        Counter { value: v.value, flags, time: Time::Synchronized(v.time) }
    }
}

impl IntoMeasurement<Counter> for Group22Var5 {
    open spec fn spec_into(self) -> Counter {
        Counter { value: self.value, flags: Flags { value: self.flags }, time: Time::Synchronized(self.time) }
    }

    fn into_measurement(self) -> (m: Counter) {
        let v = self;
        let flags = Flags::new(v.flags);
        Counter { value: v.value, flags, time: Time::Synchronized(v.time) }
    }
}

impl vstd::std_specs::convert::FromSpecImpl<Group22Var5> for Counter {
    open spec fn obeys_from_spec() -> bool {
        true
    }

    open spec fn from_spec(v: Group22Var5) -> Counter {
        Counter { value: v.value, flags: Flags { value: v.flags }, time: Time::Synchronized(v.time) }
    }
}

impl From<Group22Var2> for Counter {
    fn from(v: Group22Var2) -> (r: Self) {
        let flags = Flags::new(v.flags);
        Counter { value: v.value as u32, flags, time: Time::Invalid }
    }
}

impl IntoMeasurement<Counter> for Group22Var2 {
    open spec fn spec_into(self) -> Counter {
        Counter { value: self.value as u32, flags: Flags { value: self.flags }, time: Time::Invalid }
    }

    fn into_measurement(self) -> (m: Counter) {
        let v = self;
        let flags = Flags::new(v.flags);
        Counter { value: v.value as u32, flags, time: Time::Invalid }
    }
}

impl vstd::std_specs::convert::FromSpecImpl<Group22Var2> for Counter {
    open spec fn obeys_from_spec() -> bool {
        true
    }

    open spec fn from_spec(v: Group22Var2) -> Counter {
        Counter { value: v.value as u32, flags: Flags { value: v.flags }, time: Time::Invalid }
    }
}

impl From<Group22Var1> for Counter {
    fn from(v: Group22Var1) -> (r: Self) {
        let flags = Flags::new(v.flags);
        Counter { value: v.value, flags, time: Time::Invalid }
    }
}

impl IntoMeasurement<Counter> for Group22Var1 {
    open spec fn spec_into(self) -> Counter {
        Counter { value: self.value, flags: Flags { value: self.flags }, time: Time::Invalid }
    }

    fn into_measurement(self) -> (m: Counter) {
        let v = self;
        let flags = Flags::new(v.flags);
        Counter { value: v.value, flags, time: Time::Invalid }
    }
}

impl vstd::std_specs::convert::FromSpecImpl<Group22Var1> for Counter {
    open spec fn obeys_from_spec() -> bool {
        true
    }

    open spec fn from_spec(v: Group22Var1) -> Counter {
        Counter { value: v.value, flags: Flags { value: v.flags }, time: Time::Invalid }
    }
}

impl From<Group20Var6> for Counter {
    fn from(v: Group20Var6) -> (r: Self) {
        let flags = Flags::new(ONLINE);
        Counter { value: v.value as u32, flags, time: Time::Invalid }
    }
}

impl IntoMeasurement<Counter> for Group20Var6 {
    open spec fn spec_into(self) -> Counter {
        Counter { value: self.value as u32, flags: Flags { value: ONLINE }, time: Time::Invalid }
    }

    fn into_measurement(self) -> (m: Counter) {
        let v = self;
        let flags = Flags::new(ONLINE);
        Counter { value: v.value as u32, flags, time: Time::Invalid }
    }
}

impl vstd::std_specs::convert::FromSpecImpl<Group20Var6> for Counter {
    open spec fn obeys_from_spec() -> bool {
        true
    }

    open spec fn from_spec(v: Group20Var6) -> Counter {
        Counter { value: v.value as u32, flags: Flags { value: ONLINE }, time: Time::Invalid }
    }
}

impl From<Group20Var5> for Counter {
    fn from(v: Group20Var5) -> (r: Self) {
        let flags = Flags::new(ONLINE);
        Counter { value: v.value, flags, time: Time::Invalid }
    }
}

impl IntoMeasurement<Counter> for Group20Var5 {
    open spec fn spec_into(self) -> Counter {
        Counter { value: self.value, flags: Flags { value: ONLINE }, time: Time::Invalid }
    }

    fn into_measurement(self) -> (m: Counter) {
        let v = self;
        let flags = Flags::new(ONLINE);
        Counter { value: v.value, flags, time: Time::Invalid }
    }
}

impl vstd::std_specs::convert::FromSpecImpl<Group20Var5> for Counter {
    open spec fn obeys_from_spec() -> bool {
        true
    }

    open spec fn from_spec(v: Group20Var5) -> Counter {
        Counter { value: v.value, flags: Flags { value: ONLINE }, time: Time::Invalid }
    }
}

impl From<Group20Var2> for Counter {
    fn from(v: Group20Var2) -> (r: Self) {
        let flags = Flags::new(v.flags);
        Counter { value: v.value as u32, flags, time: Time::Invalid }
    }
}

impl IntoMeasurement<Counter> for Group20Var2 {
    open spec fn spec_into(self) -> Counter {
        Counter { value: self.value as u32, flags: Flags { value: self.flags }, time: Time::Invalid }
    }

    fn into_measurement(self) -> (m: Counter) {
        let v = self;
        let flags = Flags::new(v.flags);
        Counter { value: v.value as u32, flags, time: Time::Invalid }
    }
}

impl vstd::std_specs::convert::FromSpecImpl<Group20Var2> for Counter {
    open spec fn obeys_from_spec() -> bool {
        true
    }

    open spec fn from_spec(v: Group20Var2) -> Counter {
        Counter { value: v.value as u32, flags: Flags { value: v.flags }, time: Time::Invalid }
    }
}

impl From<Group20Var1> for Counter {
    fn from(v: Group20Var1) -> (r: Self) {
        let flags = Flags::new(v.flags);
        Counter { value: v.value, flags, time: Time::Invalid }
    }
}

impl IntoMeasurement<Counter> for Group20Var1 {
    open spec fn spec_into(self) -> Counter {
        Counter { value: self.value, flags: Flags { value: self.flags }, time: Time::Invalid }
    }

    fn into_measurement(self) -> (m: Counter) {
        let v = self;
        let flags = Flags::new(v.flags);
        Counter { value: v.value, flags, time: Time::Invalid }
    }
}

impl vstd::std_specs::convert::FromSpecImpl<Group20Var1> for Counter {
    open spec fn obeys_from_spec() -> bool {
        true
    }

    open spec fn from_spec(v: Group20Var1) -> Counter {
        Counter { value: v.value, flags: Flags { value: v.flags }, time: Time::Invalid }
    }
}

impl From<Group23Var6> for FrozenCounter {
    fn from(v: Group23Var6) -> (r: Self) {
        let flags = Flags::new(v.flags);
        FrozenCounter { value: v.value as u32, flags, time: Time::Synchronized(v.time) }
    }
}

impl IntoMeasurement<FrozenCounter> for Group23Var6 {
    open spec fn spec_into(self) -> FrozenCounter {
        FrozenCounter { value: self.value as u32, flags: Flags { value: self.flags }, time: Time::Synchronized(self.time) }
    }

    fn into_measurement(self) -> (m: FrozenCounter) {
        let v = self;
        let flags = Flags::new(v.flags);
        FrozenCounter { value: v.value as u32, flags, time: Time::Synchronized(v.time) }
    }
}

impl vstd::std_specs::convert::FromSpecImpl<Group23Var6> for FrozenCounter {
    open spec fn obeys_from_spec() -> bool {
        true
    }

    open spec fn from_spec(v: Group23Var6) -> FrozenCounter {
        FrozenCounter { value: v.value as u32, flags: Flags { value: v.flags }, time: Time::Synchronized(v.time) }
    }
}

impl From<Group23Var5> for FrozenCounter {
    fn from(v: Group23Var5) -> (r: Self) {
        let flags = Flags::new(v.flags);
        FrozenCounter { value: v.value, flags, time: Time::Synchronized(v.time) }
    }
}

impl IntoMeasurement<FrozenCounter> for Group23Var5 {
    open spec fn spec_into(self) -> FrozenCounter {
        FrozenCounter { value: self.value, flags: Flags { value: self.flags }, time: Time::Synchronized(self.time) }
    }

    fn into_measurement(self) -> (m: FrozenCounter) {
        let v = self;
        let flags = Flags::new(v.flags);
        FrozenCounter { value: v.value, flags, time: Time::Synchronized(v.time) }
    }
}

impl vstd::std_specs::convert::FromSpecImpl<Group23Var5> for FrozenCounter {
    open spec fn obeys_from_spec() -> bool {
        true
    }

    open spec fn from_spec(v: Group23Var5) -> FrozenCounter {
        FrozenCounter { value: v.value, flags: Flags { value: v.flags }, time: Time::Synchronized(v.time) }
    }
}

impl From<Group23Var2> for FrozenCounter {
    fn from(v: Group23Var2) -> (r: Self) {
        let flags = Flags::new(v.flags);
        FrozenCounter { value: v.value as u32, flags, time: Time::Invalid }
    }
}

impl IntoMeasurement<FrozenCounter> for Group23Var2 {
    open spec fn spec_into(self) -> FrozenCounter {
        FrozenCounter { value: self.value as u32, flags: Flags { value: self.flags }, time: Time::Invalid }
    }

    fn into_measurement(self) -> (m: FrozenCounter) {
        let v = self;
        let flags = Flags::new(v.flags);
        FrozenCounter { value: v.value as u32, flags, time: Time::Invalid }
    }
}

impl vstd::std_specs::convert::FromSpecImpl<Group23Var2> for FrozenCounter {
    open spec fn obeys_from_spec() -> bool {
        true
    }

    open spec fn from_spec(v: Group23Var2) -> FrozenCounter {
        FrozenCounter { value: v.value as u32, flags: Flags { value: v.flags }, time: Time::Invalid }
    }
}

impl From<Group23Var1> for FrozenCounter {
    fn from(v: Group23Var1) -> (r: Self) {
        let flags = Flags::new(v.flags);
        FrozenCounter { value: v.value, flags, time: Time::Invalid }
    }
}

impl IntoMeasurement<FrozenCounter> for Group23Var1 {
    open spec fn spec_into(self) -> FrozenCounter {
        FrozenCounter { value: self.value, flags: Flags { value: self.flags }, time: Time::Invalid }
    }

    fn into_measurement(self) -> (m: FrozenCounter) {
        let v = self;
        let flags = Flags::new(v.flags);
        FrozenCounter { value: v.value, flags, time: Time::Invalid }
    }
}

impl vstd::std_specs::convert::FromSpecImpl<Group23Var1> for FrozenCounter {
    open spec fn obeys_from_spec() -> bool {
        true
    }

    open spec fn from_spec(v: Group23Var1) -> FrozenCounter {
        FrozenCounter { value: v.value, flags: Flags { value: v.flags }, time: Time::Invalid }
    }
}

impl From<Group21Var10> for FrozenCounter {
    fn from(v: Group21Var10) -> (r: Self) {
        let flags = Flags::new(ONLINE);
        FrozenCounter { value: v.value as u32, flags, time: Time::Invalid }
    }
}

impl IntoMeasurement<FrozenCounter> for Group21Var10 {
    open spec fn spec_into(self) -> FrozenCounter {
        FrozenCounter { value: self.value as u32, flags: Flags { value: ONLINE }, time: Time::Invalid }
    }

    fn into_measurement(self) -> (m: FrozenCounter) {
        let v = self;
        let flags = Flags::new(ONLINE);
        FrozenCounter { value: v.value as u32, flags, time: Time::Invalid }
    }
}

impl vstd::std_specs::convert::FromSpecImpl<Group21Var10> for FrozenCounter {
    open spec fn obeys_from_spec() -> bool {
        true
    }

    open spec fn from_spec(v: Group21Var10) -> FrozenCounter {
        FrozenCounter { value: v.value as u32, flags: Flags { value: ONLINE }, time: Time::Invalid }
    }
}

impl From<Group21Var9> for FrozenCounter {
    fn from(v: Group21Var9) -> (r: Self) {
        let flags = Flags::new(ONLINE);
        FrozenCounter { value: v.value, flags, time: Time::Invalid }
    }
}

impl IntoMeasurement<FrozenCounter> for Group21Var9 {
    open spec fn spec_into(self) -> FrozenCounter {
        FrozenCounter { value: self.value, flags: Flags { value: ONLINE }, time: Time::Invalid }
    }

    fn into_measurement(self) -> (m: FrozenCounter) {
        let v = self;
        let flags = Flags::new(ONLINE);
        FrozenCounter { value: v.value, flags, time: Time::Invalid }
    }
}

impl vstd::std_specs::convert::FromSpecImpl<Group21Var9> for FrozenCounter {
    open spec fn obeys_from_spec() -> bool {
        true
    }

    open spec fn from_spec(v: Group21Var9) -> FrozenCounter {
        FrozenCounter { value: v.value, flags: Flags { value: ONLINE }, time: Time::Invalid }
    }
}

impl From<Group21Var6> for FrozenCounter {
    fn from(v: Group21Var6) -> (r: Self) {
        let flags = Flags::new(v.flags);
        FrozenCounter { value: v.value as u32, flags, time: Time::Synchronized(v.time) }
    }
}

impl IntoMeasurement<FrozenCounter> for Group21Var6 {
    open spec fn spec_into(self) -> FrozenCounter {
        FrozenCounter { value: self.value as u32, flags: Flags { value: self.flags }, time: Time::Synchronized(self.time) }
    }

    fn into_measurement(self) -> (m: FrozenCounter) {
        let v = self;
        let flags = Flags::new(v.flags);
        FrozenCounter { value: v.value as u32, flags, time: Time::Synchronized(v.time) }
    }
}

impl vstd::std_specs::convert::FromSpecImpl<Group21Var6> for FrozenCounter {
    open spec fn obeys_from_spec() -> bool {
        true
    }

    open spec fn from_spec(v: Group21Var6) -> FrozenCounter {
        FrozenCounter { value: v.value as u32, flags: Flags { value: v.flags }, time: Time::Synchronized(v.time) }
    }
}

impl From<Group21Var5> for FrozenCounter {
    fn from(v: Group21Var5) -> (r: Self) {
        let flags = Flags::new(v.flags);
        FrozenCounter { value: v.value, flags, time: Time::Synchronized(v.time) }
    }
}

impl IntoMeasurement<FrozenCounter> for Group21Var5 {
    open spec fn spec_into(self) -> FrozenCounter {
        FrozenCounter { value: self.value, flags: Flags { value: self.flags }, time: Time::Synchronized(self.time) }
    }

    fn into_measurement(self) -> (m: FrozenCounter) {
        let v = self;
        let flags = Flags::new(v.flags);
        FrozenCounter { value: v.value, flags, time: Time::Synchronized(v.time) }
    }
}

impl vstd::std_specs::convert::FromSpecImpl<Group21Var5> for FrozenCounter {
    open spec fn obeys_from_spec() -> bool {
        true
    }

    open spec fn from_spec(v: Group21Var5) -> FrozenCounter {
        FrozenCounter { value: v.value, flags: Flags { value: v.flags }, time: Time::Synchronized(v.time) }
    }
}

impl From<Group21Var2> for FrozenCounter {
    fn from(v: Group21Var2) -> (r: Self) {
        let flags = Flags::new(v.flags);
        FrozenCounter { value: v.value as u32, flags, time: Time::Invalid }
    }
}

impl IntoMeasurement<FrozenCounter> for Group21Var2 {
    open spec fn spec_into(self) -> FrozenCounter {
        FrozenCounter { value: self.value as u32, flags: Flags { value: self.flags }, time: Time::Invalid }
    }

    fn into_measurement(self) -> (m: FrozenCounter) {
        let v = self;
        let flags = Flags::new(v.flags);
        FrozenCounter { value: v.value as u32, flags, time: Time::Invalid }
    }
}

impl vstd::std_specs::convert::FromSpecImpl<Group21Var2> for FrozenCounter {
    open spec fn obeys_from_spec() -> bool {
        true
    }

    open spec fn from_spec(v: Group21Var2) -> FrozenCounter {
        FrozenCounter { value: v.value as u32, flags: Flags { value: v.flags }, time: Time::Invalid }
    }
}

impl From<Group21Var1> for FrozenCounter {
    fn from(v: Group21Var1) -> (r: Self) {
        let flags = Flags::new(v.flags);
        FrozenCounter { value: v.value, flags, time: Time::Invalid }
    }
}

impl IntoMeasurement<FrozenCounter> for Group21Var1 {
    open spec fn spec_into(self) -> FrozenCounter {
        FrozenCounter { value: self.value, flags: Flags { value: self.flags }, time: Time::Invalid }
    }

    fn into_measurement(self) -> (m: FrozenCounter) {
        let v = self;
        let flags = Flags::new(v.flags);
        FrozenCounter { value: v.value, flags, time: Time::Invalid }
    }
}

impl vstd::std_specs::convert::FromSpecImpl<Group21Var1> for FrozenCounter {
    open spec fn obeys_from_spec() -> bool {
        true
    }

    open spec fn from_spec(v: Group21Var1) -> FrozenCounter {
        FrozenCounter { value: v.value, flags: Flags { value: v.flags }, time: Time::Invalid }
    }
}

impl Group2Var3 {
    /// the binary this event stands for, its relative time added to the
    /// common time of occurrence `cto`
    pub open spec fn spec_to_measurement(self, cto: Time) -> Binary {
        Binary {
            value: bit_of(self.flags, 7),
            flags: Flags { value: self.flags },
            time: cto.spec_checked_add(self.time),
        }
    }

    pub fn to_measurement(self, cto: Time) -> (b: Binary)
        ensures
            b == self.spec_to_measurement(cto),
    {
        let flags = Flags::new(self.flags);
        Binary { value: flags.state(), flags, time: cto.checked_add(self.time) }
    }
}

impl Group4Var3 {
    /// the double-bit binary this event stands for, its relative time added
    /// to the common time of occurrence `cto`
    pub open spec fn spec_to_measurement(self, cto: Time) -> DoubleBitBinary {
        DoubleBitBinary {
            value: Flags { value: self.flags }.spec_double_bit_state(),
            flags: Flags { value: self.flags },
            time: cto.spec_checked_add(self.time),
        }
    }

    pub fn to_measurement(self, cto: Time) -> (b: DoubleBitBinary)
        ensures
            b == self.spec_to_measurement(cto),
    {
        let flags = Flags::new(self.flags);
        DoubleBitBinary { value: flags.double_bit_state(), flags, time: cto.checked_add(self.time) }
    }
}

/// A binary object stands for the binary point whose state is bit 7 of its
/// flags (set exactly when the flags byte is at least 0x80), with those flags
/// kept whole, at the object's own time where it carries one (no time
/// otherwise); a g2v3 event is placed at its relative time after the common
/// time of occurrence.
pub proof fn lemma_binary_measurements(g1v2: Group1Var2, g2v1: Group2Var1, g2v2: Group2Var2, g2v3: Group2Var3, cto: Time)
    ensures
        g1v2.spec_into().value == (g1v2.flags >= 0x80),
        g1v2.spec_into().flags.value == g1v2.flags,
        g1v2.spec_into().time == Time::Invalid,
        g2v1.spec_into().value == (g2v1.flags >= 0x80),
        g2v1.spec_into().flags.value == g2v1.flags,
        g2v1.spec_into().time == Time::Invalid,
        g2v2.spec_into().value == (g2v2.flags >= 0x80),
        g2v2.spec_into().flags.value == g2v2.flags,
        g2v2.spec_into().time == Time::Synchronized(g2v2.time),
        g2v3.spec_to_measurement(cto).value == (g2v3.flags >= 0x80),
        g2v3.spec_to_measurement(cto).flags.value == g2v3.flags,
        g2v3.spec_to_measurement(cto).time == cto.spec_checked_add(g2v3.time),
{
    lemma_top_bits(g1v2.flags);
    lemma_top_bits(g2v1.flags);
    lemma_top_bits(g2v2.flags);
    lemma_top_bits(g2v3.flags);
}

/// A binary output status object stands for the status whose state is bit 7
/// of its flags (set exactly when the flags byte is at least 0x80), with those
/// flags kept whole, at the object's own time where it carries one (no time
/// otherwise).
pub proof fn lemma_binary_output_status_measurements(g10v2: Group10Var2, g11v1: Group11Var1, g11v2: Group11Var2, g13v1: Group13Var1, g13v2: Group13Var2)
    ensures
        g10v2.spec_into().value == (g10v2.flags >= 0x80),
        g10v2.spec_into().flags.value == g10v2.flags,
        g10v2.spec_into().time == Time::Invalid,
        g11v1.spec_into().value == (g11v1.flags >= 0x80),
        g11v1.spec_into().flags.value == g11v1.flags,
        g11v1.spec_into().time == Time::Invalid,
        g11v2.spec_into().value == (g11v2.flags >= 0x80),
        g11v2.spec_into().flags.value == g11v2.flags,
        g11v2.spec_into().time == Time::Synchronized(g11v2.time),
        g13v1.spec_into().value == (g13v1.flags >= 0x80),
        g13v1.spec_into().flags.value == g13v1.flags,
        g13v1.spec_into().time == Time::Invalid,
        g13v2.spec_into().value == (g13v2.flags >= 0x80),
        g13v2.spec_into().flags.value == g13v2.flags,
        g13v2.spec_into().time == Time::Synchronized(g13v2.time),
{
    lemma_top_bits(g10v2.flags);
    lemma_top_bits(g11v1.flags);
    lemma_top_bits(g11v2.flags);
    lemma_top_bits(g13v1.flags);
    lemma_top_bits(g13v2.flags);
}

/// A double-bit binary object stands for the point whose state is the
/// two-bit number held in bits 7 (high) and 6 (low) of its flags, that is the
/// flags byte divided by 64 (0 intermediate, 1 determined off, 2 determined on,
/// 3 indeterminate), with those flags kept whole, at the object's own time
/// where it carries one (no time otherwise); a g4v3 event is placed at its
/// relative time after the common time of occurrence.
pub proof fn lemma_double_bit_binary_measurements(g3v2: Group3Var2, g4v1: Group4Var1, g4v2: Group4Var2, g4v3: Group4Var3, cto: Time)
    ensures
        g3v2.spec_into().value.code() == g3v2.flags / 64,
        g3v2.spec_into().flags.value == g3v2.flags,
        g3v2.spec_into().time == Time::Invalid,
        g4v1.spec_into().value.code() == g4v1.flags / 64,
        g4v1.spec_into().flags.value == g4v1.flags,
        g4v1.spec_into().time == Time::Invalid,
        g4v2.spec_into().value.code() == g4v2.flags / 64,
        g4v2.spec_into().flags.value == g4v2.flags,
        g4v2.spec_into().time == Time::Synchronized(g4v2.time),
        g4v3.spec_to_measurement(cto).value.code() == g4v3.flags / 64,
        g4v3.spec_to_measurement(cto).flags.value == g4v3.flags,
        g4v3.spec_to_measurement(cto).time == cto.spec_checked_add(g4v3.time),
{
    lemma_top_bits(g3v2.flags);
    lemma_top_bits(g4v1.flags);
    lemma_top_bits(g4v2.flags);
    lemma_top_bits(g4v3.flags);
    DoubleBit::lemma_code_table();
}

/// A counter object stands for the counter holding its value (a 16-bit
/// value widened), its flags, or ONLINE alone (0x01) where the variation has
/// no flags, and its own time where it carries one (no time otherwise).
pub proof fn lemma_counter_measurements(g20v1: Group20Var1, g20v2: Group20Var2, g20v5: Group20Var5, g20v6: Group20Var6, g22v1: Group22Var1, g22v2: Group22Var2, g22v5: Group22Var5, g22v6: Group22Var6)
    ensures
        g20v1.spec_into().value == g20v1.value,
        g20v1.spec_into().flags.value == g20v1.flags,
        g20v1.spec_into().time == Time::Invalid,
        g20v2.spec_into().value == g20v2.value,
        g20v2.spec_into().flags.value == g20v2.flags,
        g20v2.spec_into().time == Time::Invalid,
        g20v5.spec_into().value == g20v5.value,
        g20v5.spec_into().flags.value == 0x01,
        g20v5.spec_into().time == Time::Invalid,
        g20v6.spec_into().value == g20v6.value,
        g20v6.spec_into().flags.value == 0x01,
        g20v6.spec_into().time == Time::Invalid,
        g22v1.spec_into().value == g22v1.value,
        g22v1.spec_into().flags.value == g22v1.flags,
        g22v1.spec_into().time == Time::Invalid,
        g22v2.spec_into().value == g22v2.value,
        g22v2.spec_into().flags.value == g22v2.flags,
        g22v2.spec_into().time == Time::Invalid,
        g22v5.spec_into().value == g22v5.value,
        g22v5.spec_into().flags.value == g22v5.flags,
        g22v5.spec_into().time == Time::Synchronized(g22v5.time),
        g22v6.spec_into().value == g22v6.value,
        g22v6.spec_into().flags.value == g22v6.flags,
        g22v6.spec_into().time == Time::Synchronized(g22v6.time),
{
}

/// A frozen counter object stands for the frozen counter holding its value (a
/// 16-bit value widened), its flags, or ONLINE alone (0x01) where the
/// variation has no flags, and its own time where it carries one (no time
/// otherwise).
pub proof fn lemma_frozen_counter_measurements(g21v1: Group21Var1, g21v2: Group21Var2, g21v5: Group21Var5, g21v6: Group21Var6, g21v9: Group21Var9, g21v10: Group21Var10, g23v1: Group23Var1, g23v2: Group23Var2, g23v5: Group23Var5, g23v6: Group23Var6)
    ensures
        g21v1.spec_into().value == g21v1.value,
        g21v1.spec_into().flags.value == g21v1.flags,
        g21v1.spec_into().time == Time::Invalid,
        g21v2.spec_into().value == g21v2.value,
        g21v2.spec_into().flags.value == g21v2.flags,
        g21v2.spec_into().time == Time::Invalid,
        g21v5.spec_into().value == g21v5.value,
        g21v5.spec_into().flags.value == g21v5.flags,
        g21v5.spec_into().time == Time::Synchronized(g21v5.time),
        g21v6.spec_into().value == g21v6.value,
        g21v6.spec_into().flags.value == g21v6.flags,
        g21v6.spec_into().time == Time::Synchronized(g21v6.time),
        g21v9.spec_into().value == g21v9.value,
        g21v9.spec_into().flags.value == 0x01,
        g21v9.spec_into().time == Time::Invalid,
        g21v10.spec_into().value == g21v10.value,
        g21v10.spec_into().flags.value == 0x01,
        g21v10.spec_into().time == Time::Invalid,
        g23v1.spec_into().value == g23v1.value,
        g23v1.spec_into().flags.value == g23v1.flags,
        g23v1.spec_into().time == Time::Invalid,
        g23v2.spec_into().value == g23v2.value,
        g23v2.spec_into().flags.value == g23v2.flags,
        g23v2.spec_into().time == Time::Invalid,
        g23v5.spec_into().value == g23v5.value,
        g23v5.spec_into().flags.value == g23v5.flags,
        g23v5.spec_into().time == Time::Synchronized(g23v5.time),
        g23v6.spec_into().value == g23v6.value,
        g23v6.spec_into().flags.value == g23v6.flags,
        g23v6.spec_into().time == Time::Synchronized(g23v6.time),
{
}


} // verus!
