use crate::app::flags::{Flags, ONLINE};
use crate::app::types::{DoubleBit, Timestamp};
use vstd::prelude::*;

verus! {

/// A DNP3 time value, in the older measurement module
#[derive(Copy, Clone, Debug, PartialEq, Eq, Structural)]
pub enum Time {
    /// The timestamp is UTC synchronized at the remote device
    Synchronized(Timestamp),
    /// The device indicates the timestamp may be not be synchronized
    NotSynchronized(Timestamp),
    /// Timestamp is not valid, ignore the value and use a local timestamp
    Invalid,
}

#[derive(Copy, Clone, Debug, PartialEq, Eq, Structural)]
pub struct Binary {
    pub value: bool,
    pub flags: Flags,
    pub time: Time,
}

impl Binary {
    /// the value with ONLINE flags and no valid time
    pub fn from_raw_state(value: bool) -> (b: Self)
        ensures
            b == (Binary { value, flags: Flags { value: ONLINE }, time: Time::Invalid }),
    {
        Self { value, flags: Flags::new_online(), time: Time::Invalid }
    }
}

#[derive(Copy, Clone, Debug, PartialEq, Eq, Structural)]
pub struct DoubleBitBinary {
    pub value: DoubleBit,
    pub flags: Flags,
    pub time: Time,
}

impl DoubleBitBinary {
    /// the value with ONLINE flags and no valid time
    pub fn from_raw_state(value: DoubleBit) -> (b: Self)
        ensures
            b == (DoubleBitBinary { value, flags: Flags { value: ONLINE }, time: Time::Invalid }),
    {
        Self { value, flags: Flags::new_online(), time: Time::Invalid }
    }
}

#[derive(Copy, Clone, Debug, PartialEq, Eq, Structural)]
pub struct BinaryOutputStatus {
    pub value: bool,
    pub flags: Flags,
    pub time: Time,
}

impl BinaryOutputStatus {
    /// the value with ONLINE flags and no valid time
    pub fn from_raw_state(value: bool) -> (b: Self)
        ensures
            b == (BinaryOutputStatus { value, flags: Flags { value: ONLINE }, time: Time::Invalid }),
    {
        Self { value, flags: Flags::new_online(), time: Time::Invalid }
    }
}

#[derive(Copy, Clone, Debug, PartialEq, Eq, Structural)]
pub struct Counter {
    pub value: u32,
    pub flags: Flags,
    pub time: Time,
}

#[derive(Copy, Clone, Debug, PartialEq, Eq, Structural)]
pub struct FrozenCounter {
    pub value: u32,
    pub flags: Flags,
    pub time: Time,
}

} // verus!
