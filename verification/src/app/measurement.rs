use crate::app::flags::Flags;
use crate::app::types::{DoubleBit, Timestamp, TIMESTAMP_MAX};
use vstd::prelude::*;

verus! {

/// A DNP3 time value that may be Invalid, Synchronized, or NotSynchronized
#[derive(Copy, Clone, Debug, PartialEq, Eq, Structural)]
pub enum Time {
    /// The timestamp is UTC synchronized at the remote device
    Synchronized(Timestamp),
    /// The device indicates the timestamp may be not be synchronized
    NotSynchronized(Timestamp),
    /// Timestamp is not valid, ignore the value and use a local timestamp
    Invalid,
}

impl Time {
    /// the time `x` milliseconds later, of the same kind; `Invalid` where the
    /// time is invalid or the sum does not fit in 48 bits
    pub open spec fn spec_checked_add(self, x: u16) -> Time {
        match self {
            Time::Invalid => Time::Invalid,
            Time::Synchronized(ts) => if ts.value + x <= TIMESTAMP_MAX {
                Time::Synchronized(Timestamp { value: (ts.value + x) as u64 })
            } else {
                Time::Invalid
            },
            Time::NotSynchronized(ts) => if ts.value + x <= TIMESTAMP_MAX {
                Time::NotSynchronized(Timestamp { value: (ts.value + x) as u64 })
            } else {
                Time::Invalid
            },
        }
    }

    pub fn checked_add(self, x: u16) -> (r: Self)
        ensures
            r == self.spec_checked_add(x),
            r == (match self {
                Time::Invalid => Time::Invalid,
                Time::Synchronized(ts) => if ts.value + x <= TIMESTAMP_MAX {
                    Time::Synchronized(Timestamp { value: (ts.value + x) as u64 })
                } else {
                    Time::Invalid
                },
                Time::NotSynchronized(ts) => if ts.value + x <= TIMESTAMP_MAX {
                    Time::NotSynchronized(Timestamp { value: (ts.value + x) as u64 })
                } else {
                    Time::Invalid
                },
            }),
    {
        match self {
            Time::Invalid => Time::Invalid,
            Time::Synchronized(ts) => match ts.checked_add(x) {
                Some(x) => Time::Synchronized(x),
                None => Time::Invalid,
            },
            Time::NotSynchronized(ts) => match ts.checked_add(x) {
                Some(x) => Time::NotSynchronized(x),
                None => Time::Invalid,
            },
        }
    }
}

/// Measurement type corresponding to groups 1 and 2
#[derive(Copy, Clone, Debug, PartialEq, Eq, Structural)]
pub struct Binary {
    /// value of the type
    pub value: bool,
    /// associated flags
    pub flags: Flags,
    /// associated time
    pub time: Time,
}

/// Measurement type corresponding to groups 3 and 4
#[derive(Copy, Clone, Debug, PartialEq, Eq, Structural)]
pub struct DoubleBitBinary {
    /// value of the type
    pub value: DoubleBit,
    /// associated flags
    pub flags: Flags,
    /// associated time
    pub time: Time,
}

/// Measurement type corresponding to groups 10 and 11
#[derive(Copy, Clone, Debug, PartialEq, Eq, Structural)]
pub struct BinaryOutputStatus {
    /// value of the type
    pub value: bool,
    /// associated flags
    pub flags: Flags,
    /// associated time
    pub time: Time,
}

/// Measurement type corresponding to groups 20 and 22
#[derive(Copy, Clone, Debug, PartialEq, Eq, Structural)]
pub struct Counter {
    /// value of the type
    pub value: u32,
    /// associated flags
    pub flags: Flags,
    /// associated time
    pub time: Time,
}

/// Measurement type corresponding to groups 21 and 23
#[derive(Copy, Clone, Debug, PartialEq, Eq, Structural)]
pub struct FrozenCounter {
    /// value of the type
    pub value: u32,
    /// associated flags
    pub flags: Flags,
    /// associated time
    pub time: Time,
}

} // verus!
