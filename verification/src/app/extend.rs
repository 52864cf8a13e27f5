use crate::app::gen::enums::CommandStatus;
use crate::app::gen::variations::fixed::Group12Var1;
use crate::app::types::ControlCode;
use vstd::prelude::*;

verus! {

impl Group12Var1 {
    /// construct a `Group12Var1` instance. The status field is automatically set to `CommandStatus::Success`
    pub fn new(code: ControlCode, count: u8, on_time: u32, off_time: u32) -> (g: Self)
        ensures
            g == (Group12Var1 { code, count, on_time, off_time, status: CommandStatus::Success }),
    {
        Self { code, count, on_time, off_time, status: CommandStatus::Success }
    }

    /// construct a `Group12Var1` instance from the `ControlCode`. Other fields are set to the following defaults:
    /// * count = 1
    /// * on_time = 1000
    /// * off_time = 1000
    /// * status = `CommandStatus::Success`
    pub fn from_code(code: ControlCode) -> (g: Self)
        ensures
            g == (Group12Var1 {
                code,
                count: 1,
                on_time: 1000,
                off_time: 1000,
                status: CommandStatus::Success,
            }),
    {
        Self { code, count: 1, on_time: 1000, off_time: 1000, status: CommandStatus::Success }
    }
}

} // verus!
