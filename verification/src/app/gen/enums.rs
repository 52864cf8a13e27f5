use vstd::prelude::*;

verus! {

/// Used in conjunction with the TCC field to specify a control operation
#[derive(Copy, Clone, Debug, PartialEq, Eq, Structural)]
pub enum OpType {
    Nul,
    PulseOn,
    PulseOff,
    LatchOn,
    LatchOff,
    /// captures any value not defined in the enumeration
    Unknown(u8),
}

impl OpType {
    /// the code that stands for this value on the wire
    pub open spec fn code(self) -> u8 {
        match self {
            OpType::Nul => 0,
            OpType::PulseOn => 1,
            OpType::PulseOff => 2,
            OpType::LatchOn => 3,
            OpType::LatchOff => 4,
            OpType::Unknown(x) => x,
        }
    }

    /// whether `x` is one of the codes the enumeration names
    pub open spec fn is_defined_code(x: u8) -> bool {
        x == 0 || x == 1 || x == 2 || x == 3 || x == 4
    }

    /// values that `from` can produce: `Unknown` never holds a named code
    pub open spec fn canonical(self) -> bool {
        self matches OpType::Unknown(x) ==> !Self::is_defined_code(x)
    }

    /// the value that stands for the code `x`
    pub open spec fn from_code_spec(x: u8) -> Self {
        match x {
            0 => OpType::Nul,
            1 => OpType::PulseOn,
            2 => OpType::PulseOff,
            3 => OpType::LatchOn,
            4 => OpType::LatchOff,
            _ => OpType::Unknown(x),
        }
    }

    /// `from_code_spec` gives the canonical value of each code
    pub proof fn lemma_from_code_spec(x: u8)
        ensures
            Self::from_code_spec(x).code() == x,
            Self::from_code_spec(x).canonical(),
    {
    }

    /// the canonical values are exactly those `from_code_spec` gives
    pub proof fn lemma_canonical_roundtrip(self)
        requires
            self.canonical(),
        ensures
            Self::from_code_spec(self.code()) == self,
    {
    }

    pub fn from(x: u8) -> (r: Self)
        ensures
            r == Self::from_code_spec(x),
            r.code() == x,
            r.canonical(),
    {
        match x {
            0 => OpType::Nul,
            1 => OpType::PulseOn,
            2 => OpType::PulseOff,
            3 => OpType::LatchOn,
            4 => OpType::LatchOff,
            _ => OpType::Unknown(x),
        }
    }

    pub fn as_u8(self) -> (x: u8)
        ensures
            x == self.code(),
    {
        match self {
            OpType::Nul => 0,
            OpType::PulseOn => 1,
            OpType::PulseOff => 2,
            OpType::LatchOn => 3,
            OpType::LatchOff => 4,
            OpType::Unknown(x) => x,
        }
    }

    /// `from` undoes `as_u8` on every value `from` can produce
    pub proof fn lemma_code_roundtrip(self, x: u8)
        requires
            self.canonical(),
            x == self.code(),
        ensures
            forall|other: Self| #[trigger] other.code() == x && other.canonical() ==> other == self,
    {
    }
}

/// Trip-close code of a control relay output block
#[derive(Copy, Clone, Debug, PartialEq, Eq, Structural)]
pub enum TripCloseCode {
    Nul,
    Close,
    Trip,
    Reserved,
    /// captures any value not defined in the enumeration
    Unknown(u8),
}

impl TripCloseCode {
    /// the code that stands for this value on the wire
    pub open spec fn code(self) -> u8 {
        match self {
            TripCloseCode::Nul => 0,
            TripCloseCode::Close => 1,
            TripCloseCode::Trip => 2,
            TripCloseCode::Reserved => 3,
            TripCloseCode::Unknown(x) => x,
        }
    }

    /// whether `x` is one of the codes the enumeration names
    pub open spec fn is_defined_code(x: u8) -> bool {
        x == 0 || x == 1 || x == 2 || x == 3
    }

    /// values that `from` can produce: `Unknown` never holds a named code
    pub open spec fn canonical(self) -> bool {
        self matches TripCloseCode::Unknown(x) ==> !Self::is_defined_code(x)
    }

    /// the value that stands for the code `x`
    pub open spec fn from_code_spec(x: u8) -> Self {
        match x {
            0 => TripCloseCode::Nul,
            1 => TripCloseCode::Close,
            2 => TripCloseCode::Trip,
            3 => TripCloseCode::Reserved,
            _ => TripCloseCode::Unknown(x),
        }
    }

    /// `from_code_spec` gives the canonical value of each code
    pub proof fn lemma_from_code_spec(x: u8)
        ensures
            Self::from_code_spec(x).code() == x,
            Self::from_code_spec(x).canonical(),
    {
    }

    /// the canonical values are exactly those `from_code_spec` gives
    pub proof fn lemma_canonical_roundtrip(self)
        requires
            self.canonical(),
        ensures
            Self::from_code_spec(self.code()) == self,
    {
    }

    pub fn from(x: u8) -> (r: Self)
        ensures
            r == Self::from_code_spec(x),
            r.code() == x,
            r.canonical(),
    {
        match x {
            0 => TripCloseCode::Nul,
            1 => TripCloseCode::Close,
            2 => TripCloseCode::Trip,
            3 => TripCloseCode::Reserved,
            _ => TripCloseCode::Unknown(x),
        }
    }

    pub fn as_u8(self) -> (x: u8)
        ensures
            x == self.code(),
    {
        match self {
            TripCloseCode::Nul => 0,
            TripCloseCode::Close => 1,
            TripCloseCode::Trip => 2,
            TripCloseCode::Reserved => 3,
            TripCloseCode::Unknown(x) => x,
        }
    }

    /// `from` undoes `as_u8` on every value `from` can produce
    pub proof fn lemma_code_roundtrip(self, x: u8)
        requires
            self.canonical(),
            x == self.code(),
        ensures
            forall|other: Self| #[trigger] other.code() == x && other.canonical() ==> other == self,
    {
    }
}

/// An enumeration of result codes received from an outstation in response to command request.
/// These correspond to those defined in the DNP3 standard
#[derive(Copy, Clone, Debug, PartialEq, Eq, Structural)]
pub enum CommandStatus {
    /// command was accepted, initiated, or queued
    Success,
    /// command timed out before completing
    Timeout,
    /// command requires being selected before operate, configuration issue
    NoSelect,
    /// bad control code or timing values
    FormatError,
    /// command is not implemented
    NotSupported,
    /// command is all ready in progress or its all ready in that mode
    AlreadyActive,
    /// something is stopping the command, often a local/remote interlock
    HardwareError,
    /// the function governed by the control is in local only control
    Local,
    /// the command has been done too often and has been throttled
    TooManyOps,
    /// the command was rejected because the device denied it or an RTU intercepted it
    NotAuthorized,
    /// command not accepted because it was prevented or inhibited by a local automation process, such as interlocking logic or synchrocheck
    AutomationInhibit,
    /// command not accepted because the device cannot process any more activities than are presently in progress
    ProcessingLimited,
    /// command not accepted because the value is outside the acceptable range permitted for this point
    OutOfRange,
    /// command not accepted because the outstation is forwarding the request to another downstream device which reported LOCAL
    DownstreamLocal,
    /// command not accepted because the outstation has already completed the requested operation
    AlreadyComplete,
    /// command not accepted because the requested function is specifically blocked at the outstation
    Blocked,
    /// command not accepted because the operation was cancelled
    Canceled,
    /// command not accepted because another master is communicating with the outstation and has exclusive rights to operate this control point
    BlockedOtherMaster,
    /// command not accepted because the outstation is forwarding the request to another downstream device which cannot be reached or is otherwise incapable of performing the request
    DownstreamFail,
    /// (deprecated) indicates the outstation shall not issue or perform the control operation
    NonParticipating,
    /// captures any value not defined in the enumeration
    Unknown(u8),
}

impl CommandStatus {
    /// the code that stands for this value on the wire
    pub open spec fn code(self) -> u8 {
        match self {
            CommandStatus::Success => 0,
            CommandStatus::Timeout => 1,
            CommandStatus::NoSelect => 2,
            CommandStatus::FormatError => 3,
            CommandStatus::NotSupported => 4,
            CommandStatus::AlreadyActive => 5,
            CommandStatus::HardwareError => 6,
            CommandStatus::Local => 7,
            CommandStatus::TooManyOps => 8,
            CommandStatus::NotAuthorized => 9,
            CommandStatus::AutomationInhibit => 10,
            CommandStatus::ProcessingLimited => 11,
            CommandStatus::OutOfRange => 12,
            CommandStatus::DownstreamLocal => 13,
            CommandStatus::AlreadyComplete => 14,
            CommandStatus::Blocked => 15,
            CommandStatus::Canceled => 16,
            CommandStatus::BlockedOtherMaster => 17,
            CommandStatus::DownstreamFail => 18,
            CommandStatus::NonParticipating => 126,
            CommandStatus::Unknown(x) => x,
        }
    }

    /// whether `x` is one of the codes the enumeration names
    pub open spec fn is_defined_code(x: u8) -> bool {
        x == 0 || x == 1 || x == 2 || x == 3 || x == 4 || x == 5 || x == 6 || x == 7 || x == 8 || x == 9 || x == 10 || x == 11 || x == 12 || x == 13 || x == 14 || x == 15 || x == 16 || x == 17 || x == 18 || x == 126
    }

    /// values that `from` can produce: `Unknown` never holds a named code
    pub open spec fn canonical(self) -> bool {
        self matches CommandStatus::Unknown(x) ==> !Self::is_defined_code(x)
    }

    /// the value that stands for the code `x`
    pub open spec fn from_code_spec(x: u8) -> Self {
        match x {
            0 => CommandStatus::Success,
            1 => CommandStatus::Timeout,
            2 => CommandStatus::NoSelect,
            3 => CommandStatus::FormatError,
            4 => CommandStatus::NotSupported,
            5 => CommandStatus::AlreadyActive,
            6 => CommandStatus::HardwareError,
            7 => CommandStatus::Local,
            8 => CommandStatus::TooManyOps,
            9 => CommandStatus::NotAuthorized,
            10 => CommandStatus::AutomationInhibit,
            11 => CommandStatus::ProcessingLimited,
            12 => CommandStatus::OutOfRange,
            13 => CommandStatus::DownstreamLocal,
            14 => CommandStatus::AlreadyComplete,
            15 => CommandStatus::Blocked,
            16 => CommandStatus::Canceled,
            17 => CommandStatus::BlockedOtherMaster,
            18 => CommandStatus::DownstreamFail,
            126 => CommandStatus::NonParticipating,
            _ => CommandStatus::Unknown(x),
        }
    }

    /// `from_code_spec` gives the canonical value of each code
    pub proof fn lemma_from_code_spec(x: u8)
        ensures
            Self::from_code_spec(x).code() == x,
            Self::from_code_spec(x).canonical(),
    {
    }

    /// the canonical values are exactly those `from_code_spec` gives
    pub proof fn lemma_canonical_roundtrip(self)
        requires
            self.canonical(),
        ensures
            Self::from_code_spec(self.code()) == self,
    {
    }

    pub fn from(x: u8) -> (r: Self)
        ensures
            r == Self::from_code_spec(x),
            r.code() == x,
            r.canonical(),
    {
        match x {
            0 => CommandStatus::Success,
            1 => CommandStatus::Timeout,
            2 => CommandStatus::NoSelect,
            3 => CommandStatus::FormatError,
            4 => CommandStatus::NotSupported,
            5 => CommandStatus::AlreadyActive,
            6 => CommandStatus::HardwareError,
            7 => CommandStatus::Local,
            8 => CommandStatus::TooManyOps,
            9 => CommandStatus::NotAuthorized,
            10 => CommandStatus::AutomationInhibit,
            11 => CommandStatus::ProcessingLimited,
            12 => CommandStatus::OutOfRange,
            13 => CommandStatus::DownstreamLocal,
            14 => CommandStatus::AlreadyComplete,
            15 => CommandStatus::Blocked,
            16 => CommandStatus::Canceled,
            17 => CommandStatus::BlockedOtherMaster,
            18 => CommandStatus::DownstreamFail,
            126 => CommandStatus::NonParticipating,
            _ => CommandStatus::Unknown(x),
        }
    }

    pub fn as_u8(self) -> (x: u8)
        ensures
            x == self.code(),
    {
        match self {
            CommandStatus::Success => 0,
            CommandStatus::Timeout => 1,
            CommandStatus::NoSelect => 2,
            CommandStatus::FormatError => 3,
            CommandStatus::NotSupported => 4,
            CommandStatus::AlreadyActive => 5,
            CommandStatus::HardwareError => 6,
            CommandStatus::Local => 7,
            CommandStatus::TooManyOps => 8,
            CommandStatus::NotAuthorized => 9,
            CommandStatus::AutomationInhibit => 10,
            CommandStatus::ProcessingLimited => 11,
            CommandStatus::OutOfRange => 12,
            CommandStatus::DownstreamLocal => 13,
            CommandStatus::AlreadyComplete => 14,
            CommandStatus::Blocked => 15,
            CommandStatus::Canceled => 16,
            CommandStatus::BlockedOtherMaster => 17,
            CommandStatus::DownstreamFail => 18,
            CommandStatus::NonParticipating => 126,
            CommandStatus::Unknown(x) => x,
        }
    }

    /// `from` undoes `as_u8` on every value `from` can produce
    pub proof fn lemma_code_roundtrip(self, x: u8)
        requires
            self.canonical(),
            x == self.code(),
        ensures
            forall|other: Self| #[trigger] other.code() == x && other.canonical() ==> other == self,
    {
    }
}

/// application object header types
#[derive(Copy, Clone, Debug, PartialEq, Eq, Structural)]
pub enum QualifierCode {
    Range8,
    Range16,
    AllObjects,
    Count8,
    Count16,
    CountAndPrefix8,
    CountAndPrefix16,
    FreeFormat16,
}

impl QualifierCode {
    /// the code that stands for this value on the wire
    pub open spec fn code(self) -> u8 {
        match self {
            QualifierCode::Range8 => 0x0,
            QualifierCode::Range16 => 0x1,
            QualifierCode::AllObjects => 0x6,
            QualifierCode::Count8 => 0x7,
            QualifierCode::Count16 => 0x8,
            QualifierCode::CountAndPrefix8 => 0x17,
            QualifierCode::CountAndPrefix16 => 0x28,
            QualifierCode::FreeFormat16 => 0x5B,
        }
    }

    /// the value whose code is `x`, if any
    pub open spec fn spec_from(x: u8) -> Option<Self> {
        match x {
            0x0 => Some(QualifierCode::Range8),
            0x1 => Some(QualifierCode::Range16),
            0x6 => Some(QualifierCode::AllObjects),
            0x7 => Some(QualifierCode::Count8),
            0x8 => Some(QualifierCode::Count16),
            0x17 => Some(QualifierCode::CountAndPrefix8),
            0x28 => Some(QualifierCode::CountAndPrefix16),
            0x5B => Some(QualifierCode::FreeFormat16),
            _ => None,
        }
    }

    /// the value whose code is `x`, or `None` where no value has that code
    pub fn from(x: u8) -> (r: Option<Self>)
        ensures
            r matches Some(v) ==> v.code() == x,
            r is None ==> forall|v: Self| #[trigger] v.code() != x,
            r == Self::spec_from(x),
    {
        match x {
            0x0 => Some(QualifierCode::Range8),
            0x1 => Some(QualifierCode::Range16),
            0x6 => Some(QualifierCode::AllObjects),
            0x7 => Some(QualifierCode::Count8),
            0x8 => Some(QualifierCode::Count16),
            0x17 => Some(QualifierCode::CountAndPrefix8),
            0x28 => Some(QualifierCode::CountAndPrefix16),
            0x5B => Some(QualifierCode::FreeFormat16),
            _ => None,
        }
    }

    pub fn as_u8(self) -> (x: u8)
        ensures
            x == self.code(),
    {
        match self {
            QualifierCode::Range8 => 0x0,
            QualifierCode::Range16 => 0x1,
            QualifierCode::AllObjects => 0x6,
            QualifierCode::Count8 => 0x7,
            QualifierCode::Count16 => 0x8,
            QualifierCode::CountAndPrefix8 => 0x17,
            QualifierCode::CountAndPrefix16 => 0x28,
            QualifierCode::FreeFormat16 => 0x5B,
        }
    }

    /// no two values share a code
    pub proof fn lemma_code_injective(self, other: Self)
        ensures
            self.code() == other.code() ==> self == other,
    {
    }
}

/// Application layer function code enumeration
#[derive(Copy, Clone, Debug, PartialEq, Eq, Structural)]
pub enum FunctionCode {
    /// Master sends this to an outstation to confirm the receipt of an Application Layer fragment
    Confirm,
    /// Outstation shall return the data specified by the objects in the request
    Read,
    /// Outstation shall store the data specified by the objects in the request
    Write,
    /// Outstation shall select (or arm) the output points specified by the objects in the request in preparation for a subsequent operate command
    Select,
    /// Outstation shall activate the output points selected (or armed) by a previous select function code command
    Operate,
    /// Outstation shall immediately actuate the output points specified by the objects in the request
    DirectOperate,
    /// Same as DirectOperate but outstation shall not send a response
    DirectOperateNoResponse,
    /// Outstation shall copy the point data values specified by the objects in the request to a separate freeze buffer
    ImmediateFreeze,
    /// Same as ImmediateFreeze but outstation shall not send a response
    ImmediateFreezeNoResponse,
    /// Outstation shall copy the point data values specified by the objects in the request into a separate freeze buffer and then clear the values
    FreezeClear,
    /// Same as FreezeClear but outstation shall not send a response
    FreezeClearNoResponse,
    /// Outstation shall copy the point data values specified by the objects in the request to a separate freeze buffer at the time and/or time intervals specified in a special time data information object
    FreezeAtTime,
    /// Same as FreezeAtTime but outstation shall not send a response
    FreezeAtTimeNoResponse,
    /// Outstation shall perform a complete reset of all hardware and software in the device
    ColdRestart,
    /// Outstation shall reset only portions of the device
    WarmRestart,
    /// Obsolete-Do not use for new designs
    InitializeData,
    /// Outstation shall place the applications specified by the objects in the request into the ready to run state
    InitializeApplication,
    /// Outstation shall start running the applications specified by the objects in the request
    StartApplication,
    /// Outstation shall stop running the applications specified by the objects in the request
    StopApplication,
    /// This code is deprecated-Do not use for new designs
    SaveConfiguration,
    /// Enables outstation to initiate unsolicited responses from points specified by the objects in the request
    EnabledUnsolicited,
    /// Prevents outstation from initiating unsolicited responses from points specified by the objects in the request
    DisableUnsolicited,
    /// Outstation shall assign the events generated by the points specified by the objects in the request to one of the classes
    AssignClass,
    /// Outstation shall report the time it takes to process and initiate the transmission of its response
    DelayMeasure,
    /// Outstation shall save the time when the last octet of this message is received
    RecordCurrentTime,
    /// Outstation shall open a file
    OpenFile,
    /// Outstation shall close a file
    CloseFile,
    /// Outstation shall delete a file
    DeleteFile,
    /// Outstation shall retrieve information about a file
    GetFileInfo,
    /// Outstation shall return a file authentication key
    AuthenticateFile,
    /// Outstation shall abort a file transfer operation
    AbortFile,
    /// Master shall interpret this fragment as an Application Layer response to an ApplicationLayer request
    Response,
    /// Master shall interpret this fragment as an unsolicited response that was not prompted by an explicit request
    UnsolicitedResponse,
}

impl FunctionCode {
    /// the code that stands for this value on the wire
    pub open spec fn code(self) -> u8 {
        match self {
            FunctionCode::Confirm => 0,
            FunctionCode::Read => 1,
            FunctionCode::Write => 2,
            FunctionCode::Select => 3,
            FunctionCode::Operate => 4,
            FunctionCode::DirectOperate => 5,
            FunctionCode::DirectOperateNoResponse => 6,
            FunctionCode::ImmediateFreeze => 7,
            FunctionCode::ImmediateFreezeNoResponse => 8,
            FunctionCode::FreezeClear => 9,
            FunctionCode::FreezeClearNoResponse => 10,
            FunctionCode::FreezeAtTime => 11,
            FunctionCode::FreezeAtTimeNoResponse => 12,
            FunctionCode::ColdRestart => 13,
            FunctionCode::WarmRestart => 14,
            FunctionCode::InitializeData => 15,
            FunctionCode::InitializeApplication => 16,
            FunctionCode::StartApplication => 17,
            FunctionCode::StopApplication => 18,
            FunctionCode::SaveConfiguration => 19,
            FunctionCode::EnabledUnsolicited => 20,
            FunctionCode::DisableUnsolicited => 21,
            FunctionCode::AssignClass => 22,
            FunctionCode::DelayMeasure => 23,
            FunctionCode::RecordCurrentTime => 24,
            FunctionCode::OpenFile => 25,
            FunctionCode::CloseFile => 26,
            FunctionCode::DeleteFile => 27,
            FunctionCode::GetFileInfo => 28,
            FunctionCode::AuthenticateFile => 29,
            FunctionCode::AbortFile => 30,
            FunctionCode::Response => 129,
            FunctionCode::UnsolicitedResponse => 130,
        }
    }

    /// the value whose code is `x`, if any
    pub open spec fn spec_from(x: u8) -> Option<Self> {
        match x {
            0 => Some(FunctionCode::Confirm),
            1 => Some(FunctionCode::Read),
            2 => Some(FunctionCode::Write),
            3 => Some(FunctionCode::Select),
            4 => Some(FunctionCode::Operate),
            5 => Some(FunctionCode::DirectOperate),
            6 => Some(FunctionCode::DirectOperateNoResponse),
            7 => Some(FunctionCode::ImmediateFreeze),
            8 => Some(FunctionCode::ImmediateFreezeNoResponse),
            9 => Some(FunctionCode::FreezeClear),
            10 => Some(FunctionCode::FreezeClearNoResponse),
            11 => Some(FunctionCode::FreezeAtTime),
            12 => Some(FunctionCode::FreezeAtTimeNoResponse),
            13 => Some(FunctionCode::ColdRestart),
            14 => Some(FunctionCode::WarmRestart),
            15 => Some(FunctionCode::InitializeData),
            16 => Some(FunctionCode::InitializeApplication),
            17 => Some(FunctionCode::StartApplication),
            18 => Some(FunctionCode::StopApplication),
            19 => Some(FunctionCode::SaveConfiguration),
            20 => Some(FunctionCode::EnabledUnsolicited),
            21 => Some(FunctionCode::DisableUnsolicited),
            22 => Some(FunctionCode::AssignClass),
            23 => Some(FunctionCode::DelayMeasure),
            24 => Some(FunctionCode::RecordCurrentTime),
            25 => Some(FunctionCode::OpenFile),
            26 => Some(FunctionCode::CloseFile),
            27 => Some(FunctionCode::DeleteFile),
            28 => Some(FunctionCode::GetFileInfo),
            29 => Some(FunctionCode::AuthenticateFile),
            30 => Some(FunctionCode::AbortFile),
            129 => Some(FunctionCode::Response),
            130 => Some(FunctionCode::UnsolicitedResponse),
            _ => None,
        }
    }

    /// the value whose code is `x`, or `None` where no value has that code
    pub fn from(x: u8) -> (r: Option<Self>)
        ensures
            r matches Some(v) ==> v.code() == x,
            r is None ==> forall|v: Self| #[trigger] v.code() != x,
            r == Self::spec_from(x),
    {
        match x {
            0 => Some(FunctionCode::Confirm),
            1 => Some(FunctionCode::Read),
            2 => Some(FunctionCode::Write),
            3 => Some(FunctionCode::Select),
            4 => Some(FunctionCode::Operate),
            5 => Some(FunctionCode::DirectOperate),
            6 => Some(FunctionCode::DirectOperateNoResponse),
            7 => Some(FunctionCode::ImmediateFreeze),
            8 => Some(FunctionCode::ImmediateFreezeNoResponse),
            9 => Some(FunctionCode::FreezeClear),
            10 => Some(FunctionCode::FreezeClearNoResponse),
            11 => Some(FunctionCode::FreezeAtTime),
            12 => Some(FunctionCode::FreezeAtTimeNoResponse),
            13 => Some(FunctionCode::ColdRestart),
            14 => Some(FunctionCode::WarmRestart),
            15 => Some(FunctionCode::InitializeData),
            16 => Some(FunctionCode::InitializeApplication),
            17 => Some(FunctionCode::StartApplication),
            18 => Some(FunctionCode::StopApplication),
            19 => Some(FunctionCode::SaveConfiguration),
            20 => Some(FunctionCode::EnabledUnsolicited),
            21 => Some(FunctionCode::DisableUnsolicited),
            22 => Some(FunctionCode::AssignClass),
            23 => Some(FunctionCode::DelayMeasure),
            24 => Some(FunctionCode::RecordCurrentTime),
            25 => Some(FunctionCode::OpenFile),
            26 => Some(FunctionCode::CloseFile),
            27 => Some(FunctionCode::DeleteFile),
            28 => Some(FunctionCode::GetFileInfo),
            29 => Some(FunctionCode::AuthenticateFile),
            30 => Some(FunctionCode::AbortFile),
            129 => Some(FunctionCode::Response),
            130 => Some(FunctionCode::UnsolicitedResponse),
            _ => None,
        }
    }

    pub fn as_u8(self) -> (x: u8)
        ensures
            x == self.code(),
    {
        match self {
            FunctionCode::Confirm => 0,
            FunctionCode::Read => 1,
            FunctionCode::Write => 2,
            FunctionCode::Select => 3,
            FunctionCode::Operate => 4,
            FunctionCode::DirectOperate => 5,
            FunctionCode::DirectOperateNoResponse => 6,
            FunctionCode::ImmediateFreeze => 7,
            FunctionCode::ImmediateFreezeNoResponse => 8,
            FunctionCode::FreezeClear => 9,
            FunctionCode::FreezeClearNoResponse => 10,
            FunctionCode::FreezeAtTime => 11,
            FunctionCode::FreezeAtTimeNoResponse => 12,
            FunctionCode::ColdRestart => 13,
            FunctionCode::WarmRestart => 14,
            FunctionCode::InitializeData => 15,
            FunctionCode::InitializeApplication => 16,
            FunctionCode::StartApplication => 17,
            FunctionCode::StopApplication => 18,
            FunctionCode::SaveConfiguration => 19,
            FunctionCode::EnabledUnsolicited => 20,
            FunctionCode::DisableUnsolicited => 21,
            FunctionCode::AssignClass => 22,
            FunctionCode::DelayMeasure => 23,
            FunctionCode::RecordCurrentTime => 24,
            FunctionCode::OpenFile => 25,
            FunctionCode::CloseFile => 26,
            FunctionCode::DeleteFile => 27,
            FunctionCode::GetFileInfo => 28,
            FunctionCode::AuthenticateFile => 29,
            FunctionCode::AbortFile => 30,
            FunctionCode::Response => 129,
            FunctionCode::UnsolicitedResponse => 130,
        }
    }

    /// no two values share a code
    pub proof fn lemma_code_injective(self, other: Self)
        ensures
            self.code() == other.code() ==> self == other,
    {
    }
}

impl OpType {
    /// The DNP3 code table: each operation type of a control relay output block is encoded by the number
    /// the standard assigns to it, that number decodes to it, and every other
    /// number is kept as `Unknown`.
    pub proof fn lemma_code_table()
        ensures
            OpType::from_code_spec(0) == OpType::Nul,
            OpType::from_code_spec(1) == OpType::PulseOn,
            OpType::from_code_spec(2) == OpType::PulseOff,
            OpType::from_code_spec(3) == OpType::LatchOn,
            OpType::from_code_spec(4) == OpType::LatchOff,
            OpType::Nul.code() == 0,
            OpType::PulseOn.code() == 1,
            OpType::PulseOff.code() == 2,
            OpType::LatchOn.code() == 3,
            OpType::LatchOff.code() == 4,
            forall|x: u8| (5 <= x) ==> #[trigger] OpType::from_code_spec(x) == OpType::Unknown(x),
            forall|x: u8| #[trigger] OpType::Unknown(x).code() == x,
    {
    }
}

impl CommandStatus {
    /// The DNP3 code table: each status of a control command is encoded by the number
    /// the standard assigns to it, that number decodes to it, and every other
    /// number is kept as `Unknown`.
    pub proof fn lemma_code_table()
        ensures
            CommandStatus::from_code_spec(0) == CommandStatus::Success,
            CommandStatus::from_code_spec(1) == CommandStatus::Timeout,
            CommandStatus::from_code_spec(2) == CommandStatus::NoSelect,
            CommandStatus::from_code_spec(3) == CommandStatus::FormatError,
            CommandStatus::from_code_spec(4) == CommandStatus::NotSupported,
            CommandStatus::from_code_spec(5) == CommandStatus::AlreadyActive,
            CommandStatus::from_code_spec(6) == CommandStatus::HardwareError,
            CommandStatus::from_code_spec(7) == CommandStatus::Local,
            CommandStatus::from_code_spec(8) == CommandStatus::TooManyOps,
            CommandStatus::from_code_spec(9) == CommandStatus::NotAuthorized,
            CommandStatus::from_code_spec(10) == CommandStatus::AutomationInhibit,
            CommandStatus::from_code_spec(11) == CommandStatus::ProcessingLimited,
            CommandStatus::from_code_spec(12) == CommandStatus::OutOfRange,
            CommandStatus::from_code_spec(13) == CommandStatus::DownstreamLocal,
            CommandStatus::from_code_spec(14) == CommandStatus::AlreadyComplete,
            CommandStatus::from_code_spec(15) == CommandStatus::Blocked,
            CommandStatus::from_code_spec(16) == CommandStatus::Canceled,
            CommandStatus::from_code_spec(17) == CommandStatus::BlockedOtherMaster,
            CommandStatus::from_code_spec(18) == CommandStatus::DownstreamFail,
            CommandStatus::from_code_spec(126) == CommandStatus::NonParticipating,
            CommandStatus::Success.code() == 0,
            CommandStatus::Timeout.code() == 1,
            CommandStatus::NoSelect.code() == 2,
            CommandStatus::FormatError.code() == 3,
            CommandStatus::NotSupported.code() == 4,
            CommandStatus::AlreadyActive.code() == 5,
            CommandStatus::HardwareError.code() == 6,
            CommandStatus::Local.code() == 7,
            CommandStatus::TooManyOps.code() == 8,
            CommandStatus::NotAuthorized.code() == 9,
            CommandStatus::AutomationInhibit.code() == 10,
            CommandStatus::ProcessingLimited.code() == 11,
            CommandStatus::OutOfRange.code() == 12,
            CommandStatus::DownstreamLocal.code() == 13,
            CommandStatus::AlreadyComplete.code() == 14,
            CommandStatus::Blocked.code() == 15,
            CommandStatus::Canceled.code() == 16,
            CommandStatus::BlockedOtherMaster.code() == 17,
            CommandStatus::DownstreamFail.code() == 18,
            CommandStatus::NonParticipating.code() == 126,
            forall|x: u8| (19 <= x <= 125) || (127 <= x) ==> #[trigger] CommandStatus::from_code_spec(x) == CommandStatus::Unknown(x),
            forall|x: u8| #[trigger] CommandStatus::Unknown(x).code() == x,
    {
    }
}

impl QualifierCode {
    /// The DNP3 code table: each object header qualifier is encoded by the number
    /// the standard assigns to it, that number decodes to it, and every other
    /// number is decoded to nothing.
    pub proof fn lemma_code_table()
        ensures
            QualifierCode::spec_from(0x00) == Some(QualifierCode::Range8),
            QualifierCode::spec_from(0x01) == Some(QualifierCode::Range16),
            QualifierCode::spec_from(0x06) == Some(QualifierCode::AllObjects),
            QualifierCode::spec_from(0x07) == Some(QualifierCode::Count8),
            QualifierCode::spec_from(0x08) == Some(QualifierCode::Count16),
            QualifierCode::spec_from(0x17) == Some(QualifierCode::CountAndPrefix8),
            QualifierCode::spec_from(0x28) == Some(QualifierCode::CountAndPrefix16),
            QualifierCode::spec_from(0x5B) == Some(QualifierCode::FreeFormat16),
            QualifierCode::Range8.code() == 0x00,
            QualifierCode::Range16.code() == 0x01,
            QualifierCode::AllObjects.code() == 0x06,
            QualifierCode::Count8.code() == 0x07,
            QualifierCode::Count16.code() == 0x08,
            QualifierCode::CountAndPrefix8.code() == 0x17,
            QualifierCode::CountAndPrefix16.code() == 0x28,
            QualifierCode::FreeFormat16.code() == 0x5B,
            forall|x: u8| (0x02 <= x <= 0x05) || (0x09 <= x <= 0x16) || (0x18 <= x <= 0x27) || (0x29 <= x <= 0x5A) || (0x5C <= x) ==> #[trigger] QualifierCode::spec_from(x) is None,
    {
    }
}

impl FunctionCode {
    /// The DNP3 code table: each application layer function is encoded by the number
    /// the standard assigns to it, that number decodes to it, and every other
    /// number is decoded to nothing.
    pub proof fn lemma_code_table()
        ensures
            FunctionCode::spec_from(0) == Some(FunctionCode::Confirm),
            FunctionCode::spec_from(1) == Some(FunctionCode::Read),
            FunctionCode::spec_from(2) == Some(FunctionCode::Write),
            FunctionCode::spec_from(3) == Some(FunctionCode::Select),
            FunctionCode::spec_from(4) == Some(FunctionCode::Operate),
            FunctionCode::spec_from(5) == Some(FunctionCode::DirectOperate),
            FunctionCode::spec_from(6) == Some(FunctionCode::DirectOperateNoResponse),
            FunctionCode::spec_from(7) == Some(FunctionCode::ImmediateFreeze),
            FunctionCode::spec_from(8) == Some(FunctionCode::ImmediateFreezeNoResponse),
            FunctionCode::spec_from(9) == Some(FunctionCode::FreezeClear),
            FunctionCode::spec_from(10) == Some(FunctionCode::FreezeClearNoResponse),
            FunctionCode::spec_from(11) == Some(FunctionCode::FreezeAtTime),
            FunctionCode::spec_from(12) == Some(FunctionCode::FreezeAtTimeNoResponse),
            FunctionCode::spec_from(13) == Some(FunctionCode::ColdRestart),
            FunctionCode::spec_from(14) == Some(FunctionCode::WarmRestart),
            FunctionCode::spec_from(15) == Some(FunctionCode::InitializeData),
            FunctionCode::spec_from(16) == Some(FunctionCode::InitializeApplication),
            FunctionCode::spec_from(17) == Some(FunctionCode::StartApplication),
            FunctionCode::spec_from(18) == Some(FunctionCode::StopApplication),
            FunctionCode::spec_from(19) == Some(FunctionCode::SaveConfiguration),
            FunctionCode::spec_from(20) == Some(FunctionCode::EnabledUnsolicited),
            FunctionCode::spec_from(21) == Some(FunctionCode::DisableUnsolicited),
            FunctionCode::spec_from(22) == Some(FunctionCode::AssignClass),
            FunctionCode::spec_from(23) == Some(FunctionCode::DelayMeasure),
            FunctionCode::spec_from(24) == Some(FunctionCode::RecordCurrentTime),
            FunctionCode::spec_from(25) == Some(FunctionCode::OpenFile),
            FunctionCode::spec_from(26) == Some(FunctionCode::CloseFile),
            FunctionCode::spec_from(27) == Some(FunctionCode::DeleteFile),
            FunctionCode::spec_from(28) == Some(FunctionCode::GetFileInfo),
            FunctionCode::spec_from(29) == Some(FunctionCode::AuthenticateFile),
            FunctionCode::spec_from(30) == Some(FunctionCode::AbortFile),
            FunctionCode::spec_from(129) == Some(FunctionCode::Response),
            FunctionCode::spec_from(130) == Some(FunctionCode::UnsolicitedResponse),
            FunctionCode::Confirm.code() == 0,
            FunctionCode::Read.code() == 1,
            FunctionCode::Write.code() == 2,
            FunctionCode::Select.code() == 3,
            FunctionCode::Operate.code() == 4,
            FunctionCode::DirectOperate.code() == 5,
            FunctionCode::DirectOperateNoResponse.code() == 6,
            FunctionCode::ImmediateFreeze.code() == 7,
            FunctionCode::ImmediateFreezeNoResponse.code() == 8,
            FunctionCode::FreezeClear.code() == 9,
            FunctionCode::FreezeClearNoResponse.code() == 10,
            FunctionCode::FreezeAtTime.code() == 11,
            FunctionCode::FreezeAtTimeNoResponse.code() == 12,
            FunctionCode::ColdRestart.code() == 13,
            FunctionCode::WarmRestart.code() == 14,
            FunctionCode::InitializeData.code() == 15,
            FunctionCode::InitializeApplication.code() == 16,
            FunctionCode::StartApplication.code() == 17,
            FunctionCode::StopApplication.code() == 18,
            FunctionCode::SaveConfiguration.code() == 19,
            FunctionCode::EnabledUnsolicited.code() == 20,
            FunctionCode::DisableUnsolicited.code() == 21,
            FunctionCode::AssignClass.code() == 22,
            FunctionCode::DelayMeasure.code() == 23,
            FunctionCode::RecordCurrentTime.code() == 24,
            FunctionCode::OpenFile.code() == 25,
            FunctionCode::CloseFile.code() == 26,
            FunctionCode::DeleteFile.code() == 27,
            FunctionCode::GetFileInfo.code() == 28,
            FunctionCode::AuthenticateFile.code() == 29,
            FunctionCode::AbortFile.code() == 30,
            FunctionCode::Response.code() == 129,
            FunctionCode::UnsolicitedResponse.code() == 130,
            forall|x: u8| (31 <= x <= 128) || (131 <= x) ==> #[trigger] FunctionCode::spec_from(x) is None,
    {
    }
}

impl TripCloseCode {
    /// The DNP3 code table: each trip-close code of a control relay output block is encoded by the number
    /// the standard assigns to it, that number decodes to it, and every other
    /// number is kept as `Unknown`.
    pub proof fn lemma_code_table()
        ensures
            TripCloseCode::from_code_spec(0) == TripCloseCode::Nul,
            TripCloseCode::from_code_spec(1) == TripCloseCode::Close,
            TripCloseCode::from_code_spec(2) == TripCloseCode::Trip,
            TripCloseCode::from_code_spec(3) == TripCloseCode::Reserved,
            TripCloseCode::Nul.code() == 0,
            TripCloseCode::Close.code() == 1,
            TripCloseCode::Trip.code() == 2,
            TripCloseCode::Reserved.code() == 3,
            forall|x: u8| (4 <= x) ==> #[trigger] TripCloseCode::from_code_spec(x) == TripCloseCode::Unknown(x),
            forall|x: u8| #[trigger] TripCloseCode::Unknown(x).code() == x,
    {
    }
}


} // verus!
