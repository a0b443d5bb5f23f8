//! Command opcodes, configuration selectors and the typed shapes of the
//! single-response replies. The numeric wire codes are a fixed contract with
//! the device firmware and must be preserved byte for byte.

use vstd::prelude::*;

verus! {

/// The protocol opcodes, one byte each on the wire.
#[derive(Clone, Copy, Debug, PartialEq, Eq, Structural)]
pub enum SlLidarCmd {
    GetDeviceInfo,
    GetDeviceHealth,
    GetSampleRate,
    GetLidarConf,
    HQMotorSpeedCtrl,
    Scan,
    Stop,
    Reset,
}

impl SlLidarCmd {
    /// The one-byte wire code of this opcode.
    pub open spec fn spec_code(self) -> u8 {
        match self {
            SlLidarCmd::GetDeviceInfo => 0x50,
            SlLidarCmd::GetDeviceHealth => 0x52,
            SlLidarCmd::GetSampleRate => 0x59,
            SlLidarCmd::GetLidarConf => 0x84,
            SlLidarCmd::HQMotorSpeedCtrl => 0xa8,
            SlLidarCmd::Scan => 0x20,
            SlLidarCmd::Stop => 0x25,
            SlLidarCmd::Reset => 0x40,
        }
    }

    #[verifier::when_used_as_spec(spec_code)]
    pub fn code(self) -> (r: u8)
        ensures
            r == self.spec_code(),
    {
        match self {
            SlLidarCmd::GetDeviceInfo => 0x50,
            SlLidarCmd::GetDeviceHealth => 0x52,
            SlLidarCmd::GetSampleRate => 0x59,
            SlLidarCmd::GetLidarConf => 0x84,
            SlLidarCmd::HQMotorSpeedCtrl => 0xa8,
            SlLidarCmd::Scan => 0x20,
            SlLidarCmd::Stop => 0x25,
            SlLidarCmd::Reset => 0x40,
        }
    }
}

/// The configuration entry selectors of the "get configuration" command.
/// `Count` and `Typical` use the short request form; every other selector
/// uses the long form that carries a two-byte payload.
#[derive(Clone, Copy, Debug, PartialEq, Eq, Structural)]
pub enum ScanModeConfEntry {
    Count,
    UsPerSample,
    MaxDistance,
    AnsType,
    Typical,
    Name,
}

impl ScanModeConfEntry {
    /// The selector's wire value, sent as four little-endian bytes.
    pub open spec fn spec_value(self) -> u32 {
        match self {
            ScanModeConfEntry::Count => 0x70,
            ScanModeConfEntry::UsPerSample => 0x71,
            ScanModeConfEntry::MaxDistance => 0x74,
            ScanModeConfEntry::AnsType => 0x75,
            ScanModeConfEntry::Typical => 0x7c,
            ScanModeConfEntry::Name => 0x7f,
        }
    }

    #[verifier::when_used_as_spec(spec_value)]
    pub fn value(self) -> (r: u32)
        ensures
            r == self.spec_value(),
    {
        match self {
            ScanModeConfEntry::Count => 0x70,
            ScanModeConfEntry::UsPerSample => 0x71,
            ScanModeConfEntry::MaxDistance => 0x74,
            ScanModeConfEntry::AnsType => 0x75,
            ScanModeConfEntry::Typical => 0x7c,
            ScanModeConfEntry::Name => 0x7f,
        }
    }

    /// Whether this selector uses the short 8-byte request form.
    pub open spec fn spec_short_form(self) -> bool {
        self == ScanModeConfEntry::Count || self == ScanModeConfEntry::Typical
    }

    #[verifier::when_used_as_spec(spec_short_form)]
    pub fn short_form(self) -> (r: bool)
        ensures
            r == self.spec_short_form(),
    {
        match self {
            ScanModeConfEntry::Count => true,
            ScanModeConfEntry::Typical => true,
            _ => false,
        }
    }
}

/// Reply to the "get device info" command.
#[derive(Clone, Copy, Debug)]
pub struct SlLidarResponseDeviceInfoT {
    pub model: u8,
    pub firmware_version: u16,
    pub hardware_version: u8,
    pub serial_number: [u8; 16],
}

/// Reply to the "get device health" command.
#[derive(Clone, Copy, Debug)]
pub struct SlLidarResponseDeviceHealthT {
    pub status: u8,
    pub error_code: u16,
}

/// Reply to the "get sample rate" command: both sample periods are in
/// microseconds.
#[derive(Clone, Copy, Debug)]
pub struct SlLidarResponseSampleRateT {
    pub std_sample_duration_us: u16,
    pub express_sample_duration_us: u16,
}

/// Reply to the "get configuration" command: a four-byte little-endian type
/// tag followed by the entry's payload bytes.
#[derive(Debug)]
pub struct SlLidarResponseGetLidarConf {
    pub conf_type: u32,
    pub payload: Vec<u8>,
}

} // verus!
