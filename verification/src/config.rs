//! Selector and error types shared by the register-payload builders.

use vstd::prelude::*;

verus! {

/// General-purpose I/O pins whose pull-downs the configuration controls.
/// The LTC6810 target wires three such pins into its configuration group.
#[derive(Clone, Copy, Debug, PartialEq, Eq)]
pub enum GPIO {
    GPIO1,
    GPIO2,
    GPIO3,
}

/// Cells of the monitored stack; the LTC6810 monitors up to six.
#[derive(Clone, Copy, Debug, PartialEq, Eq)]
pub enum Cell {
    Cell1,
    Cell2,
    Cell3,
    Cell4,
    Cell5,
    Cell6,
}

/// Discharge-timer timeout settings, encoded as the configuration group's
/// high nibble of its last byte.
#[derive(Clone, Copy, Debug, PartialEq, Eq)]
pub enum DischargeTimeout {
    Disabled,
    HalfMinute,
    OneMinute,
    TwoMinutes,
    ThreeMinutes,
    FourMinutes,
    FiveMinutes,
    TenMinutes,
    FifteenMinutes,
    TwentyMinutes,
    ThirtyMinutes,
    FortyMinutes,
    SixtyMinutes,
    SeventyFiveMinutes,
    NinetyMinutes,
    TwoHours,
}

impl DischargeTimeout {
    /// The 4-bit register code of the timeout.
    pub open spec fn spec_code(self) -> u8 {
        match self {
            DischargeTimeout::Disabled => 0x0,
            DischargeTimeout::HalfMinute => 0x1,
            DischargeTimeout::OneMinute => 0x2,
            DischargeTimeout::TwoMinutes => 0x3,
            DischargeTimeout::ThreeMinutes => 0x4,
            DischargeTimeout::FourMinutes => 0x5,
            DischargeTimeout::FiveMinutes => 0x6,
            DischargeTimeout::TenMinutes => 0x7,
            DischargeTimeout::FifteenMinutes => 0x8,
            DischargeTimeout::TwentyMinutes => 0x9,
            DischargeTimeout::ThirtyMinutes => 0xA,
            DischargeTimeout::FortyMinutes => 0xB,
            DischargeTimeout::SixtyMinutes => 0xC,
            DischargeTimeout::SeventyFiveMinutes => 0xD,
            DischargeTimeout::NinetyMinutes => 0xE,
            DischargeTimeout::TwoHours => 0xF,
        }
    }

    /// The 4-bit register code of the timeout.
    pub fn code(self) -> (r: u8)
        ensures
            r == self.spec_code(),
            r <= 0xF,
    {
        match self {
            DischargeTimeout::Disabled => 0x0,
            DischargeTimeout::HalfMinute => 0x1,
            DischargeTimeout::OneMinute => 0x2,
            DischargeTimeout::TwoMinutes => 0x3,
            DischargeTimeout::ThreeMinutes => 0x4,
            DischargeTimeout::FourMinutes => 0x5,
            DischargeTimeout::FiveMinutes => 0x6,
            DischargeTimeout::TenMinutes => 0x7,
            DischargeTimeout::FifteenMinutes => 0x8,
            DischargeTimeout::TwentyMinutes => 0x9,
            DischargeTimeout::ThirtyMinutes => 0xA,
            DischargeTimeout::FortyMinutes => 0xB,
            DischargeTimeout::SixtyMinutes => 0xC,
            DischargeTimeout::SeventyFiveMinutes => 0xD,
            DischargeTimeout::NinetyMinutes => 0xE,
            DischargeTimeout::TwoHours => 0xF,
        }
    }
}

/// Returned when a comparison-voltage value lies outside the encodable
/// range.
#[derive(Clone, Copy, Debug, PartialEq, Eq)]
pub struct VoltageOutOfRangeError {}

} // verus!
