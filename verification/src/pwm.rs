//! Duty-cycle selection for the per-cell discharge PWM.

use vstd::prelude::*;

verus! {

/// The sixteen PWM duty-cycle levels, from always off (`Level0`) to always
/// on (`Level15`); level `n` keeps the discharge switch on for `n`
/// sixteenths of each period.
#[derive(Clone, Copy, Debug, PartialEq, Eq)]
pub enum PwmDutyCycle {
    Level0,
    Level1,
    Level2,
    Level3,
    Level4,
    Level5,
    Level6,
    Level7,
    Level8,
    Level9,
    Level10,
    Level11,
    Level12,
    Level13,
    Level14,
    Level15,
}

impl PwmDutyCycle {
    /// The 4-bit register code of the duty cycle.
    pub open spec fn spec_code(self) -> u8 {
        match self {
            PwmDutyCycle::Level0 => 0x0,
            PwmDutyCycle::Level1 => 0x1,
            PwmDutyCycle::Level2 => 0x2,
            PwmDutyCycle::Level3 => 0x3,
            PwmDutyCycle::Level4 => 0x4,
            PwmDutyCycle::Level5 => 0x5,
            PwmDutyCycle::Level6 => 0x6,
            PwmDutyCycle::Level7 => 0x7,
            PwmDutyCycle::Level8 => 0x8,
            PwmDutyCycle::Level9 => 0x9,
            PwmDutyCycle::Level10 => 0xA,
            PwmDutyCycle::Level11 => 0xB,
            PwmDutyCycle::Level12 => 0xC,
            PwmDutyCycle::Level13 => 0xD,
            PwmDutyCycle::Level14 => 0xE,
            PwmDutyCycle::Level15 => 0xF,
        }
    }

    /// The 4-bit register code of the duty cycle.
    pub fn code(self) -> (r: u8)
        ensures
            r == self.spec_code(),
            r <= 0xF,
    {
        match self {
            PwmDutyCycle::Level0 => 0x0,
            PwmDutyCycle::Level1 => 0x1,
            PwmDutyCycle::Level2 => 0x2,
            PwmDutyCycle::Level3 => 0x3,
            PwmDutyCycle::Level4 => 0x4,
            PwmDutyCycle::Level5 => 0x5,
            PwmDutyCycle::Level6 => 0x6,
            PwmDutyCycle::Level7 => 0x7,
            PwmDutyCycle::Level8 => 0x8,
            PwmDutyCycle::Level9 => 0x9,
            PwmDutyCycle::Level10 => 0xA,
            PwmDutyCycle::Level11 => 0xB,
            PwmDutyCycle::Level12 => 0xC,
            PwmDutyCycle::Level13 => 0xD,
            PwmDutyCycle::Level14 => 0xE,
            PwmDutyCycle::Level15 => 0xF,
        }
    }
}

} // verus!
