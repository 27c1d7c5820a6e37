//! The LTC6810 PWM register group: a 6-byte payload holding one 4-bit duty
//! cycle per cell, two cells per byte.

use crate::pwm::PwmDutyCycle;
use vstd::prelude::*;

verus! {

/// The byte holding `duty`'s code in both of its nibbles.
pub open spec fn duty_byte(duty: PwmDutyCycle) -> u8 {
    ((duty.spec_code() << 4) as u8) | duty.spec_code()
}

/// Abstracted PWM register group. The view is the 6-byte payload as it
/// will be written to the chip.
#[derive(Clone, Debug)]
pub struct Pwm {
    /// Computed value of register group A.
    pub(crate) register_a: [u8; 6],
}

impl View for Pwm {
    type V = Seq<u8>;

    closed spec fn view(&self) -> Seq<u8> {
        self.register_a@
    }
}

impl Default for Pwm {
    /// All duty cycles at their power-up value of zero.
    fn default() -> (r: Self)
        ensures
            r@ == seq![0u8, 0u8, 0u8, 0u8, 0u8, 0u8],
    {
        let r = Pwm { register_a: [0, 0, 0, 0, 0, 0] };
        proof {
            assert(r@ =~= seq![0u8, 0u8, 0u8, 0u8, 0u8, 0u8]);
        }
        r
    }
}

impl Pwm {
    /// The 6-byte payload of register group A.
    pub fn register_a(&self) -> (r: [u8; 6])
        ensures
            r@ == self@,
    {
        self.register_a
    }

    /// Applies the same duty cycle to all six cells: each of the three
    /// PWM bytes carries the 4-bit code in both nibbles.
    pub fn set_duty_cycle(&mut self, pwm_duty_cycle: &PwmDutyCycle)
        ensures
            final(self)@ == old(self)@.update(0, duty_byte(*pwm_duty_cycle)).update(
                1,
                duty_byte(*pwm_duty_cycle),
            ).update(2, duty_byte(*pwm_duty_cycle)),
    {
        let duty_cycle_bits = pwm_duty_cycle.code();
        let b = (duty_cycle_bits << 4) | duty_cycle_bits;
        self.register_a[0] = b;
        self.register_a[1] = b;
        self.register_a[2] = b;
    }
}

} // verus!
