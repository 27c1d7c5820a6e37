//! The LTC6810 configuration register group: a 6-byte payload assembled
//! bit field by bit field.

use crate::config::Cell;
use crate::config::DischargeTimeout;
use crate::config::GPIO;
use crate::config::VoltageOutOfRangeError;
use vstd::prelude::*;

verus! {

/// The byte-0 mask that clears a pin's pull-down-disable bit (pull-down
/// enabled).
pub open spec fn gpio_pull_down_clear_mask(pin: GPIO) -> u8 {
    match pin {
        GPIO::GPIO1 => 0xf7,
        GPIO::GPIO2 => 0xef,
        GPIO::GPIO3 => 0xdf,
    }
}

/// The byte-0 bit that, when set, disables a pin's pull-down.
pub open spec fn gpio_pull_down_set_mask(pin: GPIO) -> u8 {
    match pin {
        GPIO::GPIO1 => 0x08,
        GPIO::GPIO2 => 0x10,
        GPIO::GPIO3 => 0x20,
    }
}

/// The byte-4 bit that turns on a cell's discharge switch.
pub open spec fn cell_discharge_bit(cell: Cell) -> u8 {
    match cell {
        Cell::Cell1 => 0x01,
        Cell::Cell2 => 0x02,
        Cell::Cell3 => 0x04,
        Cell::Cell4 => 0x08,
        Cell::Cell5 => 0x10,
        Cell::Cell6 => 0x20,
    }
}

/// The 12-bit register code of an under-voltage threshold in microvolts:
/// the threshold in 1.6 mV steps, less one.
pub open spec fn uv_code(voltage: u32) -> u16
    recommends
        3200 <= voltage <= 6553600,
{
    ((voltage / 1600) - 1) as u16
}

/// The 12-bit register code of an over-voltage threshold in microvolts:
/// the threshold in 1.6 mV steps.
pub open spec fn ov_code(voltage: u32) -> u16
    recommends
        1600 <= voltage <= 6552000,
{
    (voltage / 1600) as u16
}

/// The power-up value of the configuration group: all pull-downs disabled,
/// everything else cleared.
pub open spec fn default_register_a() -> Seq<u8> {
    seq![0xf8u8, 0u8, 0u8, 0u8, 0u8, 0u8]
}

/// Abstracted configuration of the configuration register group. The view
/// is the 6-byte payload as it will be written to the chip.
#[derive(Clone, Debug)]
pub struct Configuration {
    /// Computed value of register group A.
    pub(crate) register_a: [u8; 6],
}

impl View for Configuration {
    type V = Seq<u8>;

    closed spec fn view(&self) -> Seq<u8> {
        self.register_a@
    }
}

impl Default for Configuration {
    /// The power-up configuration.
    fn default() -> (r: Self)
        ensures
            r@ == default_register_a(),
    {
        let r = Configuration { register_a: [0xf8, 0, 0, 0, 0, 0] };
        proof {
            assert(r@ =~= default_register_a());
        }
        r
    }
}

impl Configuration {
    /// The 6-byte payload of register group A.
    pub fn register_a(&self) -> (r: [u8; 6])
        ensures
            r@ == self@,
    {
        self.register_a
    }

    /// Enables the pull-down of the given GPIO pin.
    pub fn enable_gpio_pull_down(&mut self, pin: GPIO)
        ensures
            final(self)@ == old(self)@.update(0, old(self)@[0] & gpio_pull_down_clear_mask(pin)),
    {
        let m: u8 = match pin {
            GPIO::GPIO1 => 0xf7,
            GPIO::GPIO2 => 0xef,
            GPIO::GPIO3 => 0xdf,
        };
        self.register_a[0] = self.register_a[0] & m;
    }

    /// Disables the pull-down of the given GPIO pin.
    pub fn disable_gpio_pull_down(&mut self, pin: GPIO)
        ensures
            final(self)@ == old(self)@.update(0, old(self)@[0] | gpio_pull_down_set_mask(pin)),
    {
        let m: u8 = match pin {
            GPIO::GPIO1 => 0x08,
            GPIO::GPIO2 => 0x10,
            GPIO::GPIO3 => 0x20,
        };
        self.register_a[0] = self.register_a[0] | m;
    }

    /// References remain powered up until the watchdog times out.
    pub fn enable_reference_power(&mut self)
        ensures
            final(self)@ == old(self)@.update(0, old(self)@[0] | 0x04u8),
    {
        self.register_a[0] = self.register_a[0] | 0x04;
    }

    /// References shut down after conversions (the power-up default).
    pub fn disable_reference_power(&mut self)
        ensures
            final(self)@ == old(self)@.update(0, old(self)@[0] & 0xfbu8),
    {
        self.register_a[0] = self.register_a[0] & 0xfb;
    }

    /// Enables the discharge timer for discharge switches.
    pub fn enable_discharge_timer(&mut self)
        ensures
            final(self)@ == old(self)@.update(0, old(self)@[0] | 0x02u8),
    {
        self.register_a[0] = self.register_a[0] | 0x02;
    }

    /// Disables the discharge timer.
    pub fn disable_discharge_timer(&mut self)
        ensures
            final(self)@ == old(self)@.update(0, old(self)@[0] & 0xfdu8),
    {
        self.register_a[0] = self.register_a[0] & 0xfd;
    }

    /// Sets the under-voltage comparison threshold in microvolts. Zero
    /// writes the all-zero "disabled" sentinel; any other value below
    /// 3.2 mV or above 6.5536 V is rejected unchanged.
    pub fn set_uv_comp_voltage(&mut self, voltage: u32) -> (r: Result<(), VoltageOutOfRangeError>)
        ensures
            r is Ok <==> (voltage == 0 || (3200 <= voltage <= 6553600)),
            r is Err ==> final(self)@ == old(self)@,
            voltage == 0 ==> final(self)@ == old(self)@.update(1, 0u8).update(
                2,
                old(self)@[2] & 0xf0u8,
            ),
            3200 <= voltage <= 6553600 ==> final(self)@ == old(self)@.update(
                1,
                uv_code(voltage) as u8,
            ).update(2, (old(self)@[2] & 0xf0u8) | ((uv_code(voltage) >> 8) as u8)),
    {
        if voltage == 0 {
            self.register_a[1] = 0x0;
            self.register_a[2] = self.register_a[2] & 0xf0;
            return Ok(());
        }
        if voltage < 3200 || voltage > 6553600 {
            return Err(VoltageOutOfRangeError {});
        }
        let value = ((voltage / 1600) - 1) as u16;
        self.register_a[1] = value as u8;
        self.register_a[2] = (self.register_a[2] & 0xf0) | ((value >> 8) as u8);
        Ok(())
    }

    /// Sets the over-voltage comparison threshold in microvolts. Zero
    /// writes the all-zero "disabled" sentinel; any other value below
    /// 1.6 mV or above 6.552 V is rejected unchanged.
    pub fn set_ov_comp_voltage(&mut self, voltage: u32) -> (r: Result<(), VoltageOutOfRangeError>)
        ensures
            r is Ok <==> (voltage == 0 || (1600 <= voltage <= 6552000)),
            r is Err ==> final(self)@ == old(self)@,
            voltage == 0 ==> final(self)@ == old(self)@.update(2, old(self)@[2] & 0x0fu8).update(
                3,
                0u8,
            ),
            1600 <= voltage <= 6552000 ==> final(self)@ == old(self)@.update(
                3,
                (ov_code(voltage) >> 4) as u8,
            ).update(2, (old(self)@[2] & 0x0fu8) | ((ov_code(voltage) << 4) as u8)),
    {
        if voltage == 0 {
            self.register_a[2] = self.register_a[2] & 0x0f;
            self.register_a[3] = 0x0;
            return Ok(());
        }
        if voltage < 1600 || voltage > 6552000 {
            return Err(VoltageOutOfRangeError {});
        }
        let value = (voltage / 1600) as u16;
        self.register_a[3] = (value >> 4) as u8;
        self.register_a[2] = (self.register_a[2] & 0x0f) | ((value << 4) as u8);
        Ok(())
    }

    /// Turns on the shorting switch of the given cell.
    pub fn discharge_cell(&mut self, cell: Cell)
        ensures
            final(self)@ == old(self)@.update(4, old(self)@[4] | cell_discharge_bit(cell)),
    {
        let m: u8 = match cell {
            Cell::Cell1 => 0x01,
            Cell::Cell2 => 0x02,
            Cell::Cell3 => 0x04,
            Cell::Cell4 => 0x08,
            Cell::Cell5 => 0x10,
            Cell::Cell6 => 0x20,
        };
        self.register_a[4] = self.register_a[4] | m;
    }

    /// Sets the discharge timeout code into the high nibble of the last
    /// byte.
    pub fn set_discharge_timeout(&mut self, timeout: DischargeTimeout)
        ensures
            final(self)@ == old(self)@.update(
                5,
                (old(self)@[5] & 0x0fu8) | ((timeout.spec_code() << 4) as u8),
            ),
    {
        let c = timeout.code();
        self.register_a[5] = (self.register_a[5] & 0x0f) | (c << 4);
    }

    /// Selects the alternative ADC modes (14kHz, 3kHz, 1kHz or 2kHz).
    pub fn set_alternative_adc_modes(&mut self)
        ensures
            final(self)@ == old(self)@.update(0, old(self)@[0] | 0x01u8),
    {
        self.register_a[0] = self.register_a[0] | 0x01;
    }

    /// Selects the default ADC modes (27kHz, 7kHz, 422Hz or 26Hz).
    pub fn set_default_adc_modes(&mut self)
        ensures
            final(self)@ == old(self)@.update(0, old(self)@[0] & 0xfeu8),
    {
        self.register_a[0] = self.register_a[0] & 0xfe;
    }

    /// Forces the digital redundancy comparison for ADC conversions to
    /// fail.
    pub fn force_digital_redundancy_fail(&mut self)
        ensures
            final(self)@ == old(self)@.update(5, old(self)@[5] | 0x04u8),
    {
        self.register_a[5] = self.register_a[5] | 0x04;
    }

    /// Enables the discharge-timer monitor function when the DTEN pin is
    /// asserted; otherwise (the default) the normal discharge timer runs.
    pub fn enable_discharge_monitor(&mut self)
        ensures
            final(self)@ == old(self)@.update(5, old(self)@[5] | 0x01u8),
    {
        self.register_a[5] = self.register_a[5] | 0x01;
    }
}

impl PartialEq for Configuration {
    /// Two configurations are equal when their payload bytes are.
    fn eq(&self, other: &Self) -> (r: bool) {
        let mut i: usize = 0;
        while i < 6
            invariant
                i <= 6,
                forall|k: int| 0 <= k < i as int ==> self@[k] == other@[k],
            decreases 6 - i,
        {
            if self.register_a[i] != other.register_a[i] {
                return false;
            }
            i = i + 1;
        }
        proof {
            assert(self@ =~= other@);
        }
        true
    }
}

impl vstd::std_specs::cmp::PartialEqSpecImpl for Configuration {
    open spec fn obeys_eq_spec() -> bool {
        true
    }

    open spec fn eq_spec(&self, other: &Configuration) -> bool {
        self@ == other@
    }
}

impl Eq for Configuration {

}

} // verus!
