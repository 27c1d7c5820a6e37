//! Register-payload builders: exact expected bytes for each bit field.

use ltc681x::config::Cell;
use ltc681x::config::DischargeTimeout;
use ltc681x::config::GPIO;
use ltc681x::ltc6810::config::Configuration;
use ltc681x::ltc6810::pwm::Pwm;
use ltc681x::pwm::PwmDutyCycle;

#[test]
fn default_configuration_bytes() {
    let config = Configuration::default();
    assert_eq!(config.register_a(), [0b1111_1000, 0, 0, 0, 0, 0]);
}

#[test]
fn gpio_pull_down_enable_clears_bits() {
    let mut config = Configuration::default();
    config.enable_gpio_pull_down(GPIO::GPIO1);
    assert_eq!(config.register_a()[0], 0b1111_0000);
    config.enable_gpio_pull_down(GPIO::GPIO2);
    assert_eq!(config.register_a()[0], 0b1110_0000);
    config.enable_gpio_pull_down(GPIO::GPIO3);
    assert_eq!(config.register_a()[0], 0b1100_0000);
}

#[test]
fn gpio_pull_down_disable_sets_bits() {
    let mut config = Configuration::default();
    config.enable_gpio_pull_down(GPIO::GPIO1);
    config.enable_gpio_pull_down(GPIO::GPIO2);
    config.enable_gpio_pull_down(GPIO::GPIO3);
    config.disable_gpio_pull_down(GPIO::GPIO2);
    assert_eq!(config.register_a()[0], 0b1101_0000);
}

#[test]
fn reference_power_bit() {
    let mut config = Configuration::default();
    config.enable_reference_power();
    assert_eq!(config.register_a()[0], 0b1111_1100);
    config.disable_reference_power();
    assert_eq!(config.register_a()[0], 0b1111_1000);
}

#[test]
fn discharge_timer_bit() {
    let mut config = Configuration::default();
    config.enable_discharge_timer();
    assert_eq!(config.register_a()[0], 0b1111_1010);
    config.disable_discharge_timer();
    assert_eq!(config.register_a()[0], 0b1111_1000);
}

#[test]
fn adc_mode_bit() {
    let mut config = Configuration::default();
    config.set_alternative_adc_modes();
    assert_eq!(config.register_a()[0], 0b1111_1001);
    config.set_default_adc_modes();
    assert_eq!(config.register_a()[0], 0b1111_1000);
}

#[test]
fn uv_comp_voltage_zero_writes_disabled_sentinel() {
    let mut config = Configuration::default();
    config.set_ov_comp_voltage(4_200_000).unwrap();
    config.set_uv_comp_voltage(3_000_000).unwrap();
    config.set_uv_comp_voltage(0).unwrap();
    assert_eq!(config.register_a()[1], 0x00);
    assert_eq!(config.register_a()[2] & 0x0F, 0x00);
}

#[test]
fn uv_comp_voltage_encodes_linear_code() {
    let mut config = Configuration::default();
    // 3,000,000 uV / 1600 - 1 = 1874 = 0x752.
    config.set_uv_comp_voltage(3_000_000).unwrap();
    assert_eq!(config.register_a()[1], 0x52);
    assert_eq!(config.register_a()[2], 0x07);
}

#[test]
fn uv_comp_voltage_bounds() {
    let mut config = Configuration::default();
    assert!(config.set_uv_comp_voltage(3199).is_err());
    assert!(config.set_uv_comp_voltage(6_553_601).is_err());
    assert_eq!(config.register_a(), [0b1111_1000, 0, 0, 0, 0, 0]);
    // 3200 uV is the lowest encodable threshold: code 1.
    config.set_uv_comp_voltage(3200).unwrap();
    assert_eq!(config.register_a()[1], 0x01);
    assert_eq!(config.register_a()[2], 0x00);
    // 6,553,600 uV is the highest: code 4095.
    config.set_uv_comp_voltage(6_553_600).unwrap();
    assert_eq!(config.register_a()[1], 0xFF);
    assert_eq!(config.register_a()[2], 0x0F);
}

#[test]
fn ov_comp_voltage_encodes_linear_code() {
    let mut config = Configuration::default();
    // 4,200,000 uV / 1600 = 2625 = 0xA41.
    config.set_ov_comp_voltage(4_200_000).unwrap();
    assert_eq!(config.register_a()[3], 0xA4);
    assert_eq!(config.register_a()[2], 0x10);
}

#[test]
fn ov_comp_voltage_zero_writes_disabled_sentinel() {
    let mut config = Configuration::default();
    config.set_uv_comp_voltage(3_000_000).unwrap();
    config.set_ov_comp_voltage(4_200_000).unwrap();
    config.set_ov_comp_voltage(0).unwrap();
    assert_eq!(config.register_a()[3], 0x00);
    assert_eq!(config.register_a()[2] & 0xF0, 0x00);
    // The under-voltage nibble survives.
    assert_eq!(config.register_a()[2] & 0x0F, 0x07);
}

#[test]
fn ov_comp_voltage_bounds() {
    let mut config = Configuration::default();
    assert!(config.set_ov_comp_voltage(1599).is_err());
    assert!(config.set_ov_comp_voltage(6_552_001).is_err());
    assert_eq!(config.register_a(), [0b1111_1000, 0, 0, 0, 0, 0]);
    config.set_ov_comp_voltage(1600).unwrap();
    assert_eq!(config.register_a()[3], 0x00);
    assert_eq!(config.register_a()[2], 0x10);
    config.set_ov_comp_voltage(6_552_000).unwrap();
    assert_eq!(config.register_a()[3], 0xFF);
    assert_eq!(config.register_a()[2], 0xF0);
}

#[test]
fn discharge_cell_sets_switch_bits() {
    let mut config = Configuration::default();
    config.discharge_cell(Cell::Cell1);
    config.discharge_cell(Cell::Cell3);
    config.discharge_cell(Cell::Cell6);
    assert_eq!(config.register_a()[4], 0b0010_0101);
}

#[test]
fn discharge_timeout_fills_high_nibble() {
    let mut config = Configuration::default();
    config.force_digital_redundancy_fail();
    config.enable_discharge_monitor();
    config.set_discharge_timeout(DischargeTimeout::TenMinutes);
    assert_eq!(config.register_a()[5], 0x75);
    config.set_discharge_timeout(DischargeTimeout::TwoHours);
    assert_eq!(config.register_a()[5], 0xF5);
}

#[test]
fn configuration_equality_compares_bytes() {
    let mut a = Configuration::default();
    let b = Configuration::default();
    assert!(a == b);
    a.enable_discharge_monitor();
    assert!(a != b);
}

#[test]
fn pwm_default_is_all_zero() {
    let pwm = Pwm::default();
    assert_eq!(pwm.register_a(), [0, 0, 0, 0, 0, 0]);
}

#[test]
fn pwm_duty_cycle_fills_both_nibbles() {
    let mut pwm = Pwm::default();
    pwm.set_duty_cycle(&PwmDutyCycle::Level7);
    assert_eq!(pwm.register_a(), [0x77, 0x77, 0x77, 0, 0, 0]);
    pwm.set_duty_cycle(&PwmDutyCycle::Level15);
    assert_eq!(pwm.register_a(), [0xFF, 0xFF, 0xFF, 0, 0, 0]);
    pwm.set_duty_cycle(&PwmDutyCycle::Level0);
    assert_eq!(pwm.register_a(), [0x00, 0x00, 0x00, 0, 0, 0]);
}
