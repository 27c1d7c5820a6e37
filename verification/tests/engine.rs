//! The transfer engine over the scripted collaborators: round-trips,
//! chain order, chip-select discipline under injected failures, and
//! completion polling.

use ltc681x::monitor::ADCMode;
use ltc681x::monitor::CellSelection;
use ltc681x::monitor::CellVoltageRegister;
use ltc681x::monitor::Error;
use ltc681x::monitor::LTC681X;
use ltc681x::monitor::NoPolling;
use ltc681x::monitor::SDOLinePolling;
use ltc681x::pec15::PEC15;
use ltc681x::sim::SimBus;
use ltc681x::sim::SimFault;
use ltc681x::sim::SimPin;

type Engine<const L: usize> = LTC681X<SimBus, SimPin, NoPolling, L>;
type PollingEngine<const L: usize> = LTC681X<SimBus, SimPin, SDOLinePolling, L>;
type EngineError = Error<SimFault, SimFault>;

/// An 8-byte response frame carrying three little-endian values and their
/// correct checksum.
fn response_frame(a: u16, b: u16, c: u16) -> Vec<u8> {
    let payload = [
        a as u8,
        (a >> 8) as u8,
        b as u8,
        (b >> 8) as u8,
        c as u8,
        (c >> 8) as u8,
    ];
    let pec = PEC15::calc(&payload);
    let mut f = payload.to_vec();
    f.push(pec[0]);
    f.push(pec[1]);
    f
}

/// The don't-care reply clocked in during a 4-byte command exchange.
fn command_reply() -> Vec<u8> {
    vec![0, 0, 0, 0]
}

#[test]
fn read_decodes_valid_response() {
    let mut bus = SimBus::new();
    bus.push_reply(command_reply());
    bus.push_reply(response_frame(100, 200, 300));
    let mut monitor: Engine<1> = LTC681X::new(bus, SimPin::new());
    let result = monitor.read_cell_voltages(CellVoltageRegister::RegisterA).unwrap();
    assert_eq!(result, vec![[100, 200, 300]]);
    assert!(!monitor.cs_ref().reads_low());
}

#[test]
fn read_transmits_framed_register_opcode() {
    let mut bus = SimBus::new();
    bus.push_reply(command_reply());
    bus.push_reply(response_frame(1, 2, 3));
    let mut monitor: Engine<1> = LTC681X::new(bus, SimPin::new());
    monitor.read_cell_voltages(CellVoltageRegister::RegisterB).unwrap();
    let sent = monitor.bus_ref().sent_frames();
    assert_eq!(sent.len(), 2);
    // Register group B reads under opcode 0x0006.
    assert_eq!(sent[0], vec![0x00, 0x06, 0x9A, 0x94]);
    assert_eq!(sent[1], vec![0xFF; 8]);
}

#[test]
fn any_single_payload_bit_flip_is_rejected() {
    let valid = response_frame(0x1234, 0x5678, 0x9ABC);
    for byte in 0..6 {
        for bit in 0..8 {
            let mut corrupted = valid.clone();
            corrupted[byte] ^= 1u8 << bit;
            let mut bus = SimBus::new();
            bus.push_reply(command_reply());
            bus.push_reply(corrupted);
            let mut monitor: Engine<1> = LTC681X::new(bus, SimPin::new());
            let result = monitor.read_cell_voltages(CellVoltageRegister::RegisterA);
            assert_eq!(result.unwrap_err(), EngineError::ChecksumMismatch);
            assert!(!monitor.cs_ref().reads_low());
        }
    }
}

#[test]
fn chain_order_is_preserved() {
    let mut bus = SimBus::new();
    bus.push_reply(command_reply());
    bus.push_reply(response_frame(11, 12, 13));
    bus.push_reply(response_frame(21, 22, 23));
    bus.push_reply(response_frame(31, 32, 33));
    let mut monitor: Engine<3> = LTC681X::new(bus, SimPin::new());
    let result = monitor.read_cell_voltages(CellVoltageRegister::RegisterC).unwrap();
    assert_eq!(result, vec![[11, 12, 13], [21, 22, 23], [31, 32, 33]]);
    assert!(!monitor.cs_ref().reads_low());
}

#[test]
fn checksum_mismatch_aborts_whole_read() {
    let mut corrupted = response_frame(21, 22, 23);
    corrupted[0] ^= 0x01;
    let mut bus = SimBus::new();
    bus.push_reply(command_reply());
    bus.push_reply(response_frame(11, 12, 13));
    bus.push_reply(corrupted);
    bus.push_reply(response_frame(31, 32, 33));
    let mut monitor: Engine<3> = LTC681X::new(bus, SimPin::new());
    let result = monitor.read_cell_voltages(CellVoltageRegister::RegisterA);
    // No partial data: the second device's bad frame fails the whole call.
    assert_eq!(result.unwrap_err(), EngineError::ChecksumMismatch);
    assert!(!monitor.cs_ref().reads_low());
}

#[test]
fn pin_failure_on_assert_reports_cs_pin_error() {
    let mut pin = SimPin::new();
    pin.push_op(true);
    let mut monitor: Engine<1> = LTC681X::new(SimBus::new(), pin);
    let result = monitor.read_cell_voltages(CellVoltageRegister::RegisterA);
    assert_eq!(result.unwrap_err(), EngineError::CSPinError(SimFault {}));
    // The line was never successfully asserted and ends released.
    assert!(!monitor.cs_ref().reads_low());
}

#[test]
fn bus_failure_on_command_releases_line() {
    let mut bus = SimBus::new();
    bus.push_fail();
    let mut monitor: Engine<1> = LTC681X::new(bus, SimPin::new());
    let result = monitor.read_cell_voltages(CellVoltageRegister::RegisterA);
    assert_eq!(result.unwrap_err(), EngineError::TransferError(SimFault {}));
    assert!(!monitor.cs_ref().reads_low());
}

#[test]
fn bus_failure_mid_chain_releases_line() {
    let mut bus = SimBus::new();
    bus.push_reply(command_reply());
    bus.push_reply(response_frame(11, 12, 13));
    bus.push_fail();
    let mut monitor: Engine<3> = LTC681X::new(bus, SimPin::new());
    let result = monitor.read_cell_voltages(CellVoltageRegister::RegisterA);
    assert_eq!(result.unwrap_err(), EngineError::TransferError(SimFault {}));
    assert!(!monitor.cs_ref().reads_low());
}

#[test]
fn start_conversion_transmits_composed_opcode() {
    let mut bus = SimBus::new();
    bus.push_reply(command_reply());
    let mut monitor: Engine<1> = LTC681X::new(bus, SimPin::new());
    monitor.start_conv_cells(ADCMode::Normal, CellSelection::All, true).unwrap();
    // 0x0260 with mode 0x2 shifted to bit 7 and the discharge-permit bit:
    // 0x0260 | 0x100 | 0x10 = 0x0370.
    let sent = monitor.bus_ref().sent_frames();
    assert_eq!(sent.len(), 1);
    assert_eq!(sent[0][0], 0x03);
    assert_eq!(sent[0][1], 0x70);
    assert_eq!(&sent[0][2..4], &PEC15::calc(&[0x03, 0x70])[..]);
    // Without polling the line is released right after the command.
    assert!(!monitor.cs_ref().reads_low());
}

#[test]
fn start_conversion_variants_compose_distinct_opcodes() {
    let cases: Vec<(ADCMode, CellSelection, bool, u16)> = vec![
        (ADCMode::Fast, CellSelection::All, false, 0x02E0),
        (ADCMode::Filtered, CellSelection::Group2, false, 0x03E2),
        (ADCMode::Other, CellSelection::Group6, true, 0x0276),
    ];
    for (mode, cells, dcp, opcode) in cases {
        let mut bus = SimBus::new();
        bus.push_reply(command_reply());
        let mut monitor: Engine<1> = LTC681X::new(bus, SimPin::new());
        monitor.start_conv_cells(mode, cells, dcp).unwrap();
        let sent = monitor.bus_ref().sent_frames();
        assert_eq!(sent[0][0], (opcode >> 8) as u8, "opcode {:#06x}", opcode);
        assert_eq!(sent[0][1], opcode as u8, "opcode {:#06x}", opcode);
    }
}

#[test]
fn start_conversion_bus_failure_releases_line() {
    let mut bus = SimBus::new();
    bus.push_fail();
    let mut monitor: Engine<1> = LTC681X::new(bus, SimPin::new());
    let result = monitor.start_conv_cells(ADCMode::Fast, CellSelection::All, false);
    assert_eq!(result.unwrap_err(), EngineError::TransferError(SimFault {}));
    assert!(!monitor.cs_ref().reads_low());
}

#[test]
fn line_hold_keeps_line_asserted_after_command() {
    let mut bus = SimBus::new();
    bus.push_reply(command_reply());
    let monitor: Engine<1> = LTC681X::new(bus, SimPin::new());
    let mut monitor: PollingEngine<1> = monitor.enable_sdo_polling();
    monitor.start_conv_cells(ADCMode::Normal, CellSelection::All, false).unwrap();
    assert!(monitor.cs_ref().reads_low());
}

#[test]
fn poll_reports_false_until_all_ones_then_releases() {
    let mut bus = SimBus::new();
    bus.push_reply(command_reply());
    bus.push_reply(vec![0x00]);
    bus.push_reply(vec![0x55]);
    bus.push_reply(vec![0xFF]);
    let monitor: Engine<1> = LTC681X::new(bus, SimPin::new());
    let mut monitor: PollingEngine<1> = monitor.enable_sdo_polling();
    monitor.start_conv_cells(ADCMode::Normal, CellSelection::All, false).unwrap();
    assert_eq!(monitor.adc_ready().unwrap(), false);
    assert!(monitor.cs_ref().reads_low());
    assert_eq!(monitor.adc_ready().unwrap(), false);
    assert!(monitor.cs_ref().reads_low());
    assert_eq!(monitor.adc_ready().unwrap(), true);
    assert!(!monitor.cs_ref().reads_low());
}

#[test]
fn poll_bus_failure_keeps_state() {
    let mut bus = SimBus::new();
    bus.push_reply(command_reply());
    bus.push_fail();
    let monitor: Engine<1> = LTC681X::new(bus, SimPin::new());
    let mut monitor: PollingEngine<1> = monitor.enable_sdo_polling();
    monitor.start_conv_cells(ADCMode::Normal, CellSelection::All, false).unwrap();
    let result = monitor.adc_ready();
    assert_eq!(result.unwrap_err(), EngineError::TransferError(SimFault {}));
    assert!(monitor.cs_ref().reads_low());
}

#[test]
fn release_failure_is_reported_as_pin_error() {
    let mut bus = SimBus::new();
    bus.push_reply(command_reply());
    bus.push_reply(response_frame(1, 2, 3));
    let mut pin = SimPin::new();
    // First op (assert) succeeds, second (release) fails.
    pin.push_op(false);
    pin.push_op(true);
    let mut monitor: Engine<1> = LTC681X::new(bus, pin);
    let result = monitor.read_cell_voltages(CellVoltageRegister::RegisterA);
    assert_eq!(result.unwrap_err(), EngineError::CSPinError(SimFault {}));
}
