//! Checksum engine and command framer against the chip specification's
//! reference vectors.

use ltc681x::framer::frame;
use ltc681x::pec15::PEC15;

/// The precomputed command frames of the chip specification: opcode and
/// full 4-byte frame.
fn reference_frames() -> Vec<(u16, [u8; 4])> {
    vec![
        (0x0004, [0x00, 0x04, 0x07, 0xC2]),
        (0x0006, [0x00, 0x06, 0x9A, 0x94]),
        (0x0008, [0x00, 0x08, 0x5E, 0x52]),
        (0x000A, [0x00, 0x0A, 0xC3, 0x04]),
        (0x0009, [0x00, 0x09, 0xD5, 0x60]),
        (0x000B, [0x00, 0x0B, 0x48, 0x36]),
        (0x000C, [0x00, 0x0C, 0xEF, 0xCC]),
        (0x000E, [0x00, 0x0E, 0x72, 0x9A]),
        (0x000D, [0x00, 0x0D, 0x64, 0xFE]),
        (0x000F, [0x00, 0x0F, 0xF9, 0xA8]),
        (0x0010, [0x00, 0x10, 0xED, 0x72]),
        (0x0012, [0x00, 0x12, 0x70, 0x24]),
        (0x0002, [0x00, 0x02, 0x2B, 0x0A]),
        (0x0026, [0x00, 0x26, 0x2C, 0xC8]),
        (0x0001, [0x00, 0x01, 0x3D, 0x6E]),
        (0x0024, [0x00, 0x24, 0xB1, 0x9E]),
        (0x0020, [0x00, 0x20, 0x00, 0x00]),
        (0x0022, [0x00, 0x22, 0x9D, 0x56]),
    ]
}

#[test]
fn frame_matches_reference_vectors() {
    for (opcode, expected) in reference_frames() {
        assert_eq!(frame(opcode), expected, "opcode {:#06x}", opcode);
    }
}

#[test]
fn calc_of_empty_input() {
    // The seed is 16; with no bytes consumed the final left shift gives 32.
    assert_eq!(PEC15::calc(&[]), [0x00, 0x20]);
    assert_eq!(PEC15::calc(&[]), [0x00, 0x20]);
}

#[test]
fn calc_is_deterministic_across_calls() {
    let data = [0x12u8, 0x34, 0x56, 0x78, 0x9A, 0xBC];
    let first = PEC15::calc(&data);
    for _ in 0..10 {
        assert_eq!(PEC15::calc(&data), first);
    }
}

#[test]
fn frame_trailing_bytes_are_checksum_of_leading() {
    let opcodes = [0x0000u16, 0x0004, 0x0260, 0x0370, 0xABCD, 0xFFFF, 0x8000, 0x0001];
    for opcode in opcodes {
        let f = frame(opcode);
        let pec = PEC15::calc(&f[0..2]);
        assert_eq!([f[2], f[3]], pec);
    }
}

#[test]
fn frame_leading_bytes_are_big_endian_opcode() {
    let f = frame(0xABCD);
    assert_eq!([f[0], f[1]], [0xAB, 0xCD]);
}
