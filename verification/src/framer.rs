//! The command framer: a 4-byte command word from a 16-bit opcode.
//!
//! A command frame is the opcode in big-endian order followed by the two
//! packet-error-code bytes computed over those two opcode bytes.

use crate::pec15::PEC15;
use crate::pec15::spec_pec15;
use vstd::prelude::*;

verus! {

/// The 4-byte frame for `opcode`: big-endian opcode, then its checksum.
pub open spec fn spec_frame(opcode: u16) -> Seq<u8> {
    let hi = (opcode >> 8) as u8;
    let lo = opcode as u8;
    let pec = spec_pec15(seq![hi, lo]);
    seq![hi, lo, pec[0], pec[1]]
}

/// Builds the 4-byte command frame for `opcode`. Pure; never fails.
pub fn frame(opcode: u16) -> (r: [u8; 4])
    ensures
        r@ == spec_frame(opcode),
{
    let hi = (opcode >> 8) as u8;
    let lo = opcode as u8;
    let head = [hi, lo];
    let pec = PEC15::calc(head.as_slice());
    proof {
        assert(head@ =~= seq![hi, lo]);
    }
    let r = [hi, lo, pec[0], pec[1]];
    proof {
        assert(r@ =~= spec_frame(opcode));
    }
    r
}

/// Law: every frame carries a correct checksum — its trailing two bytes equal
/// the checksum of its leading two bytes, for every opcode.
pub proof fn lemma_frame_checksum(opcode: u16)
    ensures
        spec_frame(opcode).subrange(2, 4) == spec_pec15(spec_frame(opcode).subrange(0, 2)),
{
    let f = spec_frame(opcode);
    let hi = (opcode >> 8) as u8;
    let lo = opcode as u8;
    assert(f.subrange(0, 2) =~= seq![hi, lo]);
    assert(f.subrange(2, 4) =~= spec_pec15(seq![hi, lo]));
}

} // verus!
