//! The 15-bit packet-error-code (PEC) of the LTC681X chip family.
//!
//! Every command and every response frame on the bus carries two trailing
//! checksum bytes. The checksum is a CRC-like code: a 15-bit accumulator is
//! seeded with a fixed constant, each message bit is folded in against a fixed
//! generator polynomial, and the final remainder is shifted left once and
//! split into two bytes.

use vstd::prelude::*;

verus! {

/// Seed of the 15-bit accumulator, fixed by the chip specification.
pub const PEC_SEED: u16 = 16;

/// Generator polynomial of the code (15-bit, bit 14 set).
pub const PEC_POLY: u16 = 0x4599;

/// One feedback step of the code: fold a single message bit into the
/// accumulator. The accumulator always stays below `0x8000`.
pub open spec fn pec_bit_step(acc: u16, bit: bool) -> u16 {
    let feedback = bit != (((acc >> 14) & 1) == 1);
    let shifted = (acc << 1) & 0x7fff;
    if feedback {
        shifted ^ PEC_POLY
    } else {
        shifted
    }
}

/// Folds the top `8 - n` bits of `cur` into the accumulator, most significant
/// bit first. `cur` is the input byte already shifted left by `n`.
pub open spec fn pec_bits(acc: u16, cur: u8, n: int) -> u16
    decreases 8 - n,
{
    if n < 0 || n >= 8 {
        acc
    } else {
        pec_bits(pec_bit_step(acc, (cur & 0x80) == 0x80), (cur << 1) as u8, n + 1)
    }
}

/// Folds one whole input byte into the accumulator, most significant bit
/// first.
pub open spec fn pec_byte_step(acc: u16, b: u8) -> u16 {
    pec_bits(acc, b, 0)
}

/// The accumulator after consuming `data`, starting from the seed.
pub open spec fn pec_acc(data: Seq<u8>) -> u16
    decreases data.len(),
{
    if data.len() == 0 {
        PEC_SEED
    } else {
        pec_byte_step(pec_acc(data.drop_last()), data.last())
    }
}

/// The two checksum bytes for `data`: the final accumulator shifted left once
/// (the code is 15-bit, so the low bit of the result is always zero), split
/// big-endian.
pub open spec fn spec_pec15(data: Seq<u8>) -> Seq<u8> {
    let v = pec_acc(data) << 1;
    seq![(v >> 8) as u8, v as u8]
}

/// The packet-error-code engine. Stateless: the checksum is a pure function
/// of the input bytes.
pub struct PEC15 {}

impl PEC15 {
    /// Computes the two checksum bytes over `data`. Always succeeds, for any
    /// byte sequence including the empty one, and depends on nothing but
    /// `data`.
    pub fn calc(data: &[u8]) -> (r: [u8; 2])
        ensures
            r@ == spec_pec15(data@),
    {
        let mut acc: u16 = PEC_SEED;
        let n = data.len();
        let mut i: usize = 0;
        while i < n
            invariant
                i <= n,
                n == data@.len(),
                acc == pec_acc(data@.take(i as int)),
            decreases n - i,
        {
            let b = data[i];
            let mut cur: u8 = b;
            let mut j: usize = 0;
            while j < 8
                invariant
                    j <= 8,
                    pec_bits(acc, cur, j as int) == pec_byte_step(
                        pec_acc(data@.take(i as int)),
                        b,
                    ),
                decreases 8 - j,
            {
                let bit = (cur & 0x80) == 0x80;
                acc = pec_bit_step_exec(acc, bit);
                cur = cur << 1;
                j = j + 1;
            }
            proof {
                assert(data@.take(i + 1).drop_last() =~= data@.take(i as int));
                assert(data@.take(i + 1).last() == data@[i as int]);
            }
            i = i + 1;
        }
        proof {
            assert(data@.take(n as int) =~= data@);
        }
        let v = acc << 1;
        [(v >> 8) as u8, v as u8]
    }
}

/// One executable feedback step, exactly the specification's step.
fn pec_bit_step_exec(acc: u16, bit: bool) -> (r: u16)
    ensures
        r == pec_bit_step(acc, bit),
{
    let feedback = bit != (((acc >> 14) & 1) == 1);
    let shifted = (acc << 1) & 0x7fff;
    if feedback {
        shifted ^ PEC_POLY
    } else {
        shifted
    }
}

/// Law: the checksum is deterministic. It depends on the byte sequence alone,
/// never on call history, so equal inputs always give equal checksum bytes.
pub proof fn lemma_pec15_deterministic(a: Seq<u8>, b: Seq<u8>)
    requires
        a == b,
    ensures
        spec_pec15(a) == spec_pec15(b),
{
}

/// One feedback step keeps the accumulator below `0x8000`.
proof fn lemma_bit_step_bound(acc: u16, bit: bool)
    ensures
        pec_bit_step(acc, bit) < 0x8000,
{
    assert(((acc << 1) & 0x7fff) < 0x8000) by (bit_vector);
    assert((((acc << 1) & 0x7fff) ^ 0x4599) < 0x8000) by (bit_vector);
}

/// Folding the rest of a byte keeps the accumulator below `0x8000`.
proof fn lemma_bits_bound(acc: u16, cur: u8, n: int)
    requires
        0 <= n < 8,
    ensures
        pec_bits(acc, cur, n) < 0x8000,
    decreases 8 - n,
{
    let bit = (cur & 0x80) == 0x80;
    lemma_bit_step_bound(acc, bit);
    if n + 1 < 8 {
        lemma_bits_bound(pec_bit_step(acc, bit), (cur << 1) as u8, n + 1);
    } else {
        assert(pec_bits(pec_bit_step(acc, bit), (cur << 1) as u8, n + 1) == pec_bit_step(
            acc,
            bit,
        ));
    }
}

/// The accumulator over any byte sequence stays below `0x8000`.
proof fn lemma_acc_bound(data: Seq<u8>)
    ensures
        pec_acc(data) < 0x8000,
    decreases data.len(),
{
    if data.len() != 0 {
        lemma_acc_bound(data.drop_last());
        lemma_bits_bound(pec_acc(data.drop_last()), data.last(), 0);
    }
}

/// A feedback step is injective in the accumulator: distinct accumulators
/// stay distinct under the same message bit.
proof fn lemma_bit_step_injective(acc1: u16, acc2: u16, bit: bool)
    requires
        acc1 < 0x8000,
        acc2 < 0x8000,
        acc1 != acc2,
    ensures
        pec_bit_step(acc1, bit) != pec_bit_step(acc2, bit),
{
    assert(pec_bit_step(acc1, bit) != pec_bit_step(acc2, bit)) by (bit_vector)
        requires
            acc1 < 0x8000,
            acc2 < 0x8000,
            acc1 != acc2,
    ;
}

/// Feeding opposite message bits from the same accumulator gives distinct
/// results: the two outcomes differ by the generator polynomial.
proof fn lemma_bit_step_flip(acc: u16, b1: bool, b2: bool)
    requires
        b1 != b2,
    ensures
        pec_bit_step(acc, b1) != pec_bit_step(acc, b2),
{
    assert(pec_bit_step(acc, b1) != pec_bit_step(acc, b2)) by (bit_vector)
        requires
            b1 != b2,
    ;
}

/// Folding the same remaining bits over distinct accumulators gives
/// distinct results.
proof fn lemma_bits_preserve_diff(acc1: u16, acc2: u16, cur: u8, n: int)
    requires
        0 <= n <= 8,
        acc1 < 0x8000,
        acc2 < 0x8000,
        acc1 != acc2,
    ensures
        pec_bits(acc1, cur, n) != pec_bits(acc2, cur, n),
    decreases 8 - n,
{
    if n < 8 {
        let bit = (cur & 0x80) == 0x80;
        lemma_bit_step_injective(acc1, acc2, bit);
        lemma_bit_step_bound(acc1, bit);
        lemma_bit_step_bound(acc2, bit);
        lemma_bits_preserve_diff(
            pec_bit_step(acc1, bit),
            pec_bit_step(acc2, bit),
            (cur << 1) as u8,
            n + 1,
        );
    }
}

/// Folding two bytes that differ in exactly one remaining bit, from the
/// same accumulator, gives distinct results. `d` is the differing bit's
/// distance from the byte's current most significant bit.
proof fn lemma_bits_single_flip(acc: u16, cur1: u8, cur2: u8, n: int, d: u8)
    requires
        0 <= n < 8,
        d < 8 - n,
        acc < 0x8000,
        cur2 == cur1 ^ (0x80u8 >> d),
    ensures
        pec_bits(acc, cur1, n) != pec_bits(acc, cur2, n),
    decreases d,
{
    let bit1 = (cur1 & 0x80) == 0x80;
    let bit2 = (cur2 & 0x80) == 0x80;
    if d == 0 {
        assert(((cur1 & 0x80) == 0x80) != (((cur1 ^ (0x80u8 >> 0)) & 0x80) == 0x80))
            by (bit_vector);
        lemma_bit_step_flip(acc, bit1, bit2);
        lemma_bit_step_bound(acc, bit1);
        lemma_bit_step_bound(acc, bit2);
        assert((((cur1 ^ (0x80u8 >> 0)) << 1) as u8) == ((cur1 << 1) as u8)) by (bit_vector);
        if n + 1 < 8 {
            lemma_bits_preserve_diff(
                pec_bit_step(acc, bit1),
                pec_bit_step(acc, bit2),
                (cur1 << 1) as u8,
                n + 1,
            );
        } else {
            assert(pec_bits(pec_bit_step(acc, bit1), (cur1 << 1) as u8, n + 1) == pec_bit_step(
                acc,
                bit1,
            ));
            assert(pec_bits(pec_bit_step(acc, bit2), (cur2 << 1) as u8, n + 1) == pec_bit_step(
                acc,
                bit2,
            ));
        }
    } else {
        assert(((cur1 & 0x80) == 0x80) == (((cur1 ^ (0x80u8 >> d)) & 0x80) == 0x80))
            by (bit_vector)
            requires
                0 < d < 8,
        ;
        lemma_bit_step_bound(acc, bit1);
        assert((((cur1 ^ (0x80u8 >> d)) << 1) as u8) == (((cur1 << 1) as u8) ^ (0x80u8 >> (
        (d - 1) as u8)))) by (bit_vector)
            requires
                0 < d < 8,
        ;
        lemma_bits_single_flip(
            pec_bit_step(acc, bit1),
            (cur1 << 1) as u8,
            (cur2 << 1) as u8,
            n + 1,
            (d - 1) as u8,
        );
    }
}

/// Flipping one bit of one byte anywhere in the sequence changes the final
/// accumulator.
proof fn lemma_acc_single_flip(p: Seq<u8>, j: int, m: u8)
    requires
        0 <= j < p.len(),
        m < 8,
    ensures
        pec_acc(p.update(j, p[j] ^ (1u8 << m))) != pec_acc(p),
    decreases p.len(),
{
    let p2 = p.update(j, p[j] ^ (1u8 << m));
    if j == p.len() - 1 {
        assert(p2.drop_last() =~= p.drop_last());
        lemma_acc_bound(p.drop_last());
        assert((1u8 << m) == (0x80u8 >> ((7 - m) as u8))) by (bit_vector)
            requires
                m < 8,
        ;
        lemma_bits_single_flip(
            pec_acc(p.drop_last()),
            p.last(),
            p2.last(),
            0,
            (7 - m) as u8,
        );
    } else {
        assert(p2.drop_last() =~= p.drop_last().update(j, p[j] ^ (1u8 << m)));
        lemma_acc_single_flip(p.drop_last(), j, m);
        lemma_acc_bound(p.drop_last());
        lemma_acc_bound(p2.drop_last());
        assert(p2.last() == p.last());
        lemma_bits_preserve_diff(pec_acc(p2.drop_last()), pec_acc(p.drop_last()), p.last(), 0);
    }
}

/// Law: the checksum detects every single-bit error. Flipping any one bit
/// of any byte of the input always changes the two checksum bytes.
pub proof fn lemma_pec15_detects_single_bit_flip(data: Seq<u8>, j: int, m: u8)
    requires
        0 <= j < data.len(),
        m < 8,
    ensures
        spec_pec15(data.update(j, data[j] ^ (1u8 << m))) != spec_pec15(data),
{
    let data2 = data.update(j, data[j] ^ (1u8 << m));
    lemma_acc_single_flip(data, j, m);
    lemma_acc_bound(data);
    lemma_acc_bound(data2);
    let a1 = pec_acc(data);
    let a2 = pec_acc(data2);
    assert(!((((a1 << 1) >> 8) as u8) == (((a2 << 1) >> 8) as u8) && ((a1 << 1) as u8) == ((a2
        << 1) as u8))) by (bit_vector)
        requires
            a1 < 0x8000,
            a2 < 0x8000,
            a1 != a2,
    ;
    if spec_pec15(data2) == spec_pec15(data) {
        assert(spec_pec15(data2)[0] == spec_pec15(data)[0]);
        assert(spec_pec15(data2)[1] == spec_pec15(data)[1]);
    }
}

} // verus!
