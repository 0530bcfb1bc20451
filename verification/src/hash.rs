//! The hash function the ledger tree, the pubdata commitment and the circuit
//! checker all share. It is a fixed modular mixing function: deterministic,
//! a pure function of its arguments, and free of overflow because the mixing
//! is carried out in 128-bit arithmetic below the 128-bit bound.

use vstd::prelude::*;

verus! {

/// Multiplier for the left operand; below `2^63` so the mixing sum fits `u128`.
pub const MIX_LEFT: u64 = 0x517c_c1b7_2722_0a95;

/// Multiplier for the right operand; below `2^62`.
pub const MIX_RIGHT: u64 = 0x2545_f491_4f6c_dd1d;

/// Additive offset of the mixing function.
pub const MIX_OFFSET: u64 = 0x1656_67b1_9e37_79f9;

/// Modulus of the mixing function: the largest prime below `2^64`.
pub const HASH_MODULUS: u64 = 0xffff_ffff_ffff_ffc5;

/// The hash of one interior tree node: a modular combination of its two
/// children that keeps left and right distinguishable. The definition stays
/// sealed here; everything outside reasons about it as an opaque function,
/// which is all the tree proofs need.
pub closed spec fn hash_pair(a: u64, b: u64) -> u64 {
    (((a * MIX_LEFT) + (b * MIX_RIGHT) + MIX_OFFSET) % (HASH_MODULUS as int)) as u64
}

/// Computes `hash_pair` without overflow by working in 128-bit arithmetic.
pub fn mix_pair(a: u64, b: u64) -> (r: u64)
    ensures
        r == hash_pair(a, b),
{
    proof {
        assert((a as int) * (MIX_LEFT as int) <= 0xffff_ffff_ffff_ffff * 0x517c_c1b7_2722_0a95)
            by (nonlinear_arith)
            requires
                a <= 0xffff_ffff_ffff_ffffu64,
        ;
        assert((b as int) * (MIX_RIGHT as int) <= 0xffff_ffff_ffff_ffff * 0x2545_f491_4f6c_dd1d)
            by (nonlinear_arith)
            requires
                b <= 0xffff_ffff_ffff_ffffu64,
        ;
    }
    let sum: u128 = (a as u128) * (MIX_LEFT as u128) + (b as u128) * (MIX_RIGHT as u128)
        + (MIX_OFFSET as u128);
    let r: u128 = sum % (HASH_MODULUS as u128);
    r as u64
}

/// Low 64 bits of a 128-bit value.
pub open spec fn lo64(x: u128) -> u64 {
    (x % 0x1_0000_0000_0000_0000) as u64
}

/// High 64 bits of a 128-bit value.
pub open spec fn hi64(x: u128) -> u64 {
    (x / 0x1_0000_0000_0000_0000) as u64
}

/// The hash of a single 128-bit value (a balance leaf).
pub open spec fn hash_u128(x: u128) -> u64 {
    hash_pair(lo64(x), hi64(x))
}

/// Computes `hash_u128`.
pub fn mix_u128(x: u128) -> (r: u64)
    ensures
        r == hash_u128(x),
{
    let lo: u64 = (x % 0x1_0000_0000_0000_0000) as u64;
    let hi: u64 = (x / 0x1_0000_0000_0000_0000) as u64;
    mix_pair(lo, hi)
}

/// Seed for hashing a byte string.
pub const BYTES_SEED: u64 = 0x0b67_5df6_1a3e_92d1;

/// The hash of a byte string: a left fold of `hash_pair` over its bytes,
/// starting from a fixed seed. Used for the block pubdata commitment.
pub open spec fn hash_bytes_seq(s: Seq<u8>) -> u64
    decreases s.len(),
{
    if s.len() == 0 {
        BYTES_SEED
    } else {
        hash_pair(hash_bytes_seq(s.drop_last()), s.last() as u64)
    }
}

/// Computes `hash_bytes_seq` over a byte vector.
pub fn hash_bytes(v: &Vec<u8>) -> (r: u64)
    ensures
        r == hash_bytes_seq(v@),
{
    let mut acc: u64 = BYTES_SEED;
    let mut i: usize = 0;
    while i < v.len()
        invariant
            i <= v@.len(),
            acc == hash_bytes_seq(v@.take(i as int)),
        decreases v@.len() - i,
    {
        acc = mix_pair(acc, v[i] as u64);
        proof {
            assert(v@.take(i + 1).drop_last() =~= v@.take(i as int));
            assert(v@.take(i + 1).last() == v@[i as int]);
        }
        i = i + 1;
    }
    proof {
        assert(v@.take(v@.len() as int) =~= v@);
    }
    acc
}

} // verus!
