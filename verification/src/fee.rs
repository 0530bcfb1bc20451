//! The packed fee encoding: a fee travels on-chain as an 11-bit mantissa and
//! a 5-bit decimal exponent, so only values of the form `m * 10^e` with
//! `m <= 2047` and `e <= 31` are representable. `closest_packable_fee_amount`
//! rounds a fee down to the nearest representable value.

use vstd::prelude::*;

verus! {

/// Largest packed-fee mantissa.
pub const FEE_MANTISSA_MAX: u128 = 2047;

/// Largest packed-fee decimal exponent.
pub const FEE_EXPONENT_MAX: u32 = 31;

/// Powers of ten.
pub open spec fn pow10(e: nat) -> nat
    decreases e,
{
    if e == 0 {
        1
    } else {
        10 * pow10((e - 1) as nat)
    }
}

/// A fee is packable when some mantissa/exponent pair denotes it exactly.
pub open spec fn fee_packable(fee: u128) -> bool {
    exists|m: nat, e: nat|
        m <= FEE_MANTISSA_MAX && e <= FEE_EXPONENT_MAX && fee == #[trigger] (m * pow10(e))
}

/// Rounding a fee down at exponent `e` and up: take the smallest exponent at
/// which the mantissa fits, drop the digits below it; a fee too large even
/// for the top exponent saturates at the largest packable value.
pub open spec fn pack_fee_from(fee: nat, e: nat) -> nat
    decreases FEE_EXPONENT_MAX - e when e <= FEE_EXPONENT_MAX
{
    if fee / pow10(e) <= FEE_MANTISSA_MAX as nat {
        (fee / pow10(e)) * pow10(e)
    } else if e == FEE_EXPONENT_MAX {
        (FEE_MANTISSA_MAX as nat) * pow10(FEE_EXPONENT_MAX as nat)
    } else {
        pack_fee_from(fee, e + 1)
    }
}

/// The packable value a fee rounds down to.
pub open spec fn closest_packable_fee_spec(fee: u128) -> nat {
    pack_fee_from(fee as nat, 0)
}

/// The concrete values of the powers of ten up to the top exponent.
pub proof fn lemma_pow10_values()
    ensures
        pow10(0) == 1,
        pow10(30) == 0x0c9f2c9cd04674edea40000000,
        pow10(31) == 0x7e37be2022c0914b2680000000,
{
    assert(pow10(0) == 1);
    assert(pow10(1) == 10);
    assert(pow10(2) == 100);
    assert(pow10(3) == 1000);
    assert(pow10(4) == 10000);
    assert(pow10(5) == 100000);
    assert(pow10(6) == 1000000);
    assert(pow10(7) == 10000000);
    assert(pow10(8) == 100000000);
    assert(pow10(9) == 1000000000);
    assert(pow10(10) == 10000000000);
    assert(pow10(11) == 100000000000);
    assert(pow10(12) == 1000000000000);
    assert(pow10(13) == 10000000000000);
    assert(pow10(14) == 100000000000000);
    assert(pow10(15) == 1000000000000000);
    assert(pow10(16) == 10000000000000000);
    assert(pow10(17) == 100000000000000000);
    assert(pow10(18) == 1000000000000000000);
    assert(pow10(19) == 10000000000000000000);
    assert(pow10(20) == 100000000000000000000);
    assert(pow10(21) == 1000000000000000000000);
    assert(pow10(22) == 10000000000000000000000);
    assert(pow10(23) == 100000000000000000000000);
    assert(pow10(24) == 1000000000000000000000000);
    assert(pow10(25) == 10000000000000000000000000);
    assert(pow10(26) == 100000000000000000000000000);
    assert(pow10(27) == 1000000000000000000000000000);
    assert(pow10(28) == 10000000000000000000000000000);
    assert(pow10(29) == 100000000000000000000000000000);
    assert(pow10(30) == 1000000000000000000000000000000);
    assert(pow10(31) == 10000000000000000000000000000000);
}

/// Powers of ten grow with the exponent.
pub proof fn lemma_pow10_monotone(a: nat, b: nat)
    requires
        a <= b,
    ensures
        pow10(a) <= pow10(b),
    decreases b,
{
    if a < b {
        lemma_pow10_monotone(a, (b - 1) as nat);
        assert(pow10(b) == 10 * pow10((b - 1) as nat));
    }
}

/// Splitting an exponent splits the power.
pub proof fn lemma_pow10_adds(a: nat, b: nat)
    ensures
        pow10(a + b) == pow10(a) * pow10(b),
    decreases a,
{
    if a == 0 {
        assert(pow10(0 + b) == 1 * pow10(b));
    } else {
        lemma_pow10_adds((a - 1) as nat, b);
        assert(pow10(a + b) == 10 * pow10((a + b - 1) as nat));
        assert(pow10(a) * pow10(b) == 10 * (pow10((a - 1) as nat) * pow10(b)))
            by (nonlinear_arith)
            requires
                pow10(a) == 10 * pow10((a - 1) as nat),
        ;
    }
}

/// The rounding, started at any exponent, returns a packable value.
proof fn lemma_pack_result_packable(fee: nat, e: nat)
    requires
        e <= FEE_EXPONENT_MAX,
        pack_fee_from(fee, e) <= u128::MAX,
    ensures
        fee_packable(pack_fee_from(fee, e) as u128),
    decreases FEE_EXPONENT_MAX - e,
{
    if fee / pow10(e) <= FEE_MANTISSA_MAX as nat {
        assert(pack_fee_from(fee, e) as u128 == (fee / pow10(e)) * pow10(e));
    } else if e == FEE_EXPONENT_MAX {
        assert(pack_fee_from(fee, e) as u128 == (FEE_MANTISSA_MAX as nat) * pow10(
            FEE_EXPONENT_MAX as nat,
        ));
    } else {
        lemma_pack_result_packable(fee, e + 1);
    }
}

/// A fee of the form `m * 10^e`, seen from any exponent at or below `e`,
/// rounds to itself.
proof fn lemma_pack_exact(fee: nat, k: nat, m: nat, e: nat)
    requires
        k <= e <= FEE_EXPONENT_MAX,
        m <= FEE_MANTISSA_MAX,
        fee == m * pow10(e),
    ensures
        pack_fee_from(fee, k) == fee,
    decreases e - k,
{
    let gap = (e - k) as nat;
    lemma_pow10_adds(gap, k);
    lemma_pow10_positive(k);
    lemma_pow10_positive(gap);
    assert(fee == (m * pow10(gap)) * pow10(k)) by (nonlinear_arith)
        requires
            fee == m * pow10((gap + k) as nat) && pow10((gap + k) as nat) == pow10(gap) * pow10(
                k,
            ),
    ;
    vstd::arithmetic::div_mod::lemma_div_by_multiple(
        (m * pow10(gap)) as int,
        pow10(k) as int,
    );
    assert(fee / pow10(k) == m * pow10(gap));
    if fee / pow10(k) <= FEE_MANTISSA_MAX as nat {
        assert((fee / pow10(k)) * pow10(k) == fee) by (nonlinear_arith)
            requires
                fee / pow10(k) == m * pow10(gap) && fee == (m * pow10(gap)) * pow10(k),
        ;
    } else {
        // The mantissa still overflows here, so the exponent has not yet
        // reached e: at e itself the mantissa is exactly m.
        if k == e {
            assert(pow10(gap) == 1);
            assert(m * 1 == m) by (nonlinear_arith);
        }
        assert(k < e);
        lemma_pack_exact(fee, k + 1, m, e);
    }
}

/// Powers of ten are positive.
pub proof fn lemma_pow10_positive(e: nat)
    ensures
        pow10(e) >= 1,
    decreases e,
{
    if e > 0 {
        lemma_pow10_positive((e - 1) as nat);
    }
}

/// The rounding is the identity exactly on the packable fees: what
/// `is_fee_amount_packable` reports is the natural characterization.
pub proof fn lemma_packable_iff_round_trips(fee: u128)
    ensures
        fee_packable(fee) <==> closest_packable_fee_spec(fee) == fee as nat,
{
    if fee_packable(fee) {
        let (m, e) = choose|m: nat, e: nat|
            m <= FEE_MANTISSA_MAX && e <= FEE_EXPONENT_MAX && fee == #[trigger] (m * pow10(e));
        lemma_pack_exact(fee as nat, 0, m, e);
    }
    if closest_packable_fee_spec(fee) == fee as nat {
        lemma_pack_result_packable(fee as nat, 0);
    }
}

/// Rounds a fee down to the closest packable value: the result is packable,
/// never exceeds the fee, and a fee that was already packable comes back
/// unchanged exactly when the rounding is the identity on it.
pub fn closest_packable_fee_amount(fee: u128) -> (r: u128)
    ensures
        r as nat == closest_packable_fee_spec(fee),
        r <= fee,
        fee_packable(r),
        fee_packable(fee) ==> r == fee,
{
    proof {
        lemma_packable_iff_round_trips(fee);
    }
    let mut e: u32 = 0;
    let mut div: u128 = 1;
    while fee / div > FEE_MANTISSA_MAX && e < FEE_EXPONENT_MAX
        invariant
            e <= FEE_EXPONENT_MAX,
            div >= 1,
            div == pow10(e as nat),
            pack_fee_from(fee as nat, e as nat) == pack_fee_from(fee as nat, 0),
        decreases FEE_EXPONENT_MAX - e,
    {
        proof {
            lemma_pow10_values();
            lemma_pow10_monotone(e as nat, 30);
        }
        div = div * 10;
        e = e + 1;
    }
    proof {
        lemma_pow10_values();
        lemma_pow10_monotone(e as nat, 31);
        vstd::arithmetic::div_mod::lemma_fundamental_div_mod(fee as int, div as int);
        assert((fee as int / div as int) * (div as int) <= fee as int) by (nonlinear_arith)
            requires
                fee as int == (div as int) * (fee as int / div as int) + (fee as int % div as int)
                    && fee as int % div as int >= 0,
        ;
    }
    if fee / div <= FEE_MANTISSA_MAX {
        let mantissa = fee / div;
        let r = mantissa * div;
        proof {
            assert(r as nat == (fee as nat / pow10(e as nat)) * pow10(e as nat));
            assert(fee_packable(r));
        }
        r
    } else {
        let r = FEE_MANTISSA_MAX * div;
        proof {
            assert(r as nat == (FEE_MANTISSA_MAX as nat) * pow10(31));
            assert(fee as int >= 2048 * div as int) by (nonlinear_arith)
                requires
                    fee as int == div as int * (fee as int / div as int) + fee as int % div as int
                        && fee as int % div as int >= 0 && fee as int / div as int >= 2048 && div
                        >= 1,
            ;
            assert(fee_packable(r));
        }
        r
    }
}

/// Whether a fee is exactly representable in the packed encoding: the
/// rounding leaves it unchanged, which is exactly packability.
pub fn is_fee_amount_packable(fee: u128) -> (r: bool)
    ensures
        r == (closest_packable_fee_spec(fee) == fee as nat),
        r == fee_packable(fee),
{
    proof {
        lemma_packable_iff_round_trips(fee);
    }
    let closest = closest_packable_fee_amount(fee);
    closest == fee
}

} // verus!
