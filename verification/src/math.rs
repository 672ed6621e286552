use vstd::prelude::*;

verus! {

/// Denominator of every percentage the engine holds: 10 000 stands for 100%.
pub const FULL_PERCENTAGE: u64 = 10_000;

/// `percentage` ten-thousandths of `amount`, rounded down.
pub open spec fn percentage_floor(amount: nat, percentage: nat) -> nat {
    amount * percentage / (FULL_PERCENTAGE as nat)
}

/// `part` is strictly more than `percentage` ten-thousandths of `whole`,
/// compared exactly, without rounding.
pub open spec fn exceeds_share(part: nat, percentage: nat, whole: nat) -> bool {
    part * FULL_PERCENTAGE > percentage * whole
}

/// `part` is strictly less than `percentage` ten-thousandths of `whole`,
/// compared exactly, without rounding.
pub open spec fn below_share(part: nat, percentage: nat, whole: nat) -> bool {
    part * FULL_PERCENTAGE < percentage * whole
}

/// Splits `amount * percentage` into quotient and remainder by `FULL_PERCENTAGE`
/// without ever forming the product.
fn scaled_div_rem(amount: u128, percentage: u64) -> (qr: (u128, u64))
    requires
        percentage <= FULL_PERCENTAGE,
    ensures
        qr.0 == (amount * percentage) / (FULL_PERCENTAGE as int),
        qr.1 == (amount * percentage) % (FULL_PERCENTAGE as int),
        qr.0 <= amount,
{
    let whole: u128 = amount / 10_000;
    let rest: u128 = amount % 10_000;
    let pct: u128 = percentage as u128;
    assert(whole * pct <= whole * 10_000) by (nonlinear_arith)
        requires
            pct <= 10_000,
    ;
    assert(rest * pct <= 9_999 * 10_000) by (nonlinear_arith)
        requires
            rest <= 9_999,
            pct <= 10_000,
    ;
    let low: u128 = rest * pct;
    let carry: u128 = low / 10_000;
    let rem: u128 = low % 10_000;
    assert(carry <= rest) by (nonlinear_arith)
        requires
            carry == (rest * pct) / 10_000,
            pct <= 10_000,
    ;
    let quot: u128 = whole * pct + carry;
    proof {
        let q = whole * pct + carry;
        assert(amount * pct == 10_000 * q + rem) by (nonlinear_arith)
            requires
                amount == 10_000 * whole + rest,
                rest * pct == 10_000 * carry + rem,
                q == whole * pct + carry,
        ;
        vstd::arithmetic::div_mod::lemma_fundamental_div_mod_converse(
            amount * pct,
            10_000,
            q,
            rem as int,
        );
    }
    (quot, rem as u64)
}

/// `percentage` ten-thousandths of `amount`, rounded down.
pub fn percentage_of(amount: u128, percentage: u64) -> (part: u128)
    requires
        percentage <= FULL_PERCENTAGE,
    ensures
        part == percentage_floor(amount as nat, percentage as nat),
        part <= amount,
{
    scaled_div_rem(amount, percentage).0
}

/// Whether `part` is strictly more than `percentage` ten-thousandths of `whole`.
pub fn exceeds_percentage(part: u128, percentage: u64, whole: u128) -> (over: bool)
    requires
        percentage <= FULL_PERCENTAGE,
    ensures
        over == exceeds_share(part as nat, percentage as nat, whole as nat),
{
    let qr = scaled_div_rem(whole, percentage);
    proof {
        let x = whole * percentage;
        assert(x == 10_000 * qr.0 + qr.1 && 0 <= qr.1 < 10_000) by {
            vstd::arithmetic::div_mod::lemma_fundamental_div_mod(x, 10_000);
        }
        assert(percentage * whole == whole * percentage) by (nonlinear_arith);
    }
    part > qr.0
}

/// Whether `part` is strictly less than `percentage` ten-thousandths of `whole`.
pub fn below_percentage(part: u128, percentage: u64, whole: u128) -> (under: bool)
    requires
        percentage <= FULL_PERCENTAGE,
    ensures
        under == below_share(part as nat, percentage as nat, whole as nat),
{
    let qr = scaled_div_rem(whole, percentage);
    proof {
        let x = whole * percentage;
        assert(x == 10_000 * qr.0 + qr.1 && 0 <= qr.1 < 10_000) by {
            vstd::arithmetic::div_mod::lemma_fundamental_div_mod(x, 10_000);
        }
        assert(percentage * whole == whole * percentage) by (nonlinear_arith);
    }
    if qr.1 == 0 {
        part < qr.0
    } else {
        part <= qr.0
    }
}

} // verus!
