use vstd::prelude::*;
use vstd::arithmetic::div_mod::{
    lemma_div_is_ordered, lemma_div_multiples_vanish, lemma_fundamental_div_mod,
    lemma_fundamental_div_mod_converse, lemma_mod_bound,
};

use crate::errors::MathError;

verus! {

/// Fee denominator: 10_000 basis points make 100%.
pub const BPS_DENOM: u64 = 10_000;

/// The price paid per input unit: the yield-token price when minting,
/// the reserve (bank) price when burning.
pub open spec fn spec_price_in(is_mint: bool, yielding_mint_price: u64, bank_mint_price: u64) -> int {
    if is_mint {
        yielding_mint_price as int
    } else {
        bank_mint_price as int
    }
}

/// The price received per output unit: the reserve (bank) price when
/// minting, the yield-token price when burning.
pub open spec fn spec_price_out(is_mint: bool, yielding_mint_price: u64, bank_mint_price: u64) -> int {
    if is_mint {
        bank_mint_price as int
    } else {
        yielding_mint_price as int
    }
}

/// Numerator of the inverse formula: desired_out * price_out * 10_000.
pub open spec fn spec_numerator(desired_out: int, price_out: int) -> int {
    desired_out * price_out * (BPS_DENOM as int)
}

/// Denominator of the inverse formula: price_in * (10_000 - fee_bps).
pub open spec fn spec_denominator(price_in: int, fee_bps: int) -> int {
    price_in * ((BPS_DENOM as int) - fee_bps)
}

/// Ceiling division of n by d, for d > 0.
pub open spec fn spec_ceil_div(n: int, d: int) -> int {
    (n + d - 1) / d
}

/// The input amount required to realize `desired_out` output units:
/// ceil(desired_out * price_out * 10_000 / (price_in * (10_000 - fee_bps))).
pub open spec fn spec_required_in(desired_out: int, price_in: int, price_out: int, fee_bps: int) -> int {
    spec_ceil_div(spec_numerator(desired_out, price_out), spec_denominator(price_in, fee_bps))
}

/// The output realized from `amount_in` input units by a forward pricing
/// rule that floors: amount_in * price_in * (10_000 - fee_bps) is the fee-netted
/// input value, and each output unit costs price_out.
pub open spec fn spec_forward_out(amount_in: int, price_in: int, price_out: int, fee_bps: int) -> int {
    (amount_in * spec_denominator(price_in, fee_bps)) / spec_numerator(1, price_out)
}

/// Inverse of the forward pricing rule, with ceiling rounding so that the
/// returned amount is always sufficient.
///
/// Returns the exact 128-bit required input amount, or the reason the
/// formula cannot be evaluated: a fee of 10_000 basis points or more, a
/// zero input-side price, or a product or sum beyond the 128-bit range.
pub fn required_input_amount_u128(
    is_mint: bool,
    desired_out: u64,
    yielding_mint_price: u64,
    bank_mint_price: u64,
    fee_bps: u16,
) -> (r: Result<u128, MathError>)
    ensures
        ({
            let price_in = spec_price_in(is_mint, yielding_mint_price, bank_mint_price);
            let price_out = spec_price_out(is_mint, yielding_mint_price, bank_mint_price);
            let num = spec_numerator(desired_out as int, price_out);
            let den = spec_denominator(price_in, fee_bps as int);
            &&& fee_bps >= BPS_DENOM ==> r == Err::<u128, MathError>(MathError::FeeTooHigh)
            &&& fee_bps < BPS_DENOM && price_in == 0 ==> r == Err::<u128, MathError>(
                MathError::ZeroPrice,
            )
            &&& fee_bps < BPS_DENOM && price_in > 0 && num + den - 1 > u128::MAX ==> r
                == Err::<u128, MathError>(MathError::Overflow)
            &&& fee_bps < BPS_DENOM && price_in > 0 && num + den - 1 <= u128::MAX ==> r
                == Ok::<u128, MathError>(
                spec_required_in(desired_out as int, price_in, price_out, fee_bps as int) as u128,
            )
            &&& r is Ok ==> r.unwrap() == spec_required_in(
                desired_out as int,
                price_in,
                price_out,
                fee_bps as int,
            )
        }),
{
    let fee_bps_u128 = fee_bps as u128;
    if fee_bps_u128 >= BPS_DENOM as u128 {
        return Err(MathError::FeeTooHigh);
    }
    let effective_bps: u128 = (BPS_DENOM as u128) - fee_bps_u128;

    let (price_in, price_out): (u128, u128) = if is_mint {
        (yielding_mint_price as u128, bank_mint_price as u128)
    } else {
        (bank_mint_price as u128, yielding_mint_price as u128)
    };
    if price_in == 0 {
        return Err(MathError::ZeroPrice);
    }

    proof {
        assert((desired_out as u128) * price_out <= u128::MAX) by (nonlinear_arith)
            requires
                desired_out as u128 <= u64::MAX,
                price_out <= u64::MAX as u128,
        ;
        assert(price_in * effective_bps <= u128::MAX) by (nonlinear_arith)
            requires
                price_in <= u64::MAX as u128,
                effective_bps <= BPS_DENOM as u128,
        ;
        assert(price_in * effective_bps > 0) by (nonlinear_arith)
            requires
                price_in > 0,
                effective_bps > 0,
        ;
    }
    let partial: u128 = (desired_out as u128) * price_out;
    let numerator: u128 = match partial.checked_mul(BPS_DENOM as u128) {
        Some(n) => n,
        None => {
            return Err(MathError::Overflow);
        },
    };
    let denominator: u128 = price_in * effective_bps;

    let adjusted: u128 = match numerator.checked_add(denominator - 1) {
        Some(s) => s,
        None => {
            return Err(MathError::Overflow);
        },
    };
    Ok(adjusted / denominator)
}

/// Ceiling division is the exact inverse of floor division: for a >= 0,
/// m > 0, k > 0, the least x with (x * k) / m >= a is x = ceil(a * m / k).
pub proof fn lemma_ceil_div_tight(a: int, m: int, k: int)
    requires
        a >= 0,
        m > 0,
        k > 0,
    ensures
        (spec_ceil_div(a * m, k) * k) / m >= a,
        spec_ceil_div(a * m, k) >= 1 ==> ((spec_ceil_div(a * m, k) - 1) * k) / m < a,
{
    let n = a * m;
    assert(n >= 0) by (nonlinear_arith)
        requires
            a >= 0,
            m > 0,
            n == a * m,
    ;
    let r = spec_ceil_div(n, k);
    lemma_fundamental_div_mod(n + k - 1, k);
    lemma_mod_bound(n + k - 1, k);
    let md = (n + k - 1) % k;
    assert(n + k - 1 == k * r + md);
    assert(k * r >= n);
    assert(k * r <= n + k - 1);
    assert(k * r == r * k) by (nonlinear_arith);

    // Sufficiency: (r * k) / m >= (a * m) / m == a.
    lemma_div_is_ordered(n, r * k, m);
    lemma_div_multiples_vanish(a, m);
    assert(m * a == a * m) by (nonlinear_arith);
    assert((r * k) / m >= a);

    // Tightness: one unit less falls short.
    if r >= 1 {
        assert((r - 1) * k == r * k - k) by (nonlinear_arith);
        assert((r - 1) * k <= n - 1);
        if n >= 1 {
            lemma_div_is_ordered((r - 1) * k, n - 1, m);
            // (a * m - 1) / m == a - 1, because a * m - 1 == (a - 1) * m + (m - 1).
            assert(n - 1 == (a - 1) * m + (m - 1)) by (nonlinear_arith)
                requires
                    n == a * m,
            ;
            lemma_fundamental_div_mod_converse(n - 1, m, a - 1, m - 1);
            assert(((r - 1) * k) / m <= a - 1);
        } else {
            // n == 0 forces a == 0, and then r == (k - 1) / k == 0,
            // contradicting r >= 1: this branch cannot be reached.
            assert(a == 0 || m <= 0) by (nonlinear_arith)
                requires
                    n == a * m,
                    n <= 0,
                    a >= 0,
                    m > 0,
            ;
            assert(a == 0);
            assert(k * r <= k - 1);
            assert(r <= 0) by (nonlinear_arith)
                requires
                    k * r <= k - 1,
                    k > 0,
            ;
            assert(false);
        }
    }
}

/// The input amount returned by the inverse formula is sufficient: fed
/// through a floor-rounding forward rule at the same prices and fee, it
/// realizes at least the desired output. It is also tight: one unit less
/// realizes strictly less than the desired output.
pub proof fn lemma_required_in_sufficient_and_tight(
    desired_out: int,
    price_in: int,
    price_out: int,
    fee_bps: int,
)
    requires
        desired_out >= 0,
        price_in > 0,
        price_out > 0,
        0 <= fee_bps < BPS_DENOM,
    ensures
        spec_forward_out(
            spec_required_in(desired_out, price_in, price_out, fee_bps),
            price_in,
            price_out,
            fee_bps,
        ) >= desired_out,
        spec_required_in(desired_out, price_in, price_out, fee_bps) >= 1 ==> spec_forward_out(
            spec_required_in(desired_out, price_in, price_out, fee_bps) - 1,
            price_in,
            price_out,
            fee_bps,
        ) < desired_out,
{
    let m = price_out * (BPS_DENOM as int);
    let k = spec_denominator(price_in, fee_bps);
    assert(m > 0) by (nonlinear_arith)
        requires
            price_out > 0,
            m == price_out * (BPS_DENOM as int),
    ;
    assert(k > 0) by (nonlinear_arith)
        requires
            price_in > 0,
            0 <= fee_bps < BPS_DENOM,
            k == price_in * ((BPS_DENOM as int) - fee_bps),
    ;
    assert(desired_out * price_out * (BPS_DENOM as int) == desired_out * m) by (nonlinear_arith)
        requires
            m == price_out * (BPS_DENOM as int),
    ;
    assert(spec_numerator(desired_out, price_out) == desired_out * m);
    assert(spec_numerator(1, price_out) == m);
    lemma_ceil_div_tight(desired_out, m, k);
}

/// Swapping the roles of the two mints while flipping the direction flag
/// selects the same input and output prices, so the required input amount
/// is unchanged.
pub proof fn lemma_direction_symmetry(
    is_mint: bool,
    desired_out: u64,
    yielding_mint_price: u64,
    bank_mint_price: u64,
    fee_bps: u16,
)
    ensures
        spec_price_in(is_mint, yielding_mint_price, bank_mint_price) == spec_price_in(
            !is_mint,
            bank_mint_price,
            yielding_mint_price,
        ),
        spec_price_out(is_mint, yielding_mint_price, bank_mint_price) == spec_price_out(
            !is_mint,
            bank_mint_price,
            yielding_mint_price,
        ),
        spec_required_in(
            desired_out as int,
            spec_price_in(is_mint, yielding_mint_price, bank_mint_price),
            spec_price_out(is_mint, yielding_mint_price, bank_mint_price),
            fee_bps as int,
        ) == spec_required_in(
            desired_out as int,
            spec_price_in(!is_mint, bank_mint_price, yielding_mint_price),
            spec_price_out(!is_mint, bank_mint_price, yielding_mint_price),
            fee_bps as int,
        ),
{
}

} // verus!
