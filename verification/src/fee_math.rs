//! Fixed-point fee math.
//!
//! Growth counters are Q64.64 numbers held in 128 bits: the pool adds to them
//! for ever, so they wrap at `2^128`. A position remembers the counter it saw
//! last; what it is owed for the time since is the elapsed growth times its
//! liquidity, scaled back by `2^64` and rounded down.

use vstd::prelude::*;
use vstd::arithmetic::div_mod::{
    lemma_div_is_ordered, lemma_fundamental_div_mod, lemma_hoist_over_denominator,
};

verus! {

/// One, written as a Q64.64 number.
pub const Q64: u128 = 0x1_0000_0000_0000_0000;

/// The modulus of a growth counter, `2^128`.
pub open spec fn counter_modulus() -> nat {
    0x1_0000_0000_0000_0000_0000_0000_0000_0000nat
}

/// The growth between two readings of a counter, modulo `2^128`.
///
/// Where the counter wrapped at most once between the readings this is the
/// growth that really elapsed (see [`lemma_wraparound`]).
pub open spec fn growth_delta(last_x64: u128, latest_x64: u128) -> nat {
    if latest_x64 >= last_x64 {
        (latest_x64 - last_x64) as nat
    } else {
        (latest_x64 - last_x64 + counter_modulus()) as nat
    }
}

/// The amount that `delta_x64` of growth earns on `liquidity`:
/// `floor(delta_x64 * liquidity / 2^64)`, over the unbounded product.
pub open spec fn amount_for_growth(delta_x64: nat, liquidity: nat) -> nat {
    (delta_x64 * liquidity) / (Q64 as nat)
}

/// The amount owed after accrual: what was owed, plus what the growth since
/// the last reading earns on `liquidity`. Not bounded by 64 bits.
pub open spec fn latest_token_fees(
    last_total_fees: u64,
    fee_growth_inside_last_x64: u128,
    fee_growth_inside_latest_x64: u128,
    liquidity: u128,
) -> nat {
    last_total_fees as nat + amount_for_growth(
        growth_delta(fee_growth_inside_last_x64, fee_growth_inside_latest_x64),
        liquidity as nat,
    )
}

/// The growth between two readings of a counter: their difference modulo
/// `2^128`, which is right even where the counter wrapped since the first
/// reading, so long as it grew by less than `2^128`.
pub fn wrapping_growth(last_x64: u128, latest_x64: u128) -> (delta_x64: u128)
    ensures
        delta_x64 == growth_delta(last_x64, latest_x64),
{
    latest_x64.wrapping_sub(last_x64)
}

/// The product of two 64-bit limbs fits in 128 bits.
proof fn lemma_limb_product_fits(x: u128, y: u128)
    requires
        x < Q64,
        y < Q64,
    ensures
        x * y <= u128::MAX,
{
    assert(x * y <= 0xffff_ffff_ffff_ffff * 0xffff_ffff_ffff_ffff) by (nonlinear_arith)
        requires
            0 <= x <= 0xffff_ffff_ffff_ffff,
            0 <= y <= 0xffff_ffff_ffff_ffff,
    ;
}

/// `floor(a * b / 2^64)` assembled from the four products of the 64-bit limbs
/// of `a` and `b`.
proof fn lemma_quotient_by_limbs(a: nat, b: nat, ah: nat, al: nat, bh: nat, bl: nat)
    requires
        a == ah * Q64 + al,
        b == bh * Q64 + bl,
    ensures
        amount_for_growth(a, b) == (ah * bh) * Q64 + ah * bl + al * bh + (al * bl) / (Q64 as nat),
{
    let q: int = Q64 as int;
    let upper: int = (ah * bh) * q + ah * bl + al * bh;
    let low: int = (al * bl) as int;
    assert(a * b == low + upper * q) by (nonlinear_arith)
        requires
            a == ah * q + al,
            b == bh * q + bl,
            upper == (ah * bh) * q + ah * bl + al * bh,
            low == al * bl,
    ;
    lemma_hoist_over_denominator(low, upper, Q64 as nat);
}

/// `floor(a * b / 2^64)`, computed without losing the high bits of the
/// product; `None` where the quotient needs more than 128 bits.
pub fn mul_div_floor_q64(a: u128, b: u128) -> (quotient: Option<u128>)
    ensures
        quotient == (if amount_for_growth(a as nat, b as nat) <= u128::MAX {
            Some(amount_for_growth(a as nat, b as nat) as u128)
        } else {
            None
        }),
{
    let ah: u128 = a / Q64;
    let al: u128 = a % Q64;
    let bh: u128 = b / Q64;
    let bl: u128 = b % Q64;
    proof {
        lemma_limb_product_fits(ah, bh);
        lemma_limb_product_fits(ah, bl);
        lemma_limb_product_fits(al, bh);
        lemma_limb_product_fits(al, bl);
        lemma_quotient_by_limbs(
            a as nat,
            b as nat,
            ah as nat,
            al as nat,
            bh as nat,
            bl as nat,
        );
    }
    let high: u128 = ah * bh;
    if high >= Q64 {
        return None;
    }
    let top: u128 = high * Q64;
    let carry: u128 = (al * bl) / Q64;
    match top.checked_add(ah * bl) {
        None => None,
        Some(partial) => match partial.checked_add(al * bh) {
            None => None,
            Some(upper) => upper.checked_add(carry),
        },
    }
}

/// An owed total as 64 bits hold it: itself, or `None` where it is too large.
pub open spec fn checked_fees(total: nat) -> Option<u64> {
    if total <= u64::MAX {
        Some(total as u64)
    } else {
        None
    }
}

/// The owed total after accrual, or `None` where it does not fit in 64 bits.
pub fn checked_latest_token_fees(
    last_total_fees: u64,
    fee_growth_inside_last_x64: u128,
    fee_growth_inside_latest_x64: u128,
    liquidity: u128,
) -> (fees: Option<u64>)
    ensures
        fees == checked_fees(
            latest_token_fees(
                last_total_fees,
                fee_growth_inside_last_x64,
                fee_growth_inside_latest_x64,
                liquidity,
            ),
        ),
{
    let delta: u128 = wrapping_growth(fee_growth_inside_last_x64, fee_growth_inside_latest_x64);
    match mul_div_floor_q64(delta, liquidity) {
        None => None,
        Some(fee_growth_delta) => {
            if fee_growth_delta > u64::MAX as u128 {
                None
            } else {
                last_total_fees.checked_add(fee_growth_delta as u64)
            }
        },
    }
}

/// The owed total after accrual.
///
/// The growth since the last reading is taken modulo `2^128`, the product with
/// `liquidity` is formed in full width and divided by `2^64` rounding down,
/// and the result is added to `last_total_fees`. A total beyond 64 bits is an
/// accounting fault that this function does not survive; callers that cannot
/// rule it out use [`checked_latest_token_fees`].
pub fn calculate_latest_token_fees(
    last_total_fees: u64,
    fee_growth_inside_last_x64: u128,
    fee_growth_inside_latest_x64: u128,
    liquidity: u128,
) -> (fees: u64)
    requires
        latest_token_fees(
            last_total_fees,
            fee_growth_inside_last_x64,
            fee_growth_inside_latest_x64,
            liquidity,
        ) <= u64::MAX,
    ensures
        fees == latest_token_fees(
            last_total_fees,
            fee_growth_inside_last_x64,
            fee_growth_inside_latest_x64,
            liquidity,
        ),
        fees >= last_total_fees,
        liquidity == 0 ==> fees == last_total_fees,
        fee_growth_inside_latest_x64 == fee_growth_inside_last_x64 ==> fees == last_total_fees,
{
    proof {
        lemma_zero_liquidity(
            last_total_fees,
            fee_growth_inside_last_x64,
            fee_growth_inside_latest_x64,
        );
        lemma_no_growth(last_total_fees, fee_growth_inside_last_x64, liquidity);
    }
    let delta: u128 = wrapping_growth(fee_growth_inside_last_x64, fee_growth_inside_latest_x64);
    let fee_growth_delta: u128 = mul_div_floor_q64(delta, liquidity).unwrap();
    last_total_fees + fee_growth_delta as u64
}

/// Fee monotonicity: accrual never lowers what is owed, whether or not the
/// counter wrapped between the two readings.
pub proof fn lemma_fee_monotonicity(
    last_total_fees: u64,
    fee_growth_inside_last_x64: u128,
    fee_growth_inside_latest_x64: u128,
    liquidity: u128,
)
    ensures
        latest_token_fees(
            last_total_fees,
            fee_growth_inside_last_x64,
            fee_growth_inside_latest_x64,
            liquidity,
        ) >= last_total_fees,
{
}

/// Wraparound: a counter that really stood at `true_last` and then at
/// `true_latest`, having grown by less than `2^128` in between, shows the true
/// growth as the difference of its two 128-bit readings, however often it had
/// wrapped before and whether or not it wrapped in between.
pub proof fn lemma_wraparound(true_last: nat, true_latest: nat)
    requires
        true_last <= true_latest < true_last + counter_modulus(),
    ensures
        growth_delta(
            (true_last % counter_modulus()) as u128,
            (true_latest % counter_modulus()) as u128,
        ) == true_latest - true_last,
{
    let m: int = counter_modulus() as int;
    let last: int = true_last as int % m;
    let latest: int = true_latest as int % m;
    let wraps_last: int = true_last as int / m;
    let wraps_latest: int = true_latest as int / m;
    assert(true_last == wraps_last * m + last && true_latest == wraps_latest * m + latest) by {
        lemma_fundamental_div_mod(true_last as int, m);
        lemma_fundamental_div_mod(true_latest as int, m);
        assert(m * wraps_last == wraps_last * m && m * wraps_latest == wraps_latest * m)
            by (nonlinear_arith);
    }
    let grown: int = true_latest - true_last;
    if latest >= last {
        assert(wraps_latest == wraps_last) by (nonlinear_arith)
            requires
                grown == (wraps_latest - wraps_last) * m + (latest - last),
                0 <= latest - last < m,
                0 <= grown < m,
                m > 0,
        ;
        assert((wraps_latest - wraps_last) * m == 0) by (nonlinear_arith)
            requires
                wraps_latest == wraps_last,
        ;
    } else {
        assert(wraps_latest == wraps_last + 1) by (nonlinear_arith)
            requires
                grown == (wraps_latest - wraps_last) * m + (latest - last),
                -m < latest - last < 0,
                0 <= grown < m,
                m > 0,
        ;
        assert((wraps_latest - wraps_last) * m == m) by (nonlinear_arith)
            requires
                wraps_latest == wraps_last + 1,
        ;
    }
}

/// Zero liquidity: a position that holds none is owed nothing new, whatever
/// the counters say.
pub proof fn lemma_zero_liquidity(
    last_total_fees: u64,
    fee_growth_inside_last_x64: u128,
    fee_growth_inside_latest_x64: u128,
)
    ensures
        latest_token_fees(
            last_total_fees,
            fee_growth_inside_last_x64,
            fee_growth_inside_latest_x64,
            0,
        ) == last_total_fees,
{
    let delta = growth_delta(fee_growth_inside_last_x64, fee_growth_inside_latest_x64);
    assert(delta * 0nat == 0) by (nonlinear_arith);
}

/// No growth: where the counter has not moved nothing new is owed, whatever
/// the liquidity.
pub proof fn lemma_no_growth(last_total_fees: u64, fee_growth_inside_x64: u128, liquidity: u128)
    ensures
        latest_token_fees(
            last_total_fees,
            fee_growth_inside_x64,
            fee_growth_inside_x64,
            liquidity,
        ) == last_total_fees,
{
    assert(0nat * (liquidity as nat) == 0) by (nonlinear_arith);
}

/// More liquidity earns no less: on the same growth a larger liquidity is
/// never owed a smaller amount. Accrual on the liquidity held after an
/// increase would therefore pay for a time in which it was not held.
pub proof fn lemma_owed_grows_with_liquidity(
    last_total_fees: u64,
    fee_growth_inside_last_x64: u128,
    fee_growth_inside_latest_x64: u128,
    liquidity: u128,
    more_liquidity: u128,
)
    requires
        liquidity <= more_liquidity,
    ensures
        latest_token_fees(
            last_total_fees,
            fee_growth_inside_last_x64,
            fee_growth_inside_latest_x64,
            liquidity,
        ) <= latest_token_fees(
            last_total_fees,
            fee_growth_inside_last_x64,
            fee_growth_inside_latest_x64,
            more_liquidity,
        ),
{
    let delta: int = growth_delta(fee_growth_inside_last_x64, fee_growth_inside_latest_x64) as int;
    assert(delta * liquidity <= delta * more_liquidity) by (nonlinear_arith)
        requires
            0 <= delta,
            0 <= liquidity <= more_liquidity,
    ;
    lemma_div_is_ordered(delta * liquidity, delta * more_liquidity, Q64 as int);
}

/// Flooring never overpays: the amount times `2^64` is at most the product of
/// growth and liquidity, and misses it by less than `2^64`.
pub proof fn lemma_amount_is_floor(delta_x64: nat, liquidity: nat)
    ensures
        amount_for_growth(delta_x64, liquidity) * Q64 <= delta_x64 * liquidity,
        delta_x64 * liquidity < (amount_for_growth(delta_x64, liquidity) + 1) * Q64,
{
    let product: int = (delta_x64 * liquidity) as int;
    let q: int = Q64 as int;
    lemma_fundamental_div_mod(product, q);
    assert(0 <= product % q < q);
    assert(q * (product / q) == (product / q) * q) by (nonlinear_arith);
    assert((product / q + 1) * q == (product / q) * q + q) by (nonlinear_arith);
}

} // verus!
