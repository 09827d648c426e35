//! Constant-product invariant arithmetic.
//!
//! All quantities are unsigned 64-bit balances; intermediate values are
//! computed at 128-bit precision. Every step is checked: any overflow,
//! underflow, division by zero or result that does not fit back into 64 bits
//! fails with `CurveError::Overflow`.

use vstd::arithmetic::div_mod::{
    lemma_div_is_ordered, lemma_div_is_ordered_by_denominator, lemma_div_multiples_vanish,
};
use vstd::arithmetic::mul::{
    lemma_mul_inequality, lemma_mul_is_commutative, lemma_mul_upper_bound,
};
use vstd::prelude::*;

verus! {

/// The single failure kind of the curve arithmetic: an overflow, underflow
/// or division by zero somewhere in a computation.
#[derive(Debug, Clone, Copy, PartialEq, Eq, Structural)]
pub enum CurveError {
    Overflow,
}

/// The constant-product invariant of a pool holding reserves `x` and `y`.
pub open spec fn spec_k(x: int, y: int) -> int {
    x * y
}

/// Price of one unit of the first asset in units of the second, scaled by
/// `p` and rounded down.
pub open spec fn spec_spot_price(x: int, y: int, p: int) -> int {
    x * p / y
}

/// Growth ratio of the share supply when `a` shares join a supply of `l`,
/// scaled by `p` and rounded down.
pub open spec fn spec_deposit_ratio(l: int, a: int, p: int) -> int {
    (l + a) * p / l
}

/// Balance that must be added to a reserve of `b` so that it grows by the
/// deposit ratio: the scaled reserve is computed first and `b` subtracted
/// after, which fixes where the rounding loss lands.
pub open spec fn spec_deposit_amount(b: int, l: int, a: int, p: int) -> int {
    b * spec_deposit_ratio(l, a, p) / p - b
}

/// Remaining fraction of the share supply after `a` of `l` shares burn,
/// scaled by `p` and rounded down.
pub open spec fn spec_withdraw_ratio(l: int, a: int, p: int) -> int {
    (l - a) * p / l
}

/// Balance paid out of a reserve of `b` when the supply shrinks by the
/// withdraw ratio: the retained part is rounded down, so the payout is
/// rounded up.
pub open spec fn spec_withdraw_amount(b: int, l: int, a: int, p: int) -> int {
    b - b * spec_withdraw_ratio(l, a, p) / p
}

/// New balance of the outgoing reserve `x` after `a` units of the other
/// asset join its reserve `y`: the invariant divided by the grown reserve.
pub open spec fn spec_x2_from_y(x: int, y: int, a: int) -> int {
    spec_k(x, y) / (y + a)
}

/// Raw swap payout: how far the outgoing reserve falls.
pub open spec fn spec_delta_x_from_y(x: int, y: int, a: int) -> int {
    x - spec_x2_from_y(x, y, a)
}

/// Payout after the fee, `fee` in basis points, rounded down in the pool's
/// favor.
pub open spec fn spec_amount_out(raw: int, fee: int) -> int {
    raw * (10000 - fee) / 10000
}

/// Whether `xy_deposit_amounts_from_l` succeeds: the share supply and the
/// scaling precision are nonzero, both scaled reserves fit in 128 bits, and
/// both required deposits fit in 64 bits.
pub open spec fn spec_deposit_ok(x: int, y: int, l: int, a: int, p: int) -> bool {
    &&& l > 0
    &&& p > 0
    &&& x * spec_deposit_ratio(l, a, p) <= u128::MAX
    &&& y * spec_deposit_ratio(l, a, p) <= u128::MAX
    &&& spec_deposit_amount(x, l, a, p) <= u64::MAX
    &&& spec_deposit_amount(y, l, a, p) <= u64::MAX
}

/// Whether `xy_withdraw_amounts_from_l` succeeds: the share supply and the
/// scaling precision are nonzero and no more shares burn than exist.
pub open spec fn spec_withdraw_ok(l: int, a: int, p: int) -> bool {
    l > 0 && a <= l && p > 0
}

/// The invariant `k = x * y`, exactly.
pub fn k_from_xy(x: u64, y: u64) -> (r: Result<u128, CurveError>)
    requires
        x > 0,
        y > 0,
    ensures
        r matches Ok(k) && k == spec_k(x as int, y as int),
{
    proof {
        lemma_mul_upper_bound(x as int, u64::MAX as int, y as int, u64::MAX as int);
    }
    Ok((x as u128) * (y as u128))
}

/// Spot price `x * precision / y`, rounded down; fails if the result does
/// not fit in 64 bits.
pub fn spot_price_from_pair(x: u64, y: u64, precision: u32) -> (r: Result<u64, CurveError>)
    requires
        x > 0,
        y > 0,
    ensures
        spec_spot_price(x as int, y as int, precision as int) <= u64::MAX ==> (r matches Ok(v)
            && v == spec_spot_price(x as int, y as int, precision as int)),
        spec_spot_price(x as int, y as int, precision as int) > u64::MAX ==> r === Err(
            CurveError::Overflow,
        ),
{
    proof {
        lemma_mul_upper_bound(x as int, u64::MAX as int, precision as int, u32::MAX as int);
    }
    let num = (x as u128) * (precision as u128);
    let q = num / (y as u128);
    if q > u64::MAX as u128 {
        Err(CurveError::Overflow)
    } else {
        Ok(q as u64)
    }
}

/// The deposit ratio is at least the precision: the supply only grows.
proof fn lemma_deposit_ratio_at_least_precision(l: int, a: int, p: int)
    requires
        l > 0,
        a >= 0,
        p >= 0,
    ensures
        spec_deposit_ratio(l, a, p) >= p,
{
    lemma_mul_inequality(l, l + a, p);
    lemma_div_is_ordered(l * p, (l + a) * p, l);
    lemma_mul_is_commutative(l, p);
    lemma_div_multiples_vanish(p, l);
}

/// Scaling a reserve by the deposit ratio and unscaling never shrinks it.
proof fn lemma_scaled_deposit_reserve_at_least(b: int, l: int, a: int, p: int)
    requires
        l > 0,
        a >= 0,
        b >= 0,
        p > 0,
    ensures
        b * spec_deposit_ratio(l, a, p) / p >= b,
{
    let ratio = spec_deposit_ratio(l, a, p);
    lemma_deposit_ratio_at_least_precision(l, a, p);
    lemma_mul_inequality(p, ratio, b);
    lemma_mul_is_commutative(p, b);
    lemma_mul_is_commutative(ratio, b);
    lemma_div_is_ordered(b * p, b * ratio, p);
    lemma_mul_is_commutative(b, p);
    lemma_div_multiples_vanish(b, p);
}

/// Amounts of both assets that must join the reserves so that `a` new
/// shares join a supply of `l`, at scaling precision `precision`. The scaled
/// reserve is computed first and the old reserve subtracted after; both
/// roundings therefore fall on the scaled reserve.
pub fn xy_deposit_amounts_from_l(x: u64, y: u64, l: u64, a: u64, precision: u32) -> (r: Result<
    (u64, u64),
    CurveError,
>)
    ensures
        spec_deposit_ok(x as int, y as int, l as int, a as int, precision as int) ==> (r matches Ok(
            t,
        ) && t.0 == spec_deposit_amount(x as int, l as int, a as int, precision as int) && t.1
            == spec_deposit_amount(y as int, l as int, a as int, precision as int)),
        !spec_deposit_ok(x as int, y as int, l as int, a as int, precision as int) ==> r === Err(
            CurveError::Overflow,
        ),
{
    if l == 0 || precision == 0 {
        return Err(CurveError::Overflow);
    }
    proof {
        lemma_mul_upper_bound(
            l as int + a as int,
            u64::MAX as int + u64::MAX as int,
            precision as int,
            u32::MAX as int,
        );
    }
    let ratio: u128 = ((l as u128) + (a as u128)) * (precision as u128) / (l as u128);
    assert(ratio == spec_deposit_ratio(l as int, a as int, precision as int));

    let scaled_x = match (x as u128).checked_mul(ratio) {
        Some(v) => v,
        None => {
            return Err(CurveError::Overflow);
        },
    };
    proof {
        lemma_scaled_deposit_reserve_at_least(x as int, l as int, a as int, precision as int);
    }
    let deposit_x = scaled_x / (precision as u128) - (x as u128);
    if deposit_x > u64::MAX as u128 {
        return Err(CurveError::Overflow);
    }

    let scaled_y = match (y as u128).checked_mul(ratio) {
        Some(v) => v,
        None => {
            return Err(CurveError::Overflow);
        },
    };
    proof {
        lemma_scaled_deposit_reserve_at_least(y as int, l as int, a as int, precision as int);
    }
    let deposit_y = scaled_y / (precision as u128) - (y as u128);
    if deposit_y > u64::MAX as u128 {
        return Err(CurveError::Overflow);
    }

    Ok((deposit_x as u64, deposit_y as u64))
}

/// The withdraw ratio is at most the precision: the supply only shrinks.
proof fn lemma_withdraw_ratio_at_most_precision(l: int, a: int, p: int)
    requires
        l > 0,
        0 <= a <= l,
        p >= 0,
    ensures
        0 <= spec_withdraw_ratio(l, a, p) <= p,
{
    lemma_mul_inequality(l - a, l, p);
    lemma_div_is_ordered((l - a) * p, l * p, l);
    lemma_mul_is_commutative(l, p);
    lemma_div_multiples_vanish(p, l);
    vstd::arithmetic::mul::lemma_mul_nonnegative(l - a, p);
    vstd::arithmetic::div_mod::lemma_div_pos_is_pos((l - a) * p, l);
}

/// Scaling a reserve by the withdraw ratio and unscaling never grows it.
proof fn lemma_scaled_withdraw_reserve_at_most(b: int, l: int, a: int, p: int)
    requires
        l > 0,
        0 <= a <= l,
        b >= 0,
        p > 0,
    ensures
        0 <= b * spec_withdraw_ratio(l, a, p) / p <= b,
{
    let ratio = spec_withdraw_ratio(l, a, p);
    lemma_withdraw_ratio_at_most_precision(l, a, p);
    lemma_mul_inequality(ratio, p, b);
    lemma_mul_is_commutative(p, b);
    lemma_mul_is_commutative(ratio, b);
    lemma_div_is_ordered(b * ratio, b * p, p);
    lemma_mul_is_commutative(b, p);
    lemma_div_multiples_vanish(b, p);
    vstd::arithmetic::mul::lemma_mul_nonnegative(b, ratio);
    vstd::arithmetic::div_mod::lemma_div_pos_is_pos(b * ratio, p);
}

/// Amounts of both assets paid out when `a` of `l` shares burn, at scaling
/// precision `precision`. The retained reserve is computed first and
/// subtracted from the old reserve; both roundings therefore favor the
/// payout.
pub fn xy_withdraw_amounts_from_l(x: u64, y: u64, l: u64, a: u64, precision: u32) -> (r: Result<
    (u64, u64),
    CurveError,
>)
    ensures
        spec_withdraw_ok(l as int, a as int, precision as int) ==> (r matches Ok(t) && t.0
            == spec_withdraw_amount(x as int, l as int, a as int, precision as int) && t.1
            == spec_withdraw_amount(y as int, l as int, a as int, precision as int)),
        !spec_withdraw_ok(l as int, a as int, precision as int) ==> r === Err(CurveError::Overflow),
{
    if l == 0 || a > l || precision == 0 {
        return Err(CurveError::Overflow);
    }
    proof {
        lemma_mul_upper_bound(
            l as int - a as int,
            u64::MAX as int,
            precision as int,
            u32::MAX as int,
        );
    }
    let ratio: u128 = (((l - a) as u128) * (precision as u128)) / (l as u128);
    assert(ratio == spec_withdraw_ratio(l as int, a as int, precision as int));
    proof {
        lemma_withdraw_ratio_at_most_precision(l as int, a as int, precision as int);
        lemma_mul_upper_bound(x as int, u64::MAX as int, ratio as int, u32::MAX as int);
        lemma_mul_upper_bound(y as int, u64::MAX as int, ratio as int, u32::MAX as int);
        lemma_scaled_withdraw_reserve_at_most(x as int, l as int, a as int, precision as int);
        lemma_scaled_withdraw_reserve_at_most(y as int, l as int, a as int, precision as int);
    }
    let withdraw_x = (x as u128) - ((x as u128) * ratio) / (precision as u128);
    let withdraw_y = (y as u128) - ((y as u128) * ratio) / (precision as u128);
    Ok((withdraw_x as u64, withdraw_y as u64))
}

/// The new outgoing reserve never exceeds the old one.
pub(crate) proof fn lemma_new_reserve_at_most_old(x: int, y: int, a: int)
    requires
        x > 0,
        y > 0,
        a >= 0,
    ensures
        0 <= spec_x2_from_y(x, y, a) <= x,
{
    lemma_div_is_ordered_by_denominator(x * y, y, y + a);
    lemma_mul_is_commutative(x, y);
    lemma_div_multiples_vanish(x, y);
    vstd::arithmetic::mul::lemma_mul_nonnegative(x, y);
    vstd::arithmetic::div_mod::lemma_div_pos_is_pos(x * y, y + a);
}

/// New balance of reserve `x` after swapping `a` units of the other asset
/// into reserve `y`.
pub fn x2_from_y_swap_amount(x: u64, y: u64, a: u64) -> (r: Result<u64, CurveError>)
    requires
        x > 0,
        y > 0,
    ensures
        r matches Ok(v) && v == spec_x2_from_y(x as int, y as int, a as int),
{
    let k = match k_from_xy(x, y) {
        Ok(k) => k,
        Err(e) => {
            return Err(e);
        },
    };
    let grown = (y as u128) + (a as u128);
    let x2 = k / grown;
    proof {
        lemma_new_reserve_at_most_old(x as int, y as int, a as int);
    }
    Ok(x2 as u64)
}

/// New balance of reserve `y` after swapping `a` units of the other asset
/// into reserve `x`; the mirror image of `x2_from_y_swap_amount`.
pub fn y2_from_x_swap_amount(x: u64, y: u64, a: u64) -> (r: Result<u64, CurveError>)
    requires
        x > 0,
        y > 0,
    ensures
        r matches Ok(v) && v == spec_x2_from_y(y as int, x as int, a as int),
{
    x2_from_y_swap_amount(y, x, a)
}

/// Amount of reserve `x` paid out for swapping in `a` units of the other
/// asset, before fees.
pub fn delta_x_from_y_swap_amount(x: u64, y: u64, a: u64) -> (r: Result<u64, CurveError>)
    requires
        x > 0,
        y > 0,
    ensures
        r matches Ok(v) && v == spec_delta_x_from_y(x as int, y as int, a as int),
{
    let x2 = match x2_from_y_swap_amount(x, y, a) {
        Ok(v) => v,
        Err(e) => {
            return Err(e);
        },
    };
    proof {
        lemma_new_reserve_at_most_old(x as int, y as int, a as int);
    }
    Ok(x - x2)
}

/// Amount of reserve `y` paid out for swapping in `a` units of the other
/// asset; the mirror image of `delta_x_from_y_swap_amount`.
pub fn delta_y_from_x_swap_amount(x: u64, y: u64, a: u64) -> (r: Result<u64, CurveError>)
    requires
        x > 0,
        y > 0,
    ensures
        r matches Ok(v) && v == spec_delta_x_from_y(y as int, x as int, a as int),
{
    delta_x_from_y_swap_amount(y, x, a)
}

/// The fee-adjusted payout never exceeds the raw payout.
pub(crate) proof fn lemma_amount_out_at_most_raw(raw: int, fee: int)
    requires
        raw >= 0,
        0 <= fee < 10000,
    ensures
        0 <= spec_amount_out(raw, fee) <= raw,
{
    lemma_mul_inequality(10000 - fee, 10000, raw);
    lemma_mul_is_commutative(10000 - fee, raw);
    lemma_mul_is_commutative(10000, raw);
    lemma_div_is_ordered(raw * (10000 - fee), raw * 10000, 10000);
    lemma_mul_is_commutative(raw, 10000);
    lemma_div_multiples_vanish(raw, 10000);
    vstd::arithmetic::mul::lemma_mul_nonnegative(raw, 10000 - fee);
    vstd::arithmetic::div_mod::lemma_div_pos_is_pos(raw * (10000 - fee), 10000);
}

/// Fee-adjusted payout of reserve `x` for swapping in `a` units of the
/// other asset: the payout after the fee and the fee itself, which always
/// add back up to the raw payout.
pub fn delta_x_from_y_swap_amount_with_fee(x: u64, y: u64, a: u64, fee: u16) -> (r: Result<
    (u64, u64),
    CurveError,
>)
    requires
        x > 0,
        y > 0,
        fee < 10000,
    ensures
        r matches Ok(t) && {
            let raw = spec_delta_x_from_y(x as int, y as int, a as int);
            &&& t.0 == spec_amount_out(raw, fee as int)
            &&& t.1 == raw - spec_amount_out(raw, fee as int)
            &&& t.0 + t.1 == raw
        },
{
    let raw = match delta_x_from_y_swap_amount(x, y, a) {
        Ok(v) => v,
        Err(e) => {
            return Err(e);
        },
    };
    proof {
        lemma_mul_upper_bound(raw as int, u64::MAX as int, 10000 - fee as int, 10000);
        lemma_amount_out_at_most_raw(raw as int, fee as int);
    }
    let scaled = (raw as u128) * ((10000 - fee) as u128);
    let amount = (scaled / 10000) as u64;
    Ok((amount, raw - amount))
}

/// Fee-adjusted payout of reserve `y` for swapping in `a` units of the
/// other asset; the mirror image of `delta_x_from_y_swap_amount_with_fee`.
pub fn delta_y_from_x_swap_amount_with_fee(x: u64, y: u64, a: u64, fee: u16) -> (r: Result<
    (u64, u64),
    CurveError,
>)
    requires
        x > 0,
        y > 0,
        fee < 10000,
    ensures
        r matches Ok(t) && {
            let raw = spec_delta_x_from_y(y as int, x as int, a as int);
            &&& t.0 == spec_amount_out(raw, fee as int)
            &&& t.1 == raw - spec_amount_out(raw, fee as int)
            &&& t.0 + t.1 == raw
        },
{
    delta_x_from_y_swap_amount_with_fee(y, x, a, fee)
}

/// An exact division multiplied back gives the dividend.
proof fn lemma_div_exact(m: int, d: int)
    requires
        d > 0,
        m % d == 0,
    ensures
        (m / d) * d == m,
{
    vstd::arithmetic::div_mod::lemma_fundamental_div_mod(m, d);
    lemma_mul_is_commutative(m / d, d);
}

/// Without a fee, a swap of `a` units into reserve `x` conserves the
/// invariant exactly up to the rounding loss of the one division that
/// computes the new outgoing reserve: the new product equals the old one
/// minus `k % (x + a)`, so it never exceeds the old product and falls short
/// of it by less than `x + a`.
pub proof fn lemma_swap_conservation_without_fee(x: int, y: int, a: int)
    requires
        x > 0,
        y > 0,
        a >= 0,
    ensures
        ({
            let new_x = x + a;
            let new_y = y - spec_delta_x_from_y(y, x, a);
            &&& spec_k(new_x, new_y) == spec_k(x, y) - spec_k(x, y) % (x + a)
            &&& spec_k(x, y) - (x + a) < spec_k(new_x, new_y) <= spec_k(x, y)
        }),
{
    let k = x * y;
    let q = k / (x + a);
    lemma_mul_is_commutative(y, x);
    assert(spec_x2_from_y(y, x, a) == q);
    vstd::arithmetic::div_mod::lemma_fundamental_div_mod(k, x + a);
    vstd::arithmetic::div_mod::lemma_mod_division_less_than_divisor(k, x + a);
    lemma_mul_is_commutative(x + a, q);
}

/// With a positive fee, a swap of `a` units into reserve `x` never
/// decreases the invariant: the fee retained in the outgoing reserve at
/// least makes up for the rounding loss.
pub proof fn lemma_swap_conservation_with_fee(x: int, y: int, a: int, fee: int)
    requires
        x > 0,
        y > 0,
        a >= 0,
        0 < fee < 10000,
    ensures
        ({
            let raw = spec_delta_x_from_y(y, x, a);
            let new_x = x + a;
            let new_y = y - spec_amount_out(raw, fee);
            spec_k(new_x, new_y) >= spec_k(x, y)
        }),
{
    let k = x * y;
    let q = k / (x + a);
    lemma_mul_is_commutative(y, x);
    assert(spec_x2_from_y(y, x, a) == q);
    let raw = y - q;
    lemma_new_reserve_at_most_old(y, x, a);
    let out = spec_amount_out(raw, fee);
    lemma_amount_out_at_most_raw(raw, fee);
    vstd::arithmetic::div_mod::lemma_fundamental_div_mod(k, x + a);
    vstd::arithmetic::div_mod::lemma_mod_division_less_than_divisor(k, x + a);
    if raw == 0 {
        assert(out == 0);
        lemma_mul_inequality(x, x + a, y);
        lemma_mul_is_commutative(x + a, y);
    } else {
        // The fee floor always withholds at least one unit of the payout.
        vstd::arithmetic::mul::lemma_mul_strictly_positive(raw, fee);
        vstd::arithmetic::mul::lemma_mul_is_distributive_sub(raw, 10000, fee);
        lemma_mul_is_commutative(raw, 10000 - fee);
        lemma_div_is_ordered(raw * 10000 - raw * fee, raw * 10000 - 1, 10000);
        vstd::arithmetic::mul::lemma_mul_is_distributive_sub_other_way(10000, raw, 1);
        vstd::arithmetic::div_mod::lemma_fundamental_div_mod_converse(
            raw * 10000 - 1,
            10000,
            raw - 1,
            9999,
        );
        assert(out <= raw - 1);
        let new_y = y - out;
        assert(new_y >= q + 1);
        lemma_mul_inequality(q + 1, new_y, x + a);
        lemma_mul_is_commutative(q + 1, x + a);
        lemma_mul_is_commutative(new_y, x + a);
        vstd::arithmetic::mul::lemma_mul_is_distributive_add(x + a, q, 1);
        lemma_mul_is_commutative(x + a, q);
    }
}

/// When every division in the deposit and withdraw scaling is exact —
/// the two ratio computations and the two reserve scalings leave no
/// remainder — depositing `a` shares and immediately withdrawing the same
/// `a` shares pays back exactly the amount that was deposited. (With
/// inexact divisions the two legs can round in the withdrawer's favor, so
/// this equality holds only on remainder-free inputs.)
pub proof fn lemma_deposit_withdraw_round_trip_exact(x: int, l: int, a: int, p: int)
    requires
        x >= 0,
        l > 0,
        a >= 0,
        p > 0,
        ((l + a) * p) % l == 0,
        (x * spec_deposit_ratio(l, a, p)) % p == 0,
        (l * p) % (l + a) == 0,
        ((x + spec_deposit_amount(x, l, a, p)) * spec_withdraw_ratio(l + a, a, p)) % p == 0,
    ensures
        spec_withdraw_amount(x + spec_deposit_amount(x, l, a, p), l + a, a, p)
            == spec_deposit_amount(x, l, a, p),
{
    let rd = spec_deposit_ratio(l, a, p);
    let sx = x * rd / p;
    lemma_div_exact((l + a) * p, l);
    lemma_div_exact(x * rd, p);
    assert(sx * l == x * (l + a)) by (nonlinear_arith)
        requires
            sx * p == x * rd,
            rd * l == (l + a) * p,
            p > 0,
    ;
    let l2 = l + a;
    let rw = spec_withdraw_ratio(l2, a, p);
    assert(rw == l * p / l2);
    lemma_div_exact(l * p, l2);
    // The reserve after the deposit is exactly the scaled reserve.
    let dx = sx - x;
    assert(x + dx == sx);
    let sw = sx * rw / p;
    lemma_div_exact(sx * rw, p);
    assert(sw == x) by (nonlinear_arith)
        requires
            sw * p == sx * rw,
            rw * l2 == l * p,
            sx * l == x * l2,
            p > 0,
            l2 > 0,
    ;
}

} // verus!
