//! Properties of the chain-derived controllers that span their functions:
//! a controller step stays inside the `+-1/D` clamp and above the era
//! floor, the worst-case projection bounds a step and covers consecutive
//! max-up steps, and the two-lane multiplier floor holds on every quote.

use vstd::prelude::*;

use crate::arith::spec_clamp_u64;
use crate::chain_pricing::single_lane::{
    spec_compute_eip1559_step, spec_max_up_step, spec_max_up_steps, spec_projection_steps,
    spec_worst_case_eip1559_quote, Eip1559Settings,
};
use crate::chain_pricing::two_lane::{spec_apply_floor, spec_two_lane_aggregate, TwoLanePricing};
use crate::chain_pricing::Multiplier;
use crate::model::{PerLaneQuote, WindowAggregate};

verus! {

/// `ceil(x / den)` for `x >= 0`, `den > 0`.
pub open spec fn spec_ceil_div(x: int, den: int) -> int {
    if x <= 0 {
        0
    } else {
        (x - 1) / den + 1
    }
}

proof fn lemma_div_unique(x: int, d: int, k: int)
    requires
        d > 0,
        k * d <= x,
        x < (k + 1) * d,
    ensures
        x / d == k,
{
    vstd::arithmetic::div_mod::lemma_fundamental_div_mod(x, d);
    vstd::arithmetic::div_mod::lemma_mod_bound(x, d);
    let m = x / d;
    let r = x % d;
    assert(d * m + r == x);
    assert(m == k) by (nonlinear_arith)
        requires
            d > 0,
            d * m + r == x,
            0 <= r < d,
            k * d <= x,
            x < (k + 1) * d,
    ;
}

proof fn lemma_ceil_div_monotone(a: int, b: int, den: int)
    requires
        0 <= a <= b,
        den > 0,
    ensures
        spec_ceil_div(a, den) <= spec_ceil_div(b, den),
        spec_ceil_div(a, den) >= 0,
{
    if a > 0 {
        vstd::arithmetic::div_mod::lemma_div_is_ordered(a - 1, b - 1, den);
        vstd::arithmetic::div_mod::lemma_div_pos_is_pos(a - 1, den);
    } else if b > 0 {
        vstd::arithmetic::div_mod::lemma_div_pos_is_pos(b - 1, den);
    }
}

proof fn lemma_ceil_div_exact(q: int, den: int)
    requires
        q >= 0,
        den > 0,
    ensures
        spec_ceil_div(q * den, den) == q,
{
    if q > 0 {
        assert(q * den > 0) by (nonlinear_arith)
            requires
                q > 0,
                den > 0,
        ;
        assert((q - 1) * den <= q * den - 1 && q * den - 1 < q * den) by (nonlinear_arith)
            requires
                den > 0,
        ;
        lemma_div_unique(q * den - 1, den, q - 1);
    } else {
        assert(q * den == 0);
    }
}

/// `ceil(x*k / (d*k)) == ceil(x / d)` for `k > 0`.
proof fn lemma_ceil_div_scale(x: int, d: int, k: int)
    requires
        x >= 0,
        d > 0,
        k > 0,
    ensures
        spec_ceil_div(x * k, d * k) == spec_ceil_div(x, d),
{
    if x > 0 {
        let m = (x - 1) / d;
        vstd::arithmetic::div_mod::lemma_fundamental_div_mod(x - 1, d);
        vstd::arithmetic::div_mod::lemma_mod_bound(x - 1, d);
        assert(m * d <= x - 1 && x - 1 < (m + 1) * d) by (nonlinear_arith)
            requires
                d * m + (x - 1) % d == x - 1,
                0 <= (x - 1) % d < d,
        ;
        assert(m * (d * k) <= x * k - 1 && x * k - 1 < (m + 1) * (d * k)) by (nonlinear_arith)
            requires
                m * d <= x - 1,
                x - 1 < (m + 1) * d,
                k > 0,
        ;
        assert(d * k > 0 && x * k > 0) by (nonlinear_arith)
            requires
                d > 0,
                k > 0,
                x > 0,
        ;
        lemma_div_unique(x * k - 1, d * k, m);
    } else {
        assert(x * k == 0);
    }
}

/// The window utilisation is at or above the target: `util >= target`.
pub open spec fn at_or_above_target(util: (u128, u128), s: Eip1559Settings) -> bool {
    util.0 * s.target_den >= s.target_num * util.1
}

/// The intermediates of a controller step from `q` at `util` stay inside
/// `u128`, so no saturating operation saturates.
pub open spec fn step_unsaturated(q: u64, util: (u128, u128), s: Eip1559Settings) -> bool {
    let k = util.1 * s.target_num;
    &&& util.0 * s.target_den <= u128::MAX
    &&& k * s.max_change_denominator <= u128::MAX
    &&& q * (k * s.max_change_denominator + k) <= u128::MAX
}

/// One controller step moves the quote by at most `1/D` of itself (with
/// ceiling rounding) in the direction of the utilisation signal, never
/// below the era floor `min_fee_a`, and not at all at the target.
pub proof fn lemma_step_within_clamp(q: u64, util: (u128, u128), s: Eip1559Settings)
    requires
        s.spec_validate() is Ok,
        util.1 > 0,
        q >= s.min_fee_a,
        step_unsaturated(q, util, s),
    ensures
        ({
            let r = spec_compute_eip1559_step(q, util, s);
            let d = s.max_change_denominator as int;
            &&& r >= s.min_fee_a
            &&& at_or_above_target(util, s) ==> q <= r && r <= spec_ceil_div(q * (d + 1), d)
            &&& !at_or_above_target(util, s) ==> r <= q && r >= spec_ceil_div(q * (d - 1), d)
            &&& util.0 * s.target_den == s.target_num * util.1 ==> r == q
        }),
{
    let d = s.max_change_denominator as int;
    let tn = s.target_num as int;
    let td = s.target_den as int;
    let un = util.0 as int;
    let ud = util.1 as int;
    let qi = q as int;
    let k = ud * tn;
    assert(k >= 1 && k <= k * d && k * d >= 1) by (nonlinear_arith)
        requires
            ud >= 1,
            tn >= 1,
            d >= 1,
            k == ud * tn,
    ;
    assert(tn * ud == k) by (nonlinear_arith)
        requires
            k == ud * tn,
    ;
    let den = k * d;
    assert(crate::arith::spec_sat_mul_u128(util.0, s.target_den as u128) == un * td);
    assert(crate::arith::spec_sat_mul_u128(s.target_num as u128, util.1) == k);
    assert(crate::arith::spec_sat_mul_u128(util.1, s.target_num as u128) == k);
    assert(crate::arith::spec_sat_mul_u128(k as u128, s.max_change_denominator as u128) == den);
    assert(den / d == k) by {
        assert(den == d * k) by (nonlinear_arith)
            requires
                den == k * d,
        ;
        vstd::arithmetic::div_mod::lemma_div_multiples_vanish(k, d);
    }
    let num_a = un * td;
    let num_b = k;
    let positive = num_a >= num_b;
    let signal_abs = if positive {
        num_a - num_b
    } else {
        num_b - num_a
    };
    let move_num = if signal_abs > k {
        k
    } else {
        signal_abs
    };
    assert(0 <= move_num <= k);
    assert(qi >= 1);
    assert(qi * den <= qi * (den + k) && qi * (den + k) <= u128::MAX && den + k <= qi * (den
        + k)) by (nonlinear_arith)
        requires
            qi >= 1,
            k >= 1,
            qi * (k * d + k) <= u128::MAX,
            den == k * d,
            d >= 1,
    ;
    lemma_ceil_div_exact(qi, den);
    if positive {
        let factor = den + move_num;
        let nqn = qi * factor;
        assert(qi * den <= nqn && nqn <= qi * (den + k)) by (nonlinear_arith)
            requires
                qi >= 1,
                0 <= move_num <= k,
                factor == den + move_num,
                nqn == qi * factor,
        ;
        assert(nqn > 0) by (nonlinear_arith)
            requires
                qi >= 1,
                den >= 1,
                qi * den <= nqn,
        ;
        lemma_ceil_div_monotone(qi * den, nqn, den);
        lemma_ceil_div_monotone(nqn, qi * (den + k), den);
        assert(qi * (den + k) == (qi * (d + 1)) * k && den == d * k) by (nonlinear_arith)
            requires
                den == k * d,
        ;
        lemma_ceil_div_scale(qi * (d + 1), d, k);
        assert(qi * (d + 1) >= 0) by (nonlinear_arith)
            requires
                qi >= 1,
                d >= 1,
        ;
        if num_a == num_b {
            assert(move_num == 0);
            assert(nqn == qi * den);
        }
        assert(crate::arith::spec_sat_add_u128(den as u128, move_num as u128) == factor);
        assert(crate::arith::spec_sat_mul_u128(q as u128, factor as u128) == nqn);
        let nq = spec_ceil_div(nqn, den);
        assert(nq >= qi);
        let r = spec_compute_eip1559_step(q, util, s);
        assert(r == spec_clamp_u64(if nq < s.min_fee_a { s.min_fee_a as int } else { nq }));
    } else {
        let factor = den - move_num;
        let nqn = qi * factor;
        assert(factor >= 0 && den - k == (d - 1) * k) by (nonlinear_arith)
            requires
                den == k * d,
                0 <= move_num <= k,
                factor == den - move_num,
                k >= 1,
                d >= 1,
        ;
        assert(qi * (den - k) <= nqn && nqn <= qi * den && nqn >= 0) by (nonlinear_arith)
            requires
                qi >= 1,
                0 <= move_num <= k,
                factor == den - move_num,
                factor >= 0,
                nqn == qi * factor,
        ;
        assert(qi * (den - k) == (qi * (d - 1)) * k && den == d * k) by (nonlinear_arith)
            requires
                den == k * d,
                den - k == (d - 1) * k,
        ;
        assert(qi * (d - 1) >= 0) by (nonlinear_arith)
            requires
                qi >= 1,
                d >= 1,
        ;
        lemma_ceil_div_scale(qi * (d - 1), d, k);
        lemma_ceil_div_monotone(qi * (den - k), nqn, den);
        lemma_ceil_div_monotone(nqn, qi * den, den);
        assert(crate::arith::spec_sat_sub_u128(den as u128, move_num as u128) == factor);
        assert(crate::arith::spec_sat_mul_u128(q as u128, factor as u128) == nqn);
        let nq = spec_ceil_div(nqn, den);
        assert(nq <= qi);
        let r = spec_compute_eip1559_step(q, util, s);
        assert(r == spec_clamp_u64(if nq < s.min_fee_a { s.min_fee_a as int } else { nq }));
    }
}

/// The controller is proportional inside the `+-1/D` clamp and saturates
/// at it: with the signal `N = util_num * target_den - target_num *
/// util_den`, `K = util_den * target_num` and `M = K * D`, a step moves the
/// quote to `ceil(q * (M + N') / M)`, where `N' = N` when `|N| <= K` (a
/// move of `(util - target) / (target * D)` of the quote) and `N' = +-K`
/// (a full `1/D` move) otherwise, then floors it at `min_fee_a`.
pub proof fn lemma_step_is_clamped_proportional_move(q: u64, util: (u128, u128), s: Eip1559Settings)
    requires
        s.spec_validate() is Ok,
        util.1 > 0,
        step_unsaturated(q, util, s),
    ensures
        ({
            let k = util.1 * s.target_num;
            let m = k * s.max_change_denominator;
            let n = util.0 * s.target_den - s.target_num * util.1;
            let mv = if n > k {
                k
            } else if n < -k {
                -k
            } else {
                n
            };
            let c = spec_ceil_div(q * (m + mv), m);
            spec_compute_eip1559_step(q, util, s) == spec_clamp_u64(
                if c < s.min_fee_a {
                    s.min_fee_a as int
                } else {
                    c
                },
            )
        }),
{
    let d = s.max_change_denominator as int;
    let tn = s.target_num as int;
    let td = s.target_den as int;
    let un = util.0 as int;
    let ud = util.1 as int;
    let qi = q as int;
    let k = ud * tn;
    assert(k >= 1 && k <= k * d) by (nonlinear_arith)
        requires
            ud >= 1,
            tn >= 1,
            d >= 1,
            k == ud * tn,
    ;
    assert(tn * ud == k) by (nonlinear_arith)
        requires
            k == ud * tn,
    ;
    let den = k * d;
    assert(crate::arith::spec_sat_mul_u128(util.0, s.target_den as u128) == un * td);
    assert(crate::arith::spec_sat_mul_u128(s.target_num as u128, util.1) == k);
    assert(crate::arith::spec_sat_mul_u128(util.1, s.target_num as u128) == k);
    assert(crate::arith::spec_sat_mul_u128(k as u128, s.max_change_denominator as u128) == den);
    assert(den / d == k) by {
        assert(den == d * k) by (nonlinear_arith)
            requires
                den == k * d,
        ;
        vstd::arithmetic::div_mod::lemma_div_multiples_vanish(k, d);
    }
    let n = un * td - k;
    let mv = if n > k {
        k
    } else if n < -k {
        -k
    } else {
        n
    };
    let factor = den + mv;
    assert(0 <= factor <= den + k);
    let nqn = qi * factor;
    assert(0 <= nqn <= qi * (den + k) && qi * (den + k) <= u128::MAX) by (nonlinear_arith)
        requires
            qi >= 0,
            0 <= factor <= den + k,
            nqn == qi * factor,
            qi * (k * d + k) <= u128::MAX,
            den == k * d,
    ;
    if qi > 0 {
        assert(den + k <= qi * (den + k)) by (nonlinear_arith)
            requires
                qi >= 1,
                den + k >= 0,
        ;
        if mv >= 0 {
            assert(crate::arith::spec_sat_add_u128(den as u128, mv as u128) == factor);
        } else {
            assert(crate::arith::spec_sat_sub_u128(den as u128, (-mv) as u128) == factor);
        }
        assert(crate::arith::spec_sat_mul_u128(q as u128, factor as u128) == nqn);
    }
}

/// Each two-lane controller is driven by its own lane alone: the standard
/// quote is `min_fee_a` for priority-only variants and otherwise, when the
/// window holds standard capacity, one controller step from the parent
/// standard quote at the standard lane's own
/// `(standard_sum_bytes, standard_sum_capacity)`.
pub proof fn lemma_standard_quote_follows_standard_lane(
    p: TwoLanePricing,
    parent_quote: PerLaneQuote,
    agg: WindowAggregate,
)
    ensures
        !p.spec_settings().variant.spec_standard_dynamic() ==> p.spec_standard_step(
            parent_quote,
            agg,
        ) == p.spec_settings().standard.min_fee_a,
        p.spec_settings().variant.spec_standard_dynamic() && agg.standard_sum_capacity > 0
            ==> p.spec_standard_step(parent_quote, agg) == spec_compute_eip1559_step(
            parent_quote.standard,
            (agg.standard_sum_bytes, agg.standard_sum_capacity),
            p.spec_settings().standard,
        ),
        p.spec_settings().variant.spec_standard_dynamic() && agg.standard_sum_capacity == 0
            ==> p.spec_standard_step(parent_quote, agg) == parent_quote.standard,
{
}

/// The two-lane priority controller is driven by the priority lane alone:
/// whenever the window holds priority capacity, the unfloored priority
/// quote is one controller step from the parent priority quote at the
/// priority lane's own `(priority_sum_bytes, priority_sum_capacity)`, so a
/// priority lane at or above its target never lowers the priority quote,
/// whatever the standard lane does.
pub proof fn lemma_priority_quote_follows_priority_lane(
    p: TwoLanePricing,
    parent_quote: PerLaneQuote,
    agg: WindowAggregate,
    q_standard: u64,
)
    requires
        agg.priority_sum_capacity > 0,
    ensures
        p.spec_priority_step(parent_quote, agg) == spec_compute_eip1559_step(
            parent_quote.priority,
            (agg.priority_sum_bytes, agg.priority_sum_capacity),
            p.spec_settings().priority,
        ),
        ({
            let s = p.spec_settings().priority;
            let u = (agg.priority_sum_bytes, agg.priority_sum_capacity);
            s.spec_validate() is Ok && parent_quote.priority >= s.min_fee_a && step_unsaturated(
                parent_quote.priority,
                u,
                s,
            ) && at_or_above_target(u, s) ==> spec_apply_floor(
                p.spec_settings().multiplier_floor,
                q_standard,
                p.spec_priority_step(parent_quote, agg),
            ) >= parent_quote.priority
        }),
{
    let s = p.spec_settings().priority;
    let u = (agg.priority_sum_bytes, agg.priority_sum_capacity);
    if s.spec_validate() is Ok && parent_quote.priority >= s.min_fee_a && step_unsaturated(
        parent_quote.priority,
        u,
        s,
    ) && at_or_above_target(u, s) {
        lemma_step_within_clamp(parent_quote.priority, u, s);
    }
}

/// The one-step worst-case projection bounds the controller step: from a
/// quote at or above the floor, one step never exceeds
/// `worst_case_eip1559_quote(q, D, 1)`.
pub proof fn lemma_step_within_worst_case(q: u64, util: (u128, u128), s: Eip1559Settings)
    requires
        s.spec_validate() is Ok,
        util.1 > 0,
        q >= s.min_fee_a,
        step_unsaturated(q, util, s),
    ensures
        spec_compute_eip1559_step(q, util, s) <= spec_worst_case_eip1559_quote(
            q,
            s.max_change_denominator,
            1,
        ),
{
    lemma_step_within_clamp(q, util, s);
    let d = s.max_change_denominator as int;
    let qi = q as int;
    vstd::arithmetic::power::lemma_pow1(d + 1);
    vstd::arithmetic::power::lemma_pow1(d);
    assert(qi * (d + 1) <= u128::MAX) by (nonlinear_arith)
        requires
            0 <= qi <= u64::MAX,
            1 <= d <= u64::MAX,
    ;
    assert(qi * (d + 1) >= qi * d && qi * d >= qi) by (nonlinear_arith)
        requires
            qi >= 0,
            d >= 1,
    ;
    lemma_ceil_div_exact(qi, d);
    lemma_ceil_div_monotone(qi * d, qi * (d + 1), d);
    let r = spec_compute_eip1559_step(q, util, s);
    let bound = spec_ceil_div(qi * (d + 1), d);
    assert(r <= bound);
    assert(spec_projection_steps(1) == 1);
    assert(spec_max_up_steps(q, s.max_change_denominator, 0) == q);
    assert(spec_max_up_steps(q, s.max_change_denominator, 1) == spec_max_up_step(
        q,
        s.max_change_denominator,
    ));
    assert(spec_worst_case_eip1559_quote(q, s.max_change_denominator, 1) == spec_clamp_u64(bound));
}

/// One max-up step never lowers the quote, and unless it saturates it is
/// at least the exact `q * (D+1) / D`.
proof fn lemma_max_up_step_grows(q: u64, d: u64)
    requires
        d > 0,
    ensures
        spec_max_up_step(q, d) >= q,
        spec_max_up_step(q, d) == u64::MAX || spec_max_up_step(q, d) * d >= q * (d + 1),
{
    let x: int = q * (d + 1);
    let di = d as int;
    assert(x >= q * d && q * d >= q) by (nonlinear_arith)
        requires
            x == q * (d + 1),
            q >= 0,
            d >= 1,
    ;
    if x != 0 {
        let m = (x - 1) / di;
        vstd::arithmetic::div_mod::lemma_fundamental_div_mod(x - 1, di);
        vstd::arithmetic::div_mod::lemma_mod_bound(x - 1, di);
        let c = m + 1;
        assert(c * di >= x) by (nonlinear_arith)
            requires
                di * m + (x - 1) % di == x - 1,
                (x - 1) % di < di,
                c == m + 1,
        ;
        assert(c >= q) by (nonlinear_arith)
            requires
                c * di >= x,
                x >= q * di,
                di >= 1,
        ;
    }
}

/// Max-up steps never lower the quote: more steps give a quote at least as
/// high.
proof fn lemma_max_up_steps_monotone(q: u64, d: u64, m: nat, n: nat)
    requires
        d > 0,
        m <= n,
    ensures
        spec_max_up_steps(q, d, m) <= spec_max_up_steps(q, d, n),
        spec_max_up_steps(q, d, n) >= q,
    decreases n,
{
    if n > 0 {
        let m1: nat = if m < n { m } else { (n - 1) as nat };
        lemma_max_up_steps_monotone(q, d, m1, (n - 1) as nat);
        lemma_max_up_step_grows(spec_max_up_steps(q, d, (n - 1) as nat), d);
    }
}

/// Unless it saturates, the quote after `n` rounded max-up steps is at
/// least the exact compounded bound `q * ((D+1)/D)^n`.
proof fn lemma_max_up_steps_compound(q: u64, d: u64, n: nat)
    requires
        d > 0,
    ensures
        spec_max_up_steps(q, d, n) == u64::MAX || spec_max_up_steps(q, d, n)
            * vstd::arithmetic::power::pow(d as int, n) >= q * vstd::arithmetic::power::pow(
            d + 1,
            n,
        ),
    decreases n,
{
    let di = d as int;
    if n == 0 {
        vstd::arithmetic::power::lemma_pow0(di);
        vstd::arithmetic::power::lemma_pow0(di + 1);
    } else {
        let k = (n - 1) as nat;
        lemma_max_up_steps_compound(q, d, k);
        let s = spec_max_up_steps(q, d, k);
        let t = spec_max_up_steps(q, d, n);
        lemma_max_up_step_grows(s, d);
        if t != u64::MAX {
            vstd::arithmetic::power::lemma_pow_adds(di, k, 1);
            vstd::arithmetic::power::lemma_pow_adds(di + 1, k, 1);
            vstd::arithmetic::power::lemma_pow1(di);
            vstd::arithmetic::power::lemma_pow1(di + 1);
            vstd::arithmetic::power::lemma_pow_positive(di, k);
            vstd::arithmetic::power::lemma_pow_positive(di + 1, k);
            let pd = vstd::arithmetic::power::pow(di, k);
            let pe = vstd::arithmetic::power::pow(di + 1, k);
            assert(k + 1 == n);
            assert(t * (pd * di) >= q * (pe * (di + 1))) by (nonlinear_arith)
                requires
                    t * di >= s * (di + 1),
                    s * pd >= q * pe,
                    pd > 0,
                    di >= 1,
                    s >= 0,
                    q >= 0,
                    pe >= 0,
            ;
        }
    }
}

/// The worst-case projection covers the controller's drift: it is never
/// below the current quote; over `n = min(blocks_ahead, 32)` blocks with
/// `D > 0` it is at least the quote after `n` consecutive max-up steps,
/// each rounded up, and at least the exact compounded bound
/// `q * ((D+1)/D)^n` unless it saturates at `u64::MAX`; and it is
/// `u64::MAX` whenever `(D+1)^n` does not fit in `u128`.
pub proof fn lemma_worst_case_covers_max_up_steps(q: u64, d: u64, blocks_ahead: u32)
    ensures
        spec_worst_case_eip1559_quote(q, d, blocks_ahead) >= q,
        d > 0 && blocks_ahead > 0 ==> {
            let n = spec_projection_steps(blocks_ahead);
            let r = spec_worst_case_eip1559_quote(q, d, blocks_ahead);
            &&& r >= spec_max_up_steps(q, d, n)
            &&& r == u64::MAX || r * vstd::arithmetic::power::pow(d as int, n) >= q
                * vstd::arithmetic::power::pow(d + 1, n)
            &&& vstd::arithmetic::power::pow(d + 1, n) > u128::MAX ==> r == u64::MAX
        },
{
    if d > 0 && blocks_ahead > 0 {
        let n = spec_projection_steps(blocks_ahead);
        lemma_max_up_steps_monotone(q, d, n, n);
        lemma_max_up_steps_compound(q, d, n);
    }
}

/// Looking further ahead never lowers the worst-case projection.
pub proof fn lemma_worst_case_monotone_in_blocks(q: u64, d: u64, b1: u32, b2: u32)
    requires
        b1 <= b2,
    ensures
        spec_worst_case_eip1559_quote(q, d, b1) <= spec_worst_case_eip1559_quote(q, d, b2),
{
    lemma_worst_case_covers_max_up_steps(q, d, b2);
    if d > 0 && b1 > 0 {
        let n1 = spec_projection_steps(b1);
        let n2 = spec_projection_steps(b2);
        vstd::arithmetic::power::lemma_pow_increases((d + 1) as nat, n1, n2);
        lemma_max_up_steps_monotone(q, d, n1, n2);
    }
}

/// The projection stops growing after 32 blocks: any horizon beyond 32
/// blocks gives the 32-block projection.
pub proof fn lemma_worst_case_horizon_capped(q: u64, d: u64, blocks_ahead: u32)
    requires
        blocks_ahead > 32,
    ensures
        spec_worst_case_eip1559_quote(q, d, blocks_ahead) == spec_worst_case_eip1559_quote(
            q,
            d,
            32,
        ),
{
}

/// The multiplier floor holds on every floored quote: whenever
/// `ceil(num * q_standard / den)` fits in `u64`, the floored priority quote
/// is at least `num / den` times the standard quote, and never below the
/// unfloored priority quote.
pub proof fn lemma_multiplier_floor_holds(floor: Multiplier, q_standard: u64, q_priority: u64)
    requires
        floor.denominator > 0,
        spec_ceil_div(q_standard * floor.numerator, floor.denominator as int) <= u64::MAX,
    ensures
        spec_apply_floor(floor, q_standard, q_priority) * floor.denominator >= floor.numerator
            * q_standard,
        spec_apply_floor(floor, q_standard, q_priority) >= q_priority,
{
    let x = q_standard * floor.numerator;
    let den = floor.denominator as int;
    assert(x <= u128::MAX && x >= 0) by (nonlinear_arith)
        requires
            x == q_standard * floor.numerator,
            0 <= q_standard <= u64::MAX,
            0 <= floor.numerator <= u64::MAX,
    ;
    let c = spec_ceil_div(x, den);
    if x > 0 {
        vstd::arithmetic::div_mod::lemma_fundamental_div_mod(x - 1, den);
        vstd::arithmetic::div_mod::lemma_mod_bound(x - 1, den);
        assert(c * den >= x) by (nonlinear_arith)
            requires
                c == (x - 1) / den + 1,
                den * ((x - 1) / den) + (x - 1) % den == x - 1,
                (x - 1) % den < den,
        ;
    }
    let r = spec_apply_floor(floor, q_standard, q_priority);
    assert(r >= c);
    assert(r * den >= c * den) by (nonlinear_arith)
        requires
            r >= c,
            den > 0,
    ;
    assert(floor.numerator * q_standard == x) by (nonlinear_arith)
        requires
            x == q_standard * floor.numerator,
    ;
}


/// A ranking block of an RB-reserved two-lane market feeds the priority
/// controller only: folding its samples into the window leaves the standard
/// sums as they were, and a window that held no standard capacity leaves
/// the standard quote at the parent's (both-dynamic variants) or at
/// `min_fee_a` (priority-only variants), however saturated the block.
pub proof fn lemma_rb_reserved_ranking_block_isolates_standard(
    pricing: TwoLanePricing,
    breakdown: crate::chain_pricing::BlockLaneBreakdown,
    parent_quote: crate::model::PerLaneQuote,
    parent: crate::model::WindowAggregate,
)
    requires
        pricing.spec_settings().variant.spec_rb_priority_only(),
    ensures
        ({
            let samples = pricing.spec_samples_for_block(
                crate::chain_pricing::BlockKind::RankingBlock,
                breakdown,
            );
            let agg = spec_two_lane_aggregate(parent, samples, Seq::empty());
            &&& agg.standard_sum_bytes == parent.standard_sum_bytes
            &&& agg.standard_sum_capacity == parent.standard_sum_capacity
            &&& parent.standard_sum_capacity == 0 ==> pricing.spec_standard_step(parent_quote, agg) == if pricing.spec_settings().variant.spec_standard_dynamic() {
                parent_quote.standard
            } else {
                pricing.spec_settings().standard.min_fee_a
            }
        }),
{
    let samples = pricing.spec_samples_for_block(
        crate::chain_pricing::BlockKind::RankingBlock,
        breakdown,
    );
    assert(samples.len() == 1);
    assert(samples[0].controller_lane == crate::chain_pricing::Lane::Priority);
    assert(samples.drop_last() =~= Seq::<crate::chain_pricing::PricedBlockSample>::empty());
    let added = crate::chain_pricing::window::spec_add_all(parent, samples);
    assert(crate::chain_pricing::window::spec_add_all(parent, samples.drop_last()) == parent);
    assert(samples.last() == samples[0]);
    assert(added == crate::chain_pricing::window::spec_add_one(parent, samples[0]));
    assert(crate::chain_pricing::window::spec_sub_all(added, Seq::empty()) == added);
}

} // verus!
