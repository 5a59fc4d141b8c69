//! Easing curves: pure maps from progress to an eased value.
//!
//! Progress is a fixed-point value in `[0, 1]` (see [`crate::fx`]); the
//! eased result may leave `[0, 1]` for the overshooting `Elastic` curve.
//! Every curve is deterministic and side-effect free, and each executable
//! function returns exactly the value of its spec-level counterpart.
//!
//! The quadratic curves (`EaseIn`, `EaseOut`, `EaseInOut`, `Bounce`) are
//! exact fixed-point renderings of the usual formulas; the bounce segment
//! boundaries `1/2.75`, `2/2.75` and `2.5/2.75` are handled as exact
//! rationals (elevenths), so the curve reaches exactly `1` at progress `1`.
//! `Elastic` is an exponentially decaying sine with period `0.3`; its sine
//! and power-of-two factors use deterministic polynomial approximations
//! (Bhaskara's sine approximation and a quadratic fit of `2^-x` on `[0,1]`),
//! and it returns exactly the input at progress `0` and `1`.

use vstd::prelude::*;

use crate::fx::{div_to_zero, FX_HALF, FX_ONE};

verus! {

/// Fixed-point rendering of pi.
pub const PI_FX: i64 = 3_141_592;

/// Fixed-point rendering of two pi.
pub const TAU_FX: i64 = 6_283_185;

/// Fixed-point rendering of pi squared.
pub const PI_SQ_FX: i64 = 9_869_604;

/// Linear coefficient of the quadratic fit of `2^-x` on `[0, 1]`.
pub const EXP2_C1: i64 = 671_560;

/// Quadratic coefficient of the quadratic fit of `2^-x` on `[0, 1]`.
pub const EXP2_C2: i64 = 171_560;

/// Easing curves for effect intensity.
#[derive(Clone, Copy, PartialEq, Eq, Structural, Debug, Default)]
pub enum EasingFunction {
    #[default]
    Linear,
    EaseIn,
    EaseOut,
    EaseInOut,
    /// Overshoots then settles - good for impact effects.
    Elastic,
    /// Bounces at the end - good for playful effects.
    Bounce,
}

/// `t * t`, i.e. the quadratic ease-in curve.
pub open spec fn ease_in_at(t: int) -> int {
    let one = FX_ONE as int;
    (t * t) / one
}

/// `1 - (1 - t)^2`, i.e. the quadratic ease-out curve.
pub open spec fn ease_out_at(t: int) -> int {
    let one = FX_ONE as int;
    one - ((one - t) * (one - t)) / one
}

/// Quadratic ease-in-out, split at one half.
pub open spec fn ease_in_out_at(t: int) -> int {
    let one = FX_ONE as int;
    if t < FX_HALF {
        (2 * t * t) / one
    } else {
        one - (2 * (one - t) * (one - t)) / one
    }
}

/// Four-segment piecewise-quadratic bounce-out curve, with breakpoints at
/// `1/2.75`, `2/2.75` and `2.5/2.75` of the way through.  The shifted
/// offsets are carried as exact elevenths (or twenty-seconds), so each
/// segment is a single exact integer formula.
pub open spec fn bounce_at(t: int) -> int {
    let one = FX_ONE as int;
    if 11 * t < 4 * one {
        (121 * t * t) / (16 * one)
    } else if 11 * t < 8 * one {
        let u = 11 * t - 6 * one;
        (u * u) / (16 * one) + 750_000
    } else if 11 * t < 10 * one {
        let u = 11 * t - 9 * one;
        (u * u) / (16 * one) + 937_500
    } else {
        let u = 22 * t - 21 * one;
        (u * u) / (64 * one) + 984_375
    }
}

/// Bhaskara's rational approximation of `sin` on `[0, pi]`, scaled to
/// fixed point: `16 x (pi - x) / (5 pi^2 - 4 x (pi - x))`.
pub open spec fn sin_half_at(x: int) -> int {
    let one = FX_ONE as int;
    let a = (x * (PI_FX - x)) / one;
    (16 * a * one) / (5 * (PI_SQ_FX as int) - 4 * a)
}

/// Sine over one full turn `[0, tau)`: the second half-turn mirrors the
/// first with opposite sign.
pub open spec fn sin_at(x: int) -> int {
    if x < PI_FX {
        sin_half_at(x)
    } else {
        -sin_half_at(x - PI_FX)
    }
}

/// Quadratic fit of `2^-f` for a fractional `f` in `[0, 1)`, exact at the
/// endpoints of the fitting interval.
pub open spec fn exp2_frac_at(f: int) -> int {
    let one = FX_ONE as int;
    one + (((f * f) / one) * (EXP2_C2 as int)) / one - (f * (EXP2_C1 as int)) / one
}

/// `q` halved `k` times, flooring at each step.
pub open spec fn halved(q: int, k: nat) -> int
    decreases k,
{
    if k == 0 {
        q
    } else {
        halved(q, (k - 1) as nat) / 2
    }
}

/// `2^-e` for a nonnegative fixed-point exponent `e`: the integer part of
/// the exponent becomes halvings, the fractional part goes through the
/// quadratic fit.
pub open spec fn exp2_neg_at(e: int) -> int {
    let one = FX_ONE as int;
    halved(exp2_frac_at(e % one), (e / one) as nat)
}

/// Phase of the elastic sine at progress `t`: `(t - 0.075) * tau / 0.3`,
/// rounded toward zero.
pub open spec fn elastic_phase_at(t: int) -> int {
    div_to_zero((t - 75_000) * (TAU_FX as int), 300_000)
}

/// A phase reduced into `[0, tau)`.  The elastic phase is never below
/// `-tau`, so a single turn is enough on the negative side.
pub open spec fn reduced_phase(p: int) -> int {
    if p < 0 {
        p + TAU_FX
    } else {
        p % (TAU_FX as int)
    }
}

/// Exponentially decaying sine with period `0.3`, raised by one:
/// `2^(-10 t) * sin((t - 0.075) * tau / 0.3) + 1`.  Exactly `t` at the
/// endpoints.
pub open spec fn elastic_at(t: int) -> int {
    let one = FX_ONE as int;
    if t == 0 || t == one {
        t
    } else {
        let s = sin_at(reduced_phase(elastic_phase_at(t)));
        let m = exp2_neg_at(10 * t);
        one + div_to_zero(s * m, one)
    }
}

/// The value of curve `e` at progress `t`.
pub open spec fn eased_at(e: EasingFunction, t: int) -> int {
    match e {
        EasingFunction::Linear => t,
        EasingFunction::EaseIn => ease_in_at(t),
        EasingFunction::EaseOut => ease_out_at(t),
        EasingFunction::EaseInOut => ease_in_out_at(t),
        EasingFunction::Elastic => elastic_at(t),
        EasingFunction::Bounce => bounce_at(t),
    }
}

/// Every curve starts at `0` and ends at `1`.
pub proof fn lemma_eased_endpoints(e: EasingFunction)
    ensures
        eased_at(e, 0) == 0,
        eased_at(e, FX_ONE as int) == FX_ONE as int,
{
    let one = FX_ONE as int;
    match e {
        EasingFunction::Linear => {},
        EasingFunction::EaseIn => {
            assert(eased_at(e, 0) == 0);
            assert(one * one == 1_000_000_000_000) by (nonlinear_arith)
                requires
                    one == 1_000_000,
            ;
            assert(eased_at(e, one) == one);
        },
        EasingFunction::EaseOut => {
            assert(one * one == 1_000_000_000_000) by (nonlinear_arith)
                requires
                    one == 1_000_000,
            ;
            assert(eased_at(e, 0) == 0);
            assert(eased_at(e, one) == one);
        },
        EasingFunction::EaseInOut => {
            assert(eased_at(e, 0) == 0);
            assert(eased_at(e, one) == one);
        },
        EasingFunction::Elastic => {},
        EasingFunction::Bounce => {
            assert(eased_at(e, 0) == 0);
            assert(one * one == 1_000_000_000_000) by (nonlinear_arith)
                requires
                    one == 1_000_000,
            ;
            assert(22 * one - 21 * one == one);
            assert(64_000_000 * 15_625 == 1_000_000_000_000) by (nonlinear_arith);
            vstd::arithmetic::div_mod::lemma_div_multiples_vanish(15_625, 64_000_000);
            assert((one * one) / (64 * one) == 15_625);
            assert(bounce_at(one) == (one * one) / (64 * one) + 984_375);
            assert(eased_at(e, one) == one);
        },
    }
}

fn ease_in_fx(t: i64) -> (r: i64)
    requires
        0 <= t <= FX_ONE,
    ensures
        r == ease_in_at(t as int),
{
    assert(0 <= t * t <= 1_000_000_000_000) by (nonlinear_arith)
        requires
            0 <= t <= 1_000_000,
    ;
    (t * t) / FX_ONE
}

fn ease_out_fx(t: i64) -> (r: i64)
    requires
        0 <= t <= FX_ONE,
    ensures
        r == ease_out_at(t as int),
{
    let u: i64 = FX_ONE - t;
    assert(0 <= u * u <= 1_000_000_000_000) by (nonlinear_arith)
        requires
            0 <= u <= 1_000_000,
    ;
    proof {
        vstd::arithmetic::div_mod::lemma_div_is_ordered(
            u as int * u as int,
            1_000_000_000_000,
            FX_ONE as int,
        );
    }
    FX_ONE - (u * u) / FX_ONE
}

fn ease_in_out_fx(t: i64) -> (r: i64)
    requires
        0 <= t <= FX_ONE,
    ensures
        r == ease_in_out_at(t as int),
{
    if t < FX_HALF {
        assert(0 <= 2 * t * t <= 500_000_000_000) by (nonlinear_arith)
            requires
                0 <= t < 500_000,
        ;
        (2 * t * t) / FX_ONE
    } else {
        let u: i64 = FX_ONE - t;
        assert(0 <= 2 * u * u <= 500_000_000_000) by (nonlinear_arith)
            requires
                0 <= u <= 500_000,
        ;
        proof {
            vstd::arithmetic::div_mod::lemma_div_is_ordered(
                2 * (u as int) * (u as int),
                500_000_000_000,
                FX_ONE as int,
            );
        }
        FX_ONE - (2 * u * u) / FX_ONE
    }
}

fn bounce_fx(t: i64) -> (r: i64)
    requires
        0 <= t <= FX_ONE,
    ensures
        r == bounce_at(t as int),
{
    if 11 * t < 4 * FX_ONE {
        assert(0 <= 121 * t * t <= 16_000_000_000_000) by (nonlinear_arith)
            requires
                0 <= t,
                11 * t < 4_000_000,
        ;
        (121 * t * t) / (16 * FX_ONE)
    } else if 11 * t < 8 * FX_ONE {
        let u: i64 = 11 * t - 6 * FX_ONE;
        assert(0 <= u * u <= 4_000_000_000_000) by (nonlinear_arith)
            requires
                -2_000_000 <= u < 2_000_000,
        ;
        (u * u) / (16 * FX_ONE) + 750_000
    } else if 11 * t < 10 * FX_ONE {
        let u: i64 = 11 * t - 9 * FX_ONE;
        assert(0 <= u * u <= 1_000_000_000_000) by (nonlinear_arith)
            requires
                -1_000_000 <= u < 1_000_000,
        ;
        (u * u) / (16 * FX_ONE) + 937_500
    } else {
        let u: i64 = 22 * t - 21 * FX_ONE;
        assert(0 <= u * u <= 1_000_000_000_000) by (nonlinear_arith)
            requires
                -1_000_000 <= u <= 1_000_000,
        ;
        (u * u) / (64 * FX_ONE) + 984_375
    }
}

fn sin_half_fx(x: i64) -> (r: i64)
    requires
        0 <= x <= PI_FX,
    ensures
        r == sin_half_at(x as int),
        0 <= r <= FX_ONE,
{
    assert(x * (PI_FX - x) <= 1_570_796 * 1_570_796 && 0 <= x * (PI_FX - x))
        by (nonlinear_arith)
        requires
            0 <= x <= PI_FX,
    ;
    let a: i64 = (x * (PI_FX - x)) / FX_ONE;
    let den: i64 = 5 * PI_SQ_FX - 4 * a;
    let num: i64 = 16 * a * FX_ONE;
    assert(num <= den * (FX_ONE as int)) by (nonlinear_arith)
        requires
            num == 16 * a * (FX_ONE as int),
            den == 5 * (PI_SQ_FX as int) - 4 * a,
            0 <= a <= 2_467_401,
    ;
    let r = num / den;
    assert(r <= FX_ONE) by {
        vstd::arithmetic::div_mod::lemma_div_is_ordered(
            num as int,
            den * (FX_ONE as int),
            den as int,
        );
        vstd::arithmetic::div_mod::lemma_div_multiples_vanish(FX_ONE as int, den as int);
    }
    r
}

fn sin_fx(x: i64) -> (r: i64)
    requires
        0 <= x < TAU_FX,
    ensures
        r == sin_at(x as int),
        -FX_ONE <= r <= FX_ONE,
{
    if x < PI_FX {
        sin_half_fx(x)
    } else {
        -sin_half_fx(x - PI_FX)
    }
}

fn exp2_neg_fx(e: i64) -> (r: i64)
    requires
        0 <= e <= 10 * FX_ONE,
    ensures
        r == exp2_neg_at(e as int),
        0 <= r <= FX_ONE,
{
    let k: i64 = e / FX_ONE;
    let f: i64 = e % FX_ONE;
    let t1: i64 = (f * EXP2_C1) / FX_ONE;
    assert(0 <= f * f <= 1_000_000_000_000) by (nonlinear_arith)
        requires
            0 <= f <= 1_000_000,
    ;
    let fsq: i64 = (f * f) / FX_ONE;
    let t2: i64 = (fsq * EXP2_C2) / FX_ONE;
    proof {
        let one = FX_ONE as int;
        assert(f * f <= one * f) by (nonlinear_arith)
            requires
                0 <= f < one,
        ;
        vstd::arithmetic::div_mod::lemma_div_is_ordered(f as int * f as int, one * f as int, one);
        vstd::arithmetic::div_mod::lemma_div_multiples_vanish(f as int, one);
        assert(fsq * (EXP2_C2 as int) <= f * (EXP2_C1 as int)) by (nonlinear_arith)
            requires
                0 <= fsq <= f,
                0 < EXP2_C2 < EXP2_C1,
        ;
        vstd::arithmetic::div_mod::lemma_div_is_ordered(
            fsq * (EXP2_C2 as int),
            f * (EXP2_C1 as int),
            one,
        );
    }
    let mut q: i64 = FX_ONE + t2 - t1;
    assert(q == exp2_frac_at(f as int));
    let mut i: i64 = 0;
    while i < k
        invariant
            0 <= i <= k <= 10,
            0 <= q <= FX_ONE,
            q == halved(exp2_frac_at(e as int % (FX_ONE as int)), i as nat),
        decreases k - i,
    {
        q = q / 2;
        i = i + 1;
    }
    q
}

fn elastic_fx(t: i64) -> (r: i64)
    requires
        0 <= t <= FX_ONE,
    ensures
        r == elastic_at(t as int),
{
    if t == 0 || t == FX_ONE {
        return t;
    }
    let phase: i64 = ((t - 75_000) * TAU_FX) / 300_000;
    let a: i64 = if phase < 0 {
        phase + TAU_FX
    } else {
        phase % TAU_FX
    };
    let s: i64 = sin_fx(a);
    let m: i64 = exp2_neg_fx(10 * t);
    assert(-1_000_000_000_000 <= s * m <= 1_000_000_000_000) by (nonlinear_arith)
        requires
            -1_000_000 <= s <= 1_000_000,
            0 <= m <= 1_000_000,
    ;
    let prod: i64 = (s * m) / FX_ONE;
    FX_ONE + prod
}

impl EasingFunction {
    /// Evaluate the curve at progress `t` in `[0, 1]`.  The result may
    /// exceed `[0, 1]` for the overshooting `Elastic` curve; callers must
    /// not assume clamped output.
    pub fn apply(&self, t: i64) -> (r: i64)
        requires
            0 <= t <= FX_ONE,
        ensures
            r == eased_at(*self, t as int),
    {
        match self {
            EasingFunction::Linear => t,
            EasingFunction::EaseIn => ease_in_fx(t),
            EasingFunction::EaseOut => ease_out_fx(t),
            EasingFunction::EaseInOut => ease_in_out_fx(t),
            EasingFunction::Elastic => elastic_fx(t),
            EasingFunction::Bounce => bounce_fx(t),
        }
    }
}

} // verus!
