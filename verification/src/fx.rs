//! Fixed-point scalar arithmetic.
//!
//! Every continuous quantity in the engine — intensities, seconds, screen
//! coordinates, world positions — is an `i64` carrying six decimal places:
//! the value `1_000_000` stands for `1.0`.  All arithmetic is exact integer
//! arithmetic with explicit flooring, so every computation in the pipeline
//! is deterministic and can be reasoned about precisely.

use vstd::prelude::*;

verus! {

/// One whole unit: fixed-point values carry six decimal places.
pub const FX_ONE: i64 = 1_000_000;

/// One half, in fixed-point units.
pub const FX_HALF: i64 = 500_000;

/// Instances whose combined intensity is at or below this value are left out
/// of every bucket for the frame (strictly-greater comparison).
pub const INTENSITY_THRESHOLD: i64 = 1_000;

/// Magnitude bound on effect parameters, world coordinates and camera matrix
/// entries.  Keeping parameters within this bound lets every product in the
/// pipeline be computed in 64 or 128 bits without overflow.
pub const FX_LIMIT: i64 = 1_000_000_000;

/// Magnitude bound on durations and fade times (about 11.5 days).
pub const TIME_LIMIT: i64 = 1_000_000_000_000;

/// Cap on an instance's accumulated elapsed time.  The cap is far above
/// `TIME_LIMIT`, so saturating at it never masks an expiry.
pub const ELAPSED_CAP: i64 = 4_000_000_000_000;

/// Division rounding toward zero, as the machine division of two `i64`
/// values behaves.  For a nonnegative numerator this is plain flooring
/// division.
pub open spec fn div_to_zero(a: int, b: int) -> int {
    if a >= 0 {
        a / b
    } else {
        -((-a) / b)
    }
}

/// Clamp a fixed-point value into the interval `[-bound, bound]`.
pub open spec fn clamp_mag(v: int, bound: int) -> int {
    if v < -bound {
        -bound
    } else if v > bound {
        bound
    } else {
        v
    }
}

/// The smaller of two mathematical integers.
pub open spec fn min_int(a: int, b: int) -> int {
    if a <= b {
        a
    } else {
        b
    }
}

/// Clamp a fixed-point value into the unit interval `[0, 1]`.
pub open spec fn clamp_unit(v: int) -> int {
    if v < 0 {
        0
    } else if v > FX_ONE {
        FX_ONE as int
    } else {
        v
    }
}

pub fn fx_clamp_unit(v: i64) -> (r: i64)
    ensures
        r == clamp_unit(v as int),
{
    if v < 0 {
        0
    } else if v > FX_ONE {
        FX_ONE
    } else {
        v
    }
}

/// The fixed-point product `a * b`, floored: `floor(a * b / 1_000_000)`.
pub open spec fn fx_mul_spec(a: int, b: int) -> int {
    (a * b) / (FX_ONE as int)
}

/// Multiply two nonnegative fixed-point values.
pub fn fx_mul(a: i64, b: i64) -> (r: i64)
    requires
        0 <= a,
        0 <= b,
        a * b <= i64::MAX,
    ensures
        r == fx_mul_spec(a as int, b as int),
        0 <= r,
{
    let p: u64 = (a as u64) * (b as u64);
    (p / (FX_ONE as u64)) as i64
}

/// The fixed-point quotient `a / b`, floored: `floor(a * 1_000_000 / b)`.
pub open spec fn fx_div_spec(a: int, b: int) -> int {
    (a * (FX_ONE as int)) / b
}

/// Divide a nonnegative fixed-point value by a positive one.
pub fn fx_div(a: i64, b: i64) -> (r: i64)
    requires
        0 <= a,
        0 < b,
        a * FX_ONE <= i64::MAX,
    ensures
        r == fx_div_spec(a as int, b as int),
        0 <= r,
{
    let n: u64 = (a as u64) * (FX_ONE as u64);
    (n / (b as u64)) as i64
}

/// The integer square root: the greatest `r` with `r * r <= n`.
pub open spec fn isqrt_of(n: nat) -> nat
    decreases n,
{
    if n == 0 {
        0
    } else {
        let r = isqrt_of((n - 1) as nat);
        if (r + 1) * (r + 1) <= n {
            r + 1
        } else {
            r
        }
    }
}

/// The defining property of [`isqrt_of`].
pub proof fn lemma_isqrt_of_bounds(n: nat)
    ensures
        isqrt_of(n) * isqrt_of(n) <= n,
        n < (isqrt_of(n) + 1) * (isqrt_of(n) + 1),
    decreases n,
{
    if n == 0 {
        assert(isqrt_of(0) == 0);
        assert((0 + 1) * (0 + 1) == 1) by (nonlinear_arith);
    } else {
        lemma_isqrt_of_bounds((n - 1) as nat);
        let r = isqrt_of((n - 1) as nat);
        if (r + 1) * (r + 1) <= n {
            assert(isqrt_of(n) == r + 1);
            assert((r + 1) * (r + 1) < (r + 2) * (r + 2)) by (nonlinear_arith)
                requires
                    r >= 0,
            ;
            assert(n <= (r + 1) * (r + 1));
            assert(n < (r + 2) * (r + 2));
            assert(isqrt_of(n) + 1 == r + 2);
            assert((isqrt_of(n) + 1) * (isqrt_of(n) + 1) == (r + 2) * (r + 2));
        } else {
            assert(isqrt_of(n) == r);
            assert(r * r <= n - 1 <= n);
            assert(n < (r + 1) * (r + 1));
        }
    }
}

/// Any value satisfying the square-root characterization is the integer
/// square root.
pub proof fn lemma_isqrt_unique(n: nat, r: nat)
    requires
        r * r <= n,
        n < (r + 1) * (r + 1),
    ensures
        r == isqrt_of(n),
{
    lemma_isqrt_of_bounds(n);
    let q = isqrt_of(n);
    if r < q {
        assert((r + 1) * (r + 1) <= q * q) by (nonlinear_arith)
            requires
                0 <= r,
                r + 1 <= q,
        ;
    }
    if q < r {
        assert((q + 1) * (q + 1) <= r * r) by (nonlinear_arith)
            requires
                0 <= q,
                q + 1 <= r,
        ;
    }
}

/// Integer square root: the greatest `r` with `r * r <= n`.
pub fn isqrt64(n: u64) -> (r: u64)
    ensures
        r * r <= n,
        n < (r + 1) * (r + 1),
        r == isqrt_of(n as nat),
{
    if n == 0 {
        return 0;
    }
    let mut lo: u64 = 0;
    let mut hi: u64 = 4_294_967_296;
    while lo + 1 < hi
        invariant
            lo < hi,
            hi <= 4_294_967_296,
            lo * lo <= n,
            n < hi * hi,
        decreases hi - lo,
    {
        let mid: u64 = lo + (hi - lo) / 2;
        assert(mid * mid <= 0xffff_ffff_0000_0000u64) by (nonlinear_arith)
            requires
                mid <= 0xffff_ffffu64,
        ;
        if mid * mid <= n {
            lo = mid;
        } else {
            hi = mid;
        }
    }
    proof {
        lemma_isqrt_unique(n as nat, lo as nat);
    }
    lo
}

/// A pair of fixed-point values: a screen position, an offset, or a block
/// size.
#[derive(Clone, Copy, PartialEq, Eq, Structural, Debug, Default)]
pub struct Fx2 {
    pub x: i64,
    pub y: i64,
}

impl Fx2 {
    /// The centre of the normalized screen.
    pub fn half() -> (r: Self)
        ensures
            r.x == FX_HALF,
            r.y == FX_HALF,
    {
        Fx2 { x: FX_HALF, y: FX_HALF }
    }
}

/// A triple of fixed-point values: a world-space position or direction.
#[derive(Clone, Copy, PartialEq, Eq, Structural, Debug)]
pub struct Vec3Fx {
    pub x: i64,
    pub y: i64,
    pub z: i64,
}

impl Vec3Fx {
    /// The world origin.
    pub fn zero() -> (r: Self)
        ensures
            r.x == 0,
            r.y == 0,
            r.z == 0,
    {
        Vec3Fx { x: 0, y: 0, z: 0 }
    }

    /// All components within the magnitude bound that keeps projection
    /// arithmetic overflow-free.
    pub open spec fn bounded(&self) -> bool {
        &&& -FX_LIMIT <= self.x <= FX_LIMIT
        &&& -FX_LIMIT <= self.y <= FX_LIMIT
        &&& -FX_LIMIT <= self.z <= FX_LIMIT
    }
}

/// An RGBA colour with fixed-point components (`1_000_000` per channel is
/// full brightness).
#[derive(Clone, Copy, PartialEq, Eq, Structural, Debug)]
pub struct Rgba {
    pub r: i64,
    pub g: i64,
    pub b: i64,
    pub a: i64,
}

impl Rgba {
    /// Opaque white.
    pub fn white() -> (c: Self)
        ensures
            c == (Rgba { r: FX_ONE, g: FX_ONE, b: FX_ONE, a: FX_ONE }),
    {
        Rgba { r: FX_ONE, g: FX_ONE, b: FX_ONE, a: FX_ONE }
    }

    /// A colour from its four components.
    pub fn new(r: i64, g: i64, b: i64, a: i64) -> (c: Self)
        ensures
            c == (Rgba { r, g, b, a }),
    {
        Rgba { r, g, b, a }
    }
}

} // verus!

