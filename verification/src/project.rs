//! Re-projection of world-anchored effects into screen space.
//!
//! A [`CameraView`] carries the primary camera's clip-from-world matrix
//! (rows of fixed-point entries) and its world-space right vector.  A
//! world point maps to clip space by row dot products, to normalized
//! device coordinates by the perspective divide, and to normalized screen
//! coordinates with the origin at the top left:
//! `screen = (ndc.x/2 + 1/2, 1/2 - ndc.y/2)`.
//!
//! Projection fails exactly when the clip-space `w` is not positive (the
//! point is at or behind the camera plane); normalized device coordinates
//! saturate at [`NDC_LIMIT`], so far-off-screen points stay representable.

use vstd::prelude::*;

use crate::effect::EffectOrigin;
use crate::fx::{clamp_mag, div_to_zero, isqrt_of, isqrt64, Fx2, Vec3Fx, FX_HALF, FX_LIMIT,
    FX_ONE};

verus! {

/// Magnitude bound for saturated normalized device coordinates (a
/// thousand screens off-centre).
pub const NDC_LIMIT: i64 = 1_000_000_000;

/// Magnitude bound on points handed to the projection: wide enough for a
/// bounded world position offset by a bounded right vector times a
/// bounded radius.
pub const PROJ_LIMIT: i64 = 2_000_000_000_000;

/// One row of a clip-from-world matrix, in fixed-point units.
#[derive(Clone, Copy, PartialEq, Eq, Structural, Debug)]
pub struct Vec4Fx {
    pub x: i64,
    pub y: i64,
    pub z: i64,
    pub w: i64,
}

impl Vec4Fx {
    /// Entries within the magnitude bound that keeps the projection
    /// arithmetic overflow-free.
    pub open spec fn bounded(&self) -> bool {
        &&& -FX_LIMIT <= self.x <= FX_LIMIT
        &&& -FX_LIMIT <= self.y <= FX_LIMIT
        &&& -FX_LIMIT <= self.z <= FX_LIMIT
        &&& -FX_LIMIT <= self.w <= FX_LIMIT
    }
}

/// The primary camera's view/projection data for one frame.
#[derive(Clone, Copy, PartialEq, Eq, Structural, Debug)]
pub struct CameraView {
    /// First row of the clip-from-world matrix.
    pub row_x: Vec4Fx,
    /// Second row of the clip-from-world matrix.
    pub row_y: Vec4Fx,
    /// Third row of the clip-from-world matrix.
    pub row_z: Vec4Fx,
    /// Fourth row of the clip-from-world matrix.
    pub row_w: Vec4Fx,
    /// The camera's right vector in world space.
    pub right: Vec3Fx,
}

impl CameraView {
    /// Every entry within the overflow-free magnitude bound.
    pub open spec fn wf(&self) -> bool {
        &&& self.row_x.bounded()
        &&& self.row_y.bounded()
        &&& self.row_z.bounded()
        &&& self.row_w.bounded()
        &&& self.right.bounded()
    }
}

/// A point within the magnitude bound the projection accepts.
pub open spec fn in_proj_range(p: Vec3Fx) -> bool {
    &&& -PROJ_LIMIT <= p.x <= PROJ_LIMIT
    &&& -PROJ_LIMIT <= p.y <= PROJ_LIMIT
    &&& -PROJ_LIMIT <= p.z <= PROJ_LIMIT
}

/// One clip-space component: the fixed-point dot product of a matrix row
/// with the homogeneous point.
pub open spec fn row_dot(r: Vec4Fx, p: Vec3Fx) -> int {
    div_to_zero(r.x * p.x + r.y * p.y + r.z * p.z, FX_ONE as int) + r.w
}

/// Whether the point projects: its clip-space `w` is strictly positive.
pub open spec fn projects(c: CameraView, p: Vec3Fx) -> bool {
    row_dot(c.row_w, p) > 0
}

/// One normalized device coordinate: the perspective divide, saturated
/// at [`NDC_LIMIT`].
pub open spec fn ndc_coord(num: int, w: int) -> int {
    clamp_mag(div_to_zero(num * (FX_ONE as int), w), NDC_LIMIT as int)
}

pub open spec fn ndc_x_of(c: CameraView, p: Vec3Fx) -> int {
    ndc_coord(row_dot(c.row_x, p), row_dot(c.row_w, p))
}

pub open spec fn ndc_y_of(c: CameraView, p: Vec3Fx) -> int {
    ndc_coord(row_dot(c.row_y, p), row_dot(c.row_w, p))
}

pub open spec fn ndc_z_of(c: CameraView, p: Vec3Fx) -> int {
    ndc_coord(row_dot(c.row_z, p), row_dot(c.row_w, p))
}

/// Normalized screen coordinates, top-left origin.
pub open spec fn screen_x_of(c: CameraView, p: Vec3Fx) -> int {
    div_to_zero(ndc_x_of(c, p), 2) + FX_HALF
}

pub open spec fn screen_y_of(c: CameraView, p: Vec3Fx) -> int {
    FX_HALF - div_to_zero(ndc_y_of(c, p), 2)
}

pub open spec fn screen_of(c: CameraView, p: Vec3Fx) -> Fx2 {
    Fx2 { x: screen_x_of(c, p) as i64, y: screen_y_of(c, p) as i64 }
}

/// The screen-space distance between two projected points: the integer
/// square root of the squared coordinate differences.
pub open spec fn screen_dist_of(a: Fx2, b: Fx2) -> int {
    isqrt_of(((a.x - b.x) * (a.x - b.x) + (a.y - b.y) * (a.y - b.y)) as nat) as int
}

/// Screen coordinates always land within half an [`NDC_LIMIT`] of the
/// screen centre.
pub proof fn lemma_screen_in_range(c: CameraView, p: Vec3Fx)
    ensures
        -NDC_LIMIT <= screen_x_of(c, p) <= NDC_LIMIT,
        -NDC_LIMIT <= screen_y_of(c, p) <= NDC_LIMIT,
{
    lemma_half_in_range(ndc_x_of(c, p));
    lemma_half_in_range(ndc_y_of(c, p));
}

/// Halving a value saturated at [`NDC_LIMIT`] keeps it within half the
/// limit.
proof fn lemma_half_in_range(v: int)
    requires
        -NDC_LIMIT <= v <= NDC_LIMIT,
    ensures
        -500_000_000 <= div_to_zero(v, 2) <= 500_000_000,
{
    if v >= 0 {
        vstd::arithmetic::div_mod::lemma_div_is_ordered(0, v, 2);
        vstd::arithmetic::div_mod::lemma_div_is_ordered(v, NDC_LIMIT as int, 2);
        assert((NDC_LIMIT as int) / 2 == 500_000_000) by {
            vstd::arithmetic::div_mod::lemma_div_multiples_vanish(500_000_000, 2);
        }
    } else {
        vstd::arithmetic::div_mod::lemma_div_is_ordered(0, -v, 2);
        vstd::arithmetic::div_mod::lemma_div_is_ordered(-v, NDC_LIMIT as int, 2);
        assert((NDC_LIMIT as int) / 2 == 500_000_000) by {
            vstd::arithmetic::div_mod::lemma_div_multiples_vanish(500_000_000, 2);
        }
    }
}

/// One clip-space component, computed in 128-bit arithmetic.
fn row_dot_fx(r: &Vec4Fx, p: Vec3Fx) -> (d: i64)
    requires
        r.bounded(),
        in_proj_range(p),
    ensures
        d == row_dot(*r, p),
        -7_000_000_000_000_000 <= d <= 7_000_000_000_000_000,
{
    proof {
        assert(-2_000_000_000_000_000_000_000 <= r.x * p.x <= 2_000_000_000_000_000_000_000)
            by (nonlinear_arith)
            requires
                -1_000_000_000 <= r.x <= 1_000_000_000,
                -2_000_000_000_000 <= p.x <= 2_000_000_000_000,
        ;
        assert(-2_000_000_000_000_000_000_000 <= r.y * p.y <= 2_000_000_000_000_000_000_000)
            by (nonlinear_arith)
            requires
                -1_000_000_000 <= r.y <= 1_000_000_000,
                -2_000_000_000_000 <= p.y <= 2_000_000_000_000,
        ;
        assert(-2_000_000_000_000_000_000_000 <= r.z * p.z <= 2_000_000_000_000_000_000_000)
            by (nonlinear_arith)
            requires
                -1_000_000_000 <= r.z <= 1_000_000_000,
                -2_000_000_000_000 <= p.z <= 2_000_000_000_000,
        ;
    }
    let xx: i128 = (r.x as i128) * (p.x as i128);
    let yy: i128 = (r.y as i128) * (p.y as i128);
    let zz: i128 = (r.z as i128) * (p.z as i128);
    let s: i128 = xx + yy + zz;
    let q: i128 = s / 1_000_000;
    proof {
        if s >= 0 {
            vstd::arithmetic::div_mod::lemma_div_is_ordered(s as int, 6_000_000_000_000_000_000_000, 1_000_000);
            vstd::arithmetic::div_mod::lemma_div_multiples_vanish(6_000_000_000_000_000, 1_000_000);
        } else {
            vstd::arithmetic::div_mod::lemma_div_is_ordered(-s as int, 6_000_000_000_000_000_000_000, 1_000_000);
            vstd::arithmetic::div_mod::lemma_div_multiples_vanish(6_000_000_000_000_000, 1_000_000);
        }
    }
    (q as i64) + r.w
}

/// One saturated normalized device coordinate.
fn ndc_div(num: i64, w: i64) -> (r: i64)
    requires
        0 < w,
        -7_000_000_000_000_000 <= num <= 7_000_000_000_000_000,
    ensures
        r == ndc_coord(num as int, w as int),
{
    let n: i128 = (num as i128) * 1_000_000;
    let q: i128 = n / (w as i128);
    if q < -(NDC_LIMIT as i128) {
        -NDC_LIMIT
    } else if q > NDC_LIMIT as i128 {
        NDC_LIMIT
    } else {
        q as i64
    }
}

/// Map a world point to normalized device coordinates.  Returns `None`
/// exactly when the point is at or behind the camera plane.
pub fn world_to_ndc(cam: &CameraView, p: Vec3Fx) -> (r: Option<Vec3Fx>)
    requires
        cam.wf(),
        in_proj_range(p),
    ensures
        r is Some <==> projects(*cam, p),
        r is Some ==> r->Some_0 == (Vec3Fx {
            x: ndc_x_of(*cam, p) as i64,
            y: ndc_y_of(*cam, p) as i64,
            z: ndc_z_of(*cam, p) as i64,
        }),
{
    let w = row_dot_fx(&cam.row_w, p);
    if w <= 0 {
        return None;
    }
    let x = ndc_div(row_dot_fx(&cam.row_x, p), w);
    let y = ndc_div(row_dot_fx(&cam.row_y, p), w);
    let z = ndc_div(row_dot_fx(&cam.row_z, p), w);
    Some(Vec3Fx { x, y, z })
}

/// Map a world point to normalized screen coordinates (top-left origin).
/// Returns `None` exactly when the point does not project.
pub fn world_to_screen(cam: &CameraView, p: Vec3Fx) -> (r: Option<Fx2>)
    requires
        cam.wf(),
        in_proj_range(p),
    ensures
        r is Some <==> projects(*cam, p),
        r is Some ==> r->Some_0 == screen_of(*cam, p),
        r is Some ==> -NDC_LIMIT <= r->Some_0.x <= NDC_LIMIT && -NDC_LIMIT <= r->Some_0.y
            <= NDC_LIMIT,
{
    match world_to_ndc(cam, p) {
        None => None,
        Some(ndc) => {
            proof {
                lemma_screen_in_range(*cam, p);
            }
            let sx: i64 = ndc.x / 2 + FX_HALF;
            let sy: i64 = FX_HALF - ndc.y / 2;
            Some(Fx2 { x: sx, y: sy })
        },
    }
}

/// The point offset from `p` by `dist` along `dir` (fixed-point scaling,
/// rounded toward zero).
pub open spec fn offset_point(p: Vec3Fx, dir: Vec3Fx, dist: int) -> Vec3Fx {
    Vec3Fx {
        x: (p.x + div_to_zero(dir.x as int * dist, FX_ONE as int)) as i64,
        y: (p.y + div_to_zero(dir.y as int * dist, FX_ONE as int)) as i64,
        z: (p.z + div_to_zero(dir.z as int * dist, FX_ONE as int)) as i64,
    }
}

/// Offset a bounded point along a bounded direction; the result stays
/// within the projection range.
pub fn offset_along(p: Vec3Fx, dir: Vec3Fx, dist: i64) -> (r: Vec3Fx)
    requires
        -2 * FX_LIMIT <= p.x <= 2 * FX_LIMIT,
        -2 * FX_LIMIT <= p.y <= 2 * FX_LIMIT,
        -2 * FX_LIMIT <= p.z <= 2 * FX_LIMIT,
        dir.bounded(),
        -FX_LIMIT <= dist <= FX_LIMIT,
    ensures
        r == offset_point(p, dir, dist as int),
        in_proj_range(r),
{
    proof {
        lemma_offset_component(dir.x as int, dist as int);
        lemma_offset_component(dir.y as int, dist as int);
        lemma_offset_component(dir.z as int, dist as int);
    }
    Vec3Fx {
        x: p.x + (dir.x * dist) / FX_ONE,
        y: p.y + (dir.y * dist) / FX_ONE,
        z: p.z + (dir.z * dist) / FX_ONE,
    }
}

/// A bounded direction component scaled by a bounded distance stays well
/// within the projection range.
proof fn lemma_offset_component(d: int, t: int)
    requires
        -FX_LIMIT <= d <= FX_LIMIT,
        -FX_LIMIT <= t <= FX_LIMIT,
    ensures
        -1_000_000_000_000 <= div_to_zero(d * t, FX_ONE as int) <= 1_000_000_000_000,
        -1_000_000_000_000_000_000 <= d * t <= 1_000_000_000_000_000_000,
{
    assert(-1_000_000_000_000_000_000 <= d * t <= 1_000_000_000_000_000_000) by (nonlinear_arith)
        requires
            -1_000_000_000 <= d <= 1_000_000_000,
            -1_000_000_000 <= t <= 1_000_000_000,
    ;
    let m = if d * t >= 0 {
        d * t
    } else {
        -(d * t)
    };
    vstd::arithmetic::div_mod::lemma_div_is_ordered(m, 1_000_000_000_000_000_000, 1_000_000);
    vstd::arithmetic::div_mod::lemma_div_multiples_vanish(1_000_000_000_000, 1_000_000);
    vstd::arithmetic::div_mod::lemma_div_is_ordered(0, m, 1_000_000);
}

/// The screen-space distance between two projected screen positions.
pub fn screen_distance(a: Fx2, b: Fx2) -> (r: i64)
    requires
        -NDC_LIMIT <= a.x <= NDC_LIMIT,
        -NDC_LIMIT <= a.y <= NDC_LIMIT,
        -NDC_LIMIT <= b.x <= NDC_LIMIT,
        -NDC_LIMIT <= b.y <= NDC_LIMIT,
    ensures
        r == screen_dist_of(a, b),
        0 <= r <= 3_000_000_000,
{
    let dx: i64 = a.x - b.x;
    let dy: i64 = a.y - b.y;
    let dxa: u64 = if dx < 0 {
        (-dx) as u64
    } else {
        dx as u64
    };
    let dya: u64 = if dy < 0 {
        (-dy) as u64
    } else {
        dy as u64
    };
    proof {
        assert(dxa * dxa <= 4_000_000_000_000_000_000 && dya * dya <= 4_000_000_000_000_000_000)
            by (nonlinear_arith)
            requires
                0 <= dxa <= 2_000_000_000,
                0 <= dya <= 2_000_000_000,
        ;
        assert(dxa * dxa == (a.x - b.x) * (a.x - b.x)) by (nonlinear_arith)
            requires
                dxa == a.x - b.x || dxa == -(a.x - b.x),
        ;
        assert(dya * dya == (a.y - b.y) * (a.y - b.y)) by (nonlinear_arith)
            requires
                dya == a.y - b.y || dya == -(a.y - b.y),
        ;
    }
    let dd: u64 = dxa * dxa + dya * dya;
    let root: u64 = isqrt64(dd);
    proof {
        assert(root * root <= 4_000_000_000_000_000_000 + 4_000_000_000_000_000_000);
        assert(root <= 3_000_000_000) by (nonlinear_arith)
            requires
                root * root <= 8_000_000_000_000_000_000,
        ;
    }
    root as i64
}

impl EffectOrigin {
    /// Convert a world position to a screen-space origin for the given
    /// camera.  Returns `None` exactly when the position does not
    /// project.
    pub fn from_world(world_pos: Vec3Fx, camera: &CameraView) -> (r: Option<EffectOrigin>)
        requires
            camera.wf(),
            world_pos.bounded(),
        ensures
            r is Some <==> projects(*camera, world_pos),
            r is Some ==> r->Some_0.0 == screen_of(*camera, world_pos),
    {
        match world_to_screen(camera, world_pos) {
            None => None,
            Some(s) => Some(EffectOrigin(s)),
        }
    }
}

} // verus!
