//! Extraction: from live instances to per-target buckets of records.
//!
//! Each frame the engine scans the instance snapshot once per distinct
//! target.  An instance contributes exactly when its combined intensity
//! is strictly above the fixed threshold and its target matches.  Screen
//! shockwave records come before re-projected world shockwave records in
//! the shockwave list, in snapshot order within each group; all other
//! kinds keep plain snapshot order.  The glitch family (scanline, block
//! displacement, static noise) is merged into at most one combined record
//! per bucket with additively accumulated, capped intensities.

use vstd::prelude::*;

use crate::effect::{EffectInstance, EffectParams, ViewId};
use crate::distortion::{Shockwave, WorldHeatShimmer, WorldShockwave};
use crate::fx::{fx_div, fx_mul, fx_div_spec, fx_mul_spec, Fx2, Rgba, Vec3Fx, FX_LIMIT, FX_ONE};
use crate::project::{
    in_proj_range, offset_along, offset_point, projects, screen_dist_of, screen_distance,
    screen_of, world_to_screen, CameraView, NDC_LIMIT,
};

verus! {

/// Extracted shockwave data: both screen-space and re-projected
/// world-space shockwaves end in this record.
#[derive(Clone, Copy, PartialEq, Eq, Structural, Debug)]
pub struct ExtractedShockwave {
    pub center: Fx2,
    pub intensity: i64,
    pub progress: i64,
    pub ring_width: i64,
    pub max_radius: i64,
    pub chromatic: bool,
}

/// Extracted radial blur data.
#[derive(Clone, Copy, PartialEq, Eq, Structural, Debug)]
pub struct ExtractedRadialBlur {
    pub center: Fx2,
    pub intensity: i64,
    pub samples: u32,
}

/// Extracted RGB split data.
#[derive(Clone, Copy, PartialEq, Eq, Structural, Debug)]
pub struct ExtractedRgbSplit {
    pub red_offset: Fx2,
    pub green_offset: Fx2,
    pub blue_offset: Fx2,
    pub intensity: i64,
}

/// Combined glitch-family data (scanline + block + static noise).
#[derive(Clone, Copy, PartialEq, Eq, Structural, Debug)]
pub struct ExtractedGlitch {
    pub intensity: i64,
    pub rgb_split_amount: i64,
    pub scanline_density: i64,
    pub block_size: Fx2,
    pub noise_amount: i64,
}

/// Extracted damage vignette data.
#[derive(Clone, Copy, PartialEq, Eq, Structural, Debug)]
pub struct ExtractedDamageVignette {
    pub color: Rgba,
    pub size: i64,
    pub softness: i64,
    pub pulse_frequency: i64,
    pub intensity: i64,
}

/// Extracted screen flash data.
#[derive(Clone, Copy, PartialEq, Eq, Structural, Debug)]
pub struct ExtractedScreenFlash {
    pub color: Rgba,
    pub blend: i64,
    pub intensity: i64,
}

/// Extracted raindrops data.
#[derive(Clone, Copy, PartialEq, Eq, Structural, Debug)]
pub struct ExtractedRaindrops {
    pub drop_size: i64,
    pub density: i64,
    pub speed: i64,
    pub refraction: i64,
    pub trail_strength: i64,
    pub intensity: i64,
}

/// Extracted EMP interference data.
#[derive(Clone, Copy, PartialEq, Eq, Structural, Debug)]
pub struct ExtractedEmpInterference {
    pub flicker_rate: i64,
    pub flicker_strength: i64,
    pub band_count: i64,
    pub band_intensity: i64,
    pub band_speed: i64,
    pub static_intensity: i64,
    pub burst_probability: i64,
    pub scanline_displacement: i64,
    pub chromatic_amount: i64,
    pub intensity: i64,
}

/// The screen-space bounding box of a projected heat-shimmer column.
#[derive(Clone, Copy, PartialEq, Eq, Structural, Debug)]
pub struct ScreenBounds {
    pub min_x: i64,
    pub max_x: i64,
    pub min_y: i64,
    pub max_y: i64,
}

/// Extracted world-space heat shimmer data.
#[derive(Clone, Copy, PartialEq, Eq, Structural, Debug)]
pub struct ExtractedWorldHeatShimmer {
    /// Screen-space bounds of the column footprint.
    pub bounds: ScreenBounds,
    pub amplitude: i64,
    pub frequency: i64,
    pub speed: i64,
    pub softness: i64,
    pub intensity: i64,
}

/// Extracted CRT data.
#[derive(Clone, Copy, PartialEq, Eq, Structural, Debug)]
pub struct ExtractedCrt {
    pub scanline_intensity: i64,
    pub scanline_count: i64,
    pub curvature: i64,
    pub corner_radius: i64,
    pub mask_shape: u32,
    pub phosphor_type: u32,
    pub phosphor_intensity: i64,
    pub bloom: i64,
    pub vignette: i64,
    pub flicker: i64,
    pub color_bleed: i64,
    pub brightness: i64,
    pub saturation: i64,
    pub intensity: i64,
}

/// Per-target bucket of extracted effect records for one frame.
#[derive(PartialEq, Eq, Debug)]
pub struct EffectBucket {
    pub shockwaves: Vec<ExtractedShockwave>,
    pub radial_blurs: Vec<ExtractedRadialBlur>,
    pub rgb_splits: Vec<ExtractedRgbSplit>,
    pub glitches: Vec<ExtractedGlitch>,
    pub emp_interferences: Vec<ExtractedEmpInterference>,
    pub damage_vignettes: Vec<ExtractedDamageVignette>,
    pub screen_flashes: Vec<ExtractedScreenFlash>,
    pub raindrops: Vec<ExtractedRaindrops>,
    pub world_heat_shimmers: Vec<ExtractedWorldHeatShimmer>,
    pub crts: Vec<ExtractedCrt>,
}

impl EffectBucket {
    /// An empty bucket.
    pub fn empty() -> (b: Self)
        ensures
            b.shockwaves@ == Seq::<ExtractedShockwave>::empty(),
            b.radial_blurs@ == Seq::<ExtractedRadialBlur>::empty(),
            b.rgb_splits@ == Seq::<ExtractedRgbSplit>::empty(),
            b.glitches@ == Seq::<ExtractedGlitch>::empty(),
            b.emp_interferences@ == Seq::<ExtractedEmpInterference>::empty(),
            b.damage_vignettes@ == Seq::<ExtractedDamageVignette>::empty(),
            b.screen_flashes@ == Seq::<ExtractedScreenFlash>::empty(),
            b.raindrops@ == Seq::<ExtractedRaindrops>::empty(),
            b.world_heat_shimmers@ == Seq::<ExtractedWorldHeatShimmer>::empty(),
            b.crts@ == Seq::<ExtractedCrt>::empty(),
    {
        EffectBucket {
            shockwaves: Vec::new(),
            radial_blurs: Vec::new(),
            rgb_splits: Vec::new(),
            glitches: Vec::new(),
            emp_interferences: Vec::new(),
            damage_vignettes: Vec::new(),
            screen_flashes: Vec::new(),
            raindrops: Vec::new(),
            world_heat_shimmers: Vec::new(),
            crts: Vec::new(),
        }
    }

    /// Whether any record of any kind is present.
    pub open spec fn has_any_spec(&self) -> bool {
        ||| self.shockwaves@.len() > 0
        ||| self.radial_blurs@.len() > 0
        ||| self.rgb_splits@.len() > 0
        ||| self.glitches@.len() > 0
        ||| self.emp_interferences@.len() > 0
        ||| self.damage_vignettes@.len() > 0
        ||| self.screen_flashes@.len() > 0
        ||| self.raindrops@.len() > 0
        ||| self.world_heat_shimmers@.len() > 0
        ||| self.crts@.len() > 0
    }

    /// Whether any record of any kind is present.
    pub fn has_any(&self) -> (r: bool)
        ensures
            r == self.has_any_spec(),
    {
        !self.shockwaves.is_empty() || !self.radial_blurs.is_empty()
            || !self.rgb_splits.is_empty() || !self.glitches.is_empty()
            || !self.emp_interferences.is_empty() || !self.damage_vignettes.is_empty()
            || !self.screen_flashes.is_empty() || !self.raindrops.is_empty()
            || !self.world_heat_shimmers.is_empty() || !self.crts.is_empty()
    }
}

/// The records selected from a snapshot by a per-instance choice
/// function, in snapshot order.
pub open spec fn selected<R>(s: Seq<EffectInstance>, f: spec_fn(EffectInstance) -> Option<R>) -> Seq<
    R,
>
    decreases s.len(),
{
    if s.len() == 0 {
        Seq::empty()
    } else {
        let rest = selected(s.drop_last(), f);
        match f(s.last()) {
            Some(r) => rest.push(r),
            None => rest,
        }
    }
}

/// Every selected record arises from some snapshot instance the choice
/// function accepted.  All the pipeline's choice functions accept only
/// instances that contribute to the bucket's target, so nothing reaches
/// a bucket without a live, above-threshold instance behind it — in
/// particular an expired instance, removed before extraction, can leave
/// no trace in any bucket.
pub proof fn lemma_selected_from_snapshot<R>(
    s: Seq<EffectInstance>,
    f: spec_fn(EffectInstance) -> Option<R>,
)
    ensures
        forall|j: int|
            0 <= j < selected(s, f).len() ==> exists|i: int|
                0 <= i < s.len() && f(s[i]) == Some(#[trigger] selected(s, f)[j]),
    decreases s.len(),
{
    if s.len() > 0 {
        lemma_selected_from_snapshot(s.drop_last(), f);
        let rest = selected(s.drop_last(), f);
        assert forall|j: int|
            0 <= j < selected(s, f).len() implies exists|i: int|
                0 <= i < s.len() && f(s[i]) == Some(#[trigger] selected(s, f)[j]) by {
            let picked = f(s.last());
            if j < rest.len() {
                assert(selected(s, f)[j] == rest[j]);
                assert(rest[j] == selected(s.drop_last(), f)[j]);
                let i = choose|i: int|
                    0 <= i < s.drop_last().len() && f(s.drop_last()[i]) == Some(
                        selected(s.drop_last(), f)[j],
                    );
                assert(s.drop_last()[i] == s[i]);
                assert(f(s[i]) == Some(selected(s, f)[j]));
            } else {
                assert(selected(s, f) == rest.push(picked->Some_0));
                assert(selected(s, f)[j] == picked->Some_0);
                assert(f(s[s.len() - 1]) == Some(selected(s, f)[j]));
            }
        }
    }
}

/// Whether the instance contributes to the bucket of `target` this
/// frame: active and aimed at exactly that target.
pub open spec fn contributes(i: EffectInstance, target: Option<ViewId>) -> bool {
    i.active() && i.target == target
}

/// The shockwave record of a screen-space shockwave instance.
pub open spec fn screen_shockwave_rec(p: Shockwave, combined: i64, progress: int) -> ExtractedShockwave {
    ExtractedShockwave {
        center: p.center,
        intensity: fx_mul_spec(p.intensity as int, combined as int) as i64,
        progress: progress as i64,
        ring_width: p.ring_width,
        max_radius: p.max_radius,
        chromatic: p.chromatic,
    }
}

/// The per-instance choice function for screen-space shockwaves.
pub open spec fn screen_shockwave_sel(target: Option<ViewId>) -> spec_fn(EffectInstance) -> Option<
    ExtractedShockwave,
> {
    |i: EffectInstance|
        if contributes(i, target) {
            match i.params {
                EffectParams::Shockwave(p) => Some(
                    screen_shockwave_rec(p, i.intensity.0, i.lifetime.progress_at()),
                ),
                _ => None,
            }
        } else {
            None
        }
}

/// The per-instance choice function for radial blurs.
pub open spec fn radial_blur_sel(target: Option<ViewId>) -> spec_fn(EffectInstance) -> Option<
    ExtractedRadialBlur,
> {
    |i: EffectInstance|
        if contributes(i, target) {
            match i.params {
                EffectParams::RadialBlur(p) => Some(
                    ExtractedRadialBlur {
                        center: p.center,
                        intensity: fx_mul_spec(p.intensity as int, i.intensity.0 as int) as i64,
                        samples: p.samples,
                    },
                ),
                _ => None,
            }
        } else {
            None
        }
}

/// The per-instance choice function for raindrops.
pub open spec fn raindrops_sel(target: Option<ViewId>) -> spec_fn(EffectInstance) -> Option<
    ExtractedRaindrops,
> {
    |i: EffectInstance|
        if contributes(i, target) {
            match i.params {
                EffectParams::Raindrops(p) => Some(
                    ExtractedRaindrops {
                        drop_size: p.drop_size,
                        density: p.density,
                        speed: p.speed,
                        refraction: p.refraction,
                        trail_strength: p.trail_strength,
                        intensity: i.intensity.0,
                    },
                ),
                _ => None,
            }
        } else {
            None
        }
}

/// The per-instance choice function for RGB splits.
pub open spec fn rgb_split_sel(target: Option<ViewId>) -> spec_fn(EffectInstance) -> Option<
    ExtractedRgbSplit,
> {
    |i: EffectInstance|
        if contributes(i, target) {
            match i.params {
                EffectParams::RgbSplit(p) => Some(
                    ExtractedRgbSplit {
                        red_offset: p.red_offset,
                        green_offset: p.green_offset,
                        blue_offset: p.blue_offset,
                        intensity: i.intensity.0,
                    },
                ),
                _ => None,
            }
        } else {
            None
        }
}

/// The per-instance choice function for EMP interference.
pub open spec fn emp_sel(target: Option<ViewId>) -> spec_fn(EffectInstance) -> Option<
    ExtractedEmpInterference,
> {
    |i: EffectInstance|
        if contributes(i, target) {
            match i.params {
                EffectParams::EmpInterference(p) => Some(
                    ExtractedEmpInterference {
                        flicker_rate: p.flicker_rate,
                        flicker_strength: p.flicker_strength,
                        band_count: p.band_count,
                        band_intensity: p.band_intensity,
                        band_speed: p.band_speed,
                        static_intensity: p.static_intensity,
                        burst_probability: p.burst_probability,
                        scanline_displacement: p.scanline_displacement,
                        chromatic_amount: p.chromatic_amount,
                        intensity: i.intensity.0,
                    },
                ),
                _ => None,
            }
        } else {
            None
        }
}

/// The per-instance choice function for CRT effects.
pub open spec fn crt_sel(target: Option<ViewId>) -> spec_fn(EffectInstance) -> Option<ExtractedCrt> {
    |i: EffectInstance|
        if contributes(i, target) {
            match i.params {
                EffectParams::Crt(p) => Some(
                    ExtractedCrt {
                        scanline_intensity: p.scanline_intensity,
                        scanline_count: p.scanline_count,
                        curvature: p.curvature,
                        corner_radius: p.corner_radius,
                        mask_shape: p.mask_shape.as_u32_spec(),
                        phosphor_type: p.phosphor.as_u32_spec(),
                        phosphor_intensity: p.phosphor_intensity,
                        bloom: p.bloom,
                        vignette: p.vignette,
                        flicker: p.flicker,
                        color_bleed: p.color_bleed,
                        brightness: p.brightness,
                        saturation: p.saturation,
                        intensity: i.intensity.0,
                    },
                ),
                _ => None,
            }
        } else {
            None
        }
}

/// The per-instance choice function for damage vignettes.
pub open spec fn vignette_sel(target: Option<ViewId>) -> spec_fn(EffectInstance) -> Option<
    ExtractedDamageVignette,
> {
    |i: EffectInstance|
        if contributes(i, target) {
            match i.params {
                EffectParams::DamageVignette(p) => Some(
                    ExtractedDamageVignette {
                        color: p.color,
                        size: p.size,
                        softness: p.softness,
                        pulse_frequency: p.pulse_frequency,
                        intensity: i.intensity.0,
                    },
                ),
                _ => None,
            }
        } else {
            None
        }
}

/// The per-instance choice function for screen flashes.
pub open spec fn flash_sel(target: Option<ViewId>) -> spec_fn(EffectInstance) -> Option<
    ExtractedScreenFlash,
> {
    |i: EffectInstance|
        if contributes(i, target) {
            match i.params {
                EffectParams::ScreenFlash(p) => Some(
                    ExtractedScreenFlash { color: p.color, blend: p.blend, intensity: i.intensity.0 },
                ),
                _ => None,
            }
        } else {
            None
        }
}

/// The shockwave record of a re-projected world-space shockwave.  The
/// screen radius is the screen-space distance between the projected
/// anchor and the anchor offset by the world radius along the camera's
/// right vector; if the offset point fails to project, the unscaled world
/// radius is used.  The ring width is scaled by `screen_radius /
/// world_radius` (saturating at [`FX_LIMIT`]) so thickness stays visually
/// proportional with camera distance.
pub open spec fn world_shockwave_rec(
    c: CameraView,
    p: WorldShockwave,
    combined: i64,
    progress: int,
) -> ExtractedShockwave {
    let sp = screen_of(c, p.world_pos);
    let off = offset_point(p.world_pos, c.right, p.max_radius as int);
    let radius = if projects(c, off) {
        screen_dist_of(screen_of(c, off), sp)
    } else {
        p.max_radius as int
    };
    let scale = fx_div_spec(radius, p.max_radius as int);
    let rw = fx_mul_spec(p.ring_width as int, scale);
    let rw_sat = if rw > FX_LIMIT {
        FX_LIMIT as int
    } else {
        rw
    };
    ExtractedShockwave {
        center: sp,
        intensity: fx_mul_spec(p.intensity as int, combined as int) as i64,
        progress: progress as i64,
        ring_width: rw_sat as i64,
        max_radius: radius as i64,
        chromatic: p.chromatic,
    }
}

/// The per-instance choice function for world-space shockwaves under a
/// given camera: an instance whose anchor fails to project is dropped for
/// the frame.
pub open spec fn world_shockwave_sel(c: CameraView, target: Option<ViewId>) -> spec_fn(
    EffectInstance,
) -> Option<ExtractedShockwave> {
    |i: EffectInstance|
        if contributes(i, target) {
            match i.params {
                EffectParams::WorldShockwave(p) => if projects(c, p.world_pos) {
                    Some(world_shockwave_rec(c, p, i.intensity.0, i.lifetime.progress_at()))
                } else {
                    None
                },
                _ => None,
            }
        } else {
            None
        }
}

/// Re-project one world shockwave.  Returns `None` exactly when the
/// anchor does not project.
fn extract_world_shockwave(
    cam: &CameraView,
    p: &WorldShockwave,
    combined: i64,
    progress: i64,
) -> (r: Option<ExtractedShockwave>)
    requires
        cam.wf(),
        p.wf(),
        0 <= combined <= FX_ONE,
        0 <= progress <= FX_ONE,
    ensures
        r is Some <==> projects(*cam, p.world_pos),
        r is Some ==> r->Some_0 == world_shockwave_rec(*cam, *p, combined, progress as int),
{
    match world_to_screen(cam, p.world_pos) {
        None => None,
        Some(sp) => {
            let off = offset_along(p.world_pos, cam.right, p.max_radius);
            let radius: i64 = match world_to_screen(cam, off) {
                Some(osp) => screen_distance(osp, sp),
                None => p.max_radius,
            };
            let scale: i64 = fx_div(radius, p.max_radius);
            proof {
                vstd::arithmetic::div_mod::lemma_div_basics_5(
                    radius * (FX_ONE as int),
                    p.max_radius as int,
                );
                assert(radius * (FX_ONE as int) <= 3_000_000_000_000_000) by (nonlinear_arith)
                    requires
                        0 <= radius <= 3_000_000_000,
                ;
                assert(0 <= p.ring_width * scale <= 3_100_000_000_000_000_000_000_000)
                    by (nonlinear_arith)
                    requires
                        0 <= p.ring_width <= 1_000_000_000,
                        0 <= scale <= 3_100_000_000_000_000,
                ;
                vstd::arithmetic::div_mod::lemma_div_is_ordered(
                    0,
                    p.ring_width * scale,
                    1_000_000,
                );
                assert(p.intensity * combined <= 1_000_000_000_000_000) by (nonlinear_arith)
                    requires
                        0 <= p.intensity <= 1_000_000_000,
                        0 <= combined <= 1_000_000,
                ;
            }
            let rw128: i128 = (p.ring_width as i128) * (scale as i128) / 1_000_000;
            let rw: i64 = if rw128 > FX_LIMIT as i128 {
                FX_LIMIT
            } else {
                rw128 as i64
            };
            Some(
                ExtractedShockwave {
                    center: sp,
                    intensity: fx_mul(p.intensity, combined),
                    progress,
                    ring_width: rw,
                    max_radius: radius,
                    chromatic: p.chromatic,
                },
            )
        },
    }
}

/// The law of world-shockwave re-projection: when the anchor offset by
/// the world radius along the camera's right vector projects at screen
/// distance `r_px` from the projected anchor, the extracted record's
/// screen radius is exactly `r_px`, and its ring width is the declared
/// ring width scaled by `r_px / world_radius` (saturating at
/// [`FX_LIMIT`]).
pub proof fn lemma_world_shockwave_projection(
    c: CameraView,
    p: WorldShockwave,
    combined: i64,
    progress: int,
)
    requires
        p.wf(),
        projects(c, offset_point(p.world_pos, c.right, p.max_radius as int)),
    ensures
        ({
            let off = offset_point(p.world_pos, c.right, p.max_radius as int);
            let r_px = screen_dist_of(screen_of(c, off), screen_of(c, p.world_pos));
            let rec = world_shockwave_rec(c, p, combined, progress);
            let scaled = fx_mul_spec(p.ring_width as int, fx_div_spec(r_px, p.max_radius as int));
            &&& rec.max_radius == r_px
            &&& rec.ring_width == if scaled > FX_LIMIT {
                FX_LIMIT as int
            } else {
                scaled
            }
        }),
{
    let off = offset_point(p.world_pos, c.right, p.max_radius as int);
    let a = screen_of(c, off);
    let b = screen_of(c, p.world_pos);
    crate::project::lemma_screen_in_range(c, off);
    crate::project::lemma_screen_in_range(c, p.world_pos);
    let dd = ((a.x - b.x) * (a.x - b.x) + (a.y - b.y) * (a.y - b.y)) as nat;
    assert(dd <= 8_000_000_000_000_000_000) by (nonlinear_arith)
        requires
            -2_000_000_000 <= a.x - b.x <= 2_000_000_000,
            -2_000_000_000 <= a.y - b.y <= 2_000_000_000,
            dd == ((a.x - b.x) * (a.x - b.x) + (a.y - b.y) * (a.y - b.y)) as nat,
    ;
    crate::fx::lemma_isqrt_of_bounds(dd);
    let root = crate::fx::isqrt_of(dd);
    assert(root <= 3_000_000_000) by (nonlinear_arith)
        requires
            root * root <= 8_000_000_000_000_000_000,
    ;
}

/// The four world-space corners of a heat-shimmer column: base and top
/// of the column, each offset by half the width along the camera's right
/// vector.
pub open spec fn shimmer_corners(c: CameraView, w: WorldHeatShimmer) -> Seq<Vec3Fx> {
    let base = w.world_pos;
    let top = Vec3Fx { x: base.x, y: (base.y + w.height) as i64, z: base.z };
    let hw = (w.width as int) / 2;
    seq![
        offset_point(base, c.right, -hw),
        offset_point(base, c.right, hw),
        offset_point(top, c.right, -hw),
        offset_point(top, c.right, hw),
    ]
}

/// The screen positions of the corners that project, in corner order.
pub open spec fn valid_screens(c: CameraView, cs: Seq<Vec3Fx>) -> Seq<Fx2>
    decreases cs.len(),
{
    if cs.len() == 0 {
        Seq::empty()
    } else {
        let rest = valid_screens(c, cs.drop_last());
        if projects(c, cs.last()) {
            rest.push(screen_of(c, cs.last()))
        } else {
            rest
        }
    }
}

/// The least `x` coordinate of a nonempty list of screen positions.
pub open spec fn min_x_of(s: Seq<Fx2>) -> int
    decreases s.len(),
{
    if s.len() <= 1 {
        s[0].x as int
    } else {
        let m = min_x_of(s.drop_last());
        if s.last().x < m {
            s.last().x as int
        } else {
            m
        }
    }
}

/// The greatest `x` coordinate of a nonempty list of screen positions.
pub open spec fn max_x_of(s: Seq<Fx2>) -> int
    decreases s.len(),
{
    if s.len() <= 1 {
        s[0].x as int
    } else {
        let m = max_x_of(s.drop_last());
        if s.last().x > m {
            s.last().x as int
        } else {
            m
        }
    }
}

/// The least `y` coordinate of a nonempty list of screen positions.
pub open spec fn min_y_of(s: Seq<Fx2>) -> int
    decreases s.len(),
{
    if s.len() <= 1 {
        s[0].y as int
    } else {
        let m = min_y_of(s.drop_last());
        if s.last().y < m {
            s.last().y as int
        } else {
            m
        }
    }
}

/// The greatest `y` coordinate of a nonempty list of screen positions.
pub open spec fn max_y_of(s: Seq<Fx2>) -> int
    decreases s.len(),
{
    if s.len() <= 1 {
        s[0].y as int
    } else {
        let m = max_y_of(s.drop_last());
        if s.last().y > m {
            s.last().y as int
        } else {
            m
        }
    }
}

/// The extracted record of one world heat shimmer: present exactly when
/// at least two of the four column corners project, with the bounding
/// box of the projecting corners as the footprint.
pub open spec fn shimmer_rec(c: CameraView, w: WorldHeatShimmer, combined: i64) -> Option<
    ExtractedWorldHeatShimmer,
> {
    let vs = valid_screens(c, shimmer_corners(c, w));
    if vs.len() >= 2 {
        Some(
            ExtractedWorldHeatShimmer {
                bounds: ScreenBounds {
                    min_x: min_x_of(vs) as i64,
                    max_x: max_x_of(vs) as i64,
                    min_y: min_y_of(vs) as i64,
                    max_y: max_y_of(vs) as i64,
                },
                amplitude: w.amplitude,
                frequency: w.frequency,
                speed: w.speed,
                softness: w.softness,
                intensity: combined,
            },
        )
    } else {
        None
    }
}

/// The per-instance choice function for world heat shimmers under a
/// given camera.
pub open spec fn shimmer_sel(c: CameraView, target: Option<ViewId>) -> spec_fn(EffectInstance) -> Option<
    ExtractedWorldHeatShimmer,
> {
    |i: EffectInstance|
        if contributes(i, target) {
            match i.params {
                EffectParams::WorldHeatShimmer(p) => shimmer_rec(c, p, i.intensity.0),
                _ => None,
            }
        } else {
            None
        }
}

/// Re-project one world heat shimmer: project the four column corners
/// and take the bounding box of those that project, if at least two do.
fn extract_world_heat_shimmer(cam: &CameraView, w: &WorldHeatShimmer, combined: i64) -> (r:
    Option<ExtractedWorldHeatShimmer>)
    requires
        cam.wf(),
        w.wf(),
    ensures
        r == shimmer_rec(*cam, *w, combined),
{
    let base = w.world_pos;
    let top = Vec3Fx { x: base.x, y: base.y + w.height, z: base.z };
    let hw: i64 = w.width / 2;
    proof {
        vstd::arithmetic::div_mod::lemma_div_is_ordered(w.width as int, FX_LIMIT as int, 2);
        vstd::arithmetic::div_mod::lemma_div_is_ordered(0, w.width as int, 2);
    }
    let mut corners: Vec<Vec3Fx> = Vec::new();
    corners.push(offset_along(base, cam.right, -hw));
    corners.push(offset_along(base, cam.right, hw));
    corners.push(offset_along(top, cam.right, -hw));
    corners.push(offset_along(top, cam.right, hw));
    let ghost cs = shimmer_corners(*cam, *w);
    proof {
        assert(corners@ =~= cs);
    }
    let mut screens: Vec<Fx2> = Vec::new();
    let mut i: usize = 0;
    while i < 4
        invariant
            i <= 4,
            corners@ == cs,
            corners@.len() == 4,
            cam.wf(),
            forall|j: int| 0 <= j < 4 ==> in_proj_range(#[trigger] corners@[j]),
            screens@ == valid_screens(*cam, cs.take(i as int)),
            forall|j: int|
                0 <= j < screens@.len() ==> -NDC_LIMIT <= (#[trigger] screens@[j]).x <= NDC_LIMIT
                    && -NDC_LIMIT <= screens@[j].y <= NDC_LIMIT,
        decreases 4 - i,
    {
        proof {
            assert(cs.take(i + 1).drop_last() =~= cs.take(i as int));
            assert(cs.take(i + 1).last() == cs[i as int]);
        }
        match world_to_screen(cam, corners[i]) {
            Some(s) => {
                screens.push(s);
            },
            None => {},
        }
        i = i + 1;
    }
    proof {
        assert(cs.take(4) =~= cs);
    }
    if screens.len() < 2 {
        return None;
    }
    let ghost vs = valid_screens(*cam, cs);
    let mut mn_x: i64 = screens[0].x;
    let mut mx_x: i64 = screens[0].x;
    let mut mn_y: i64 = screens[0].y;
    let mut mx_y: i64 = screens[0].y;
    let n = screens.len();
    let mut j: usize = 1;
    proof {
        assert(vs.take(1).len() == 1);
        assert(vs.take(1)[0] == vs[0]);
    }
    while j < n
        invariant
            1 <= j <= n,
            n == screens.len(),
            screens@ == vs,
            mn_x == min_x_of(vs.take(j as int)),
            mx_x == max_x_of(vs.take(j as int)),
            mn_y == min_y_of(vs.take(j as int)),
            mx_y == max_y_of(vs.take(j as int)),
        decreases n - j,
    {
        proof {
            assert(vs.take(j + 1).drop_last() =~= vs.take(j as int));
            assert(vs.take(j + 1).last() == vs[j as int]);
            assert(vs.take(j + 1).len() == j + 1 >= 2);
        }
        let s = screens[j];
        if s.x < mn_x {
            mn_x = s.x;
        }
        if s.x > mx_x {
            mx_x = s.x;
        }
        if s.y < mn_y {
            mn_y = s.y;
        }
        if s.y > mx_y {
            mx_y = s.y;
        }
        j = j + 1;
    }
    proof {
        assert(vs.take(n as int) =~= vs);
    }
    Some(
        ExtractedWorldHeatShimmer {
            bounds: ScreenBounds { min_x: mn_x, max_x: mx_x, min_y: mn_y, max_y: mx_y },
            amplitude: w.amplitude,
            frequency: w.frequency,
            speed: w.speed,
            softness: w.softness,
            intensity: combined,
        },
    )
}

/// Whether the instance is a contributing scanline glitch.
pub open spec fn is_scanline(i: EffectInstance, target: Option<ViewId>) -> bool {
    contributes(i, target) && i.params is ScanlineGlitch
}

/// Whether the instance is a contributing block displacement.
pub open spec fn is_block(i: EffectInstance, target: Option<ViewId>) -> bool {
    contributes(i, target) && i.params is BlockDisplacement
}

/// Whether the instance is a contributing static noise.
pub open spec fn is_noise(i: EffectInstance, target: Option<ViewId>) -> bool {
    contributes(i, target) && i.params is StaticNoise
}

/// The summed combined intensities of the contributing scanline glitches.
pub open spec fn scan_sum(s: Seq<EffectInstance>, target: Option<ViewId>) -> int
    decreases s.len(),
{
    if s.len() == 0 {
        0
    } else {
        scan_sum(s.drop_last(), target) + if is_scanline(s.last(), target) {
            s.last().intensity.0 as int
        } else {
            0
        }
    }
}

/// The summed combined intensities of the contributing block
/// displacements.
pub open spec fn block_sum(s: Seq<EffectInstance>, target: Option<ViewId>) -> int
    decreases s.len(),
{
    if s.len() == 0 {
        0
    } else {
        block_sum(s.drop_last(), target) + if is_block(s.last(), target) {
            s.last().intensity.0 as int
        } else {
            0
        }
    }
}

/// The summed combined intensities of the contributing static noises.
pub open spec fn noise_sum(s: Seq<EffectInstance>, target: Option<ViewId>) -> int
    decreases s.len(),
{
    if s.len() == 0 {
        0
    } else {
        noise_sum(s.drop_last(), target) + if is_noise(s.last(), target) {
            s.last().intensity.0 as int
        } else {
            0
        }
    }
}

/// The density of the last contributing scanline glitch in snapshot
/// order, or zero when there is none.  Snapshot order is the fixed,
/// documented iteration order of the merge.
pub open spec fn scan_last_density(s: Seq<EffectInstance>, target: Option<ViewId>) -> int
    decreases s.len(),
{
    if s.len() == 0 {
        0
    } else if is_scanline(s.last(), target) {
        match s.last().params {
            EffectParams::ScanlineGlitch(p) => p.density as int,
            _ => 0,
        }
    } else {
        scan_last_density(s.drop_last(), target)
    }
}

/// The block size of the last contributing block displacement in
/// snapshot order, or the default block size when there is none.
pub open spec fn block_last_size(s: Seq<EffectInstance>, target: Option<ViewId>) -> Fx2
    decreases s.len(),
{
    if s.len() == 0 {
        Fx2 { x: 100_000, y: 50_000 }
    } else if is_block(s.last(), target) {
        match s.last().params {
            EffectParams::BlockDisplacement(p) => p.block_size,
            _ => Fx2 { x: 0, y: 0 },
        }
    } else {
        block_last_size(s.drop_last(), target)
    }
}

/// The merged glitch-family record for one bucket: present exactly when
/// some scanline, block or static-noise instance contributes.  The
/// combined intensity is the capped sum of all three families' summed
/// intensities; the scanline density and block size are taken from the
/// last contributing instance of their family (or zeroed when the family
/// is absent); the noise amount is the capped static-noise sum.  The
/// merge is deliberately lossy: one instance's parameters win per field
/// while intensities accumulate.
pub open spec fn glitch_rec_for(s: Seq<EffectInstance>, target: Option<ViewId>) -> Option<
    ExtractedGlitch,
> {
    let ss = scan_sum(s, target);
    let bs = block_sum(s, target);
    let ns = noise_sum(s, target);
    if ss > 0 || bs > 0 || ns > 0 {
        Some(
            ExtractedGlitch {
                intensity: crate::fx::min_int(ss + bs + ns, FX_ONE as int) as i64,
                rgb_split_amount: 0,
                scanline_density: if ss > 0 {
                    scan_last_density(s, target) as i64
                } else {
                    0
                },
                block_size: if bs > 0 {
                    block_last_size(s, target)
                } else {
                    Fx2 { x: 0, y: 0 }
                },
                noise_amount: crate::fx::min_int(ns, FX_ONE as int) as i64,
            },
        )
    } else {
        None
    }
}

/// The glitch slot contents as a list: empty, or the one merged record.
pub open spec fn glitch_seq(s: Seq<EffectInstance>, target: Option<ViewId>) -> Seq<ExtractedGlitch> {
    match glitch_rec_for(s, target) {
        Some(g) => seq![g],
        None => Seq::empty(),
    }
}

/// Every instance of the snapshot is well formed.
pub open spec fn wf_snapshot(s: Seq<EffectInstance>) -> bool {
    forall|i: int| 0 <= i < s.len() ==> (#[trigger] s[i]).wf()
}

/// Exec equality on optional view targets.
pub fn same_target(a: Option<ViewId>, b: Option<ViewId>) -> (r: bool)
    ensures
        r == (a == b),
{
    match (a, b) {
        (Option::None, Option::None) => true,
        (Option::Some(x), Option::Some(y)) => x == y,
        _ => false,
    }
}

/// Merge the glitch family (scanline, block displacement, static noise)
/// for one target into at most one combined record.
fn aggregate_glitch(snapshot: &Vec<EffectInstance>, target: Option<ViewId>) -> (r: Option<
    ExtractedGlitch,
>)
    requires
        wf_snapshot(snapshot@),
    ensures
        r == glitch_rec_for(snapshot@, target),
{
    let ghost s = snapshot@;
    let mut ss: i128 = 0;
    let mut bs: i128 = 0;
    let mut ns: i128 = 0;
    let mut sd: i64 = 0;
    let mut bsz: Fx2 = Fx2 { x: 100_000, y: 50_000 };
    let mut i: usize = 0;
    while i < snapshot.len()
        invariant
            i <= s.len(),
            snapshot@ == s,
            wf_snapshot(s),
            ss == scan_sum(s.take(i as int), target),
            bs == block_sum(s.take(i as int), target),
            ns == noise_sum(s.take(i as int), target),
            sd == scan_last_density(s.take(i as int), target),
            bsz == block_last_size(s.take(i as int), target),
            0 <= ss <= i * 1_000_000,
            0 <= bs <= i * 1_000_000,
            0 <= ns <= i * 1_000_000,
        decreases s.len() - i,
    {
        proof {
            assert(s.take(i + 1).drop_last() =~= s.take(i as int));
            assert(s.take(i + 1).last() == s[i as int]);
        }
        let inst = snapshot[i];
        if inst.is_active() && same_target(inst.target, target) {
            match inst.params {
                EffectParams::ScanlineGlitch(p) => {
                    ss = ss + inst.intensity.0 as i128;
                    sd = p.density;
                },
                EffectParams::BlockDisplacement(p) => {
                    bs = bs + inst.intensity.0 as i128;
                    bsz = p.block_size;
                },
                EffectParams::StaticNoise(_) => {
                    ns = ns + inst.intensity.0 as i128;
                },
                _ => {},
            }
        }
        i = i + 1;
    }
    proof {
        assert(s.take(s.len() as int) =~= s);
    }
    if ss > 0 || bs > 0 || ns > 0 {
        let total: i128 = ss + bs + ns;
        let intensity: i64 = if total > 1_000_000 {
            FX_ONE
        } else {
            total as i64
        };
        let noise: i64 = if ns > 1_000_000 {
            FX_ONE
        } else {
            ns as i64
        };
        Some(
            ExtractedGlitch {
                intensity,
                rgb_split_amount: 0,
                scanline_density: if ss > 0 {
                    sd
                } else {
                    0
                },
                block_size: if bs > 0 {
                    bsz
                } else {
                    Fx2 { x: 0, y: 0 }
                },
                noise_amount: noise,
            },
        )
    } else {
        None
    }
}

/// The re-projected world shockwave records for one target: empty when
/// there is no primary camera (world-anchored effects are skipped for
/// the frame without error).
pub open spec fn world_shockwaves_for(
    s: Seq<EffectInstance>,
    cam: Option<CameraView>,
    target: Option<ViewId>,
) -> Seq<ExtractedShockwave> {
    match cam {
        Some(c) => selected(s, world_shockwave_sel(c, target)),
        None => Seq::empty(),
    }
}

/// The re-projected world heat shimmer records for one target: empty
/// when there is no primary camera.
pub open spec fn shimmers_for(
    s: Seq<EffectInstance>,
    cam: Option<CameraView>,
    target: Option<ViewId>,
) -> Seq<ExtractedWorldHeatShimmer> {
    match cam {
        Some(c) => selected(s, shimmer_sel(c, target)),
        None => Seq::empty(),
    }
}

/// What one target's bucket must hold, given the snapshot and camera:
/// each slot is exactly the records its extraction rule selects, with
/// screen shockwaves preceding world shockwaves.
pub open spec fn bucket_matches(
    entry: (Option<ViewId>, EffectBucket),
    s: Seq<EffectInstance>,
    cam: Option<CameraView>,
) -> bool {
    let target = entry.0;
    let b = entry.1;
    &&& b.shockwaves@ == selected(s, screen_shockwave_sel(target)) + world_shockwaves_for(
        s,
        cam,
        target,
    )
    &&& b.radial_blurs@ == selected(s, radial_blur_sel(target))
    &&& b.raindrops@ == selected(s, raindrops_sel(target))
    &&& b.rgb_splits@ == selected(s, rgb_split_sel(target))
    &&& b.emp_interferences@ == selected(s, emp_sel(target))
    &&& b.crts@ == selected(s, crt_sel(target))
    &&& b.damage_vignettes@ == selected(s, vignette_sel(target))
    &&& b.screen_flashes@ == selected(s, flash_sel(target))
    &&& b.world_heat_shimmers@ == shimmers_for(s, cam, target)
    &&& b.glitches@ == glitch_seq(s, target)
}

/// Build the bucket of one target from the instance snapshot.
pub fn build_bucket(
    snapshot: &Vec<EffectInstance>,
    cam: &Option<CameraView>,
    target: Option<ViewId>,
) -> (b: EffectBucket)
    requires
        wf_snapshot(snapshot@),
        (*cam) is Some ==> (*cam)->Some_0.wf(),
    ensures
        bucket_matches((target, b), snapshot@, *cam),
{
    let ghost s = snapshot@;
    let mut b = EffectBucket::empty();
    let mut i: usize = 0;
    while i < snapshot.len()
        invariant
            i <= s.len(),
            snapshot@ == s,
            wf_snapshot(s),
            b.shockwaves@ == selected(s.take(i as int), screen_shockwave_sel(target)),
            b.radial_blurs@ == selected(s.take(i as int), radial_blur_sel(target)),
            b.raindrops@ == selected(s.take(i as int), raindrops_sel(target)),
            b.rgb_splits@ == selected(s.take(i as int), rgb_split_sel(target)),
            b.emp_interferences@ == selected(s.take(i as int), emp_sel(target)),
            b.crts@ == selected(s.take(i as int), crt_sel(target)),
            b.damage_vignettes@ == selected(s.take(i as int), vignette_sel(target)),
            b.screen_flashes@ == selected(s.take(i as int), flash_sel(target)),
            b.world_heat_shimmers@.len() == 0,
            b.glitches@.len() == 0,
        decreases s.len() - i,
    {
        proof {
            assert(s.take(i + 1).drop_last() =~= s.take(i as int));
            assert(s.take(i + 1).last() == s[i as int]);
        }
        let inst = snapshot[i];
        if inst.is_active() && same_target(inst.target, target) {
            match inst.params {
                EffectParams::Shockwave(p) => {
                    proof {
                        assert(0 <= p.intensity * inst.intensity.0 <= 1_000_000_000_000_000)
                            by (nonlinear_arith)
                            requires
                                0 <= p.intensity <= 1_000_000_000,
                                0 <= inst.intensity.0 <= 1_000_000,
                        ;
                    }
                    let progress = inst.lifetime.progress();
                    b.shockwaves.push(
                        ExtractedShockwave {
                            center: p.center,
                            intensity: fx_mul(p.intensity, inst.intensity.0),
                            progress,
                            ring_width: p.ring_width,
                            max_radius: p.max_radius,
                            chromatic: p.chromatic,
                        },
                    );
                },
                EffectParams::RadialBlur(p) => {
                    proof {
                        assert(0 <= p.intensity * inst.intensity.0 <= 1_000_000_000_000_000)
                            by (nonlinear_arith)
                            requires
                                0 <= p.intensity <= 1_000_000_000,
                                0 <= inst.intensity.0 <= 1_000_000,
                        ;
                    }
                    b.radial_blurs.push(
                        ExtractedRadialBlur {
                            center: p.center,
                            intensity: fx_mul(p.intensity, inst.intensity.0),
                            samples: p.samples,
                        },
                    );
                },
                EffectParams::Raindrops(p) => {
                    b.raindrops.push(
                        ExtractedRaindrops {
                            drop_size: p.drop_size,
                            density: p.density,
                            speed: p.speed,
                            refraction: p.refraction,
                            trail_strength: p.trail_strength,
                            intensity: inst.intensity.0,
                        },
                    );
                },
                EffectParams::RgbSplit(p) => {
                    b.rgb_splits.push(
                        ExtractedRgbSplit {
                            red_offset: p.red_offset,
                            green_offset: p.green_offset,
                            blue_offset: p.blue_offset,
                            intensity: inst.intensity.0,
                        },
                    );
                },
                EffectParams::EmpInterference(p) => {
                    b.emp_interferences.push(
                        ExtractedEmpInterference {
                            flicker_rate: p.flicker_rate,
                            flicker_strength: p.flicker_strength,
                            band_count: p.band_count,
                            band_intensity: p.band_intensity,
                            band_speed: p.band_speed,
                            static_intensity: p.static_intensity,
                            burst_probability: p.burst_probability,
                            scanline_displacement: p.scanline_displacement,
                            chromatic_amount: p.chromatic_amount,
                            intensity: inst.intensity.0,
                        },
                    );
                },
                EffectParams::Crt(p) => {
                    b.crts.push(
                        ExtractedCrt {
                            scanline_intensity: p.scanline_intensity,
                            scanline_count: p.scanline_count,
                            curvature: p.curvature,
                            corner_radius: p.corner_radius,
                            mask_shape: p.mask_shape.as_u32(),
                            phosphor_type: p.phosphor.as_u32(),
                            phosphor_intensity: p.phosphor_intensity,
                            bloom: p.bloom,
                            vignette: p.vignette,
                            flicker: p.flicker,
                            color_bleed: p.color_bleed,
                            brightness: p.brightness,
                            saturation: p.saturation,
                            intensity: inst.intensity.0,
                        },
                    );
                },
                EffectParams::DamageVignette(p) => {
                    b.damage_vignettes.push(
                        ExtractedDamageVignette {
                            color: p.color,
                            size: p.size,
                            softness: p.softness,
                            pulse_frequency: p.pulse_frequency,
                            intensity: inst.intensity.0,
                        },
                    );
                },
                EffectParams::ScreenFlash(p) => {
                    b.screen_flashes.push(
                        ExtractedScreenFlash {
                            color: p.color,
                            blend: p.blend,
                            intensity: inst.intensity.0,
                        },
                    );
                },
                _ => {},
            }
        }
        i = i + 1;
    }
    proof {
        assert(s.take(s.len() as int) =~= s);
    }
    let ghost screen_waves = b.shockwaves@;
    match cam {
        Option::None => {
            proof {
                assert(b.shockwaves@ =~= selected(s, screen_shockwave_sel(target))
                    + world_shockwaves_for(s, *cam, target));
                assert(b.world_heat_shimmers@ =~= shimmers_for(s, *cam, target));
            }
        },
        Option::Some(c) => {
            proof {
                assert(b.shockwaves@ =~= screen_waves + selected(
                    s.take(0),
                    world_shockwave_sel(*c, target),
                ));
            }
            let mut i: usize = 0;
            while i < snapshot.len()
                invariant
                    i <= s.len(),
                    snapshot@ == s,
                    wf_snapshot(s),
                    c.wf(),
                    b.shockwaves@ == screen_waves + selected(
                        s.take(i as int),
                        world_shockwave_sel(*c, target),
                    ),
                    b.radial_blurs@ == selected(s, radial_blur_sel(target)),
                    b.raindrops@ == selected(s, raindrops_sel(target)),
                    b.rgb_splits@ == selected(s, rgb_split_sel(target)),
                    b.emp_interferences@ == selected(s, emp_sel(target)),
                    b.crts@ == selected(s, crt_sel(target)),
                    b.damage_vignettes@ == selected(s, vignette_sel(target)),
                    b.screen_flashes@ == selected(s, flash_sel(target)),
                    b.world_heat_shimmers@.len() == 0,
                    b.glitches@.len() == 0,
                decreases s.len() - i,
            {
                proof {
                    assert(s.take(i + 1).drop_last() =~= s.take(i as int));
                    assert(s.take(i + 1).last() == s[i as int]);
                }
                let inst = snapshot[i];
                if inst.is_active() && same_target(inst.target, target) {
                    match inst.params {
                        EffectParams::WorldShockwave(p) => {
                            let progress = inst.lifetime.progress();
                            match extract_world_shockwave(c, &p, inst.intensity.0, progress) {
                                Option::Some(rec) => {
                                    b.shockwaves.push(rec);
                                    proof {
                                        let rest = selected(
                                            s.take(i as int),
                                            world_shockwave_sel(*c, target),
                                        );
                                        assert((screen_waves + rest).push(rec) =~= screen_waves
                                            + rest.push(rec));
                                    }
                                },
                                Option::None => {},
                            }
                        },
                        _ => {},
                    }
                }
                i = i + 1;
            }
            proof {
                assert(s.take(s.len() as int) =~= s);
                assert(b.world_heat_shimmers@ =~= selected(s.take(0), shimmer_sel(*c, target)));
            }
            let mut i: usize = 0;
            while i < snapshot.len()
                invariant
                    i <= s.len(),
                    snapshot@ == s,
                    wf_snapshot(s),
                    c.wf(),
                    b.world_heat_shimmers@ == selected(s.take(i as int), shimmer_sel(*c, target)),
                    b.shockwaves@ == selected(s, screen_shockwave_sel(target)) + selected(
                        s,
                        world_shockwave_sel(*c, target),
                    ),
                    b.radial_blurs@ == selected(s, radial_blur_sel(target)),
                    b.raindrops@ == selected(s, raindrops_sel(target)),
                    b.rgb_splits@ == selected(s, rgb_split_sel(target)),
                    b.emp_interferences@ == selected(s, emp_sel(target)),
                    b.crts@ == selected(s, crt_sel(target)),
                    b.damage_vignettes@ == selected(s, vignette_sel(target)),
                    b.screen_flashes@ == selected(s, flash_sel(target)),
                    b.glitches@.len() == 0,
                decreases s.len() - i,
            {
                proof {
                    assert(s.take(i + 1).drop_last() =~= s.take(i as int));
                    assert(s.take(i + 1).last() == s[i as int]);
                }
                let inst = snapshot[i];
                if inst.is_active() && same_target(inst.target, target) {
                    match inst.params {
                        EffectParams::WorldHeatShimmer(p) => {
                            match extract_world_heat_shimmer(c, &p, inst.intensity.0) {
                                Option::Some(rec) => {
                                    b.world_heat_shimmers.push(rec);
                                },
                                Option::None => {},
                            }
                        },
                        _ => {},
                    }
                }
                i = i + 1;
            }
            proof {
                assert(s.take(s.len() as int) =~= s);
            }
        },
    }
    match aggregate_glitch(snapshot, target) {
        Option::Some(g) => {
            b.glitches.push(g);
            proof {
                assert(b.glitches@ =~= glitch_seq(s, target));
            }
        },
        Option::None => {
            proof {
                assert(b.glitches@ =~= glitch_seq(s, target));
            }
        },
    }
    b
}

/// The distinct targets present in the snapshot, in first-occurrence
/// order.
pub open spec fn distinct_targets(s: Seq<EffectInstance>) -> Seq<Option<ViewId>>
    decreases s.len(),
{
    if s.len() == 0 {
        Seq::empty()
    } else {
        let rest = distinct_targets(s.drop_last());
        if rest.contains(s.last().target) {
            rest
        } else {
            rest.push(s.last().target)
        }
    }
}

/// Whether the list already holds the target.
fn contains_target(v: &Vec<Option<ViewId>>, t: Option<ViewId>) -> (r: bool)
    ensures
        r == v@.contains(t),
{
    let mut j: usize = 0;
    while j < v.len()
        invariant
            j <= v@.len(),
            forall|k: int| 0 <= k < j ==> v@[k] != t,
        decreases v@.len() - j,
    {
        if same_target(v[j], t) {
            assert(v@[j as int] == t);
            return true;
        }
        j = j + 1;
    }
    assert(!v@.contains(t));
    false
}

/// The distinct targets present in the snapshot, in first-occurrence
/// order.
fn collect_targets(snapshot: &Vec<EffectInstance>) -> (r: Vec<Option<ViewId>>)
    ensures
        r@ == distinct_targets(snapshot@),
{
    let ghost s = snapshot@;
    let mut r: Vec<Option<ViewId>> = Vec::new();
    let mut i: usize = 0;
    while i < snapshot.len()
        invariant
            i <= s.len(),
            snapshot@ == s,
            r@ == distinct_targets(s.take(i as int)),
        decreases s.len() - i,
    {
        proof {
            assert(s.take(i + 1).drop_last() =~= s.take(i as int));
            assert(s.take(i + 1).last() == s[i as int]);
        }
        let t = snapshot[i].target;
        if !contains_target(&r, t) {
            r.push(t);
        }
        i = i + 1;
    }
    proof {
        assert(s.take(s.len() as int) =~= s);
    }
    r
}

/// All extracted effects for the current frame, keyed by target: one
/// bucket per distinct target, rebuilt from scratch every frame.  The
/// `None` key holds effects that apply to all views.
#[derive(PartialEq, Eq, Debug)]
pub struct ExtractedEffects {
    pub buckets: Vec<(Option<ViewId>, EffectBucket)>,
    /// Elapsed application time, fixed-point seconds.
    pub time: i64,
    /// Frame delta, fixed-point seconds.
    pub delta_time: i64,
}

/// Extract all effect data for one frame: one bucket per distinct
/// target present in the snapshot, in first-occurrence order; each
/// bucket holds exactly the records its target's extraction rules
/// select.  World-anchored effects are skipped when there is no primary
/// camera.
pub fn extract_effects(
    snapshot: &Vec<EffectInstance>,
    cam: &Option<CameraView>,
    time: i64,
    delta_time: i64,
) -> (r: ExtractedEffects)
    requires
        wf_snapshot(snapshot@),
        (*cam) is Some ==> (*cam)->Some_0.wf(),
    ensures
        r.time == time,
        r.delta_time == delta_time,
        r.buckets@.len() == distinct_targets(snapshot@).len(),
        forall|j: int|
            0 <= j < r.buckets@.len() ==> (#[trigger] r.buckets@[j]).0 == distinct_targets(
                snapshot@,
            )[j],
        forall|j: int|
            0 <= j < r.buckets@.len() ==> bucket_matches(#[trigger] r.buckets@[j], snapshot@, *cam),
{
    let targets = collect_targets(snapshot);
    let mut buckets: Vec<(Option<ViewId>, EffectBucket)> = Vec::new();
    let mut i: usize = 0;
    while i < targets.len()
        invariant
            i <= targets@.len(),
            targets@ == distinct_targets(snapshot@),
            wf_snapshot(snapshot@),
            (*cam) is Some ==> (*cam)->Some_0.wf(),
            buckets@.len() == i,
            forall|j: int| 0 <= j < i ==> (#[trigger] buckets@[j]).0 == targets@[j],
            forall|j: int|
                0 <= j < i ==> bucket_matches(#[trigger] buckets@[j], snapshot@, *cam),
        decreases targets@.len() - i,
    {
        let t = targets[i];
        let bucket = build_bucket(snapshot, cam, t);
        buckets.push((t, bucket));
        i = i + 1;
    }
    ExtractedEffects { buckets, time, delta_time }
}

} // verus!
