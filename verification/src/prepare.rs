//! Preparation: from extracted buckets to per-pass parameter blocks.
//!
//! Exactly one representative record per effect type per bucket supplies
//! the pass parameters (consistently the first-seen record of the frame);
//! additional concurrent records of that type are counted but not
//! blended.  Parameter blocks are plain data: the host uploads them to
//! device buffers, rewriting them every frame they are used.

use vstd::prelude::*;

use crate::effect::ViewId;
use crate::extract::{EffectBucket, ExtractedEffects, ScreenBounds};
use crate::fx::{Fx2, Rgba, FX_ONE};

verus! {

/// Shockwave pass parameters.
#[derive(Clone, Copy, PartialEq, Eq, Structural, Debug)]
pub struct ShockwaveUniforms {
    pub center: Fx2,
    pub intensity: i64,
    pub progress: i64,
    pub ring_width: i64,
    pub max_radius: i64,
    pub chromatic: u32,
}

/// Radial blur pass parameters.
#[derive(Clone, Copy, PartialEq, Eq, Structural, Debug)]
pub struct RadialBlurUniforms {
    pub center: Fx2,
    pub intensity: i64,
    pub samples: u32,
}

/// RGB split pass parameters.
#[derive(Clone, Copy, PartialEq, Eq, Structural, Debug)]
pub struct RgbSplitUniforms {
    pub red_offset: Fx2,
    pub green_offset: Fx2,
    pub blue_offset: Fx2,
    pub intensity: i64,
}

/// Combined glitch pass parameters.
#[derive(Clone, Copy, PartialEq, Eq, Structural, Debug)]
pub struct GlitchUniforms {
    pub time: i64,
    pub intensity: i64,
    pub rgb_split_amount: i64,
    pub scanline_density: i64,
    pub block_size: Fx2,
    pub noise_amount: i64,
}

/// Damage vignette pass parameters.
#[derive(Clone, Copy, PartialEq, Eq, Structural, Debug)]
pub struct DamageVignetteUniforms {
    pub color: Rgba,
    pub size: i64,
    pub softness: i64,
    pub pulse_frequency: i64,
    pub time: i64,
    pub intensity: i64,
}

/// Screen flash pass parameters.
#[derive(Clone, Copy, PartialEq, Eq, Structural, Debug)]
pub struct ScreenFlashUniforms {
    pub color: Rgba,
    pub blend: i64,
    pub intensity: i64,
}

/// Raindrops pass parameters.
#[derive(Clone, Copy, PartialEq, Eq, Structural, Debug)]
pub struct RaindropsUniforms {
    pub time: i64,
    pub intensity: i64,
    pub drop_size: i64,
    pub density: i64,
    pub speed: i64,
    pub refraction: i64,
    pub trail_strength: i64,
}

/// EMP interference pass parameters.
#[derive(Clone, Copy, PartialEq, Eq, Structural, Debug)]
pub struct EmpUniforms {
    pub time: i64,
    pub intensity: i64,
    pub flicker_rate: i64,
    pub flicker_strength: i64,
    pub band_count: i64,
    pub band_intensity: i64,
    pub band_speed: i64,
    pub static_intensity: i64,
    pub burst_probability: i64,
    pub scanline_displacement: i64,
    pub chromatic_amount: i64,
}

/// CRT pass parameters.  The physical viewport size feeds the
/// resolution-dependent scanline density.
#[derive(Clone, Copy, PartialEq, Eq, Structural, Debug)]
pub struct CrtUniforms {
    pub time: i64,
    pub intensity: i64,
    pub scanline_intensity: i64,
    pub scanline_count: i64,
    pub curvature: i64,
    pub corner_radius: i64,
    pub phosphor_type: u32,
    pub phosphor_intensity: i64,
    pub bloom: i64,
    pub vignette: i64,
    pub flicker: i64,
    pub color_bleed: i64,
    pub brightness: i64,
    pub saturation: i64,
    pub screen_width: i64,
    pub screen_height: i64,
    pub mask_shape: u32,
}

/// World heat shimmer pass parameters.
#[derive(Clone, Copy, PartialEq, Eq, Structural, Debug)]
pub struct WorldHeatShimmerUniforms {
    pub bounds: ScreenBounds,
    pub amplitude: i64,
    pub frequency: i64,
    pub speed: i64,
    pub softness: i64,
    pub time: i64,
    pub intensity: i64,
}

/// Prepared pass data for one bucket: per effect type, the parameter
/// block of the representative record (if any) and the number of
/// contributing records.
#[derive(Clone, Copy, PartialEq, Eq, Structural, Debug)]
pub struct PreparedBucket {
    pub shockwave: Option<ShockwaveUniforms>,
    pub shockwave_count: usize,
    pub radial_blur: Option<RadialBlurUniforms>,
    pub radial_blur_count: usize,
    pub raindrops: Option<RaindropsUniforms>,
    pub raindrops_count: usize,
    pub rgb_split: Option<RgbSplitUniforms>,
    pub rgb_split_count: usize,
    pub glitch: Option<GlitchUniforms>,
    pub has_glitch: bool,
    pub emp: Option<EmpUniforms>,
    pub emp_count: usize,
    pub vignette: Option<DamageVignetteUniforms>,
    pub vignette_count: usize,
    pub flash: Option<ScreenFlashUniforms>,
    pub flash_count: usize,
    pub world_heat_shimmer: Option<WorldHeatShimmerUniforms>,
    pub world_heat_shimmer_count: usize,
    pub crt: Option<CrtUniforms>,
    pub crt_count: usize,
}

impl PreparedBucket {
    /// Whether any pass of this bucket has at least one contributing
    /// record.
    pub open spec fn has_any_effects_spec(&self) -> bool {
        ||| self.shockwave_count > 0
        ||| self.radial_blur_count > 0
        ||| self.raindrops_count > 0
        ||| self.rgb_split_count > 0
        ||| self.has_glitch
        ||| self.emp_count > 0
        ||| self.vignette_count > 0
        ||| self.flash_count > 0
        ||| self.world_heat_shimmer_count > 0
        ||| self.crt_count > 0
    }

    /// Whether any pass of this bucket has at least one contributing
    /// record.
    pub fn has_any_effects(&self) -> (r: bool)
        ensures
            r == self.has_any_effects_spec(),
    {
        self.shockwave_count > 0 || self.radial_blur_count > 0 || self.raindrops_count > 0
            || self.rgb_split_count > 0 || self.has_glitch || self.emp_count > 0
            || self.vignette_count > 0 || self.flash_count > 0
            || self.world_heat_shimmer_count > 0 || self.crt_count > 0
    }
}

/// The CRT screen width used when no viewport size is known.
pub open spec fn viewport_width_fx(viewport: Option<(u32, u32)>) -> int {
    match viewport {
        Some(v) => v.0 * (FX_ONE as int),
        None => 1_920 * (FX_ONE as int),
    }
}

/// The CRT screen height used when no viewport size is known.
pub open spec fn viewport_height_fx(viewport: Option<(u32, u32)>) -> int {
    match viewport {
        Some(v) => v.1 * (FX_ONE as int),
        None => 1_080 * (FX_ONE as int),
    }
}

/// The prepared data of one bucket: for each effect type, the first
/// extracted record supplies the parameter block and the record count is
/// kept for pass-run decisions.
pub open spec fn prepared_bucket_of(
    b: EffectBucket,
    time: i64,
    viewport: Option<(u32, u32)>,
) -> PreparedBucket {
    PreparedBucket {
        shockwave: if b.shockwaves@.len() > 0 {
            Some(
                ShockwaveUniforms {
                    center: b.shockwaves@[0].center,
                    intensity: b.shockwaves@[0].intensity,
                    progress: b.shockwaves@[0].progress,
                    ring_width: b.shockwaves@[0].ring_width,
                    max_radius: b.shockwaves@[0].max_radius,
                    chromatic: if b.shockwaves@[0].chromatic {
                        1u32
                    } else {
                        0u32
                    },
                },
            )
        } else {
            None
        },
        shockwave_count: b.shockwaves@.len() as usize,
        radial_blur: if b.radial_blurs@.len() > 0 {
            Some(
                RadialBlurUniforms {
                    center: b.radial_blurs@[0].center,
                    intensity: b.radial_blurs@[0].intensity,
                    samples: b.radial_blurs@[0].samples,
                },
            )
        } else {
            None
        },
        radial_blur_count: b.radial_blurs@.len() as usize,
        raindrops: if b.raindrops@.len() > 0 {
            Some(
                RaindropsUniforms {
                    time,
                    intensity: b.raindrops@[0].intensity,
                    drop_size: b.raindrops@[0].drop_size,
                    density: b.raindrops@[0].density,
                    speed: b.raindrops@[0].speed,
                    refraction: b.raindrops@[0].refraction,
                    trail_strength: b.raindrops@[0].trail_strength,
                },
            )
        } else {
            None
        },
        raindrops_count: b.raindrops@.len() as usize,
        rgb_split: if b.rgb_splits@.len() > 0 {
            Some(
                RgbSplitUniforms {
                    red_offset: b.rgb_splits@[0].red_offset,
                    green_offset: b.rgb_splits@[0].green_offset,
                    blue_offset: b.rgb_splits@[0].blue_offset,
                    intensity: b.rgb_splits@[0].intensity,
                },
            )
        } else {
            None
        },
        rgb_split_count: b.rgb_splits@.len() as usize,
        glitch: if b.glitches@.len() > 0 {
            Some(
                GlitchUniforms {
                    time,
                    intensity: b.glitches@[0].intensity,
                    rgb_split_amount: b.glitches@[0].rgb_split_amount,
                    scanline_density: b.glitches@[0].scanline_density,
                    block_size: b.glitches@[0].block_size,
                    noise_amount: b.glitches@[0].noise_amount,
                },
            )
        } else {
            None
        },
        has_glitch: b.glitches@.len() > 0,
        emp: if b.emp_interferences@.len() > 0 {
            Some(
                EmpUniforms {
                    time,
                    intensity: b.emp_interferences@[0].intensity,
                    flicker_rate: b.emp_interferences@[0].flicker_rate,
                    flicker_strength: b.emp_interferences@[0].flicker_strength,
                    band_count: b.emp_interferences@[0].band_count,
                    band_intensity: b.emp_interferences@[0].band_intensity,
                    band_speed: b.emp_interferences@[0].band_speed,
                    static_intensity: b.emp_interferences@[0].static_intensity,
                    burst_probability: b.emp_interferences@[0].burst_probability,
                    scanline_displacement: b.emp_interferences@[0].scanline_displacement,
                    chromatic_amount: b.emp_interferences@[0].chromatic_amount,
                },
            )
        } else {
            None
        },
        emp_count: b.emp_interferences@.len() as usize,
        vignette: if b.damage_vignettes@.len() > 0 {
            Some(
                DamageVignetteUniforms {
                    color: b.damage_vignettes@[0].color,
                    size: b.damage_vignettes@[0].size,
                    softness: b.damage_vignettes@[0].softness,
                    pulse_frequency: b.damage_vignettes@[0].pulse_frequency,
                    time,
                    intensity: b.damage_vignettes@[0].intensity,
                },
            )
        } else {
            None
        },
        vignette_count: b.damage_vignettes@.len() as usize,
        flash: if b.screen_flashes@.len() > 0 {
            Some(
                ScreenFlashUniforms {
                    color: b.screen_flashes@[0].color,
                    blend: b.screen_flashes@[0].blend,
                    intensity: b.screen_flashes@[0].intensity,
                },
            )
        } else {
            None
        },
        flash_count: b.screen_flashes@.len() as usize,
        world_heat_shimmer: if b.world_heat_shimmers@.len() > 0 {
            Some(
                WorldHeatShimmerUniforms {
                    bounds: b.world_heat_shimmers@[0].bounds,
                    amplitude: b.world_heat_shimmers@[0].amplitude,
                    frequency: b.world_heat_shimmers@[0].frequency,
                    speed: b.world_heat_shimmers@[0].speed,
                    softness: b.world_heat_shimmers@[0].softness,
                    time,
                    intensity: b.world_heat_shimmers@[0].intensity,
                },
            )
        } else {
            None
        },
        world_heat_shimmer_count: b.world_heat_shimmers@.len() as usize,
        crt: if b.crts@.len() > 0 {
            Some(
                CrtUniforms {
                    time,
                    intensity: b.crts@[0].intensity,
                    scanline_intensity: b.crts@[0].scanline_intensity,
                    scanline_count: b.crts@[0].scanline_count,
                    curvature: b.crts@[0].curvature,
                    corner_radius: b.crts@[0].corner_radius,
                    phosphor_type: b.crts@[0].phosphor_type,
                    phosphor_intensity: b.crts@[0].phosphor_intensity,
                    bloom: b.crts@[0].bloom,
                    vignette: b.crts@[0].vignette,
                    flicker: b.crts@[0].flicker,
                    color_bleed: b.crts@[0].color_bleed,
                    brightness: b.crts@[0].brightness,
                    saturation: b.crts@[0].saturation,
                    screen_width: viewport_width_fx(viewport) as i64,
                    screen_height: viewport_height_fx(viewport) as i64,
                    mask_shape: b.crts@[0].mask_shape,
                },
            )
        } else {
            None
        },
        crt_count: b.crts@.len() as usize,
    }
}

/// Prepare one bucket: pick each type's representative record (the first
/// extracted) and keep the contributing counts.
pub fn prepare_bucket(bucket: &EffectBucket, time: i64, viewport: Option<(u32, u32)>) -> (p:
    PreparedBucket)
    ensures
        p == prepared_bucket_of(*bucket, time, viewport),
{
    let (screen_width, screen_height): (i64, i64) = match viewport {
        Option::Some(v) => ((v.0 as i64) * FX_ONE, (v.1 as i64) * FX_ONE),
        Option::None => (1_920 * FX_ONE, 1_080 * FX_ONE),
    };
    PreparedBucket {
        shockwave: if bucket.shockwaves.len() > 0 {
            let r = bucket.shockwaves[0];
            Some(
                ShockwaveUniforms {
                    center: r.center,
                    intensity: r.intensity,
                    progress: r.progress,
                    ring_width: r.ring_width,
                    max_radius: r.max_radius,
                    chromatic: if r.chromatic {
                        1
                    } else {
                        0
                    },
                },
            )
        } else {
            None
        },
        shockwave_count: bucket.shockwaves.len(),
        radial_blur: if bucket.radial_blurs.len() > 0 {
            let r = bucket.radial_blurs[0];
            Some(RadialBlurUniforms { center: r.center, intensity: r.intensity, samples: r.samples })
        } else {
            None
        },
        radial_blur_count: bucket.radial_blurs.len(),
        raindrops: if bucket.raindrops.len() > 0 {
            let r = bucket.raindrops[0];
            Some(
                RaindropsUniforms {
                    time,
                    intensity: r.intensity,
                    drop_size: r.drop_size,
                    density: r.density,
                    speed: r.speed,
                    refraction: r.refraction,
                    trail_strength: r.trail_strength,
                },
            )
        } else {
            None
        },
        raindrops_count: bucket.raindrops.len(),
        rgb_split: if bucket.rgb_splits.len() > 0 {
            let r = bucket.rgb_splits[0];
            Some(
                RgbSplitUniforms {
                    red_offset: r.red_offset,
                    green_offset: r.green_offset,
                    blue_offset: r.blue_offset,
                    intensity: r.intensity,
                },
            )
        } else {
            None
        },
        rgb_split_count: bucket.rgb_splits.len(),
        glitch: if bucket.glitches.len() > 0 {
            let r = bucket.glitches[0];
            Some(
                GlitchUniforms {
                    time,
                    intensity: r.intensity,
                    rgb_split_amount: r.rgb_split_amount,
                    scanline_density: r.scanline_density,
                    block_size: r.block_size,
                    noise_amount: r.noise_amount,
                },
            )
        } else {
            None
        },
        has_glitch: bucket.glitches.len() > 0,
        emp: if bucket.emp_interferences.len() > 0 {
            let r = bucket.emp_interferences[0];
            Some(
                EmpUniforms {
                    time,
                    intensity: r.intensity,
                    flicker_rate: r.flicker_rate,
                    flicker_strength: r.flicker_strength,
                    band_count: r.band_count,
                    band_intensity: r.band_intensity,
                    band_speed: r.band_speed,
                    static_intensity: r.static_intensity,
                    burst_probability: r.burst_probability,
                    scanline_displacement: r.scanline_displacement,
                    chromatic_amount: r.chromatic_amount,
                },
            )
        } else {
            None
        },
        emp_count: bucket.emp_interferences.len(),
        vignette: if bucket.damage_vignettes.len() > 0 {
            let r = bucket.damage_vignettes[0];
            Some(
                DamageVignetteUniforms {
                    color: r.color,
                    size: r.size,
                    softness: r.softness,
                    pulse_frequency: r.pulse_frequency,
                    time,
                    intensity: r.intensity,
                },
            )
        } else {
            None
        },
        vignette_count: bucket.damage_vignettes.len(),
        flash: if bucket.screen_flashes.len() > 0 {
            let r = bucket.screen_flashes[0];
            Some(ScreenFlashUniforms { color: r.color, blend: r.blend, intensity: r.intensity })
        } else {
            None
        },
        flash_count: bucket.screen_flashes.len(),
        world_heat_shimmer: if bucket.world_heat_shimmers.len() > 0 {
            let r = bucket.world_heat_shimmers[0];
            Some(
                WorldHeatShimmerUniforms {
                    bounds: r.bounds,
                    amplitude: r.amplitude,
                    frequency: r.frequency,
                    speed: r.speed,
                    softness: r.softness,
                    time,
                    intensity: r.intensity,
                },
            )
        } else {
            None
        },
        world_heat_shimmer_count: bucket.world_heat_shimmers.len(),
        crt: if bucket.crts.len() > 0 {
            let r = bucket.crts[0];
            Some(
                CrtUniforms {
                    time,
                    intensity: r.intensity,
                    scanline_intensity: r.scanline_intensity,
                    scanline_count: r.scanline_count,
                    curvature: r.curvature,
                    corner_radius: r.corner_radius,
                    phosphor_type: r.phosphor_type,
                    phosphor_intensity: r.phosphor_intensity,
                    bloom: r.bloom,
                    vignette: r.vignette,
                    flicker: r.flicker,
                    color_bleed: r.color_bleed,
                    brightness: r.brightness,
                    saturation: r.saturation,
                    screen_width,
                    screen_height,
                    mask_shape: r.mask_shape,
                },
            )
        } else {
            None
        },
        crt_count: bucket.crts.len(),
    }
}

/// Prepared pass data for all buckets of the frame, keyed by target.
/// The `None` key holds effects that apply to all views.
#[derive(PartialEq, Eq, Debug)]
pub struct PreparedEffects {
    pub buckets: Vec<(Option<ViewId>, PreparedBucket)>,
}

/// The prepared entries of the frame: the nonempty extracted buckets, in
/// order, each turned into its prepared form.
pub open spec fn prepare_seq(
    bs: Seq<(Option<ViewId>, EffectBucket)>,
    time: i64,
    viewport: Option<(u32, u32)>,
) -> Seq<(Option<ViewId>, PreparedBucket)>
    decreases bs.len(),
{
    if bs.len() == 0 {
        Seq::empty()
    } else {
        let rest = prepare_seq(bs.drop_last(), time, viewport);
        if bs.last().1.has_any_spec() {
            rest.push((bs.last().0, prepared_bucket_of(bs.last().1, time, viewport)))
        } else {
            rest
        }
    }
}

/// Prepare every nonempty extracted bucket; empty buckets are dropped
/// (structural absence makes the compositing stage a zero-cost no-op).
pub fn prepare_effects(extracted: &ExtractedEffects, viewport: Option<(u32, u32)>) -> (r:
    PreparedEffects)
    ensures
        r.buckets@ == prepare_seq(extracted.buckets@, extracted.time, viewport),
{
    let ghost bs = extracted.buckets@;
    let mut out: Vec<(Option<ViewId>, PreparedBucket)> = Vec::new();
    let mut i: usize = 0;
    while i < extracted.buckets.len()
        invariant
            i <= bs.len(),
            extracted.buckets@ == bs,
            out@ == prepare_seq(bs.take(i as int), extracted.time, viewport),
        decreases bs.len() - i,
    {
        proof {
            assert(bs.take(i + 1).drop_last() =~= bs.take(i as int));
            assert(bs.take(i + 1).last() == bs[i as int]);
        }
        let entry = &extracted.buckets[i];
        if entry.1.has_any() {
            let p = prepare_bucket(&entry.1, extracted.time, viewport);
            let key = entry.0;
            out.push((key, p));
        }
        i = i + 1;
    }
    proof {
        assert(bs.take(bs.len() as int) =~= bs);
    }
    PreparedEffects { buckets: out }
}

} // verus!
