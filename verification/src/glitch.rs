//! Digital glitch screen effects.
//!
//! These effects simulate digital artifacts, interference, and corruption.
//! The scanline, block-displacement and static-noise records form the
//! "glitch family": the per-frame pipeline merges all three into a single
//! combined pass per bucket (see [`crate::extract`]).

use vstd::prelude::*;

use crate::fx::{clamp_unit, fx_clamp_unit, Fx2};

verus! {

/// RGB channel split / chromatic aberration effect.
#[derive(Clone, Copy, PartialEq, Eq, Structural, Debug)]
pub struct RgbSplit {
    /// Red channel offset.
    pub red_offset: Fx2,
    /// Green channel offset (usually zero).
    pub green_offset: Fx2,
    /// Blue channel offset.
    pub blue_offset: Fx2,
    /// Whether offsets should animate/jitter.
    pub animated: bool,
}

impl Default for RgbSplit {
    fn default() -> (r: Self)
        ensures
            r == RgbSplit::default_spec(),
    {
        RgbSplit {
            red_offset: Fx2 { x: -10_000, y: 0 },
            green_offset: Fx2 { x: 0, y: 0 },
            blue_offset: Fx2 { x: 10_000, y: 0 },
            animated: true,
        }
    }
}

impl RgbSplit {
    /// The default parameter record, as a spec-level value.
    pub open spec fn default_spec() -> RgbSplit {
        RgbSplit {
            red_offset: Fx2 { x: -10_000i64, y: 0 },
            green_offset: Fx2 { x: 0, y: 0 },
            blue_offset: Fx2 { x: 10_000, y: 0 },
            animated: true,
        }
    }

    /// Create with a simple horizontal split.
    pub fn horizontal(amount: i64) -> (r: Self)
        requires
            -i64::MAX <= amount,
        ensures
            r == (RgbSplit {
                red_offset: Fx2 { x: (-amount) as i64, y: 0 },
                green_offset: Fx2 { x: 0, y: 0 },
                blue_offset: Fx2 { x: amount, y: 0 },
                animated: false,
            }),
    {
        RgbSplit {
            red_offset: Fx2 { x: -amount, y: 0 },
            green_offset: Fx2 { x: 0, y: 0 },
            blue_offset: Fx2 { x: amount, y: 0 },
            animated: false,
        }
    }

    /// Create with a diagonal split: the vertical offset is half the
    /// horizontal one.
    pub fn diagonal(amount: i64) -> (r: Self)
        requires
            -i64::MAX <= amount,
        ensures
            r == (RgbSplit {
                red_offset: Fx2 {
                    x: (-amount) as i64,
                    y: (-crate::fx::div_to_zero(amount as int, 2)) as i64,
                },
                green_offset: Fx2 { x: 0, y: 0 },
                blue_offset: Fx2 { x: amount, y: crate::fx::div_to_zero(amount as int, 2) as i64 },
                animated: false,
            }),
    {
        let half: i64 = amount / 2;
        RgbSplit {
            red_offset: Fx2 { x: -amount, y: -half },
            green_offset: Fx2 { x: 0, y: 0 },
            blue_offset: Fx2 { x: amount, y: half },
            animated: false,
        }
    }
}

/// Scanline glitch effect: horizontal lines of the image are displaced.
#[derive(Clone, Copy, PartialEq, Eq, Structural, Debug)]
pub struct ScanlineGlitch {
    /// Probability of a scanline being affected (`0` to `1`).
    pub density: i64,
    /// Maximum horizontal displacement.
    pub displacement: i64,
    /// Scanline thickness in pixels.
    pub line_height: i64,
    /// How fast glitch lines change.
    pub flicker_speed: i64,
}

impl Default for ScanlineGlitch {
    fn default() -> (r: Self)
        ensures
            r == ScanlineGlitch::default_spec(),
    {
        ScanlineGlitch {
            density: 100_000,
            displacement: 50_000,
            line_height: 2_000_000,
            flicker_speed: 30_000_000,
        }
    }
}

impl ScanlineGlitch {
    /// The default parameter record, as a spec-level value.
    pub open spec fn default_spec() -> ScanlineGlitch {
        ScanlineGlitch {
            density: 100_000,
            displacement: 50_000,
            line_height: 2_000_000,
            flicker_speed: 30_000_000,
        }
    }
}

/// Block displacement / datamosh glitch effect: rectangular blocks of the
/// image are displaced, simulating video compression artifacts.
#[derive(Clone, Copy, PartialEq, Eq, Structural, Debug)]
pub struct BlockDisplacement {
    /// Size of displacement blocks (as fraction of screen).
    pub block_size: Fx2,
    /// Maximum displacement distance.
    pub max_displacement: i64,
    /// Probability of a block being displaced.
    pub probability: i64,
    /// How often blocks update.
    pub update_rate: i64,
}

impl Default for BlockDisplacement {
    fn default() -> (r: Self)
        ensures
            r == BlockDisplacement::default_spec(),
    {
        BlockDisplacement {
            block_size: Fx2 { x: 100_000, y: 50_000 },
            max_displacement: 100_000,
            probability: 300_000,
            update_rate: 15_000_000,
        }
    }
}

impl BlockDisplacement {
    /// The default parameter record, as a spec-level value.
    pub open spec fn default_spec() -> BlockDisplacement {
        BlockDisplacement {
            block_size: Fx2 { x: 100_000, y: 50_000 },
            max_displacement: 100_000,
            probability: 300_000,
            update_rate: 15_000_000,
        }
    }
}

/// Static noise / interference effect.
#[derive(Clone, Copy, PartialEq, Eq, Structural, Debug)]
pub struct StaticNoise {
    /// Noise density/grain size.
    pub grain_size: i64,
    /// Colour vs monochrome noise (`0` mono, `1` full colour).
    pub color_amount: i64,
    /// How noise is blended (`0` additive, `1` replace).
    pub blend_mode: i64,
}

impl Default for StaticNoise {
    fn default() -> (r: Self)
        ensures
            r == StaticNoise::default_spec(),
    {
        StaticNoise { grain_size: 1_000_000, color_amount: 0, blend_mode: 300_000 }
    }
}

impl StaticNoise {
    /// The default parameter record, as a spec-level value.
    pub open spec fn default_spec() -> StaticNoise {
        StaticNoise { grain_size: 1_000_000, color_amount: 0, blend_mode: 300_000 }
    }
}

/// EMP / electronic interference effect: flickering, shifting colour
/// bands, static bursts, scanline disruption and channel separation.
#[derive(Clone, Copy, PartialEq, Eq, Structural, Debug)]
pub struct EmpInterference {
    /// Flicker frequency (higher = faster flashing).
    pub flicker_rate: i64,
    /// Flicker intensity (`0` to `1`).
    pub flicker_strength: i64,
    /// Number of colour bands across the screen.
    pub band_count: i64,
    /// How much the bands shift colours.
    pub band_intensity: i64,
    /// Speed at which bands scroll.
    pub band_speed: i64,
    /// Static noise intensity (`0` to `1`).
    pub static_intensity: i64,
    /// Probability of static bursts (`0` to `1`).
    pub burst_probability: i64,
    /// Scanline displacement amount.
    pub scanline_displacement: i64,
    /// RGB channel separation amount.
    pub chromatic_amount: i64,
}

impl Default for EmpInterference {
    fn default() -> (r: Self)
        ensures
            r == EmpInterference::default_spec(),
    {
        EmpInterference {
            flicker_rate: 30_000_000,
            flicker_strength: 300_000,
            band_count: 8_000_000,
            band_intensity: 400_000,
            band_speed: 2_000_000,
            static_intensity: 200_000,
            burst_probability: 100_000,
            scanline_displacement: 20_000,
            chromatic_amount: 10_000,
        }
    }
}

impl EmpInterference {
    /// The default parameter record, as a spec-level value.
    pub open spec fn default_spec() -> EmpInterference {
        EmpInterference {
            flicker_rate: 30_000_000,
            flicker_strength: 300_000,
            band_count: 8_000_000,
            band_intensity: 400_000,
            band_speed: 2_000_000,
            static_intensity: 200_000,
            burst_probability: 100_000,
            scanline_displacement: 20_000,
            chromatic_amount: 10_000,
        }
    }

    /// Light interference - subtle electronic glitching.
    pub fn light() -> (r: Self)
        ensures
            r == (EmpInterference {
                flicker_rate: 15_000_000,
                flicker_strength: 150_000,
                band_count: 4_000_000,
                band_intensity: 200_000,
                band_speed: 1_000_000,
                static_intensity: 100_000,
                burst_probability: 50_000,
                scanline_displacement: 10_000,
                chromatic_amount: 5_000,
            }),
    {
        EmpInterference {
            flicker_rate: 15_000_000,
            flicker_strength: 150_000,
            band_count: 4_000_000,
            band_intensity: 200_000,
            band_speed: 1_000_000,
            static_intensity: 100_000,
            burst_probability: 50_000,
            scanline_displacement: 10_000,
            chromatic_amount: 5_000,
        }
    }

    /// Heavy interference - strong EMP effect.
    pub fn heavy() -> (r: Self)
        ensures
            r == (EmpInterference {
                flicker_rate: 45_000_000,
                flicker_strength: 500_000,
                band_count: 12_000_000,
                band_intensity: 600_000,
                band_speed: 4_000_000,
                static_intensity: 400_000,
                burst_probability: 200_000,
                scanline_displacement: 40_000,
                chromatic_amount: 20_000,
            }),
    {
        EmpInterference {
            flicker_rate: 45_000_000,
            flicker_strength: 500_000,
            band_count: 12_000_000,
            band_intensity: 600_000,
            band_speed: 4_000_000,
            static_intensity: 400_000,
            burst_probability: 200_000,
            scanline_displacement: 40_000,
            chromatic_amount: 20_000,
        }
    }

    /// Critical interference - severe disruption.
    pub fn critical() -> (r: Self)
        ensures
            r == (EmpInterference {
                flicker_rate: 60_000_000,
                flicker_strength: 700_000,
                band_count: 16_000_000,
                band_intensity: 800_000,
                band_speed: 6_000_000,
                static_intensity: 600_000,
                burst_probability: 350_000,
                scanline_displacement: 60_000,
                chromatic_amount: 30_000,
            }),
    {
        EmpInterference {
            flicker_rate: 60_000_000,
            flicker_strength: 700_000,
            band_count: 16_000_000,
            band_intensity: 800_000,
            band_speed: 6_000_000,
            static_intensity: 600_000,
            burst_probability: 350_000,
            scanline_displacement: 60_000,
            chromatic_amount: 30_000,
        }
    }

    /// Radio static - more noise, less banding.
    pub fn radio_static() -> (r: Self)
        ensures
            r == (EmpInterference {
                flicker_rate: 20_000_000,
                flicker_strength: 400_000,
                band_count: 2_000_000,
                band_intensity: 100_000,
                band_speed: 500_000,
                static_intensity: 500_000,
                burst_probability: 300_000,
                scanline_displacement: 10_000,
                chromatic_amount: 5_000,
            }),
    {
        EmpInterference {
            flicker_rate: 20_000_000,
            flicker_strength: 400_000,
            band_count: 2_000_000,
            band_intensity: 100_000,
            band_speed: 500_000,
            static_intensity: 500_000,
            burst_probability: 300_000,
            scanline_displacement: 10_000,
            chromatic_amount: 5_000,
        }
    }

    /// Builder: set flicker parameters; the strength is clamped to
    /// `[0, 1]`.
    pub fn with_flicker(self, rate: i64, strength: i64) -> (r: Self)
        ensures
            r == (EmpInterference {
                flicker_rate: rate,
                flicker_strength: clamp_unit(strength as int) as i64,
                ..self
            }),
    {
        EmpInterference { flicker_rate: rate, flicker_strength: fx_clamp_unit(strength), ..self }
    }

    /// Builder: set colour band parameters; the intensity is clamped to
    /// `[0, 1]`.
    pub fn with_bands(self, count: i64, intensity: i64, speed: i64) -> (r: Self)
        ensures
            r == (EmpInterference {
                band_count: count,
                band_intensity: clamp_unit(intensity as int) as i64,
                band_speed: speed,
                ..self
            }),
    {
        EmpInterference {
            band_count: count,
            band_intensity: fx_clamp_unit(intensity),
            band_speed: speed,
            ..self
        }
    }

    /// Builder: set static noise parameters; both are clamped to `[0, 1]`.
    pub fn with_static(self, intensity: i64, burst_prob: i64) -> (r: Self)
        ensures
            r == (EmpInterference {
                static_intensity: clamp_unit(intensity as int) as i64,
                burst_probability: clamp_unit(burst_prob as int) as i64,
                ..self
            }),
    {
        EmpInterference {
            static_intensity: fx_clamp_unit(intensity),
            burst_probability: fx_clamp_unit(burst_prob),
            ..self
        }
    }

    /// Builder: set chromatic aberration amount.
    pub fn with_chromatic(self, amount: i64) -> (r: Self)
        ensures
            r == (EmpInterference { chromatic_amount: amount, ..self }),
    {
        EmpInterference { chromatic_amount: amount, ..self }
    }

    /// Builder: set scanline displacement.
    pub fn with_scanline_displacement(self, amount: i64) -> (r: Self)
        ensures
            r == (EmpInterference { scanline_displacement: amount, ..self }),
    {
        EmpInterference { scanline_displacement: amount, ..self }
    }
}

/// Phosphor mask type for CRT sub-pixel simulation.
#[derive(Clone, Copy, PartialEq, Eq, Structural, Debug, Default)]
pub enum PhosphorMask {
    /// No phosphor simulation.
    #[default]
    NoMask,
    /// Dot triad pattern (most common on TVs).
    ShadowMask,
    /// Vertical RGB stripes (high-end monitors).
    ApertureGrille,
    /// 2D repeating grid (slot-mask tubes).
    SlotMask,
}

impl PhosphorMask {
    /// The numeric tag handed to the device parameter block.
    pub open spec fn as_u32_spec(self) -> u32 {
        match self {
            PhosphorMask::NoMask => 0,
            PhosphorMask::ShadowMask => 1,
            PhosphorMask::ApertureGrille => 2,
            PhosphorMask::SlotMask => 3,
        }
    }

    /// The numeric tag handed to the device parameter block.
    pub fn as_u32(self) -> (r: u32)
        ensures
            r == self.as_u32_spec(),
    {
        match self {
            PhosphorMask::NoMask => 0,
            PhosphorMask::ShadowMask => 1,
            PhosphorMask::ApertureGrille => 2,
            PhosphorMask::SlotMask => 3,
        }
    }
}

/// Screen mask shape for the CRT border.
#[derive(Clone, Copy, PartialEq, Eq, Structural, Debug, Default)]
pub enum CrtMaskShape {
    /// Rounded rectangle (classic TV shape).
    #[default]
    RoundedRect,
    /// Elliptical mask (round CRT / oscilloscope style).
    Ellipse,
}

impl CrtMaskShape {
    /// The numeric tag handed to the device parameter block.
    pub open spec fn as_u32_spec(self) -> u32 {
        match self {
            CrtMaskShape::RoundedRect => 0,
            CrtMaskShape::Ellipse => 1,
        }
    }

    /// The numeric tag handed to the device parameter block.
    pub fn as_u32(self) -> (r: u32)
        ensures
            r == self.as_u32_spec(),
    {
        match self {
            CrtMaskShape::RoundedRect => 0,
            CrtMaskShape::Ellipse => 1,
        }
    }
}

/// CRT screen effect: barrel distortion, scanlines, phosphor masks,
/// bloom, colour bleed, vignette, flicker and colour grading.
#[derive(Clone, Copy, PartialEq, Eq, Structural, Debug)]
pub struct CrtEffect {
    /// Scanline darkness (`0` none, `1` fully dark between lines).
    pub scanline_intensity: i64,
    /// Number of scanlines across screen height.
    pub scanline_count: i64,
    /// Barrel distortion amount (`0` flat, `0.3` heavy curve).
    pub curvature: i64,
    /// Size of rounded black corners.
    pub corner_radius: i64,
    /// Screen mask shape (rounded rectangle or ellipse).
    pub mask_shape: CrtMaskShape,
    /// Phosphor mask type.
    pub phosphor: PhosphorMask,
    /// Phosphor mask visibility.
    pub phosphor_intensity: i64,
    /// Bloom/glow amount for bright areas.
    pub bloom: i64,
    /// Edge vignette darkness.
    pub vignette: i64,
    /// Screen flicker amount.
    pub flicker: i64,
    /// Horizontal colour bleeding.
    pub color_bleed: i64,
    /// Brightness boost (`1` = no change).
    pub brightness: i64,
    /// Colour saturation (`1` = no change).
    pub saturation: i64,
}

impl Default for CrtEffect {
    fn default() -> (r: Self)
        ensures
            r == CrtEffect::retro_gaming_spec(),
    {
        CrtEffect::retro_gaming()
    }
}

impl CrtEffect {
    /// The clean retro gaming preset, as a spec-level value.
    pub open spec fn retro_gaming_spec() -> CrtEffect {
        CrtEffect {
            scanline_intensity: 200_000,
            scanline_count: 240_000_000,
            curvature: 40_000,
            corner_radius: 20_000,
            mask_shape: CrtMaskShape::RoundedRect,
            phosphor: PhosphorMask::NoMask,
            phosphor_intensity: 0,
            bloom: 100_000,
            vignette: 200_000,
            flicker: 0,
            color_bleed: 1_000,
            brightness: 1_100_000,
            saturation: 1_100_000,
        }
    }

    /// Classic 90s arcade monitor - heavy scanlines, aperture grille,
    /// slight curve.
    pub fn arcade() -> (r: Self)
        ensures
            r == (CrtEffect {
                scanline_intensity: 400_000,
                scanline_count: 240_000_000,
                curvature: 80_000,
                corner_radius: 30_000,
                mask_shape: CrtMaskShape::RoundedRect,
                phosphor: PhosphorMask::ApertureGrille,
                phosphor_intensity: 300_000,
                bloom: 150_000,
                vignette: 300_000,
                flicker: 10_000,
                color_bleed: 2_000,
                brightness: 1_200_000,
                saturation: 1_300_000,
            }),
    {
        CrtEffect {
            scanline_intensity: 400_000,
            scanline_count: 240_000_000,
            curvature: 80_000,
            corner_radius: 30_000,
            mask_shape: CrtMaskShape::RoundedRect,
            phosphor: PhosphorMask::ApertureGrille,
            phosphor_intensity: 300_000,
            bloom: 150_000,
            vignette: 300_000,
            flicker: 10_000,
            color_bleed: 2_000,
            brightness: 1_200_000,
            saturation: 1_300_000,
        }
    }

    /// Old living room TV - shadow mask, strong curvature, heavy
    /// vignette, some flicker.
    pub fn old_tv() -> (r: Self)
        ensures
            r == (CrtEffect {
                scanline_intensity: 350_000,
                scanline_count: 200_000_000,
                curvature: 150_000,
                corner_radius: 50_000,
                mask_shape: CrtMaskShape::Ellipse,
                phosphor: PhosphorMask::ShadowMask,
                phosphor_intensity: 250_000,
                bloom: 200_000,
                vignette: 500_000,
                flicker: 30_000,
                color_bleed: 3_000,
                brightness: 1_100_000,
                saturation: 1_200_000,
            }),
    {
        CrtEffect {
            scanline_intensity: 350_000,
            scanline_count: 200_000_000,
            curvature: 150_000,
            corner_radius: 50_000,
            mask_shape: CrtMaskShape::Ellipse,
            phosphor: PhosphorMask::ShadowMask,
            phosphor_intensity: 250_000,
            bloom: 200_000,
            vignette: 500_000,
            flicker: 30_000,
            color_bleed: 3_000,
            brightness: 1_100_000,
            saturation: 1_200_000,
        }
    }

    /// Clean retro gaming look - subtle scanlines, mild curve, no
    /// phosphor.
    pub fn retro_gaming() -> (r: Self)
        ensures
            r == CrtEffect::retro_gaming_spec(),
    {
        CrtEffect {
            scanline_intensity: 200_000,
            scanline_count: 240_000_000,
            curvature: 40_000,
            corner_radius: 20_000,
            mask_shape: CrtMaskShape::RoundedRect,
            phosphor: PhosphorMask::NoMask,
            phosphor_intensity: 0,
            bloom: 100_000,
            vignette: 200_000,
            flicker: 0,
            color_bleed: 1_000,
            brightness: 1_100_000,
            saturation: 1_100_000,
        }
    }

    /// The phosphor mask's numeric tag.
    pub fn phosphor_type_u32(&self) -> (r: u32)
        ensures
            r == self.phosphor.as_u32_spec(),
    {
        self.phosphor.as_u32()
    }

    /// The mask shape's numeric tag.
    pub fn mask_shape_u32(&self) -> (r: u32)
        ensures
            r == self.mask_shape.as_u32_spec(),
    {
        self.mask_shape.as_u32()
    }
}

} // verus!
