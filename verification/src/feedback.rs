//! Visual feedback screen effects.
//!
//! These effects provide gameplay feedback like damage indication, flash
//! effects, and speed lines.

use vstd::prelude::*;

use crate::fx::{Fx2, Rgba, FX_ONE};

verus! {

/// Screen flash effect: a full-screen flash for impacts, flashbangs or
/// transitions.
#[derive(Clone, Copy, PartialEq, Eq, Structural, Debug)]
pub struct ScreenFlash {
    /// Flash colour.
    pub color: Rgba,
    /// Blend mode (`0` additive, `1` replace).
    pub blend: i64,
}

impl Default for ScreenFlash {
    fn default() -> (r: Self)
        ensures
            r == ScreenFlash::default_spec(),
    {
        ScreenFlash { color: Rgba::white(), blend: 0 }
    }
}

impl ScreenFlash {
    /// The default parameter record, as a spec-level value.
    pub open spec fn default_spec() -> ScreenFlash {
        ScreenFlash { color: Rgba { r: FX_ONE, g: FX_ONE, b: FX_ONE, a: FX_ONE }, blend: 0 }
    }

    /// Pure white flash (flashbang style).
    pub fn white() -> (r: Self)
        ensures
            r == (ScreenFlash {
                color: Rgba { r: FX_ONE, g: FX_ONE, b: FX_ONE, a: FX_ONE },
                blend: FX_ONE,
            }),
    {
        ScreenFlash { color: Rgba::white(), blend: FX_ONE }
    }

    /// Impact flash (brief, additive).
    pub fn impact() -> (r: Self)
        ensures
            r == (ScreenFlash {
                color: Rgba { r: FX_ONE, g: 900_000, b: 800_000, a: 300_000 },
                blend: 0,
            }),
    {
        ScreenFlash { color: Rgba::new(FX_ONE, 900_000, 800_000, 300_000), blend: 0 }
    }

    /// Custom colour flash.
    pub fn with_color(color: Rgba) -> (r: Self)
        ensures
            r == (ScreenFlash { color, ..ScreenFlash::default_spec() }),
    {
        ScreenFlash { color, ..ScreenFlash::default() }
    }
}

/// Damage vignette effect: a coloured vignette that pulses at the screen
/// edges to indicate damage (or healing, or shielding).
#[derive(Clone, Copy, PartialEq, Eq, Structural, Debug)]
pub struct DamageVignette {
    /// Colour of the vignette.
    pub color: Rgba,
    /// How far the vignette extends from the edges (`0` to `1`).
    pub size: i64,
    /// Edge softness.
    pub softness: i64,
    /// Pulsing frequency (`0` = no pulse).
    pub pulse_frequency: i64,
}

impl Default for DamageVignette {
    fn default() -> (r: Self)
        ensures
            r == DamageVignette::default_spec(),
    {
        DamageVignette {
            color: Rgba::new(800_000, 0, 0, 600_000),
            size: 400_000,
            softness: 300_000,
            pulse_frequency: 8_000_000,
        }
    }
}

impl DamageVignette {
    /// The default parameter record, as a spec-level value.
    pub open spec fn default_spec() -> DamageVignette {
        DamageVignette {
            color: Rgba { r: 800_000, g: 0, b: 0, a: 600_000 },
            size: 400_000,
            softness: 300_000,
            pulse_frequency: 8_000_000,
        }
    }

    /// Create with a custom colour.
    pub fn with_color(color: Rgba) -> (r: Self)
        ensures
            r == (DamageVignette { color, ..DamageVignette::default_spec() }),
    {
        DamageVignette { color, ..DamageVignette::default() }
    }

    /// Healing effect (green).
    pub fn healing() -> (r: Self)
        ensures
            r == (DamageVignette {
                color: Rgba { r: 0, g: 800_000, b: 200_000, a: 500_000 },
                pulse_frequency: 4_000_000,
                ..DamageVignette::default_spec()
            }),
    {
        DamageVignette {
            color: Rgba::new(0, 800_000, 200_000, 500_000),
            pulse_frequency: 4_000_000,
            ..DamageVignette::default()
        }
    }

    /// Shield/armour effect (blue).
    pub fn shield() -> (r: Self)
        ensures
            r == (DamageVignette {
                color: Rgba { r: 200_000, g: 400_000, b: FX_ONE, a: 500_000 },
                pulse_frequency: 0,
                ..DamageVignette::default_spec()
            }),
    {
        DamageVignette {
            color: Rgba::new(200_000, 400_000, FX_ONE, 500_000),
            pulse_frequency: 0,
            ..DamageVignette::default()
        }
    }
}

/// Speed lines effect: manga-style motion lines radiating from a focus
/// point.  This record has no dedicated compositing pass in the canonical
/// chain; it exists as part of the declarative spawn surface.
#[derive(Clone, Copy, PartialEq, Eq, Structural, Debug)]
pub struct SpeedLines {
    /// Focus point (lines radiate from here).
    pub focus: Fx2,
    /// Line colour.
    pub color: Rgba,
    /// Number of lines.
    pub line_count: u32,
    /// Line thickness.
    pub thickness: i64,
    /// How far lines extend from the focus (`0` to `1`).
    pub length: i64,
    /// Animation speed.
    pub speed: i64,
}

impl Default for SpeedLines {
    fn default() -> (r: Self)
        ensures
            r == SpeedLines::default_spec(),
    {
        SpeedLines {
            focus: Fx2::half(),
            color: Rgba::white(),
            line_count: 32,
            thickness: 2_000,
            length: 500_000,
            speed: 10_000_000,
        }
    }
}

impl SpeedLines {
    /// The default parameter record, as a spec-level value.
    pub open spec fn default_spec() -> SpeedLines {
        SpeedLines {
            focus: Fx2 { x: 500_000, y: 500_000 },
            color: Rgba { r: FX_ONE, g: FX_ONE, b: FX_ONE, a: FX_ONE },
            line_count: 32,
            thickness: 2_000,
            length: 500_000,
            speed: 10_000_000,
        }
    }

    /// Create with the focus at the screen centre.
    pub fn centered() -> (r: Self)
        ensures
            r == SpeedLines::default_spec(),
    {
        SpeedLines::default()
    }

    /// Create with the focus at a specific point.
    pub fn at(x: i64, y: i64) -> (r: Self)
        ensures
            r == (SpeedLines { focus: Fx2 { x, y }, ..SpeedLines::default_spec() }),
    {
        SpeedLines { focus: Fx2 { x, y }, ..SpeedLines::default() }
    }
}

} // verus!
