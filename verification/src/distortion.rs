//! Distortion-based screen effects.
//!
//! These effects warp the screen image by displacing pixels.  The structs
//! here are declarative parameter records; the per-frame pipeline turns
//! them into compositing passes.  All scalar fields are fixed-point values
//! (see [`crate::fx`]).

use vstd::prelude::*;

use crate::fx::{Fx2, Vec3Fx, FX_LIMIT, FX_ONE};

verus! {

/// Shockwave distortion effect: a ring of distortion that expands outward
/// from an origin given in normalized screen coordinates.
#[derive(Clone, Copy, PartialEq, Eq, Structural, Debug)]
pub struct Shockwave {
    /// Center of the shockwave in normalized screen coords (`0` to `1`).
    pub center: Fx2,
    /// Maximum distortion intensity.
    pub intensity: i64,
    /// Width of the distortion ring.
    pub ring_width: i64,
    /// Maximum radius the shockwave expands to.
    pub max_radius: i64,
    /// Whether to also apply chromatic aberration.
    pub chromatic: bool,
}

impl Default for Shockwave {
    fn default() -> (r: Self)
        ensures
            r == Shockwave::default_spec(),
    {
        Shockwave {
            center: Fx2 { x: 500_000, y: 500_000 },
            intensity: 250_000,
            ring_width: 100_000,
            max_radius: 800_000,
            chromatic: true,
        }
    }
}

impl Shockwave {
    /// The default parameter record, as a spec-level value.
    pub open spec fn default_spec() -> Shockwave {
        Shockwave {
                center: Fx2 { x: 500_000, y: 500_000 },
                intensity: 250_000,
                ring_width: 100_000,
                max_radius: 800_000,
                chromatic: true,
            }
    }

    /// The intensity bound that keeps the extraction arithmetic
    /// overflow-free.
    pub open spec fn wf(&self) -> bool {
        0 <= self.intensity <= FX_LIMIT
    }

    /// Create a shockwave at the given screen position.
    pub fn at(x: i64, y: i64) -> (r: Self)
        ensures
            r == (Shockwave { center: Fx2 { x, y }, ..Shockwave::default_spec() }),
    {
        Shockwave { center: Fx2 { x, y }, ..Shockwave::default() }
    }

    /// Set the intensity (distortion strength).
    pub fn with_intensity(self, intensity: i64) -> (r: Self)
        ensures
            r == (Shockwave { intensity, ..self }),
    {
        Shockwave { intensity, ..self }
    }

    /// Set the ring width.
    pub fn with_ring_width(self, width: i64) -> (r: Self)
        ensures
            r == (Shockwave { ring_width: width, ..self }),
    {
        Shockwave { ring_width: width, ..self }
    }

    /// Set the maximum radius.
    pub fn with_max_radius(self, radius: i64) -> (r: Self)
        ensures
            r == (Shockwave { max_radius: radius, ..self }),
    {
        Shockwave { max_radius: radius, ..self }
    }

    /// Enable or disable chromatic aberration.
    pub fn with_chromatic(self, enabled: bool) -> (r: Self)
        ensures
            r == (Shockwave { chromatic: enabled, ..self }),
    {
        Shockwave { chromatic: enabled, ..self }
    }
}

/// World-space shockwave that tracks camera movement: the 3D anchor is
/// re-projected to screen space every frame, so the ring stays glued to
/// the scene position as the camera moves.
#[derive(Clone, Copy, PartialEq, Eq, Structural, Debug)]
pub struct WorldShockwave {
    /// World-space position of the shockwave center.
    pub world_pos: Vec3Fx,
    /// Maximum distortion intensity.
    pub intensity: i64,
    /// Width of the distortion ring.
    pub ring_width: i64,
    /// Maximum radius the shockwave expands to, in world units.
    pub max_radius: i64,
    /// Whether to also apply chromatic aberration.
    pub chromatic: bool,
}

impl Default for WorldShockwave {
    fn default() -> (r: Self)
        ensures
            r == WorldShockwave::default_spec(),
    {
        WorldShockwave {
            world_pos: Vec3Fx { x: 0, y: 0, z: 0 },
            intensity: 250_000,
            ring_width: 100_000,
            max_radius: 800_000,
            chromatic: true,
        }
    }
}

impl WorldShockwave {
    /// The default parameter record, as a spec-level value.
    pub open spec fn default_spec() -> WorldShockwave {
        WorldShockwave {
                world_pos: Vec3Fx { x: 0, y: 0, z: 0 },
                intensity: 250_000,
                ring_width: 100_000,
                max_radius: 800_000,
                chromatic: true,
            }
    }

    /// Bounds that keep the re-projection arithmetic overflow-free, and a
    /// positive world radius so the ring-width scale is well defined.
    pub open spec fn wf(&self) -> bool {
        &&& self.world_pos.bounded()
        &&& 0 <= self.intensity <= FX_LIMIT
        &&& 0 <= self.ring_width <= FX_LIMIT
        &&& 0 < self.max_radius <= FX_LIMIT
    }

    /// Create a world-space shockwave at the given position.
    pub fn at(pos: Vec3Fx) -> (r: Self)
        ensures
            r == (WorldShockwave { world_pos: pos, ..WorldShockwave::default_spec() }),
    {
        WorldShockwave { world_pos: pos, ..WorldShockwave::default() }
    }

    /// Set the intensity (distortion strength).
    pub fn with_intensity(self, intensity: i64) -> (r: Self)
        ensures
            r == (WorldShockwave { intensity, ..self }),
    {
        WorldShockwave { intensity, ..self }
    }

    /// Set the ring width.
    pub fn with_ring_width(self, width: i64) -> (r: Self)
        ensures
            r == (WorldShockwave { ring_width: width, ..self }),
    {
        WorldShockwave { ring_width: width, ..self }
    }

    /// Set the maximum radius.
    pub fn with_max_radius(self, radius: i64) -> (r: Self)
        ensures
            r == (WorldShockwave { max_radius: radius, ..self }),
    {
        WorldShockwave { max_radius: radius, ..self }
    }

    /// Enable or disable chromatic aberration.
    pub fn with_chromatic(self, enabled: bool) -> (r: Self)
        ensures
            r == (WorldShockwave { chromatic: enabled, ..self }),
    {
        WorldShockwave { chromatic: enabled, ..self }
    }
}

/// Radial blur effect: blurs the image in a radial pattern from a center
/// point.
#[derive(Clone, Copy, PartialEq, Eq, Structural, Debug)]
pub struct RadialBlur {
    /// Center of the blur in normalized screen coords.
    pub center: Fx2,
    /// Blur intensity (sample distance).
    pub intensity: i64,
    /// Number of blur samples.
    pub samples: u32,
}

impl Default for RadialBlur {
    fn default() -> (r: Self)
        ensures
            r == (RadialBlur {
                center: Fx2 { x: 500_000, y: 500_000 },
                intensity: 100_000,
                samples: 8,
            }),
    {
        RadialBlur { center: Fx2 { x: 500_000, y: 500_000 }, intensity: 100_000, samples: 8 }
    }
}

impl RadialBlur {
    /// The intensity bound that keeps the extraction arithmetic
    /// overflow-free.
    pub open spec fn wf(&self) -> bool {
        0 <= self.intensity <= FX_LIMIT
    }
}

/// Raindrops effect: procedurally generated drops that fall down the
/// screen with refraction.
#[derive(Clone, Copy, PartialEq, Eq, Structural, Debug)]
pub struct Raindrops {
    /// Size of individual drops.
    pub drop_size: i64,
    /// Density of drops (`0` to `1`).
    pub density: i64,
    /// Fall speed multiplier.
    pub speed: i64,
    /// Refraction/distortion strength.
    pub refraction: i64,
    /// Strength of trailing streaks behind drops.
    pub trail_strength: i64,
}

impl Default for Raindrops {
    fn default() -> (r: Self)
        ensures
            r == (Raindrops {
                drop_size: 30_000,
                density: 500_000,
                speed: 300_000,
                refraction: 20_000,
                trail_strength: 500_000,
            }),
    {
        Raindrops {
            drop_size: 30_000,
            density: 500_000,
            speed: 300_000,
            refraction: 20_000,
            trail_strength: 500_000,
        }
    }
}

impl Raindrops {
    /// Light rain with small, sparse drops.
    pub fn light() -> (r: Self)
        ensures
            r == (Raindrops {
                drop_size: 20_000,
                density: 300_000,
                speed: 200_000,
                refraction: 15_000,
                trail_strength: 300_000,
            }),
    {
        Raindrops {
            drop_size: 20_000,
            density: 300_000,
            speed: 200_000,
            refraction: 15_000,
            trail_strength: 300_000,
        }
    }

    /// Heavy rain with larger, denser drops.
    pub fn heavy() -> (r: Self)
        ensures
            r == (Raindrops {
                drop_size: 40_000,
                density: 700_000,
                speed: 500_000,
                refraction: 30_000,
                trail_strength: 700_000,
            }),
    {
        Raindrops {
            drop_size: 40_000,
            density: 700_000,
            speed: 500_000,
            refraction: 30_000,
            trail_strength: 700_000,
        }
    }

    /// Dramatic storm effect.
    pub fn storm() -> (r: Self)
        ensures
            r == (Raindrops {
                drop_size: 50_000,
                density: 900_000,
                speed: 800_000,
                refraction: 40_000,
                trail_strength: 900_000,
            }),
    {
        Raindrops {
            drop_size: 50_000,
            density: 900_000,
            speed: 800_000,
            refraction: 40_000,
            trail_strength: 900_000,
        }
    }

    /// Gentle drizzle.
    pub fn drizzle() -> (r: Self)
        ensures
            r == (Raindrops {
                drop_size: 15_000,
                density: 400_000,
                speed: 150_000,
                refraction: 10_000,
                trail_strength: 200_000,
            }),
    {
        Raindrops {
            drop_size: 15_000,
            density: 400_000,
            speed: 150_000,
            refraction: 10_000,
            trail_strength: 200_000,
        }
    }

    /// Builder: set drop size.
    pub fn with_drop_size(self, size: i64) -> (r: Self)
        ensures
            r == (Raindrops { drop_size: size, ..self }),
    {
        Raindrops { drop_size: size, ..self }
    }

    /// Builder: set density, clamped to `[0, 1]`.
    pub fn with_density(self, density: i64) -> (r: Self)
        ensures
            r == (Raindrops { density: crate::fx::clamp_unit(density as int) as i64, ..self }),
    {
        Raindrops { density: crate::fx::fx_clamp_unit(density), ..self }
    }

    /// Builder: set fall speed.
    pub fn with_speed(self, speed: i64) -> (r: Self)
        ensures
            r == (Raindrops { speed, ..self }),
    {
        Raindrops { speed, ..self }
    }

    /// Builder: set refraction strength.
    pub fn with_refraction(self, refraction: i64) -> (r: Self)
        ensures
            r == (Raindrops { refraction, ..self }),
    {
        Raindrops { refraction, ..self }
    }

    /// Builder: set trail strength.
    pub fn with_trail(self, strength: i64) -> (r: Self)
        ensures
            r == (Raindrops { trail_strength: strength, ..self }),
    {
        Raindrops { trail_strength: strength, ..self }
    }
}

/// Full-screen heat haze / underwater distortion.  This variant has no
/// dedicated compositing pass in the canonical chain; it exists as part of
/// the declarative spawn surface.
#[derive(Clone, Copy, PartialEq, Eq, Structural, Debug)]
pub struct HeatHaze {
    /// Distortion amplitude.
    pub amplitude: i64,
    /// Wave frequency.
    pub frequency: i64,
    /// Animation speed.
    pub speed: i64,
    /// Direction of the wave (normalized).
    pub direction: Fx2,
}

impl Default for HeatHaze {
    fn default() -> (r: Self)
        ensures
            r == (HeatHaze {
                amplitude: 10_000,
                frequency: 20_000_000,
                speed: 2_000_000,
                direction: Fx2 { x: 0, y: FX_ONE },
            }),
    {
        HeatHaze {
            amplitude: 10_000,
            frequency: 20_000_000,
            speed: 2_000_000,
            direction: Fx2 { x: 0, y: FX_ONE },
        }
    }
}

/// World-space heat shimmer: a rising column of distortion anchored at a
/// world position, re-projected every frame and scaled with distance.
#[derive(Clone, Copy, PartialEq, Eq, Structural, Debug)]
pub struct WorldHeatShimmer {
    /// World-space base position of the heat column.
    pub world_pos: Vec3Fx,
    /// Width of the column in world units.
    pub width: i64,
    /// Height of the column in world units.
    pub height: i64,
    /// Distortion amplitude.
    pub amplitude: i64,
    /// Wave frequency.
    pub frequency: i64,
    /// Rising speed (how fast waves move upward).
    pub speed: i64,
    /// Edge softness (`0` hard edge, `1` very soft).
    pub softness: i64,
}

impl Default for WorldHeatShimmer {
    fn default() -> (r: Self)
        ensures
            r == WorldHeatShimmer::default_spec(),
    {
        WorldHeatShimmer {
            world_pos: Vec3Fx { x: 0, y: 0, z: 0 },
            width: FX_ONE,
            height: 2_000_000,
            amplitude: 8_000,
            frequency: 40_000_000,
            speed: 500_000,
            softness: 100_000,
        }
    }
}

impl WorldHeatShimmer {
    /// The default parameter record, as a spec-level value.
    pub open spec fn default_spec() -> WorldHeatShimmer {
        WorldHeatShimmer {
                world_pos: Vec3Fx { x: 0, y: 0, z: 0 },
                width: FX_ONE,
                height: 2_000_000,
                amplitude: 8_000,
                frequency: 40_000_000,
                speed: 500_000,
                softness: 100_000,
            }
    }

    /// Bounds that keep the column re-projection arithmetic
    /// overflow-free.
    pub open spec fn wf(&self) -> bool {
        &&& self.world_pos.bounded()
        &&& 0 <= self.width <= FX_LIMIT
        &&& 0 <= self.height <= FX_LIMIT
    }

    /// Create a heat shimmer at the given world position.
    pub fn at(pos: Vec3Fx) -> (r: Self)
        ensures
            r == (WorldHeatShimmer { world_pos: pos, ..WorldHeatShimmer::default_spec() }),
    {
        WorldHeatShimmer { world_pos: pos, ..WorldHeatShimmer::default() }
    }

    /// Set the column size (width and height in world units).
    pub fn with_size(self, width: i64, height: i64) -> (r: Self)
        ensures
            r == (WorldHeatShimmer { width, height, ..self }),
    {
        WorldHeatShimmer { width, height, ..self }
    }

    /// Set the distortion amplitude.
    pub fn with_amplitude(self, amplitude: i64) -> (r: Self)
        ensures
            r == (WorldHeatShimmer { amplitude, ..self }),
    {
        WorldHeatShimmer { amplitude, ..self }
    }

    /// Set the wave frequency.
    pub fn with_frequency(self, frequency: i64) -> (r: Self)
        ensures
            r == (WorldHeatShimmer { frequency, ..self }),
    {
        WorldHeatShimmer { frequency, ..self }
    }

    /// Set the rising speed.
    pub fn with_speed(self, speed: i64) -> (r: Self)
        ensures
            r == (WorldHeatShimmer { speed, ..self }),
    {
        WorldHeatShimmer { speed, ..self }
    }

    /// Set the edge softness.
    pub fn with_softness(self, softness: i64) -> (r: Self)
        ensures
            r == (WorldHeatShimmer { softness, ..self }),
    {
        WorldHeatShimmer { softness, ..self }
    }
}

} // verus!
