//! The declarative spawn surface: presets and builders are pure data
//! constructors.

use screen_effects::distortion::{RadialBlur, Raindrops, Shockwave, WorldHeatShimmer,
    WorldShockwave};
use screen_effects::feedback::{DamageVignette, ScreenFlash, SpeedLines};
use screen_effects::fx::{Rgba, Vec3Fx, FX_ONE};
use screen_effects::glitch::{CrtEffect, CrtMaskShape, EmpInterference, PhosphorMask, RgbSplit};

#[test]
fn shockwave_builders_compose() {
    let w = Shockwave::at(200_000, 300_000)
        .with_intensity(400_000)
        .with_ring_width(50_000)
        .with_max_radius(900_000)
        .with_chromatic(false);
    assert_eq!(w.center.x, 200_000);
    assert_eq!(w.center.y, 300_000);
    assert_eq!(w.intensity, 400_000);
    assert_eq!(w.ring_width, 50_000);
    assert_eq!(w.max_radius, 900_000);
    assert!(!w.chromatic);
}

#[test]
fn world_shockwave_defaults() {
    let w = WorldShockwave::at(Vec3Fx { x: 1, y: 2, z: 3 });
    assert_eq!(w.world_pos.x, 1);
    assert_eq!(w.intensity, 250_000);
    assert_eq!(w.ring_width, 100_000);
    assert_eq!(w.max_radius, 800_000);
    assert!(w.chromatic);
}

#[test]
fn raindrops_presets_scale_with_weather() {
    let storm = Raindrops::storm();
    assert_eq!(storm.drop_size, 50_000);
    assert_eq!(storm.density, 900_000);
    assert_eq!(storm.speed, 800_000);
    let drizzle = Raindrops::drizzle();
    assert_eq!(drizzle.density, 400_000);
    assert!(drizzle.refraction < storm.refraction);
}

#[test]
fn raindrops_density_builder_clamps() {
    let r = Raindrops::default().with_density(3_000_000);
    assert_eq!(r.density, FX_ONE);
    let r = Raindrops::default().with_density(-1);
    assert_eq!(r.density, 0);
}

#[test]
fn rgb_split_diagonal_halves_vertical_offset() {
    let s = RgbSplit::diagonal(20_000);
    assert_eq!(s.red_offset.x, -20_000);
    assert_eq!(s.red_offset.y, -10_000);
    assert_eq!(s.blue_offset.x, 20_000);
    assert_eq!(s.blue_offset.y, 10_000);
    assert!(!s.animated);
}

#[test]
fn emp_presets_and_clamping() {
    let heavy = EmpInterference::heavy();
    assert_eq!(heavy.flicker_rate, 45_000_000);
    assert_eq!(heavy.band_count, 12_000_000);
    let e = EmpInterference::default().with_static(5_000_000, -3);
    assert_eq!(e.static_intensity, FX_ONE);
    assert_eq!(e.burst_probability, 0);
}

#[test]
fn crt_presets_pick_masks() {
    let arcade = CrtEffect::arcade();
    assert!(matches!(arcade.phosphor, PhosphorMask::ApertureGrille));
    assert_eq!(arcade.phosphor_type_u32(), 2);
    assert_eq!(arcade.mask_shape_u32(), 0);
    let tv = CrtEffect::old_tv();
    assert!(matches!(tv.mask_shape, CrtMaskShape::Ellipse));
    assert_eq!(tv.mask_shape_u32(), 1);
    assert_eq!(CrtEffect::default(), CrtEffect::retro_gaming());
}

#[test]
fn flash_and_vignette_presets() {
    let white = ScreenFlash::white();
    assert_eq!(white.blend, FX_ONE);
    assert_eq!(white.color, Rgba::white());
    let impact = ScreenFlash::impact();
    assert_eq!(impact.blend, 0);
    assert_eq!(impact.color.a, 300_000);
    let heal = DamageVignette::healing();
    assert_eq!(heal.color.g, 800_000);
    assert_eq!(heal.pulse_frequency, 4_000_000);
    let shield = DamageVignette::shield();
    assert_eq!(shield.pulse_frequency, 0);
}

#[test]
fn speed_lines_focus() {
    let s = SpeedLines::at(100_000, 900_000);
    assert_eq!(s.focus.x, 100_000);
    assert_eq!(s.focus.y, 900_000);
    assert_eq!(SpeedLines::centered(), SpeedLines::default());
}

#[test]
fn shimmer_builders_compose() {
    let w = WorldHeatShimmer::at(Vec3Fx { x: 5, y: 0, z: -5 })
        .with_size(2_000_000, 4_000_000)
        .with_amplitude(9_000)
        .with_frequency(10_000_000)
        .with_speed(700_000)
        .with_softness(200_000);
    assert_eq!(w.world_pos.z, -5);
    assert_eq!(w.width, 2_000_000);
    assert_eq!(w.height, 4_000_000);
    assert_eq!(w.amplitude, 9_000);
    assert_eq!(w.frequency, 10_000_000);
    assert_eq!(w.speed, 700_000);
    assert_eq!(w.softness, 200_000);
}

#[test]
fn radial_blur_defaults() {
    let b = RadialBlur::default();
    assert_eq!(b.center.x, 500_000);
    assert_eq!(b.intensity, 100_000);
    assert_eq!(b.samples, 8);
}
