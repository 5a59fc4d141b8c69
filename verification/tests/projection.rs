//! Re-projection of world-anchored effects, and the fixed-point
//! arithmetic underneath it.

use screen_effects::distortion::{WorldHeatShimmer, WorldShockwave};
use screen_effects::effect::{EffectInstance, EffectIntensity, EffectOrigin, EffectParams};
use screen_effects::extract::extract_effects;
use screen_effects::fx::{isqrt64, Vec3Fx, FX_ONE};
use screen_effects::lifetime::EffectLifetime;
use screen_effects::project::{world_to_ndc, world_to_screen, CameraView, Vec4Fx};

/// A camera whose clip space equals world space (w is always one), with
/// the right vector along world x.
fn identity_camera() -> CameraView {
    CameraView {
        row_x: Vec4Fx { x: FX_ONE, y: 0, z: 0, w: 0 },
        row_y: Vec4Fx { x: 0, y: FX_ONE, z: 0, w: 0 },
        row_z: Vec4Fx { x: 0, y: 0, z: FX_ONE, w: 0 },
        row_w: Vec4Fx { x: 0, y: 0, z: 0, w: FX_ONE },
        right: Vec3Fx { x: FX_ONE, y: 0, z: 0 },
    }
}

/// A camera that rejects everything (clip-space w never positive).
fn backwards_camera() -> CameraView {
    CameraView {
        row_w: Vec4Fx { x: 0, y: 0, z: 0, w: -FX_ONE },
        ..identity_camera()
    }
}

fn world_instance(id: u64, w: WorldShockwave) -> EffectInstance {
    EffectInstance {
        id,
        params: EffectParams::WorldShockwave(w),
        intensity: EffectIntensity(FX_ONE),
        lifetime: EffectLifetime::new(1_000_000),
        target: None,
    }
}

#[test]
fn isqrt_is_exact_floor() {
    assert_eq!(isqrt64(0), 0);
    assert_eq!(isqrt64(1), 1);
    assert_eq!(isqrt64(3), 1);
    assert_eq!(isqrt64(4), 2);
    assert_eq!(isqrt64(999_999), 999);
    assert_eq!(isqrt64(1_000_000), 1_000);
    assert_eq!(isqrt64(u64::MAX), 4_294_967_295);
}

#[test]
fn origin_projects_to_screen_centre() {
    let cam = identity_camera();
    let origin = EffectOrigin::from_world(Vec3Fx::zero(), &cam).unwrap();
    assert_eq!(origin.0.x, 500_000);
    assert_eq!(origin.0.y, 500_000);
}

#[test]
fn screen_y_axis_points_down() {
    let cam = identity_camera();
    // A point above the origin lands in the upper half of the screen.
    let up = world_to_screen(&cam, Vec3Fx { x: 0, y: 500_000, z: 0 }).unwrap();
    assert_eq!(up.x, 500_000);
    assert_eq!(up.y, 250_000);
    let ndc = world_to_ndc(&cam, Vec3Fx { x: 0, y: 500_000, z: 0 }).unwrap();
    assert_eq!(ndc.y, 500_000);
}

#[test]
fn point_behind_camera_fails_to_project() {
    let cam = backwards_camera();
    assert!(world_to_screen(&cam, Vec3Fx::zero()).is_none());
}

#[test]
fn world_shockwave_scales_with_projected_radius() {
    // World max radius 0.8 projects 0.4 from the anchor in screen
    // space, so the screen radius is 0.4 and the ring width is scaled
    // by one half.
    let cam = identity_camera();
    let wave = WorldShockwave::default();
    let snapshot = vec![world_instance(1, wave)];
    let extracted = extract_effects(&snapshot, &Some(cam), 0, 0);
    assert_eq!(extracted.buckets.len(), 1);
    let bucket = &extracted.buckets[0].1;
    assert_eq!(bucket.shockwaves.len(), 1);
    let rec = &bucket.shockwaves[0];
    assert_eq!(rec.center.x, 500_000);
    assert_eq!(rec.center.y, 500_000);
    assert_eq!(rec.max_radius, 400_000);
    assert_eq!(rec.ring_width, 50_000);
    assert_eq!(rec.intensity, 250_000);
}

#[test]
fn world_shockwave_needs_a_camera() {
    let snapshot = vec![world_instance(1, WorldShockwave::default())];
    let extracted = extract_effects(&snapshot, &None, 0, 0);
    assert_eq!(extracted.buckets.len(), 1);
    assert_eq!(extracted.buckets[0].1.shockwaves.len(), 0);
}

#[test]
fn world_shockwave_behind_camera_is_dropped() {
    let snapshot = vec![world_instance(1, WorldShockwave::default())];
    let extracted = extract_effects(&snapshot, &Some(backwards_camera()), 0, 0);
    assert_eq!(extracted.buckets[0].1.shockwaves.len(), 0);
}

#[test]
fn heat_shimmer_bounds_are_the_corner_box() {
    // A column of width 1 and height 2 at the origin: the corners
    // project half a unit left and right, the top a full screen up.
    let cam = identity_camera();
    let shimmer = WorldHeatShimmer::default();
    let inst = EffectInstance {
        id: 1,
        params: EffectParams::WorldHeatShimmer(shimmer),
        intensity: EffectIntensity(800_000),
        lifetime: EffectLifetime::new(1_000_000),
        target: None,
    };
    let snapshot = vec![inst];
    let extracted = extract_effects(&snapshot, &Some(cam), 0, 0);
    let bucket = &extracted.buckets[0].1;
    assert_eq!(bucket.world_heat_shimmers.len(), 1);
    let rec = &bucket.world_heat_shimmers[0];
    assert_eq!(rec.bounds.min_x, 250_000);
    assert_eq!(rec.bounds.max_x, 750_000);
    assert_eq!(rec.bounds.min_y, -500_000);
    assert_eq!(rec.bounds.max_y, 500_000);
    assert_eq!(rec.intensity, 800_000);
}

#[test]
fn heat_shimmer_needs_two_corners() {
    let inst = EffectInstance {
        id: 1,
        params: EffectParams::WorldHeatShimmer(WorldHeatShimmer::default()),
        intensity: EffectIntensity(FX_ONE),
        lifetime: EffectLifetime::new(1_000_000),
        target: None,
    };
    let snapshot = vec![inst];
    let extracted = extract_effects(&snapshot, &Some(backwards_camera()), 0, 0);
    assert_eq!(extracted.buckets[0].1.world_heat_shimmers.len(), 0);
}
