//! The per-frame pipeline: extraction threshold, glitch merging, target
//! resolution, pass ordering and ping-pong, end-to-end frames.

use screen_effects::compose::{compose_view, BufferSide, EffectPipelines, PassKind, PassParams};
use screen_effects::distortion::Shockwave;
use screen_effects::easing::EasingFunction;
use screen_effects::effect::{EffectInstance, EffectIntensity, EffectParams};
use screen_effects::extract::extract_effects;
use screen_effects::feedback::ScreenFlash;
use screen_effects::frame::{run_frame, ViewInfo};
use screen_effects::fx::FX_ONE;
use screen_effects::glitch::{ScanlineGlitch, StaticNoise};
use screen_effects::lifetime::EffectLifetime;
use screen_effects::prepare::prepare_effects;

fn instance(id: u64, params: EffectParams, intensity: i64, target: Option<u64>) -> EffectInstance {
    EffectInstance {
        id,
        params,
        intensity: EffectIntensity(intensity),
        lifetime: EffectLifetime::new(1_000_000),
        target,
    }
}

fn all_pipelines_ready() -> EffectPipelines {
    let mut p = EffectPipelines::default();
    p.install(PassKind::Shockwave, 1);
    p.install(PassKind::RadialBlur, 2);
    p.install(PassKind::Raindrops, 3);
    p.install(PassKind::WorldHeatShimmer, 4);
    p.install(PassKind::RgbSplit, 5);
    p.install(PassKind::Glitch, 6);
    p.install(PassKind::EmpInterference, 7);
    p.install(PassKind::Crt, 8);
    p.install(PassKind::DamageVignette, 9);
    p.install(PassKind::ScreenFlash, 10);
    p
}

#[test]
fn threshold_is_strictly_greater() {
    // Exactly 0.001 is excluded; 0.0011 is included.
    let at_threshold = instance(
        1,
        EffectParams::ScreenFlash(ScreenFlash::white()),
        1_000,
        None,
    );
    let above_threshold = instance(
        2,
        EffectParams::ScreenFlash(ScreenFlash::white()),
        1_100,
        None,
    );
    let snapshot = vec![at_threshold, above_threshold];
    let extracted = extract_effects(&snapshot, &None, 0, 0);
    assert_eq!(extracted.buckets.len(), 1);
    let bucket = &extracted.buckets[0].1;
    assert_eq!(bucket.screen_flashes.len(), 1);
    assert_eq!(bucket.screen_flashes[0].intensity, 1_100);
}

#[test]
fn glitch_family_merges_into_one_record() {
    // Two scanline instances and one static noise: intensities add and
    // cap at one, the last-iterated scanline's density wins, the block
    // size zeroes out, the noise amount is the static sum.
    let s1 = instance(
        1,
        EffectParams::ScanlineGlitch(ScanlineGlitch {
            density: 100_000,
            ..ScanlineGlitch::default()
        }),
        500_000,
        None,
    );
    let s2 = instance(
        2,
        EffectParams::ScanlineGlitch(ScanlineGlitch {
            density: 200_000,
            ..ScanlineGlitch::default()
        }),
        500_000,
        None,
    );
    let n = instance(3, EffectParams::StaticNoise(StaticNoise::default()), 300_000, None);
    let snapshot = vec![s1, s2, n];
    let extracted = extract_effects(&snapshot, &None, 0, 0);
    assert_eq!(extracted.buckets.len(), 1);
    let bucket = &extracted.buckets[0].1;
    assert_eq!(bucket.glitches.len(), 1);
    let g = &bucket.glitches[0];
    assert_eq!(g.intensity, FX_ONE);
    assert_eq!(g.noise_amount, 300_000);
    assert_eq!(g.block_size.x, 0);
    assert_eq!(g.block_size.y, 0);
    assert_eq!(g.scanline_density, 200_000);
}

#[test]
fn empty_slot_never_executes() {
    // A bucket with a flash only: no other pass kind may appear in the
    // plan even with every pipeline ready.
    let flash = instance(1, EffectParams::ScreenFlash(ScreenFlash::white()), FX_ONE, None);
    let snapshot = vec![flash];
    let extracted = extract_effects(&snapshot, &None, 0, 0);
    let prepared = prepare_effects(&extracted, None);
    let plan = compose_view(&prepared, 9, false, &all_pipelines_ready());
    assert_eq!(plan.passes.len(), 1);
    assert!(matches!(plan.passes[0].kind, PassKind::ScreenFlash));
}

#[test]
fn pass_skipped_when_pipeline_not_ready() {
    let flash = instance(1, EffectParams::ScreenFlash(ScreenFlash::white()), FX_ONE, None);
    let snapshot = vec![flash];
    let extracted = extract_effects(&snapshot, &None, 0, 0);
    let prepared = prepare_effects(&extracted, None);
    // No pipeline compiled yet: the chain runs nothing this frame.
    let plan = compose_view(&prepared, 9, false, &EffectPipelines::default());
    assert_eq!(plan.passes.len(), 0);
    assert!(matches!(plan.final_side, BufferSide::A));
}

#[test]
fn target_resolution_runs_global_and_view_slots() {
    // Global bucket holds an active screen flash only; the view bucket
    // holds an active shockwave only.  Compositing the view runs both,
    // in canonical order, and nothing else.
    let flash = instance(1, EffectParams::ScreenFlash(ScreenFlash::white()), FX_ONE, None);
    let wave = instance(2, EffectParams::Shockwave(Shockwave::default()), FX_ONE, Some(7));
    let snapshot = vec![flash, wave];
    let extracted = extract_effects(&snapshot, &None, 0, 0);
    let prepared = prepare_effects(&extracted, None);
    let plan = compose_view(&prepared, 7, false, &all_pipelines_ready());
    assert_eq!(plan.passes.len(), 2);
    assert!(matches!(plan.passes[0].kind, PassKind::Shockwave));
    assert!(matches!(plan.passes[1].kind, PassKind::ScreenFlash));
    // Ping-pong: the first pass reads A and writes B, the second reads B
    // and writes A; the final image is back in A.
    assert!(matches!(plan.passes[0].source, BufferSide::A));
    assert!(matches!(plan.passes[0].destination, BufferSide::B));
    assert!(matches!(plan.passes[1].source, BufferSide::B));
    assert!(matches!(plan.passes[1].destination, BufferSide::A));
    assert!(matches!(plan.final_side, BufferSide::A));
}

#[test]
fn view_specific_slot_overrides_global_per_slot() {
    // Both buckets hold a flash: the view-specific one wins for the
    // flash slot.
    let global = instance(1, EffectParams::ScreenFlash(ScreenFlash::white()), FX_ONE, None);
    let local = instance(
        2,
        EffectParams::ScreenFlash(ScreenFlash::impact()),
        500_000,
        Some(3),
    );
    let snapshot = vec![global, local];
    let extracted = extract_effects(&snapshot, &None, 0, 0);
    let prepared = prepare_effects(&extracted, None);
    let plan = compose_view(&prepared, 3, false, &all_pipelines_ready());
    assert_eq!(plan.passes.len(), 1);
    match plan.passes[0].params {
        PassParams::ScreenFlash(u) => assert_eq!(u.intensity, 500_000),
        _ => panic!("expected a screen flash pass"),
    }
    // A different view falls back to the global flash.
    let other = compose_view(&prepared, 4, false, &all_pipelines_ready());
    assert_eq!(other.passes.len(), 1);
    match other.passes[0].params {
        PassParams::ScreenFlash(u) => assert_eq!(u.intensity, FX_ONE),
        _ => panic!("expected a screen flash pass"),
    }
}

#[test]
fn skip_flagged_view_gets_empty_plan() {
    let flash = instance(1, EffectParams::ScreenFlash(ScreenFlash::white()), FX_ONE, None);
    let snapshot = vec![flash];
    let extracted = extract_effects(&snapshot, &None, 0, 0);
    let prepared = prepare_effects(&extracted, None);
    let plan = compose_view(&prepared, 9, true, &all_pipelines_ready());
    assert_eq!(plan.passes.len(), 0);
    assert!(matches!(plan.final_side, BufferSide::A));
}

#[test]
fn end_to_end_shockwave_frame() {
    // Spawn a shockwave with duration 0.5s, fade-in 0.1s, fade-out
    // 0.15s, ease-out.  At t = 0.05 the intensity is
    // EaseOut(0.05/0.1) = EaseOut(0.5) = 0.75.
    let wave = EffectInstance {
        id: 1,
        params: EffectParams::Shockwave(Shockwave::default().with_intensity(FX_ONE)),
        intensity: EffectIntensity(FX_ONE),
        lifetime: EffectLifetime::new(500_000)
            .with_fades(100_000, 150_000)
            .with_easing(EasingFunction::EaseOut),
        target: None,
    };
    let mut instances = vec![wave];
    let views = vec![ViewInfo { id: 1, skip: false }];
    let pipes = all_pipelines_ready();

    let out = run_frame(&mut instances, &None, &views, &pipes, 50_000, 50_000, None);
    assert_eq!(instances.len(), 1);
    assert_eq!(instances[0].intensity.0, 750_000);
    assert_eq!(out.plans.len(), 1);
    let plan = &out.plans[0].1;
    assert_eq!(plan.passes.len(), 1);
    match plan.passes[0].params {
        PassParams::Shockwave(u) => assert_eq!(u.intensity, 750_000),
        _ => panic!("expected a shockwave pass"),
    }

    // At t = 0.5 the instance has expired: it is removed before
    // extraction and the frame composes nothing.
    let out = run_frame(&mut instances, &None, &views, &pipes, 500_000, 450_000, None);
    assert_eq!(instances.len(), 0);
    assert_eq!(out.extracted.buckets.len(), 0);
    assert_eq!(out.plans[0].1.passes.len(), 0);
}

#[test]
fn zero_duration_instance_never_reaches_a_bucket() {
    let flash = EffectInstance {
        id: 1,
        params: EffectParams::ScreenFlash(ScreenFlash::white()),
        intensity: EffectIntensity(FX_ONE),
        lifetime: EffectLifetime::new(0),
        target: None,
    };
    let mut instances = vec![flash];
    let views = vec![ViewInfo { id: 1, skip: false }];
    let out = run_frame(&mut instances, &None, &views, &all_pipelines_ready(), 0, 0, None);
    assert_eq!(instances.len(), 0);
    assert_eq!(out.extracted.buckets.len(), 0);
    assert_eq!(out.plans[0].1.passes.len(), 0);
}

#[test]
fn pipeline_cache_is_memoized() {
    let mut p = EffectPipelines::default();
    assert!(!p.is_ready(PassKind::Crt));
    p.install(PassKind::Crt, 42);
    assert!(p.is_ready(PassKind::Crt));
    assert_eq!(p.crt, Some(42));
    p.install(PassKind::Crt, 99);
    assert_eq!(p.crt, Some(42));
}

#[test]
fn intensity_multiplier_is_clamped() {
    assert_eq!(EffectIntensity::new(2_000_000).get(), FX_ONE);
    assert_eq!(EffectIntensity::new(-5).get(), 0);
    let mut v = EffectIntensity::default();
    assert_eq!(v.get(), FX_ONE);
    v.set(300_000);
    assert_eq!(v.get(), 300_000);
}
