//! The lifetime clock: fades, expiry, ticking.

use screen_effects::easing::EasingFunction;
use screen_effects::fx::{ELAPSED_CAP, FX_ONE};
use screen_effects::lifetime::EffectLifetime;

fn clock(duration: i64, fade_in: i64, fade_out: i64, easing: EasingFunction) -> EffectLifetime {
    EffectLifetime::new(duration).with_fades(fade_in, fade_out).with_easing(easing)
}

#[test]
fn new_derives_fade_out_from_duration() {
    let l = EffectLifetime::new(1_000_000);
    assert_eq!(l.duration, 1_000_000);
    assert_eq!(l.fade_in, 100_000);
    assert_eq!(l.fade_out, 300_000);
    assert_eq!(l.elapsed, 0);
}

#[test]
fn intensity_starts_at_eased_zero() {
    let l = clock(1_000_000, 100_000, 300_000, EasingFunction::Linear);
    assert_eq!(l.intensity(), 0);
}

#[test]
fn intensity_ramps_through_fade_in() {
    let mut l = clock(1_000_000, 100_000, 300_000, EasingFunction::Linear);
    l.tick(50_000);
    assert_eq!(l.intensity(), 500_000);
}

#[test]
fn intensity_holds_plateau_at_eased_one() {
    let mut l = clock(1_000_000, 100_000, 300_000, EasingFunction::Linear);
    l.tick(400_000);
    assert_eq!(l.intensity(), FX_ONE);
}

#[test]
fn intensity_ramps_down_through_fade_out() {
    let mut l = clock(1_000_000, 100_000, 300_000, EasingFunction::Linear);
    l.tick(850_000);
    assert_eq!(l.intensity(), 500_000);
}

#[test]
fn intensity_reaches_eased_zero_at_expiry() {
    let mut l = clock(1_000_000, 100_000, 300_000, EasingFunction::Linear);
    l.tick(1_000_000);
    assert_eq!(l.intensity(), 0);
    assert!(l.is_expired());
}

#[test]
fn zero_fade_out_holds_full_intensity_to_the_end() {
    let mut l = clock(1_000_000, 0, 0, EasingFunction::Linear);
    // A zero fade-in starts at full intensity.
    assert_eq!(l.intensity(), FX_ONE);
    l.tick(1_000_000);
    // At the exact end the defined discontinuity keeps the raw envelope
    // at one; expiry removes the instance before it is ever sampled.
    assert_eq!(l.intensity(), FX_ONE);
    l.tick(1);
    // Once past the duration the envelope drops to zero.
    assert_eq!(l.intensity(), 0);
}

#[test]
fn expiry_is_exact_and_monotone() {
    let mut l = clock(500_000, 0, 0, EasingFunction::Linear);
    l.tick(499_999);
    assert!(!l.is_expired());
    l.tick(1);
    assert!(l.is_expired());
    l.tick(1_000_000);
    assert!(l.is_expired());
}

#[test]
fn zero_duration_is_expired_immediately() {
    let l = EffectLifetime::new(0);
    assert!(l.is_expired());
}

#[test]
fn negative_delta_counts_as_zero() {
    let mut l = clock(1_000_000, 0, 0, EasingFunction::Linear);
    l.tick(200_000);
    l.tick(-500_000);
    assert_eq!(l.elapsed, 200_000);
}

#[test]
fn elapsed_saturates_at_the_cap() {
    let mut l = clock(1_000_000, 0, 0, EasingFunction::Linear);
    l.tick(i64::MAX);
    assert_eq!(l.elapsed, ELAPSED_CAP);
    l.tick(i64::MAX);
    assert_eq!(l.elapsed, ELAPSED_CAP);
}

#[test]
fn progress_is_clamped_ratio() {
    let mut l = clock(500_000, 0, 0, EasingFunction::Linear);
    assert_eq!(l.progress(), 0);
    l.tick(125_000);
    assert_eq!(l.progress(), 250_000);
    l.tick(1_000_000);
    assert_eq!(l.progress(), FX_ONE);
}

#[test]
fn ease_out_fade_in_quarter_progress() {
    // Duration half a second, fade-in a tenth, fade-out 0.15, ease-out:
    // half-way through the fade-in the intensity is the eased half.
    let mut l = clock(500_000, 100_000, 150_000, EasingFunction::EaseOut);
    l.tick(50_000);
    assert_eq!(l.intensity(), 750_000);
}
