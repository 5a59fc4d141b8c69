//! Exact values of the easing curves at fixed-point sample points.

use screen_effects::easing::EasingFunction;
use screen_effects::fx::FX_ONE;

#[test]
fn linear_is_identity() {
    assert_eq!(EasingFunction::Linear.apply(0), 0);
    assert_eq!(EasingFunction::Linear.apply(137_000), 137_000);
    assert_eq!(EasingFunction::Linear.apply(FX_ONE), FX_ONE);
}

#[test]
fn ease_in_squares_progress() {
    assert_eq!(EasingFunction::EaseIn.apply(0), 0);
    assert_eq!(EasingFunction::EaseIn.apply(500_000), 250_000);
    assert_eq!(EasingFunction::EaseIn.apply(200_000), 40_000);
    assert_eq!(EasingFunction::EaseIn.apply(FX_ONE), FX_ONE);
}

#[test]
fn ease_out_mirrors_ease_in() {
    assert_eq!(EasingFunction::EaseOut.apply(0), 0);
    assert_eq!(EasingFunction::EaseOut.apply(500_000), 750_000);
    assert_eq!(EasingFunction::EaseOut.apply(800_000), 960_000);
    assert_eq!(EasingFunction::EaseOut.apply(FX_ONE), FX_ONE);
}

#[test]
fn ease_in_out_splits_at_half() {
    assert_eq!(EasingFunction::EaseInOut.apply(0), 0);
    assert_eq!(EasingFunction::EaseInOut.apply(250_000), 125_000);
    assert_eq!(EasingFunction::EaseInOut.apply(750_000), 875_000);
    assert_eq!(EasingFunction::EaseInOut.apply(FX_ONE), FX_ONE);
}

#[test]
fn bounce_hits_segment_values() {
    assert_eq!(EasingFunction::Bounce.apply(0), 0);
    assert_eq!(EasingFunction::Bounce.apply(200_000), 302_500);
    assert_eq!(EasingFunction::Bounce.apply(500_000), 765_625);
    // The final segment lands exactly on one at full progress.
    assert_eq!(EasingFunction::Bounce.apply(FX_ONE), FX_ONE);
}

#[test]
fn elastic_exact_at_endpoints() {
    assert_eq!(EasingFunction::Elastic.apply(0), 0);
    assert_eq!(EasingFunction::Elastic.apply(FX_ONE), FX_ONE);
}

#[test]
fn elastic_overshoots_then_settles() {
    // Overshoot peak near a tenth of the way through.
    assert_eq!(EasingFunction::Elastic.apply(100_000), 1_249_999);
    // Dips below one half-way down the decay.
    assert_eq!(EasingFunction::Elastic.apply(250_000), 911_612);
    assert_eq!(EasingFunction::Elastic.apply(500_000), 1_015_624);
}
