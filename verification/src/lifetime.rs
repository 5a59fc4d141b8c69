//! Effect lifetime and timing management.
//!
//! An [`EffectLifetime`] is a per-instance clock: it accumulates elapsed
//! time, reports expiry once the elapsed time reaches the duration, and
//! turns the elapsed time into an intensity through a fade-in / plateau /
//! fade-out envelope shaped by an easing curve.  Times are fixed-point
//! seconds (see [`crate::fx`]): `500_000` is half a second.

use vstd::prelude::*;

use crate::easing::{eased_at, EasingFunction};
use crate::fx::{clamp_unit, ELAPSED_CAP, FX_ONE, TIME_LIMIT};

verus! {

/// Controls the lifetime and intensity curve of an effect.
#[derive(Clone, Copy, PartialEq, Eq, Structural, Debug)]
pub struct EffectLifetime {
    /// Total duration in fixed-point seconds.
    pub duration: i64,
    /// Time spent fading in (included in the duration).
    pub fade_in: i64,
    /// Time spent fading out (included in the duration).
    pub fade_out: i64,
    /// Easing curve applied to the raw fade envelope.
    pub easing: EasingFunction,
    /// Accumulated elapsed time; monotonic non-decreasing, saturating at
    /// [`ELAPSED_CAP`].
    pub elapsed: i64,
}

impl EffectLifetime {
    /// Well-formedness: times are nonnegative and within the machine
    /// bounds that keep the fixed-point arithmetic overflow-free.  A zero
    /// duration is allowed; such an instance counts as expired from its
    /// very first frame.
    pub open spec fn wf(&self) -> bool {
        &&& 0 <= self.duration <= TIME_LIMIT
        &&& 0 <= self.fade_in <= TIME_LIMIT
        &&& 0 <= self.fade_out <= TIME_LIMIT
        &&& 0 <= self.elapsed <= ELAPSED_CAP
    }

    /// Create a new lifetime with the given duration: fade-in of a tenth
    /// of a second, fade-out of three tenths of the duration, linear
    /// easing, nothing elapsed yet.
    pub fn new(duration: i64) -> (r: Self)
        requires
            0 <= duration <= TIME_LIMIT,
        ensures
            r.duration == duration,
            r.fade_in == 100_000,
            r.fade_out == (duration * 3) / 10,
            r.easing == EasingFunction::Linear,
            r.elapsed == 0,
            r.wf(),
    {
        EffectLifetime {
            duration,
            fade_in: 100_000,
            fade_out: (duration * 3) / 10,
            easing: EasingFunction::Linear,
            elapsed: 0,
        }
    }

    /// Set fade-in and fade-out times.
    pub fn with_fades(self, fade_in: i64, fade_out: i64) -> (r: Self)
        requires
            0 <= fade_in <= TIME_LIMIT,
            0 <= fade_out <= TIME_LIMIT,
        ensures
            r == (EffectLifetime { fade_in, fade_out, ..self }),
    {
        EffectLifetime { fade_in, fade_out, ..self }
    }

    /// Set the easing curve.
    pub fn with_easing(self, easing: EasingFunction) -> (r: Self)
        ensures
            r == (EffectLifetime { easing, ..self }),
    {
        EffectLifetime { easing, ..self }
    }

    /// Normalized progress through the duration, clamped to `[0, 1]`.  A
    /// zero-duration lifetime counts as fully progressed.
    pub open spec fn progress_at(&self) -> int {
        if self.duration == 0 {
            FX_ONE as int
        } else {
            clamp_unit((self.elapsed * FX_ONE) / (self.duration as int))
        }
    }

    /// Get normalized progress (`0` to `1` in fixed point).
    pub fn progress(&self) -> (r: i64)
        requires
            self.wf(),
        ensures
            r == self.progress_at(),
    {
        if self.duration == 0 {
            FX_ONE
        } else {
            let scaled: i64 = self.elapsed * FX_ONE;
            crate::fx::fx_clamp_unit(scaled / self.duration)
        }
    }

    /// Whether the effect has expired: elapsed time has reached the
    /// duration.
    pub fn is_expired(&self) -> (r: bool)
        ensures
            r == (self.elapsed >= self.duration),
    {
        self.elapsed >= self.duration
    }

    /// The raw fade envelope at the current elapsed time, before easing:
    /// ramps up over `fade_in`, holds at one, ramps down over the final
    /// `fade_out` of the duration.  A zero `fade_in` starts at full
    /// intensity; a zero `fade_out` holds full intensity through the very
    /// end of the duration and drops to zero only past it.
    pub open spec fn raw_intensity_at(&self) -> int {
        let t = self.elapsed as int;
        let d = self.duration as int;
        let one = FX_ONE as int;
        if t < self.fade_in {
            (t * one) / (self.fade_in as int)
        } else if t + self.fade_out > d {
            if t >= d {
                0
            } else {
                ((d - t) * one) / (self.fade_out as int)
            }
        } else {
            one
        }
    }

    /// The current intensity: the raw fade envelope, clamped to `[0, 1]`,
    /// passed through the easing curve.  The result may leave `[0, 1]`
    /// for overshooting curves; callers must not assume clamped output.
    pub open spec fn intensity_at(&self) -> int {
        eased_at(self.easing, clamp_unit(self.raw_intensity_at()))
    }

    /// The raw envelope already lies inside `[0, 1]`.
    pub proof fn lemma_raw_intensity_in_unit(&self)
        requires
            self.wf(),
        ensures
            0 <= self.raw_intensity_at() <= FX_ONE,
            clamp_unit(self.raw_intensity_at()) == self.raw_intensity_at(),
    {
        let t = self.elapsed as int;
        let d = self.duration as int;
        let one = FX_ONE as int;
        if t < self.fade_in {
            let fi = self.fade_in as int;
            assert(t * one < fi * one) by (nonlinear_arith)
                requires
                    0 <= t < fi,
                    0 < one,
            ;
            vstd::arithmetic::div_mod::lemma_div_is_ordered(0, t * one, fi);
            vstd::arithmetic::div_mod::lemma_div_is_ordered(t * one, fi * one, fi);
            vstd::arithmetic::div_mod::lemma_div_multiples_vanish(one, fi);
        } else if t + self.fade_out > d {
            if t < d {
                let fo = self.fade_out as int;
                assert((d - t) * one <= fo * one) by (nonlinear_arith)
                    requires
                        0 < d - t <= fo,
                        0 < one,
                ;
                vstd::arithmetic::div_mod::lemma_div_is_ordered(0, (d - t) * one, fo);
                vstd::arithmetic::div_mod::lemma_div_is_ordered((d - t) * one, fo * one, fo);
                vstd::arithmetic::div_mod::lemma_div_multiples_vanish(one, fo);
            }
        }
    }

    /// Calculate the current intensity from the fade envelope and easing
    /// curve.
    pub fn intensity(&self) -> (r: i64)
        requires
            self.wf(),
        ensures
            r == self.intensity_at(),
    {
        let t = self.elapsed;
        let d = self.duration;
        let raw: i64 = if t < self.fade_in {
            (t * FX_ONE) / self.fade_in
        } else if self.fade_out > d - t {
            if t >= d {
                0
            } else {
                ((d - t) * FX_ONE) / self.fade_out
            }
        } else {
            FX_ONE
        };
        proof {
            self.lemma_raw_intensity_in_unit();
        }
        self.easing.apply(raw)
    }

    /// Advance the clock by a frame delta.  Negative deltas count as
    /// zero; the elapsed time never decreases and saturates at
    /// [`ELAPSED_CAP`], far beyond any representable duration.
    pub fn tick(&mut self, delta: i64)
        requires
            old(self).wf(),
        ensures
            *final(self) == ticked(*old(self), delta),
            final(self).wf(),
            final(self).elapsed >= old(self).elapsed,
    {
        let d: i64 = if delta < 0 {
            0
        } else {
            delta
        };
        if d >= ELAPSED_CAP - self.elapsed {
            self.elapsed = ELAPSED_CAP;
        } else {
            self.elapsed = self.elapsed + d;
        }
    }
}

/// The lifetime after one clock advance by `delta`: elapsed time grows by
/// `max(delta, 0)`, saturating at [`ELAPSED_CAP`]; nothing else changes.
pub open spec fn ticked(l: EffectLifetime, delta: i64) -> EffectLifetime {
    let d = if delta < 0 {
        0
    } else {
        delta as int
    };
    let e = if l.elapsed + d >= ELAPSED_CAP {
        ELAPSED_CAP as int
    } else {
        l.elapsed + d
    };
    EffectLifetime { elapsed: e as i64, ..l }
}

/// Expiry is monotone: once a lifetime has expired, no further ticking
/// un-expires it.
pub proof fn lemma_expiry_is_monotone(l: EffectLifetime, delta: i64)
    requires
        l.wf(),
        l.elapsed >= l.duration,
    ensures
        ticked(l, delta).elapsed >= ticked(l, delta).duration,
{
}

/// The intensity at the boundaries of the envelope: at the start of a
/// positive fade-in and at the very end of a positive fade-out the
/// intensity is the eased value of zero, and throughout the plateau it is
/// the eased value of one.
pub proof fn lemma_intensity_boundaries(l: EffectLifetime)
    requires
        l.wf(),
        0 < l.duration,
    ensures
        l.elapsed == 0 && 0 < l.fade_in ==> l.intensity_at() == eased_at(l.easing, 0),
        l.elapsed == l.duration && 0 < l.fade_out && l.fade_in <= l.duration ==> l.intensity_at()
            == eased_at(l.easing, 0),
        l.fade_in <= l.elapsed && l.elapsed + l.fade_out <= l.duration ==> l.intensity_at()
            == eased_at(l.easing, FX_ONE as int),
{
    l.lemma_raw_intensity_in_unit();
    if l.elapsed == 0 && 0 < l.fade_in {
        assert(l.raw_intensity_at() == (0 * (FX_ONE as int)) / (l.fade_in as int));
        assert(0 * (FX_ONE as int) == 0) by (nonlinear_arith);
        vstd::arithmetic::div_mod::lemma_div_of0(l.fade_in as int);
    }
}

} // verus!
