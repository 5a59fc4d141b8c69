//! Core effect types: instances, intensity, targets.
//!
//! An [`EffectInstance`] is one spawned, independently timed occurrence of
//! a visual effect: a tagged parameter record, a derived intensity, a
//! lifetime clock, and the target view it is restricted to (or none, for
//! every view).  The engine advances all instances once per frame and
//! removes the expired ones before anything is extracted into buckets.

use vstd::prelude::*;

use crate::distortion::{
    HeatHaze, RadialBlur, Raindrops, Shockwave, WorldHeatShimmer, WorldShockwave,
};
use crate::feedback::{DamageVignette, ScreenFlash, SpeedLines};
use crate::fx::{clamp_unit, fx_clamp_unit, Fx2, FX_ONE, INTENSITY_THRESHOLD};
use crate::glitch::{BlockDisplacement, CrtEffect, EmpInterference, RgbSplit, ScanlineGlitch,
    StaticNoise};
use crate::lifetime::{ticked, EffectLifetime};

verus! {

/// Marker for active screen effects.  Kept as plain data so hosts can tag
/// their own records the way the engine's spawn surface does.
#[derive(Clone, Copy, PartialEq, Eq, Structural, Debug, Default)]
pub struct ScreenEffect;

/// Marker for views that should not receive screen effects: a view
/// carrying it is skipped entirely by the compositor.
#[derive(Clone, Copy, PartialEq, Eq, Structural, Debug, Default)]
pub struct SkipScreenEffects;

/// Identifier of one rendering view (camera).
pub type ViewId = u64;

/// Current intensity multiplier for an effect, kept in `[0, 1]`.
/// Typically driven by [`EffectLifetime`] but can be set manually.
#[derive(Clone, Copy, PartialEq, Eq, Structural, Debug)]
pub struct EffectIntensity(pub i64);

impl Default for EffectIntensity {
    fn default() -> (r: Self)
        ensures
            r.0 == FX_ONE,
    {
        EffectIntensity(FX_ONE)
    }
}

impl EffectIntensity {
    /// Create an intensity, clamped into `[0, 1]`.
    pub fn new(intensity: i64) -> (r: Self)
        ensures
            r.0 == clamp_unit(intensity as int),
    {
        EffectIntensity(fx_clamp_unit(intensity))
    }

    /// The current value.
    pub fn get(&self) -> (r: i64)
        ensures
            r == self.0,
    {
        self.0
    }

    /// Overwrite the value, clamped into `[0, 1]`.
    pub fn set(&mut self, intensity: i64)
        ensures
            final(self).0 == clamp_unit(intensity as int),
    {
        self.0 = fx_clamp_unit(intensity);
    }
}

/// Targets an effect at one specific view.  An instance without a target
/// applies to every view that is not skip-flagged.
#[derive(Clone, Copy, PartialEq, Eq, Structural, Debug)]
pub struct EffectTarget(pub ViewId);

/// Screen position for effects that originate from a point, in normalized
/// screen coordinates with the origin at the top left.
#[derive(Clone, Copy, PartialEq, Eq, Structural, Debug, Default)]
pub struct EffectOrigin(pub Fx2);

impl EffectOrigin {
    /// An origin from explicit coordinates.
    pub fn new(x: i64, y: i64) -> (r: Self)
        ensures
            r.0 == (Fx2 { x, y }),
    {
        EffectOrigin(Fx2 { x, y })
    }

    /// The centre of the screen.
    pub fn center() -> (r: Self)
        ensures
            r.0 == (Fx2 { x: crate::fx::FX_HALF, y: crate::fx::FX_HALF }),
    {
        EffectOrigin(Fx2::half())
    }
}

/// The closed set of effect kinds, one variant per parameter record.  The
/// whole pipeline dispatches on this single enumeration, so the canonical
/// pass order stays centralized.
#[derive(Clone, Copy, PartialEq, Eq, Structural, Debug)]
pub enum EffectParams {
    Shockwave(Shockwave),
    WorldShockwave(WorldShockwave),
    RadialBlur(RadialBlur),
    Raindrops(Raindrops),
    HeatHaze(HeatHaze),
    WorldHeatShimmer(WorldHeatShimmer),
    RgbSplit(RgbSplit),
    ScanlineGlitch(ScanlineGlitch),
    BlockDisplacement(BlockDisplacement),
    StaticNoise(StaticNoise),
    EmpInterference(EmpInterference),
    Crt(CrtEffect),
    DamageVignette(DamageVignette),
    ScreenFlash(ScreenFlash),
    SpeedLines(SpeedLines),
}

impl EffectParams {
    /// Parameter records whose fields enter arithmetic are bounded; the
    /// rest are carried through unchanged and need no constraint.
    pub open spec fn wf(&self) -> bool {
        match *self {
            EffectParams::Shockwave(p) => p.wf(),
            EffectParams::WorldShockwave(p) => p.wf(),
            EffectParams::RadialBlur(p) => p.wf(),
            EffectParams::WorldHeatShimmer(p) => p.wf(),
            _ => true,
        }
    }
}

/// One spawned, independently timed occurrence of a visual effect.
#[derive(Clone, Copy, PartialEq, Eq, Structural, Debug)]
pub struct EffectInstance {
    /// Host-assigned identifier.
    pub id: u64,
    /// The tagged parameter record.
    pub params: EffectParams,
    /// Derived intensity in `[0, 1]`, rewritten from the lifetime every
    /// frame.
    pub intensity: EffectIntensity,
    /// The instance's lifetime clock.
    pub lifetime: EffectLifetime,
    /// The view this instance is restricted to, or `None` for all views.
    pub target: Option<ViewId>,
}

impl EffectInstance {
    /// Well-formedness: the clock and the arithmetic-bearing parameters
    /// are within bounds, and the derived intensity is in `[0, 1]`.
    pub open spec fn wf(&self) -> bool {
        &&& self.lifetime.wf()
        &&& self.params.wf()
        &&& 0 <= self.intensity.0 <= FX_ONE
    }

    /// Whether the instance has expired.
    pub open spec fn expired(&self) -> bool {
        self.lifetime.elapsed >= self.lifetime.duration
    }

    /// Whether the instance contributes to this frame's buckets: its
    /// combined intensity is strictly above the fixed threshold.
    pub open spec fn active(&self) -> bool {
        self.intensity.0 > INTENSITY_THRESHOLD
    }

    /// Exec mirror of [`Self::active`].
    pub fn is_active(&self) -> (r: bool)
        ensures
            r == self.active(),
    {
        self.intensity.0 > INTENSITY_THRESHOLD
    }
}

/// One instance after a frame advance: its clock has ticked by `delta`
/// and its derived intensity has been rewritten from the clock, clamped
/// into `[0, 1]`.
pub open spec fn advanced(inst: EffectInstance, delta: i64) -> EffectInstance {
    let lt = ticked(inst.lifetime, delta);
    EffectInstance {
        lifetime: lt,
        intensity: EffectIntensity(clamp_unit(lt.intensity_at()) as i64),
        ..inst
    }
}

/// A whole instance set after a frame advance: every instance ticked and
/// its intensity rewritten, then the expired ones removed, keeping the
/// original order of the survivors.
pub open spec fn advance_seq(s: Seq<EffectInstance>, delta: i64) -> Seq<EffectInstance>
    decreases s.len(),
{
    if s.len() == 0 {
        Seq::empty()
    } else {
        let rest = advance_seq(s.drop_last(), delta);
        let a = advanced(s.last(), delta);
        if a.expired() {
            rest
        } else {
            rest.push(a)
        }
    }
}

/// Nothing in an advanced instance set is expired, and every survivor is
/// still well formed.
pub proof fn lemma_advance_seq_prunes(s: Seq<EffectInstance>, delta: i64)
    requires
        forall|i: int| 0 <= i < s.len() ==> (#[trigger] s[i]).wf(),
    ensures
        forall|i: int|
            0 <= i < advance_seq(s, delta).len() ==> !(#[trigger] advance_seq(s, delta)[i]).expired(),
        forall|i: int|
            0 <= i < advance_seq(s, delta).len() ==> (#[trigger] advance_seq(s, delta)[i]).wf(),
    decreases s.len(),
{
    if s.len() > 0 {
        lemma_advance_seq_prunes(s.drop_last(), delta);
        let rest = advance_seq(s.drop_last(), delta);
        let a = advanced(s.last(), delta);
        assert(s.last().wf());
        assert(a.wf());
        assert forall|i: int|
            0 <= i < advance_seq(s, delta).len() implies !(#[trigger] advance_seq(s, delta)[i]).expired() by {
            if !a.expired() {
                assert(advance_seq(s, delta) == rest.push(a));
                if i < rest.len() {
                    assert(rest.push(a)[i] == rest[i]);
                } else {
                    assert(rest.push(a)[i] == a);
                }
            }
        }
        assert forall|i: int|
            0 <= i < advance_seq(s, delta).len() implies (#[trigger] advance_seq(s, delta)[i]).wf() by {
            if !a.expired() {
                assert(advance_seq(s, delta) == rest.push(a));
                if i < rest.len() {
                    assert(rest.push(a)[i] == rest[i]);
                } else {
                    assert(rest.push(a)[i] == a);
                }
            }
        }
    }
}

/// Advance every instance's clock by the frame delta, rewrite its derived
/// intensity from the clock, and remove the instances that have expired.
/// This is the engine's sole removal mechanism: removal happens exactly
/// when the elapsed time reaches the duration, so a zero-duration
/// instance is gone on the very first frame, before it could reach any
/// bucket.
pub fn advance_instances(instances: &mut Vec<EffectInstance>, delta: i64)
    requires
        forall|i: int| 0 <= i < old(instances).len() ==> (#[trigger] old(instances)@[i]).wf(),
    ensures
        final(instances)@ == advance_seq(old(instances)@, delta),
        forall|i: int|
            0 <= i < final(instances).len() ==> !(#[trigger] final(instances)@[i]).expired(),
        forall|i: int| 0 <= i < final(instances).len() ==> (#[trigger] final(instances)@[i]).wf(),
{
    let ghost orig = instances@;
    let mut out: Vec<EffectInstance> = Vec::new();
    let mut i: usize = 0;
    while i < instances.len()
        invariant
            instances@ == orig,
            i <= orig.len(),
            forall|j: int| 0 <= j < orig.len() ==> (#[trigger] orig[j]).wf(),
            out@ == advance_seq(orig.take(i as int), delta),
        decreases orig.len() - i,
    {
        let mut inst = instances[i];
        let mut lt = inst.lifetime;
        lt.tick(delta);
        inst.lifetime = lt;
        let v = lt.intensity();
        let mut iv = inst.intensity;
        iv.set(v);
        inst.intensity = iv;
        proof {
            assert(orig.take(i + 1).drop_last() =~= orig.take(i as int));
            assert(orig.take(i + 1).last() == orig[i as int]);
        }
        if !lt.is_expired() {
            out.push(inst);
        }
        i = i + 1;
    }
    proof {
        assert(orig.take(orig.len() as int) =~= orig);
        lemma_advance_seq_prunes(orig, delta);
    }
    *instances = out;
}

} // verus!
