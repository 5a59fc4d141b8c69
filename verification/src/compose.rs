//! Compositing: the ordered pass plan for each eligible view.
//!
//! For one view the compositor walks the fixed canonical pass order —
//! shockwave, radial blur, raindrops, world heat shimmer, RGB split,
//! combined glitch, EMP interference, CRT, damage vignette, screen
//! flash — resolving each slot independently: the view-specific bucket's
//! entry wins if it is nonempty, otherwise the global bucket's entry is
//! used.  A pass with no contributing records, or whose device pipeline
//! is not yet compiled, is skipped silently without breaking the order.
//! Executed passes ping-pong between two buffers: each pass reads the
//! current image and writes the other buffer, which then becomes
//! current; after the chain, the buffer marked current holds the final
//! image.

use vstd::prelude::*;

use crate::effect::ViewId;
use crate::prepare::{
    CrtUniforms, DamageVignetteUniforms, EmpUniforms, GlitchUniforms, PreparedBucket,
    PreparedEffects, RadialBlurUniforms, RaindropsUniforms, RgbSplitUniforms, ScreenFlashUniforms,
    ShockwaveUniforms, WorldHeatShimmerUniforms,
};

verus! {

/// The ten compositing passes, one per effect slot.
#[derive(Clone, Copy, PartialEq, Eq, Structural, Debug)]
pub enum PassKind {
    Shockwave,
    RadialBlur,
    Raindrops,
    WorldHeatShimmer,
    RgbSplit,
    Glitch,
    EmpInterference,
    Crt,
    DamageVignette,
    ScreenFlash,
}

/// The fixed canonical pass order.  Preserving this order is mandatory:
/// the CRT pass, for example, must see raindrops and glitch already
/// applied.
pub open spec fn pass_order() -> Seq<PassKind> {
    seq![
        PassKind::Shockwave,
        PassKind::RadialBlur,
        PassKind::Raindrops,
        PassKind::WorldHeatShimmer,
        PassKind::RgbSplit,
        PassKind::Glitch,
        PassKind::EmpInterference,
        PassKind::Crt,
        PassKind::DamageVignette,
        PassKind::ScreenFlash,
    ]
}

/// Cached device pipeline identifiers, one per pass kind.  A slot is
/// `None` until the host has compiled that pass's pipeline; compilation
/// is lazy and memoized once per effect type.
#[derive(Clone, Copy, PartialEq, Eq, Structural, Debug, Default)]
pub struct EffectPipelines {
    pub shockwave: Option<u64>,
    pub radial_blur: Option<u64>,
    pub raindrops: Option<u64>,
    pub world_heat_shimmer: Option<u64>,
    pub rgb_split: Option<u64>,
    pub glitch: Option<u64>,
    pub emp: Option<u64>,
    pub crt: Option<u64>,
    pub vignette: Option<u64>,
    pub flash: Option<u64>,
}

impl EffectPipelines {
    /// The cached pipeline identifier of one pass kind.
    pub open spec fn id_of(&self, k: PassKind) -> Option<u64> {
        match k {
            PassKind::Shockwave => self.shockwave,
            PassKind::RadialBlur => self.radial_blur,
            PassKind::Raindrops => self.raindrops,
            PassKind::WorldHeatShimmer => self.world_heat_shimmer,
            PassKind::RgbSplit => self.rgb_split,
            PassKind::Glitch => self.glitch,
            PassKind::EmpInterference => self.emp,
            PassKind::Crt => self.crt,
            PassKind::DamageVignette => self.vignette,
            PassKind::ScreenFlash => self.flash,
        }
    }

    /// Whether the pass kind's pipeline is compiled and ready.
    pub open spec fn ready(&self, k: PassKind) -> bool {
        self.id_of(k) is Some
    }

    /// Exec mirror of [`Self::ready`].
    pub fn is_ready(&self, k: PassKind) -> (r: bool)
        ensures
            r == self.ready(k),
    {
        match k {
            PassKind::Shockwave => self.shockwave.is_some(),
            PassKind::RadialBlur => self.radial_blur.is_some(),
            PassKind::Raindrops => self.raindrops.is_some(),
            PassKind::WorldHeatShimmer => self.world_heat_shimmer.is_some(),
            PassKind::RgbSplit => self.rgb_split.is_some(),
            PassKind::Glitch => self.glitch.is_some(),
            PassKind::EmpInterference => self.emp.is_some(),
            PassKind::Crt => self.crt.is_some(),
            PassKind::DamageVignette => self.vignette.is_some(),
            PassKind::ScreenFlash => self.flash.is_some(),
        }
    }

    /// Record a freshly compiled pipeline for a pass kind.  The cache is
    /// memoized: a kind that already has an identifier keeps it.
    pub fn install(&mut self, k: PassKind, id: u64)
        ensures
            final(self).id_of(k) == if old(self).ready(k) {
                old(self).id_of(k)
            } else {
                Some(id)
            },
            forall|j: PassKind| j != k ==> final(self).id_of(j) == old(self).id_of(j),
    {
        match k {
            PassKind::Shockwave => {
                if self.shockwave.is_none() {
                    self.shockwave = Some(id);
                }
            },
            PassKind::RadialBlur => {
                if self.radial_blur.is_none() {
                    self.radial_blur = Some(id);
                }
            },
            PassKind::Raindrops => {
                if self.raindrops.is_none() {
                    self.raindrops = Some(id);
                }
            },
            PassKind::WorldHeatShimmer => {
                if self.world_heat_shimmer.is_none() {
                    self.world_heat_shimmer = Some(id);
                }
            },
            PassKind::RgbSplit => {
                if self.rgb_split.is_none() {
                    self.rgb_split = Some(id);
                }
            },
            PassKind::Glitch => {
                if self.glitch.is_none() {
                    self.glitch = Some(id);
                }
            },
            PassKind::EmpInterference => {
                if self.emp.is_none() {
                    self.emp = Some(id);
                }
            },
            PassKind::Crt => {
                if self.crt.is_none() {
                    self.crt = Some(id);
                }
            },
            PassKind::DamageVignette => {
                if self.vignette.is_none() {
                    self.vignette = Some(id);
                }
            },
            PassKind::ScreenFlash => {
                if self.flash.is_none() {
                    self.flash = Some(id);
                }
            },
        }
    }
}

/// The parameter block bound by one pass invocation.
#[derive(Clone, Copy, PartialEq, Eq, Structural, Debug)]
pub enum PassParams {
    Shockwave(ShockwaveUniforms),
    RadialBlur(RadialBlurUniforms),
    Raindrops(RaindropsUniforms),
    WorldHeatShimmer(WorldHeatShimmerUniforms),
    RgbSplit(RgbSplitUniforms),
    Glitch(GlitchUniforms),
    EmpInterference(EmpUniforms),
    Crt(CrtUniforms),
    DamageVignette(DamageVignetteUniforms),
    ScreenFlash(ScreenFlashUniforms),
}

/// One of the two ping-pong buffers.
#[derive(Clone, Copy, PartialEq, Eq, Structural, Debug)]
pub enum BufferSide {
    A,
    B,
}

/// The other ping-pong buffer.
pub open spec fn flip(s: BufferSide) -> BufferSide {
    match s {
        BufferSide::A => BufferSide::B,
        BufferSide::B => BufferSide::A,
    }
}

/// One full-screen pass invocation: which pass, with which parameters,
/// reading which buffer and writing which.
#[derive(Clone, Copy, PartialEq, Eq, Structural, Debug)]
pub struct PassInvocation {
    pub kind: PassKind,
    pub params: PassParams,
    pub source: BufferSide,
    pub destination: BufferSide,
}

/// The ordered pass plan for one view: the passes to run, in order, and
/// the buffer holding the final image once they have run.  The initial
/// image lives in buffer `A`.
#[derive(PartialEq, Eq, Debug)]
pub struct FramePlan {
    pub passes: Vec<PassInvocation>,
    pub final_side: BufferSide,
}

/// One slot of a prepared bucket, as pass parameters; `None` when no
/// record of that kind contributed.
pub open spec fn slot_of(p: PreparedBucket, k: PassKind) -> Option<PassParams> {
    match k {
        PassKind::Shockwave => match p.shockwave {
            Some(u) => Some(PassParams::Shockwave(u)),
            None => None,
        },
        PassKind::RadialBlur => match p.radial_blur {
            Some(u) => Some(PassParams::RadialBlur(u)),
            None => None,
        },
        PassKind::Raindrops => match p.raindrops {
            Some(u) => Some(PassParams::Raindrops(u)),
            None => None,
        },
        PassKind::WorldHeatShimmer => match p.world_heat_shimmer {
            Some(u) => Some(PassParams::WorldHeatShimmer(u)),
            None => None,
        },
        PassKind::RgbSplit => match p.rgb_split {
            Some(u) => Some(PassParams::RgbSplit(u)),
            None => None,
        },
        PassKind::Glitch => match p.glitch {
            Some(u) => Some(PassParams::Glitch(u)),
            None => None,
        },
        PassKind::EmpInterference => match p.emp {
            Some(u) => Some(PassParams::EmpInterference(u)),
            None => None,
        },
        PassKind::Crt => match p.crt {
            Some(u) => Some(PassParams::Crt(u)),
            None => None,
        },
        PassKind::DamageVignette => match p.vignette {
            Some(u) => Some(PassParams::DamageVignette(u)),
            None => None,
        },
        PassKind::ScreenFlash => match p.flash {
            Some(u) => Some(PassParams::ScreenFlash(u)),
            None => None,
        },
    }
}

/// Exec mirror of [`slot_of`].
fn slot_params(p: &PreparedBucket, k: PassKind) -> (r: Option<PassParams>)
    ensures
        r == slot_of(*p, k),
{
    match k {
        PassKind::Shockwave => match p.shockwave {
            Option::Some(u) => Some(PassParams::Shockwave(u)),
            Option::None => None,
        },
        PassKind::RadialBlur => match p.radial_blur {
            Option::Some(u) => Some(PassParams::RadialBlur(u)),
            Option::None => None,
        },
        PassKind::Raindrops => match p.raindrops {
            Option::Some(u) => Some(PassParams::Raindrops(u)),
            Option::None => None,
        },
        PassKind::WorldHeatShimmer => match p.world_heat_shimmer {
            Option::Some(u) => Some(PassParams::WorldHeatShimmer(u)),
            Option::None => None,
        },
        PassKind::RgbSplit => match p.rgb_split {
            Option::Some(u) => Some(PassParams::RgbSplit(u)),
            Option::None => None,
        },
        PassKind::Glitch => match p.glitch {
            Option::Some(u) => Some(PassParams::Glitch(u)),
            Option::None => None,
        },
        PassKind::EmpInterference => match p.emp {
            Option::Some(u) => Some(PassParams::EmpInterference(u)),
            Option::None => None,
        },
        PassKind::Crt => match p.crt {
            Option::Some(u) => Some(PassParams::Crt(u)),
            Option::None => None,
        },
        PassKind::DamageVignette => match p.vignette {
            Option::Some(u) => Some(PassParams::DamageVignette(u)),
            Option::None => None,
        },
        PassKind::ScreenFlash => match p.flash {
            Option::Some(u) => Some(PassParams::ScreenFlash(u)),
            Option::None => None,
        },
    }
}

/// The first bucket stored under a key, if any.
pub open spec fn lookup(
    bs: Seq<(Option<ViewId>, PreparedBucket)>,
    key: Option<ViewId>,
) -> Option<PreparedBucket>
    decreases bs.len(),
{
    if bs.len() == 0 {
        None
    } else if bs[0].0 == key {
        Some(bs[0].1)
    } else {
        lookup(bs.drop_first(), key)
    }
}

/// Exec mirror of [`lookup`].
fn lookup_bucket(prepared: &PreparedEffects, key: Option<ViewId>) -> (r: Option<PreparedBucket>)
    ensures
        r == lookup(prepared.buckets@, key),
{
    let ghost bs = prepared.buckets@;
    proof {
        assert(bs.skip(0) =~= bs);
    }
    let mut j: usize = 0;
    while j < prepared.buckets.len()
        invariant
            j <= bs.len(),
            prepared.buckets@ == bs,
            lookup(bs, key) == lookup(bs.skip(j as int), key),
        decreases bs.len() - j,
    {
        proof {
            assert(bs.skip(j as int).len() > 0);
            assert(bs.skip(j as int)[0] == bs[j as int]);
            assert(bs.skip(j as int).drop_first() =~= bs.skip(j + 1));
        }
        let entry = &prepared.buckets[j];
        if crate::extract::same_target(entry.0, key) {
            return Some(entry.1);
        }
        j = j + 1;
    }
    proof {
        assert(bs.skip(bs.len() as int) =~= Seq::<(Option<ViewId>, PreparedBucket)>::empty());
    }
    None
}

impl PreparedEffects {
    /// The prepared bucket of effects that apply to all views, if any.
    pub fn global_bucket(&self) -> (r: Option<PreparedBucket>)
        ensures
            r == lookup(self.buckets@, None::<ViewId>),
    {
        lookup_bucket(self, None)
    }

    /// The prepared bucket targeted at one specific view, if any.
    pub fn camera_bucket(&self, view: ViewId) -> (r: Option<PreparedBucket>)
        ensures
            r == lookup(self.buckets@, Some(view)),
    {
        lookup_bucket(self, Some(view))
    }
}

/// Resolve one slot for a concrete view: the view-specific bucket's
/// entry if it is nonempty, otherwise the global bucket's entry.
/// Resolution is independent per slot — a view-specific entry in one
/// slot never suppresses a global entry in another.
pub open spec fn resolve_slot(
    bs: Seq<(Option<ViewId>, PreparedBucket)>,
    view: ViewId,
    k: PassKind,
) -> Option<PassParams> {
    let from_view = match lookup(bs, Some(view)) {
        Some(b) => slot_of(b, k),
        None => None,
    };
    match from_view {
        Some(p) => Some(p),
        None => match lookup(bs, None) {
            Some(b) => slot_of(b, k),
            None => None,
        },
    }
}

/// Whether a pass executes for a view: its resolved slot has at least
/// one contributing record and its pipeline is ready.
pub open spec fn executes(
    bs: Seq<(Option<ViewId>, PreparedBucket)>,
    view: ViewId,
    k: PassKind,
    pipes: EffectPipelines,
) -> bool {
    resolve_slot(bs, view, k) is Some && pipes.ready(k)
}

/// The plan built from a prefix of the canonical pass order, starting
/// with the current image in buffer `A`: the executed passes in order,
/// each reading the buffer the previous one wrote, and the buffer left
/// holding the image.
pub open spec fn plan_prefix(
    bs: Seq<(Option<ViewId>, PreparedBucket)>,
    view: ViewId,
    pipes: EffectPipelines,
    order: Seq<PassKind>,
) -> (Seq<PassInvocation>, BufferSide)
    decreases order.len(),
{
    if order.len() == 0 {
        (Seq::empty(), BufferSide::A)
    } else {
        let (ps, side) = plan_prefix(bs, view, pipes, order.drop_last());
        let k = order.last();
        if executes(bs, view, k, pipes) {
            (
                ps.push(
                    PassInvocation {
                        kind: k,
                        params: resolve_slot(bs, view, k)->Some_0,
                        source: side,
                        destination: flip(side),
                    },
                ),
                flip(side),
            )
        } else {
            (ps, side)
        }
    }
}

/// Resolve one slot for a view (exec mirror of [`resolve_slot`], over
/// already looked-up buckets).
fn resolved_params(
    view_bucket: &Option<PreparedBucket>,
    global_bucket: &Option<PreparedBucket>,
    ghost_bs: Ghost<Seq<(Option<ViewId>, PreparedBucket)>>,
    ghost_view: Ghost<ViewId>,
    k: PassKind,
) -> (r: Option<PassParams>)
    requires
        *view_bucket == lookup(ghost_bs@, Some(ghost_view@)),
        *global_bucket == lookup(ghost_bs@, None::<ViewId>),
    ensures
        r == resolve_slot(ghost_bs@, ghost_view@, k),
{
    let from_view: Option<PassParams> = match view_bucket {
        Option::Some(b) => slot_params(b, k),
        Option::None => None,
    };
    match from_view {
        Option::Some(p) => Some(p),
        Option::None => match global_bucket {
            Option::Some(b) => slot_params(b, k),
            Option::None => None,
        },
    }
}

/// Build the ordered pass plan for one view.  A skip-flagged view gets
/// an empty plan with the image left where it started; otherwise the
/// canonical order is walked, resolving each slot against the
/// view-specific and global buckets and skipping absent or not-yet-ready
/// passes without breaking the order.
pub fn compose_view(
    prepared: &PreparedEffects,
    view: ViewId,
    skip: bool,
    pipelines: &EffectPipelines,
) -> (r: FramePlan)
    ensures
        skip ==> r.passes@.len() == 0 && r.final_side == BufferSide::A,
        !skip ==> (r.passes@, r.final_side) == plan_prefix(
            prepared.buckets@,
            view,
            *pipelines,
            pass_order(),
        ),
{
    if skip {
        return FramePlan { passes: Vec::new(), final_side: BufferSide::A };
    }
    let ghost bs = prepared.buckets@;
    let view_bucket = lookup_bucket(prepared, Some(view));
    let global_bucket = lookup_bucket(prepared, None);
    let mut order: Vec<PassKind> = Vec::new();
    order.push(PassKind::Shockwave);
    order.push(PassKind::RadialBlur);
    order.push(PassKind::Raindrops);
    order.push(PassKind::WorldHeatShimmer);
    order.push(PassKind::RgbSplit);
    order.push(PassKind::Glitch);
    order.push(PassKind::EmpInterference);
    order.push(PassKind::Crt);
    order.push(PassKind::DamageVignette);
    order.push(PassKind::ScreenFlash);
    proof {
        assert(order@ =~= pass_order());
    }
    let mut passes: Vec<PassInvocation> = Vec::new();
    let mut side: BufferSide = BufferSide::A;
    let mut i: usize = 0;
    while i < order.len()
        invariant
            i <= order@.len(),
            order@ == pass_order(),
            view_bucket == lookup(bs, Some(view)),
            global_bucket == lookup(bs, None::<ViewId>),
            prepared.buckets@ == bs,
            (passes@, side) == plan_prefix(bs, view, *pipelines, pass_order().take(i as int)),
        decreases order@.len() - i,
    {
        proof {
            assert(pass_order().take(i + 1).drop_last() =~= pass_order().take(i as int));
            assert(pass_order().take(i + 1).last() == pass_order()[i as int]);
        }
        let k = order[i];
        if pipelines.is_ready(k) {
            match resolved_params(&view_bucket, &global_bucket, Ghost(bs), Ghost(view), k) {
                Option::Some(params) => {
                    let dest = match side {
                        BufferSide::A => BufferSide::B,
                        BufferSide::B => BufferSide::A,
                    };
                    passes.push(
                        PassInvocation { kind: k, params, source: side, destination: dest },
                    );
                    side = dest;
                },
                Option::None => {},
            }
        }
        i = i + 1;
    }
    proof {
        assert(pass_order().take(pass_order().len() as int) =~= pass_order());
    }
    FramePlan { passes, final_side: side }
}

/// Which buffer is current after `n` executed passes: the image starts
/// in buffer `A` and each executed pass moves it to the other buffer.
pub open spec fn side_at(n: int) -> BufferSide {
    if n % 2 == 0 {
        BufferSide::A
    } else {
        BufferSide::B
    }
}

/// The chain a plan prescribes is sound: every planned pass resolves to
/// a nonempty slot with a ready pipeline and carries that slot's
/// parameters; the passes appear in canonical order; each pass reads the
/// buffer the previous pass wrote (ping-pong from buffer `A`); and the
/// final image is in the buffer the last pass wrote.  In particular a
/// slot with zero contributing records for a view never executes.
pub proof fn lemma_plan_sound(
    bs: Seq<(Option<ViewId>, PreparedBucket)>,
    view: ViewId,
    pipes: EffectPipelines,
    order: Seq<PassKind>,
)
    ensures
        ({
            let (ps, side) = plan_prefix(bs, view, pipes, order);
            &&& ps.len() <= order.len()
            &&& side == side_at(ps.len() as int)
            &&& forall|j: int|
                0 <= j < ps.len() ==> executes(bs, view, (#[trigger] ps[j]).kind, pipes)
            &&& forall|j: int|
                0 <= j < ps.len() ==> Some((#[trigger] ps[j]).params) == resolve_slot(
                    bs,
                    view,
                    ps[j].kind,
                )
            &&& forall|j: int|
                0 <= j < ps.len() ==> (#[trigger] ps[j]).source == side_at(j)
                    && ps[j].destination == side_at(j + 1)
        }),
    decreases order.len(),
{
    if order.len() > 0 {
        lemma_plan_sound(bs, view, pipes, order.drop_last());
    }
}

/// The chain order is strict: the kinds of a plan's passes are exactly
/// the walked order with the non-executing kinds dropped — no pass ever
/// runs out of order, and skipping an absent pass never reorders the
/// rest.
pub proof fn lemma_plan_follows_order(
    bs: Seq<(Option<ViewId>, PreparedBucket)>,
    view: ViewId,
    pipes: EffectPipelines,
    order: Seq<PassKind>,
)
    ensures
        plan_prefix(bs, view, pipes, order).0.map_values(|p: PassInvocation| p.kind)
            == order.filter(|k: PassKind| executes(bs, view, k, pipes)),
    decreases order.len(),
{
    reveal(Seq::filter);
    let keep = |k: PassKind| executes(bs, view, k, pipes);
    let to_kind = |p: PassInvocation| p.kind;
    if order.len() == 0 {
        assert(plan_prefix(bs, view, pipes, order).0.map_values(to_kind) =~= order.filter(keep));
    } else {
        lemma_plan_follows_order(bs, view, pipes, order.drop_last());
        let (ps, side) = plan_prefix(bs, view, pipes, order.drop_last());
        let k = order.last();
        if executes(bs, view, k, pipes) {
            let inv = PassInvocation {
                kind: k,
                params: resolve_slot(bs, view, k)->Some_0,
                source: side,
                destination: flip(side),
            };
            assert(plan_prefix(bs, view, pipes, order).0 == ps.push(inv));
            assert(ps.push(inv).map_values(to_kind) =~= ps.map_values(to_kind).push(k));
            assert(order.filter(keep) == order.drop_last().filter(keep).push(k));
        } else {
            assert(plan_prefix(bs, view, pipes, order).0 == ps);
            assert(order.filter(keep) == order.drop_last().filter(keep));
        }
    }
}

/// A pass whose resolved slot has no contributing records for the view,
/// or whose pipeline is not ready, never appears in the view's plan.
pub proof fn lemma_absent_pass_skipped(
    bs: Seq<(Option<ViewId>, PreparedBucket)>,
    view: ViewId,
    pipes: EffectPipelines,
    k: PassKind,
)
    requires
        !executes(bs, view, k, pipes),
    ensures
        forall|j: int|
            0 <= j < plan_prefix(bs, view, pipes, pass_order()).0.len() ==> (#[trigger] plan_prefix(
                bs,
                view,
                pipes,
                pass_order(),
            ).0[j]).kind != k,
{
    lemma_plan_sound(bs, view, pipes, pass_order());
}

} // verus!
