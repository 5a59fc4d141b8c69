//! The per-frame pipeline, as one explicit frame context.
//!
//! Once per rendered frame, strictly in sequence: every instance's
//! lifetime is advanced and the expired instances are removed; the
//! surviving instances are extracted into per-target buckets; the
//! buckets are prepared into per-pass parameter blocks; and an ordered
//! pass plan is composed for every eligible view.  No state carries
//! across frames except each instance's own clock: buckets and plans
//! are rebuilt from scratch, never merged forward.

use vstd::prelude::*;

use crate::compose::{compose_view, pass_order, plan_prefix, BufferSide, EffectPipelines,
    FramePlan};
use crate::effect::{advance_instances, advance_seq, EffectInstance, ViewId};
use crate::extract::{bucket_matches, distinct_targets, extract_effects, wf_snapshot,
    ExtractedEffects};
use crate::prepare::{prepare_effects, prepare_seq, PreparedEffects};
use crate::project::CameraView;

verus! {

/// One rendering view for the frame: its identifier and whether its
/// skip flag disables all effects for it.
#[derive(Clone, Copy, PartialEq, Eq, Structural, Debug)]
pub struct ViewInfo {
    pub id: ViewId,
    pub skip: bool,
}

/// Everything one frame of the pipeline produced: the extracted
/// buckets, the prepared pass data, and one pass plan per view.
#[derive(PartialEq, Eq, Debug)]
pub struct FrameOutput {
    pub extracted: ExtractedEffects,
    pub prepared: PreparedEffects,
    pub plans: Vec<(ViewId, FramePlan)>,
}

/// Run one frame of the pipeline.
///
/// Advances every instance by `delta` and removes the expired ones (a
/// zero-duration instance is gone before it could reach any bucket, even
/// on its very first frame); extracts the survivors into per-target
/// buckets, re-projecting world-anchored effects through the primary
/// camera (or skipping them when there is none); prepares each nonempty
/// bucket's parameter blocks; and composes the ordered pass plan of
/// every view, resolving each slot against the view-specific and global
/// buckets.  Skip-flagged views get an empty plan.
pub fn run_frame(
    instances: &mut Vec<EffectInstance>,
    cam: &Option<CameraView>,
    views: &Vec<ViewInfo>,
    pipelines: &EffectPipelines,
    time: i64,
    delta: i64,
    viewport: Option<(u32, u32)>,
) -> (out: FrameOutput)
    requires
        wf_snapshot(old(instances)@),
        (*cam) is Some ==> (*cam)->Some_0.wf(),
    ensures
        final(instances)@ == advance_seq(old(instances)@, delta),
        forall|i: int|
            0 <= i < final(instances).len() ==> !(#[trigger] final(instances)@[i]).expired(),
        out.extracted.time == time,
        out.extracted.delta_time == delta,
        out.extracted.buckets@.len() == distinct_targets(final(instances)@).len(),
        forall|j: int|
            0 <= j < out.extracted.buckets@.len() ==> (#[trigger] out.extracted.buckets@[j]).0
                == distinct_targets(final(instances)@)[j],
        forall|j: int|
            0 <= j < out.extracted.buckets@.len() ==> bucket_matches(
                #[trigger] out.extracted.buckets@[j],
                final(instances)@,
                *cam,
            ),
        out.prepared.buckets@ == prepare_seq(out.extracted.buckets@, time, viewport),
        out.plans@.len() == views@.len(),
        forall|j: int| 0 <= j < views@.len() ==> (#[trigger] out.plans@[j]).0 == views@[j].id,
        forall|j: int|
            0 <= j < views@.len() && views@[j].skip ==> (#[trigger] out.plans@[j]).1.passes@.len()
                == 0 && out.plans@[j].1.final_side == BufferSide::A,
        forall|j: int|
            0 <= j < views@.len() && !views@[j].skip ==> ((#[trigger] out.plans@[j]).1.passes@,
            out.plans@[j].1.final_side) == plan_prefix(
                out.prepared.buckets@,
                views@[j].id,
                *pipelines,
                pass_order(),
            ),
{
    advance_instances(instances, delta);
    let extracted = extract_effects(instances, cam, time, delta);
    let prepared = prepare_effects(&extracted, viewport);
    let mut plans: Vec<(ViewId, FramePlan)> = Vec::new();
    let mut j: usize = 0;
    while j < views.len()
        invariant
            j <= views@.len(),
            plans@.len() == j,
            prepared.buckets@ == prepare_seq(extracted.buckets@, time, viewport),
            forall|k: int| 0 <= k < j ==> (#[trigger] plans@[k]).0 == views@[k].id,
            forall|k: int|
                0 <= k < j && views@[k].skip ==> (#[trigger] plans@[k]).1.passes@.len() == 0
                    && plans@[k].1.final_side == BufferSide::A,
            forall|k: int|
                0 <= k < j && !views@[k].skip ==> ((#[trigger] plans@[k]).1.passes@,
                plans@[k].1.final_side) == plan_prefix(
                    prepared.buckets@,
                    views@[k].id,
                    *pipelines,
                    pass_order(),
                ),
        decreases views@.len() - j,
    {
        let view = views[j];
        let plan = compose_view(&prepared, view.id, view.skip, pipelines);
        plans.push((view.id, plan));
        j = j + 1;
    }
    FrameOutput { extracted, prepared, plans }
}

} // verus!
