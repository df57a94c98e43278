//! Decisions of the recursive path integrator.
//!
//! The integrator alternates floating-point work (intersecting the scene,
//! sampling a scattered ray) with decisions: stop at the depth cutoff,
//! return the background on a miss, return only the emitted light when the
//! material absorbs, or recurse one level deeper when it scatters. The
//! decisions are pure integer-and-enum logic and are made here; the driver
//! performs the float work, reports what happened as an event, and carries
//! out the action this module picks.

use vstd::prelude::*;

verus! {

/// What the scene query and the hit material reported for the current ray.
#[derive(Clone, Copy, Debug, PartialEq, Eq, Structural)]
pub enum TraceEvent {
    /// The ray hit nothing.
    Miss,
    /// The ray hit a surface whose material absorbs the ray.
    HitNoScatter,
    /// The ray hit a surface whose material scatters a new ray.
    HitScatter,
}

/// What the integrator does with the current ray.
#[derive(Clone, Copy, Debug, PartialEq, Eq, Structural)]
pub enum TraceAction {
    /// The recursion bound is spent: contribute no light at all.
    ReturnBlack,
    /// Nothing was hit: the background color is the answer.
    ReturnBackground,
    /// The material only emits: its emitted light is the answer.
    ReturnEmitted,
    /// Follow the scattered ray one level deeper, then combine the emitted
    /// light with the attenuated recursive color.
    RecurseThenCombine { next_depth: i32 },
}

/// One decision of the path integrator. At depth zero or below the answer
/// is black whatever happened — the recursion is bounded — and otherwise
/// the event alone picks the action, with the recursion one level shallower.
pub fn trace_step(depth: i32, event: TraceEvent) -> (a: TraceAction)
    ensures
        depth <= 0 ==> a == TraceAction::ReturnBlack,
        depth > 0 && event is Miss ==> a == TraceAction::ReturnBackground,
        depth > 0 && event is HitNoScatter ==> a == TraceAction::ReturnEmitted,
        depth > 0 && event is HitScatter ==> a == (TraceAction::RecurseThenCombine {
            next_depth: (depth - 1) as i32,
        }),
{
    if depth <= 0 {
        TraceAction::ReturnBlack
    } else {
        match event {
            TraceEvent::Miss => TraceAction::ReturnBackground,
            TraceEvent::HitNoScatter => TraceAction::ReturnEmitted,
            TraceEvent::HitScatter => TraceAction::RecurseThenCombine { next_depth: depth - 1 },
        }
    }
}

} // verus!
