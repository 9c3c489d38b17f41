use vstd::prelude::*;

verus! {

/// Bounce depth at which a path that still hits a surface is cut off and
/// contributes black.
pub const MAX_DEPTH: i32 = 50;

/// What the integrator does with a ray once the nearest-hit test over the
/// world has been made.
#[derive(Clone, Copy, Debug, PartialEq, Eq, Structural)]
pub enum HitStep {
    /// Nothing was hit: the ray sees the background gradient.
    Background,
    /// A surface was hit below the depth bound: ask its material to scatter.
    Scatter,
    /// A surface was hit at or beyond the depth bound: the path is black.
    Black,
}

/// What the integrator does once a material has been asked to scatter.
#[derive(Clone, Copy, Debug, PartialEq, Eq, Structural)]
pub enum ScatterStep {
    /// Trace the scattered ray at the given depth and tint its color by the
    /// attenuation.
    Trace(i32),
    /// The ray was absorbed: the path is black.
    Black,
}

pub open spec fn hit_step_spec(depth: int, hit: bool) -> HitStep {
    if !hit {
        HitStep::Background
    } else if depth < MAX_DEPTH {
        HitStep::Scatter
    } else {
        HitStep::Black
    }
}

pub open spec fn scatter_step_spec(depth: int, scattered: bool) -> ScatterStep {
    if scattered {
        ScatterStep::Trace((depth + 1) as i32)
    } else {
        ScatterStep::Black
    }
}

/// How many more scatter events a path at `depth` may still have.
pub open spec fn bounces_left(depth: int) -> nat {
    if depth >= MAX_DEPTH {
        0
    } else {
        (MAX_DEPTH - depth) as nat
    }
}

/// Decides the next step of a ray traced at `depth` from whether the world
/// reported a hit.
pub fn hit_step(depth: i32, hit: bool) -> (s: HitStep)
    ensures
        s == hit_step_spec(depth as int, hit),
{
    if !hit {
        HitStep::Background
    } else if depth < MAX_DEPTH {
        HitStep::Scatter
    } else {
        HitStep::Black
    }
}

/// Decides the next step once the material of a hit below the depth bound
/// has scattered the ray or absorbed it.
pub fn scatter_step(depth: i32, scattered: bool) -> (s: ScatterStep)
    requires
        depth < MAX_DEPTH,
    ensures
        s == scatter_step_spec(depth as int, scattered),
{
    if scattered {
        ScatterStep::Trace(depth + 1)
    } else {
        ScatterStep::Black
    }
}

/// Number of scatter requests made by a path traced from `depth` when the
/// successive hit tests and scatter requests come out as `events` says
/// (`(hit, scattered)` for each bounce in turn).
pub open spec fn scatter_requests(depth: int, events: Seq<(bool, bool)>) -> nat
    decreases events.len(),
{
    if events.len() == 0 {
        0
    } else {
        match hit_step_spec(depth, events[0].0) {
            HitStep::Scatter => 1 + match scatter_step_spec(depth, events[0].1) {
                ScatterStep::Trace(next) => scatter_requests(next as int, events.drop_first()),
                ScatterStep::Black => 0,
            },
            _ => 0,
        }
    }
}

/// A ray traced at the depth bound or beyond that hits a surface is black,
/// without consulting the surface's material.
pub proof fn lemma_depth_bound_is_black(depth: int)
    requires
        depth >= MAX_DEPTH,
    ensures
        hit_step_spec(depth, true) == HitStep::Black,
{
}

/// Each scatter moves the path one level deeper, so fewer bounces remain.
pub proof fn lemma_scatter_deepens(depth: int)
    requires
        0 <= depth < MAX_DEPTH,
    ensures
        scatter_step_spec(depth, true) == ScatterStep::Trace((depth + 1) as i32),
        bounces_left(depth + 1) < bounces_left(depth),
{
}

/// Whatever the scene does, a path traced from a non-negative depth asks
/// materials to scatter at most `bounces_left(depth)` times, so every trace
/// ends.
pub proof fn lemma_trace_terminates(depth: int, events: Seq<(bool, bool)>)
    requires
        0 <= depth,
    ensures
        scatter_requests(depth, events) <= bounces_left(depth),
    decreases events.len(),
{
    if events.len() > 0 && depth < MAX_DEPTH && events[0].0 && events[0].1 {
        lemma_trace_terminates(depth + 1, events.drop_first());
    }
}

} // verus!
