use vstd::prelude::*;

verus! {

/// The id that a backend with no bookkeeping hands out for every timer.
pub const PLACEHOLDER_TIMER_ID: u64 = 0;

/// An opaque token that ties a timer's start to its terminal call.
///
/// Only the backend that issued it gives it any meaning.
#[derive(Clone, Copy, Debug, PartialEq, Eq, Structural, Hash)]
pub struct TimerId {
    pub id: u64,
}

impl TimerId {
    /// The fixed handle of a backend that keeps no timers.
    pub fn placeholder() -> (r: TimerId)
        ensures
            r.id == PLACEHOLDER_TIMER_ID,
    {
        TimerId { id: PLACEHOLDER_TIMER_ID }
    }
}

/// The timed phases of the pipeline, each tracked by one named metric.
#[derive(Clone, Copy, Debug, PartialEq, Eq, Structural, Hash)]
pub enum Phase {
    RasterizeGlyphs,
    FrameBuild,
    SceneBuild,
    SceneSwap,
}

impl Phase {
    /// The name of the metric that accumulates this phase's durations.
    pub open spec fn metric_name_spec(self) -> Seq<char> {
        match self {
            Phase::RasterizeGlyphs => "rasterize_glyphs_time"@,
            Phase::FrameBuild => "framebuild_time"@,
            Phase::SceneBuild => "scenebuild_time"@,
            Phase::SceneSwap => "sceneswap_time"@,
        }
    }

    pub fn metric_name(&self) -> (r: &'static str)
        ensures
            r@ == self.metric_name_spec(),
    {
        match self {
            Phase::RasterizeGlyphs => "rasterize_glyphs_time",
            Phase::FrameBuild => "framebuild_time",
            Phase::SceneBuild => "scenebuild_time",
            Phase::SceneSwap => "sceneswap_time",
        }
    }
}

} // verus!
