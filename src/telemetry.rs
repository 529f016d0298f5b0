use vstd::prelude::*;
use std::time::Duration;
use crate::backend::{logged, RegistryCall, TimingBackend};
use crate::phase::{Phase, TimerId, PLACEHOLDER_TIMER_ID};

verus! {

/// The timing hooks of the pipeline, one group of operations per phase.
///
/// The backend is chosen once, when the facade is built; every operation
/// is one call on it, and none of them can fail.
pub struct Telemetry<B: TimingBackend> {
    backend: B,
}

impl<B: TimingBackend> Telemetry<B> {
    /// The backend the operations are forwarded to.
    pub closed spec fn backend_spec(&self) -> B {
        self.backend
    }

    /// The registry calls made through this facade's backend so far.
    pub open spec fn calls(&self) -> Seq<RegistryCall> {
        self.backend_spec().calls()
    }

    /// Whether the backend makes registry calls at all.
    pub open spec fn records(&self) -> bool {
        self.backend_spec().records()
    }

    /// The registry calls once `call` has been made through this facade.
    pub open spec fn after(&self, call: RegistryCall) -> Seq<RegistryCall> {
        logged(self.records(), self.calls(), call)
    }

    pub fn new(backend: B) -> (r: Telemetry<B>)
        ensures
            r.backend_spec() == backend,
    {
        Telemetry { backend }
    }

    pub fn backend(&self) -> (r: &B)
        ensures
            *r == self.backend_spec(),
    {
        &self.backend
    }

    /// Gives the backend back.
    pub fn into_backend(self) -> (r: B)
        ensures
            r == self.backend_spec(),
    {
        self.backend
    }

    /// Starts timing a glyph rasterization.
    pub fn start_rasterize_glyphs_time(&mut self) -> (id: TimerId)
        ensures
            final(self).records() == old(self).records(),
            final(self).calls() == old(self).after(RegistryCall::Start(Phase::RasterizeGlyphs, id)),
            !old(self).records() ==> id.id == PLACEHOLDER_TIMER_ID,
    {
        self.backend.start_rasterize_glyphs_time()
    }

    /// Ends the glyph rasterization timer `id` and accumulates its time.
    pub fn stop_and_accumulate_rasterize_glyphs_time(&mut self, id: TimerId)
        ensures
            final(self).records() == old(self).records(),
            final(self).calls() == old(self).after(RegistryCall::StopAndAccumulate(Phase::RasterizeGlyphs, id)),
    {
        self.backend.stop_and_accumulate_rasterize_glyphs_time(id)
    }

    /// Starts timing a frame build.
    pub fn start_framebuild_time(&mut self) -> (id: TimerId)
        ensures
            final(self).records() == old(self).records(),
            final(self).calls() == old(self).after(RegistryCall::Start(Phase::FrameBuild, id)),
            !old(self).records() ==> id.id == PLACEHOLDER_TIMER_ID,
    {
        self.backend.start_framebuild_time()
    }

    /// Ends the frame build timer `id` and accumulates its time.
    pub fn stop_and_accumulate_framebuild_time(&mut self, id: TimerId)
        ensures
            final(self).records() == old(self).records(),
            final(self).calls() == old(self).after(RegistryCall::StopAndAccumulate(Phase::FrameBuild, id)),
    {
        self.backend.stop_and_accumulate_framebuild_time(id)
    }

    /// Adds a scene build time that the caller measured itself.
    pub fn record_scenebuild_time(&mut self, duration: Duration)
        ensures
            final(self).records() == old(self).records(),
            final(self).calls() == old(self).after(RegistryCall::AccumulateRawDuration(Phase::SceneBuild, duration)),
    {
        self.backend.record_scenebuild_time(duration)
    }

    /// Starts timing a scene swap.
    pub fn start_sceneswap_time(&mut self) -> (id: TimerId)
        ensures
            final(self).records() == old(self).records(),
            final(self).calls() == old(self).after(RegistryCall::Start(Phase::SceneSwap, id)),
            !old(self).records() ==> id.id == PLACEHOLDER_TIMER_ID,
    {
        self.backend.start_sceneswap_time()
    }

    /// Ends the scene swap timer `id` and accumulates its time.
    pub fn stop_and_accumulate_sceneswap_time(&mut self, id: TimerId)
        ensures
            final(self).records() == old(self).records(),
            final(self).calls() == old(self).after(RegistryCall::StopAndAccumulate(Phase::SceneSwap, id)),
    {
        self.backend.stop_and_accumulate_sceneswap_time(id)
    }

    /// Abandons the scene swap timer `id` without accumulating anything.
    pub fn cancel_sceneswap_time(&mut self, id: TimerId)
        ensures
            final(self).records() == old(self).records(),
            final(self).calls() == old(self).after(RegistryCall::Cancel(Phase::SceneSwap, id)),
    {
        self.backend.cancel_sceneswap_time(id)
    }
}

} // verus!
