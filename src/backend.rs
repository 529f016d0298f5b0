use vstd::prelude::*;
use std::time::Duration;
use crate::phase::{Phase, TimerId, PLACEHOLDER_TIMER_ID};

verus! {

/// One call made on the metrics registry: a primitive of the metric that
/// tracks `Phase`, with the handle or the duration it was given.
#[derive(Clone, Copy, Debug, PartialEq)]
pub enum RegistryCall {
    Start(Phase, TimerId),
    StopAndAccumulate(Phase, TimerId),
    Cancel(Phase, TimerId),
    AccumulateRawDuration(Phase, Duration),
}

impl RegistryCall {
    /// Whether the call adds a measurement to its metric's total.
    pub open spec fn accumulates(self) -> bool {
        match self {
            RegistryCall::StopAndAccumulate(_, _) => true,
            RegistryCall::AccumulateRawDuration(_, _) => true,
            _ => false,
        }
    }
}

/// The registry calls after `call` was made by a backend that either
/// records its calls (`records`) or makes none at all.
pub open spec fn logged(records: bool, calls: Seq<RegistryCall>, call: RegistryCall) -> Seq<
    RegistryCall,
> {
    if records {
        calls.push(call)
    } else {
        calls
    }
}

/// A destination for phase timings, with one operation per phase and
/// primitive.
///
/// `calls` is the sequence of registry calls the backend has made so far.
/// A backend that `records` makes exactly the registry call each operation
/// names; one that does not makes none and hands out the placeholder handle.
pub trait TimingBackend {
    spec fn calls(&self) -> Seq<RegistryCall>;

    spec fn records(&self) -> bool;

    /// Starts timing a glyph rasterization.
    fn start_rasterize_glyphs_time(&mut self) -> (id: TimerId)
        ensures
            final(self).records() == old(self).records(),
            final(self).calls() == logged(old(self).records(), old(self).calls(), RegistryCall::Start(Phase::RasterizeGlyphs, id)),
            !old(self).records() ==> id.id == PLACEHOLDER_TIMER_ID,
    ;

    /// Ends the glyph rasterization timer `id` and accumulates its time.
    fn stop_and_accumulate_rasterize_glyphs_time(&mut self, id: TimerId)
        ensures
            final(self).records() == old(self).records(),
            final(self).calls() == logged(old(self).records(), old(self).calls(), RegistryCall::StopAndAccumulate(Phase::RasterizeGlyphs, id)),
    ;

    /// Starts timing a frame build.
    fn start_framebuild_time(&mut self) -> (id: TimerId)
        ensures
            final(self).records() == old(self).records(),
            final(self).calls() == logged(old(self).records(), old(self).calls(), RegistryCall::Start(Phase::FrameBuild, id)),
            !old(self).records() ==> id.id == PLACEHOLDER_TIMER_ID,
    ;

    /// Ends the frame build timer `id` and accumulates its time.
    fn stop_and_accumulate_framebuild_time(&mut self, id: TimerId)
        ensures
            final(self).records() == old(self).records(),
            final(self).calls() == logged(old(self).records(), old(self).calls(), RegistryCall::StopAndAccumulate(Phase::FrameBuild, id)),
    ;

    /// Adds a scene build time that the caller measured itself.
    fn record_scenebuild_time(&mut self, duration: Duration)
        ensures
            final(self).records() == old(self).records(),
            final(self).calls() == logged(old(self).records(), old(self).calls(), RegistryCall::AccumulateRawDuration(Phase::SceneBuild, duration)),
    ;

    /// Starts timing a scene swap.
    fn start_sceneswap_time(&mut self) -> (id: TimerId)
        ensures
            final(self).records() == old(self).records(),
            final(self).calls() == logged(old(self).records(), old(self).calls(), RegistryCall::Start(Phase::SceneSwap, id)),
            !old(self).records() ==> id.id == PLACEHOLDER_TIMER_ID,
    ;

    /// Ends the scene swap timer `id` and accumulates its time.
    fn stop_and_accumulate_sceneswap_time(&mut self, id: TimerId)
        ensures
            final(self).records() == old(self).records(),
            final(self).calls() == logged(old(self).records(), old(self).calls(), RegistryCall::StopAndAccumulate(Phase::SceneSwap, id)),
    ;

    /// Abandons the scene swap timer `id` without accumulating anything.
    fn cancel_sceneswap_time(&mut self, id: TimerId)
        ensures
            final(self).records() == old(self).records(),
            final(self).calls() == logged(old(self).records(), old(self).calls(), RegistryCall::Cancel(Phase::SceneSwap, id)),
    ;
}

/// The backend of builds without telemetry: every operation does nothing.
#[derive(Clone, Copy, Debug, PartialEq, Eq, Structural, Default)]
pub struct StubBackend;

impl TimingBackend for StubBackend {
    open spec fn calls(&self) -> Seq<RegistryCall> {
        Seq::empty()
    }

    open spec fn records(&self) -> bool {
        false
    }

    fn start_rasterize_glyphs_time(&mut self) -> (id: TimerId) {
        TimerId::placeholder()
    }

    fn stop_and_accumulate_rasterize_glyphs_time(&mut self, id: TimerId) {
    }

    fn start_framebuild_time(&mut self) -> (id: TimerId) {
        TimerId::placeholder()
    }

    fn stop_and_accumulate_framebuild_time(&mut self, id: TimerId) {
    }

    fn record_scenebuild_time(&mut self, duration: Duration) {
    }

    fn start_sceneswap_time(&mut self) -> (id: TimerId) {
        TimerId::placeholder()
    }

    fn stop_and_accumulate_sceneswap_time(&mut self, id: TimerId) {
    }

    fn cancel_sceneswap_time(&mut self, id: TimerId) {
    }
}

/// A backend that keeps every registry call in memory, in order, and
/// numbers its timers from 1.
#[derive(Debug)]
pub struct RecordingBackend {
    log: Vec<RegistryCall>,
    next_id: u64,
}

impl RecordingBackend {
    pub fn new() -> (r: RecordingBackend)
        ensures
            r.calls() == Seq::<RegistryCall>::empty(),
    {
        RecordingBackend { log: Vec::new(), next_id: 1 }
    }

    /// The registry calls made so far, oldest first.
    pub fn recorded(&self) -> (r: &[RegistryCall])
        ensures
            r@ == self.calls(),
    {
        self.log.as_slice()
    }

    /// Hands out the next timer id; the log is left as it was.
    fn issue_id(&mut self) -> (id: TimerId)
        ensures
            final(self).log@ == old(self).log@,
    {
        let id = TimerId { id: self.next_id };
        self.next_id = self.next_id.wrapping_add(1);
        id
    }
}

impl TimingBackend for RecordingBackend {
    closed spec fn calls(&self) -> Seq<RegistryCall> {
        self.log@
    }

    open spec fn records(&self) -> bool {
        true
    }

    fn start_rasterize_glyphs_time(&mut self) -> (id: TimerId) {
        let id = self.issue_id();
        self.log.push(RegistryCall::Start(Phase::RasterizeGlyphs, id));
        id
    }

    fn stop_and_accumulate_rasterize_glyphs_time(&mut self, id: TimerId) {
        self.log.push(RegistryCall::StopAndAccumulate(Phase::RasterizeGlyphs, id));
    }

    fn start_framebuild_time(&mut self) -> (id: TimerId) {
        let id = self.issue_id();
        self.log.push(RegistryCall::Start(Phase::FrameBuild, id));
        id
    }

    fn stop_and_accumulate_framebuild_time(&mut self, id: TimerId) {
        self.log.push(RegistryCall::StopAndAccumulate(Phase::FrameBuild, id));
    }

    fn record_scenebuild_time(&mut self, duration: Duration) {
        self.log.push(RegistryCall::AccumulateRawDuration(Phase::SceneBuild, duration));
    }

    fn start_sceneswap_time(&mut self) -> (id: TimerId) {
        let id = self.issue_id();
        self.log.push(RegistryCall::Start(Phase::SceneSwap, id));
        id
    }

    fn stop_and_accumulate_sceneswap_time(&mut self, id: TimerId) {
        self.log.push(RegistryCall::StopAndAccumulate(Phase::SceneSwap, id));
    }

    fn cancel_sceneswap_time(&mut self, id: TimerId) {
        self.log.push(RegistryCall::Cancel(Phase::SceneSwap, id));
    }
}

} // verus!
