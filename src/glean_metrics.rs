use vstd::prelude::*;
use std::time::Duration;
use glean::private::TimingDistributionMetric;
use crate::backend::RegistryCall;
use crate::phase::{Phase, TimerId};

verus! {

#[verifier::external_type_specification]
#[verifier::external_body]
pub struct ExTimingDistributionMetric(TimingDistributionMetric);

/// The glean timing distribution metric of each phase, and the log of the
/// calls made on them.
///
/// The log is extended only by the methods below, each of which makes the
/// one glean call that it appends.
pub struct GleanMetrics {
    rasterize_glyphs_time: TimingDistributionMetric,
    framebuild_time: TimingDistributionMetric,
    scenebuild_time: TimingDistributionMetric,
    sceneswap_time: TimingDistributionMetric,
    log: Ghost<Seq<RegistryCall>>,
}

impl GleanMetrics {
    /// The calls made on the metrics so far, oldest first.
    pub closed spec fn calls(&self) -> Seq<RegistryCall> {
        self.log@
    }

    /// The metric that tracks `phase`.
    pub closed spec fn metric_spec(&self, phase: Phase) -> TimingDistributionMetric {
        match phase {
            Phase::RasterizeGlyphs => self.rasterize_glyphs_time,
            Phase::FrameBuild => self.framebuild_time,
            Phase::SceneBuild => self.scenebuild_time,
            Phase::SceneSwap => self.sceneswap_time,
        }
    }

    pub fn new(
        rasterize_glyphs_time: TimingDistributionMetric,
        framebuild_time: TimingDistributionMetric,
        scenebuild_time: TimingDistributionMetric,
        sceneswap_time: TimingDistributionMetric,
    ) -> (r: GleanMetrics)
        ensures
            r.calls() == Seq::<RegistryCall>::empty(),
            r.metric_spec(Phase::RasterizeGlyphs) == rasterize_glyphs_time,
            r.metric_spec(Phase::FrameBuild) == framebuild_time,
            r.metric_spec(Phase::SceneBuild) == scenebuild_time,
            r.metric_spec(Phase::SceneSwap) == sceneswap_time,
    {
        GleanMetrics {
            rasterize_glyphs_time,
            framebuild_time,
            scenebuild_time,
            sceneswap_time,
            log: Ghost(Seq::empty()),
        }
    }

    /// Relies on glean's `TimingDistributionMetric::start` on the `rasterize_glyphs_time`
    /// metric: it starts a timer on the metric and returns its id.
    #[verifier::external_body]
    pub(crate) fn start_rasterize_glyphs_time(&mut self) -> (id: TimerId)
        ensures
            final(self).calls() == old(self).calls().push(RegistryCall::Start(Phase::RasterizeGlyphs, id)),
    {
        TimerId { id: self.rasterize_glyphs_time.start().id }
    }

    /// Relies on glean's `TimingDistributionMetric::stop_and_accumulate` on the `rasterize_glyphs_time`
    /// metric: it stops the timer `id` and adds its elapsed time to the metric.
    #[verifier::external_body]
    pub(crate) fn stop_and_accumulate_rasterize_glyphs_time(&mut self, id: TimerId)
        ensures
            final(self).calls() == old(self).calls().push(RegistryCall::StopAndAccumulate(Phase::RasterizeGlyphs, id)),
    {
        self.rasterize_glyphs_time.stop_and_accumulate(glean::TimerId::from(id.id))
    }

    /// Relies on glean's `TimingDistributionMetric::start` on the `framebuild_time`
    /// metric: it starts a timer on the metric and returns its id.
    #[verifier::external_body]
    pub(crate) fn start_framebuild_time(&mut self) -> (id: TimerId)
        ensures
            final(self).calls() == old(self).calls().push(RegistryCall::Start(Phase::FrameBuild, id)),
    {
        TimerId { id: self.framebuild_time.start().id }
    }

    /// Relies on glean's `TimingDistributionMetric::stop_and_accumulate` on the `framebuild_time`
    /// metric: it stops the timer `id` and adds its elapsed time to the metric.
    #[verifier::external_body]
    pub(crate) fn stop_and_accumulate_framebuild_time(&mut self, id: TimerId)
        ensures
            final(self).calls() == old(self).calls().push(RegistryCall::StopAndAccumulate(Phase::FrameBuild, id)),
    {
        self.framebuild_time.stop_and_accumulate(glean::TimerId::from(id.id))
    }

    /// Relies on glean's `TimingDistributionMetric::accumulate_raw_duration` on the `scenebuild_time`
    /// metric: it adds one externally measured duration to the metric.
    #[verifier::external_body]
    pub(crate) fn record_scenebuild_time(&mut self, duration: Duration)
        ensures
            final(self).calls() == old(self).calls().push(RegistryCall::AccumulateRawDuration(Phase::SceneBuild, duration)),
    {
        self.scenebuild_time.accumulate_raw_duration(duration)
    }

    /// Relies on glean's `TimingDistributionMetric::start` on the `sceneswap_time`
    /// metric: it starts a timer on the metric and returns its id.
    #[verifier::external_body]
    pub(crate) fn start_sceneswap_time(&mut self) -> (id: TimerId)
        ensures
            final(self).calls() == old(self).calls().push(RegistryCall::Start(Phase::SceneSwap, id)),
    {
        TimerId { id: self.sceneswap_time.start().id }
    }

    /// Relies on glean's `TimingDistributionMetric::stop_and_accumulate` on the `sceneswap_time`
    /// metric: it stops the timer `id` and adds its elapsed time to the metric.
    #[verifier::external_body]
    pub(crate) fn stop_and_accumulate_sceneswap_time(&mut self, id: TimerId)
        ensures
            final(self).calls() == old(self).calls().push(RegistryCall::StopAndAccumulate(Phase::SceneSwap, id)),
    {
        self.sceneswap_time.stop_and_accumulate(glean::TimerId::from(id.id))
    }

    /// Relies on glean's `TimingDistributionMetric::cancel` on the `sceneswap_time`
    /// metric: it drops the timer `id` without adding anything to the metric.
    #[verifier::external_body]
    pub(crate) fn cancel_sceneswap_time(&mut self, id: TimerId)
        ensures
            final(self).calls() == old(self).calls().push(RegistryCall::Cancel(Phase::SceneSwap, id)),
    {
        self.sceneswap_time.cancel(glean::TimerId::from(id.id))
    }
}

} // verus!
