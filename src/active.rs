use vstd::prelude::*;
use std::time::Duration;
use glean::private::TimingDistributionMetric;
use crate::backend::{RegistryCall, TimingBackend};
use crate::glean_metrics::GleanMetrics;
use crate::phase::{Phase, TimerId};

verus! {

/// The backend that forwards every operation to the glean timing
/// distribution metric of its phase.
///
/// Its registry calls are those of its [`GleanMetrics`].
pub struct ActiveBackend {
    metrics: GleanMetrics,
}

impl ActiveBackend {
    /// Builds the backend from the metric of each phase.
    pub fn new(
        rasterize_glyphs_time: TimingDistributionMetric,
        framebuild_time: TimingDistributionMetric,
        scenebuild_time: TimingDistributionMetric,
        sceneswap_time: TimingDistributionMetric,
    ) -> (r: ActiveBackend)
        ensures
            r.calls() == Seq::<RegistryCall>::empty(),
            r.metrics_spec().metric_spec(Phase::RasterizeGlyphs) == rasterize_glyphs_time,
            r.metrics_spec().metric_spec(Phase::FrameBuild) == framebuild_time,
            r.metrics_spec().metric_spec(Phase::SceneBuild) == scenebuild_time,
            r.metrics_spec().metric_spec(Phase::SceneSwap) == sceneswap_time,
    {
        ActiveBackend {
            metrics: GleanMetrics::new(
                rasterize_glyphs_time,
                framebuild_time,
                scenebuild_time,
                sceneswap_time,
            ),
        }
    }

    /// The metrics the operations are forwarded to.
    pub closed spec fn metrics_spec(&self) -> GleanMetrics {
        self.metrics
    }
}

impl TimingBackend for ActiveBackend {
    closed spec fn calls(&self) -> Seq<RegistryCall> {
        self.metrics.calls()
    }

    open spec fn records(&self) -> bool {
        true
    }

    fn start_rasterize_glyphs_time(&mut self) -> (id: TimerId) {
        self.metrics.start_rasterize_glyphs_time()
    }

    fn stop_and_accumulate_rasterize_glyphs_time(&mut self, id: TimerId) {
        self.metrics.stop_and_accumulate_rasterize_glyphs_time(id)
    }

    fn start_framebuild_time(&mut self) -> (id: TimerId) {
        self.metrics.start_framebuild_time()
    }

    fn stop_and_accumulate_framebuild_time(&mut self, id: TimerId) {
        self.metrics.stop_and_accumulate_framebuild_time(id)
    }

    fn record_scenebuild_time(&mut self, duration: Duration) {
        self.metrics.record_scenebuild_time(duration)
    }

    fn start_sceneswap_time(&mut self) -> (id: TimerId) {
        self.metrics.start_sceneswap_time()
    }

    fn stop_and_accumulate_sceneswap_time(&mut self, id: TimerId) {
        self.metrics.stop_and_accumulate_sceneswap_time(id)
    }

    fn cancel_sceneswap_time(&mut self, id: TimerId) {
        self.metrics.cancel_sceneswap_time(id)
    }
}

} // verus!
