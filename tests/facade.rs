use std::time::Duration;

use glean::private::TimingDistributionMetric;
use glean::{CommonMetricData, Lifetime, TimeUnit};
use wr_telemetry::{
    ActiveBackend, Phase, RecordingBackend, RegistryCall, StubBackend, Telemetry, TimerId,
    PLACEHOLDER_TIMER_ID,
};

fn recording() -> Telemetry<RecordingBackend> {
    Telemetry::new(RecordingBackend::new())
}

fn calls(t: &Telemetry<RecordingBackend>) -> Vec<RegistryCall> {
    t.backend().recorded().to_vec()
}

fn wr_metric(name: &str) -> TimingDistributionMetric {
    TimingDistributionMetric::new(
        CommonMetricData {
            name: name.to_string(),
            category: "wr".to_string(),
            send_in_pings: vec!["metrics".to_string()],
            lifetime: Lifetime::Ping,
            ..Default::default()
        },
        TimeUnit::Millisecond,
    )
}

#[test]
fn rasterize_glyphs_start_stop_scenario() {
    let mut t = recording();
    let id = t.start_rasterize_glyphs_time();
    t.stop_and_accumulate_rasterize_glyphs_time(id);
    assert_eq!(
        calls(&t),
        vec![
            RegistryCall::Start(Phase::RasterizeGlyphs, id),
            RegistryCall::StopAndAccumulate(Phase::RasterizeGlyphs, id),
        ]
    );
    assert_eq!(Phase::RasterizeGlyphs.metric_name(), "rasterize_glyphs_time");
}

#[test]
fn rasterize_glyphs_start_stop_on_stub_makes_no_calls() {
    let mut t = Telemetry::new(StubBackend);
    let id = t.start_rasterize_glyphs_time();
    assert_eq!(id, TimerId { id: PLACEHOLDER_TIMER_ID });
    t.stop_and_accumulate_rasterize_glyphs_time(id);
    assert_eq!(*t.backend(), StubBackend);
}

#[test]
fn sceneswap_cancel_scenario() {
    let mut t = recording();
    let id = t.start_sceneswap_time();
    t.cancel_sceneswap_time(id);
    let c = calls(&t);
    assert_eq!(
        c,
        vec![
            RegistryCall::Start(Phase::SceneSwap, id),
            RegistryCall::Cancel(Phase::SceneSwap, id),
        ]
    );
    assert!(!c.iter().any(|call| matches!(
        call,
        RegistryCall::StopAndAccumulate(..) | RegistryCall::AccumulateRawDuration(..)
    )));
}

#[test]
fn scenebuild_record_scenario() {
    let mut t = recording();
    t.record_scenebuild_time(Duration::from_millis(12));
    assert_eq!(
        calls(&t),
        vec![RegistryCall::AccumulateRawDuration(Phase::SceneBuild, Duration::from_millis(12))]
    );
    assert_eq!(Phase::SceneBuild.metric_name(), "scenebuild_time");
}

#[test]
fn framebuild_pair_threads_the_handle() {
    let mut t = recording();
    let first = t.start_framebuild_time();
    let second = t.start_framebuild_time();
    assert_ne!(first, second);
    t.stop_and_accumulate_framebuild_time(second);
    t.stop_and_accumulate_framebuild_time(first);
    assert_eq!(
        calls(&t),
        vec![
            RegistryCall::Start(Phase::FrameBuild, first),
            RegistryCall::Start(Phase::FrameBuild, second),
            RegistryCall::StopAndAccumulate(Phase::FrameBuild, second),
            RegistryCall::StopAndAccumulate(Phase::FrameBuild, first),
        ]
    );
    assert_eq!(Phase::FrameBuild.metric_name(), "framebuild_time");
}

#[test]
fn sceneswap_stop_and_accumulate() {
    let mut t = recording();
    let id = t.start_sceneswap_time();
    t.stop_and_accumulate_sceneswap_time(id);
    assert_eq!(
        calls(&t),
        vec![
            RegistryCall::Start(Phase::SceneSwap, id),
            RegistryCall::StopAndAccumulate(Phase::SceneSwap, id),
        ]
    );
    assert_eq!(Phase::SceneSwap.metric_name(), "sceneswap_time");
}

#[test]
fn recording_numbers_timers_from_one() {
    let mut t = recording();
    assert_eq!(t.start_rasterize_glyphs_time(), TimerId { id: 1 });
    assert_eq!(t.start_sceneswap_time(), TimerId { id: 2 });
    assert_eq!(t.start_framebuild_time(), TimerId { id: 3 });
}

#[test]
fn stub_every_operation_is_a_no_op() {
    let mut t = Telemetry::new(StubBackend);
    let a = t.start_rasterize_glyphs_time();
    let b = t.start_framebuild_time();
    let c = t.start_sceneswap_time();
    for id in [a, b, c] {
        assert_eq!(id, TimerId::placeholder());
    }
    t.stop_and_accumulate_rasterize_glyphs_time(TimerId { id: 77 });
    t.stop_and_accumulate_framebuild_time(b);
    t.record_scenebuild_time(Duration::from_secs(3));
    t.stop_and_accumulate_sceneswap_time(c);
    t.cancel_sceneswap_time(TimerId { id: u64::MAX });
    assert_eq!(t.into_backend(), StubBackend);
}

#[test]
fn stub_tolerates_repeated_terminal_calls() {
    let mut t = Telemetry::new(StubBackend);
    let id = t.start_sceneswap_time();
    t.stop_and_accumulate_sceneswap_time(id);
    t.stop_and_accumulate_sceneswap_time(id);
    t.cancel_sceneswap_time(id);
    t.cancel_sceneswap_time(id);
    let g = t.start_rasterize_glyphs_time();
    t.stop_and_accumulate_rasterize_glyphs_time(g);
    t.stop_and_accumulate_rasterize_glyphs_time(g);
    assert_eq!(t.into_backend(), StubBackend);
}

#[test]
fn recording_passes_repeated_terminal_calls_on() {
    let mut t = recording();
    let id = t.start_sceneswap_time();
    t.cancel_sceneswap_time(id);
    t.cancel_sceneswap_time(id);
    assert_eq!(
        calls(&t),
        vec![
            RegistryCall::Start(Phase::SceneSwap, id),
            RegistryCall::Cancel(Phase::SceneSwap, id),
            RegistryCall::Cancel(Phase::SceneSwap, id),
        ]
    );
}

#[test]
fn stop_without_start_is_passed_on() {
    let mut t = recording();
    t.stop_and_accumulate_framebuild_time(TimerId { id: 9 });
    assert_eq!(
        calls(&t),
        vec![RegistryCall::StopAndAccumulate(Phase::FrameBuild, TimerId { id: 9 })]
    );
}

#[test]
fn active_backend_runs_every_operation() {
    let backend = ActiveBackend::new(
        wr_metric("rasterize_glyphs_time"),
        wr_metric("framebuild_time"),
        wr_metric("scenebuild_time"),
        wr_metric("sceneswap_time"),
    );
    let mut t = Telemetry::new(backend);
    let g = t.start_rasterize_glyphs_time();
    t.stop_and_accumulate_rasterize_glyphs_time(g);
    let f = t.start_framebuild_time();
    t.stop_and_accumulate_framebuild_time(f);
    t.record_scenebuild_time(Duration::from_millis(12));
    let s = t.start_sceneswap_time();
    t.cancel_sceneswap_time(s);
    let s2 = t.start_sceneswap_time();
    assert_ne!(s, s2);
    t.stop_and_accumulate_sceneswap_time(s2);
}
