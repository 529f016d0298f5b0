use vstd::prelude::*;
use crate::backend::{RegistryCall, StubBackend, TimingBackend};
use crate::phase::{Phase, TimerId};
use crate::telemetry::Telemetry;

verus! {

/// A timer started and then stopped with the handle its start returned
/// leaves exactly one start followed by one stop-and-accumulate on the
/// phase's metric, both with that handle; a backend that makes no registry
/// calls is left as it was.
pub proof fn start_then_stop<B: TimingBackend>(
    t0: Telemetry<B>,
    t1: Telemetry<B>,
    t2: Telemetry<B>,
    phase: Phase,
    id: TimerId,
)
    requires
        t1.records() == t0.records(),
        t1.calls() == t0.after(RegistryCall::Start(phase, id)),
        t2.records() == t1.records(),
        t2.calls() == t1.after(RegistryCall::StopAndAccumulate(phase, id)),
    ensures
        t2.records() == t0.records(),
        t2.calls() == if t0.records() {
            t0.calls() + seq![
                RegistryCall::Start(phase, id),
                RegistryCall::StopAndAccumulate(phase, id),
            ]
        } else {
            t0.calls()
        },
{
    if t0.records() {
        assert(t2.calls() =~= t0.calls() + seq![
            RegistryCall::Start(phase, id),
            RegistryCall::StopAndAccumulate(phase, id),
        ]);
    }
}

/// A scene swap timer cancelled after its start leaves one start and one
/// cancel with the same handle, and no call that accumulates a measurement.
pub proof fn cancel_after_start_accumulates_nothing<B: TimingBackend>(
    t0: Telemetry<B>,
    t1: Telemetry<B>,
    t2: Telemetry<B>,
    id: TimerId,
)
    requires
        t1.records() == t0.records(),
        t1.calls() == t0.after(RegistryCall::Start(Phase::SceneSwap, id)),
        t2.records() == t1.records(),
        t2.calls() == t1.after(RegistryCall::Cancel(Phase::SceneSwap, id)),
    ensures
        t2.calls() == if t0.records() {
            t0.calls() + seq![
                RegistryCall::Start(Phase::SceneSwap, id),
                RegistryCall::Cancel(Phase::SceneSwap, id),
            ]
        } else {
            t0.calls()
        },
        forall|i: int| t0.calls().len() <= i < t2.calls().len() ==> !(#[trigger] t2.calls()[i]).accumulates(),
{
    if t0.records() {
        assert(t2.calls() =~= t0.calls() + seq![
            RegistryCall::Start(Phase::SceneSwap, id),
            RegistryCall::Cancel(Phase::SceneSwap, id),
        ]);
    }
}

/// The stub backend makes no registry call, whatever operation reaches it.
pub proof fn stub_makes_no_calls(t: Telemetry<StubBackend>, call: RegistryCall)
    ensures
        !t.records(),
        t.calls() == Seq::<RegistryCall>::empty(),
        t.after(call) == t.calls(),
{
}

/// The facade does not guard against a terminal call made twice with one
/// handle: a backend that records passes both calls on, and one that makes
/// no registry calls, such as the stub, is left as it was.
pub proof fn repeated_terminal_call<B: TimingBackend>(
    t0: Telemetry<B>,
    t1: Telemetry<B>,
    t2: Telemetry<B>,
    call: RegistryCall,
)
    requires
        call is StopAndAccumulate || call is Cancel,
        t1.records() == t0.records(),
        t1.calls() == t0.after(call),
        t2.records() == t1.records(),
        t2.calls() == t1.after(call),
    ensures
        t2.calls() == if t0.records() {
            t0.calls().push(call).push(call)
        } else {
            t0.calls()
        },
{
}

} // verus!
