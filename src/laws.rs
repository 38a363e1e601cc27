use vstd::prelude::*;

use crate::breakpoint::{event_of, Breakpoint};
use crate::command::EmuMsgIn;
use crate::runner::{
    action_of_command, allowed_transition, executing, model_after_command, model_after_step,
    run_outcomes, Action, RunnerModel, StepOutcome, StepResult,
};
use crate::status::EmuStatus;

verus! {

/// An input of the runner: a command, or the outcome of a core step (which
/// only happens while the runner executes).
pub enum RunnerEvent {
    Command(EmuMsgIn),
    Step(StepOutcome),
}

/// The runner after one event.
pub open spec fn model_after_event(m: RunnerModel, ev: RunnerEvent) -> RunnerModel {
    match ev {
        RunnerEvent::Command(c) => model_after_command(m, c),
        RunnerEvent::Step(o) => if executing(m.status) {
            model_after_step(m, o)
        } else {
            m
        },
    }
}

/// The runner after a sequence of events.
pub open spec fn model_after_events(m: RunnerModel, evs: Seq<RunnerEvent>) -> RunnerModel
    decreases evs.len(),
{
    if evs.len() == 0 {
        m
    } else {
        model_after_event(model_after_events(m, evs.drop_last()), evs.last())
    }
}

proof fn lemma_event_keeps_wf(m: RunnerModel, ev: RunnerEvent)
    requires
        m.wf(),
    ensures
        model_after_event(m, ev).wf(),
        allowed_transition(m.status, model_after_event(m, ev).status),
{
}

proof fn lemma_events_keep_wf(m: RunnerModel, evs: Seq<RunnerEvent>)
    requires
        m.wf(),
    ensures
        model_after_events(m, evs).wf(),
    decreases evs.len(),
{
    if evs.len() > 0 {
        lemma_events_keep_wf(m, evs.drop_last());
        lemma_event_keeps_wf(model_after_events(m, evs.drop_last()), evs.last());
    }
}

proof fn lemma_prefix_transition(m: RunnerModel, evs: Seq<RunnerEvent>, k: int)
    requires
        m.wf(),
        0 <= k < evs.len(),
    ensures
        allowed_transition(
            model_after_events(m, evs.take(k)).status,
            model_after_events(m, evs.take(k + 1)).status,
        ),
{
    let before = evs.take(k);
    let after = evs.take(k + 1);
    assert(after.drop_last() =~= before);
    assert(after.last() == evs[k]);
    assert(model_after_events(m, after) == model_after_event(model_after_events(m, before), evs[k]));
    lemma_events_keep_wf(m, before);
    lemma_event_keeps_wf(model_after_events(m, before), evs[k]);
}

/// Along any sequence of commands and core steps, each change of status is
/// one of the protocol's transitions.
pub proof fn lemma_only_protocol_transitions(m: RunnerModel, evs: Seq<RunnerEvent>)
    requires
        m.wf(),
    ensures
        forall|k: int|
            0 <= k < evs.len() ==> allowed_transition(
                #[trigger] model_after_events(m, evs.take(k)).status,
                model_after_events(m, evs.take(k + 1)).status,
            ),
{
    assert forall|k: int| 0 <= k < evs.len() implies allowed_transition(
        #[trigger] model_after_events(m, evs.take(k)).status,
        model_after_events(m, evs.take(k + 1)).status,
    ) by {
        lemma_prefix_transition(m, evs, k);
    }
}

/// A runner that starts runs; the observer's first status change is from
/// `Fresh` to `Running`.
pub proof fn lemma_start_is_allowed()
    ensures
        allowed_transition(EmuStatus::Fresh, EmuStatus::Running),
{
}

proof fn lemma_stepping_runs_out(m: RunnerModel, outcomes: Seq<StepOutcome>)
    requires
        m.wf(),
        m.status == EmuStatus::Stepping,
        outcomes.len() >= m.steps_remaining,
        forall|i: int| 0 <= i < m.steps_remaining ==> outcomes[i].result == StepResult::Run,
    ensures
        run_outcomes(m, outcomes).0.status == EmuStatus::Stopped,
        run_outcomes(m, outcomes).1 == m.steps_remaining,
    decreases m.steps_remaining,
{
    let next = model_after_step(m, outcomes[0]);
    let rest = outcomes.drop_first();
    if m.steps_remaining > 1 {
        assert forall|i: int| 0 <= i < next.steps_remaining implies rest[i].result
            == StepResult::Run by {
            assert(rest[i] == outcomes[i + 1]);
        }
        lemma_stepping_runs_out(next, rest);
    } else {
        assert(run_outcomes(next, rest) == (next, 0nat));
    }
}

proof fn lemma_stepping_meets_break(m: RunnerModel, outcomes: Seq<StepOutcome>, k: int)
    requires
        m.wf(),
        m.status == EmuStatus::Stepping,
        0 <= k < m.steps_remaining,
        k < outcomes.len(),
        outcomes[k].result == StepResult::Break,
        forall|i: int| 0 <= i < k ==> outcomes[i].result == StepResult::Run,
    ensures
        run_outcomes(m, outcomes).0.status == EmuStatus::Break,
        run_outcomes(m, outcomes).1 == k + 1,
    decreases k,
{
    let next = model_after_step(m, outcomes[0]);
    let rest = outcomes.drop_first();
    if k > 0 {
        assert(rest[k - 1] == outcomes[k]);
        assert forall|i: int| 0 <= i < k - 1 implies rest[i].result == StepResult::Run by {
            assert(rest[i] == outcomes[i + 1]);
        }
        lemma_stepping_meets_break(next, rest, k - 1);
    } else {
        assert(run_outcomes(next, rest) == (next, 0nat));
    }
}

/// `Step(n)` issued while stopped retires exactly `n` instructions and ends
/// stopped, when no breakpoint fires on the way (and the core executes each
/// instruction rather than skipping it as a fault).
pub proof fn lemma_step_retires_exactly(m: RunnerModel, n: usize, outcomes: Seq<StepOutcome>)
    requires
        m.wf(),
        m.status == EmuStatus::Stopped,
        outcomes.len() >= n,
        forall|i: int| 0 <= i < n ==> outcomes[i].result == StepResult::Run,
    ensures
        run_outcomes(model_after_command(m, EmuMsgIn::Step(n)), outcomes).0.status
            == EmuStatus::Stopped,
        run_outcomes(model_after_command(m, EmuMsgIn::Step(n)), outcomes).1 == n,
{
    let s = model_after_command(m, EmuMsgIn::Step(n));
    if n > 0 {
        lemma_stepping_runs_out(s, outcomes);
    } else {
        assert(run_outcomes(s, outcomes) == (s, 0nat));
    }
}

/// `Step(n)` issued while stopped, when a breakpoint fires on the
/// instruction at position `k` (counting from zero), ends in `Break` having
/// retired `k + 1 <= n` instructions (each instruction before it executed
/// rather than skipped as a fault).
pub proof fn lemma_step_stops_at_break(
    m: RunnerModel,
    n: usize,
    outcomes: Seq<StepOutcome>,
    k: int,
)
    requires
        m.wf(),
        m.status == EmuStatus::Stopped,
        0 <= k < n,
        k < outcomes.len(),
        outcomes[k].result == StepResult::Break,
        forall|i: int| 0 <= i < k ==> outcomes[i].result == StepResult::Run,
    ensures
        run_outcomes(model_after_command(m, EmuMsgIn::Step(n)), outcomes).0.status
            == EmuStatus::Break,
        run_outcomes(model_after_command(m, EmuMsgIn::Step(n)), outcomes).1 == k + 1,
        k + 1 <= n,
{
    lemma_stepping_meets_break(model_after_command(m, EmuMsgIn::Step(n)), outcomes, k);
}

/// Setting a breakpoint that is set, or unsetting one that is not, leaves
/// the runner as it is and asks nothing of the core; so does setting (or
/// unsetting) the same breakpoint a second time.
pub proof fn lemma_breakpoint_toggle_idempotent(m: RunnerModel, b: Breakpoint)
    requires
        m.wf(),
    ensures
        m.active.contains(event_of(b)) ==> model_after_command(m, EmuMsgIn::SetBreakpoint(b))
            == m && action_of_command(m.active, EmuMsgIn::SetBreakpoint(b)) == Action::Nothing,
        !m.active.contains(event_of(b)) ==> model_after_command(
            m,
            EmuMsgIn::UnsetBreakpoint(b),
        ) == m && action_of_command(m.active, EmuMsgIn::UnsetBreakpoint(b)) == Action::Nothing,
        ({
            let once = model_after_command(m, EmuMsgIn::SetBreakpoint(b));
            &&& model_after_command(once, EmuMsgIn::SetBreakpoint(b)) == once
            &&& action_of_command(once.active, EmuMsgIn::SetBreakpoint(b)) == Action::Nothing
        }),
        ({
            let once = model_after_command(m, EmuMsgIn::UnsetBreakpoint(b));
            &&& model_after_command(once, EmuMsgIn::UnsetBreakpoint(b)) == once
            &&& action_of_command(once.active, EmuMsgIn::UnsetBreakpoint(b)) == Action::Nothing
        }),
{
    let e = event_of(b);
    if m.active.contains(e) {
        assert(m.active.insert(e) =~= m.active);
    } else {
        assert(m.active.remove(e) =~= m.active);
    }
    assert(m.active.insert(e).insert(e) =~= m.active.insert(e));
    assert(m.active.remove(e).remove(e) =~= m.active.remove(e));
}

/// While the runner is stopped (after `Pause`, with no `Step` since), no
/// instruction retires.
pub proof fn lemma_stopped_retires_nothing(m: RunnerModel, outcomes: Seq<StepOutcome>)
    requires
        m.status == EmuStatus::Stopped,
    ensures
        run_outcomes(m, outcomes) == (m, 0nat),
{
}

/// `Pause` while running, stepping or at a breakpoint stops the runner, and
/// a following `Resume` sets it running again.
pub proof fn lemma_pause_then_resume(m: RunnerModel)
    requires
        m.wf(),
        m.status == EmuStatus::Running || m.status == EmuStatus::Stepping || m.status
            == EmuStatus::Break || m.status == EmuStatus::Stopped,
    ensures
        model_after_command(m, EmuMsgIn::Pause).status == EmuStatus::Stopped,
        model_after_command(model_after_command(m, EmuMsgIn::Pause), EmuMsgIn::Resume).status
            == EmuStatus::Running,
{
}

} // verus!
