use vstd::prelude::*;

use crate::breakpoint::{event_of, CpuEvent};
use crate::command::{Button, EmuMsgIn};
use crate::status::EmuStatus;

verus! {

/// Width of the console's screen in pixels.
pub const WIDTH: usize = 160;

/// Height of the console's screen in pixels.
pub const HEIGHT: usize = 144;

/// Number of core faults in a row after which the runner gives up on a
/// wedged core instead of spinning on it.
pub const MAX_CONSECUTIVE_FAULTS: u32 = 16;

/// What one call of the core's `step` reported.
#[derive(Clone, Copy, Debug, PartialEq, Eq, Structural)]
pub enum StepResult {
    /// The instruction ran.
    Run,
    /// The instruction ran and matched an active trigger.
    Break,
    /// The core could not execute the instruction.
    Fault,
}

/// The outcome of one core step: its result and whether a frame is ready.
#[derive(Clone, Copy, Debug, PartialEq, Eq, Structural)]
pub struct StepOutcome {
    pub result: StepResult,
    pub frame_ready: bool,
}

/// What the driver of the runner must do with the core after a command.
#[derive(Clone, Copy, Debug, PartialEq, Eq, Structural)]
pub enum Action {
    Nothing,
    /// Stop the loop: the session ended.
    Terminate,
    /// Stop the loop: the instance is to be replaced by a freshly loaded one.
    Reload,
    Press(Button),
    Release(Button),
    /// Register the trigger with the core.
    SetTrigger(CpuEvent),
    /// Remove the trigger from the core.
    UnsetTrigger(CpuEvent),
}

/// What the driver must do after a core step.
#[derive(Clone, Copy, Debug, PartialEq, Eq, Structural)]
pub struct StepReport {
    /// Copy the rendered frame into the shared frame and ask for a repaint.
    pub publish_frame: bool,
    /// Send one debug snapshot of the machine after this instruction.
    pub snapshot: bool,
    /// The core is wedged: stop the loop.
    pub terminate: bool,
}

/// The runner's decision state; the driver owns the core and the channels.
pub struct Runner {
    pub status: EmuStatus,
    /// Instructions left to run while `Stepping`.
    pub steps_remaining: usize,
    /// The triggers registered with the core, each once.
    pub active: Vec<CpuEvent>,
    /// Core faults in a row.
    pub faults: u32,
    /// The status last handed to the observer.
    pub published: EmuStatus,
}

/// The runner as a mathematical value.
pub struct RunnerModel {
    pub status: EmuStatus,
    pub steps_remaining: nat,
    pub active: Set<CpuEvent>,
    pub faults: nat,
    pub published: EmuStatus,
}

impl View for Runner {
    type V = RunnerModel;

    open spec fn view(&self) -> RunnerModel {
        RunnerModel {
            status: self.status,
            steps_remaining: self.steps_remaining as nat,
            active: self.active@.to_set(),
            faults: self.faults as nat,
            published: self.published,
        }
    }
}

/// Whether the runner executes instructions in this status.
pub open spec fn executing(s: EmuStatus) -> bool {
    s == EmuStatus::Running || s == EmuStatus::Stepping
}

/// The status transitions of the control protocol. A status may also stay
/// as it is.
pub open spec fn allowed_transition(from: EmuStatus, to: EmuStatus) -> bool {
    ||| from == to
    ||| from == EmuStatus::Fresh && to == EmuStatus::Running
    ||| from == EmuStatus::Running && to == EmuStatus::Stopped
    ||| from == EmuStatus::Stopped && to == EmuStatus::Running
    ||| from == EmuStatus::Running && to == EmuStatus::Stepping
    ||| from == EmuStatus::Stopped && to == EmuStatus::Stepping
    ||| from == EmuStatus::Stepping && to == EmuStatus::Stopped
    ||| from == EmuStatus::Running && to == EmuStatus::Break
    ||| from == EmuStatus::Stepping && to == EmuStatus::Break
    ||| from == EmuStatus::Break && to == EmuStatus::Stopped
    ||| from == EmuStatus::Break && to == EmuStatus::Running
    ||| from == EmuStatus::Running && to == EmuStatus::FrameLimited
    ||| from == EmuStatus::FrameLimited && to == EmuStatus::Running
}

/// The status after a command. A command whose transition the protocol
/// does not have leaves the status as it is: `Step` while at a breakpoint,
/// `Pause` while frame-limited, `FrameUnlimit` when not frame-limited.
pub open spec fn status_after_command(s: EmuStatus, c: EmuMsgIn) -> EmuStatus {
    match c {
        EmuMsgIn::Pause => match s {
            EmuStatus::Running | EmuStatus::Stepping | EmuStatus::Break => EmuStatus::Stopped,
            _ => s,
        },
        EmuMsgIn::Resume => match s {
            EmuStatus::Stopped | EmuStatus::Break | EmuStatus::FrameLimited => EmuStatus::Running,
            _ => s,
        },
        EmuMsgIn::Step(n) => match s {
            EmuStatus::Running | EmuStatus::Stopped => if n > 0 {
                EmuStatus::Stepping
            } else {
                s
            },
            EmuStatus::Stepping => if n > 0 {
                EmuStatus::Stepping
            } else {
                EmuStatus::Stopped
            },
            _ => s,
        },
        EmuMsgIn::FrameLimit => if s == EmuStatus::Running {
            EmuStatus::FrameLimited
        } else {
            s
        },
        EmuMsgIn::FrameUnlimit => if s == EmuStatus::FrameLimited {
            EmuStatus::Running
        } else {
            s
        },
        _ => s,
    }
}

/// The instructions left to step after a command.
pub open spec fn steps_after_command(m: RunnerModel, c: EmuMsgIn) -> nat {
    if status_after_command(m.status, c) != EmuStatus::Stepping {
        0
    } else {
        match c {
            EmuMsgIn::Step(n) => n as nat,
            _ => m.steps_remaining,
        }
    }
}

/// The triggers registered after a command: a set that already holds (or
/// lacks) a trigger stays as it is.
pub open spec fn active_after_command(active: Set<CpuEvent>, c: EmuMsgIn) -> Set<CpuEvent> {
    match c {
        EmuMsgIn::SetBreakpoint(b) => active.insert(event_of(b)),
        EmuMsgIn::UnsetBreakpoint(b) => active.remove(event_of(b)),
        _ => active,
    }
}

/// What the driver does with the core after a command.
pub open spec fn action_of_command(active: Set<CpuEvent>, c: EmuMsgIn) -> Action {
    match c {
        EmuMsgIn::Exit => Action::Terminate,
        EmuMsgIn::LoadRom => Action::Reload,
        EmuMsgIn::ButtonPressed(b) => Action::Press(b),
        EmuMsgIn::ButtonReleased(b) => Action::Release(b),
        EmuMsgIn::SetBreakpoint(b) => if active.contains(event_of(b)) {
            Action::Nothing
        } else {
            Action::SetTrigger(event_of(b))
        },
        EmuMsgIn::UnsetBreakpoint(b) => if active.contains(event_of(b)) {
            Action::UnsetTrigger(event_of(b))
        } else {
            Action::Nothing
        },
        _ => Action::Nothing,
    }
}

/// The runner after a command.
pub open spec fn model_after_command(m: RunnerModel, c: EmuMsgIn) -> RunnerModel {
    RunnerModel {
        status: status_after_command(m.status, c),
        steps_remaining: steps_after_command(m, c),
        active: active_after_command(m.active, c),
        faults: m.faults,
        published: m.published,
    }
}

/// The status after a core step: a wedged core stops the runner for good.
pub open spec fn status_after_step(m: RunnerModel, o: StepOutcome) -> EmuStatus {
    if o.result == StepResult::Break {
        EmuStatus::Break
    } else if faults_after_step(m.faults, o) >= MAX_CONSECUTIVE_FAULTS {
        EmuStatus::Stopped
    } else if m.status == EmuStatus::Stepping && m.steps_remaining <= 1 {
        EmuStatus::Stopped
    } else {
        m.status
    }
}

/// Core faults in a row after a core step.
pub open spec fn faults_after_step(faults: nat, o: StepOutcome) -> nat {
    if o.result != StepResult::Fault {
        0
    } else if faults + 1 >= MAX_CONSECUTIVE_FAULTS {
        MAX_CONSECUTIVE_FAULTS as nat
    } else {
        faults + 1
    }
}

/// The runner after a core step.
pub open spec fn model_after_step(m: RunnerModel, o: StepOutcome) -> RunnerModel {
    RunnerModel {
        status: status_after_step(m, o),
        steps_remaining: if status_after_step(m, o) == EmuStatus::Stepping {
            (m.steps_remaining - 1) as nat
        } else {
            0
        },
        active: m.active,
        faults: faults_after_step(m.faults, o),
        published: m.published,
    }
}

/// What the driver does after a core step: a frame-ready signal publishes
/// the frame; a frame, a breakpoint hit or an instruction retired while
/// stepping sends one snapshot.
pub open spec fn report_of_step(m: RunnerModel, o: StepOutcome) -> StepReport {
    StepReport {
        publish_frame: o.frame_ready,
        snapshot: o.frame_ready || o.result == StepResult::Break || m.status
            == EmuStatus::Stepping,
        terminate: faults_after_step(m.faults, o) >= MAX_CONSECUTIVE_FAULTS,
    }
}

/// Runs the core once per outcome for as long as the runner executes, and
/// gives the runner after that and the number of instructions retired.
pub open spec fn run_outcomes(m: RunnerModel, outcomes: Seq<StepOutcome>) -> (RunnerModel, nat)
    decreases outcomes.len(),
{
    if outcomes.len() == 0 || !executing(m.status) {
        (m, 0)
    } else {
        let rest = run_outcomes(model_after_step(m, outcomes[0]), outcomes.drop_first());
        (rest.0, rest.1 + 1)
    }
}

impl RunnerModel {
    /// Stepping and a positive step count go together; the fault count
    /// stays within its bound.
    pub open spec fn wf(self) -> bool {
        &&& (self.status == EmuStatus::Stepping) == (self.steps_remaining > 0)
        &&& self.faults <= MAX_CONSECUTIVE_FAULTS
    }
}

impl Runner {
    pub open spec fn wf(&self) -> bool {
        &&& self@.wf()
        &&& self.active@.no_duplicates()
    }

    /// A runner that has just been started on a loaded core: it runs, and
    /// the observer still sees the session as fresh.
    pub fn new() -> (r: Runner)
        ensures
            r.wf(),
            r@.status == EmuStatus::Running,
            r@.published == EmuStatus::Fresh,
            r@.steps_remaining == 0,
            r@.active == Set::<CpuEvent>::empty(),
            r@.faults == 0,
    {
        let r = Runner {
            status: EmuStatus::Running,
            steps_remaining: 0,
            active: Vec::new(),
            faults: 0,
            published: EmuStatus::Fresh,
        };
        assert(r.active@.to_set() =~= Set::<CpuEvent>::empty());
        r
    }

    /// Whether the runner executes instructions; otherwise the driver waits
    /// for the next command.
    pub fn is_executing(&self) -> (r: bool)
        ensures
            r == executing(self.status),
    {
        matches!(self.status, EmuStatus::Running | EmuStatus::Stepping)
    }

    fn find_active(&self, e: CpuEvent) -> (r: Option<usize>)
        ensures
            match r {
                Some(i) => i < self.active.len() && self.active@[i as int] == e,
                None => !self.active@.contains(e),
            },
    {
        let mut i: usize = 0;
        while i < self.active.len()
            invariant
                i <= self.active.len(),
                forall|j: int| 0 <= j < i ==> self.active@[j] != e,
            decreases self.active.len() - i,
        {
            if self.active[i] == e {
                return Some(i);
            }
            i += 1;
        }
        None
    }

    fn set_trigger(&mut self, e: CpuEvent) -> (r: Action)
        requires
            old(self).wf(),
        ensures
            final(self).wf(),
            final(self)@ == (RunnerModel { active: old(self)@.active.insert(e), ..old(self)@ }),
            r == (if old(self)@.active.contains(e) {
                Action::Nothing
            } else {
                Action::SetTrigger(e)
            }),
    {
        match self.find_active(e) {
            Some(_) => {
                assert(self.active@.to_set().contains(e));
                assert(self.active@.to_set().insert(e) =~= self.active@.to_set());
                Action::Nothing
            },
            None => {
                let ghost before = self.active@;
                self.active.push(e);
                assert(self.active@ == before.push(e));
                assert(self.active@.to_set() =~= before.to_set().insert(e)) by {
                    before.lemma_push_to_set_commute(e);
                }
                assert(self.active@.no_duplicates()) by {
                    assert forall|a: int, b: int|
                        0 <= a < self.active@.len() && 0 <= b < self.active@.len() && a != b
                            implies self.active@[a] != self.active@[b] by {
                        if a == before.len() as int {
                            assert(!before.contains(e));
                            assert(before[b] == self.active@[b]);
                        } else if b == before.len() as int {
                            assert(before[a] == self.active@[a]);
                        }
                    }
                }
                Action::SetTrigger(e)
            },
        }
    }

    fn unset_trigger(&mut self, e: CpuEvent) -> (r: Action)
        requires
            old(self).wf(),
        ensures
            final(self).wf(),
            final(self)@ == (RunnerModel { active: old(self)@.active.remove(e), ..old(self)@ }),
            r == (if old(self)@.active.contains(e) {
                Action::UnsetTrigger(e)
            } else {
                Action::Nothing
            }),
    {
        match self.find_active(e) {
            Some(i) => {
                let ghost before = self.active@;
                assert(before.to_set().contains(e));
                self.active.remove(i);
                assert(self.active@ == before.remove(i as int));
                assert forall|x: CpuEvent| self.active@.contains(x) <==> (before.contains(x) && x != e) by {
                    if self.active@.contains(x) {
                        let k = choose|k: int| 0 <= k < self.active@.len() && self.active@[k] == x;
                        if k < i {
                            assert(before[k] == x);
                            assert(k != i as int);
                        } else {
                            assert(before[k + 1] == x);
                            assert(k + 1 != i as int);
                        }
                    }
                    if before.contains(x) && x != e {
                        let k = choose|k: int| 0 <= k < before.len() && before[k] == x;
                        assert(k != i as int);
                        if k < i {
                            assert(self.active@[k] == x);
                        } else {
                            assert(self.active@[k - 1] == x);
                        }
                    }
                }
                assert(self.active@.to_set() =~= before.to_set().remove(e));
                Action::UnsetTrigger(e)
            },
            None => {
                assert(!self.active@.to_set().contains(e));
                assert(self.active@.to_set().remove(e) =~= self.active@.to_set());
                Action::Nothing
            },
        }
    }

    /// Applies one command from the observer and says what the driver must
    /// do with the core.
    pub fn handle_command(&mut self, c: EmuMsgIn) -> (r: Action)
        requires
            old(self).wf(),
        ensures
            final(self).wf(),
            final(self)@ == model_after_command(old(self)@, c),
            r == action_of_command(old(self)@.active, c),
    {
        match c {
            EmuMsgIn::Exit => Action::Terminate,
            EmuMsgIn::LoadRom => Action::Reload,
            EmuMsgIn::Pause => {
                if matches!(
                    self.status,
                    EmuStatus::Running | EmuStatus::Stepping | EmuStatus::Break
                ) {
                    self.status = EmuStatus::Stopped;
                    self.steps_remaining = 0;
                }
                Action::Nothing
            },
            EmuMsgIn::Resume => {
                if matches!(self.status, EmuStatus::Stopped | EmuStatus::Break | EmuStatus::FrameLimited) {
                    self.status = EmuStatus::Running;
                }
                Action::Nothing
            },
            EmuMsgIn::Step(n) => {
                if matches!(
                    self.status,
                    EmuStatus::Running | EmuStatus::Stopped | EmuStatus::Stepping
                ) {
                    if n > 0 {
                        self.status = EmuStatus::Stepping;
                        self.steps_remaining = n;
                    } else if self.status == EmuStatus::Stepping {
                        self.status = EmuStatus::Stopped;
                        self.steps_remaining = 0;
                    }
                }
                Action::Nothing
            },
            EmuMsgIn::SetBreakpoint(b) => self.set_trigger(CpuEvent::from(b)),
            EmuMsgIn::UnsetBreakpoint(b) => self.unset_trigger(CpuEvent::from(b)),
            EmuMsgIn::FrameLimit => {
                if self.status == EmuStatus::Running {
                    self.status = EmuStatus::FrameLimited;
                }
                Action::Nothing
            },
            EmuMsgIn::FrameUnlimit => {
                if self.status == EmuStatus::FrameLimited {
                    self.status = EmuStatus::Running;
                }
                Action::Nothing
            },
            EmuMsgIn::ButtonPressed(b) => Action::Press(b),
            EmuMsgIn::ButtonReleased(b) => Action::Release(b),
        }
    }

    /// Takes in the outcome of the core step that the driver made because
    /// the runner was executing, and says what to publish.
    pub fn after_step(&mut self, o: StepOutcome) -> (r: StepReport)
        requires
            old(self).wf(),
            executing(old(self).status),
        ensures
            final(self).wf(),
            final(self)@ == model_after_step(old(self)@, o),
            r == report_of_step(old(self)@, o),
    {
        let was_stepping = self.status == EmuStatus::Stepping;
        if o.result == StepResult::Fault {
            if self.faults + 1 >= MAX_CONSECUTIVE_FAULTS {
                self.faults = MAX_CONSECUTIVE_FAULTS;
            } else {
                self.faults = self.faults + 1;
            }
        } else {
            self.faults = 0;
        }
        if o.result == StepResult::Break {
            self.status = EmuStatus::Break;
            self.steps_remaining = 0;
        } else if self.faults >= MAX_CONSECUTIVE_FAULTS {
            self.status = EmuStatus::Stopped;
            self.steps_remaining = 0;
        } else if was_stepping {
            if self.steps_remaining <= 1 {
                self.status = EmuStatus::Stopped;
                self.steps_remaining = 0;
            } else {
                self.steps_remaining = self.steps_remaining - 1;
            }
        }
        StepReport {
            publish_frame: o.frame_ready,
            snapshot: o.frame_ready || o.result == StepResult::Break || was_stepping,
            terminate: self.faults >= MAX_CONSECUTIVE_FAULTS,
        }
    }

    /// The status to hand to the observer at the end of an iteration, if it
    /// changed since it was last handed over.
    pub fn take_status_change(&mut self) -> (r: Option<EmuStatus>)
        requires
            old(self).wf(),
        ensures
            final(self).wf(),
            final(self)@ == (RunnerModel { published: old(self)@.status, ..old(self)@ }),
            r == (if old(self)@.status != old(self)@.published {
                Some(old(self)@.status)
            } else {
                None::<EmuStatus>
            }),
    {
        if self.status != self.published {
            self.published = self.status;
            Some(self.status)
        } else {
            None
        }
    }
}

} // verus!
