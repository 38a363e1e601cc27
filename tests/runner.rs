use gamboye::breakpoint::{Breakpoint, CpuEvent, CpuFlag, CpuReg};
use gamboye::command::{Button, EmuMsgIn};
use gamboye::runner::{Action, Runner, StepOutcome, StepReport, StepResult, MAX_CONSECUTIVE_FAULTS};
use gamboye::status::EmuStatus;

fn run() -> StepOutcome {
    StepOutcome { result: StepResult::Run, frame_ready: false }
}

fn stopped_runner() -> Runner {
    let mut r = Runner::new();
    r.handle_command(EmuMsgIn::Pause);
    assert_eq!(r.status, EmuStatus::Stopped);
    r
}

#[test]
fn new_runner_runs_and_publishes_once() {
    let mut r = Runner::new();
    assert_eq!(r.status, EmuStatus::Running);
    assert!(r.is_executing());
    assert_eq!(r.take_status_change(), Some(EmuStatus::Running));
    assert_eq!(r.take_status_change(), None);
}

#[test]
fn pause_then_resume_retires_nothing_while_stopped() {
    let mut r = Runner::new();
    assert_eq!(r.handle_command(EmuMsgIn::Pause), Action::Nothing);
    assert_eq!(r.status, EmuStatus::Stopped);
    assert!(!r.is_executing());
    assert_eq!(r.handle_command(EmuMsgIn::Resume), Action::Nothing);
    assert_eq!(r.status, EmuStatus::Running);
    assert_eq!(r.steps_remaining, 0);
}

#[test]
fn step_five_from_stopped_sends_five_snapshots() {
    let mut r = stopped_runner();
    r.handle_command(EmuMsgIn::Step(5));
    assert_eq!(r.status, EmuStatus::Stepping);
    let mut snapshots = 0;
    let mut retired = 0;
    while r.is_executing() {
        let report = r.after_step(run());
        retired += 1;
        if report.snapshot {
            snapshots += 1;
        }
        assert!(!report.publish_frame);
        assert!(!report.terminate);
    }
    assert_eq!(retired, 5);
    assert_eq!(snapshots, 5);
    assert_eq!(r.status, EmuStatus::Stopped);
    assert_eq!(r.steps_remaining, 0);
}

#[test]
fn step_stops_early_at_breakpoint() {
    let mut r = stopped_runner();
    r.handle_command(EmuMsgIn::Step(10));
    r.after_step(run());
    r.after_step(run());
    let report = r.after_step(StepOutcome { result: StepResult::Break, frame_ready: false });
    assert!(report.snapshot);
    assert_eq!(r.status, EmuStatus::Break);
    assert!(!r.is_executing());
    assert_eq!(r.steps_remaining, 0);
}

#[test]
fn step_zero_from_stopped_does_nothing() {
    let mut r = stopped_runner();
    r.handle_command(EmuMsgIn::Step(0));
    assert_eq!(r.status, EmuStatus::Stopped);
    assert!(!r.is_executing());
}

#[test]
fn memory_write_breakpoint_halts_running_core() {
    let mut r = Runner::new();
    let action = r.handle_command(EmuMsgIn::SetBreakpoint(Breakpoint::MemoryWrite(0xFF40)));
    assert_eq!(action, Action::SetTrigger(CpuEvent::MemoryWrite(0xFF40)));
    for _ in 0..3 {
        let report = r.after_step(run());
        assert!(!report.snapshot);
    }
    let report = r.after_step(StepOutcome { result: StepResult::Break, frame_ready: false });
    assert_eq!(report, StepReport { publish_frame: false, snapshot: true, terminate: false });
    assert_eq!(r.status, EmuStatus::Break);
    assert_eq!(r.take_status_change(), Some(EmuStatus::Break));
}

#[test]
fn setting_breakpoint_twice_registers_it_once() {
    let mut r = Runner::new();
    assert_eq!(
        r.handle_command(EmuMsgIn::SetBreakpoint(Breakpoint::Zero)),
        Action::SetTrigger(CpuEvent::Flag(CpuFlag::Zero))
    );
    assert_eq!(r.handle_command(EmuMsgIn::SetBreakpoint(Breakpoint::Zero)), Action::Nothing);
    assert_eq!(r.active.len(), 1);
    assert_eq!(
        r.handle_command(EmuMsgIn::UnsetBreakpoint(Breakpoint::Zero)),
        Action::UnsetTrigger(CpuEvent::Flag(CpuFlag::Zero))
    );
    assert_eq!(r.handle_command(EmuMsgIn::UnsetBreakpoint(Breakpoint::Zero)), Action::Nothing);
    assert!(r.active.is_empty());
}

#[test]
fn several_breakpoints_stay_active_together() {
    let mut r = Runner::new();
    r.handle_command(EmuMsgIn::SetBreakpoint(Breakpoint::A));
    r.handle_command(EmuMsgIn::SetBreakpoint(Breakpoint::Pc(0x0150)));
    r.handle_command(EmuMsgIn::SetBreakpoint(Breakpoint::MemoryWrite(0xC000)));
    assert_eq!(r.active.len(), 3);
    assert_eq!(
        r.handle_command(EmuMsgIn::UnsetBreakpoint(Breakpoint::Pc(0x0150))),
        Action::UnsetTrigger(CpuEvent::Pc(0x0150))
    );
    assert_eq!(r.active, vec![CpuEvent::Reg(CpuReg::A), CpuEvent::MemoryWrite(0xC000)]);
}

#[test]
fn frame_limit_and_unlimit() {
    let mut r = Runner::new();
    r.handle_command(EmuMsgIn::FrameLimit);
    assert_eq!(r.status, EmuStatus::FrameLimited);
    assert!(!r.is_executing());
    r.handle_command(EmuMsgIn::FrameUnlimit);
    assert_eq!(r.status, EmuStatus::Running);
    r.handle_command(EmuMsgIn::FrameUnlimit);
    assert_eq!(r.status, EmuStatus::Running);
}

#[test]
fn late_frame_unlimit_keeps_stopped_runner_stopped() {
    let mut r = stopped_runner();
    r.handle_command(EmuMsgIn::FrameUnlimit);
    assert_eq!(r.status, EmuStatus::Stopped);
    r.handle_command(EmuMsgIn::FrameLimit);
    assert_eq!(r.status, EmuStatus::Stopped);
}

#[test]
fn exit_load_rom_and_buttons() {
    let mut r = Runner::new();
    assert_eq!(r.handle_command(EmuMsgIn::Exit), Action::Terminate);
    assert_eq!(r.handle_command(EmuMsgIn::LoadRom), Action::Reload);
    assert_eq!(r.handle_command(EmuMsgIn::ButtonPressed(Button::Start)), Action::Press(Button::Start));
    assert_eq!(r.handle_command(EmuMsgIn::ButtonReleased(Button::A)), Action::Release(Button::A));
    assert_eq!(r.status, EmuStatus::Running);
}

#[test]
fn frame_ready_publishes_frame_and_snapshot() {
    let mut r = Runner::new();
    let report = r.after_step(StepOutcome { result: StepResult::Run, frame_ready: true });
    assert_eq!(report, StepReport { publish_frame: true, snapshot: true, terminate: false });
    assert_eq!(r.status, EmuStatus::Running);
}

#[test]
fn repeated_faults_end_the_loop() {
    let mut r = Runner::new();
    let fault = StepOutcome { result: StepResult::Fault, frame_ready: false };
    for _ in 0..MAX_CONSECUTIVE_FAULTS - 1 {
        assert!(!r.after_step(fault).terminate);
        assert_eq!(r.status, EmuStatus::Running);
    }
    assert!(r.after_step(fault).terminate);
    assert_eq!(r.status, EmuStatus::Stopped);
    assert!(!r.is_executing());
    assert_eq!(r.take_status_change(), Some(EmuStatus::Stopped));
}

#[test]
fn step_at_breakpoint_is_ignored() {
    let mut r = Runner::new();
    r.after_step(StepOutcome { result: StepResult::Break, frame_ready: false });
    assert_eq!(r.status, EmuStatus::Break);
    r.handle_command(EmuMsgIn::Step(3));
    assert_eq!(r.status, EmuStatus::Break);
    assert_eq!(r.steps_remaining, 0);
    r.handle_command(EmuMsgIn::Pause);
    assert_eq!(r.status, EmuStatus::Stopped);
    r.handle_command(EmuMsgIn::Step(3));
    assert_eq!(r.status, EmuStatus::Stepping);
}

#[test]
fn pause_while_frame_limited_is_ignored() {
    let mut r = Runner::new();
    r.handle_command(EmuMsgIn::FrameLimit);
    r.handle_command(EmuMsgIn::Pause);
    assert_eq!(r.status, EmuStatus::FrameLimited);
    r.handle_command(EmuMsgIn::Resume);
    assert_eq!(r.status, EmuStatus::Running);
}

#[test]
fn a_good_step_clears_the_fault_count() {
    let mut r = Runner::new();
    let fault = StepOutcome { result: StepResult::Fault, frame_ready: false };
    for _ in 0..MAX_CONSECUTIVE_FAULTS - 1 {
        r.after_step(fault);
    }
    r.after_step(run());
    assert_eq!(r.faults, 0);
    assert!(!r.after_step(fault).terminate);
}

#[test]
fn status_names_and_default() {
    assert_eq!(EmuStatus::default(), EmuStatus::Fresh);
    assert_eq!(EmuStatus::FrameLimited.as_str(), "FrameLimited");
    assert_eq!(EmuStatus::Break.as_str(), "Break");
    assert!(EmuStatus::Stopped.is_idle());
    assert!(!EmuStatus::Running.is_idle());
}
