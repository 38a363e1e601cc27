use vstd::prelude::*;

use crate::breakpoint::Breakpoint;
use crate::snapshot::StateDump;

verus! {

/// A joypad button of the emulated console.
#[derive(Clone, Copy, Debug, PartialEq, Eq, Structural)]
pub enum Button {
    Up,
    Down,
    Left,
    Right,
    A,
    B,
    Start,
    Select,
}

/// A command from the observer to the runner.
#[derive(Clone, Copy, Debug, PartialEq, Eq, Structural)]
pub enum EmuMsgIn {
    /// The running instance is to be replaced by a fresh one.
    LoadRom,
    Exit,
    Pause,
    Resume,
    /// Execute this many instructions, then stop.
    Step(usize),
    SetBreakpoint(Breakpoint),
    UnsetBreakpoint(Breakpoint),
    FrameLimit,
    FrameUnlimit,
    ButtonPressed(Button),
    ButtonReleased(Button),
}

/// A message from the runner to the observer.
#[derive(Clone, Debug)]
pub enum EmuMsgOut {
    State(StateDump),
}

/// The debugger's run button: it flips between stopped and running and
/// gives the command that makes the runner follow.
pub fn run_toggle(stopped: &mut bool) -> (r: EmuMsgIn)
    ensures
        *final(stopped) == !*old(stopped),
        r == (if *final(stopped) {
            EmuMsgIn::Pause
        } else {
            EmuMsgIn::Resume
        }),
{
    *stopped = !*stopped;
    if *stopped {
        EmuMsgIn::Pause
    } else {
        EmuMsgIn::Resume
    }
}

/// Label of the run button: what pressing it will do.
pub fn run_button_label(stopped: bool) -> (r: &'static str)
    ensures
        stopped ==> r@ == "Resume"@,
        !stopped ==> r@ == "Stop"@,
{
    if stopped {
        "Resume"
    } else {
        "Stop"
    }
}

} // verus!
