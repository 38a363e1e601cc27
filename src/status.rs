use vstd::prelude::*;

verus! {

/// Authoritative state of the runner, published to the observer.
#[derive(Clone, Copy, Debug, PartialEq, Eq, Structural)]
pub enum EmuStatus {
    Fresh,
    Running,
    Stopped,
    Break,
    LoadingRom,
    Stepping,
    FrameLimited,
}

/// Text shown for a status.
pub open spec fn status_text(s: EmuStatus) -> Seq<char> {
    match s {
        EmuStatus::Fresh => "Fresh"@,
        EmuStatus::Running => "Running"@,
        EmuStatus::Stopped => "Stopped"@,
        EmuStatus::Break => "Break"@,
        EmuStatus::LoadingRom => "LoadingRom"@,
        EmuStatus::Stepping => "Stepping"@,
        EmuStatus::FrameLimited => "FrameLimited"@,
    }
}

impl EmuStatus {
    /// The status as the observer displays it.
    pub fn as_str(&self) -> (r: &'static str)
        ensures
            r@ == status_text(*self),
    {
        match self {
            EmuStatus::Fresh => "Fresh",
            EmuStatus::Running => "Running",
            EmuStatus::Stopped => "Stopped",
            EmuStatus::Break => "Break",
            EmuStatus::LoadingRom => "LoadingRom",
            EmuStatus::Stepping => "Stepping",
            EmuStatus::FrameLimited => "FrameLimited",
        }
    }

    /// Whether the runner has nothing to execute and waits for a command.
    pub fn is_idle(&self) -> (r: bool)
        ensures
            r == (*self == EmuStatus::Stopped || *self == EmuStatus::Break),
    {
        matches!(self, EmuStatus::Stopped | EmuStatus::Break)
    }
}

/// A session starts `Fresh`: no instruction has run and the runner has not
/// been started yet.
impl Default for EmuStatus {
    fn default() -> (r: Self)
        ensures
            r == EmuStatus::Fresh,
    {
        EmuStatus::Fresh
    }
}

/// Failure to start a runner.
#[derive(Clone, Copy, Debug, PartialEq, Eq, Structural)]
pub enum EmuError {
    /// No ROM was loaded into the core before starting it.
    Uninitialized,
    /// Any other failure to start.
    What,
}

} // verus!
