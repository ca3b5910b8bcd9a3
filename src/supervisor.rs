//! The decisions of the upstream process supervisor: whether to spawn, whether a
//! child still runs, and how a stop goes on after the grace period.

use vstd::prelude::*;

verus! {

/// How long a child is given to exit after the polite signal, in milliseconds.
pub const GRACE_PERIOD_MS: u64 = 100;

/// The pause between stopping and starting again on a restart, in milliseconds.
pub const RESTART_PAUSE_MS: u64 = 100;

/// What a non-blocking status check of the child found.
#[derive(Clone, Copy, Debug, PartialEq, Eq, Structural)]
pub enum ChildStatus {
    Running,
    Exited,
    /// The check itself failed.
    CheckFailed,
}

/// What a start is to do.
#[derive(Clone, Copy, Debug, PartialEq, Eq, Structural)]
pub enum StartStep {
    /// A child is there already: nothing to do.
    AlreadyRunning,
    /// There is no command to run: an error.
    NoCommand,
    /// Spawn the command.
    Spawn,
}

/// What a stop is to do once the grace period has passed.
#[derive(Clone, Copy, Debug, PartialEq, Eq, Structural)]
pub enum StopStep {
    /// The child has exited: done.
    Exited,
    /// The child still runs: kill it, then reap it.
    ForceKill,
    /// Its status is unknown: reap it.
    Reap,
}

/// What a start does, given whether a child is held and the length of the command.
pub fn start_step(has_child: bool, command_len: usize) -> (r: StartStep)
    ensures
        r == if has_child {
            StartStep::AlreadyRunning
        } else if command_len == 0 {
            StartStep::NoCommand
        } else {
            StartStep::Spawn
        },
{
    if has_child {
        StartStep::AlreadyRunning
    } else if command_len == 0 {
        StartStep::NoCommand
    } else {
        StartStep::Spawn
    }
}

/// What a stop does after the grace period, given the child's status then.
pub fn stop_step(status: ChildStatus) -> (r: StopStep)
    ensures
        r == match status {
            ChildStatus::Exited => StopStep::Exited,
            ChildStatus::Running => StopStep::ForceKill,
            ChildStatus::CheckFailed => StopStep::Reap,
        },
{
    match status {
        ChildStatus::Exited => StopStep::Exited,
        ChildStatus::Running => StopStep::ForceKill,
        ChildStatus::CheckFailed => StopStep::Reap,
    }
}

/// Whether the child counts as running; the handle is kept exactly then, and
/// dropped where the child exited or its status could not be had.
pub fn still_running(status: ChildStatus) -> (r: bool)
    ensures
        r == (status == ChildStatus::Running),
{
    match status {
        ChildStatus::Running => true,
        _ => false,
    }
}

} // verus!
