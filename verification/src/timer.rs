//! The deadline timer process, as a state machine.
//!
//! The process owns a single resettable deadline, initially disarmed. Its
//! whole behaviour is the step function here: from the armed flag and one
//! event to the new armed flag and the action to perform. The surrounding
//! runtime owns the actual clock and the command inbox; it waits for the
//! deadline or the next command, calls [`timer_step`], performs the action
//! it is handed, and loops until told to stop.

use vstd::prelude::*;

use crate::throttler::TimerCommand;

verus! {

/// One thing the timer process reacts to.
#[derive(Debug, Clone, Copy, PartialEq, Eq, Structural)]
pub enum TimerEvent {
    /// The armed deadline elapsed. The runtime raises this only while the
    /// timer is armed.
    DeadlineElapsed,
    /// An instruction arrived on the command inbox.
    Command(TimerCommand),
    /// The command inbox closed: the client is shutting down.
    InboxClosed,
}

/// What the timer process must do after a step.
#[derive(Debug, Clone, Copy, PartialEq, Eq, Structural)]
pub enum TimerAction {
    /// Restore the throttle to its initial state, then broadcast a
    /// wake to every subscriber.
    ResetAndBroadcast,
    /// Move the deadline to this many seconds from now.
    ArmAfter(u64),
    /// Broadcast a wake without touching the deadline.
    Broadcast,
    /// Tear the process down.
    Stop,
}

/// The timer process's reaction to one event: the new armed flag and the
/// action to perform.
///
/// An elapsed deadline disarms the timer and has the throttle reset for the new
/// window. An arm instruction overwrites any pending deadline — last write
/// wins, since a calibration or a rate-limited response always supersedes a
/// stale schedule. A wake instruction broadcasts without touching the arm
/// state, and a closed inbox terminates the process.
pub open spec fn spec_timer_step(armed: bool, event: TimerEvent) -> (bool, TimerAction) {
    match event {
        TimerEvent::DeadlineElapsed => (false, TimerAction::ResetAndBroadcast),
        TimerEvent::Command(TimerCommand::ArmReset(d)) => (true, TimerAction::ArmAfter(d)),
        TimerEvent::Command(TimerCommand::WakeNow) => (armed, TimerAction::Broadcast),
        TimerEvent::InboxClosed => (false, TimerAction::Stop),
    }
}

/// One step of the timer process's event loop.
pub fn timer_step(armed: bool, event: TimerEvent) -> (r: (bool, TimerAction))
    ensures
        r == spec_timer_step(armed, event),
{
    match event {
        TimerEvent::DeadlineElapsed => (false, TimerAction::ResetAndBroadcast),
        TimerEvent::Command(TimerCommand::ArmReset(d)) => (true, TimerAction::ArmAfter(d)),
        TimerEvent::Command(TimerCommand::WakeNow) => (armed, TimerAction::Broadcast),
        TimerEvent::InboxClosed => (false, TimerAction::Stop),
    }
}

} // verus!
