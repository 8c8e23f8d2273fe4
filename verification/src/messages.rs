//! The two message vocabularies of the synchronization protocol: commands
//! travelling from the script thread to the hooked host thread, and status
//! events travelling back.
//!
//! Vector components and clock values cross the protocol as raw IEEE-754 bit
//! patterns (`u32` for the 32-bit fields, `u64` for the 64-bit clock); the
//! unverified boundary converts them to and from floating point.

use vstd::prelude::*;

verus! {

/// A command sent by the scripting side to the tick hook, over the single
/// ordered command queue.
///
/// Exactly one of `Stop`, `Step`, `Continue` terminates a settle cycle; all
/// other variants are side-effecting and leave the cycle open.
#[derive(Debug, Clone, Copy, PartialEq, Eq)]
pub enum Command {
    /// Enter the `Stopping` mode: the host is held frame-by-frame.
    Stop,
    /// Let exactly one frame advance without changing the mode.
    Step,
    /// Enter the `Running` mode: the host free-runs again.
    Continue,
    /// Dispatch a synthetic key-down for the given key code.
    KeyPress(i32),
    /// Dispatch a synthetic key-up for the given key code.
    KeyRelease(i32),
    /// Dispatch a synthetic raw mouse movement.
    MouseMove(i32, i32),
    /// Replace (`Some`) or clear (`None`) the cached clock override.
    SetFrameDelta(Option<u64>),
    /// Write the view-controller's pitch, yaw and roll fields.
    SetOrientation(u32, u32, u32),
    /// Write the actor's position vector.
    SetPosition(u32, u32, u32),
    /// Write the actor's velocity vector.
    SetVelocity(u32, u32, u32),
}

/// A status event sent by the tick hook back to the waiting script thread.
#[derive(Debug, Clone, Copy, PartialEq, Eq)]
pub enum Status {
    /// The hook entered a frame while held (`Stopping` mode): the previous
    /// terminal command has settled and one frame boundary was observed.
    Stopped,
    /// The host's session-reset entry point fired: a new game began.
    SessionReset,
}

/// A status as the scripting interface reports it to the running script.
#[derive(Debug, Clone, Copy, PartialEq, Eq)]
pub enum Event {
    /// One frame boundary was observed.
    Stopped,
    /// A session boundary was observed.
    NewGame,
}

} // verus!
