//! Verified core of an in-process instrumentation engine that turns a
//! real-time simulation's autonomous per-frame update loop into a remotely
//! steppable, scriptable state machine.
//!
//! The crate holds the decision logic of that engine: the interception
//! bookkeeping (hook installation, one-shot capture, removal), the typed
//! accessors over captured host objects, the tick synchronization state
//! machine that the host thread runs once per frame, and the scripting bridge
//! that tracks held keys, cooperative cancellation and session lifecycle.
//! Everything that must touch foreign memory, threads or channels lives
//! outside the crate and only executes the plans and decisions produced here.

use vstd::prelude::*;

pub mod accessors;
pub mod bridge;
pub mod config;
pub mod hooks;
pub mod messages;
pub mod tick;

verus! {

use crate::accessors::Captured;
use crate::tick::{Mode, SessionState};

/// The process-wide state created once at attach time: the session state
/// owned by the hooked thread and the captured host-object pointers.
pub struct Runtime {
    /// Mode and clock override of the tick synchronization state machine.
    pub session: SessionState,
    /// Host-object pointers captured by the one-shot hooks.
    pub captured: Captured,
}

/// Creates the process-wide state as it must look right after the hooks have
/// been installed: the session free-running, no clock override, and no host
/// object captured yet.
pub fn init() -> (r: Runtime)
    ensures
        r.session.mode == Mode::Running,
        r.session.delta is None,
        r.captured.slateapp.value is None,
        r.captured.controller.value is None,
        r.captured.character.value is None,
{
    Runtime {
        session: SessionState { mode: Mode::Running, delta: None },
        captured: Captured::empty(),
    }
}

} // verus!
