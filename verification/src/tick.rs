//! Tick synchronization state machine.
//!
//! The host process calls the hooked per-frame entry point once per frame,
//! right after its own timing update. The replacement routine drains the
//! command queue and decides whether to return control (the frame advances)
//! or to keep processing. This module holds that decision logic, verified
//! against a recursive specification of a whole settle cycle; the unverified
//! boundary merely polls or blocks on the real queue and executes the
//! returned [`Effect`]s.

use vstd::prelude::*;

verus! {

use crate::messages::{Command, Status};

/// The mode of the session state machine.
#[derive(Debug, Clone, Copy, PartialEq, Eq)]
pub enum Mode {
    /// The host free-runs; the hook polls the queue without blocking.
    Running,
    /// The host is held frame-by-frame; the hook blocks for commands and
    /// acknowledges every frame boundary with a `Stopped` status.
    Stopping,
}

/// Session state owned exclusively by the thread executing inside the host's
/// tick hook; mutated only by commands received over the inbound queue.
#[derive(Debug, Clone, Copy, PartialEq, Eq)]
pub struct SessionState {
    /// Current mode.
    pub mode: Mode,
    /// Cached clock override, applied whenever control returns to the host.
    pub delta: Option<u64>,
}

/// A side effect the tick routine asks the host boundary to perform, in the
/// order the commands that caused it were received.
#[derive(Debug, Clone, Copy, PartialEq, Eq)]
pub enum Effect {
    /// Synthetic key-down through the input-dispatch subsystem.
    KeyDown(i32),
    /// Synthetic key-up through the input-dispatch subsystem.
    KeyUp(i32),
    /// Synthetic raw mouse movement through the input-dispatch subsystem.
    MouseMove(i32, i32),
    /// Write of the view-controller's orientation fields.
    SetOrientation(u32, u32, u32),
    /// Write of the actor's position vector.
    SetPosition(u32, u32, u32),
    /// Write of the actor's velocity vector.
    SetVelocity(u32, u32, u32),
    /// Write of the global application clock.
    SetClock(u64),
}

/// Whether `c` terminates a settle cycle. Exactly `Stop`, `Step` and
/// `Continue` do, because they alone decide whether and how the simulation
/// may advance.
pub open spec fn is_terminal(c: Command) -> bool {
    c == Command::Stop || c == Command::Step || c == Command::Continue
}

/// The side effect of a non-terminating command, if it has one.
pub open spec fn effect_of(c: Command) -> Option<Effect> {
    match c {
        Command::KeyPress(k) => Some(Effect::KeyDown(k)),
        Command::KeyRelease(k) => Some(Effect::KeyUp(k)),
        Command::MouseMove(x, y) => Some(Effect::MouseMove(x, y)),
        Command::SetOrientation(p, y, r) => Some(Effect::SetOrientation(p, y, r)),
        Command::SetPosition(x, y, z) => Some(Effect::SetPosition(x, y, z)),
        Command::SetVelocity(x, y, z) => Some(Effect::SetVelocity(x, y, z)),
        Command::SetFrameDelta(_) => None,
        Command::Stop => None,
        Command::Step => None,
        Command::Continue => None,
    }
}

/// How `c` transforms the session state: `Stop` and `Continue` switch the
/// mode, `SetFrameDelta` replaces or clears the clock override, everything
/// else leaves the state alone.
pub open spec fn apply_command(s: SessionState, c: Command) -> SessionState {
    match c {
        Command::Stop => SessionState { mode: Mode::Stopping, ..s },
        Command::Continue => SessionState { mode: Mode::Running, ..s },
        Command::SetFrameDelta(d) => SessionState { delta: d, ..s },
        _ => s,
    }
}

/// The clock write performed when control returns to the host: the cached
/// override if one is set, nothing otherwise.
pub open spec fn clock_effects(s: SessionState) -> Seq<Effect> {
    match s.delta {
        Some(d) => seq![Effect::SetClock(d)],
        None => Seq::empty(),
    }
}

/// The outcome of one settle cycle over a queue snapshot: the session state
/// after the consumed commands, the effects to perform in order (with the
/// clock override appended whenever control returns), how many commands were
/// consumed, and whether the routine must block for further commands before
/// it can return control.
pub ghost struct FrameSpec {
    /// Session state after the consumed commands.
    pub state: SessionState,
    /// Side effects in the order their commands were received.
    pub effects: Seq<Effect>,
    /// Number of commands consumed from the snapshot.
    pub consumed: int,
    /// Whether more commands are needed before control can return: true
    /// exactly when the snapshot ran out while the mode was `Stopping`.
    pub blocks: bool,
}

/// Specification of one settle cycle of the tick routine over the snapshot
/// `cmds` of the command queue: commands are taken in order; every
/// non-terminating command contributes its side effect; the first terminal
/// command ends the cycle; an exhausted snapshot ends the cycle in `Running`
/// mode and demands more input in `Stopping` mode.
pub open spec fn run_frame_spec(s: SessionState, cmds: Seq<Command>) -> FrameSpec
    decreases cmds.len(),
{
    if cmds.len() == 0 {
        if s.mode == Mode::Stopping {
            FrameSpec { state: s, effects: Seq::empty(), consumed: 0, blocks: true }
        } else {
            FrameSpec { state: s, effects: clock_effects(s), consumed: 0, blocks: false }
        }
    } else {
        let c = cmds[0];
        let s2 = apply_command(s, c);
        if is_terminal(c) {
            FrameSpec { state: s2, effects: clock_effects(s2), consumed: 1, blocks: false }
        } else {
            let rest = run_frame_spec(s2, cmds.drop_first());
            FrameSpec {
                state: rest.state,
                effects: (match effect_of(c) {
                    Some(e) => seq![e] + rest.effects,
                    None => rest.effects,
                }),
                consumed: 1 + rest.consumed,
                blocks: rest.blocks,
            }
        }
    }
}

/// What one dispatched command asks of the boundary.
pub struct DispatchResult {
    /// The side effect to perform now, if the command has one.
    pub effect: Option<Effect>,
    /// Whether the command ends the settle cycle.
    pub terminal: bool,
}

/// Dispatches a single command against the session state. Used directly by
/// the boundary while it blocks for commands in `Stopping` mode, and by
/// [`process_frame`] for a whole snapshot.
pub fn dispatch(state: &mut SessionState, cmd: Command) -> (r: DispatchResult)
    ensures
        *final(state) == apply_command(*old(state), cmd),
        r.effect == effect_of(cmd),
        r.terminal == is_terminal(cmd),
{
    match cmd {
        Command::Stop => {
            state.mode = Mode::Stopping;
            DispatchResult { effect: None, terminal: true }
        },
        Command::Step => DispatchResult { effect: None, terminal: true },
        Command::Continue => {
            state.mode = Mode::Running;
            DispatchResult { effect: None, terminal: true }
        },
        Command::KeyPress(k) => DispatchResult { effect: Some(Effect::KeyDown(k)), terminal: false },
        Command::KeyRelease(k) => DispatchResult { effect: Some(Effect::KeyUp(k)), terminal: false },
        Command::MouseMove(x, y) => DispatchResult {
            effect: Some(Effect::MouseMove(x, y)),
            terminal: false,
        },
        Command::SetFrameDelta(d) => {
            state.delta = d;
            DispatchResult { effect: None, terminal: false }
        },
        Command::SetOrientation(p, y, r) => DispatchResult {
            effect: Some(Effect::SetOrientation(p, y, r)),
            terminal: false,
        },
        Command::SetPosition(x, y, z) => DispatchResult {
            effect: Some(Effect::SetPosition(x, y, z)),
            terminal: false,
        },
        Command::SetVelocity(x, y, z) => DispatchResult {
            effect: Some(Effect::SetVelocity(x, y, z)),
            terminal: false,
        },
    }
}

/// The clock write owed when control returns to the host with this state.
pub fn pending_clock(state: &SessionState) -> (r: Option<Effect>)
    ensures
        (match state.delta {
            Some(d) => r == Some(Effect::SetClock(d)),
            None => r is None,
        }),
{
    match state.delta {
        Some(d) => Some(Effect::SetClock(d)),
        None => None,
    }
}

/// The handler body of the session-reset hook: each firing emits a session
/// boundary event and otherwise passes through to the host's own reset
/// logic.
pub fn new_game() -> (s: Status)
    ensures
        s == Status::SessionReset,
{
    Status::SessionReset
}

/// The observable outcome of one run of the tick routine over a snapshot.
pub struct FrameOutput {
    /// Side effects to perform, in order.
    pub effects: Vec<Effect>,
    /// Commands consumed from the snapshot.
    pub consumed: usize,
    /// Whether the routine must block for further commands (the snapshot ran
    /// out in `Stopping` mode); the clock override has not been applied yet
    /// in that case.
    pub blocks: bool,
    /// Whether a `Stopped` status is owed on the outbound queue: exactly when
    /// the frame was entered in `Stopping` mode.
    pub emit_stopped: bool,
}

/// Runs one settle cycle of the tick routine over the snapshot `cmds` of the
/// inbound queue, exactly as [`run_frame_spec`] describes it.
#[verifier::loop_isolation(false)]
pub fn process_frame(state: &mut SessionState, cmds: &Vec<Command>) -> (out: FrameOutput)
    ensures
        out.emit_stopped == (old(state).mode == Mode::Stopping),
        *final(state) == run_frame_spec(*old(state), cmds@).state,
        out.effects@ == run_frame_spec(*old(state), cmds@).effects,
        out.consumed as int == run_frame_spec(*old(state), cmds@).consumed,
        out.blocks == run_frame_spec(*old(state), cmds@).blocks,
{
    let ghost s0 = *state;
    let emit_stopped = match state.mode {
        Mode::Stopping => true,
        Mode::Running => false,
    };
    let mut effects: Vec<Effect> = Vec::new();
    let mut i: usize = 0;
    proof {
        assert(cmds@.skip(0) =~= cmds@);
        assert(effects@ + run_frame_spec(s0, cmds@).effects =~= run_frame_spec(s0, cmds@).effects);
    }
    while i < cmds.len()
        invariant
            i <= cmds@.len(),
            run_frame_spec(s0, cmds@).state == run_frame_spec(*state, cmds@.skip(i as int)).state,
            run_frame_spec(s0, cmds@).effects == effects@ + run_frame_spec(
                *state,
                cmds@.skip(i as int),
            ).effects,
            run_frame_spec(s0, cmds@).consumed == i + run_frame_spec(
                *state,
                cmds@.skip(i as int),
            ).consumed,
            run_frame_spec(s0, cmds@).blocks == run_frame_spec(*state, cmds@.skip(i as int)).blocks,
        decreases cmds@.len() - i,
    {
        let ghost pre = *state;
        let ghost tail = cmds@.skip(i as int);
        proof {
            assert(tail[0] == cmds@[i as int]);
            assert(tail.drop_first() =~= cmds@.skip(i as int + 1));
        }
        let c = cmds[i];
        let r = dispatch(state, c);
        if r.terminal {
            proof {
                assert(run_frame_spec(pre, tail) == (FrameSpec {
                    state: *state,
                    effects: clock_effects(*state),
                    consumed: 1,
                    blocks: false,
                }));
            }
            let ghost eff_pre = effects@;
            match pending_clock(state) {
                Some(e) => effects.push(e),
                None => {},
            }
            proof {
                assert(effects@ =~= eff_pre + clock_effects(*state));
            }
            return FrameOutput { effects, consumed: i + 1, blocks: false, emit_stopped };
        }
        let ghost eff_pre = effects@;
        match r.effect {
            Some(e) => effects.push(e),
            None => {},
        }
        proof {
            let rest = run_frame_spec(*state, cmds@.skip(i as int + 1));
            assert(run_frame_spec(pre, tail).effects == (match effect_of(c) {
                Some(e) => seq![e] + rest.effects,
                None => rest.effects,
            }));
            assert(effects@ + rest.effects =~= eff_pre + run_frame_spec(pre, tail).effects);
        }
        i += 1;
    }
    proof {
        assert(cmds@.skip(i as int) =~= Seq::<Command>::empty());
    }
    let blocks = match state.mode {
        Mode::Stopping => true,
        Mode::Running => false,
    };
    if blocks {
        proof {
            assert(effects@ + Seq::<Effect>::empty() =~= effects@);
        }
        return FrameOutput { effects, consumed: i, blocks: true, emit_stopped };
    }
    let ghost eff_pre = effects@;
    match pending_clock(state) {
        Some(e) => effects.push(e),
        None => {},
    }
    proof {
        assert(effects@ =~= eff_pre + clock_effects(*state));
    }
    FrameOutput { effects, consumed: i, blocks: false, emit_stopped }
}

/// The side effects of a run of non-terminating commands, in queue order.
pub open spec fn effects_of(cmds: Seq<Command>) -> Seq<Effect>
    decreases cmds.len(),
{
    if cmds.len() == 0 {
        Seq::empty()
    } else {
        match effect_of(cmds[0]) {
            Some(e) => seq![e] + effects_of(cmds.drop_first()),
            None => effects_of(cmds.drop_first()),
        }
    }
}

/// Law: for every sequence of non-terminating commands followed by exactly
/// one terminal command, the tick routine consumes the whole sequence,
/// returns control without blocking, and performs every non-terminating
/// command's side effect in FIFO order before the final clock write.
pub proof fn lemma_fifo_processing(s: SessionState, cmds: Seq<Command>)
    requires
        cmds.len() >= 1,
        forall|i: int| 0 <= i < cmds.len() - 1 ==> !is_terminal(#[trigger] cmds[i]),
        is_terminal(cmds[cmds.len() - 1]),
    ensures
        run_frame_spec(s, cmds).consumed == cmds.len(),
        !run_frame_spec(s, cmds).blocks,
        run_frame_spec(s, cmds).effects == effects_of(cmds.take(cmds.len() - 1)) + clock_effects(
            run_frame_spec(s, cmds).state,
        ),
    decreases cmds.len(),
{
    let out = run_frame_spec(s, cmds);
    if cmds.len() == 1 {
        assert(cmds.take(0) =~= Seq::<Command>::empty());
        assert(effects_of(Seq::<Command>::empty()) + clock_effects(out.state) =~= clock_effects(
            out.state,
        ));
    } else {
        let c = cmds[0];
        let s2 = apply_command(s, c);
        let rest = cmds.drop_first();
        assert(rest[rest.len() - 1] == cmds[cmds.len() - 1]);
        lemma_fifo_processing(s2, rest);
        let prefix = cmds.take(cmds.len() - 1);
        assert(prefix.len() == cmds.len() - 1);
        assert(prefix[0] == c);
        assert(prefix.drop_first() =~= rest.take(rest.len() - 1));
        let rest_out = run_frame_spec(s2, rest);
        match effect_of(c) {
            Some(e) => {
                assert(effects_of(prefix) == seq![e] + effects_of(rest.take(rest.len() - 1)));
                assert(out.effects =~= effects_of(prefix) + clock_effects(out.state));
            },
            None => {
                assert(out.effects =~= effects_of(prefix) + clock_effects(out.state));
            },
        }
    }
}

/// Law: a settle cycle consumes commands exactly up to and including the
/// first terminal command, and no further — whatever follows stays queued
/// for the next cycle.
pub proof fn lemma_consumes_to_first_terminal(s: SessionState, cmds: Seq<Command>, t: int)
    requires
        0 <= t < cmds.len(),
        is_terminal(cmds[t]),
        forall|i: int| 0 <= i < t ==> !is_terminal(#[trigger] cmds[i]),
    ensures
        run_frame_spec(s, cmds).consumed == t + 1,
        !run_frame_spec(s, cmds).blocks,
    decreases t,
{
    if t > 0 {
        let rest = cmds.drop_first();
        assert(rest[t - 1] == cmds[t]);
        lemma_consumes_to_first_terminal(apply_command(s, cmds[0]), rest, t - 1);
    }
}

/// Law: `Stop` is idempotent in effect. Once the mode is `Stopping`, a frame
/// whose next command is another `Stop` consumes just that command, keeps the
/// mode `Stopping`, and returns control without blocking — so every such
/// frame keeps reporting a `Stopped` status (`process_frame` owes one exactly
/// when the frame is entered in `Stopping` mode).
pub proof fn lemma_stop_idempotent(s: SessionState, cmds: Seq<Command>)
    requires
        s.mode == Mode::Stopping,
        cmds.len() >= 1,
        cmds[0] == Command::Stop,
    ensures
        run_frame_spec(s, cmds).state.mode == Mode::Stopping,
        run_frame_spec(s, cmds).state.delta == s.delta,
        run_frame_spec(s, cmds).consumed == 1,
        !run_frame_spec(s, cmds).blocks,
{
}

/// Law: `SetFrameDelta(None)` always clears a previously set override.
pub proof fn lemma_clear_override(s: SessionState)
    ensures
        apply_command(s, Command::SetFrameDelta(None)).delta is None,
{
}

/// Law: once the clock override is cleared it stays cleared, and no frame
/// writes the clock, as long as no command sets a new override — the host's
/// own per-frame timing computation is left untouched.
pub proof fn lemma_cleared_override_stays_cleared(s: SessionState, cmds: Seq<Command>)
    requires
        s.delta is None,
        forall|i: int|
            0 <= i < cmds.len() ==> !(#[trigger] cmds[i] matches Command::SetFrameDelta(Some(_))),
    ensures
        run_frame_spec(s, cmds).state.delta is None,
        forall|j: int|
            0 <= j < run_frame_spec(s, cmds).effects.len() ==> !(#[trigger] run_frame_spec(
                s,
                cmds,
            ).effects[j] matches Effect::SetClock(_)),
    decreases cmds.len(),
{
    let out = run_frame_spec(s, cmds);
    if cmds.len() == 0 {
    } else {
        let c = cmds[0];
        let s2 = apply_command(s, c);
        assert(s2.delta is None);
        if is_terminal(c) {
        } else {
            let rest = cmds.drop_first();
            assert(forall|i: int|
                0 <= i < rest.len() ==> !(#[trigger] rest[i] matches Command::SetFrameDelta(
                    Some(_),
                )));
            lemma_cleared_override_stays_cleared(s2, rest);
            let rest_out = run_frame_spec(s2, rest);
            match effect_of(c) {
                Some(e) => {
                    assert(!(e matches Effect::SetClock(_)));
                    assert(forall|j: int|
                        0 <= j < out.effects.len() ==> !(#[trigger] out.effects[j] matches Effect::SetClock(
                            _,
                        ))) by {
                        assert(forall|j: int|
                            0 < j < out.effects.len() ==> out.effects[j] == rest_out.effects[j - 1]);
                    }
                },
                None => {},
            }
        }
    }
}

/// Law: while the mode is `Running` and the command queue is empty, the tick
/// routine returns control to the host at once — consuming nothing, never
/// blocking, leaving the state alone — and applies exactly the cached clock
/// override.
pub proof fn lemma_running_empty_queue(s: SessionState)
    requires
        s.mode == Mode::Running,
    ensures
        !run_frame_spec(s, Seq::<Command>::empty()).blocks,
        run_frame_spec(s, Seq::<Command>::empty()).consumed == 0,
        run_frame_spec(s, Seq::<Command>::empty()).state == s,
        run_frame_spec(s, Seq::<Command>::empty()).effects == clock_effects(s),
{
}

} // verus!
