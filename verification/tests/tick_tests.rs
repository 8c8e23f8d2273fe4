use rtil::messages::Command;
use rtil::tick::{dispatch, new_game, pending_clock, process_frame, Effect, Mode, SessionState};

fn held() -> SessionState {
    SessionState { mode: Mode::Stopping, delta: None }
}

fn running() -> SessionState {
    SessionState { mode: Mode::Running, delta: None }
}

#[test]
fn key_press_then_step_dispatches_then_advances_one_frame() {
    // While a script runs the host is held; a pressKey followed by a step
    // must dispatch exactly one key-down, consume exactly those two
    // commands, and let the frame advance.
    let mut state = held();
    let cmds = vec![Command::KeyPress(29), Command::Step];
    let out = process_frame(&mut state, &cmds);
    assert!(out.emit_stopped);
    assert_eq!(out.effects, vec![Effect::KeyDown(29)]);
    assert_eq!(out.consumed, 2);
    assert!(!out.blocks);
    assert_eq!(state.mode, Mode::Stopping);
    // The next frame is entered still held: exactly one Stopped status is
    // owed, and no command is consumed beyond the two above.
    let out2 = process_frame(&mut state, &Vec::new());
    assert!(out2.emit_stopped);
    assert_eq!(out2.consumed, 0);
    assert!(out2.blocks);
}

#[test]
fn set_position_velocity_continue_writes_in_order_then_free_runs() {
    let mut state = held();
    let cmds = vec![
        Command::SetPosition(1f32.to_bits(), 2f32.to_bits(), 3f32.to_bits()),
        Command::SetVelocity(0f32.to_bits(), 0f32.to_bits(), 0f32.to_bits()),
        Command::Continue,
    ];
    let out = process_frame(&mut state, &cmds);
    assert_eq!(
        out.effects,
        vec![
            Effect::SetPosition(1f32.to_bits(), 2f32.to_bits(), 3f32.to_bits()),
            Effect::SetVelocity(0f32.to_bits(), 0f32.to_bits(), 0f32.to_bits()),
        ]
    );
    assert_eq!(out.consumed, 3);
    assert!(!out.blocks);
    assert_eq!(state.mode, Mode::Running);
}

#[test]
fn running_with_empty_queue_returns_without_blocking() {
    let mut state = running();
    let out = process_frame(&mut state, &Vec::new());
    assert!(!out.emit_stopped);
    assert!(!out.blocks);
    assert_eq!(out.consumed, 0);
    assert_eq!(out.effects, Vec::new());
    assert_eq!(state, running());
}

#[test]
fn running_with_empty_queue_applies_cached_override() {
    let delta = (1.0f64 / 60.0).to_bits();
    let mut state = SessionState { mode: Mode::Running, delta: Some(delta) };
    let out = process_frame(&mut state, &Vec::new());
    assert_eq!(out.effects, vec![Effect::SetClock(delta)]);
    assert_eq!(out.consumed, 0);
    assert!(!out.blocks);
}

#[test]
fn repeated_stop_keeps_reporting_stopped() {
    let mut state = held();
    for _ in 0..3 {
        let out = process_frame(&mut state, &vec![Command::Stop]);
        assert!(out.emit_stopped);
        assert_eq!(out.consumed, 1);
        assert!(!out.blocks);
        assert_eq!(state.mode, Mode::Stopping);
    }
}

#[test]
fn clearing_the_override_stops_clock_writes() {
    let delta = 0.25f64.to_bits();
    let mut state = held();
    let out = process_frame(&mut state, &vec![Command::SetFrameDelta(Some(delta)), Command::Step]);
    // While set, returning control writes the clock once.
    assert_eq!(out.effects, vec![Effect::SetClock(delta)]);
    let out = process_frame(&mut state, &vec![Command::SetFrameDelta(None), Command::Step]);
    // Cleared: no clock write on this frame...
    assert_eq!(out.effects, Vec::new());
    assert_eq!(state.delta, None);
    // ...nor on the next, so the host's own timing runs unaffected.
    let out = process_frame(&mut state, &vec![Command::Step]);
    assert_eq!(out.effects, Vec::new());
}

#[test]
fn non_terminal_effects_come_in_fifo_order_before_the_terminal() {
    let mut state = held();
    let cmds = vec![
        Command::KeyPress(10),
        Command::MouseMove(3, -4),
        Command::SetOrientation(1, 2, 3),
        Command::KeyRelease(10),
        Command::Step,
    ];
    let out = process_frame(&mut state, &cmds);
    assert_eq!(
        out.effects,
        vec![
            Effect::KeyDown(10),
            Effect::MouseMove(3, -4),
            Effect::SetOrientation(1, 2, 3),
            Effect::KeyUp(10),
        ]
    );
    assert_eq!(out.consumed, 5);
}

#[test]
fn stopping_with_exhausted_queue_blocks_for_more() {
    let mut state = held();
    let out = process_frame(&mut state, &vec![Command::KeyPress(7)]);
    assert_eq!(out.effects, vec![Effect::KeyDown(7)]);
    assert_eq!(out.consumed, 1);
    assert!(out.blocks);
    // The boundary then feeds further commands one by one.
    let r = dispatch(&mut state, Command::Step);
    assert!(r.terminal);
    assert_eq!(r.effect, None);
    assert_eq!(pending_clock(&state), None);
}

#[test]
fn dispatch_applies_commands_to_the_state() {
    let mut state = running();
    let r = dispatch(&mut state, Command::Stop);
    assert!(r.terminal);
    assert_eq!(state.mode, Mode::Stopping);
    let r = dispatch(&mut state, Command::SetFrameDelta(Some(42)));
    assert!(!r.terminal);
    assert_eq!(state.delta, Some(42));
    assert_eq!(pending_clock(&state), Some(Effect::SetClock(42)));
    let r = dispatch(&mut state, Command::Continue);
    assert!(r.terminal);
    assert_eq!(state.mode, Mode::Running);
    assert_eq!(state.delta, Some(42));
}

#[test]
fn new_game_emits_a_session_reset() {
    assert_eq!(new_game(), rtil::messages::Status::SessionReset);
}
