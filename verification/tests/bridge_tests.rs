use rtil::accessors::{AMyCharacter, FApp};
use rtil::bridge::{on_status, wait_for_new_game, ControlMsg, GameInterface, IfaceError, RxAction, Tas};
use rtil::config::{to_key, Config};
use rtil::messages::{Command, Event, Status};

fn bindings() -> Config {
    Config { forward: 17, backward: 31, left: 30, right: 32, jump: 57, crouch: 42, menu: 1 }
}

#[test]
fn to_key_resolves_every_known_name() {
    let cfg = bindings();
    assert_eq!(to_key("forward", &cfg), Some(17));
    assert_eq!(to_key("backward", &cfg), Some(31));
    assert_eq!(to_key("left", &cfg), Some(30));
    assert_eq!(to_key("right", &cfg), Some(32));
    assert_eq!(to_key("jump", &cfg), Some(57));
    assert_eq!(to_key("crouch", &cfg), Some(42));
    assert_eq!(to_key("menu", &cfg), Some(1));
    assert_eq!(to_key("fly", &cfg), None);
    assert_eq!(to_key("", &cfg), None);
}

#[test]
fn pressing_an_unknown_key_fails_fast() {
    let mut g = GameInterface::new(bindings());
    assert_eq!(g.press_key("warp", None), Err(IfaceError::UnknownKey));
    assert!(g.pressed_keys.is_empty());
}

#[test]
fn press_twice_release_once_leaves_the_key_released() {
    let mut g = GameInterface::new(bindings());
    assert_eq!(g.press_key("jump", None), Ok(Command::KeyPress(57)));
    assert_eq!(g.press_key("jump", None), Ok(Command::KeyPress(57)));
    // Set semantics: held once, not counted twice.
    assert_eq!(g.pressed_keys, vec![57]);
    assert_eq!(g.release_key("jump", None), Ok(Command::KeyRelease(57)));
    assert!(g.pressed_keys.is_empty());
}

#[test]
fn releasing_a_key_that_was_never_pressed_is_a_no_op_on_the_set() {
    let mut g = GameInterface::new(bindings());
    assert_eq!(g.press_key("forward", None), Ok(Command::KeyPress(17)));
    // The release command is still sent, but the held set is untouched.
    assert_eq!(g.release_key("jump", None), Ok(Command::KeyRelease(57)));
    assert_eq!(g.pressed_keys, vec![17]);
}

#[test]
fn reset_releases_every_held_key_exactly_once() {
    let mut g = GameInterface::new(bindings());
    g.press_key("forward", None).unwrap();
    g.press_key("jump", None).unwrap();
    g.press_key("crouch", None).unwrap();
    let releases = g.reset();
    assert_eq!(
        releases,
        vec![Command::KeyRelease(17), Command::KeyRelease(57), Command::KeyRelease(42)]
    );
    assert!(g.pressed_keys.is_empty());
    assert!(!g.should_exit);
}

#[test]
fn reset_after_cancellation_clears_the_flag() {
    let mut g = GameInterface::new(bindings());
    g.press_key("forward", None).unwrap();
    assert_eq!(g.press_key("jump", Some(ControlMsg::Stop)), Err(IfaceError::ExitPlease));
    assert!(g.should_exit);
    // Cancellation is sticky until the cleanup runs.
    assert_eq!(g.move_mouse(1, 1, None), Err(IfaceError::ExitPlease));
    let releases = g.reset();
    assert_eq!(releases, vec![Command::KeyRelease(17)]);
    assert!(g.pressed_keys.is_empty());
    assert!(!g.should_exit);
}

#[test]
fn syscall_applies_config_and_refuses_misplaced_messages() {
    let mut g = GameInterface::new(bindings());
    let mut cfg = bindings();
    cfg.forward = 99;
    assert_eq!(g.syscall(Some(ControlMsg::Config(cfg))), Ok(()));
    assert_eq!(g.config.forward, 99);
    assert_eq!(
        g.syscall(Some(ControlMsg::WorkingDir(String::from("/tmp")))),
        Err(IfaceError::MisplacedControl)
    );
    assert_eq!(
        g.syscall(Some(ControlMsg::Start(String::from("step()")))),
        Err(IfaceError::MisplacedControl)
    );
    assert_eq!(g.syscall(Some(ControlMsg::Stop)), Err(IfaceError::ExitPlease));
    assert!(g.cancelled());
}

#[test]
fn step_always_advances_and_reports_cancellation_after_sending() {
    let mut g = GameInterface::new(bindings());
    let (cmd, chk) = g.step(None);
    assert_eq!(cmd, Command::Step);
    assert_eq!(chk, Ok(()));
    let (cmd, chk) = g.step(Some(ControlMsg::Stop));
    // The advance-frame command is produced even when cancellation arrives:
    // the pending frame still settles before the script unwinds.
    assert_eq!(cmd, Command::Step);
    assert_eq!(chk, Err(IfaceError::ExitPlease));
}

#[test]
fn statuses_map_to_script_events() {
    assert_eq!(on_status(Status::Stopped), Event::Stopped);
    assert_eq!(on_status(Status::SessionReset), Event::NewGame);
}

#[test]
fn wait_for_new_game_skips_stopped_statuses() {
    let events = vec![Event::Stopped, Event::Stopped, Event::NewGame, Event::Stopped];
    assert_eq!(wait_for_new_game(&events), Some(2));
    let none = vec![Event::Stopped, Event::Stopped];
    assert_eq!(wait_for_new_game(&none), None);
    assert_eq!(wait_for_new_game(&Vec::new()), None);
    assert_eq!(wait_for_new_game(&vec![Event::NewGame]), Some(0));
}

#[test]
fn setters_become_commands() {
    let mut g = GameInterface::new(bindings());
    assert_eq!(
        g.set_location(1f32.to_bits(), 2f32.to_bits(), 3f32.to_bits(), None),
        Ok(Command::SetPosition(1f32.to_bits(), 2f32.to_bits(), 3f32.to_bits()))
    );
    assert_eq!(
        g.set_rotation(10, 20, 30, None),
        Ok(Command::SetOrientation(10, 20, 30))
    );
    assert_eq!(g.set_velocity(4, 5, 6, None), Ok(Command::SetVelocity(4, 5, 6)));
    assert_eq!(g.set_delta(Some(77), None), Ok(Command::SetFrameDelta(Some(77))));
    assert_eq!(g.set_delta(None, None), Ok(Command::SetFrameDelta(None)));
    assert_eq!(g.move_mouse(-3, 9, None), Ok(Command::MouseMove(-3, 9)));
}

#[test]
fn getters_name_the_captured_addresses() {
    let mut g = GameInterface::new(bindings());
    let character = AMyCharacter { base: 0x1000 };
    assert_eq!(g.get_location(None, &character), Ok((0x1168, 0x116c, 0x1170)));
    assert_eq!(g.get_velocity(None, &character), Ok((0x1174, 0x1178, 0x117c)));
    assert_eq!(g.get_acceleration(None, &character), Ok((0x1180, 0x1184, 0x1188)));
    let app = FApp::at(0x2239a68);
    assert_eq!(g.get_delta(None, &app), Ok(0x2239a68));
}

#[test]
fn print_passes_the_text_through_unless_cancelled() {
    let mut g = GameInterface::new(bindings());
    assert_eq!(g.print(String::from("hello"), None), Ok(String::from("hello")));
    g.syscall(Some(ControlMsg::Stop)).unwrap_err();
    assert_eq!(g.print(String::from("late"), None), Err(IfaceError::ExitPlease));
}

#[test]
fn idle_loop_stores_state_and_starts_sessions() {
    let mut t = Tas::new(bindings());
    assert_eq!(t.handle_rx(ControlMsg::Stop), RxAction::Idle);
    let mut cfg = bindings();
    cfg.menu = 88;
    assert_eq!(t.handle_rx(ControlMsg::Config(cfg)), RxAction::Idle);
    assert_eq!(t.iface.config.menu, 88);
    assert_eq!(
        t.handle_rx(ControlMsg::WorkingDir(String::from("/scripts"))),
        RxAction::Idle
    );
    assert_eq!(t.working_dir, Some(String::from("/scripts")));
    // Starting a session pauses the host first.
    assert_eq!(
        t.handle_rx(ControlMsg::Start(String::from("step()"))),
        RxAction::Run { pause: Command::Stop, script: String::from("step()") }
    );
}

#[test]
fn finish_script_releases_keys_and_resumes() {
    let mut t = Tas::new(bindings());
    t.iface.press_key("left", None).unwrap();
    t.iface.press_key("right", None).unwrap();
    let cleanup = t.finish_script();
    assert_eq!(cleanup.releases, vec![Command::KeyRelease(30), Command::KeyRelease(32)]);
    assert_eq!(cleanup.resume, Command::Continue);
    assert!(t.iface.pressed_keys.is_empty());
    assert!(!t.iface.should_exit);
}
