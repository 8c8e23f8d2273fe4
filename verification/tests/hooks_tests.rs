use rtil::accessors::{AController, AMyCharacter, Captured, FApp, FSlateApplication, Write32, Write64};
use rtil::accessors::save_controller;
use rtil::hooks::{encode_le32, rel32, CapturedSlot, HookError, HookHandle, OnceHook};
use rtil::tick::Mode;

#[test]
fn install_emits_a_relative_jump_and_saves_the_prologue() {
    let prologue = vec![0x55, 0x8b, 0xec, 0x83, 0xec];
    let (hook, patch) =
        HookHandle::install(0x1000, 0x2000, prologue.clone(), &prologue).unwrap();
    // Displacement counts from the end of the five-byte patch.
    assert_eq!(patch, vec![0xe9, 0xfb, 0x0f, 0x00, 0x00]);
    assert_eq!(hook.target, 0x1000);
    assert_eq!(hook.replacement, 0x2000);
    assert_eq!(hook.saved, prologue);
    assert!(hook.installed);
}

#[test]
fn backward_jumps_wrap_the_displacement() {
    // Jumping backwards yields a negative displacement in two's complement.
    assert_eq!(rel32(0x2000, 0x1000), 0xffff_effbu32);
    assert_eq!(encode_le32(0xffff_effb), vec![0xfb, 0xef, 0xff, 0xff]);
}

#[test]
fn the_trampoline_replays_the_prologue_then_jumps_back() {
    let prologue = vec![0x55, 0x8b, 0xec, 0x83, 0xec];
    let (hook, _) = HookHandle::install(0x1000, 0x2000, prologue.clone(), &prologue).unwrap();
    let tramp = hook.trampoline(0x3000);
    // Five saved bytes, then a jump from 0x3005 to 0x1005: displacement
    // 0x1005 - 0x300a = -0x2005 in two's complement.
    assert_eq!(
        tramp,
        vec![0x55, 0x8b, 0xec, 0x83, 0xec, 0xe9, 0xfb, 0xdf, 0xff, 0xff]
    );
}

#[test]
fn install_refuses_an_unexpected_prologue() {
    let found = vec![0x90, 0x90, 0x90, 0x90, 0x90];
    let expected = vec![0x55, 0x8b, 0xec, 0x83, 0xec];
    let r = HookHandle::install(0x1000, 0x2000, found, &expected);
    assert_eq!(r.err(), Some(HookError::SignatureMismatch));
}

#[test]
fn remove_restores_once_and_is_idempotent() {
    let prologue = vec![1, 2, 3, 4, 5];
    let (mut hook, _) = HookHandle::install(0x400, 0x800, prologue.clone(), &prologue).unwrap();
    assert_eq!(hook.remove(), Some(prologue));
    assert!(!hook.installed);
    assert_eq!(hook.remove(), None);
    assert!(!hook.installed);
}

#[test]
fn a_one_shot_hook_captures_once_then_passes_through() {
    let prologue = vec![1, 2, 3, 4, 5];
    let (hook, _) = HookHandle::install(0x400, 0x800, prologue.clone(), &prologue).unwrap();
    let mut once = OnceHook::arm(hook);
    let mut slot = CapturedSlot::empty();
    // First call: the this-pointer is captured and the patch comes off.
    assert_eq!(once.fire(0xdead00, &mut slot), Some(prologue));
    assert!(once.fired);
    assert_eq!(slot.value, Some(0xdead00));
    assert!(slot.is_captured());
    assert_eq!(slot.addr(), 0xdead00);
    // Later calls change nothing.
    assert_eq!(once.fire(0xbeef00, &mut slot), None);
    assert_eq!(slot.value, Some(0xdead00));
}

#[test]
fn init_builds_the_attach_time_state() {
    let rt = rtil::init();
    assert_eq!(rt.session.mode, Mode::Running);
    assert_eq!(rt.session.delta, None);
    assert_eq!(rt.captured.slateapp.value, None);
    assert_eq!(rt.captured.controller.value, None);
    assert_eq!(rt.captured.character.value, None);
}

#[test]
fn the_controller_capture_hook_stores_the_this_pointer() {
    let mut captured = Captured::empty();
    save_controller(&mut captured, 0x7000);
    assert_eq!(captured.controller.value, Some(0x7000));
    assert_eq!(captured.slateapp.value, None);
    assert_eq!(captured.character.value, None);
}

#[test]
fn controller_accessors_use_the_fixed_offsets() {
    let mut slot = CapturedSlot::empty();
    slot.capture(0x5000);
    let controller = AController::from_capture(&slot);
    assert_eq!(controller.rotation(), (0x52d0, 0x52d4, 0x52d8));
    let pitch = 10f32.to_bits();
    let yaw = 20f32.to_bits();
    let roll = 0f32.to_bits();
    assert_eq!(
        controller.set_rotation(pitch, yaw, roll),
        vec![
            Write32 { addr: 0x52d0, bits: pitch },
            Write32 { addr: 0x52d4, bits: yaw },
            Write32 { addr: 0x52d8, bits: roll },
        ]
    );
}

#[test]
fn character_accessors_write_each_vector_independently() {
    let character = AMyCharacter { base: 0x9000 };
    assert_eq!(character.location(), (0x9168, 0x916c, 0x9170));
    assert_eq!(character.velocity(), (0x9174, 0x9178, 0x917c));
    assert_eq!(character.acceleration(), (0x9180, 0x9184, 0x9188));
    let w = character.set_location(1, 2, 3);
    assert_eq!(
        w,
        vec![
            Write32 { addr: 0x9168, bits: 1 },
            Write32 { addr: 0x916c, bits: 2 },
            Write32 { addr: 0x9170, bits: 3 },
        ]
    );
    // No write of one vector touches another vector's addresses.
    let v = character.set_velocity(4, 5, 6);
    let a = character.set_acceleration(7, 8, 9);
    for w1 in &w {
        for w2 in v.iter().chain(a.iter()) {
            assert_ne!(w1.addr, w2.addr);
        }
    }
}

#[test]
fn the_clock_accessor_reads_and_writes_one_address() {
    let app = FApp::at(0x123456);
    assert_eq!(app.delta(), 0x123456);
    let bits = (1.0f64 / 120.0).to_bits();
    assert_eq!(app.set_delta(bits), Write64 { addr: 0x123456, bits });
}

#[test]
fn the_input_dispatcher_carries_the_captured_pointer() {
    let mut slot = CapturedSlot::empty();
    slot.capture(0xabc0);
    let slate = FSlateApplication::from_capture(&slot);
    assert_eq!(slate.this, 0xabc0);
}
