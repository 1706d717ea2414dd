use emulator::clock::{Burst, CycleRate, Pacer, MASTER_CYCLES_PER_TICK};
use emulator::input::{
    ControllerPort, InputProfile, MouseButton, PadKeys, PadState, PointerButtons, PointerState,
    RawEvent,
};
use emulator::session::{Command, HostEvent, Session};
use emulator::surface::{FrameSurface, Presenter, ScreenGeometry};

fn keys() -> PadKeys {
    PadKeys {
        a: 30,
        b: 31,
        x: 32,
        y: 33,
        up: 34,
        left: 35,
        down: 36,
        right: 37,
        l: 38,
        r: 39,
        start: 40,
        select: 3,
    }
}

fn session(profile1: Option<InputProfile>, profile2: Option<InputProfile>) -> Session {
    let geometry = ScreenGeometry { width: 64, height: 48, native_height: 12, visible_lines: 11 };
    Session::new(
        profile1,
        profile2,
        FrameSurface::new(16, 12).unwrap(),
        Presenter::new(geometry),
        Pacer::new(0, CycleRate::master_clock()),
    )
}

fn key(scancode: u32, pressed: bool) -> HostEvent {
    HostEvent::Input(RawEvent::Key { scancode, pressed })
}

#[test]
fn new_session_plugs_in_what_the_profiles_ask_for() {
    let mouse = InputProfile::Pointer(PointerButtons { left: MouseButton::Left, right: MouseButton::Right });
    let s = session(Some(InputProfile::Pad(keys())), Some(mouse));
    assert!(s.focused);
    assert_eq!(s.port1, ControllerPort::StandardPad(PadState { buttons: 0 }));
    assert_eq!(
        s.port2,
        ControllerPort::PointingDevice(PointerState { left: false, right: false, dx: 0, dy: 0 })
    );
    assert!(s.wants_cursor());
    let s = session(None, None);
    assert_eq!(s.port1, ControllerPort::Absent);
    assert_eq!(s.port2, ControllerPort::Absent);
    assert!(!s.wants_cursor());
    assert_eq!(s.slots.load(0), None);
}

#[test]
fn close_request_exits() {
    let mut s = session(None, None);
    assert_eq!(s.handle_event(HostEvent::CloseRequested), Command::Exit);
}

#[test]
fn resize_reconfigures_and_marks_geometry() {
    let mut s = session(None, None);
    s.presenter.geometry_dirty = false;
    assert_eq!(
        s.handle_event(HostEvent::Resized { width: 64, height: 48 }),
        Command::Reconfigure { width: 64, height: 48 }
    );
    assert!(!s.presenter.geometry_dirty);
    assert_eq!(
        s.handle_event(HostEvent::Resized { width: 65, height: 48 }),
        Command::Reconfigure { width: 65, height: 48 }
    );
    assert!(s.presenter.geometry_dirty);
    assert_eq!(s.presenter.geometry.width, 65);
}

#[test]
fn focus_gain_grabs_the_cursor_for_a_mouse() {
    let mouse = InputProfile::Pointer(PointerButtons { left: MouseButton::Left, right: MouseButton::Right });
    let mut s = session(None, Some(mouse));
    assert_eq!(s.handle_event(HostEvent::Focused(false)), Command::Nothing);
    assert!(!s.focused);
    assert_eq!(s.handle_event(HostEvent::Focused(true)), Command::GrabCursor);
    assert!(s.focused);
    let mut s = session(Some(InputProfile::Pad(keys())), None);
    assert_eq!(s.handle_event(HostEvent::Focused(true)), Command::Nothing);
}

#[test]
fn input_is_ignored_without_focus() {
    let mut s = session(Some(InputProfile::Pad(keys())), None);
    s.handle_event(HostEvent::Focused(false));
    assert_eq!(s.handle_event(key(30, true)), Command::Nothing);
    assert_eq!(s.port1, ControllerPort::StandardPad(PadState { buttons: 0 }));
    assert_eq!(s.handle_event(key(4, true)), Command::Nothing);
    assert_eq!(s.handle_event(key(0x2a, true)), Command::Nothing);
    assert!(!s.modifiers.left_shift);
}

#[test]
fn key_bound_by_a_port_never_reaches_the_host_keys() {
    let mut s = session(Some(InputProfile::Pad(keys())), None);
    assert_eq!(s.handle_event(key(3, true)), Command::Nothing);
    assert_eq!(s.port1, ControllerPort::StandardPad(PadState { buttons: 0x2000 }));
    assert_eq!(s.handle_event(key(4, true)), Command::SaveState(3));
    assert_eq!(s.port1, ControllerPort::StandardPad(PadState { buttons: 0x2000 }));
}

#[test]
fn load_of_an_empty_slot_is_dropped() {
    let mut s = session(None, None);
    assert_eq!(s.handle_event(key(0x36, true)), Command::Nothing);
    assert_eq!(s.handle_event(key(4, true)), Command::Nothing);
    s.slots.save(3, vec![1u8, 2, 3]);
    assert_eq!(s.handle_event(key(4, true)), Command::LoadState(3));
    assert_eq!(s.slots.load(3), Some(&vec![1u8, 2, 3]));
    assert_eq!(s.handle_event(key(5, true)), Command::Nothing);
    assert_eq!(s.handle_event(key(0x36, false)), Command::Nothing);
    assert_eq!(s.handle_event(key(5, true)), Command::SaveState(4));
}

#[test]
fn unclaimed_mouse_events_are_lost() {
    let mut s = session(Some(InputProfile::Pad(keys())), None);
    assert_eq!(
        s.handle_event(HostEvent::Input(RawEvent::MouseMotion { dx: 4, dy: 4 })),
        Command::Nothing
    );
    assert_eq!(
        s.handle_event(HostEvent::Input(RawEvent::MouseButton { button: MouseButton::Left, pressed: true })),
        Command::Nothing
    );
    assert_eq!(s.port1, ControllerPort::StandardPad(PadState { buttons: 0 }));
}

#[test]
fn save_then_stall_then_one_burst_resets_the_deadline() {
    let mut s = session(None, None);
    assert_eq!(s.slots.load(3), None);
    assert_eq!(s.handle_event(key(4, true)), Command::SaveState(3));
    let state = vec![0xabu8; 32];
    s.slots.save(3, state.clone());
    assert_eq!(s.slots.load(3), Some(&state));

    let now = 2_000_000_000u64;
    assert!(s.pacer.emulation.step_due(now));
    let mut bursts = 0;
    if s.pacer.emulation.step_due(now) {
        let mut burst = Burst::new();
        let mut steps = 0u32;
        loop {
            steps += 1;
            let frame_complete = steps == 178_684;
            if !burst.record_step(MASTER_CYCLES_PER_TICK, frame_complete).unwrap() {
                break;
            }
        }
        assert_eq!(burst.total_cycles(), 357_368);
        assert_eq!(s.pacer.emulation.complete_burst(now, burst.total_cycles()), Ok(true));
        bursts += 1;
    }
    assert_eq!(bursts, 1);
    assert_eq!(s.pacer.emulation.next_step_deadline(), now);
    assert!(!s.pacer.emulation.step_due(now - 1));
    assert_eq!(s.pacer.presentation.present_due(now), Ok(true));
    assert_eq!(s.pacer.presentation.next_present_deadline(), now + 8_333_000);
    assert_eq!(s.slots.load(3), Some(&state));
}
