//! Controller ports and the remapping of raw input events onto them.
//!
//! Each of the two ports holds what is plugged into it: nothing, a standard pad or a
//! pointing device. A profile says which raw key codes and mouse buttons stand for
//! which controls of that device. An event is offered to the first port and, only
//! where its profile does not consume it, to the second: no event ever reaches both.

use vstd::prelude::*;

verus! {

/// A button of the host's mouse.
#[derive(Clone, Copy, Debug, PartialEq, Eq, Structural)]
pub enum MouseButton {
    Left,
    Right,
    Middle,
    Other(u16),
}

/// A raw event of the host's keyboard or mouse.
#[derive(Clone, Copy, Debug, PartialEq, Eq, Structural)]
pub enum RawEvent {
    Key { scancode: u32, pressed: bool },
    MouseButton { button: MouseButton, pressed: bool },
    /// The mouse moved by this much since the last such event.
    MouseMotion { dx: i32, dy: i32 },
}

/// A button of the standard pad.
#[derive(Clone, Copy, Debug, PartialEq, Eq, Structural)]
pub enum PadButton {
    B,
    Y,
    Select,
    Start,
    Up,
    Down,
    Left,
    Right,
    A,
    X,
    L,
    R,
}

/// The buttons of a standard pad that are held down, one bit each, in the order in
/// which the pad reports them from the top bit down.
#[derive(Clone, Copy, Debug, PartialEq, Eq, Structural)]
pub struct PadState {
    pub buttons: u16,
}

/// The buttons of a pointing device and the motion that the engine has yet to read.
#[derive(Clone, Copy, Debug, PartialEq, Eq, Structural)]
pub struct PointerState {
    pub left: bool,
    pub right: bool,
    pub dx: i32,
    pub dy: i32,
}

/// What is plugged into a port.
#[derive(Clone, Copy, Debug, PartialEq, Eq, Structural)]
pub enum ControllerPort {
    Absent,
    StandardPad(PadState),
    PointingDevice(PointerState),
}

/// The key code bound to each button of a standard pad.
#[derive(Clone, Copy, Debug, PartialEq, Eq, Structural)]
pub struct PadKeys {
    pub a: u32,
    pub b: u32,
    pub x: u32,
    pub y: u32,
    pub up: u32,
    pub left: u32,
    pub down: u32,
    pub right: u32,
    pub l: u32,
    pub r: u32,
    pub start: u32,
    pub select: u32,
}

/// The mouse button bound to each button of a pointing device.
#[derive(Clone, Copy, Debug, PartialEq, Eq, Structural)]
pub struct PointerButtons {
    pub left: MouseButton,
    pub right: MouseButton,
}

/// The bindings of one port.
#[derive(Clone, Copy, Debug, PartialEq, Eq, Structural)]
pub enum InputProfile {
    Pad(PadKeys),
    Pointer(PointerButtons),
}

/// The port that consumed an event, if any did.
#[derive(Clone, Copy, Debug, PartialEq, Eq, Structural)]
pub enum Claim {
    Port1,
    Port2,
    Unclaimed,
}

/// The bit of a button in the state of a standard pad.
pub open spec fn spec_button_mask(button: PadButton) -> u16 {
    match button {
        PadButton::B => 0x8000,
        PadButton::Y => 0x4000,
        PadButton::Select => 0x2000,
        PadButton::Start => 0x1000,
        PadButton::Up => 0x0800,
        PadButton::Down => 0x0400,
        PadButton::Left => 0x0200,
        PadButton::Right => 0x0100,
        PadButton::A => 0x0080,
        PadButton::X => 0x0040,
        PadButton::L => 0x0020,
        PadButton::R => 0x0010,
    }
}

/// The button that a key code stands for. Where several buttons are bound to one key
/// code the first in the order below is meant.
pub open spec fn spec_key_button(keys: PadKeys, scancode: u32) -> Option<PadButton> {
    if scancode == keys.a {
        Some(PadButton::A)
    } else if scancode == keys.b {
        Some(PadButton::B)
    } else if scancode == keys.x {
        Some(PadButton::X)
    } else if scancode == keys.y {
        Some(PadButton::Y)
    } else if scancode == keys.up {
        Some(PadButton::Up)
    } else if scancode == keys.left {
        Some(PadButton::Left)
    } else if scancode == keys.down {
        Some(PadButton::Down)
    } else if scancode == keys.right {
        Some(PadButton::Right)
    } else if scancode == keys.l {
        Some(PadButton::L)
    } else if scancode == keys.r {
        Some(PadButton::R)
    } else if scancode == keys.start {
        Some(PadButton::Start)
    } else if scancode == keys.select {
        Some(PadButton::Select)
    } else {
        None
    }
}

/// The buttons of a pad after one of them went down or up.
pub open spec fn spec_with_button(buttons: u16, mask: u16, pressed: bool) -> u16 {
    if pressed {
        buttons | mask
    } else {
        buttons & !mask
    }
}

/// The sum of a pending motion and a new one, kept within the range of an `i32`.
pub open spec fn spec_accumulate(pending: i32, delta: i32) -> i32 {
    if pending + delta > i32::MAX {
        i32::MAX
    } else if pending + delta < i32::MIN {
        i32::MIN
    } else {
        (pending + delta) as i32
    }
}

/// What an event does to a port under the port's profile, and whether the profile
/// consumes it. A profile consumes an event only where it is made for the device in
/// the port and binds the event's key or button; motion is consumed by every
/// pointing device. An event that is not consumed leaves the port as it was.
pub open spec fn spec_handle_event(
    event: RawEvent,
    profile: InputProfile,
    port: ControllerPort,
) -> (ControllerPort, bool) {
    match (event, profile, port) {
        (
            RawEvent::Key { scancode, pressed },
            InputProfile::Pad(keys),
            ControllerPort::StandardPad(pad),
        ) => match spec_key_button(keys, scancode) {
            Some(button) => (
                ControllerPort::StandardPad(
                    PadState {
                        buttons: spec_with_button(pad.buttons, spec_button_mask(button), pressed),
                    },
                ),
                true,
            ),
            None => (port, false),
        },
        (
            RawEvent::MouseButton { button, pressed },
            InputProfile::Pointer(bound),
            ControllerPort::PointingDevice(pointer),
        ) => if button == bound.left {
            (ControllerPort::PointingDevice(PointerState { left: pressed, ..pointer }), true)
        } else if button == bound.right {
            (ControllerPort::PointingDevice(PointerState { right: pressed, ..pointer }), true)
        } else {
            (port, false)
        },
        (
            RawEvent::MouseMotion { dx, dy },
            InputProfile::Pointer(bound),
            ControllerPort::PointingDevice(pointer),
        ) => (
            ControllerPort::PointingDevice(
                PointerState {
                    dx: spec_accumulate(pointer.dx, dx),
                    dy: spec_accumulate(pointer.dy, dy),
                    ..pointer
                },
            ),
            true,
        ),
        _ => (port, false),
    }
}

/// What an event does to a port that may have no profile.
pub open spec fn spec_offer(event: RawEvent, profile: Option<InputProfile>, port: ControllerPort) -> (
    ControllerPort,
    bool,
) {
    match profile {
        Some(p) => spec_handle_event(event, p, port),
        None => (port, false),
    }
}

/// What an event does to the two ports: the first port whose profile consumes it
/// changes, and the other does not.
pub open spec fn spec_dispatch(
    event: RawEvent,
    profile1: Option<InputProfile>,
    profile2: Option<InputProfile>,
    port1: ControllerPort,
    port2: ControllerPort,
) -> (ControllerPort, ControllerPort, Claim) {
    let first = spec_offer(event, profile1, port1);
    if first.1 {
        (first.0, port2, Claim::Port1)
    } else {
        let second = spec_offer(event, profile2, port2);
        if second.1 {
            (port1, second.0, Claim::Port2)
        } else {
            (port1, port2, Claim::Unclaimed)
        }
    }
}

/// Whether a profile is one for a pointing device.
pub open spec fn spec_is_mouse(profile: Option<InputProfile>) -> bool {
    profile matches Some(InputProfile::Pointer(_))
}

pub fn button_mask(button: PadButton) -> (mask: u16)
    ensures
        mask == spec_button_mask(button),
{
    match button {
        PadButton::B => 0x8000,
        PadButton::Y => 0x4000,
        PadButton::Select => 0x2000,
        PadButton::Start => 0x1000,
        PadButton::Up => 0x0800,
        PadButton::Down => 0x0400,
        PadButton::Left => 0x0200,
        PadButton::Right => 0x0100,
        PadButton::A => 0x0080,
        PadButton::X => 0x0040,
        PadButton::L => 0x0020,
        PadButton::R => 0x0010,
    }
}

/// The pending motion after `delta` more, kept within the range of an `i32`.
pub fn accumulate(pending: i32, delta: i32) -> (sum: i32)
    ensures
        sum == spec_accumulate(pending, delta),
{
    let wide: i64 = pending as i64 + delta as i64;
    if wide > i32::MAX as i64 {
        i32::MAX
    } else if wide < i32::MIN as i64 {
        i32::MIN
    } else {
        wide as i32
    }
}

impl PadKeys {
    /// The button that `scancode` stands for.
    pub fn button(&self, scancode: u32) -> (button: Option<PadButton>)
        ensures
            button == spec_key_button(*self, scancode),
    {
        if scancode == self.a {
            Some(PadButton::A)
        } else if scancode == self.b {
            Some(PadButton::B)
        } else if scancode == self.x {
            Some(PadButton::X)
        } else if scancode == self.y {
            Some(PadButton::Y)
        } else if scancode == self.up {
            Some(PadButton::Up)
        } else if scancode == self.left {
            Some(PadButton::Left)
        } else if scancode == self.down {
            Some(PadButton::Down)
        } else if scancode == self.right {
            Some(PadButton::Right)
        } else if scancode == self.l {
            Some(PadButton::L)
        } else if scancode == self.r {
            Some(PadButton::R)
        } else if scancode == self.start {
            Some(PadButton::Start)
        } else if scancode == self.select {
            Some(PadButton::Select)
        } else {
            None
        }
    }
}

impl PadState {
    /// Whether `button` is held down.
    pub fn is_pressed(&self, button: PadButton) -> (held: bool)
        ensures
            held == (self.buttons & spec_button_mask(button) != 0),
    {
        self.buttons & button_mask(button) != 0
    }
}

impl PointerState {
    /// Hands the pending motion to the engine and starts counting from nothing.
    pub fn take_motion(&mut self) -> (motion: (i32, i32))
        ensures
            motion == (old(self).dx, old(self).dy),
            *final(self) == (PointerState { dx: 0, dy: 0, ..*old(self) }),
    {
        let motion = (self.dx, self.dy);
        self.dx = 0;
        self.dy = 0;
        motion
    }
}

impl InputProfile {
    pub fn is_mouse(&self) -> (yes: bool)
        ensures
            yes == spec_is_mouse(Some(*self)),
    {
        match self {
            InputProfile::Pointer(_) => true,
            InputProfile::Pad(_) => false,
        }
    }

    /// The port that this profile asks for, with nothing held and nothing pending.
    pub fn port(&self) -> (port: ControllerPort)
        ensures
            port == match *self {
                InputProfile::Pad(_) => ControllerPort::StandardPad(PadState { buttons: 0 }),
                InputProfile::Pointer(_) => ControllerPort::PointingDevice(
                    PointerState { left: false, right: false, dx: 0, dy: 0 },
                ),
            },
    {
        match self {
            InputProfile::Pad(_) => ControllerPort::StandardPad(PadState { buttons: 0 }),
            InputProfile::Pointer(_) => ControllerPort::PointingDevice(
                PointerState { left: false, right: false, dx: 0, dy: 0 },
            ),
        }
    }
}

/// Applies an event to a port under the port's profile and says whether the profile
/// consumed it.
pub fn handle_event(event: RawEvent, profile: &InputProfile, controller: &mut ControllerPort) -> (consumed: bool)
    ensures
        (*final(controller), consumed) == spec_handle_event(event, *profile, *old(controller)),
{
    match (event, *profile, *controller) {
        (
            RawEvent::Key { scancode, pressed },
            InputProfile::Pad(keys),
            ControllerPort::StandardPad(pad),
        ) => match keys.button(scancode) {
            Some(button) => {
                let mask: u16 = button_mask(button);
                let buttons: u16 = if pressed {
                    pad.buttons | mask
                } else {
                    pad.buttons & !mask
                };
                *controller = ControllerPort::StandardPad(PadState { buttons });
                true
            },
            None => false,
        },
        (
            RawEvent::MouseButton { button, pressed },
            InputProfile::Pointer(bound),
            ControllerPort::PointingDevice(pointer),
        ) => {
            if button == bound.left {
                *controller = ControllerPort::PointingDevice(
                    PointerState { left: pressed, ..pointer },
                );
                true
            } else if button == bound.right {
                *controller = ControllerPort::PointingDevice(
                    PointerState { right: pressed, ..pointer },
                );
                true
            } else {
                false
            }
        },
        (
            RawEvent::MouseMotion { dx, dy },
            InputProfile::Pointer(_),
            ControllerPort::PointingDevice(pointer),
        ) => {
            *controller = ControllerPort::PointingDevice(
                PointerState {
                    dx: accumulate(pointer.dx, dx),
                    dy: accumulate(pointer.dy, dy),
                    ..pointer
                },
            );
            true
        },
        _ => false,
    }
}

/// Offers an event to the first port and, where that does not consume it, to the
/// second, and says which port consumed it.
pub fn dispatch(
    event: RawEvent,
    profile1: &Option<InputProfile>,
    profile2: &Option<InputProfile>,
    port1: &mut ControllerPort,
    port2: &mut ControllerPort,
) -> (claim: Claim)
    ensures
        (*final(port1), *final(port2), claim) == spec_dispatch(
            event,
            *profile1,
            *profile2,
            *old(port1),
            *old(port2),
        ),
{
    let first: bool = match profile1 {
        Some(profile) => handle_event(event, profile, port1),
        None => false,
    };
    if first {
        return Claim::Port1;
    }
    let second: bool = match profile2 {
        Some(profile) => handle_event(event, profile, port2),
        None => false,
    };
    if second {
        Claim::Port2
    } else {
        Claim::Unclaimed
    }
}

/// Whether either port is configured as a pointing device, so that the window has to
/// capture the pointer.
pub fn has_mouse(profile1: &Option<InputProfile>, profile2: &Option<InputProfile>) -> (yes: bool)
    ensures
        yes == (spec_is_mouse(*profile1) || spec_is_mouse(*profile2)),
{
    let first: bool = match profile1 {
        Some(profile) => profile.is_mouse(),
        None => false,
    };
    let second: bool = match profile2 {
        Some(profile) => profile.is_mouse(),
        None => false,
    };
    first || second
}

/// An event changes at most one port, and only the port that consumed it: an event
/// that the first port consumed never touches the second.
pub proof fn lemma_ports_are_exclusive(
    event: RawEvent,
    profile1: Option<InputProfile>,
    profile2: Option<InputProfile>,
    port1: ControllerPort,
    port2: ControllerPort,
)
    ensures
        ({
            let after = spec_dispatch(event, profile1, profile2, port1, port2);
            &&& after.2 == Claim::Port1 ==> after.1 == port2
            &&& after.2 == Claim::Port2 ==> after.0 == port1
            &&& after.2 == Claim::Unclaimed ==> after.0 == port1 && after.1 == port2
            &&& after.2 == Claim::Port1 <==> spec_offer(event, profile1, port1).1
        }),
{
}

/// A port changes only under a profile made for the device in it: an absent device
/// never consumes anything.
pub proof fn lemma_absent_port_consumes_nothing(event: RawEvent, profile: InputProfile)
    ensures
        spec_handle_event(event, profile, ControllerPort::Absent) == (ControllerPort::Absent, false),
{
}

} // verus!
