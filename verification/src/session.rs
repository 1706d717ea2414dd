//! The state of one session and its reaction to the events of the host window.
//!
//! The host's event loop owns a `Session` and hands it every event in turn. The
//! session changes its own state and answers with the one thing the host has to do
//! for that event. Input is applied the moment it arrives, so a key that goes down
//! before a burst is seen by that burst.

use vstd::prelude::*;
use crate::clock::Pacer;
use crate::input::{
    spec_dispatch,
    spec_is_mouse,
    dispatch,
    has_mouse,
    Claim,
    ControllerPort,
    InputProfile,
    RawEvent,
};
use crate::snapshot::{spec_host_key, spec_load, HostAction, Modifiers, SaveSlots, SLOT_COUNT};
use crate::surface::{spec_resized, FrameSurface, Presenter};

verus! {

/// An event of the host window.
#[derive(Clone, Copy, Debug, PartialEq, Eq, Structural)]
pub enum HostEvent {
    CloseRequested,
    Resized { width: u32, height: u32 },
    Focused(bool),
    Input(RawEvent),
}

/// What the host has to do after an event.
#[derive(Clone, Copy, Debug, PartialEq, Eq, Structural)]
pub enum Command {
    Nothing,
    /// Leave the event loop; the engine's state is dropped as it is.
    Exit,
    /// Configure the presentation surface for this size.
    Reconfigure { width: u32, height: u32 },
    /// Capture the pointer and hide it.
    GrabCursor,
    /// Serialize the engine and `save` the bytes to this slot.
    SaveState(usize),
    /// Restore the engine from the snapshot that this slot holds.
    LoadState(usize),
}

/// Everything that a session's event handlers share.
pub struct Session {
    pub focused: bool,
    pub profile1: Option<InputProfile>,
    pub profile2: Option<InputProfile>,
    pub port1: ControllerPort,
    pub port2: ControllerPort,
    pub modifiers: Modifiers,
    pub slots: SaveSlots,
    pub surface: FrameSurface,
    pub presenter: Presenter,
    pub pacer: Pacer,
}

/// The port that a profile asks for: the profile's device, or nothing.
pub open spec fn spec_port_for(profile: Option<InputProfile>) -> ControllerPort {
    match profile {
        Some(InputProfile::Pad(_)) => ControllerPort::StandardPad(
            crate::input::PadState { buttons: 0 },
        ),
        Some(InputProfile::Pointer(_)) => ControllerPort::PointingDevice(
            crate::input::PointerState { left: false, right: false, dx: 0, dy: 0 },
        ),
        None => ControllerPort::Absent,
    }
}

/// The state after an input event that arrived while the window had the focus, and
/// what the host has to do. An event that a port consumes goes no further. A key
/// that no port consumes is a host key: it may ask for a save, or for a load, which
/// is dropped where the slot is empty. Mouse events that no port consumes are lost.
pub open spec fn spec_input(before: Session, event: RawEvent) -> (Session, Command) {
    let dispatched = spec_dispatch(
        event,
        before.profile1,
        before.profile2,
        before.port1,
        before.port2,
    );
    let routed = Session { port1: dispatched.0, port2: dispatched.1, ..before };
    match (dispatched.2, event) {
        (Claim::Unclaimed, RawEvent::Key { scancode, pressed }) => {
            let host = spec_host_key(before.modifiers, scancode, pressed);
            let after = Session { modifiers: host.0, ..routed };
            match host.1 {
                HostAction::Save(slot) => (after, Command::SaveState(slot)),
                HostAction::Load(slot) => if spec_load(before.slots@, slot as int) is Some {
                    (after, Command::LoadState(slot))
                } else {
                    (after, Command::Nothing)
                },
                HostAction::Nothing => (after, Command::Nothing),
            }
        },
        _ => (routed, Command::Nothing),
    }
}

/// The state after an event, and what the host has to do for it.
pub open spec fn spec_handle_event(before: Session, event: HostEvent) -> (Session, Command) {
    match event {
        HostEvent::CloseRequested => (before, Command::Exit),
        HostEvent::Resized { width, height } => (
            Session { presenter: spec_resized(before.presenter, width, height), ..before },
            Command::Reconfigure { width, height },
        ),
        HostEvent::Focused(focus) => (
            Session { focused: focus, ..before },
            if focus && (spec_is_mouse(before.profile1) || spec_is_mouse(before.profile2)) {
                Command::GrabCursor
            } else {
                Command::Nothing
            },
        ),
        HostEvent::Input(raw) => if before.focused {
            spec_input(before, raw)
        } else {
            (before, Command::Nothing)
        },
    }
}

impl Session {
    /// A session that has the focus, with the device of each profile plugged into
    /// its port, no shift key held and every slot empty.
    pub fn new(
        profile1: Option<InputProfile>,
        profile2: Option<InputProfile>,
        surface: FrameSurface,
        presenter: Presenter,
        pacer: Pacer,
    ) -> (session: Session)
        ensures
            session.focused,
            session.profile1 == profile1,
            session.profile2 == profile2,
            session.port1 == spec_port_for(profile1),
            session.port2 == spec_port_for(profile2),
            session.modifiers == (Modifiers { left_shift: false, right_shift: false }),
            session.slots@ == Seq::new(SLOT_COUNT as nat, |i: int| None::<Seq<u8>>),
            session.surface == surface,
            session.presenter == presenter,
            session.pacer == pacer,
    {
        let port1 = match &profile1 {
            Some(profile) => profile.port(),
            None => ControllerPort::Absent,
        };
        let port2 = match &profile2 {
            Some(profile) => profile.port(),
            None => ControllerPort::Absent,
        };
        Session {
            focused: true,
            profile1,
            profile2,
            port1,
            port2,
            modifiers: Modifiers::new(),
            slots: SaveSlots::new(),
            surface,
            presenter,
            pacer,
        }
    }

    /// Whether the window has to capture the pointer when the session starts.
    pub fn wants_cursor(&self) -> (yes: bool)
        ensures
            yes == (spec_is_mouse(self.profile1) || spec_is_mouse(self.profile2)),
    {
        has_mouse(&self.profile1, &self.profile2)
    }

    /// Takes one event of the host window and says what the host has to do for it.
    pub fn handle_event(&mut self, event: HostEvent) -> (command: Command)
        ensures
            (*final(self), command) == spec_handle_event(*old(self), event),
            command matches Command::SaveState(slot) ==> slot < SLOT_COUNT,
            command matches Command::LoadState(slot) ==> slot < SLOT_COUNT,
    {
        match event {
            HostEvent::CloseRequested => Command::Exit,
            HostEvent::Resized { width, height } => {
                self.presenter.resize(width, height);
                Command::Reconfigure { width, height }
            },
            HostEvent::Focused(focus) => {
                self.focused = focus;
                if focus && has_mouse(&self.profile1, &self.profile2) {
                    Command::GrabCursor
                } else {
                    Command::Nothing
                }
            },
            HostEvent::Input(raw) => {
                if !self.focused {
                    return Command::Nothing;
                }
                let claim = dispatch(
                    raw,
                    &self.profile1,
                    &self.profile2,
                    &mut self.port1,
                    &mut self.port2,
                );
                match (claim, raw) {
                    (Claim::Unclaimed, RawEvent::Key { scancode, pressed }) => {
                        match self.modifiers.host_key(scancode, pressed) {
                            HostAction::Save(slot) => Command::SaveState(slot),
                            HostAction::Load(slot) => {
                                if self.slots.load(slot).is_some() {
                                    Command::LoadState(slot)
                                } else {
                                    Command::Nothing
                                }
                            },
                            HostAction::Nothing => Command::Nothing,
                        }
                    },
                    _ => Command::Nothing,
                }
            },
        }
    }
}

/// Whatever the event, the save slots, the frame surface and the clocks stay as they
/// were: only a save changes a slot, only the engine and a redraw touch the surface,
/// and only a tick moves a clock.
pub proof fn lemma_events_keep_slots_surface_and_clocks(before: Session, event: HostEvent)
    ensures
        spec_handle_event(before, event).0.slots == before.slots,
        spec_handle_event(before, event).0.surface == before.surface,
        spec_handle_event(before, event).0.pacer == before.pacer,
        spec_handle_event(before, event).0.profile1 == before.profile1,
        spec_handle_event(before, event).0.profile2 == before.profile2,
{
}

/// While the window is out of focus no input reaches a port or a host key.
pub proof fn lemma_unfocused_input_is_ignored(before: Session, raw: RawEvent)
    requires
        !before.focused,
    ensures
        spec_handle_event(before, HostEvent::Input(raw)) == (before, Command::Nothing),
{
}

/// An input event that the first port consumes leaves the second port, the shift
/// keys and the slots alone and asks nothing of the host.
pub proof fn lemma_consumed_input_goes_no_further(before: Session, raw: RawEvent)
    requires
        before.focused,
        spec_dispatch(raw, before.profile1, before.profile2, before.port1, before.port2).2
            == Claim::Port1,
    ensures
        spec_handle_event(before, HostEvent::Input(raw)).0.port2 == before.port2,
        spec_handle_event(before, HostEvent::Input(raw)).0.modifiers == before.modifiers,
        spec_handle_event(before, HostEvent::Input(raw)).1 == Command::Nothing,
{
}

} // verus!
