//! Save slots and the host keys that address them.
//!
//! Ten slots each hold at most one snapshot of the engine: a run of bytes that only
//! the engine can read. A save replaces the whole content of its slot; a load hands
//! out what the slot holds and leaves it there. The digit keys address the slots, and
//! a shift key held down turns a save into a load.

use vstd::prelude::*;

verus! {

/// The number of save slots.
pub const SLOT_COUNT: usize = 10;

/// The key code of the left shift key.
pub const KEY_LEFT_SHIFT: u32 = 0x2a;

/// The key code of the right shift key.
pub const KEY_RIGHT_SHIFT: u32 = 0x36;

/// The key code of the digit `1`; the digits up to `9` and then `0` follow it.
pub const KEY_DIGIT_1: u32 = 2;

/// The key code of the digit `0`.
pub const KEY_DIGIT_0: u32 = 11;

/// Which shift keys are held down.
#[derive(Clone, Copy, Debug, PartialEq, Eq, Structural)]
pub struct Modifiers {
    pub left_shift: bool,
    pub right_shift: bool,
}

/// What a key asks of the snapshot manager.
#[derive(Clone, Copy, Debug, PartialEq, Eq, Structural)]
pub enum HostAction {
    Nothing,
    /// Take a snapshot of the engine and put it into this slot.
    Save(usize),
    /// Restore the engine from this slot, if it holds a snapshot.
    Load(usize),
}

/// The slot that a digit key addresses: the digit itself.
pub open spec fn spec_slot_of_key(scancode: u32) -> Option<usize> {
    if scancode == KEY_DIGIT_0 {
        Some(0usize)
    } else if KEY_DIGIT_1 <= scancode < KEY_DIGIT_0 {
        Some((scancode - 1) as usize)
    } else {
        None
    }
}

/// What a key that no port consumed does: a shift key is tracked while it is held, a
/// digit key going down saves to its slot, or loads from it while a shift key is
/// held, and nothing else has any effect.
pub open spec fn spec_host_key(modifiers: Modifiers, scancode: u32, pressed: bool) -> (
    Modifiers,
    HostAction,
) {
    if scancode == KEY_LEFT_SHIFT {
        (Modifiers { left_shift: pressed, ..modifiers }, HostAction::Nothing)
    } else if scancode == KEY_RIGHT_SHIFT {
        (Modifiers { right_shift: pressed, ..modifiers }, HostAction::Nothing)
    } else {
        match spec_slot_of_key(scancode) {
            Some(slot) if pressed => if modifiers.left_shift || modifiers.right_shift {
                (modifiers, HostAction::Load(slot))
            } else {
                (modifiers, HostAction::Save(slot))
            },
            _ => (modifiers, HostAction::Nothing),
        }
    }
}

/// The slots after a save of `blob` to `slot`.
pub open spec fn spec_save(slots: Seq<Option<Seq<u8>>>, slot: int, blob: Seq<u8>) -> Seq<
    Option<Seq<u8>>,
> {
    slots.update(slot, Some(blob))
}

/// What a load from `slot` hands out.
pub open spec fn spec_load(slots: Seq<Option<Seq<u8>>>, slot: int) -> Option<Seq<u8>> {
    slots[slot]
}

/// The slot that a digit key addresses.
pub fn slot_of_key(scancode: u32) -> (slot: Option<usize>)
    ensures
        slot == spec_slot_of_key(scancode),
        slot matches Some(s) ==> s < SLOT_COUNT,
{
    if scancode == KEY_DIGIT_0 {
        Some(0)
    } else if KEY_DIGIT_1 <= scancode && scancode < KEY_DIGIT_0 {
        Some((scancode - 1) as usize)
    } else {
        None
    }
}

impl Modifiers {
    /// No shift key held.
    pub fn new() -> (modifiers: Modifiers)
        ensures
            modifiers == (Modifiers { left_shift: false, right_shift: false }),
    {
        Modifiers { left_shift: false, right_shift: false }
    }

    /// Takes a key that no port consumed and says what it asks for.
    pub fn host_key(&mut self, scancode: u32, pressed: bool) -> (action: HostAction)
        ensures
            (*final(self), action) == spec_host_key(*old(self), scancode, pressed),
            action matches HostAction::Save(slot) ==> slot < SLOT_COUNT,
            action matches HostAction::Load(slot) ==> slot < SLOT_COUNT,
    {
        if scancode == KEY_LEFT_SHIFT {
            self.left_shift = pressed;
            HostAction::Nothing
        } else if scancode == KEY_RIGHT_SHIFT {
            self.right_shift = pressed;
            HostAction::Nothing
        } else {
            match slot_of_key(scancode) {
                Some(slot) => {
                    if !pressed {
                        HostAction::Nothing
                    } else if self.left_shift || self.right_shift {
                        HostAction::Load(slot)
                    } else {
                        HostAction::Save(slot)
                    }
                },
                None => HostAction::Nothing,
            }
        }
    }
}

/// The ten save slots of a session.
#[derive(Debug, PartialEq, Eq)]
pub struct SaveSlots {
    slots: Vec<Option<Vec<u8>>>,
}

impl SaveSlots {
    #[verifier::type_invariant]
    spec fn ten_slots(&self) -> bool {
        self.slots@.len() == SLOT_COUNT
    }

    /// What each slot holds.
    pub closed spec fn view(&self) -> Seq<Option<Seq<u8>>> {
        Seq::new(
            SLOT_COUNT as nat,
            |i: int|
                match self.slots@[i] {
                    Some(blob) => Some(blob@),
                    None => None,
                },
        )
    }

    /// Ten empty slots.
    pub fn new() -> (slots: SaveSlots)
        ensures
            slots@.len() == SLOT_COUNT,
            slots@ == Seq::new(SLOT_COUNT as nat, |i: int| None::<Seq<u8>>),
    {
        let mut slots: Vec<Option<Vec<u8>>> = Vec::new();
        let mut i: usize = 0;
        while i < SLOT_COUNT
            invariant
                i <= SLOT_COUNT,
                slots@.len() == i,
                forall|k: int| 0 <= k < i ==> slots@[k] is None,
            decreases SLOT_COUNT - i,
        {
            slots.push(None);
            i += 1;
        }
        let made = SaveSlots { slots };
        assert(made@ =~= Seq::new(SLOT_COUNT as nat, |i: int| None::<Seq<u8>>));
        made
    }

    /// Puts `blob` into `slot` in place of whatever the slot held.
    pub fn save(&mut self, slot: usize, blob: Vec<u8>)
        requires
            slot < SLOT_COUNT,
        ensures
            old(self)@.len() == SLOT_COUNT,
            final(self)@.len() == SLOT_COUNT,
            final(self)@ == spec_save(old(self)@, slot as int, blob@),
    {
        proof {
            use_type_invariant(&*self);
        }
        self.slots[slot] = Some(blob);
        assert(self@ =~= spec_save(old(self)@, slot as int, blob@));
    }

    /// The snapshot in `slot`, or `None` where the slot is empty.
    pub fn load(&self, slot: usize) -> (blob: Option<&Vec<u8>>)
        requires
            slot < SLOT_COUNT,
        ensures
            self@.len() == SLOT_COUNT,
            match blob {
                Some(bytes) => spec_load(self@, slot as int) == Some(bytes@),
                None => spec_load(self@, slot as int) is None,
            },
    {
        proof {
            use_type_invariant(self);
        }
        match &self.slots[slot] {
            Some(bytes) => Some(bytes),
            None => None,
        }
    }
}

impl SaveSlots {
    /// There are always ten slots.
    pub proof fn lemma_ten_slots(&self)
        ensures
            self@.len() == SLOT_COUNT,
    {
    }
}

/// A load right after a save to the same slot hands out the bytes that were saved,
/// whatever the slot held before.
pub proof fn lemma_save_then_load(slots: Seq<Option<Seq<u8>>>, slot: int, blob: Seq<u8>)
    requires
        0 <= slot < slots.len(),
    ensures
        spec_load(spec_save(slots, slot, blob), slot) == Some(blob),
{
}

/// A save touches no slot but its own.
pub proof fn lemma_save_keeps_other_slots(
    slots: Seq<Option<Seq<u8>>>,
    slot: int,
    blob: Seq<u8>,
    other: int,
)
    requires
        0 <= slot < slots.len(),
        0 <= other < slots.len(),
        other != slot,
    ensures
        spec_load(spec_save(slots, slot, blob), other) == spec_load(slots, other),
        spec_save(slots, slot, blob).len() == slots.len(),
{
}

} // verus!
