//! The slot through which the start-up code hands the peripherals to the
//! interrupt handler.  It starts empty, is filled once, and is never emptied
//! or refilled: the only operation that writes it refuses a second value.
//!
//! The slot itself does no locking.  Its owner keeps it behind a lock that
//! masks interrupts and touches it only inside that critical section, so
//! that no reference into it outlives the section.

use vstd::prelude::*;

verus! {

/// A write-once cell.
pub struct SharedSlot<T> {
    pub value: Option<T>,
}

impl<T> SharedSlot<T> {
    /// The slot holds a value.
    pub open spec fn is_populated(self) -> bool {
        self.value is Some
    }

    /// The slot after an attempt to hand `value` over: an empty slot takes
    /// it, a populated slot stays as it is.
    pub open spec fn after_hand_off(self, value: T) -> SharedSlot<T> {
        if self.value is None {
            SharedSlot { value: Some(value) }
        } else {
            self
        }
    }

    /// The slot after a sequence of attempts, in order.
    pub open spec fn after_hand_offs(self, values: Seq<T>) -> SharedSlot<T>
        decreases values.len(),
    {
        if values.len() == 0 {
            self
        } else {
            self.after_hand_offs(values.drop_last()).after_hand_off(values.last())
        }
    }

    /// An empty slot.
    pub fn new() -> (slot: SharedSlot<T>)
        ensures
            slot.value is None,
    {
        SharedSlot { value: None }
    }

    /// Moves `value` into the slot if the slot is empty.  A populated slot
    /// is left untouched and the value comes back as the error.
    pub fn hand_off(&mut self, value: T) -> (outcome: Result<(), T>)
        ensures
            *final(self) == old(self).after_hand_off(value),
            old(self).value is None ==> outcome is Ok,
            old(self).value is Some ==> outcome == Err::<(), T>(value),
    {
        if self.value.is_none() {
            self.value = Some(value);
            Ok(())
        } else {
            Err(value)
        }
    }

    /// The value in the slot, if it has been handed over.
    pub fn get(&self) -> (held: Option<&T>)
        ensures
            held is Some == self.value is Some,
            held is Some ==> *held->0 == self.value->0,
    {
        self.value.as_ref()
    }

    /// Whether the slot holds a value.
    pub fn populated(&self) -> (r: bool)
        ensures
            r == self.is_populated(),
    {
        self.value.is_some()
    }
}

/// A populated slot is final: no sequence of hand-off attempts empties it
/// or replaces what it holds.
pub proof fn lemma_populated_slot_is_final<T>(slot: SharedSlot<T>, values: Seq<T>)
    requires
        slot.is_populated(),
    ensures
        slot.after_hand_offs(values) == slot,
    decreases values.len(),
{
    if values.len() > 0 {
        lemma_populated_slot_is_final(slot, values.drop_last());
    }
}

/// An empty slot goes from empty to populated exactly once: it holds the
/// first value handed over, whatever is attempted afterwards.
pub proof fn lemma_first_hand_off_wins<T>(slot: SharedSlot<T>, values: Seq<T>)
    requires
        !slot.is_populated(),
        values.len() > 0,
    ensures
        slot.after_hand_offs(values).value == Some(values[0]),
    decreases values.len(),
{
    let earlier = values.drop_last();
    if values.len() > 1 {
        lemma_first_hand_off_wins(slot, earlier);
        assert(earlier[0] == values[0]);
    } else {
        assert(slot.after_hand_offs(earlier) == slot);
    }
}

} // verus!
