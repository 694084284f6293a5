//! The start-up sequence as a state machine.  A stage names what the runner
//! has to find out or do next; the runner reports the result as an event and
//! gets back the operations to carry out and the stage that follows.
//!
//! The sequence is: acquire the peripherals, bring up both pins, blink twice
//! if the button pin left its alternate function, unmask the interrupt line,
//! blink three times if the line reads enabled, hand the peripherals over to
//! the interrupt handler, idle.

use vstd::prelude::*;
use crate::ops::Op;
use crate::programs::{
    blinks, button_bring_up, config_interrupt_user_btn, config_led_pin, led_bring_up, toggle_led,
};

verus! {

/// Blinks that signal that the button pin is a plain GPIO pin.
pub const PIN_RELEASED_BLINKS: u32 = 2;

/// Blinks that signal that the interrupt line is enabled.
pub const IRQ_ENABLED_BLINKS: u32 = 3;

/// Where the start-up sequence stands, named by what the runner does next.
#[derive(Clone, Copy, Debug, PartialEq, Eq, Structural)]
pub enum Stage {
    /// Acquire the peripherals and report [`Event::Acquired`].
    Acquire,
    /// Read the button's alternate-function bit and report
    /// [`Event::AltFunc`].
    ReadAltFunc,
    /// Ask the interrupt controller whether the GPIOA line is enabled and
    /// report [`Event::IrqEnabled`].
    ReadIrqEnabled,
    /// Move the peripherals into the shared slot, inside a critical section,
    /// and report [`Event::HandedOff`].
    HandOff,
    /// The peripherals belong to the interrupt handler: idle forever.
    Idle,
    /// The peripherals could not be acquired or could not be handed over:
    /// stop for good.
    Halted,
}

/// What the runner reports back.
#[derive(Clone, Copy, Debug, PartialEq, Eq, Structural)]
pub enum Event {
    /// Whether the peripherals were still available.
    Acquired(bool),
    /// Whether the button's alternate-function bit reads set.
    AltFunc(bool),
    /// Whether the GPIOA line reads enabled.
    IrqEnabled(bool),
    /// Whether the shared slot took the peripherals.
    HandedOff(bool),
}

/// The outcome of one step: operations to carry out, in order, and the
/// stage that follows.
pub struct Step {
    pub ops: Vec<Op>,
    pub next: Stage,
}

/// The event answers what the stage asks.
pub open spec fn awaited(stage: Stage, event: Event) -> bool {
    match (stage, event) {
        (Stage::Acquire, Event::Acquired(_)) => true,
        (Stage::ReadAltFunc, Event::AltFunc(_)) => true,
        (Stage::ReadIrqEnabled, Event::IrqEnabled(_)) => true,
        (Stage::HandOff, Event::HandedOff(_)) => true,
        _ => false,
    }
}

/// The stage that follows.  An event that the stage does not ask for is
/// ignored.
pub open spec fn next_stage(stage: Stage, event: Event) -> Stage {
    match (stage, event) {
        (Stage::Acquire, Event::Acquired(available)) => if available {
            Stage::ReadAltFunc
        } else {
            Stage::Halted
        },
        (Stage::ReadAltFunc, Event::AltFunc(_)) => Stage::ReadIrqEnabled,
        (Stage::ReadIrqEnabled, Event::IrqEnabled(_)) => Stage::HandOff,
        (Stage::HandOff, Event::HandedOff(taken)) => if taken {
            Stage::Idle
        } else {
            Stage::Halted
        },
        _ => stage,
    }
}

/// The operations of the step.
pub open spec fn step_ops(stage: Stage, event: Event) -> Seq<Op> {
    match (stage, event) {
        (Stage::Acquire, Event::Acquired(available)) => if available {
            led_bring_up() + button_bring_up()
        } else {
            Seq::empty()
        },
        (Stage::ReadAltFunc, Event::AltFunc(set)) => if set {
            seq![Op::UnmaskIrq]
        } else {
            blinks(PIN_RELEASED_BLINKS as nat) + seq![Op::UnmaskIrq]
        },
        (Stage::ReadIrqEnabled, Event::IrqEnabled(enabled)) => if enabled {
            blinks(IRQ_ENABLED_BLINKS as nat)
        } else {
            Seq::empty()
        },
        _ => Seq::empty(),
    }
}

/// The stage reached from `stage` by a sequence of events, in order.
pub open spec fn stage_after(stage: Stage, events: Seq<Event>) -> Stage
    decreases events.len(),
{
    if events.len() == 0 {
        stage
    } else {
        next_stage(stage_after(stage, events.drop_last()), events.last())
    }
}

/// How often a run from `stage` over `events` acquires the peripherals:
/// the number of `Acquired(true)` events that arrive while the sequence
/// asks for the acquisition.
pub open spec fn acquisitions(stage: Stage, events: Seq<Event>) -> nat
    decreases events.len(),
{
    if events.len() == 0 {
        0
    } else {
        let earlier = events.drop_last();
        let granted: nat = if stage_after(stage, earlier) == Stage::Acquire && events.last()
            == Event::Acquired(true) {
            1
        } else {
            0
        };
        acquisitions(stage, earlier) + granted
    }
}

/// The operations of `n` blinks.
pub fn blink_times(n: u32) -> (ops: Vec<Op>)
    ensures
        ops@ == blinks(n as nat),
{
    let mut ops: Vec<Op> = Vec::new();
    let mut done: u32 = 0;
    while done < n
        invariant
            done <= n,
            ops@ == blinks(done as nat),
        decreases n - done,
    {
        let mut one = toggle_led();
        ops.append(&mut one);
        done += 1;
    }
    ops
}

/// One step of the start-up sequence.  An event that the stage does not ask
/// for changes nothing and asks for no operation.
pub fn advance(stage: Stage, event: Event) -> (step: Step)
    ensures
        step.ops@ == step_ops(stage, event),
        step.next == next_stage(stage, event),
        !awaited(stage, event) ==> step.next == stage && step.ops@ == Seq::<Op>::empty(),
{
    match (stage, event) {
        (Stage::Acquire, Event::Acquired(available)) => {
            if available {
                let mut ops = config_led_pin();
                let mut button = config_interrupt_user_btn();
                ops.append(&mut button);
                Step { ops, next: Stage::ReadAltFunc }
            } else {
                Step { ops: Vec::new(), next: Stage::Halted }
            }
        },
        (Stage::ReadAltFunc, Event::AltFunc(set)) => {
            let mut ops = if set {
                Vec::new()
            } else {
                blink_times(PIN_RELEASED_BLINKS)
            };
            ops.push(Op::UnmaskIrq);
            Step { ops, next: Stage::ReadIrqEnabled }
        },
        (Stage::ReadIrqEnabled, Event::IrqEnabled(enabled)) => {
            let ops = if enabled {
                blink_times(IRQ_ENABLED_BLINKS)
            } else {
                Vec::new()
            };
            Step { ops, next: Stage::HandOff }
        },
        (Stage::HandOff, Event::HandedOff(taken)) => {
            if taken {
                Step { ops: Vec::new(), next: Stage::Idle }
            } else {
                Step { ops: Vec::new(), next: Stage::Halted }
            }
        },
        _ => Step { ops: Vec::new(), next: stage },
    }
}

/// Once the sequence has left the acquisition behind, it never asks for it
/// again.
pub proof fn lemma_acquire_is_not_reentered(stage: Stage, events: Seq<Event>)
    requires
        stage != Stage::Acquire,
    ensures
        stage_after(stage, events) != Stage::Acquire,
        acquisitions(stage, events) == 0,
    decreases events.len(),
{
    if events.len() > 0 {
        lemma_acquire_is_not_reentered(stage, events.drop_last());
    }
}

/// Whatever the runner reports, a run acquires the peripherals at most
/// once: not at all while it still asks for them, and exactly once when it
/// has got past the acquisition without stopping.
pub proof fn lemma_acquires_once(events: Seq<Event>)
    ensures
        acquisitions(Stage::Acquire, events) <= 1,
        stage_after(Stage::Acquire, events) == Stage::Acquire ==> acquisitions(
            Stage::Acquire,
            events,
        ) == 0,
        stage_after(Stage::Acquire, events) != Stage::Acquire && stage_after(
            Stage::Acquire,
            events,
        ) != Stage::Halted ==> acquisitions(Stage::Acquire, events) == 1,
    decreases events.len(),
{
    if events.len() > 0 {
        lemma_acquires_once(events.drop_last());
    }
}

/// An acquisition or a hand-over that fails stops the sequence: nothing is
/// written, and no later event moves it or makes it write.
pub proof fn lemma_halted_is_final(event: Event, events: Seq<Event>)
    ensures
        next_stage(Stage::Acquire, Event::Acquired(false)) == Stage::Halted,
        step_ops(Stage::Acquire, Event::Acquired(false)).len() == 0,
        next_stage(Stage::HandOff, Event::HandedOff(false)) == Stage::Halted,
        step_ops(Stage::HandOff, Event::HandedOff(false)).len() == 0,
        step_ops(Stage::Halted, event).len() == 0,
        stage_after(Stage::Halted, events) == Stage::Halted,
    decreases events.len(),
{
    if events.len() > 0 {
        lemma_halted_is_final(event, events.drop_last());
    }
}

/// After the hand-over the start-up code is done with the peripherals: the
/// sequence stays idle and asks for no operation again.
pub proof fn lemma_idle_is_final(event: Event, events: Seq<Event>)
    ensures
        step_ops(Stage::Idle, event).len() == 0,
        stage_after(Stage::Idle, events) == Stage::Idle,
    decreases events.len(),
{
    if events.len() > 0 {
        lemma_idle_is_final(event, events.drop_last());
    }
}

} // verus!
