//! The board as the firmware sees it: the state of the LED pin, of the button
//! pin and of the interrupt line, and what each [`Op`] does to that state.
//!
//! The model holds what the firmware relies on and nothing more.  Three
//! pieces of hardware behaviour are part of it: a write to LOCKCLR takes
//! effect only while LOCKKEY holds the unlock key; the alternate function of
//! a pin can be cleared only once the pin is unlocked; and an edge on the
//! button is latched as a pending interrupt only by a pin that is powered,
//! routed to the GPIO, a digital input, edge-sensitive and enabled.

use vstd::prelude::*;
use crate::ops::{ButtonOp, DriveMode, InMode, LedOp, Op, OutMode, UNLOCK_KEY};

verus! {

/// Pin PB5, which drives the LED.
#[derive(Clone, Copy, Debug, PartialEq, Eq, Structural)]
pub struct LedPin {
    /// The clock of the pin's block is enabled.
    pub clocked: bool,
    /// The pin's block is out of reset.
    pub reset_released: bool,
    /// The output data bit: `true` is high.
    pub level_high: bool,
    pub out_mode: OutMode,
    pub output_enabled: bool,
    pub digital_enabled: bool,
    pub drive: DriveMode,
}

/// Pin PA6, which the button pulls.
#[derive(Clone, Copy, Debug, PartialEq, Eq, Structural)]
pub struct ButtonPin {
    /// The clock of the pin's block is enabled.
    pub clocked: bool,
    /// The pin's block is out of reset.
    pub reset_released: bool,
    /// The value last written to LOCKKEY.
    pub lock_key: u32,
    /// The pin's configuration is locked.
    pub locked: bool,
    /// The pin is routed to its alternate function rather than to the GPIO.
    pub alt_func: bool,
    pub in_mode: InMode,
    pub digital_enabled: bool,
    /// The interrupt is edge-sensitive rather than level-sensitive.
    pub edge_trigger: bool,
    pub polarity: bool,
    pub edge_detect: bool,
    /// The pin's interrupt is enabled.
    pub int_enabled: bool,
    /// The latched interrupt status of the pin.
    pub pending: bool,
}

/// Everything the firmware's operations touch.
#[derive(Clone, Copy, Debug, PartialEq, Eq, Structural)]
pub struct Board {
    pub led: LedPin,
    pub button: ButtonPin,
    /// The GPIOA line is unmasked at the interrupt controller.
    pub irq_unmasked: bool,
}

impl LedPin {
    /// The pin after one write.
    pub open spec fn after(self, op: LedOp) -> LedPin {
        match op {
            LedOp::EnableClock => LedPin { clocked: true, ..self },
            LedOp::ReleaseReset => LedPin { reset_released: true, ..self },
            LedOp::DriveHigh => LedPin { level_high: true, ..self },
            LedOp::DriveLow => LedPin { level_high: false, ..self },
            LedOp::Toggle => LedPin { level_high: !self.level_high, ..self },
            LedOp::SetOutMode(mode) => LedPin { out_mode: mode, ..self },
            LedOp::EnableOutput => LedPin { output_enabled: true, ..self },
            LedOp::EnableDigital => LedPin { digital_enabled: true, ..self },
            LedOp::SetDriveMode(mode) => LedPin { drive: mode, ..self },
        }
    }

    /// Carries out one write.
    pub fn apply(&mut self, op: LedOp)
        ensures
            *final(self) == old(self).after(op),
    {
        match op {
            LedOp::EnableClock => {
                self.clocked = true;
            },
            LedOp::ReleaseReset => {
                self.reset_released = true;
            },
            LedOp::DriveHigh => {
                self.level_high = true;
            },
            LedOp::DriveLow => {
                self.level_high = false;
            },
            LedOp::Toggle => {
                self.level_high = !self.level_high;
            },
            LedOp::SetOutMode(mode) => {
                self.out_mode = mode;
            },
            LedOp::EnableOutput => {
                self.output_enabled = true;
            },
            LedOp::EnableDigital => {
                self.digital_enabled = true;
            },
            LedOp::SetDriveMode(mode) => {
                self.drive = mode;
            },
        }
    }
}

impl ButtonPin {
    /// The pin after one write.
    pub open spec fn after(self, op: ButtonOp) -> ButtonPin {
        match op {
            ButtonOp::EnableClock => ButtonPin { clocked: true, ..self },
            ButtonOp::ReleaseReset => ButtonPin { reset_released: true, ..self },
            ButtonOp::WriteLockKey(key) => ButtonPin { lock_key: key, ..self },
            ButtonOp::ClearLock => if self.lock_key == UNLOCK_KEY {
                ButtonPin { locked: false, ..self }
            } else {
                self
            },
            ButtonOp::ClearAltFunc => if self.locked {
                self
            } else {
                ButtonPin { alt_func: false, ..self }
            },
            ButtonOp::SetInMode(mode) => ButtonPin { in_mode: mode, ..self },
            ButtonOp::EnableDigital => ButtonPin { digital_enabled: true, ..self },
            ButtonOp::SelectEdgeTrigger => ButtonPin { edge_trigger: true, ..self },
            ButtonOp::SetPolarity => ButtonPin { polarity: true, ..self },
            ButtonOp::EnableEdgeDetect => ButtonPin { edge_detect: true, ..self },
            ButtonOp::EnableInterrupt => ButtonPin { int_enabled: true, ..self },
            ButtonOp::Acknowledge => ButtonPin { pending: false, ..self },
        }
    }

    /// Trigger type, polarity and edge detection are all selected.
    pub open spec fn trigger_configured(self) -> bool {
        self.edge_trigger && self.polarity && self.edge_detect
    }

    /// The pin is a powered, plain digital input whose edges raise its
    /// interrupt.
    pub open spec fn is_listening(self) -> bool {
        &&& self.clocked
        &&& self.reset_released
        &&& !self.alt_func
        &&& self.in_mode != InMode::Disabled
        &&& self.digital_enabled
        &&& self.edge_trigger
        &&& self.int_enabled
    }

    /// The pin after an edge of the kind its trigger configuration selects:
    /// a listening pin latches it, any other pin does not see it.
    pub open spec fn after_edge(self) -> ButtonPin {
        if self.is_listening() {
            ButtonPin { pending: true, ..self }
        } else {
            self
        }
    }

    /// Carries out one write.
    pub fn apply(&mut self, op: ButtonOp)
        ensures
            *final(self) == old(self).after(op),
    {
        match op {
            ButtonOp::EnableClock => {
                self.clocked = true;
            },
            ButtonOp::ReleaseReset => {
                self.reset_released = true;
            },
            ButtonOp::WriteLockKey(key) => {
                self.lock_key = key;
            },
            ButtonOp::ClearLock => {
                if self.lock_key == UNLOCK_KEY {
                    self.locked = false;
                }
            },
            ButtonOp::ClearAltFunc => {
                if !self.locked {
                    self.alt_func = false;
                }
            },
            ButtonOp::SetInMode(mode) => {
                self.in_mode = mode;
            },
            ButtonOp::EnableDigital => {
                self.digital_enabled = true;
            },
            ButtonOp::SelectEdgeTrigger => {
                self.edge_trigger = true;
            },
            ButtonOp::SetPolarity => {
                self.polarity = true;
            },
            ButtonOp::EnableEdgeDetect => {
                self.edge_detect = true;
            },
            ButtonOp::EnableInterrupt => {
                self.int_enabled = true;
            },
            ButtonOp::Acknowledge => {
                self.pending = false;
            },
        }
    }

    /// Whether the pin listens for edges.
    pub fn listening(&self) -> (r: bool)
        ensures
            r == self.is_listening(),
    {
        self.clocked && self.reset_released && !self.alt_func && self.in_mode != InMode::Disabled
            && self.digital_enabled && self.edge_trigger && self.int_enabled
    }
}

impl Board {
    /// The board at power-on: nothing enabled, the LED data bit low, and the
    /// button pin locked on its alternate function.
    pub open spec fn at_power_on() -> Board {
        Board {
            led: LedPin {
                clocked: false,
                reset_released: false,
                level_high: false,
                out_mode: OutMode::PushPull,
                output_enabled: false,
                digital_enabled: false,
                drive: DriveMode::HighFast,
            },
            button: ButtonPin {
                clocked: false,
                reset_released: false,
                lock_key: 0,
                locked: true,
                alt_func: true,
                in_mode: InMode::Schmitt,
                digital_enabled: false,
                edge_trigger: false,
                polarity: false,
                edge_detect: false,
                int_enabled: false,
                pending: false,
            },
            irq_unmasked: false,
        }
    }

    /// The board after one operation.  Waiting changes nothing.
    pub open spec fn after(self, op: Op) -> Board {
        match op {
            Op::Led(w) => Board { led: self.led.after(w), ..self },
            Op::Button(w) => Board { button: self.button.after(w), ..self },
            Op::UnmaskIrq => Board { irq_unmasked: true, ..self },
            Op::Spin(_) => self,
        }
    }

    /// The board after a sequence of operations, carried out in order.
    pub open spec fn after_all(self, ops: Seq<Op>) -> Board
        decreases ops.len(),
    {
        if ops.len() == 0 {
            self
        } else {
            self.after_all(ops.drop_last()).after(ops.last())
        }
    }

    /// The board after an edge on the button that its trigger configuration
    /// selects.
    pub open spec fn after_edge(self) -> Board {
        Board { button: self.button.after_edge(), ..self }
    }

    /// The interrupt controller would invoke the GPIOA handler.
    pub open spec fn irq_raised(self) -> bool {
        self.button.pending && self.irq_unmasked
    }

    /// Both boards are configured alike: they differ at most in the level
    /// of the LED and in the pending flag of the button.
    pub open spec fn same_configuration(self, other: Board) -> bool {
        other == (Board {
            led: LedPin { level_high: other.led.level_high, ..self.led },
            button: ButtonPin { pending: other.button.pending, ..self.button },
            ..self
        })
    }

    /// The board at power-on.
    pub fn power_on() -> (b: Board)
        ensures
            b == Board::at_power_on(),
    {
        Board {
            led: LedPin {
                clocked: false,
                reset_released: false,
                level_high: false,
                out_mode: OutMode::PushPull,
                output_enabled: false,
                digital_enabled: false,
                drive: DriveMode::HighFast,
            },
            button: ButtonPin {
                clocked: false,
                reset_released: false,
                lock_key: 0,
                locked: true,
                alt_func: true,
                in_mode: InMode::Schmitt,
                digital_enabled: false,
                edge_trigger: false,
                polarity: false,
                edge_detect: false,
                int_enabled: false,
                pending: false,
            },
            irq_unmasked: false,
        }
    }

    /// Carries out one operation.
    pub fn apply(&mut self, op: Op)
        ensures
            *final(self) == old(self).after(op),
    {
        match op {
            Op::Led(w) => {
                self.led.apply(w);
            },
            Op::Button(w) => {
                self.button.apply(w);
            },
            Op::UnmaskIrq => {
                self.irq_unmasked = true;
            },
            Op::Spin(_) => {},
        }
    }

    /// Carries out a sequence of operations in order.
    pub fn run(&mut self, ops: &Vec<Op>)
        ensures
            *final(self) == old(self).after_all(ops@),
    {
        let mut i: usize = 0;
        while i < ops.len()
            invariant
                i <= ops.len(),
                *self == old(self).after_all(ops@.take(i as int)),
            decreases ops.len() - i,
        {
            proof {
                assert(ops@.take(i + 1).drop_last() == ops@.take(i as int));
            }
            self.apply(ops[i]);
            i += 1;
        }
        proof {
            assert(ops@.take(i as int) == ops@);
        }
    }

    /// Lets the button see one edge of the kind its trigger configuration
    /// selects.
    pub fn button_edge(&mut self)
        ensures
            *final(self) == old(self).after_edge(),
    {
        if self.button.listening() {
            self.button.pending = true;
        }
    }

    /// Whether the interrupt controller would invoke the GPIOA handler.
    pub fn is_irq_raised(&self) -> (r: bool)
        ensures
            r == self.irq_raised(),
    {
        self.button.pending && self.irq_unmasked
    }
}

/// Operations carried out one after the other act as their concatenation.
pub proof fn lemma_after_all_concat(b: Board, first: Seq<Op>, second: Seq<Op>)
    ensures
        b.after_all(first + second) == b.after_all(first).after_all(second),
    decreases second.len(),
{
    if second.len() == 0 {
        assert(first + second == first);
    } else {
        lemma_after_all_concat(b, first, second.drop_last());
        assert((first + second).drop_last() == first + second.drop_last());
    }
}

/// A latched interrupt stays latched until it is acknowledged: no other
/// operation clears the pending flag, and none but the acknowledgement
/// takes a raised interrupt down.
pub proof fn lemma_only_acknowledge_clears_pending(b: Board, op: Op)
    requires
        op != Op::Button(ButtonOp::Acknowledge),
    ensures
        b.after(op).button.pending == b.button.pending,
        b.irq_raised() ==> b.after(op).irq_raised(),
{
}

} // verus!
