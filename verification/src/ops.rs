//! The vocabulary of hardware actions: every register write and every wait
//! that the firmware asks for is one [`Op`].  The library only decides which
//! operations happen and in which order; whoever owns the real peripherals
//! carries them out.

use vstd::prelude::*;

verus! {

/// Value that LOCKKEY must hold for a write to LOCKCLR to take effect.
pub const UNLOCK_KEY: u32 = 0xADEA_DBEE;

/// No-op iterations between the two halves of a blink.  An iteration count,
/// not a duration: it is not derived from any clock frequency.
pub const BLINK_SPIN: u32 = 20_000;

/// No-op iterations after each write of the unlock sequence.
pub const UNLOCK_SPIN: u32 = 1_000;

/// How the output stage of a pin drives its pad (OUTMODE).
#[derive(Clone, Copy, Debug, PartialEq, Eq, Structural)]
pub enum OutMode {
    PushPull,
    OpenDrain,
    OpenSource,
}

/// Strength and slew rate of the output stage (DRIVEMODE).
#[derive(Clone, Copy, Debug, PartialEq, Eq, Structural)]
pub enum DriveMode {
    HighFast,
    HighSlow,
    LowFast,
    LowSlow,
}

/// Input buffer of a pin (INMODE).
#[derive(Clone, Copy, Debug, PartialEq, Eq, Structural)]
pub enum InMode {
    Schmitt,
    Cmos,
    Disabled,
}

/// A register write that concerns the LED pin, PB5.
#[derive(Clone, Copy, Debug, PartialEq, Eq, Structural)]
pub enum LedOp {
    /// Set GPIOBEN in the clock configuration, keeping the other bits.
    EnableClock,
    /// Set GPIOBEN in the reset configuration, keeping the other bits.
    ReleaseReset,
    /// Write the pin's bit to DATAOUTSET.
    DriveHigh,
    /// Write the pin's bit to DATAOUTCLR.
    DriveLow,
    /// Write the pin's bit to DATAOUTTGL: one write flips the level.
    Toggle,
    /// Write the pin's field of OUTMODE.
    SetOutMode(OutMode),
    /// Write the pin's bit to OUTENSET.
    EnableOutput,
    /// Write the pin's bit to DENSET.
    EnableDigital,
    /// Write the pin's field of DRIVEMODE.
    SetDriveMode(DriveMode),
}

/// A register write that concerns the button pin, PA6.
#[derive(Clone, Copy, Debug, PartialEq, Eq, Structural)]
pub enum ButtonOp {
    /// Set GPIOAEN in the clock configuration, keeping the other bits.
    EnableClock,
    /// Set GPIOAEN in the reset configuration, keeping the other bits.
    ReleaseReset,
    /// Write a raw value to LOCKKEY.
    WriteLockKey(u32),
    /// Write the pin's bit to LOCKCLR.
    ClearLock,
    /// Write the pin's bit to ALTFUNCCLR.
    ClearAltFunc,
    /// Write the pin's field of INMODE.
    SetInMode(InMode),
    /// Write the pin's bit to DENSET.
    EnableDigital,
    /// Write the pin's bit to INTTYPESET: edge-sensitive, not level.
    SelectEdgeTrigger,
    /// Write the pin's bit to INTPOLSET.
    SetPolarity,
    /// Write the pin's bit to INTEDGESET.
    EnableEdgeDetect,
    /// Write the pin's bit to INTENSET: arms the interrupt.
    EnableInterrupt,
    /// Write the pin's bit to INTSTATUS, which clears the pending flag.
    Acknowledge,
}

/// One hardware action.
#[derive(Clone, Copy, Debug, PartialEq, Eq, Structural)]
pub enum Op {
    /// A write to a register of the LED pin.
    Led(LedOp),
    /// A write to a register of the button pin.
    Button(ButtonOp),
    /// Unmask the GPIOA line at the interrupt controller.
    UnmaskIrq,
    /// Execute this many no-ops.
    Spin(u32),
}

/// Both operations occur in the trace, and every occurrence of `first`
/// stands before every occurrence of `second`.
pub open spec fn written_before(trace: Seq<Op>, first: Op, second: Op) -> bool {
    &&& trace.contains(first)
    &&& trace.contains(second)
    &&& forall|i: int, j: int|
        0 <= i < trace.len() && 0 <= j < trace.len() && trace[i] == first && trace[j] == second
            ==> i < j
}

} // verus!
