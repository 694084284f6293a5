//! The register programs of the firmware: which writes and waits bring up
//! each pin and blink the LED, in their order, and what they do to the board.

use vstd::prelude::*;
use crate::board::{lemma_after_all_concat, Board, ButtonPin, LedPin};
use crate::ops::{
    written_before, ButtonOp, DriveMode, InMode, LedOp, Op, OutMode, BLINK_SPIN, UNLOCK_KEY,
    UNLOCK_SPIN,
};

verus! {

/// One blink: the LED goes low, a wait, the LED goes high, a wait.
pub open spec fn blink() -> Seq<Op> {
    seq![
        Op::Led(LedOp::DriveLow),
        Op::Spin(BLINK_SPIN),
        Op::Led(LedOp::DriveHigh),
        Op::Spin(BLINK_SPIN),
    ]
}

/// `n` blinks in a row.
pub open spec fn blinks(n: nat) -> Seq<Op>
    decreases n,
{
    if n == 0 {
        Seq::empty()
    } else {
        blinks((n - 1) as nat) + blink()
    }
}

/// The bring-up of the LED pin: power to its block, the data bit high, then
/// the output stage.
pub open spec fn led_bring_up() -> Seq<Op> {
    seq![
        Op::Led(LedOp::EnableClock),
        Op::Led(LedOp::ReleaseReset),
        Op::Led(LedOp::DriveHigh),
        Op::Led(LedOp::SetOutMode(OutMode::PushPull)),
        Op::Led(LedOp::EnableOutput),
        Op::Led(LedOp::EnableDigital),
        Op::Led(LedOp::SetDriveMode(DriveMode::HighFast)),
    ]
}

/// The bring-up of the button pin: power to its block, the unlock sequence,
/// the pin as a plain digital input, the trigger, and last the enable.
pub open spec fn button_bring_up() -> Seq<Op> {
    seq![
        Op::Button(ButtonOp::EnableClock),
        Op::Button(ButtonOp::ReleaseReset),
        Op::Button(ButtonOp::WriteLockKey(UNLOCK_KEY)),
        Op::Spin(UNLOCK_SPIN),
        Op::Button(ButtonOp::ClearLock),
        Op::Spin(UNLOCK_SPIN),
        Op::Button(ButtonOp::ClearAltFunc),
        Op::Button(ButtonOp::SetInMode(InMode::Cmos)),
        Op::Button(ButtonOp::EnableDigital),
        Op::Button(ButtonOp::SelectEdgeTrigger),
        Op::Button(ButtonOp::SetPolarity),
        Op::Button(ButtonOp::EnableEdgeDetect),
        Op::Button(ButtonOp::EnableInterrupt),
    ]
}

/// The LED pin as its bring-up leaves it: a powered, digital, strongly
/// driven push-pull output at high level.
pub open spec fn led_ready() -> LedPin {
    LedPin {
        clocked: true,
        reset_released: true,
        level_high: true,
        out_mode: OutMode::PushPull,
        output_enabled: true,
        digital_enabled: true,
        drive: DriveMode::HighFast,
    }
}

/// The button pin as its bring-up leaves it: powered, unlocked, off its
/// alternate function, a digital CMOS input, with an edge trigger that is
/// configured and enabled.  The bring-up does not touch the pending flag.
pub open spec fn button_ready(pending: bool) -> ButtonPin {
    ButtonPin {
        clocked: true,
        reset_released: true,
        lock_key: UNLOCK_KEY,
        locked: false,
        alt_func: false,
        in_mode: InMode::Cmos,
        digital_enabled: true,
        edge_trigger: true,
        polarity: true,
        edge_detect: true,
        int_enabled: true,
        pending,
    }
}

/// The wait between the halves of a blink.
pub fn delay() -> (op: Op)
    ensures
        op == Op::Spin(BLINK_SPIN),
{
    Op::Spin(BLINK_SPIN)
}

/// The operations of one blink of the LED.  On whatever board they are
/// carried out, they leave the LED high and touch nothing else.
pub fn toggle_led() -> (ops: Vec<Op>)
    ensures
        ops@ == blink(),
        forall|b: Board| #[trigger]
            b.after_all(ops@) == (Board { led: LedPin { level_high: true, ..b.led }, ..b }),
{
    let ops = vec![Op::Led(LedOp::DriveLow), delay(), Op::Led(LedOp::DriveHigh), delay()];
    proof {
        assert forall|b: Board| #[trigger]
            b.after_all(ops@) == (Board { led: LedPin { level_high: true, ..b.led }, ..b }) by {
            lemma_blink_ends_high(b);
        }
    }
    ops
}

/// The operations that bring up the LED pin.  On whatever board they are
/// carried out, they leave the LED pin ready and touch nothing else.
pub fn config_led_pin() -> (ops: Vec<Op>)
    ensures
        ops@ == led_bring_up(),
        forall|b: Board| #[trigger] b.after_all(ops@) == (Board { led: led_ready(), ..b }),
{
    let ops = vec![
        Op::Led(LedOp::EnableClock),
        Op::Led(LedOp::ReleaseReset),
        Op::Led(LedOp::DriveHigh),
        Op::Led(LedOp::SetOutMode(OutMode::PushPull)),
        Op::Led(LedOp::EnableOutput),
        Op::Led(LedOp::EnableDigital),
        Op::Led(LedOp::SetDriveMode(DriveMode::HighFast)),
    ];
    proof {
        assert forall|b: Board| #[trigger]
            b.after_all(ops@) == (Board { led: led_ready(), ..b }) by {
            lemma_led_bring_up(b);
        }
    }
    ops
}

/// The operations that bring up the button pin as an interrupt source.  On
/// whatever board they are carried out, locked or not, they leave the
/// button pin ready and touch nothing else.  Trigger type, polarity and edge
/// detection are each written before the write that enables the interrupt.
pub fn config_interrupt_user_btn() -> (ops: Vec<Op>)
    ensures
        ops@ == button_bring_up(),
        forall|b: Board| #[trigger]
            b.after_all(ops@) == (Board { button: button_ready(b.button.pending), ..b }),
        written_before(
            ops@,
            Op::Button(ButtonOp::SelectEdgeTrigger),
            Op::Button(ButtonOp::EnableInterrupt),
        ),
        written_before(
            ops@,
            Op::Button(ButtonOp::SetPolarity),
            Op::Button(ButtonOp::EnableInterrupt),
        ),
        written_before(
            ops@,
            Op::Button(ButtonOp::EnableEdgeDetect),
            Op::Button(ButtonOp::EnableInterrupt),
        ),
{
    let ops = vec![
        Op::Button(ButtonOp::EnableClock),
        Op::Button(ButtonOp::ReleaseReset),
        Op::Button(ButtonOp::WriteLockKey(UNLOCK_KEY)),
        Op::Spin(UNLOCK_SPIN),
        Op::Button(ButtonOp::ClearLock),
        Op::Spin(UNLOCK_SPIN),
        Op::Button(ButtonOp::ClearAltFunc),
        Op::Button(ButtonOp::SetInMode(InMode::Cmos)),
        Op::Button(ButtonOp::EnableDigital),
        Op::Button(ButtonOp::SelectEdgeTrigger),
        Op::Button(ButtonOp::SetPolarity),
        Op::Button(ButtonOp::EnableEdgeDetect),
        Op::Button(ButtonOp::EnableInterrupt),
    ];
    proof {
        lemma_arming_comes_last();
        assert forall|b: Board| #[trigger]
            b.after_all(ops@) == (Board { button: button_ready(b.button.pending), ..b }) by {
            lemma_button_bring_up(b);
        }
    }
    ops
}

/// In the bring-up of the button, trigger type, polarity and edge detection
/// are each written before the interrupt is enabled.
pub proof fn lemma_arming_comes_last()
    ensures
        written_before(
            button_bring_up(),
            Op::Button(ButtonOp::SelectEdgeTrigger),
            Op::Button(ButtonOp::EnableInterrupt),
        ),
        written_before(
            button_bring_up(),
            Op::Button(ButtonOp::SetPolarity),
            Op::Button(ButtonOp::EnableInterrupt),
        ),
        written_before(
            button_bring_up(),
            Op::Button(ButtonOp::EnableEdgeDetect),
            Op::Button(ButtonOp::EnableInterrupt),
        ),
{
    let program = button_bring_up();
    assert(program[9] == Op::Button(ButtonOp::SelectEdgeTrigger));
    assert(program[10] == Op::Button(ButtonOp::SetPolarity));
    assert(program[11] == Op::Button(ButtonOp::EnableEdgeDetect));
    assert(program[12] == Op::Button(ButtonOp::EnableInterrupt));
}

/// A blink leaves the LED high, whatever its level was, and touches nothing
/// else.
pub proof fn lemma_blink_ends_high(b: Board)
    ensures
        b.after_all(blink()) == (Board { led: LedPin { level_high: true, ..b.led }, ..b }),
{
    reveal_with_fuel(Board::after_all, 5);
}

/// Any number of blinks touches nothing but the LED level, and one blink or
/// more leaves the LED high.
pub proof fn lemma_blinks_end_high(b: Board, n: nat)
    ensures
        b.after_all(blinks(n)) == (if n == 0 {
            b
        } else {
            Board { led: LedPin { level_high: true, ..b.led }, ..b }
        }),
    decreases n,
{
    if n > 0 {
        let earlier = blinks((n - 1) as nat);
        lemma_blinks_end_high(b, (n - 1) as nat);
        lemma_after_all_concat(b, earlier, blink());
        lemma_blink_ends_high(b.after_all(earlier));
    }
}

/// From any state of the board, the bring-up of the LED leaves the pin
/// ready and touches nothing else.
pub proof fn lemma_led_bring_up(b: Board)
    ensures
        b.after_all(led_bring_up()) == (Board { led: led_ready(), ..b }),
{
    reveal_with_fuel(Board::after_all, 8);
}

/// From any state of the board, locked or not, the bring-up of the button
/// leaves the pin ready, listening for edges, and touches nothing else.
pub proof fn lemma_button_bring_up(b: Board)
    ensures
        b.after_all(button_bring_up()) == (Board { button: button_ready(b.button.pending), ..b }),
        button_ready(b.button.pending).is_listening(),
        button_ready(b.button.pending).trigger_configured(),
{
    reveal_with_fuel(Board::after_all, 14);
}

/// How far the trigger is set up after the first `k` operations of the
/// button's bring-up: each trigger write has taken effect from its position
/// on, and the interrupt stays disabled until the last operation.
spec fn trigger_progress(reached: Board, k: int) -> bool {
    &&& k >= 10 ==> reached.button.edge_trigger
    &&& k >= 11 ==> reached.button.polarity
    &&& k >= 12 ==> reached.button.edge_detect
    &&& k <= 12 ==> !reached.button.int_enabled
}

proof fn lemma_trigger_progress(b: Board, k: int)
    requires
        !b.button.int_enabled,
        0 <= k <= button_bring_up().len(),
    ensures
        trigger_progress(b.after_all(button_bring_up().take(k)), k),
    decreases k,
{
    let program = button_bring_up();
    if k > 0 {
        lemma_trigger_progress(b, k - 1);
        assert(program.take(k).drop_last() == program.take(k - 1));
        assert(program.take(k).last() == program[k - 1]);
        let before = b.after_all(program.take(k - 1));
        assert(b.after_all(program.take(k)) == before.after(program[k - 1]));
    }
}

/// Along the bring-up of the button there is no moment at which the
/// interrupt is enabled while its trigger is not configured: on a board
/// whose button interrupt starts disabled, this holds after every prefix of
/// the program.
pub proof fn lemma_never_armed_unconfigured(b: Board, k: int)
    requires
        !b.button.int_enabled,
        0 <= k <= button_bring_up().len(),
    ensures
        ({
            let reached = b.after_all(button_bring_up().take(k));
            reached.button.int_enabled ==> reached.button.trigger_configured()
        }),
{
    lemma_trigger_progress(b, k);
}

} // verus!
