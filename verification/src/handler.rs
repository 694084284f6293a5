//! The response to the GPIOA interrupt.  The handler is handed the button's
//! latched status and answers with the writes to make: it acknowledges the
//! interrupt and flips the LED when the button raised it, and does nothing
//! otherwise.

use vstd::prelude::*;
use crate::board::{Board, ButtonPin, LedPin};
use crate::ops::{written_before, ButtonOp, LedOp, Op};

verus! {

/// The writes that answer an interrupt, given the button's status bit:
/// first the acknowledgement, then the toggle.
pub open spec fn irq_response(pending: bool) -> Seq<Op> {
    if pending {
        seq![Op::Button(ButtonOp::Acknowledge), Op::Led(LedOp::Toggle)]
    } else {
        Seq::empty()
    }
}

/// The board once the handler has run.  If the button's status bit was set,
/// it is clear and the LED is at the opposite level; if it was clear, the
/// board is as it was.
pub open spec fn serviced(b: Board) -> Board {
    if b.button.pending {
        Board {
            led: LedPin { level_high: !b.led.level_high, ..b.led },
            button: ButtonPin { pending: false, ..b.button },
            ..b
        }
    } else {
        b
    }
}

/// The handler of the GPIOA interrupt: `pending` is the button's bit of the
/// interrupt status, read on entry.  The caller borrows the peripherals
/// from the shared slot, reads the bit, and carries the answer out, all
/// inside one critical section.
///
/// With the bit set, the answer is one acknowledging write followed by one
/// toggling write; with the bit clear, it is empty.  Carried out on the
/// board the bit was read from, it leaves that board serviced.
pub fn gpioa(pending: bool) -> (ops: Vec<Op>)
    ensures
        ops@ == irq_response(pending),
        forall|b: Board| b.button.pending == pending ==> #[trigger] b.after_all(ops@) == serviced(b),
{
    let ops = if pending {
        vec![Op::Button(ButtonOp::Acknowledge), Op::Led(LedOp::Toggle)]
    } else {
        Vec::new()
    };
    proof {
        assert forall|b: Board| b.button.pending == pending implies #[trigger] b.after_all(ops@)
            == serviced(b) by {
            lemma_response_services(b);
        }
    }
    ops
}

/// Carrying out the handler's answer leaves the board serviced.
pub proof fn lemma_response_services(b: Board)
    ensures
        b.after_all(irq_response(b.button.pending)) == serviced(b),
{
    reveal_with_fuel(Board::after_all, 3);
}

/// When the button's status bit is set, the handler leaves it clear and the
/// LED at the opposite level, by exactly two writes, the acknowledgement
/// before the toggle, and changes nothing else.
pub proof fn lemma_service_acknowledges_and_flips(b: Board)
    requires
        b.button.pending,
    ensures
        !serviced(b).button.pending,
        serviced(b).led.level_high == !b.led.level_high,
        serviced(b) == (Board {
            led: LedPin { level_high: !b.led.level_high, ..b.led },
            button: ButtonPin { pending: false, ..b.button },
            ..b
        }),
        irq_response(b.button.pending) == seq![
            Op::Button(ButtonOp::Acknowledge),
            Op::Led(LedOp::Toggle),
        ],
        written_before(
            irq_response(b.button.pending),
            Op::Button(ButtonOp::Acknowledge),
            Op::Led(LedOp::Toggle),
        ),
{
    let response = irq_response(true);
    assert(response[0] == Op::Button(ButtonOp::Acknowledge));
    assert(response[1] == Op::Led(LedOp::Toggle));
}

/// When the button's status bit is clear, the handler writes nothing and
/// the board stays as it is.
pub proof fn lemma_service_ignores_foreign_interrupt(b: Board)
    requires
        !b.button.pending,
    ensures
        irq_response(b.button.pending) == Seq::<Op>::empty(),
        serviced(b) == b,
{
}

/// Once the handler has run, running it again without a new edge changes
/// nothing: one edge flips the LED once.
pub proof fn lemma_service_is_idempotent(b: Board)
    ensures
        !serviced(b).button.pending,
        serviced(serviced(b)) == serviced(b),
{
}

} // verus!
