//! The whole system on the model: the board, the one-time claim on its
//! peripherals, the start-up code that holds them first, and the slot from
//! which the interrupt handler borrows them afterwards.
//!
//! A [`Machine`] runs the same decisions that drive the hardware, the
//! start-up sequence and the interrupt response, against a [`Board`], so
//! that what the firmware does as a whole can be stated: who owns the
//! peripherals at which stage, that the slot is written once, and that
//! every latched edge flips the LED once.

use vstd::prelude::*;
use crate::board::{lemma_after_all_concat, Board};
use crate::flow::{
    advance, next_stage, step_ops, Event, Stage, IRQ_ENABLED_BLINKS, PIN_RELEASED_BLINKS,
};
use crate::handler::{gpioa, irq_response, serviced};
use crate::ops::Op;
use crate::programs::{
    blinks, button_bring_up, button_ready, led_bring_up, led_ready, lemma_blinks_end_high,
    lemma_button_bring_up, lemma_led_bring_up,
};
use crate::slot::SharedSlot;

verus! {

/// The right to drive the peripherals.  A [`Claim`] gives out one.
pub struct Handle {
    seal: (),
}

/// The one-time claim on the peripherals.
pub struct Claim {
    taken: bool,
}

impl Claim {
    /// The peripherals have been given out.
    pub closed spec fn is_taken(self) -> bool {
        self.taken
    }

    /// The claim after an attempt to exercise it, granted or not.
    pub closed spec fn after_take(self) -> Claim {
        Claim { taken: true }
    }

    /// A claim that nobody has exercised yet.
    pub fn new() -> (claim: Claim)
        ensures
            !claim.is_taken(),
    {
        Claim { taken: false }
    }

    /// Gives out the peripherals if nobody has them yet.  From then on the
    /// claim is taken, so every later attempt fails.
    pub fn take(&mut self) -> (handle: Option<Handle>)
        ensures
            handle is Some <==> !old(self).is_taken(),
            final(self).is_taken(),
            *final(self) == old(self).after_take(),
    {
        if self.taken {
            None
        } else {
            self.taken = true;
            Some(Handle { seal: () })
        }
    }

    /// Whether the peripherals have been given out.
    pub fn taken(&self) -> (r: bool)
        ensures
            r == self.is_taken(),
    {
        self.taken
    }
}

/// What can happen to the machine.
#[derive(Clone, Copy, Debug, PartialEq, Eq, Structural)]
pub enum Input {
    /// The start-up code does what its stage asks and takes one step.
    MainStep,
    /// The button sees an edge of the kind its trigger selects.
    ButtonEdge,
    /// The GPIOA handler is invoked.
    Interrupt,
}

/// The state of the machine in plain values.
#[derive(Clone, Copy, Debug, PartialEq, Eq, Structural)]
pub struct MachineView {
    pub board: Board,
    /// The peripherals have been given out.
    pub claimed: bool,
    /// The start-up code holds the peripherals.
    pub main_holds: bool,
    /// The shared slot holds the peripherals.
    pub slot_populated: bool,
    pub stage: Stage,
}

impl MachineView {
    /// A machine whose start-up code has not run yet.
    pub open spec fn initial(board: Board, claimed: bool) -> MachineView {
        MachineView {
            board,
            claimed,
            main_holds: false,
            slot_populated: false,
            stage: Stage::Acquire,
        }
    }

    /// What the start-up code finds when it does what its stage asks: the
    /// claim grants the peripherals if it is not taken, the two reads give
    /// what the board holds, and the slot takes the peripherals if the
    /// start-up code has them and the slot is empty.
    pub open spec fn observed(self) -> Option<Event> {
        match self.stage {
            Stage::Acquire => Some(Event::Acquired(!self.claimed)),
            Stage::ReadAltFunc => Some(Event::AltFunc(self.board.button.alt_func)),
            Stage::ReadIrqEnabled => Some(Event::IrqEnabled(self.board.irq_unmasked)),
            Stage::HandOff => Some(Event::HandedOff(self.main_holds && !self.slot_populated)),
            Stage::Idle | Stage::Halted => None,
        }
    }

    /// The machine after one step of the start-up code: the start-up code
    /// does what its stage asks, which may move the peripherals, and then
    /// carries out the operations of the step that follows from what it
    /// found.  Idling or stopped, it does nothing.
    pub open spec fn after_main_step(self) -> MachineView {
        match self.observed() {
            Some(event) => MachineView {
                board: self.board.after_all(step_ops(self.stage, event)),
                claimed: self.claimed || self.stage == Stage::Acquire,
                main_holds: match event {
                    Event::Acquired(granted) => self.main_holds || granted,
                    Event::HandedOff(taken) => self.main_holds && !taken,
                    _ => self.main_holds,
                },
                slot_populated: match event {
                    Event::HandedOff(taken) => self.slot_populated || taken,
                    _ => self.slot_populated,
                },
                stage: next_stage(self.stage, event),
            },
            None => self,
        }
    }

    /// The machine after an edge on the button.
    pub open spec fn after_button_edge(self) -> MachineView {
        MachineView { board: self.board.after_edge(), ..self }
    }

    /// The machine after an invocation of the interrupt handler.  A stopped
    /// machine runs no handler.  A handler that finds the slot empty stops
    /// the machine without a write; one that finds the peripherals answers
    /// the button's status bit.
    pub open spec fn after_interrupt(self) -> MachineView {
        if self.stage == Stage::Halted {
            self
        } else if !self.slot_populated {
            MachineView { stage: Stage::Halted, ..self }
        } else {
            MachineView { board: serviced(self.board), ..self }
        }
    }

    /// The machine after one input.
    pub open spec fn after_input(self, input: Input) -> MachineView {
        match input {
            Input::MainStep => self.after_main_step(),
            Input::ButtonEdge => self.after_button_edge(),
            Input::Interrupt => self.after_interrupt(),
        }
    }

    /// The machine after a sequence of inputs, in order.
    pub open spec fn after(self, inputs: Seq<Input>) -> MachineView
        decreases inputs.len(),
    {
        if inputs.len() == 0 {
            self
        } else {
            self.after(inputs.drop_last()).after_input(inputs.last())
        }
    }

    /// The peripherals are where the stage says they are: with nobody
    /// before the acquisition, with the start-up code until the hand-over,
    /// in the slot once the start-up code idles, and never in two places.
    pub open spec fn consistent(self) -> bool {
        match self.stage {
            Stage::Acquire => !self.main_holds && !self.slot_populated,
            Stage::ReadAltFunc | Stage::ReadIrqEnabled | Stage::HandOff => {
                self.claimed && self.main_holds && !self.slot_populated
            },
            Stage::Idle => self.claimed && !self.main_holds && self.slot_populated,
            Stage::Halted => !(self.main_holds && self.slot_populated),
        }
    }
}

/// The firmware on a model board: hardware state, the claim on the
/// peripherals, and where the peripherals are.
pub struct Machine {
    board: Board,
    claim: Claim,
    held: Option<Handle>,
    slot: SharedSlot<Handle>,
    stage: Stage,
}

impl View for Machine {
    type V = MachineView;

    closed spec fn view(&self) -> MachineView {
        MachineView {
            board: self.board,
            claimed: self.claim.is_taken(),
            main_holds: self.held is Some,
            slot_populated: self.slot.is_populated(),
            stage: self.stage,
        }
    }
}

impl Machine {
    /// A machine on the given board whose start-up code has not run yet.
    pub fn new(board: Board, claim: Claim) -> (machine: Machine)
        ensures
            machine@ == MachineView::initial(board, claim.is_taken()),
    {
        Machine { board, claim, held: None, slot: SharedSlot::new(), stage: Stage::Acquire }
    }

    /// Lets the start-up code take one step and returns the operations that
    /// it carried out on the board.
    pub fn main_step(&mut self) -> (trace: Vec<Op>)
        ensures
            final(self)@ == old(self)@.after_main_step(),
            trace@ == (match old(self)@.observed() {
                Some(event) => step_ops(old(self)@.stage, event),
                None => Seq::empty(),
            }),
    {
        match self.stage {
            Stage::Acquire => {
                let handle = self.claim.take();
                let granted = handle.is_some();
                if granted {
                    self.held = handle;
                }
                let step = advance(Stage::Acquire, Event::Acquired(granted));
                self.board.run(&step.ops);
                self.stage = step.next;
                step.ops
            },
            Stage::ReadAltFunc => {
                let step = advance(Stage::ReadAltFunc, Event::AltFunc(self.board.button.alt_func));
                self.board.run(&step.ops);
                self.stage = step.next;
                step.ops
            },
            Stage::ReadIrqEnabled => {
                let step = advance(
                    Stage::ReadIrqEnabled,
                    Event::IrqEnabled(self.board.irq_unmasked),
                );
                self.board.run(&step.ops);
                self.stage = step.next;
                step.ops
            },
            Stage::HandOff => {
                let taken = match self.held.take() {
                    Some(handle) => match self.slot.hand_off(handle) {
                        Ok(_) => true,
                        Err(refused) => {
                            self.held = Some(refused);
                            false
                        },
                    },
                    None => false,
                };
                let step = advance(Stage::HandOff, Event::HandedOff(taken));
                self.stage = step.next;
                step.ops
            },
            Stage::Idle => Vec::new(),
            Stage::Halted => Vec::new(),
        }
    }

    /// Lets the button see one edge of the kind its trigger selects.
    pub fn button_edge(&mut self)
        ensures
            final(self)@ == old(self)@.after_button_edge(),
    {
        self.board.button_edge();
    }

    /// Invokes the interrupt handler.  Returns the operations that it
    /// carried out, or `None` if no handler ran to its end: the machine was
    /// stopped, or the handler found the slot empty and stopped it.
    pub fn interrupt(&mut self) -> (trace: Option<Vec<Op>>)
        ensures
            final(self)@ == old(self)@.after_interrupt(),
            trace is Some <==> old(self)@.stage != Stage::Halted && old(self)@.slot_populated,
            trace is Some ==> trace->0@ == irq_response(
                old(self)@.board.button.pending,
            ),
    {
        if self.stage == Stage::Halted {
            return None;
        }
        match self.slot.get() {
            None => {
                self.stage = Stage::Halted;
                None
            },
            Some(_) => {
                let ops = gpioa(self.board.button.pending);
                self.board.run(&ops);
                Some(ops)
            },
        }
    }

    /// Whether the interrupt controller would invoke the handler now.
    pub fn irq_raised(&self) -> (r: bool)
        ensures
            r == self@.board.irq_raised(),
    {
        self.board.is_irq_raised()
    }

    /// The state of the board.
    pub fn board(&self) -> (board: Board)
        ensures
            board == self@.board,
    {
        self.board
    }

    /// Where the start-up code stands.
    pub fn stage(&self) -> (stage: Stage)
        ensures
            stage == self@.stage,
    {
        self.stage
    }

    /// Whether the start-up code holds the peripherals.
    pub fn main_holds(&self) -> (r: bool)
        ensures
            r == self@.main_holds,
    {
        self.held.is_some()
    }

    /// Whether the shared slot holds the peripherals.
    pub fn slot_populated(&self) -> (r: bool)
        ensures
            r == self@.slot_populated,
    {
        self.slot.populated()
    }

    /// Whether the peripherals have been given out.
    pub fn claimed(&self) -> (r: bool)
        ensures
            r == self@.claimed,
    {
        self.claim.taken()
    }
}

/// The peripherals are given out once: after any attempt the claim is
/// taken, so a second attempt fails, and so does every one after it.
pub proof fn lemma_claim_is_exercised_once(claim: Claim)
    ensures
        claim.after_take().is_taken(),
        claim.after_take().after_take() == claim.after_take(),
{
}

/// The peripherals are acquired once in a run.  The start-up code
/// exercises the claim in its first stage only: on a free claim it gets the
/// peripherals and goes on, on a taken claim it gets nothing, writes
/// nothing and stops.  No input takes the claim back or leads back to the
/// first stage, so there is no second acquisition.
pub proof fn lemma_peripherals_are_acquired_once(v: MachineView, inputs: Seq<Input>)
    ensures
        v.stage == Stage::Acquire && !v.claimed ==> v.after_main_step().claimed
            && v.after_main_step().main_holds && v.after_main_step().stage == Stage::ReadAltFunc,
        v.stage == Stage::Acquire && v.claimed ==> v.after_main_step() == (MachineView {
            stage: Stage::Halted,
            ..v
        }),
        v.claimed ==> v.after(inputs).claimed,
        v.stage != Stage::Acquire ==> v.after(inputs).stage != Stage::Acquire,
    decreases inputs.len(),
{
    if inputs.len() > 0 {
        lemma_peripherals_are_acquired_once(v, inputs.drop_last());
    }
}

/// Whatever happens, the peripherals stay where the stage says they are.
pub proof fn lemma_consistency_is_kept(v: MachineView, inputs: Seq<Input>)
    requires
        v.consistent(),
    ensures
        v.after(inputs).consistent(),
    decreases inputs.len(),
{
    if inputs.len() > 0 {
        lemma_consistency_is_kept(v, inputs.drop_last());
    }
}

/// The slot is written once: no input empties a populated slot, so it goes
/// from empty to populated at most once in the life of the machine.
pub proof fn lemma_slot_is_written_once(v: MachineView, inputs: Seq<Input>)
    requires
        v.slot_populated,
    ensures
        v.after(inputs).slot_populated,
    decreases inputs.len(),
{
    if inputs.len() > 0 {
        lemma_slot_is_written_once(v, inputs.drop_last());
    }
}

/// Once the start-up code idles, it is done with the peripherals, and no
/// handler invocation finds the slot empty: whatever edges, interrupts and
/// further steps follow, in any order, the machine keeps idling with the
/// peripherals in the slot and is never stopped.  The start-up code itself
/// changes nothing any more.
pub proof fn lemma_handler_always_finds_peripherals(v: MachineView, inputs: Seq<Input>)
    requires
        v.consistent(),
        v.stage == Stage::Idle,
    ensures
        v.after(inputs).stage == Stage::Idle,
        v.after(inputs).slot_populated,
        !v.after(inputs).main_holds,
        v.after_main_step() == v,
    decreases inputs.len(),
{
    if inputs.len() > 0 {
        lemma_handler_always_finds_peripherals(v, inputs.drop_last());
        lemma_consistency_is_kept(v, inputs.drop_last());
    }
}

/// Boards configured like a common third are configured alike.
proof fn lemma_same_configuration_chains(first: Board, second: Board, third: Board)
    requires
        first.same_configuration(second),
        second.same_configuration(third),
    ensures
        first.same_configuration(third),
{
}

/// One input to an idling machine keeps the configuration of the board.
proof fn lemma_idle_input_keeps_configuration(v: MachineView, input: Input)
    requires
        v.consistent(),
        v.stage == Stage::Idle,
    ensures
        v.board.same_configuration(v.after_input(input).board),
{
}

/// The pins are configured once: while the start-up code idles, nothing
/// that happens changes the board but for the level of the LED and the
/// pending flag of the button.
pub proof fn lemma_configuration_is_frozen(v: MachineView, inputs: Seq<Input>)
    requires
        v.consistent(),
        v.stage == Stage::Idle,
    ensures
        v.board.same_configuration(v.after(inputs).board),
    decreases inputs.len(),
{
    if inputs.len() > 0 {
        let earlier = v.after(inputs.drop_last());
        let reached = earlier.after_input(inputs.last());
        assert(v.after(inputs) == reached);
        assert(v.board.same_configuration(earlier.board)) by {
            lemma_configuration_is_frozen(v, inputs.drop_last());
        }
        assert(earlier.board.same_configuration(reached.board)) by {
            lemma_handler_always_finds_peripherals(v, inputs.drop_last());
            lemma_consistency_is_kept(v, inputs.drop_last());
            lemma_idle_input_keeps_configuration(earlier, inputs.last());
        }
        assert(v.board.same_configuration(reached.board)) by {
            lemma_same_configuration_chains(v.board, earlier.board, reached.board);
        }
    }
}

/// An interrupt that is served before the hand-over finds the slot empty:
/// it stops the machine and writes nothing.  The interrupt line is unmasked
/// two steps before the peripherals reach the slot, so this can happen if
/// the button is pressed in between.
pub proof fn lemma_early_interrupt_stops(v: MachineView)
    requires
        v.consistent(),
        v.stage != Stage::Idle,
    ensures
        v.after_interrupt().stage == Stage::Halted,
        v.after_interrupt().board == v.board,
{
}

/// From any state of the board, with the peripherals still available, four
/// steps take the start-up code to idling: the peripherals are in the slot,
/// the LED pin is ready and high, the button pin is ready and listens for
/// edges with the pending flag as it was, and the interrupt line is
/// unmasked.
pub proof fn lemma_start_up_reaches_idle(board: Board)
    ensures
        MachineView::initial(board, false).after(
            seq![Input::MainStep, Input::MainStep, Input::MainStep, Input::MainStep],
        ) == (MachineView {
            board: Board {
                led: led_ready(),
                button: button_ready(board.button.pending),
                irq_unmasked: true,
            },
            claimed: true,
            main_holds: false,
            slot_populated: true,
            stage: Stage::Idle,
        }),
        button_ready(board.button.pending).is_listening(),
{
    let v0 = MachineView::initial(board, false);
    let v1 = v0.after_main_step();
    let v2 = v1.after_main_step();
    let v3 = v2.after_main_step();
    let v4 = v3.after_main_step();
    assert(v0.after(
        seq![Input::MainStep, Input::MainStep, Input::MainStep, Input::MainStep],
    ) == v4) by {
        reveal_with_fuel(MachineView::after, 5);
    }
    assert(v1.stage == Stage::ReadAltFunc && v1.board == (Board {
        led: led_ready(),
        button: button_ready(board.button.pending),
        ..board
    })) by {
        lemma_after_all_concat(board, led_bring_up(), button_bring_up());
        lemma_led_bring_up(board);
        lemma_button_bring_up(board.after_all(led_bring_up()));
    }
    assert(v2.stage == Stage::ReadIrqEnabled && v2.board == (Board {
        irq_unmasked: true,
        ..v1.board
    })) by {
        let signal = blinks(PIN_RELEASED_BLINKS as nat);
        lemma_after_all_concat(v1.board, signal, seq![Op::UnmaskIrq]);
        lemma_blinks_end_high(v1.board, PIN_RELEASED_BLINKS as nat);
        reveal_with_fuel(Board::after_all, 2);
    }
    assert(v3.stage == Stage::HandOff && v3.board == v2.board) by {
        lemma_blinks_end_high(v2.board, IRQ_ENABLED_BLINKS as nat);
    }
}

/// While the start-up code idles and the button pin listens, an edge
/// followed by the interrupt it raises flips the LED once and clears the
/// pending flag; the handler, invoked again without a new edge, changes
/// nothing.
pub proof fn lemma_edge_flips_led_once(v: MachineView)
    requires
        v.consistent(),
        v.stage == Stage::Idle,
        v.board.button.is_listening(),
        !v.board.button.pending,
        v.board.irq_unmasked,
    ensures
        v.after_button_edge().board.irq_raised(),
        ({
            let answered = v.after_button_edge().after_interrupt();
            &&& answered.board.led.level_high == !v.board.led.level_high
            &&& !answered.board.button.pending
            &&& !answered.board.irq_raised()
            &&& answered.after_interrupt() == answered
        }),
{
}

} // verus!
