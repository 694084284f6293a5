use led_button::board::Board;
use led_button::flow::{advance, blink_times, Event, Stage};
use led_button::ops::{LedOp, Op};
use led_button::programs::{config_interrupt_user_btn, config_led_pin, toggle_led};

fn level_changes(board: &mut Board, ops: &[Op]) -> usize {
    let mut changes = 0;
    for op in ops {
        let before = board.led.level_high;
        board.apply(*op);
        if board.led.level_high != before {
            changes += 1;
        }
    }
    changes
}

fn blinks(n: usize) -> Vec<Op> {
    let mut ops = Vec::new();
    for _ in 0..n {
        ops.extend(toggle_led());
    }
    ops
}

#[test]
fn start_up_brings_up_both_pins_once_it_has_the_peripherals() {
    let step = advance(Stage::Acquire, Event::Acquired(true));
    let mut expected = config_led_pin();
    expected.extend(config_interrupt_user_btn());
    assert_eq!(step.ops, expected);
    assert_eq!(step.ops.len(), 20);
    assert_eq!(step.next, Stage::ReadAltFunc);
}

#[test]
fn start_up_halts_without_the_peripherals() {
    let step = advance(Stage::Acquire, Event::Acquired(false));
    assert!(step.ops.is_empty());
    assert_eq!(step.next, Stage::Halted);
}

#[test]
fn released_pin_is_signalled_by_two_blinks_before_the_unmask() {
    let step = advance(Stage::ReadAltFunc, Event::AltFunc(false));
    let mut expected = blinks(2);
    expected.push(Op::UnmaskIrq);
    assert_eq!(step.ops, expected);
    assert_eq!(step.next, Stage::ReadIrqEnabled);

    let mut board = Board::power_on();
    board.run(&config_led_pin());
    let unmask = step.ops.iter().position(|op| *op == Op::UnmaskIrq).unwrap();
    assert_eq!(unmask, step.ops.len() - 1);
    assert_eq!(level_changes(&mut board, &step.ops[..unmask]), 4);
    let lows = step.ops[..unmask]
        .iter()
        .filter(|op| **op == Op::Led(LedOp::DriveLow))
        .count();
    assert_eq!(lows, 2);
    assert!(board.led.level_high);
}

#[test]
fn pin_left_on_its_alternate_function_is_not_signalled() {
    let step = advance(Stage::ReadAltFunc, Event::AltFunc(true));
    assert_eq!(step.ops, vec![Op::UnmaskIrq]);
    assert_eq!(step.next, Stage::ReadIrqEnabled);
}

#[test]
fn enabled_interrupt_line_is_signalled_by_three_blinks() {
    let step = advance(Stage::ReadIrqEnabled, Event::IrqEnabled(true));
    assert_eq!(step.ops, blinks(3));
    assert_eq!(step.ops.len(), 12);
    assert_eq!(step.next, Stage::HandOff);

    let mut board = Board::power_on();
    board.run(&config_led_pin());
    assert_eq!(level_changes(&mut board, &step.ops), 6);
}

#[test]
fn disabled_interrupt_line_is_not_signalled() {
    let step = advance(Stage::ReadIrqEnabled, Event::IrqEnabled(false));
    assert!(step.ops.is_empty());
    assert_eq!(step.next, Stage::HandOff);
}

#[test]
fn hand_over_leads_to_idle() {
    let step = advance(Stage::HandOff, Event::HandedOff(true));
    assert!(step.ops.is_empty());
    assert_eq!(step.next, Stage::Idle);
}

#[test]
fn refused_hand_over_halts() {
    let step = advance(Stage::HandOff, Event::HandedOff(false));
    assert!(step.ops.is_empty());
    assert_eq!(step.next, Stage::Halted);
}

#[test]
fn idle_and_halted_are_final() {
    let events = [
        Event::Acquired(true),
        Event::Acquired(false),
        Event::AltFunc(true),
        Event::AltFunc(false),
        Event::IrqEnabled(true),
        Event::IrqEnabled(false),
        Event::HandedOff(true),
        Event::HandedOff(false),
    ];
    for stage in [Stage::Idle, Stage::Halted] {
        for event in events {
            let step = advance(stage, event);
            assert!(step.ops.is_empty());
            assert_eq!(step.next, stage);
        }
    }
}

#[test]
fn event_that_was_not_asked_for_is_ignored() {
    let step = advance(Stage::Acquire, Event::AltFunc(false));
    assert!(step.ops.is_empty());
    assert_eq!(step.next, Stage::Acquire);
    let step = advance(Stage::ReadAltFunc, Event::Acquired(true));
    assert!(step.ops.is_empty());
    assert_eq!(step.next, Stage::ReadAltFunc);
    let step = advance(Stage::ReadIrqEnabled, Event::HandedOff(true));
    assert!(step.ops.is_empty());
    assert_eq!(step.next, Stage::ReadIrqEnabled);
    let step = advance(Stage::HandOff, Event::IrqEnabled(true));
    assert!(step.ops.is_empty());
    assert_eq!(step.next, Stage::HandOff);
}

#[test]
fn acquisition_is_asked_for_once_per_run() {
    let mut stage = Stage::Acquire;
    let mut asked = 0;
    let answers = [
        Event::Acquired(true),
        Event::AltFunc(false),
        Event::IrqEnabled(true),
        Event::HandedOff(true),
        Event::Acquired(true),
        Event::Acquired(true),
    ];
    for event in answers {
        if stage == Stage::Acquire {
            asked += 1;
        }
        stage = advance(stage, event).next;
    }
    assert_eq!(asked, 1);
    assert_eq!(stage, Stage::Idle);
}

#[test]
fn blink_times_repeats_the_blink() {
    assert!(blink_times(0).is_empty());
    assert_eq!(blink_times(1), toggle_led());
    assert_eq!(blink_times(3), blinks(3));
}
