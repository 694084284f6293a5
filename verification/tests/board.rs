use led_button::board::{Board, ButtonPin, LedPin};
use led_button::ops::{ButtonOp, DriveMode, InMode, LedOp, Op, OutMode, UNLOCK_KEY};
use led_button::programs::{config_interrupt_user_btn, config_led_pin, toggle_led};

fn scrambled() -> Board {
    Board {
        led: LedPin {
            clocked: false,
            reset_released: true,
            level_high: false,
            out_mode: OutMode::OpenDrain,
            output_enabled: false,
            digital_enabled: false,
            drive: DriveMode::LowSlow,
        },
        button: ButtonPin {
            clocked: true,
            reset_released: false,
            lock_key: 0xEEEE_EEEE,
            locked: true,
            alt_func: true,
            in_mode: InMode::Disabled,
            digital_enabled: false,
            edge_trigger: false,
            polarity: true,
            edge_detect: false,
            int_enabled: false,
            pending: true,
        },
        irq_unmasked: true,
    }
}

#[test]
fn power_on_board_is_off_and_button_is_locked() {
    let board = Board::power_on();
    assert!(!board.led.clocked);
    assert!(!board.led.reset_released);
    assert!(!board.led.level_high);
    assert!(!board.led.output_enabled);
    assert!(!board.led.digital_enabled);
    assert_eq!(board.led.out_mode, OutMode::PushPull);
    assert_eq!(board.led.drive, DriveMode::HighFast);
    assert!(board.button.locked);
    assert!(board.button.alt_func);
    assert_eq!(board.button.lock_key, 0);
    assert_eq!(board.button.in_mode, InMode::Schmitt);
    assert!(!board.button.int_enabled);
    assert!(!board.button.pending);
    assert!(!board.button.listening());
    assert!(!board.irq_unmasked);
    assert!(!board.is_irq_raised());
}

#[test]
fn unlock_key_is_the_documented_one() {
    assert_eq!(UNLOCK_KEY, 0xADEADBEE);
}

#[test]
fn led_bring_up_sets_every_output_property() {
    let mut board = Board::power_on();
    board.run(&config_led_pin());
    assert_eq!(
        board.led,
        LedPin {
            clocked: true,
            reset_released: true,
            level_high: true,
            out_mode: OutMode::PushPull,
            output_enabled: true,
            digital_enabled: true,
            drive: DriveMode::HighFast,
        }
    );
    assert_eq!(board.button, Board::power_on().button);
    assert!(!board.irq_unmasked);
}

#[test]
fn led_bring_up_overrides_whatever_was_there() {
    let mut board = scrambled();
    board.run(&config_led_pin());
    assert!(board.led.clocked);
    assert!(board.led.reset_released);
    assert!(board.led.level_high);
    assert_eq!(board.led.out_mode, OutMode::PushPull);
    assert!(board.led.output_enabled);
    assert!(board.led.digital_enabled);
    assert_eq!(board.led.drive, DriveMode::HighFast);
    assert_eq!(board.button, scrambled().button);
    assert!(board.irq_unmasked);
}

#[test]
fn button_bring_up_unlocks_releases_and_arms_the_pin() {
    let mut board = Board::power_on();
    board.run(&config_interrupt_user_btn());
    assert_eq!(
        board.button,
        ButtonPin {
            clocked: true,
            reset_released: true,
            lock_key: 0xADEA_DBEE,
            locked: false,
            alt_func: false,
            in_mode: InMode::Cmos,
            digital_enabled: true,
            edge_trigger: true,
            polarity: true,
            edge_detect: true,
            int_enabled: true,
            pending: false,
        }
    );
    assert!(board.button.listening());
    assert_eq!(board.led, Board::power_on().led);
    assert!(!board.irq_unmasked);
}

#[test]
fn button_bring_up_keeps_a_pending_flag() {
    let mut board = scrambled();
    board.run(&config_interrupt_user_btn());
    assert!(board.button.pending);
    assert!(!board.button.locked);
    assert!(!board.button.alt_func);
    assert!(board.button.listening());
    assert_eq!(board.led, scrambled().led);
}

#[test]
fn lock_is_cleared_only_with_the_unlock_key() {
    let mut board = Board::power_on();
    board.apply(Op::Button(ButtonOp::ClearLock));
    assert!(board.button.locked);
    board.apply(Op::Button(ButtonOp::WriteLockKey(0xEEEE_EEEE)));
    board.apply(Op::Button(ButtonOp::ClearLock));
    assert!(board.button.locked);
    board.apply(Op::Button(ButtonOp::WriteLockKey(0xADEA_DBEE)));
    assert!(board.button.locked);
    board.apply(Op::Button(ButtonOp::ClearLock));
    assert!(!board.button.locked);
}

#[test]
fn alternate_function_is_cleared_only_on_an_unlocked_pin() {
    let mut board = Board::power_on();
    board.apply(Op::Button(ButtonOp::ClearAltFunc));
    assert!(board.button.alt_func);
    board.apply(Op::Button(ButtonOp::WriteLockKey(0xADEA_DBEE)));
    board.apply(Op::Button(ButtonOp::ClearLock));
    board.apply(Op::Button(ButtonOp::ClearAltFunc));
    assert!(!board.button.alt_func);
}

#[test]
fn each_led_write_changes_its_own_property() {
    let mut board = Board::power_on();
    board.apply(Op::Led(LedOp::DriveHigh));
    assert!(board.led.level_high);
    board.apply(Op::Led(LedOp::Toggle));
    assert!(!board.led.level_high);
    board.apply(Op::Led(LedOp::Toggle));
    assert!(board.led.level_high);
    board.apply(Op::Led(LedOp::DriveLow));
    assert!(!board.led.level_high);
    board.apply(Op::Led(LedOp::SetOutMode(OutMode::OpenSource)));
    assert_eq!(board.led.out_mode, OutMode::OpenSource);
    board.apply(Op::Led(LedOp::SetDriveMode(DriveMode::LowFast)));
    assert_eq!(board.led.drive, DriveMode::LowFast);
    assert!(!board.led.output_enabled);
    assert!(!board.led.clocked);
}

#[test]
fn waiting_and_unmasking_leave_the_pins_alone() {
    let mut board = scrambled();
    board.irq_unmasked = false;
    board.apply(Op::Spin(20_000));
    assert_eq!(board.led, scrambled().led);
    assert_eq!(board.button, scrambled().button);
    assert!(!board.irq_unmasked);
    board.apply(Op::UnmaskIrq);
    assert!(board.irq_unmasked);
    assert_eq!(board.led, scrambled().led);
    assert_eq!(board.button, scrambled().button);
}

#[test]
fn run_applies_operations_in_order() {
    let mut stepwise = Board::power_on();
    let ops = vec![
        Op::Led(LedOp::DriveHigh),
        Op::Led(LedOp::Toggle),
        Op::Led(LedOp::EnableOutput),
    ];
    for op in ops.iter() {
        stepwise.apply(*op);
    }
    let mut at_once = Board::power_on();
    at_once.run(&ops);
    assert_eq!(at_once, stepwise);
    assert!(!at_once.led.level_high);
    assert!(at_once.led.output_enabled);
}

#[test]
fn blink_changes_the_level_twice_from_high() {
    let mut board = Board::power_on();
    board.run(&config_led_pin());
    let mut changes = 0;
    for op in toggle_led() {
        let before = board.led.level_high;
        board.apply(op);
        if board.led.level_high != before {
            changes += 1;
        }
    }
    assert_eq!(changes, 2);
    assert!(board.led.level_high);
}

#[test]
fn blink_ends_high_from_low() {
    let mut board = Board::power_on();
    assert!(!board.led.level_high);
    board.run(&toggle_led());
    assert!(board.led.level_high);
}

#[test]
fn interrupt_is_never_enabled_before_its_trigger_is_configured() {
    let mut board = Board::power_on();
    for op in config_interrupt_user_btn() {
        board.apply(op);
        if board.button.int_enabled {
            assert!(board.button.edge_trigger);
            assert!(board.button.polarity);
            assert!(board.button.edge_detect);
        }
    }
    assert!(board.button.int_enabled);
}

#[test]
fn edge_is_latched_only_by_a_listening_pin() {
    let mut board = Board::power_on();
    board.button_edge();
    assert!(!board.button.pending);
    board.run(&config_interrupt_user_btn());
    board.button_edge();
    assert!(board.button.pending);
}

#[test]
fn interrupt_is_raised_only_when_pending_and_unmasked() {
    let mut board = Board::power_on();
    board.run(&config_interrupt_user_btn());
    board.button_edge();
    assert!(board.button.pending);
    assert!(!board.is_irq_raised());
    board.apply(Op::UnmaskIrq);
    assert!(board.is_irq_raised());
    board.apply(Op::Button(ButtonOp::Acknowledge));
    assert!(!board.is_irq_raised());
}

#[test]
fn pending_flag_survives_every_write_but_the_acknowledgement() {
    let mut board = Board::power_on();
    board.run(&config_led_pin());
    board.run(&config_interrupt_user_btn());
    board.apply(Op::UnmaskIrq);
    board.button_edge();
    assert!(board.is_irq_raised());
    board.run(&config_led_pin());
    board.run(&config_interrupt_user_btn());
    board.run(&toggle_led());
    board.apply(Op::Led(LedOp::Toggle));
    board.apply(Op::UnmaskIrq);
    assert!(board.button.pending);
    assert!(board.is_irq_raised());
    board.apply(Op::Button(ButtonOp::Acknowledge));
    assert!(!board.button.pending);
}

#[test]
fn input_with_its_buffer_disabled_does_not_listen() {
    let mut board = Board::power_on();
    board.run(&config_interrupt_user_btn());
    assert!(board.button.listening());
    board.apply(Op::Button(ButtonOp::SetInMode(InMode::Disabled)));
    assert!(!board.button.listening());
    board.button_edge();
    assert!(!board.button.pending);
    board.apply(Op::Button(ButtonOp::SetInMode(InMode::Schmitt)));
    assert!(board.button.listening());
}
