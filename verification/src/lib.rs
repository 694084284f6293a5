//! Control logic of a button-driven LED on the K1921VK035: the register
//! programs that bring up the two pins, the interrupt response, the
//! write-once slot that hands the peripherals to the interrupt handler, and
//! the start-up sequence, each stated over a small model of the board.

pub mod board;
pub mod flow;
pub mod handler;
pub mod machine;
pub mod ops;
pub mod programs;
pub mod slot;
