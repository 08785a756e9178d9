//! Bring-up of the nRF51 PCA10001 board: static placement of the driver
//! singletons, the wiring between them, the table that resolves a driver
//! number to a driver, and the signal shown after a fatal fault.
//!
//! The library holds the decisions; touching the hardware is left to the
//! caller. Every function is verified against the contract it carries.

pub mod arena;
pub mod board;
pub mod chip;
pub mod composition;
pub mod fault;
pub mod wiring;

pub use crate::arena::Arena;
pub use crate::board::{init, Firestorm, Platform, GPIO_DRIVER, TIMER_DRIVER};
pub use crate::chip::Chip;
pub use crate::composition::Composition;
pub use crate::fault::{rust_begin_unwind, FaultSignal, LedAction};
pub use crate::wiring::{Interrupt, Node, Singleton, Wiring, NUM_PINS};
