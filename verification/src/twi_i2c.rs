//! The TWI (two-wire interface) bus controller.
//!
//! `registers` holds the register file and its bit layout, `device` the
//! state machine that register writes drive.
pub mod device;
pub mod laws;
pub mod registers;
