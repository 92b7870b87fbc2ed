//! The SSD1306 OLED controller: an I2C slave with 128 x 64 bits of display
//! RAM behind a byte-stream command interpreter.
//!
//! `model` states what the controller does as functions on a mathematical
//! state, `device` holds the executable controller.
pub mod device;
pub mod laws;
pub mod model;
pub mod surface;
