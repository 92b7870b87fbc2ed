//! Bit-accurate models of two I2C peripherals: the SSD1306 OLED controller
//! (an I2C slave with display RAM and a command interpreter) and the
//! ATmega-style TWI bus controller (a register-level I2C master).
//!
//! Both models are plain state machines: the host hands them bytes and
//! register accesses, and they answer with state changes and with the bus
//! or interrupt action the host has to carry out.
pub mod i2cslave;
pub mod ssd1306;
pub mod twi_i2c;
