//! The TWI bus controller as a state machine.
//!
//! Firmware drives the controller through register reads and writes. A
//! write may ask for work on the bus or on the interrupt line; the
//! controller does not do that work itself. `TWIState::write` returns it as
//! a `BusAction`, the host carries it out, and hands the outcome of a
//! start-transfer or of a send back through
//! `TWIState::start_transfer_done` or `TWIState::send_done`.
use crate::twi_i2c::registers::RegisterOffset;
use crate::twi_i2c::registers::TWIRegisters;
use crate::twi_i2c::registers::TWAR;
use crate::twi_i2c::registers::TWBR;
use crate::twi_i2c::registers::TWCR;
use crate::twi_i2c::registers::TWDR;
use crate::twi_i2c::registers::TWSR;
use crate::twi_i2c::registers::TW_MR_SLA_ACK;
use crate::twi_i2c::registers::TW_MR_SLA_NACK;
use crate::twi_i2c::registers::TW_MT_DATA_ACK;
use crate::twi_i2c::registers::TW_MT_DATA_NACK;
use crate::twi_i2c::registers::TW_MT_SLA_ACK;
use crate::twi_i2c::registers::TW_MT_SLA_NACK;
use crate::twi_i2c::registers::TW_START;
use vstd::prelude::*;

verus! {

/// The value that a read returns where no register answers.
pub const READ_SENTINEL: u64 = 0xFF;

/// What the host has to do after a register write.
#[derive(Clone, Copy, Debug, PartialEq, Eq, Structural)]
pub enum BusAction {
    /// Nothing.
    Idle,
    /// Start a transfer to the slave at the 7-bit `address`; `is_recv` is
    /// the direction bit. The outcome goes to `TWIState::start_transfer_done`.
    StartTransfer { address: u8, is_recv: bool },
    /// Send `data` to the addressed slave. The return code goes to
    /// `TWIState::send_done`.
    Send { data: u8 },
    /// End the current transfer.
    EndTransfer,
    /// Assert the interrupt line.
    RaiseIrq,
}

/// The state of one TWI controller.
#[derive(Clone, Copy, Debug, PartialEq, Eq, Structural)]
pub struct TWIState {
    pub registers: TWIRegisters,
    /// The enable bit of the last byte written to TWCR.
    pub enabled: bool,
    /// When set, a start-transfer that fails is reported with the ACK
    /// status all the same, as on a bus where every address answers. Off
    /// after `new`.
    pub ack_failed_start: bool,
}

/// How the bus's start-transfer return code reads: a positive code is a
/// failure, every other code a success.
pub open spec fn start_transfer_outcome(code: i32) -> Result<(), ()> {
    if code > 0 {
        Err(())
    } else {
        Ok(())
    }
}

/// Reads the return code of the bus's start-transfer primitive.
pub fn i2c_start_transfer(code: i32) -> (r: Result<(), ()>)
    ensures
        r == start_transfer_outcome(code),
{
    if code > 0 {
        Err(())
    } else {
        Ok(())
    }
}

impl TWIState {
    /// The controller after power-on.
    pub open spec fn power_on() -> TWIState {
        TWIState { registers: TWIRegisters::power_on(), enabled: false, ack_failed_start: false }
    }

    /// The controller with its status register set to the code `status`.
    pub open spec fn with_status(self, status: u8) -> TWIState {
        TWIState { registers: TWIRegisters { twsr: TWSR::of_byte(status), ..self.registers }, ..self }
    }

    /// What a read at `offset` returns: TWSR at offset 1, TWCR at offset 4,
    /// the sentinel everywhere else.
    pub open spec fn read_value(self, offset: u64) -> u64 {
        if offset == 1 {
            self.registers.twsr.byte() as u64
        } else if offset == 4 {
            self.registers.twcr.byte() as u64
        } else {
            READ_SENTINEL
        }
    }

    /// The controller after a STOP: no transaction, TWSTO and TWINT clear.
    pub open spec fn after_stop(self) -> TWIState {
        TWIState {
            registers: TWIRegisters {
                in_transaction: false,
                twcr: TWCR { twsto: false, twint: false, ..self.registers.twcr },
                ..self.registers
            },
            ..self
        }
    }

    /// The controller after the byte in TWDR has been dispatched.
    ///
    /// With TWINT low the write collides and only TWWC changes. With TWSTA
    /// latched the byte is an address and the START request is consumed.
    /// Otherwise the byte is data and nothing changes until the bus answers.
    pub open spec fn after_write_data(self) -> TWIState {
        let twcr = self.registers.twcr;
        if !twcr.twint {
            TWIState { registers: TWIRegisters { twcr: TWCR { twwc: true, ..twcr }, ..self.registers }, ..self }
        } else if twcr.twsta {
            TWIState { registers: TWIRegisters { twcr: TWCR { twsta: false, ..twcr }, ..self.registers }, ..self }
        } else {
            self
        }
    }

    /// What the host has to do for the byte in TWDR.
    pub open spec fn write_data_action(self) -> BusAction {
        let twcr = self.registers.twcr;
        let byte = self.registers.twdr.byte();
        if !twcr.twint {
            BusAction::Idle
        } else if twcr.twsta {
            BusAction::StartTransfer { address: byte >> 1u8, is_recv: self.registers.twdr.twd0 }
        } else {
            BusAction::Send { data: byte }
        }
    }

    /// The controller after `data` has been written to TWCR.
    ///
    /// The written TWEN goes to `enabled`, the written TWINT to the
    /// register, and a written TWSTA is latched. A written TWSTO stops the
    /// transaction. Without TWSTO, TWINT and TWEN together complete at once:
    /// outside a transaction they open one with status `TW_START` and set
    /// the register's TWEN, and in every case TWINT ends up set.
    pub open spec fn after_control_write(self, data: u8) -> TWIState {
        let r = TWCR::of_byte(data);
        let twcr = TWCR {
            twint: r.twint,
            twsta: self.registers.twcr.twsta || r.twsta,
            ..self.registers.twcr
        };
        let latched = TWIState {
            registers: TWIRegisters { twcr: twcr, ..self.registers },
            enabled: r.twen,
            ..self
        };
        if r.twsto {
            latched.after_stop()
        } else if r.twint && r.twen {
            if self.registers.in_transaction {
                TWIState {
                    registers: TWIRegisters { twcr: TWCR { twint: true, ..twcr }, ..latched.registers },
                    ..latched
                }
            } else {
                TWIState {
                    registers: TWIRegisters {
                        in_transaction: true,
                        twsr: TWSR::of_byte(TW_START),
                        twcr: TWCR { twint: true, twen: true, ..twcr },
                        ..latched.registers
                    },
                    ..latched
                }
            }
        } else {
            latched
        }
    }

    /// What the host has to do after `data` has been written to TWCR.
    pub open spec fn control_write_action(data: u8) -> BusAction {
        let r = TWCR::of_byte(data);
        if r.twsto {
            BusAction::EndTransfer
        } else if r.twint && r.twen {
            BusAction::RaiseIrq
        } else {
            BusAction::Idle
        }
    }

    /// The controller after `data` has been written at `address`.
    ///
    /// Writes to TWBR and TWSR are decoded and dropped, a write to TWAR is
    /// kept, a write to TWDR is kept and dispatched, a write to TWCR is
    /// interpreted, and a write anywhere else does nothing.
    pub open spec fn after_write(self, address: u64, data: u8) -> TWIState {
        match RegisterOffset::at(address) {
            Some(RegisterOffset::TWAR) => TWIState {
                registers: TWIRegisters { twar: TWAR::of_byte(data), ..self.registers },
                ..self
            },
            Some(RegisterOffset::TWDR) => TWIState {
                registers: TWIRegisters { twdr: TWDR::of_byte(data), ..self.registers },
                ..self
            }.after_write_data(),
            Some(RegisterOffset::TWCR) => self.after_control_write(data),
            _ => self,
        }
    }

    /// What the host has to do after `data` has been written at `address`.
    pub open spec fn write_action(self, address: u64, data: u8) -> BusAction {
        match RegisterOffset::at(address) {
            Some(RegisterOffset::TWDR) => TWIState {
                registers: TWIRegisters { twdr: TWDR::of_byte(data), ..self.registers },
                ..self
            }.write_data_action(),
            Some(RegisterOffset::TWCR) => TWIState::control_write_action(data),
            _ => BusAction::Idle,
        }
    }

    /// The status code for the end of the address phase: the ACK code of
    /// the direction in TWDR's bit 0 when the slave answered or when
    /// `ack_failed_start` is set, its NACK code otherwise.
    pub open spec fn address_status(self, result: Result<(), ()>) -> u8 {
        let acked = result is Ok || self.ack_failed_start;
        if self.registers.twdr.twd0 {
            if acked {
                TW_MR_SLA_ACK
            } else {
                TW_MR_SLA_NACK
            }
        } else {
            if acked {
                TW_MT_SLA_ACK
            } else {
                TW_MT_SLA_NACK
            }
        }
    }

    /// The status code for a sent data byte: ACK for return code 0, NACK
    /// for every other code.
    pub open spec fn data_status(code: i32) -> u8 {
        if code == 0 {
            TW_MT_DATA_ACK
        } else {
            TW_MT_DATA_NACK
        }
    }

    /// The controller after the bus has answered a start-transfer.
    pub open spec fn after_start_transfer(self, result: Result<(), ()>) -> TWIState {
        self.with_status(self.address_status(result))
    }

    /// The controller after the bus has answered a send with `code`.
    pub open spec fn after_send(self, code: i32) -> TWIState {
        self.with_status(TWIState::data_status(code))
    }

    /// A controller in its power-on state.
    pub fn new() -> (r: TWIState)
        ensures
            r == TWIState::power_on(),
    {
        TWIState { registers: TWIRegisters::new(), enabled: false, ack_failed_start: false }
    }

    /// Resets the register file. `enabled` and `ack_failed_start` stay.
    pub fn reset_hold(&mut self)
        ensures
            *final(self) == (TWIState { registers: TWIRegisters::power_on(), ..*old(self) }),
    {
        self.registers.reset();
    }

    /// Reads the register at `offset`. The width `_size` of the access
    /// plays no part.
    pub fn read(&mut self, offset: u64, _size: u32) -> (r: u64)
        ensures
            r == old(self).read_value(offset),
            *final(self) == *old(self),
    {
        match RegisterOffset::from_offset(offset) {
            Some(RegisterOffset::TWSR) => {
                let x: u8 = self.registers.twsr.into();
                x as u64
            },
            Some(RegisterOffset::TWCR) => {
                let x: u8 = self.registers.twcr.into();
                x as u64
            },
            _ => READ_SENTINEL,
        }
    }

    /// Writes `data` to the register at `address` and returns what the host
    /// has to do next.
    pub fn write(&mut self, address: u64, data: u8) -> (action: BusAction)
        ensures
            *final(self) == old(self).after_write(address, data),
            action == old(self).write_action(address, data),
    {
        match RegisterOffset::from_offset(address) {
            Some(RegisterOffset::TWBR) => {
                let _r = TWBR::from(data);
                BusAction::Idle
            },
            Some(RegisterOffset::TWSR) => {
                let _r = TWSR::from(data);
                BusAction::Idle
            },
            Some(RegisterOffset::TWAR) => {
                self.registers.twar = TWAR::from(data);
                BusAction::Idle
            },
            Some(RegisterOffset::TWDR) => {
                self.registers.twdr = TWDR::from(data);
                self.write_data()
            },
            Some(RegisterOffset::TWCR) => self.write_control(data),
            None => BusAction::Idle,
        }
    }

    /// Interprets a byte written to TWCR.
    fn write_control(&mut self, data: u8) -> (action: BusAction)
        ensures
            *final(self) == old(self).after_control_write(data),
            action == TWIState::control_write_action(data),
    {
        let r = TWCR::from(data);
        self.enabled = r.twen;
        self.latch_control(r);
        if r.twsto {
            self.stop();
            BusAction::EndTransfer
        } else if r.twint && r.twen {
            if !self.registers.in_transaction {
                self._start();
            }
            self.registers.twcr.twint = true;
            BusAction::RaiseIrq
        } else {
            BusAction::Idle
        }
    }

    /// Takes over TWINT from the written control byte `r` and latches its
    /// TWSTA.
    fn latch_control(&mut self, r: TWCR)
        ensures
            *final(self) == (TWIState {
                registers: TWIRegisters {
                    twcr: TWCR {
                        twint: r.twint,
                        twsta: old(self).registers.twcr.twsta || r.twsta,
                        ..old(self).registers.twcr
                    },
                    ..old(self).registers
                },
                ..*old(self)
            }),
    {
        self.registers.twcr.twint = r.twint;
        if r.twsta {
            self.registers.twcr.twsta = true;
        }
    }

    /// Handles a START condition: opens a transaction, reports `TW_START`
    /// and sets the register's TWEN.
    pub fn _start(&mut self)
        ensures
            *final(self) == (TWIState {
                registers: TWIRegisters {
                    in_transaction: true,
                    twsr: TWSR::of_byte(TW_START),
                    twcr: TWCR { twen: true, ..old(self).registers.twcr },
                    ..old(self).registers
                },
                ..*old(self)
            }),
    {
        self.registers.in_transaction = true;
        self.set_status(TW_START);
        self.registers.twcr.twen = true;
    }

    /// Handles a STOP condition. The host ends the transfer on the bus.
    fn stop(&mut self)
        ensures
            *final(self) == old(self).after_stop(),
    {
        self.registers.in_transaction = false;
        self.registers.twcr.twsto = false;
        self.registers.twcr.twint = false;
    }

    /// Dispatches the byte that was just stored in TWDR.
    fn write_data(&mut self) -> (action: BusAction)
        ensures
            *final(self) == old(self).after_write_data(),
            action == old(self).write_data_action(),
    {
        if !self.registers.twcr.twint {
            self.registers.twcr.twwc = true;
            return BusAction::Idle;
        }
        let byte: u8 = self.registers.twdr.into();
        if self.registers.twcr.twsta {
            self.registers.twcr.twsta = false;
            let is_recv = self.registers.twdr.twd0;
            BusAction::StartTransfer { address: byte >> 1u8, is_recv }
        } else {
            BusAction::Send { data: byte }
        }
    }

    /// Takes the outcome of the start-transfer that `write` asked for and
    /// sets the status of the address phase.
    pub fn start_transfer_done(&mut self, result: Result<(), ()>)
        ensures
            *final(self) == old(self).after_start_transfer(result),
    {
        let acked = result.is_ok() || self.ack_failed_start;
        let status = if self.registers.twdr.twd0 {
            if acked {
                TW_MR_SLA_ACK
            } else {
                TW_MR_SLA_NACK
            }
        } else {
            if acked {
                TW_MT_SLA_ACK
            } else {
                TW_MT_SLA_NACK
            }
        };
        self.set_status(status);
    }

    /// Takes the return code of the send that `write` asked for and sets
    /// the status of the data phase.
    pub fn send_done(&mut self, code: i32)
        ensures
            *final(self) == old(self).after_send(code),
    {
        if code == 0 {
            self.set_status(TW_MT_DATA_ACK);
        } else {
            self.set_status(TW_MT_DATA_NACK);
        }
    }

    /// Sets TWSR to the status code `status`.
    pub fn set_status(&mut self, status: u8)
        ensures
            *final(self) == old(self).with_status(status),
    {
        self.registers.twsr = TWSR::from(status);
    }
}

} // verus!
