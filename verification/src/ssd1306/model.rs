//! The controller as a mathematical state machine.
//!
//! A `DisplayModel` is the state of one controller. Every operation of the
//! controller is a pair of functions on it: one gives the next state, the
//! other says whether the operation met an anomaly, and which.
use vstd::prelude::*;

verus! {

/// Columns of the display, and bytes in one page of display RAM.
pub const WIDTH: usize = 128;

/// Rows of the display.
pub const HEIGHT: usize = 64;

/// Bytes of display RAM.
pub const GDDRAM_SIZE: usize = 1024;

/// The factor by which the host's surface is larger than the display.
pub const MAGNIFY: usize = 1;

/// The address of the controller on the I2C bus.
pub const I2C_ADDRESS: u8 = 0x3d;

/// The bus event that opens a transfer to the controller.
pub const I2C_START_SEND: u32 = 1;

/// The bus event that closes a transfer.
pub const I2C_FINISH: u32 = 3;

/// How the write pointers move after a byte has been stored in display RAM.
#[derive(Clone, Copy, Debug, PartialEq, Eq, Structural)]
pub enum MemoryAddressingMode {
    /// The column pointer moves on by one. Past the column end address it
    /// goes back to the column start address and the page pointer moves on
    /// by one; past the page end address that one goes back to the page
    /// start address.
    Horizontal,
    /// The page pointer moves first, the column pointer when the pages wrap.
    Vertical,
    /// The column pointer moves and wraps, the page pointer stays.
    Page,
}

/// What the bytes of the current transfer are, as the control byte said.
#[derive(Clone, Copy, Debug, PartialEq, Eq, Structural)]
pub enum DataMode {
    /// Commands and their parameters.
    Command,
    /// Bytes for display RAM.
    Data,
}

/// An anomaly in what the controller was sent. None of them stops the
/// controller: it acknowledges the byte and goes on.
#[derive(Clone, Copy, Debug, PartialEq, Eq, Structural)]
pub enum ProtocolError {
    /// The command ran without a parameter that it expects.
    MissingParameter,
    /// The command is not allowed in page addressing mode and was dropped.
    NotAllowedInPageMode,
    /// A parameter is outside the range of its command and was dropped.
    InvalidValue,
    /// No command has this opcode.
    UnknownCommand,
    /// The controller has this path, the model does not.
    NotImplemented,
}

/// The state of one controller.
pub struct DisplayModel {
    /// Whether a command is waiting for more parameters.
    pub in_command: bool,
    /// The parameters received for the current command.
    pub parameters: Seq<u8>,
    /// The opcode of the current command.
    pub command: u8,
    /// The number of parameters that `command` expects.
    pub params_number: nat,
    /// Display RAM, page after page, 128 bytes each. A byte holds one
    /// column of the eight rows of its page, the top row in bit 0.
    pub gddram: Seq<u8>,
    pub memory_addressing_mode: MemoryAddressingMode,
    pub column_start_address: u8,
    pub column_end_address: u8,
    pub column_address_pointer: u8,
    pub page_start_address: u8,
    pub page_end_address: u8,
    pub page_address_pointer: u8,
    /// Whether the control byte of the current transfer has arrived.
    pub received_dc: bool,
    pub display_enabled: bool,
    pub multiplex_ratio: u8,
    pub display_offset: u8,
    pub display_start_line: u8,
    pub segment_remap_enabled: bool,
    pub com_remap_enabled: bool,
    pub force_display_on: bool,
    pub display_inverted: bool,
    pub data_mode: DataMode,
}

/// The number of parameter bytes that follow the opcode `command`.
pub open spec fn number_of_parameters(command: u8) -> nat {
    if command == 0x26 || command == 0x27 {
        6
    } else if command == 0x29 || command == 0x2a {
        5
    } else if command == 0xa3 || command == 0x21 || command == 0x22 {
        2
    } else if command == 0x81 || command == 0x01 || command == 0x20 || command == 0xd3 || command == 0xda
        || command == 0xd5 || command == 0xd9 || command == 0xdb || command == 0xa8 || command == 0x8d {
        1
    } else {
        0
    }
}

/// Whether the model has no code for the opcode `command`: the column and
/// page pointer commands of page addressing mode.
pub open spec fn is_unimplemented(command: u8) -> bool {
    command <= 0x1f || (0xb0 <= command && command <= 0xb7)
}

/// Whether `command` only checks that its one parameter is there.
pub open spec fn only_checks_parameter(command: u8) -> bool {
    command == 0x81 || command == 0xd5 || command == 0xd9 || command == 0xdb || command == 0x8d
}

/// Whether `command` is complete in its opcode, or takes a parameter that
/// the model does not look at.
pub open spec fn needs_no_parameter(command: u8) -> bool {
    command == 0xa4 || command == 0xa5 || command == 0xa6 || command == 0xa7 || command == 0xae || command == 0xaf
        || command == 0xa0 || command == 0xa1 || command == 0xc0 || command == 0xc8 || command == 0xe3 || command
        == 0xda || (0x40 <= command && command <= 0x7f)
}

/// The addressing mode that the two low bits of a parameter select.
pub open spec fn addressing_mode_of(parameter: u8) -> Option<MemoryAddressingMode> {
    let bits = parameter & 0x3;
    if bits == 0 {
        Some(MemoryAddressingMode::Horizontal)
    } else if bits == 1 {
        Some(MemoryAddressingMode::Vertical)
    } else if bits == 2 {
        Some(MemoryAddressingMode::Page)
    } else {
        None
    }
}

/// Whether `ratio` is a multiplex ratio that the controller accepts.
pub open spec fn multiplex_ratio_in_range(ratio: u8) -> bool {
    16 <= ratio && ratio <= 63
}

/// The state of a flag that opcode `off` clears and opcode `on` sets.
pub open spec fn switched(command: u8, off: u8, on: u8, current: bool) -> bool {
    if command == off {
        false
    } else if command == on {
        true
    } else {
        current
    }
}

impl DisplayModel {
    /// The state after attach: display RAM clear, every number zero, every
    /// flag off, page addressing mode.
    pub open spec fn initial() -> DisplayModel {
        DisplayModel {
            in_command: false,
            parameters: Seq::empty(),
            command: 0,
            params_number: 0,
            gddram: Seq::new(GDDRAM_SIZE as nat, |i: int| 0u8),
            memory_addressing_mode: MemoryAddressingMode::Page,
            column_start_address: 0,
            column_end_address: 0,
            column_address_pointer: 0,
            page_start_address: 0,
            page_end_address: 0,
            page_address_pointer: 0,
            received_dc: false,
            display_enabled: false,
            multiplex_ratio: 0,
            display_offset: 0,
            display_start_line: 0,
            segment_remap_enabled: false,
            com_remap_enabled: false,
            force_display_on: false,
            display_inverted: false,
            data_mode: DataMode::Command,
        }
    }

    /// Whether the state is one that the controller can be in.
    ///
    /// Display RAM has its size, column addresses have seven bits and page
    /// addresses three, so that the write pointers always name a byte of
    /// display RAM; the 6-bit settings have six bits; and there are never
    /// more parameters than the command expects, and fewer while it waits
    /// for more.
    pub open spec fn wf(self) -> bool {
        &&& self.gddram.len() == GDDRAM_SIZE
        &&& self.column_start_address < 128
        &&& self.column_end_address < 128
        &&& self.column_address_pointer < 128
        &&& self.page_start_address < 8
        &&& self.page_end_address < 8
        &&& self.page_address_pointer < 8
        &&& self.multiplex_ratio < 64
        &&& self.display_offset < 64
        &&& self.display_start_line < 64
        &&& self.parameters.len() <= self.params_number
        &&& self.in_command ==> self.parameters.len() < self.params_number
    }

    /// The index in display RAM that the write pointers name.
    pub open spec fn write_index(self) -> int {
        self.page_address_pointer * 128 + self.column_address_pointer
    }

    /// The state after `command` has run on the parameters received.
    ///
    /// Each setting changes under its own command and under no other, and
    /// only where the parameter that carries the new value has arrived and
    /// is in range. The command, its parameters, the display RAM and the
    /// write pointers stay as they are.
    pub open spec fn dispatch(self) -> DisplayModel {
        let c = self.command;
        let p = self.parameters;
        let windowed = self.memory_addressing_mode != MemoryAddressingMode::Page;
        DisplayModel {
            force_display_on: switched(c, 0xa4, 0xa5, self.force_display_on),
            display_inverted: switched(c, 0xa6, 0xa7, self.display_inverted),
            display_enabled: switched(c, 0xae, 0xaf, self.display_enabled),
            segment_remap_enabled: switched(c, 0xa0, 0xa1, self.segment_remap_enabled),
            com_remap_enabled: switched(c, 0xc0, 0xc8, self.com_remap_enabled),
            memory_addressing_mode: if c == 0x20 && p.len() >= 1 && addressing_mode_of(p[0]) is Some {
                addressing_mode_of(p[0])->Some_0
            } else {
                self.memory_addressing_mode
            },
            column_start_address: if c == 0x21 && windowed && p.len() >= 1 {
                p[0] & 0x7f
            } else {
                self.column_start_address
            },
            column_end_address: if c == 0x21 && windowed && p.len() >= 2 {
                p[1] & 0x7f
            } else {
                self.column_end_address
            },
            page_start_address: if c == 0x22 && windowed && p.len() >= 1 {
                p[0] & 0x07
            } else {
                self.page_start_address
            },
            page_end_address: if c == 0x22 && windowed && p.len() >= 2 {
                p[1] & 0x07
            } else {
                self.page_end_address
            },
            display_start_line: if 0x40 <= c && c <= 0x7f {
                c & 0x3f
            } else {
                self.display_start_line
            },
            multiplex_ratio: if c == 0xa8 && p.len() >= 1 && multiplex_ratio_in_range(p[0] & 0x3f) {
                p[0] & 0x3f
            } else {
                self.multiplex_ratio
            },
            display_offset: if c == 0xd3 && p.len() >= 1 {
                p[0] & 0x3f
            } else {
                self.display_offset
            },
            ..self
        }
    }

    /// The anomaly, if any, that running `command` on the parameters
    /// received meets.
    pub open spec fn dispatch_result(self) -> Result<(), ProtocolError> {
        let c = self.command;
        let p = self.parameters;
        if is_unimplemented(c) {
            Err(ProtocolError::NotImplemented)
        } else if only_checks_parameter(c) || c == 0xd3 {
            if p.len() >= 1 {
                Ok(())
            } else {
                Err(ProtocolError::MissingParameter)
            }
        } else if c == 0x20 {
            if p.len() == 0 {
                Err(ProtocolError::MissingParameter)
            } else if addressing_mode_of(p[0]) is None {
                Err(ProtocolError::InvalidValue)
            } else {
                Ok(())
            }
        } else if c == 0x21 || c == 0x22 {
            if self.memory_addressing_mode == MemoryAddressingMode::Page {
                Err(ProtocolError::NotAllowedInPageMode)
            } else if p.len() < 2 {
                Err(ProtocolError::MissingParameter)
            } else {
                Ok(())
            }
        } else if c == 0xa8 {
            if p.len() == 0 {
                Err(ProtocolError::MissingParameter)
            } else if !multiplex_ratio_in_range(p[0] & 0x3f) {
                Err(ProtocolError::InvalidValue)
            } else {
                Ok(())
            }
        } else if needs_no_parameter(c) {
            Ok(())
        } else {
            Err(ProtocolError::UnknownCommand)
        }
    }

    /// The state after `data` has been written to display RAM.
    ///
    /// In horizontal addressing mode the byte goes to the place that the
    /// write pointers name, and the pointers move on. In the other two
    /// modes nothing is stored and nothing moves.
    pub open spec fn write_gddram(self, data: u8) -> DisplayModel {
        if self.memory_addressing_mode == MemoryAddressingMode::Horizontal {
            let wraps_column = self.column_address_pointer + 1 > self.column_end_address;
            let wraps_page = self.page_address_pointer + 1 > self.page_end_address;
            DisplayModel {
                gddram: self.gddram.update(self.write_index(), data),
                column_address_pointer: if wraps_column {
                    self.column_start_address
                } else {
                    (self.column_address_pointer + 1) as u8
                },
                page_address_pointer: if !wraps_column {
                    self.page_address_pointer
                } else if wraps_page {
                    self.page_start_address
                } else {
                    (self.page_address_pointer + 1) as u8
                },
                ..self
            }
        } else {
            self
        }
    }

    /// The anomaly, if any, of a write to display RAM.
    pub open spec fn write_gddram_result(self) -> Result<(), ProtocolError> {
        if self.memory_addressing_mode == MemoryAddressingMode::Horizontal {
            Ok(())
        } else {
            Err(ProtocolError::NotImplemented)
        }
    }

    /// The state after the opcode `opcode` has arrived: the command is
    /// current without parameters, and runs at once if it expects none.
    pub open spec fn begin_command(self, opcode: u8) -> DisplayModel {
        let n = number_of_parameters(opcode);
        let begun = DisplayModel {
            command: opcode,
            parameters: Seq::empty(),
            params_number: n,
            in_command: n != 0,
            ..self
        };
        if n == 0 {
            begun.dispatch()
        } else {
            begun
        }
    }

    /// The state after the parameter `parameter` has arrived: it joins the
    /// parameters, and the command runs once it has them all.
    pub open spec fn add_parameter(self, parameter: u8) -> DisplayModel {
        let joined = DisplayModel { parameters: self.parameters.push(parameter), ..self };
        if joined.parameters.len() == self.params_number {
            DisplayModel { in_command: false, ..joined }.dispatch()
        } else {
            joined
        }
    }

    /// The state after the byte `data` has arrived.
    ///
    /// The first byte of a transfer is the control byte: its bit 6 selects
    /// data or commands for the rest of the transfer. A later byte is
    /// written to display RAM, or is the next parameter of the command
    /// that waits for one, or is a new opcode.
    pub open spec fn receive(self, data: u8) -> DisplayModel {
        if !self.received_dc {
            DisplayModel {
                received_dc: true,
                data_mode: if data & 0x40 == 0 {
                    DataMode::Command
                } else {
                    DataMode::Data
                },
                ..self
            }
        } else if self.data_mode == DataMode::Data {
            self.write_gddram(data)
        } else if self.in_command {
            self.add_parameter(data)
        } else {
            self.begin_command(data)
        }
    }

    /// The anomaly, if any, that the opcode `opcode` meets: that of its
    /// command where the command runs at once.
    pub open spec fn receive_result_of_opcode(self, opcode: u8) -> Result<(), ProtocolError> {
        if number_of_parameters(opcode) == 0 {
            DisplayModel {
                command: opcode,
                parameters: Seq::empty(),
                params_number: 0,
                in_command: false,
                ..self
            }.dispatch_result()
        } else {
            Ok(())
        }
    }

    /// The anomaly, if any, that the parameter `parameter` meets: that of
    /// the command where the parameter is its last.
    pub open spec fn receive_result_of_parameter(self, parameter: u8) -> Result<(), ProtocolError> {
        if self.parameters.len() + 1 == self.params_number {
            DisplayModel {
                parameters: self.parameters.push(parameter),
                in_command: false,
                ..self
            }.dispatch_result()
        } else {
            Ok(())
        }
    }

    /// The anomaly, if any, that the byte `data` meets.
    pub open spec fn receive_result(self, data: u8) -> Result<(), ProtocolError> {
        if !self.received_dc {
            Ok(())
        } else if self.data_mode == DataMode::Data {
            self.write_gddram_result()
        } else if self.in_command {
            self.receive_result_of_parameter(data)
        } else {
            self.receive_result_of_opcode(data)
        }
    }

    /// The state after the bytes `bytes` have arrived one after the other.
    pub open spec fn receive_all(self, bytes: Seq<u8>) -> DisplayModel
        decreases bytes.len(),
    {
        if bytes.len() == 0 {
            self
        } else {
            self.receive_all(bytes.drop_last()).receive(bytes.last())
        }
    }

    /// The state after the bytes `bytes` have been written to display RAM
    /// one after the other.
    pub open spec fn write_all(self, bytes: Seq<u8>) -> DisplayModel
        decreases bytes.len(),
    {
        if bytes.len() == 0 {
            self
        } else {
            self.write_all(bytes.drop_last()).write_gddram(bytes.last())
        }
    }

    /// Whether both address windows have their start at or before their end.
    pub open spec fn window_is_valid(self) -> bool {
        self.column_start_address <= self.column_end_address && self.page_start_address <= self.page_end_address
    }

    /// Whether both write pointers lie inside their address windows.
    pub open spec fn pointers_in_window(self) -> bool {
        &&& self.column_start_address <= self.column_address_pointer <= self.column_end_address
        &&& self.page_start_address <= self.page_address_pointer <= self.page_end_address
    }

    /// Whether both write pointers stand at the start of their windows.
    pub open spec fn pointers_at_start(self) -> bool {
        self.column_address_pointer == self.column_start_address && self.page_address_pointer
            == self.page_start_address
    }

    /// Whether `other` differs from this state in display RAM and in the
    /// write pointers at most.
    pub open spec fn same_but_memory(self, other: DisplayModel) -> bool {
        other == (DisplayModel {
            gddram: other.gddram,
            column_address_pointer: other.column_address_pointer,
            page_address_pointer: other.page_address_pointer,
            ..self
        })
    }

    /// The state after a transfer has started: the next byte is taken as
    /// the control byte.
    pub open spec fn transfer_started(self) -> DisplayModel {
        DisplayModel { received_dc: false, ..self }
    }

    /// The state after a transfer has ended: a command that still waits for
    /// parameters runs on those that it has.
    pub open spec fn transfer_ended(self) -> DisplayModel {
        if self.in_command {
            DisplayModel { in_command: false, ..self }.dispatch()
        } else {
            self
        }
    }

    /// The anomaly, if any, that the end of a transfer meets.
    pub open spec fn transfer_ended_result(self) -> Result<(), ProtocolError> {
        if self.in_command {
            DisplayModel { in_command: false, ..self }.dispatch_result()
        } else {
            Ok(())
        }
    }

    /// The state after the bus event `event`.
    pub open spec fn event(self, event: u32) -> DisplayModel {
        if event == I2C_START_SEND {
            self.transfer_started()
        } else if event == I2C_FINISH {
            self.transfer_ended()
        } else {
            self
        }
    }

    /// The state after a bus reset: no command waits, no parameters are
    /// held, and the addressing mode is page addressing.
    pub open spec fn reset(self) -> DisplayModel {
        DisplayModel {
            in_command: false,
            parameters: Seq::empty(),
            memory_addressing_mode: MemoryAddressingMode::Page,
            ..self
        }
    }
}

/// The pixel at column `x` of row `y`: opaque white where the bit of
/// display RAM is set, opaque black where it is clear.
pub open spec fn pixel_at(gddram: Seq<u8>, x: int, y: int) -> u32 {
    if (gddram[(y / 8) * 128 + x] >> ((y % 8) as u8)) & 1u8 == 1u8 {
        PIXEL_ON
    } else {
        PIXEL_OFF
    }
}

/// The picture that display RAM holds, row after row, one 32-bit ARGB word
/// for each pixel.
pub open spec fn frame_of(gddram: Seq<u8>) -> Seq<u32> {
    Seq::new((WIDTH * HEIGHT) as nat, |i: int| pixel_at(gddram, i % 128, i / 128))
}

/// A lit pixel: opaque white.
pub const PIXEL_ON: u32 = 0xFFFF_FFFF;

/// A dark pixel: opaque black.
pub const PIXEL_OFF: u32 = 0xFF00_0000;

} // verus!
