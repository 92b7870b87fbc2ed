//! The executable controller.
//!
//! `SSD1306State` keeps its fields to itself, so that every state a caller
//! can hold is one that the controller can be in: the write pointers always
//! name a byte of display RAM. What a caller sees of the state is its view,
//! a `DisplayModel`, and every operation says how it changes that view.
use crate::ssd1306::model::DataMode;
use crate::ssd1306::model::DisplayModel;
use crate::ssd1306::model::MemoryAddressingMode;
use crate::ssd1306::model::ProtocolError;
use crate::ssd1306::model::frame_of;
use crate::ssd1306::model::number_of_parameters;
use crate::ssd1306::model::pixel_at;
use crate::ssd1306::model::PIXEL_OFF;
use crate::ssd1306::model::PIXEL_ON;
use crate::ssd1306::model::HEIGHT;
use crate::ssd1306::model::WIDTH;
use crate::ssd1306::model::I2C_FINISH;
use crate::ssd1306::model::I2C_START_SEND;
use vstd::prelude::*;

verus! {

/// One SSD1306 controller.
pub struct SSD1306State {
    in_command: bool,
    parameters: Vec<u8>,
    command: u8,
    params_number: usize,
    gddram: [u8; 1024],
    memory_addressing_mode: MemoryAddressingMode,
    column_start_address: u8,
    column_end_address: u8,
    column_address_pointer: u8,
    page_start_address: u8,
    page_end_address: u8,
    page_address_pointer: u8,
    received_dc: bool,
    display_enabled: bool,
    multiplex_ratio: u8,
    display_offset: u8,
    display_start_line: u8,
    segment_remap_enabled: bool,
    com_remap_enabled: bool,
    force_display_on: bool,
    display_inverted: bool,
    data_mode: DataMode,
}

impl View for SSD1306State {
    type V = DisplayModel;

    closed spec fn view(&self) -> DisplayModel {
        DisplayModel {
            in_command: self.in_command,
            parameters: self.parameters@,
            command: self.command,
            params_number: self.params_number as nat,
            gddram: self.gddram@,
            memory_addressing_mode: self.memory_addressing_mode,
            column_start_address: self.column_start_address,
            column_end_address: self.column_end_address,
            column_address_pointer: self.column_address_pointer,
            page_start_address: self.page_start_address,
            page_end_address: self.page_end_address,
            page_address_pointer: self.page_address_pointer,
            received_dc: self.received_dc,
            display_enabled: self.display_enabled,
            multiplex_ratio: self.multiplex_ratio,
            display_offset: self.display_offset,
            display_start_line: self.display_start_line,
            segment_remap_enabled: self.segment_remap_enabled,
            com_remap_enabled: self.com_remap_enabled,
            force_display_on: self.force_display_on,
            display_inverted: self.display_inverted,
            data_mode: self.data_mode,
        }
    }
}

impl SSD1306State {
    #[verifier::type_invariant]
    spec fn well_formed(&self) -> bool {
        self@.wf()
    }

    /// A controller in its state after attach.
    pub fn new() -> (r: SSD1306State)
        ensures
            r@ == DisplayModel::initial(),
            r@.wf(),
    {
        let r = SSD1306State {
            in_command: false,
            parameters: Vec::with_capacity(10),
            command: 0,
            params_number: 0,
            gddram: [0u8; 1024],
            memory_addressing_mode: MemoryAddressingMode::Page,
            column_start_address: 0,
            column_end_address: 0,
            column_address_pointer: 0,
            page_start_address: 0,
            page_end_address: 0,
            page_address_pointer: 0,
            received_dc: false,
            display_enabled: false,
            multiplex_ratio: 0,
            display_offset: 0,
            display_start_line: 0,
            segment_remap_enabled: false,
            com_remap_enabled: false,
            force_display_on: false,
            display_inverted: false,
            data_mode: DataMode::Command,
        };
        assert(r@.gddram =~= DisplayModel::initial().gddram);
        r
    }

    /// Stores `data` in display RAM at the write pointers and moves the
    /// pointers on. Only horizontal addressing mode does so; in the other
    /// two modes nothing changes and the result is `NotImplemented`.
    pub fn write_gddram(&mut self, data: u8) -> (r: Result<(), ProtocolError>)
        ensures
            final(self)@ == old(self)@.write_gddram(data),
            r == old(self)@.write_gddram_result(),
            final(self)@.wf(),
    {
        proof {
            use_type_invariant(&*self);
        }
        match self.memory_addressing_mode {
            MemoryAddressingMode::Horizontal => {
                let column = self.column_address_pointer;
                let page = self.page_address_pointer;
                let index: usize = page as usize * 128 + column as usize;
                let wraps_column = column + 1 > self.column_end_address;
                let next_column: u8 = if wraps_column {
                    self.column_start_address
                } else {
                    column + 1
                };
                let next_page: u8 = if !wraps_column {
                    page
                } else if page + 1 > self.page_end_address {
                    self.page_start_address
                } else {
                    page + 1
                };
                self.gddram[index] = data;
                self.column_address_pointer = next_column;
                self.page_address_pointer = next_page;
                Ok(())
            },
            _ => Err(ProtocolError::NotImplemented),
        }
    }

    /// The number of parameter bytes that the current command expects.
    pub fn get_number_of_parameters(&self) -> (n: usize)
        ensures
            n == number_of_parameters(self@.command),
    {
        match self.command {
            0x81 | 0x1 | 0x20 | 0xd3 | 0xda | 0xd5 | 0xd9 | 0xdb | 0xa8 | 0x8d => 1,
            0x26 | 0x27 => 6,
            0x29 | 0x2a => 5,
            0xa3 | 0x21 | 0x22 => 2,
            _ => 0,
        }
    }

    /// Whether the current command has its first parameter.
    fn has_parameter(&self) -> (r: Result<(), ProtocolError>)
        ensures
            r == (if self@.parameters.len() >= 1 {
                Ok::<(), ProtocolError>(())
            } else {
                Err(ProtocolError::MissingParameter)
            }),
    {
        if self.parameters.len() >= 1 {
            Ok(())
        } else {
            Err(ProtocolError::MissingParameter)
        }
    }

    /// Runs the current command on the parameters received so far.
    ///
    /// A command that lacks a parameter does what it can without it and
    /// says `MissingParameter`. The result names the anomaly, if there is
    /// one; the state changes as `DisplayModel::dispatch` says either way.
    pub fn dispatch(&mut self) -> (r: Result<(), ProtocolError>)
        ensures
            final(self)@ == old(self)@.dispatch(),
            r == old(self)@.dispatch_result(),
            final(self)@.wf(),
    {
        proof {
            use_type_invariant(&*self);
        }
        let c = self.command;
        let r = match c {
            0xa4 => {
                self.force_display_on = false;
                Ok(())
            },
            0xa5 => {
                self.force_display_on = true;
                Ok(())
            },
            0xa6 => {
                self.display_inverted = false;
                Ok(())
            },
            0xa7 => {
                self.display_inverted = true;
                Ok(())
            },
            0xae => {
                self.display_enabled = false;
                Ok(())
            },
            0xaf => {
                self.display_enabled = true;
                Ok(())
            },
            0xa0 => {
                self.segment_remap_enabled = false;
                Ok(())
            },
            0xa1 => {
                self.segment_remap_enabled = true;
                Ok(())
            },
            0xc0 => {
                self.com_remap_enabled = false;
                Ok(())
            },
            0xc8 => {
                self.com_remap_enabled = true;
                Ok(())
            },
            0x00..=0x1f | 0xb0..=0xb7 => Err(ProtocolError::NotImplemented),
            0x20 => self.set_memory_addressing_mode(),
            0x21 => self.set_column_address(),
            0x22 => self.set_page_address(),
            0x40..=0x7f => {
                let line: u8 = c & 0x3f;
                assert(c & 0x3f < 64) by (bit_vector);
                self.display_start_line = line;
                Ok(())
            },
            0xa8 => self.set_multiplex_ratio(),
            0xd3 => self.set_display_offset(),
            0x81 | 0xd5 | 0xd9 | 0xdb | 0x8d => self.has_parameter(),
            0xda | 0xe3 => Ok(()),
            _ => Err(ProtocolError::UnknownCommand),
        };
        proof {
            use_type_invariant(&*self);
        }
        r
    }

    /// Command 0x20: the two low bits of the parameter select the
    /// addressing mode; the value 3 selects none.
    fn set_memory_addressing_mode(&mut self) -> (r: Result<(), ProtocolError>)
        requires
            old(self)@.command == 0x20,
        ensures
            final(self)@ == old(self)@.dispatch(),
            r == old(self)@.dispatch_result(),
    {
        proof {
            use_type_invariant(&*self);
        }
        if self.parameters.len() == 0 {
            return Err(ProtocolError::MissingParameter);
        }
        let bits: u8 = self.parameters[0] & 0x3;
        match bits {
            0x0 => {
                self.memory_addressing_mode = MemoryAddressingMode::Horizontal;
                Ok(())
            },
            0x1 => {
                self.memory_addressing_mode = MemoryAddressingMode::Vertical;
                Ok(())
            },
            0x2 => {
                self.memory_addressing_mode = MemoryAddressingMode::Page;
                Ok(())
            },
            _ => Err(ProtocolError::InvalidValue),
        }
    }

    /// Command 0x21: the parameters are the column start and end address,
    /// seven bits each. Dropped in page addressing mode.
    fn set_column_address(&mut self) -> (r: Result<(), ProtocolError>)
        requires
            old(self)@.command == 0x21,
        ensures
            final(self)@ == old(self)@.dispatch(),
            r == old(self)@.dispatch_result(),
    {
        proof {
            use_type_invariant(&*self);
        }
        if let MemoryAddressingMode::Page = self.memory_addressing_mode {
            return Err(ProtocolError::NotAllowedInPageMode);
        }
        if self.parameters.len() >= 1 {
            let first = self.parameters[0];
            let start: u8 = first & 0x7f;
            assert(first & 0x7f < 128) by (bit_vector);
            self.column_start_address = start;
        }
        if self.parameters.len() >= 2 {
            let second = self.parameters[1];
            let end: u8 = second & 0x7f;
            assert(second & 0x7f < 128) by (bit_vector);
            self.column_end_address = end;
            Ok(())
        } else {
            Err(ProtocolError::MissingParameter)
        }
    }

    /// Command 0x22: the parameters are the page start and end address,
    /// three bits each. Dropped in page addressing mode.
    fn set_page_address(&mut self) -> (r: Result<(), ProtocolError>)
        requires
            old(self)@.command == 0x22,
        ensures
            final(self)@ == old(self)@.dispatch(),
            r == old(self)@.dispatch_result(),
    {
        proof {
            use_type_invariant(&*self);
        }
        if let MemoryAddressingMode::Page = self.memory_addressing_mode {
            return Err(ProtocolError::NotAllowedInPageMode);
        }
        if self.parameters.len() >= 1 {
            let first = self.parameters[0];
            let start: u8 = first & 0x07;
            assert(first & 0x07 < 8) by (bit_vector);
            self.page_start_address = start;
        }
        if self.parameters.len() >= 2 {
            let second = self.parameters[1];
            let end: u8 = second & 0x07;
            assert(second & 0x07 < 8) by (bit_vector);
            self.page_end_address = end;
            Ok(())
        } else {
            Err(ProtocolError::MissingParameter)
        }
    }

    /// Command 0xA8: the six low bits of the parameter are the multiplex
    /// ratio, taken over where they lie between 16 and 63.
    fn set_multiplex_ratio(&mut self) -> (r: Result<(), ProtocolError>)
        requires
            old(self)@.command == 0xa8,
        ensures
            final(self)@ == old(self)@.dispatch(),
            r == old(self)@.dispatch_result(),
    {
        proof {
            use_type_invariant(&*self);
        }
        if self.parameters.len() == 0 {
            return Err(ProtocolError::MissingParameter);
        }
        let ratio: u8 = self.parameters[0] & 0x3f;
        if 16 <= ratio && ratio <= 63 {
            self.multiplex_ratio = ratio;
            Ok(())
        } else {
            Err(ProtocolError::InvalidValue)
        }
    }

    /// Command 0xD3: the six low bits of the parameter are the display
    /// offset.
    fn set_display_offset(&mut self) -> (r: Result<(), ProtocolError>)
        requires
            old(self)@.command == 0xd3,
        ensures
            final(self)@ == old(self)@.dispatch(),
            r == old(self)@.dispatch_result(),
    {
        proof {
            use_type_invariant(&*self);
        }
        if self.parameters.len() == 0 {
            return Err(ProtocolError::MissingParameter);
        }
        let first = self.parameters[0];
        let offset: u8 = first & 0x3f;
        assert(first & 0x3f < 64) by (bit_vector);
        self.display_offset = offset;
        Ok(())
    }

    /// Takes one byte of the current transfer.
    ///
    /// The first byte after a transfer start is the control byte. Every
    /// later byte goes to display RAM in data mode; in command mode it is
    /// an opcode, or a parameter of the command that waits for one, and the
    /// command runs as soon as it has all its parameters. The result names
    /// the anomaly that the byte met, if any.
    pub fn receive_byte(&mut self, data: u8) -> (r: Result<(), ProtocolError>)
        ensures
            final(self)@ == old(self)@.receive(data),
            r == old(self)@.receive_result(data),
            final(self)@.wf(),
    {
        proof {
            use_type_invariant(&*self);
        }
        if !self.received_dc {
            self.received_dc = true;
            self.data_mode = if data & 0b0100_0000 == 0 {
                DataMode::Command
            } else {
                DataMode::Data
            };
            return Ok(());
        }
        if let DataMode::Data = self.data_mode {
            return self.write_gddram(data);
        }
        if self.in_command {
            self.add_parameter(data)
        } else {
            self.begin_command(data)
        }
    }

    /// Takes `parameter` as the next parameter of the command that waits
    /// for one, and runs the command if that was its last.
    fn add_parameter(&mut self, parameter: u8) -> (r: Result<(), ProtocolError>)
        requires
            old(self)@.in_command,
        ensures
            final(self)@ == old(self)@.add_parameter(parameter),
            r == old(self)@.receive_result_of_parameter(parameter),
            final(self)@.wf(),
    {
        proof {
            use_type_invariant(&*self);
        }
        let mut parameters: Vec<u8> = Vec::new();
        core::mem::swap(&mut self.parameters, &mut parameters);
        parameters.push(parameter);
        if parameters.len() == self.params_number {
            self.in_command = false;
            self.parameters = parameters;
            self.dispatch()
        } else {
            self.parameters = parameters;
            Ok(())
        }
    }

    /// Makes `opcode` the current command, and runs it if it expects no
    /// parameter.
    fn begin_command(&mut self, opcode: u8) -> (r: Result<(), ProtocolError>)
        requires
            !old(self)@.in_command,
        ensures
            final(self)@ == old(self)@.begin_command(opcode),
            r == old(self)@.receive_result_of_opcode(opcode),
            final(self)@.wf(),
    {
        proof {
            use_type_invariant(&*self);
        }
        self.parameters = Vec::with_capacity(10);
        self.command = opcode;
        let n = self.get_number_of_parameters();
        self.params_number = n;
        if n == 0 {
            self.dispatch()
        } else {
            self.in_command = true;
            Ok(())
        }
    }

    /// The slave's send hook: takes one byte as `receive_byte` does and
    /// acknowledges it. The controller has no way to refuse a byte, so the
    /// result is 0 whatever the byte met.
    pub fn i2c_send(&mut self, data: u8) -> (ack: i32)
        ensures
            ack == 0,
            final(self)@ == old(self)@.receive(data),
            final(self)@.wf(),
    {
        let _anomaly = self.receive_byte(data);
        0
    }

    /// The slave's receive hook. The controller has nothing to say: every
    /// read returns the byte 0x61 and changes nothing.
    pub fn i2c_recv(&mut self) -> (r: u8)
        ensures
            r == 0x61,
            final(self)@ == old(self)@,
    {
        0x61
    }

    /// A transfer has started: the next byte is the control byte.
    pub fn transfer_started(&mut self)
        ensures
            final(self)@ == old(self)@.transfer_started(),
            final(self)@.wf(),
    {
        proof {
            use_type_invariant(&*self);
        }
        self.received_dc = false;
    }

    /// A transfer has ended: a command that still waits for parameters runs
    /// on those it has. The result names the anomaly of that run, if any.
    pub fn transfer_ended(&mut self) -> (r: Result<(), ProtocolError>)
        ensures
            final(self)@ == old(self)@.transfer_ended(),
            r == old(self)@.transfer_ended_result(),
            final(self)@.wf(),
    {
        proof {
            use_type_invariant(&*self);
        }
        if self.in_command {
            self.in_command = false;
            self.dispatch()
        } else {
            Ok(())
        }
    }

    /// The slave's event hook: `I2C_START_SEND` starts a transfer,
    /// `I2C_FINISH` ends one, and every other event is ignored. The result
    /// is 0 in every case.
    pub fn i2c_event(&mut self, event: u32) -> (r: i32)
        ensures
            r == 0,
            final(self)@ == old(self)@.event(event),
            final(self)@.wf(),
    {
        proof {
            use_type_invariant(&*self);
        }
        if event == I2C_START_SEND {
            self.transfer_started();
        } else if event == I2C_FINISH {
            let _anomaly = self.transfer_ended();
        }
        0
    }

    /// Puts the controller in its state after attach.
    pub fn init(&mut self)
        ensures
            final(self)@ == DisplayModel::initial(),
            final(self)@.wf(),
    {
        *self = SSD1306State::new();
    }

    /// A bus reset: the command interpreter forgets the command it was in
    /// and the addressing mode goes back to page addressing. Display RAM
    /// and the other settings stay.
    pub fn reset_hold(&mut self)
        ensures
            final(self)@ == old(self)@.reset(),
            final(self)@.wf(),
    {
        proof {
            use_type_invariant(&*self);
        }
        self.in_command = false;
        self.parameters = Vec::with_capacity(10);
        self.memory_addressing_mode = MemoryAddressingMode::Page;
    }

    /// Draws display RAM: one 32-bit ARGB word for each of the 128 x 64
    /// pixels, row after row, white where the bit is set and black where it
    /// is clear.
    pub fn update_display(&self) -> (surface: Vec<u32>)
        ensures
            surface@ == frame_of(self@.gddram),
    {
        proof {
            use_type_invariant(self);
        }
        let mut surface: Vec<u32> = Vec::with_capacity(WIDTH * HEIGHT);
        let mut y: usize = 0;
        while y < HEIGHT
            invariant
                y <= HEIGHT,
                surface@.len() == y * WIDTH,
                forall|i: int| 0 <= i < surface@.len() ==> surface@[i] == pixel_at(self.gddram@, i % 128, i / 128),
            decreases HEIGHT - y,
        {
            let page: usize = y / 8;
            let bit_position: usize = y % 8;
            let mut x: usize = 0;
            while x < WIDTH
                invariant
                    y < HEIGHT,
                    x <= WIDTH,
                    page == y / 8,
                    bit_position == y % 8,
                    surface@.len() == y * WIDTH + x,
                    forall|i: int|
                        0 <= i < surface@.len() ==> surface@[i] == pixel_at(self.gddram@, i % 128, i / 128),
                decreases WIDTH - x,
            {
                let byte_index: usize = page * WIDTH + x;
                let pixel_val: u8 = (self.gddram[byte_index] >> (bit_position as u8)) & 1u8;
                let pixel: u32 = if pixel_val == 1u8 {
                    PIXEL_ON
                } else {
                    PIXEL_OFF
                };
                proof {
                    let i = (y * WIDTH + x) as int;
                    assert(i % 128 == x && i / 128 == y);
                }
                surface.push(pixel);
                x = x + 1;
            }
            y = y + 1;
        }
        assert(surface@ =~= frame_of(self@.gddram));
        surface
    }

    /// Whether a command waits for more parameters.
    pub fn in_command(&self) -> (r: bool)
        ensures
            r == self@.in_command,
    {
        self.in_command
    }

    /// The opcode of the current command.
    pub fn command(&self) -> (r: u8)
        ensures
            r == self@.command,
    {
        self.command
    }

    /// The number of parameters that the current command expects.
    pub fn params_number(&self) -> (r: usize)
        ensures
            r == self@.params_number,
    {
        self.params_number
    }

    /// The addressing mode.
    pub fn memory_addressing_mode(&self) -> (r: MemoryAddressingMode)
        ensures
            r == self@.memory_addressing_mode,
    {
        self.memory_addressing_mode
    }

    /// The first column of the column window.
    pub fn column_start_address(&self) -> (r: u8)
        ensures
            r == self@.column_start_address,
    {
        self.column_start_address
    }

    /// The last column of the column window.
    pub fn column_end_address(&self) -> (r: u8)
        ensures
            r == self@.column_end_address,
    {
        self.column_end_address
    }

    /// The column that the next byte of data goes to.
    pub fn column_address_pointer(&self) -> (r: u8)
        ensures
            r == self@.column_address_pointer,
    {
        self.column_address_pointer
    }

    /// The first page of the page window.
    pub fn page_start_address(&self) -> (r: u8)
        ensures
            r == self@.page_start_address,
    {
        self.page_start_address
    }

    /// The last page of the page window.
    pub fn page_end_address(&self) -> (r: u8)
        ensures
            r == self@.page_end_address,
    {
        self.page_end_address
    }

    /// The page that the next byte of data goes to.
    pub fn page_address_pointer(&self) -> (r: u8)
        ensures
            r == self@.page_address_pointer,
    {
        self.page_address_pointer
    }

    /// Whether the control byte of the current transfer has arrived.
    pub fn received_dc(&self) -> (r: bool)
        ensures
            r == self@.received_dc,
    {
        self.received_dc
    }

    /// Whether the display is on.
    pub fn display_enabled(&self) -> (r: bool)
        ensures
            r == self@.display_enabled,
    {
        self.display_enabled
    }

    /// The multiplex ratio.
    pub fn multiplex_ratio(&self) -> (r: u8)
        ensures
            r == self@.multiplex_ratio,
    {
        self.multiplex_ratio
    }

    /// The display offset.
    pub fn display_offset(&self) -> (r: u8)
        ensures
            r == self@.display_offset,
    {
        self.display_offset
    }

    /// The display start line.
    pub fn display_start_line(&self) -> (r: u8)
        ensures
            r == self@.display_start_line,
    {
        self.display_start_line
    }

    /// Whether the segments are remapped.
    pub fn segment_remap_enabled(&self) -> (r: bool)
        ensures
            r == self@.segment_remap_enabled,
    {
        self.segment_remap_enabled
    }

    /// Whether the COM outputs are scanned in reverse.
    pub fn com_remap_enabled(&self) -> (r: bool)
        ensures
            r == self@.com_remap_enabled,
    {
        self.com_remap_enabled
    }

    /// Whether every pixel is forced on.
    pub fn force_display_on(&self) -> (r: bool)
        ensures
            r == self@.force_display_on,
    {
        self.force_display_on
    }

    /// Whether the display is inverted.
    pub fn display_inverted(&self) -> (r: bool)
        ensures
            r == self@.display_inverted,
    {
        self.display_inverted
    }

    /// What the bytes of the current transfer are.
    pub fn data_mode(&self) -> (r: DataMode)
        ensures
            r == self@.data_mode,
    {
        self.data_mode
    }

    /// The parameters received for the current command.
    pub fn parameters(&self) -> (r: &Vec<u8>)
        ensures
            r@ == self@.parameters,
    {
        &self.parameters
    }

    /// Display RAM.
    pub fn gddram(&self) -> (r: &[u8; 1024])
        ensures
            r@ == self@.gddram,
    {
        &self.gddram
    }
}

} // verus!
