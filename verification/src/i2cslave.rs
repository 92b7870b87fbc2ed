//! What a device on the I2C bus offers its bus.
use crate::ssd1306::device::SSD1306State;
use vstd::prelude::*;

verus! {

/// The hooks of an I2C slave: the bus calls them for every byte it moves
/// and for every event of a transfer.
pub trait I2CSlaveImpl {
    /// The master reads a byte from the slave.
    fn recv(&mut self) -> u8;

    /// The master sends `data` to the slave; 0 acknowledges the byte.
    fn send(&mut self, data: u8) -> i32;

    /// The bus reports `event`; 0 accepts it.
    fn event(&mut self, event: u32) -> i32;
}

impl I2CSlaveImpl for SSD1306State {
    fn recv(&mut self) -> (r: u8)
        ensures
            r == 0x61,
            final(self)@ == old(self)@,
    {
        self.i2c_recv()
    }

    fn send(&mut self, data: u8) -> (ack: i32)
        ensures
            ack == 0,
            final(self)@ == old(self)@.receive(data),
            final(self)@.wf(),
    {
        self.i2c_send(data)
    }

    fn event(&mut self, event: u32) -> (r: i32)
        ensures
            r == 0,
            final(self)@ == old(self)@.event(event),
            final(self)@.wf(),
    {
        self.i2c_event(event)
    }
}

} // verus!
