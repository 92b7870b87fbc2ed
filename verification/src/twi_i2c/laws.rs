//! What holds of the controller across register writes.
use crate::twi_i2c::device::BusAction;
use crate::twi_i2c::device::TWIState;
use crate::twi_i2c::registers::TWCR;
use crate::twi_i2c::registers::TWDR;
use crate::twi_i2c::registers::TWSR;
use crate::twi_i2c::registers::TW_MR_SLA_ACK;
use crate::twi_i2c::registers::TW_MR_SLA_NACK;
use crate::twi_i2c::registers::TW_MT_DATA_ACK;
use crate::twi_i2c::registers::TW_MT_DATA_NACK;
use crate::twi_i2c::registers::TW_MT_SLA_ACK;
use crate::twi_i2c::registers::TW_MT_SLA_NACK;
use crate::twi_i2c::registers::TW_START;
use vstd::prelude::*;

verus! {

/// Whether the byte `data`, written to TWCR, asks for a START that can
/// complete: TWSTA, TWINT and TWEN set, TWSTO clear.
pub open spec fn requests_start(data: u8) -> bool {
    let r = TWCR::of_byte(data);
    r.twsta && r.twint && r.twen && !r.twsto
}

/// After any status code has been set, a read of TWSR returns that code.
pub proof fn lemma_status_reads_back(s: TWIState, status: u8)
    ensures
        s.with_status(status).read_value(1) == status,
        s.with_status(status).registers.twsr.byte() == status,
{
    TWSR::lemma_byte_round_trip(status);
}

/// Writing TWCR with TWSTA, TWINT and TWEN set and TWSTO clear, outside a
/// transaction, opens a transaction, sets the status to `TW_START`, leaves
/// TWSTA latched and TWINT set, and asks the host to raise the interrupt.
pub proof fn lemma_start_request(s: TWIState, data: u8)
    requires
        !s.registers.in_transaction,
        requests_start(data),
    ensures
        s.after_write(4, data).registers.in_transaction,
        s.after_write(4, data).registers.twsr.byte() == TW_START,
        s.after_write(4, data).read_value(1) == 0x08,
        s.after_write(4, data).registers.twcr.twsta,
        s.after_write(4, data).registers.twcr.twint,
        s.after_write(4, data).registers.twcr.twen,
        s.after_write(4, data).enabled,
        s.write_action(4, data) == BusAction::RaiseIrq,
{
    TWSR::lemma_byte_round_trip(TW_START);
}

/// Inside a transaction the same write changes neither the status nor the
/// transaction, and still raises the interrupt with TWINT set.
pub proof fn lemma_start_request_in_transaction(s: TWIState, data: u8)
    requires
        s.registers.in_transaction,
        requests_start(data),
    ensures
        s.after_write(4, data).registers.in_transaction,
        s.after_write(4, data).registers.twsr == s.registers.twsr,
        s.after_write(4, data).registers.twcr.twint,
        s.write_action(4, data) == BusAction::RaiseIrq,
{
}

/// After a granted START, writing `address << 1` to TWDR asks the host to
/// start a write transfer to `address` and consumes the START request; once
/// the bus reports success the status is `TW_MT_SLA_ACK`, and with bit 0
/// set the transfer is a read and the status `TW_MR_SLA_ACK`.
pub proof fn lemma_address_phase(s: TWIState, control: u8, address: u8, is_recv: bool)
    requires
        !s.registers.in_transaction,
        requests_start(control),
        address < 128,
    ensures
        ({
            let byte = ((address << 1u8) | (if is_recv { 1u8 } else { 0u8 }));
            let started = s.after_write(4, control);
            let addressed = started.after_write(3, byte);
            &&& started.write_action(3, byte) == BusAction::StartTransfer { address, is_recv }
            &&& !addressed.registers.twcr.twsta
            &&& addressed.registers.twdr.byte() == byte
            &&& addressed.after_start_transfer(Ok(())).registers.twsr.byte() == (if is_recv {
                TW_MR_SLA_ACK
            } else {
                TW_MT_SLA_ACK
            })
            &&& !is_recv ==> addressed.after_start_transfer(Ok(())).read_value(1) == 0x18
        }),
{
    let low: u8 = if is_recv { 1u8 } else { 0u8 };
    let byte = ((address << 1u8) | low);
    assert(byte >> 1u8 == address && ((byte >> 0u8) & 1u8 == 1u8) == (low == 1u8)) by (bit_vector)
        requires
            address < 128,
            low == 0u8 || low == 1u8,
            byte == ((address << 1u8) | low),
    ;
    TWDR::lemma_byte_round_trip(byte);
    TWSR::lemma_byte_round_trip(TW_MR_SLA_ACK);
    TWSR::lemma_byte_round_trip(TW_MT_SLA_ACK);
}

/// A start-transfer that fails is reported with the NACK status of its
/// direction, unless `ack_failed_start` is set: then with the ACK status.
pub proof fn lemma_failed_start(s: TWIState)
    ensures
        s.after_start_transfer(Err(())).registers.twsr.byte() == (if s.registers.twdr.twd0 {
            if s.ack_failed_start {
                TW_MR_SLA_ACK
            } else {
                TW_MR_SLA_NACK
            }
        } else {
            if s.ack_failed_start {
                TW_MT_SLA_ACK
            } else {
                TW_MT_SLA_NACK
            }
        }),
{
    TWSR::lemma_byte_round_trip(TW_MR_SLA_ACK);
    TWSR::lemma_byte_round_trip(TW_MR_SLA_NACK);
    TWSR::lemma_byte_round_trip(TW_MT_SLA_ACK);
    TWSR::lemma_byte_round_trip(TW_MT_SLA_NACK);
}

/// With TWINT set and no START latched, a byte written to TWDR is sent as
/// it is, and the bus's return code decides between `TW_MT_DATA_ACK` (code
/// 0) and `TW_MT_DATA_NACK`.
pub proof fn lemma_data_phase(s: TWIState, data: u8, code: i32)
    requires
        s.registers.twcr.twint,
        !s.registers.twcr.twsta,
    ensures
        s.write_action(3, data) == (BusAction::Send { data }),
        s.after_write(3, data).registers.twcr == s.registers.twcr,
        s.after_write(3, data).registers.twsr == s.registers.twsr,
        s.after_write(3, data).after_send(code).registers.twsr.byte() == (if code == 0 {
            TW_MT_DATA_ACK
        } else {
            TW_MT_DATA_NACK
        }),
{
    TWDR::lemma_byte_round_trip(data);
    TWSR::lemma_byte_round_trip(TW_MT_DATA_ACK);
    TWSR::lemma_byte_round_trip(TW_MT_DATA_NACK);
}

/// While TWINT is low, a write to TWDR stores the byte, sets TWWC, and has
/// no other effect: nothing goes to the bus.
pub proof fn lemma_write_collision(s: TWIState, data: u8)
    requires
        !s.registers.twcr.twint,
    ensures
        s.write_action(3, data) == BusAction::Idle,
        s.after_write(3, data) == (TWIState {
            registers: crate::twi_i2c::registers::TWIRegisters {
                twdr: TWDR::of_byte(data),
                twcr: TWCR { twwc: true, ..s.registers.twcr },
                ..s.registers
            },
            ..s
        }),
{
}

/// Writing TWCR with TWSTO set asks the host to end the transfer, closes
/// the transaction and leaves TWSTO and TWINT clear, whatever the other
/// bits of the byte are.
pub proof fn lemma_stop_request(s: TWIState, data: u8)
    requires
        TWCR::of_byte(data).twsto,
    ensures
        s.write_action(4, data) == BusAction::EndTransfer,
        !s.after_write(4, data).registers.in_transaction,
        !s.after_write(4, data).registers.twcr.twsto,
        !s.after_write(4, data).registers.twcr.twint,
        s.after_write(4, data).registers.twsr == s.registers.twsr,
{
}

/// The status register changes only when a transaction opens or when the
/// bus answers: a write to any register leaves it as it was unless the
/// write is to TWCR and opens a transaction.
pub proof fn lemma_status_changes_only_on_start(s: TWIState, address: u64, data: u8)
    ensures
        s.after_write(address, data).registers.twsr != s.registers.twsr ==> address == 4
            && !s.registers.in_transaction && s.after_write(address, data).registers.in_transaction,
{
}

/// A transaction is open after a write exactly when the write opened one,
/// or when one was open and the write was no STOP request.
pub proof fn lemma_transaction_tracks_start_and_stop(s: TWIState, address: u64, data: u8)
    ensures
        s.after_write(address, data).registers.in_transaction == (if address == 4 {
            let r = TWCR::of_byte(data);
            !r.twsto && (s.registers.in_transaction || (r.twint && r.twen))
        } else {
            s.registers.in_transaction
        }),
{
}

} // verus!
