use ssd1306_twi::twi_i2c::device::i2c_start_transfer;
use ssd1306_twi::twi_i2c::device::BusAction;
use ssd1306_twi::twi_i2c::device::TWIState;
use ssd1306_twi::twi_i2c::device::READ_SENTINEL;
use ssd1306_twi::twi_i2c::registers::TWIRegisters;
use ssd1306_twi::twi_i2c::registers::TWCR;

const TWINT: u8 = 0x80;
const TWEA: u8 = 0x40;
const TWSTA: u8 = 0x20;
const TWSTO: u8 = 0x10;
const TWEN: u8 = 0x04;
const TWIE: u8 = 0x01;

/// A controller that has been granted a START.
fn started() -> TWIState {
    let mut twi = TWIState::new();
    assert_eq!(twi.write(4, TWINT | TWSTA | TWEN), BusAction::RaiseIrq);
    twi
}

/// A controller in the data phase of a write transfer to address 0x3d.
fn addressed() -> TWIState {
    let mut twi = started();
    assert_eq!(twi.write(3, 0x3d << 1), BusAction::StartTransfer { address: 0x3d, is_recv: false });
    twi.start_transfer_done(Ok(()));
    twi
}

#[test]
fn power_on_state() {
    let mut twi = TWIState::new();
    assert_eq!(twi.registers, TWIRegisters::new());
    assert_eq!(twi.enabled, false);
    assert_eq!(twi.ack_failed_start, false);
    assert_eq!(twi.read(1, 4), 0xF8);
    assert_eq!(twi.read(4, 4), 0x00);
}

#[test]
fn reads_answer_for_status_and_control_only() {
    let mut twi = addressed();
    let before = twi;
    assert_eq!(twi.read(1, 4), 0x18);
    assert_eq!(twi.read(4, 4), u64::from(u8::from(twi.registers.twcr)));
    assert_eq!(twi.read(4, 1), (TWINT | TWEN) as u64);
    for offset in [0u64, 2, 3, 5, 6, 100, u64::MAX] {
        assert_eq!(twi.read(offset, 4), 0xFF);
        assert_eq!(twi.read(offset, 4), READ_SENTINEL);
    }
    assert_eq!(twi, before);
}

#[test]
fn start_request_opens_a_transaction() {
    let mut twi = TWIState::new();
    assert_eq!(twi.registers.in_transaction, false);
    let action = twi.write(4, TWINT | TWSTA | TWEN);
    assert_eq!(action, BusAction::RaiseIrq);
    assert_eq!(twi.read(1, 4), 0x08);
    assert_eq!(twi.registers.in_transaction, true);
    assert_eq!(twi.registers.twcr.twsta, true);
    assert_eq!(twi.registers.twcr.twint, true);
    assert_eq!(twi.registers.twcr.twen, true);
    assert_eq!(twi.enabled, true);
    // Bits that are neither TWINT nor TWSTA are not kept.
    let mut twi = TWIState::new();
    assert_eq!(twi.write(4, TWINT | TWSTA | TWEN | TWEA | TWIE), BusAction::RaiseIrq);
    assert_eq!(twi.registers.twcr, TWCR::from(TWINT | TWSTA | TWEN));
}

#[test]
fn start_request_with_stop_is_a_stop() {
    let mut twi = TWIState::new();
    assert_eq!(twi.write(4, TWINT | TWSTA | TWSTO | TWEN), BusAction::EndTransfer);
    assert_eq!(twi.registers.in_transaction, false);
    assert_eq!(twi.read(1, 4), 0xF8);
    assert_eq!(twi.registers.twcr.twint, false);
    assert_eq!(twi.registers.twcr.twsta, true);
}

#[test]
fn start_request_inside_a_transaction_keeps_the_status() {
    let mut twi = addressed();
    assert_eq!(twi.read(1, 4), 0x18);
    assert_eq!(twi.write(4, TWINT | TWSTA | TWEN), BusAction::RaiseIrq);
    assert_eq!(twi.read(1, 4), 0x18);
    assert_eq!(twi.registers.in_transaction, true);
    assert_eq!(twi.registers.twcr.twsta, true);
}

#[test]
fn control_write_without_interrupt_flag_or_enable_does_no_work() {
    let mut twi = TWIState::new();
    assert_eq!(twi.write(4, TWEN), BusAction::Idle);
    assert_eq!(twi.enabled, true);
    assert_eq!(twi.registers.twcr, TWCR::from(0));
    assert_eq!(twi.registers.in_transaction, false);
    assert_eq!(twi.write(4, TWINT), BusAction::Idle);
    assert_eq!(twi.enabled, false);
    assert_eq!(twi.registers.twcr, TWCR::from(TWINT));
    assert_eq!(twi.write(4, TWSTA), BusAction::Idle);
    assert_eq!(twi.registers.twcr, TWCR::from(TWSTA));
    // TWSTA stays latched when a later write does not carry it.
    assert_eq!(twi.write(4, 0), BusAction::Idle);
    assert_eq!(twi.registers.twcr, TWCR::from(TWSTA));
    assert_eq!(twi.read(1, 4), 0xF8);
}

#[test]
fn control_write_without_start_opens_a_transaction_too() {
    let mut twi = TWIState::new();
    assert_eq!(twi.write(4, TWINT | TWEN), BusAction::RaiseIrq);
    assert_eq!(twi.registers.in_transaction, true);
    assert_eq!(twi.read(1, 4), 0x08);
    assert_eq!(twi.registers.twcr, TWCR::from(TWINT | TWEN));
}

#[test]
fn address_byte_starts_a_write_transfer() {
    let mut twi = started();
    let action = twi.write(3, (0x3d << 1) | 0);
    assert_eq!(action, BusAction::StartTransfer { address: 0x3d, is_recv: false });
    assert_eq!(twi.registers.twcr.twsta, false);
    assert_eq!(u8::from(twi.registers.twdr), 0x7a);
    // The status waits for the bus.
    assert_eq!(twi.read(1, 4), 0x08);
    twi.start_transfer_done(Ok(()));
    assert_eq!(twi.read(1, 4), 0x18);
}

#[test]
fn address_byte_with_read_bit_starts_a_read_transfer() {
    let mut twi = started();
    let action = twi.write(3, (0x50 << 1) | 1);
    assert_eq!(action, BusAction::StartTransfer { address: 0x50, is_recv: true });
    twi.start_transfer_done(Ok(()));
    assert_eq!(twi.read(1, 4), 0x40);
}

#[test]
fn every_address_reaches_the_bus_unchanged() {
    for address in 0u8..128 {
        for is_recv in [false, true] {
            let mut twi = started();
            let action = twi.write(3, (address << 1) | is_recv as u8);
            assert_eq!(action, BusAction::StartTransfer { address, is_recv });
        }
    }
}

#[test]
fn failed_start_is_reported_as_nack() {
    let mut twi = started();
    twi.write(3, 0x3d << 1);
    twi.start_transfer_done(Err(()));
    assert_eq!(twi.read(1, 4), 0x20);
    let mut twi = started();
    twi.write(3, (0x3d << 1) | 1);
    twi.start_transfer_done(Err(()));
    assert_eq!(twi.read(1, 4), 0x48);
}

#[test]
fn failed_start_is_reported_as_ack_where_asked_for() {
    let mut twi = started();
    twi.ack_failed_start = true;
    twi.write(3, 0x3d << 1);
    twi.start_transfer_done(Err(()));
    assert_eq!(twi.read(1, 4), 0x18);
    let mut twi = started();
    twi.ack_failed_start = true;
    twi.write(3, (0x3d << 1) | 1);
    twi.start_transfer_done(i2c_start_transfer(1));
    assert_eq!(twi.read(1, 4), 0x40);
}

#[test]
fn start_transfer_codes() {
    assert_eq!(i2c_start_transfer(0), Ok(()));
    assert_eq!(i2c_start_transfer(1), Err(()));
    assert_eq!(i2c_start_transfer(i32::MAX), Err(()));
    assert_eq!(i2c_start_transfer(-1), Ok(()));
    assert_eq!(i2c_start_transfer(i32::MIN), Ok(()));
}

#[test]
fn data_byte_is_sent_and_its_answer_kept() {
    let mut twi = addressed();
    assert_eq!(twi.write(3, 0xab), BusAction::Send { data: 0xab });
    assert_eq!(u8::from(twi.registers.twdr), 0xab);
    assert_eq!(twi.read(1, 4), 0x18);
    twi.send_done(0);
    assert_eq!(twi.read(1, 4), 0x28);
    assert_eq!(twi.write(3, 0x00), BusAction::Send { data: 0x00 });
    twi.send_done(1);
    assert_eq!(twi.read(1, 4), 0x30);
    twi.send_done(-1);
    assert_eq!(twi.read(1, 4), 0x30);
    twi.send_done(0);
    assert_eq!(twi.read(1, 4), 0x28);
    assert_eq!(twi.registers.in_transaction, true);
}

#[test]
fn data_write_with_interrupt_flag_low_collides() {
    let mut twi = TWIState::new();
    assert_eq!(twi.registers.twcr.twint, false);
    assert_eq!(twi.write(3, 0x55), BusAction::Idle);
    assert_eq!(twi.registers.twcr, TWCR::from(0x08));
    assert_eq!(u8::from(twi.registers.twdr), 0x55);
    assert_eq!(twi.read(1, 4), 0xF8);
    assert_eq!(twi.registers.in_transaction, false);
    // A latched START is not consumed by a colliding write.
    assert_eq!(twi.write(4, TWSTA), BusAction::Idle);
    assert_eq!(twi.write(3, 0x7a), BusAction::Idle);
    assert_eq!(twi.registers.twcr.twsta, true);
    assert_eq!(twi.registers.twcr.twwc, true);
}

#[test]
fn stop_request_ends_the_transaction() {
    let mut twi = addressed();
    assert_eq!(twi.registers.in_transaction, true);
    assert_eq!(twi.write(4, TWINT | TWSTO | TWEN), BusAction::EndTransfer);
    assert_eq!(twi.registers.in_transaction, false);
    assert_eq!(twi.registers.twcr.twsto, false);
    assert_eq!(twi.registers.twcr.twint, false);
    assert_eq!(twi.enabled, true);
    assert_eq!(twi.read(1, 4), 0x18);
    // TWSTO alone stops too.
    let mut twi = addressed();
    assert_eq!(twi.write(4, TWSTO), BusAction::EndTransfer);
    assert_eq!(twi.registers.in_transaction, false);
    assert_eq!(twi.registers.twcr.twsto, false);
    assert_eq!(twi.registers.twcr.twint, false);
    assert_eq!(twi.enabled, false);
    // After a STOP the next START is granted again.
    assert_eq!(twi.write(4, TWINT | TWSTA | TWEN), BusAction::RaiseIrq);
    assert_eq!(twi.read(1, 4), 0x08);
    assert_eq!(twi.registers.in_transaction, true);
}

#[test]
fn writes_to_bit_rate_and_status_are_dropped() {
    let mut twi = addressed();
    let before = twi;
    assert_eq!(twi.write(0, 0x48), BusAction::Idle);
    assert_eq!(twi, before);
    assert_eq!(twi.write(1, 0x03), BusAction::Idle);
    assert_eq!(twi, before);
    assert_eq!(twi.read(1, 4), 0x18);
}

#[test]
fn write_to_address_register_is_kept() {
    let mut twi = TWIState::new();
    assert_eq!(twi.write(2, 0x7b), BusAction::Idle);
    assert_eq!(u8::from(twi.registers.twar), 0x7b);
    assert_eq!(u8::from(twi.registers.twar) >> 1, 0x3d);
    assert_eq!(twi.registers.twar.twgce, true);
    let others = TWIRegisters { twar: TWIRegisters::new().twar, ..twi.registers };
    assert_eq!(others, TWIRegisters::new());
}

#[test]
fn write_to_no_register_does_nothing() {
    for offset in [5u64, 6, 7, 255, u64::MAX] {
        let mut twi = addressed();
        let before = twi;
        assert_eq!(twi.write(offset, 0xff), BusAction::Idle);
        assert_eq!(twi, before);
    }
}

#[test]
fn reset_restores_the_registers() {
    let mut twi = addressed();
    twi.ack_failed_start = true;
    twi.write(2, 0x10);
    twi.reset_hold();
    assert_eq!(twi.registers, TWIRegisters::new());
    assert_eq!(twi.read(1, 4), 0xF8);
    assert_eq!(twi.read(4, 4), 0x00);
    assert_eq!(twi.registers.in_transaction, false);
    assert_eq!(twi.enabled, true);
    assert_eq!(twi.ack_failed_start, true);
}

#[test]
fn status_is_set_as_a_whole_byte() {
    let mut twi = TWIState::new();
    twi.set_status(0x28);
    assert_eq!(twi.read(1, 4), 0x28);
    assert_eq!(twi.registers.twsr.status, 5);
    twi.set_status(0xfb);
    assert_eq!(twi.read(1, 4), 0xfb);
    assert_eq!(twi.registers.twsr.twps0, true);
    assert_eq!(twi.registers.twsr.twps1, true);
    assert_eq!(twi.registers.twsr.status, 31);
}

#[test]
fn start_condition_by_itself() {
    let mut twi = TWIState::new();
    twi._start();
    assert_eq!(twi.registers.in_transaction, true);
    assert_eq!(twi.read(1, 4), 0x08);
    assert_eq!(twi.registers.twcr, TWCR::from(TWEN));
    assert_eq!(twi.enabled, false);
}

#[test]
fn whole_write_transaction() {
    let mut twi = TWIState::new();
    let mut bus = Vec::new();
    let mut irqs = 0;
    let mut perform = |twi: &mut TWIState, action: BusAction| match action {
        BusAction::Idle => {}
        BusAction::RaiseIrq => irqs += 1,
        BusAction::StartTransfer { address, is_recv } => {
            bus.push(format!("start {:#x} {}", address, is_recv));
            twi.start_transfer_done(i2c_start_transfer(0));
        }
        BusAction::Send { data } => {
            bus.push(format!("send {:#x}", data));
            twi.send_done(0);
        }
        BusAction::EndTransfer => bus.push(format!("end")),
    };
    let a = twi.write(4, TWINT | TWSTA | TWEN);
    perform(&mut twi, a);
    assert_eq!(twi.read(1, 4), 0x08);
    let a = twi.write(3, 0x3d << 1);
    perform(&mut twi, a);
    assert_eq!(twi.read(1, 4), 0x18);
    let a = twi.write(4, TWINT | TWEN);
    perform(&mut twi, a);
    let a = twi.write(3, 0x00);
    perform(&mut twi, a);
    assert_eq!(twi.read(1, 4), 0x28);
    let a = twi.write(4, TWINT | TWEN);
    perform(&mut twi, a);
    let a = twi.write(3, 0xaf);
    perform(&mut twi, a);
    assert_eq!(twi.read(1, 4), 0x28);
    let a = twi.write(4, TWINT | TWSTO | TWEN);
    perform(&mut twi, a);
    assert_eq!(twi.registers.in_transaction, false);
    assert_eq!(bus, vec!["start 0x3d false", "send 0x0", "send 0xaf", "end"]);
    assert_eq!(irqs, 3);
}
