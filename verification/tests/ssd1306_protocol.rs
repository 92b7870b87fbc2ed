use ssd1306_twi::i2cslave::I2CSlaveImpl;
use ssd1306_twi::ssd1306::device::SSD1306State;
use ssd1306_twi::ssd1306::model::DataMode;
use ssd1306_twi::ssd1306::model::MemoryAddressingMode;
use ssd1306_twi::ssd1306::model::ProtocolError;
use ssd1306_twi::ssd1306::model::I2C_FINISH;
use ssd1306_twi::ssd1306::model::I2C_START_SEND;

/// A controller at the start of a command transfer, its control byte taken.
fn in_command_transfer() -> SSD1306State {
    let mut ssd1306 = SSD1306State::new();
    assert_eq!(ssd1306.i2c_event(I2C_START_SEND), 0);
    assert_eq!(ssd1306.i2c_send(0x00), 0);
    ssd1306
}

/// Sends the bytes as one command transfer and returns what the command met
/// when it ran: at its last parameter, or at the end of the transfer.
fn run(ssd1306: &mut SSD1306State, bytes: &[u8]) -> Result<(), ProtocolError> {
    ssd1306.transfer_started();
    assert_eq!(ssd1306.receive_byte(0x00), Ok(()));
    let mut last = Ok(());
    for b in bytes {
        last = ssd1306.receive_byte(*b);
    }
    let waiting = ssd1306.in_command();
    let ended = ssd1306.transfer_ended();
    if waiting {
        ended
    } else {
        last
    }
}

/// Drives a slave through its hooks alone.
fn drive<S: I2CSlaveImpl>(slave: &mut S) -> (i32, i32, i32, u8) {
    let started = slave.event(1);
    let control = slave.send(0x00);
    let opcode = slave.send(0xaf);
    (started, control, opcode, slave.recv())
}

#[test]
fn it_collects_command_parameters() {
    let mut ssd1306 = in_command_transfer();

    ssd1306.i2c_send(0x26); // A command that expects 6 parameters
    assert_eq!(ssd1306.command(), 0x26);
    assert_eq!(ssd1306.parameters().len(), 0);

    ssd1306.i2c_send(2);
    ssd1306.i2c_send(3);
    ssd1306.i2c_send(4);
    assert_eq!(ssd1306.in_command(), true); // we haven't sent all 6 params yet
    ssd1306.i2c_send(5);
    ssd1306.i2c_send(6);
    ssd1306.i2c_send(7);
    assert_eq!(ssd1306.in_command(), false); // all command parameters were sent.
    assert_eq!(ssd1306.parameters().len(), 6);
    assert_eq!(ssd1306.parameters()[..5], [2, 3, 4, 5, 6]);
    assert_eq!(*ssd1306.parameters(), [2, 3, 4, 5, 6, 7]);

    ssd1306.i2c_send(0x81);
    assert_eq!(ssd1306.in_command(), true); // the one parameter is still missing
    ssd1306.i2c_send(1);
    assert_eq!(ssd1306.in_command(), false);
    assert_eq!(ssd1306.parameters().len(), 1);
    assert_eq!(*ssd1306.parameters(), [1]);
}

/// If the transmission ends before all params are sent, then the command is
/// considered received and should run with what we have.
#[test]
fn it_collects_command_parameters_even_if_transmission_ends() {
    let mut ssd1306 = in_command_transfer();

    ssd1306.i2c_send(0x26); // one of the commands that expect 6 parameters
    assert_eq!(ssd1306.command(), 0x26);
    assert_eq!(ssd1306.parameters().len(), 0);

    ssd1306.i2c_send(2);
    ssd1306.i2c_send(3);
    ssd1306.i2c_send(4);
    assert_eq!(ssd1306.in_command(), true); // we haven't sent all 6 params yet
    assert_eq!(ssd1306.i2c_event(I2C_FINISH), 0);

    assert_eq!(ssd1306.in_command(), false);
    assert_eq!(ssd1306.parameters().len(), 3);
    assert_eq!(*ssd1306.parameters(), [2, 3, 4]);
}

#[test]
fn command_0x26_with_five_parameters_runs_at_transfer_end() {
    let mut ssd1306 = in_command_transfer();
    for b in [0x26u8, 2, 3, 4, 5, 6] {
        assert_eq!(ssd1306.i2c_send(b), 0);
    }
    // 0x26 expects six parameters: with five it still waits.
    assert_eq!(ssd1306.in_command(), true);
    assert_eq!(ssd1306.params_number(), 6);
    assert_eq!(ssd1306.transfer_ended(), Err(ProtocolError::UnknownCommand));
    assert_eq!(*ssd1306.parameters(), [2, 3, 4, 5, 6]);
    assert_eq!(ssd1306.command(), 0x26);
    assert_eq!(ssd1306.in_command(), false);
}

#[test]
fn command_0x26_with_three_parameters_runs_at_transfer_end() {
    let mut ssd1306 = in_command_transfer();
    for b in [0x26u8, 2, 3, 4] {
        assert_eq!(ssd1306.receive_byte(b), Ok(()));
    }
    assert_eq!(ssd1306.transfer_ended(), Err(ProtocolError::UnknownCommand));
    assert_eq!(*ssd1306.parameters(), [2, 3, 4]);
    assert_eq!(ssd1306.in_command(), false);
}

#[test]
fn every_opcode_collects_exactly_its_parameters() {
    for opcode in 0u8..=255 {
        let mut ssd1306 = in_command_transfer();
        ssd1306.i2c_send(opcode);
        assert_eq!(ssd1306.command(), opcode);
        let n = ssd1306.get_number_of_parameters();
        assert_eq!(ssd1306.params_number(), n);
        for k in 0..n {
            assert_eq!(ssd1306.in_command(), true);
            assert_eq!(ssd1306.parameters().len(), k);
            ssd1306.i2c_send(k as u8 + 10);
        }
        assert_eq!(ssd1306.in_command(), false);
        assert_eq!(ssd1306.parameters().len(), n);
        for k in 0..n {
            assert_eq!(ssd1306.parameters()[k], k as u8 + 10);
        }
    }
}

#[test]
fn every_opcode_runs_on_fewer_parameters_at_transfer_end() {
    for opcode in 0u8..=255 {
        let mut probe = in_command_transfer();
        probe.i2c_send(opcode);
        let n = probe.get_number_of_parameters();
        for fewer in 0..n {
            let mut ssd1306 = in_command_transfer();
            ssd1306.i2c_send(opcode);
            for k in 0..fewer {
                ssd1306.i2c_send(k as u8 + 1);
            }
            assert_eq!(ssd1306.in_command(), true);
            ssd1306.i2c_event(I2C_FINISH);
            assert_eq!(ssd1306.in_command(), false);
            assert_eq!(ssd1306.command(), opcode);
            assert_eq!(ssd1306.parameters().len(), fewer);
            for k in 0..fewer {
                assert_eq!(ssd1306.parameters()[k], k as u8 + 1);
            }
        }
    }
}

#[test]
fn parameter_counts_follow_the_table() {
    let expected = |opcode: u8| -> usize {
        match opcode {
            0x26 | 0x27 => 6,
            0x29 | 0x2a => 5,
            0xa3 | 0x21 | 0x22 => 2,
            0x81 | 0x01 | 0x20 | 0xd3 | 0xda | 0xd5 | 0xd9 | 0xdb | 0xa8 | 0x8d => 1,
            _ => 0,
        }
    };
    for opcode in 0u8..=255 {
        let mut ssd1306 = in_command_transfer();
        ssd1306.i2c_send(opcode);
        assert_eq!(ssd1306.get_number_of_parameters(), expected(opcode));
    }
    let mut ssd1306 = in_command_transfer();
    ssd1306.i2c_send(0x26);
    assert_eq!(ssd1306.get_number_of_parameters(), 6);
    ssd1306.i2c_event(I2C_FINISH);
    ssd1306.i2c_send(0xae);
    assert_eq!(ssd1306.get_number_of_parameters(), 0);
}

#[test]
fn state_after_attach() {
    let ssd1306 = SSD1306State::new();
    assert_eq!(ssd1306.in_command(), false);
    assert_eq!(ssd1306.parameters().len(), 0);
    assert_eq!(ssd1306.command(), 0);
    assert_eq!(ssd1306.params_number(), 0);
    assert!(ssd1306.gddram().iter().all(|b| *b == 0));
    assert_eq!(ssd1306.gddram().len(), 1024);
    assert_eq!(ssd1306.memory_addressing_mode(), MemoryAddressingMode::Page);
    assert_eq!(ssd1306.column_start_address(), 0);
    assert_eq!(ssd1306.column_end_address(), 0);
    assert_eq!(ssd1306.column_address_pointer(), 0);
    assert_eq!(ssd1306.page_start_address(), 0);
    assert_eq!(ssd1306.page_end_address(), 0);
    assert_eq!(ssd1306.page_address_pointer(), 0);
    assert_eq!(ssd1306.received_dc(), false);
    assert_eq!(ssd1306.display_enabled(), false);
    assert_eq!(ssd1306.multiplex_ratio(), 0);
    assert_eq!(ssd1306.display_offset(), 0);
    assert_eq!(ssd1306.display_start_line(), 0);
    assert_eq!(ssd1306.segment_remap_enabled(), false);
    assert_eq!(ssd1306.com_remap_enabled(), false);
    assert_eq!(ssd1306.force_display_on(), false);
    assert_eq!(ssd1306.display_inverted(), false);
    assert_eq!(ssd1306.data_mode(), DataMode::Command);
}

#[test]
fn control_byte_selects_the_data_mode() {
    for (control, mode) in [
        (0x00u8, DataMode::Command),
        (0x40, DataMode::Data),
        (0x80, DataMode::Command),
        (0xc0, DataMode::Data),
        (0xbf, DataMode::Command),
        (0xff, DataMode::Data),
    ] {
        let mut ssd1306 = SSD1306State::new();
        ssd1306.i2c_event(I2C_START_SEND);
        assert_eq!(ssd1306.received_dc(), false);
        assert_eq!(ssd1306.receive_byte(control), Ok(()));
        assert_eq!(ssd1306.received_dc(), true);
        assert_eq!(ssd1306.data_mode(), mode);
        // The control byte itself is neither a command nor data.
        assert_eq!(ssd1306.command(), 0);
        assert_eq!(ssd1306.in_command(), false);
        assert!(ssd1306.gddram().iter().all(|b| *b == 0));
    }
}

#[test]
fn transfer_start_asks_for_a_new_control_byte() {
    let mut ssd1306 = in_command_transfer();
    assert_eq!(ssd1306.received_dc(), true);
    assert_eq!(ssd1306.i2c_event(I2C_START_SEND), 0);
    assert_eq!(ssd1306.received_dc(), false);
    ssd1306.i2c_send(0x40);
    assert_eq!(ssd1306.data_mode(), DataMode::Data);
}

#[test]
fn other_events_are_ignored() {
    for event in [0u32, 2, 4, 5, 1000] {
        let mut ssd1306 = in_command_transfer();
        ssd1306.i2c_send(0x21);
        ssd1306.i2c_send(9);
        assert_eq!(ssd1306.i2c_event(event), 0);
        assert_eq!(ssd1306.received_dc(), true);
        assert_eq!(ssd1306.in_command(), true);
        assert_eq!(*ssd1306.parameters(), [9]);
    }
}

#[test]
fn addressing_mode_command_selects_by_the_two_low_bits() {
    let mut ssd1306 = SSD1306State::new();
    assert_eq!(run(&mut ssd1306, &[0x20, 0x01]), Ok(()));
    assert_eq!(ssd1306.memory_addressing_mode(), MemoryAddressingMode::Vertical);
    assert_eq!(run(&mut ssd1306, &[0x20, 0x02]), Ok(()));
    assert_eq!(ssd1306.memory_addressing_mode(), MemoryAddressingMode::Page);
    assert_eq!(run(&mut ssd1306, &[0x20, 0x00]), Ok(()));
    assert_eq!(ssd1306.memory_addressing_mode(), MemoryAddressingMode::Horizontal);
    // Only the two low bits count.
    assert_eq!(run(&mut ssd1306, &[0x20, 0xfd]), Ok(()));
    assert_eq!(ssd1306.memory_addressing_mode(), MemoryAddressingMode::Vertical);
    // The value 3 is refused and the mode stays.
    assert_eq!(run(&mut ssd1306, &[0x20, 0x03]), Err(ProtocolError::InvalidValue));
    assert_eq!(ssd1306.memory_addressing_mode(), MemoryAddressingMode::Vertical);
    assert_eq!(run(&mut ssd1306, &[0x20, 0xff]), Err(ProtocolError::InvalidValue));
    assert_eq!(ssd1306.memory_addressing_mode(), MemoryAddressingMode::Vertical);
    // Without its parameter the command changes nothing.
    assert_eq!(run(&mut ssd1306, &[0x20]), Err(ProtocolError::MissingParameter));
    assert_eq!(ssd1306.memory_addressing_mode(), MemoryAddressingMode::Vertical);
}

#[test]
fn multiplex_ratio_outside_its_range_is_refused() {
    let mut ssd1306 = SSD1306State::new();
    assert_eq!(run(&mut ssd1306, &[0xa8, 0x1f]), Ok(()));
    assert_eq!(ssd1306.multiplex_ratio(), 31);
    // 200 & 0x3f is 8, below 16.
    assert_eq!(run(&mut ssd1306, &[0xa8, 200]), Err(ProtocolError::InvalidValue));
    assert_eq!(ssd1306.multiplex_ratio(), 31);
    assert_eq!(run(&mut ssd1306, &[0xa8, 15]), Err(ProtocolError::InvalidValue));
    assert_eq!(ssd1306.multiplex_ratio(), 31);
    assert_eq!(run(&mut ssd1306, &[0xa8, 16]), Ok(()));
    assert_eq!(ssd1306.multiplex_ratio(), 16);
    assert_eq!(run(&mut ssd1306, &[0xa8, 63]), Ok(()));
    assert_eq!(ssd1306.multiplex_ratio(), 63);
    // 0x50 & 0x3f is 16.
    assert_eq!(run(&mut ssd1306, &[0xa8, 0x50]), Ok(()));
    assert_eq!(ssd1306.multiplex_ratio(), 16);
    assert_eq!(run(&mut ssd1306, &[0xa8]), Err(ProtocolError::MissingParameter));
    assert_eq!(ssd1306.multiplex_ratio(), 16);
}

#[test]
fn switches_follow_their_opcodes() {
    let mut ssd1306 = SSD1306State::new();
    assert_eq!(run(&mut ssd1306, &[0xa5]), Ok(()));
    assert_eq!(ssd1306.force_display_on(), true);
    assert_eq!(run(&mut ssd1306, &[0xa4]), Ok(()));
    assert_eq!(ssd1306.force_display_on(), false);
    assert_eq!(run(&mut ssd1306, &[0xa7]), Ok(()));
    assert_eq!(ssd1306.display_inverted(), true);
    assert_eq!(run(&mut ssd1306, &[0xa6]), Ok(()));
    assert_eq!(ssd1306.display_inverted(), false);
    assert_eq!(run(&mut ssd1306, &[0xaf]), Ok(()));
    assert_eq!(ssd1306.display_enabled(), true);
    assert_eq!(run(&mut ssd1306, &[0xae]), Ok(()));
    assert_eq!(ssd1306.display_enabled(), false);
    assert_eq!(run(&mut ssd1306, &[0xa1]), Ok(()));
    assert_eq!(ssd1306.segment_remap_enabled(), true);
    assert_eq!(run(&mut ssd1306, &[0xa0]), Ok(()));
    assert_eq!(ssd1306.segment_remap_enabled(), false);
    assert_eq!(run(&mut ssd1306, &[0xc8]), Ok(()));
    assert_eq!(ssd1306.com_remap_enabled(), true);
    assert_eq!(run(&mut ssd1306, &[0xc0]), Ok(()));
    assert_eq!(ssd1306.com_remap_enabled(), false);
    // A switch leaves the others alone.
    assert_eq!(run(&mut ssd1306, &[0xa5]), Ok(()));
    assert_eq!(run(&mut ssd1306, &[0xaf]), Ok(()));
    assert_eq!(ssd1306.force_display_on(), true);
    assert_eq!(ssd1306.display_inverted(), false);
    assert_eq!(ssd1306.display_enabled(), true);
}

#[test]
fn start_line_and_offset_take_six_bits() {
    let mut ssd1306 = SSD1306State::new();
    assert_eq!(run(&mut ssd1306, &[0x40]), Ok(()));
    assert_eq!(ssd1306.display_start_line(), 0);
    assert_eq!(run(&mut ssd1306, &[0x65]), Ok(()));
    assert_eq!(ssd1306.display_start_line(), 0x25);
    assert_eq!(run(&mut ssd1306, &[0x7f]), Ok(()));
    assert_eq!(ssd1306.display_start_line(), 63);
    assert_eq!(run(&mut ssd1306, &[0xd3, 0x0a]), Ok(()));
    assert_eq!(ssd1306.display_offset(), 10);
    assert_eq!(run(&mut ssd1306, &[0xd3, 0xff]), Ok(()));
    assert_eq!(ssd1306.display_offset(), 63);
    assert_eq!(run(&mut ssd1306, &[0xd3, 0x40]), Ok(()));
    assert_eq!(ssd1306.display_offset(), 0);
    assert_eq!(run(&mut ssd1306, &[0xd3]), Err(ProtocolError::MissingParameter));
    assert_eq!(ssd1306.display_offset(), 0);
    assert_eq!(ssd1306.display_start_line(), 63);
}

#[test]
fn window_commands_take_their_addresses() {
    let mut ssd1306 = SSD1306State::new();
    assert_eq!(run(&mut ssd1306, &[0x20, 0x00]), Ok(()));
    assert_eq!(run(&mut ssd1306, &[0x21, 0x8a, 0xff]), Ok(()));
    assert_eq!(ssd1306.column_start_address(), 10);
    assert_eq!(ssd1306.column_end_address(), 127);
    assert_eq!(run(&mut ssd1306, &[0x22, 0x0a, 0xff]), Ok(()));
    assert_eq!(ssd1306.page_start_address(), 2);
    assert_eq!(ssd1306.page_end_address(), 7);
    // With one parameter the start is taken and the end stays.
    assert_eq!(run(&mut ssd1306, &[0x21, 3]), Err(ProtocolError::MissingParameter));
    assert_eq!(ssd1306.column_start_address(), 3);
    assert_eq!(ssd1306.column_end_address(), 127);
    assert_eq!(run(&mut ssd1306, &[0x22, 1]), Err(ProtocolError::MissingParameter));
    assert_eq!(ssd1306.page_start_address(), 1);
    assert_eq!(ssd1306.page_end_address(), 7);
    assert_eq!(run(&mut ssd1306, &[0x21]), Err(ProtocolError::MissingParameter));
    assert_eq!(ssd1306.column_start_address(), 3);
    // The commands do not move the write pointers.
    assert_eq!(ssd1306.column_address_pointer(), 0);
    assert_eq!(ssd1306.page_address_pointer(), 0);
    // Vertical mode takes them too.
    assert_eq!(run(&mut ssd1306, &[0x20, 0x01]), Ok(()));
    assert_eq!(run(&mut ssd1306, &[0x21, 4, 5]), Ok(()));
    assert_eq!(ssd1306.column_start_address(), 4);
    assert_eq!(ssd1306.column_end_address(), 5);
}

#[test]
fn window_commands_are_refused_in_page_mode() {
    let mut ssd1306 = SSD1306State::new();
    assert_eq!(ssd1306.memory_addressing_mode(), MemoryAddressingMode::Page);
    assert_eq!(run(&mut ssd1306, &[0x21, 1, 2]), Err(ProtocolError::NotAllowedInPageMode));
    assert_eq!(ssd1306.column_start_address(), 0);
    assert_eq!(ssd1306.column_end_address(), 0);
    assert_eq!(run(&mut ssd1306, &[0x22, 1, 2]), Err(ProtocolError::NotAllowedInPageMode));
    assert_eq!(ssd1306.page_start_address(), 0);
    assert_eq!(ssd1306.page_end_address(), 0);
    assert_eq!(run(&mut ssd1306, &[0x21]), Err(ProtocolError::NotAllowedInPageMode));
}

#[test]
fn commands_that_only_check_their_parameter() {
    for opcode in [0x81u8, 0xd5, 0xd9, 0xdb, 0x8d] {
        let mut ssd1306 = SSD1306State::new();
        assert_eq!(run(&mut ssd1306, &[opcode, 0x7f]), Ok(()));
        assert_eq!(run(&mut ssd1306, &[opcode]), Err(ProtocolError::MissingParameter));
        assert_eq!(ssd1306.multiplex_ratio(), 0);
        assert_eq!(ssd1306.display_offset(), 0);
        assert_eq!(ssd1306.memory_addressing_mode(), MemoryAddressingMode::Page);
    }
    let mut ssd1306 = SSD1306State::new();
    assert_eq!(run(&mut ssd1306, &[0xe3]), Ok(()));
    assert_eq!(run(&mut ssd1306, &[0xda, 0x12]), Ok(()));
    assert_eq!(run(&mut ssd1306, &[0xda]), Ok(()));
}

#[test]
fn unknown_opcodes_change_nothing() {
    for bytes in [
        vec![0xffu8],
        vec![0x2e],
        vec![0x2f],
        vec![0xb8],
        vec![0xe4],
        vec![0x26, 0, 0, 0, 0, 0, 0],
        vec![0x27, 0, 0, 0, 0, 0, 0],
        vec![0x29, 0, 0, 0, 0, 0],
        vec![0x2a, 0, 0, 0, 0, 0],
        vec![0xa3, 0, 0],
    ] {
        let mut ssd1306 = SSD1306State::new();
        assert_eq!(run(&mut ssd1306, &bytes), Err(ProtocolError::UnknownCommand));
        assert_eq!(ssd1306.memory_addressing_mode(), MemoryAddressingMode::Page);
        assert_eq!(ssd1306.display_enabled(), false);
        assert_eq!(ssd1306.display_start_line(), 0);
        assert!(ssd1306.gddram().iter().all(|b| *b == 0));
    }
}

#[test]
fn pointer_commands_of_page_mode_are_not_implemented() {
    for opcode in (0x00u8..=0x1f).chain(0xb0..=0xb7) {
        let mut ssd1306 = SSD1306State::new();
        let bytes: Vec<u8> = if opcode == 0x01 { vec![opcode, 0] } else { vec![opcode] };
        assert_eq!(run(&mut ssd1306, &bytes), Err(ProtocolError::NotImplemented));
        assert_eq!(ssd1306.column_address_pointer(), 0);
        assert_eq!(ssd1306.page_address_pointer(), 0);
        assert_eq!(ssd1306.column_start_address(), 0);
        assert_eq!(ssd1306.page_start_address(), 0);
    }
}

#[test]
fn dispatch_runs_the_current_command_again() {
    let mut ssd1306 = in_command_transfer();
    ssd1306.i2c_send(0xa8);
    ssd1306.i2c_send(40);
    assert_eq!(ssd1306.multiplex_ratio(), 40);
    assert_eq!(ssd1306.dispatch(), Ok(()));
    assert_eq!(ssd1306.multiplex_ratio(), 40);
    assert_eq!(ssd1306.command(), 0xa8);
    assert_eq!(*ssd1306.parameters(), [40]);
}

#[test]
fn send_acknowledges_whatever_the_byte_meets() {
    let mut ssd1306 = in_command_transfer();
    assert_eq!(ssd1306.i2c_send(0xff), 0);
    assert_eq!(ssd1306.i2c_send(0x00), 0);
    assert_eq!(ssd1306.i2c_send(0xb3), 0);
    ssd1306.i2c_event(I2C_START_SEND);
    assert_eq!(ssd1306.i2c_send(0x40), 0);
    // Page addressing mode: the write is not implemented, the byte is
    // acknowledged all the same.
    assert_eq!(ssd1306.i2c_send(0x55), 0);
    assert!(ssd1306.gddram().iter().all(|b| *b == 0));
}

#[test]
fn recv_returns_its_fixed_byte() {
    let mut ssd1306 = in_command_transfer();
    ssd1306.i2c_send(0x21);
    assert_eq!(ssd1306.i2c_recv(), b'a');
    assert_eq!(ssd1306.in_command(), true);
    assert_eq!(ssd1306.command(), 0x21);
}

#[test]
fn reset_forgets_the_command_and_goes_back_to_page_mode() {
    let mut ssd1306 = SSD1306State::new();
    assert_eq!(run(&mut ssd1306, &[0x20, 0x00]), Ok(()));
    assert_eq!(run(&mut ssd1306, &[0x21, 1, 9]), Ok(()));
    assert_eq!(run(&mut ssd1306, &[0xaf]), Ok(()));
    ssd1306.transfer_started();
    ssd1306.i2c_send(0x00);
    ssd1306.i2c_send(0x22);
    ssd1306.i2c_send(5);
    assert_eq!(ssd1306.in_command(), true);
    ssd1306.reset_hold();
    assert_eq!(ssd1306.in_command(), false);
    assert_eq!(ssd1306.parameters().len(), 0);
    assert_eq!(ssd1306.memory_addressing_mode(), MemoryAddressingMode::Page);
    // The rest stays.
    assert_eq!(ssd1306.column_start_address(), 1);
    assert_eq!(ssd1306.column_end_address(), 9);
    assert_eq!(ssd1306.display_enabled(), true);
    assert_eq!(ssd1306.command(), 0x22);
    assert_eq!(ssd1306.page_start_address(), 0);
}

#[test]
fn init_restores_the_state_after_attach() {
    let mut ssd1306 = SSD1306State::new();
    assert_eq!(run(&mut ssd1306, &[0x20, 0x00]), Ok(()));
    assert_eq!(run(&mut ssd1306, &[0x21, 1, 9]), Ok(()));
    ssd1306.transfer_started();
    ssd1306.i2c_send(0x40);
    ssd1306.i2c_send(0xaa);
    assert_eq!(ssd1306.gddram()[0], 0xaa);
    ssd1306.init();
    assert_eq!(ssd1306.gddram()[0], 0);
    assert_eq!(ssd1306.memory_addressing_mode(), MemoryAddressingMode::Page);
    assert_eq!(ssd1306.column_end_address(), 0);
    assert_eq!(ssd1306.column_address_pointer(), 0);
    assert_eq!(ssd1306.received_dc(), false);
    assert_eq!(ssd1306.command(), 0);
}

#[test]
fn slave_hooks_are_the_controller_entry_points() {
    let mut ssd1306 = SSD1306State::new();
    assert_eq!(drive(&mut ssd1306), (0, 0, 0, 0x61));
    assert_eq!(ssd1306.display_enabled(), true);
    assert_eq!(ssd1306.command(), 0xaf);
}
