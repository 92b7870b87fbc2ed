//! What holds of the controller across the bytes that it receives.
use crate::ssd1306::model::addressing_mode_of;
use crate::ssd1306::model::multiplex_ratio_in_range;
use crate::ssd1306::model::number_of_parameters;
use crate::ssd1306::model::DataMode;
use crate::ssd1306::model::DisplayModel;
use crate::ssd1306::model::MemoryAddressingMode;
use crate::ssd1306::model::ProtocolError;
use vstd::prelude::*;

verus! {

/// Whether the state takes its next byte as an opcode: the control byte of
/// the transfer said commands, and no command waits for a parameter.
pub open spec fn expects_opcode(m: DisplayModel) -> bool {
    m.received_dc && m.data_mode == DataMode::Command && !m.in_command
}

/// The state in which `opcode` is the current command with the parameters
/// `parameters`, and everything else is as in `m`.
pub open spec fn with_command(m: DisplayModel, opcode: u8, parameters: Seq<u8>, waiting: bool) -> DisplayModel {
    DisplayModel {
        command: opcode,
        parameters: parameters,
        params_number: number_of_parameters(opcode),
        in_command: waiting,
        ..m
    }
}

/// Running a command keeps the state well formed.
pub proof fn lemma_dispatch_keeps_wf(m: DisplayModel)
    requires
        m.wf(),
    ensures
        m.dispatch().wf(),
{
    let c = m.command;
    let p = m.parameters;
    assert(c & 0x3f < 64) by (bit_vector);
    if p.len() >= 1 {
        let a = p[0];
        assert(a & 0x7f < 128 && a & 0x07 < 8 && a & 0x3f < 64) by (bit_vector);
    }
    if p.len() >= 2 {
        let b = p[1];
        assert(b & 0x7f < 128 && b & 0x07 < 8) by (bit_vector);
    }
}

/// Running a command changes neither the command, nor its parameters, nor
/// display RAM, nor the write pointers, nor what the transfer is in.
pub proof fn lemma_dispatch_keeps_command(m: DisplayModel)
    ensures
        m.dispatch().command == m.command,
        m.dispatch().parameters == m.parameters,
        m.dispatch().params_number == m.params_number,
        m.dispatch().in_command == m.in_command,
        m.dispatch().gddram == m.gddram,
        m.dispatch().column_address_pointer == m.column_address_pointer,
        m.dispatch().page_address_pointer == m.page_address_pointer,
        m.dispatch().received_dc == m.received_dc,
        m.dispatch().data_mode == m.data_mode,
{
}

/// A write to display RAM keeps the state well formed: the pointers go on
/// naming a byte of display RAM, whatever the windows are.
pub proof fn lemma_write_keeps_wf(m: DisplayModel, data: u8)
    requires
        m.wf(),
    ensures
        m.write_gddram(data).wf(),
        0 <= m.write_index() < 1024,
{
}

/// Every byte keeps the state well formed.
pub proof fn lemma_receive_keeps_wf(m: DisplayModel, data: u8)
    requires
        m.wf(),
    ensures
        m.receive(data).wf(),
{
    lemma_write_keeps_wf(m, data);
    if m.received_dc && m.data_mode == DataMode::Command {
        if m.in_command {
            let joined = DisplayModel { parameters: m.parameters.push(data), in_command: false, ..m };
            lemma_dispatch_keeps_wf(joined);
        } else {
            let n = number_of_parameters(data);
            let begun = DisplayModel {
                command: data,
                parameters: Seq::empty(),
                params_number: n,
                in_command: n != 0,
                ..m
            };
            lemma_dispatch_keeps_wf(begun);
        }
    }
}

/// Every bus event and a bus reset keep the state well formed, and after
/// the end of a transfer no command waits.
pub proof fn lemma_event_keeps_wf(m: DisplayModel, event: u32)
    requires
        m.wf(),
    ensures
        m.event(event).wf(),
        m.transfer_started().wf(),
        m.transfer_ended().wf(),
        !m.transfer_ended().in_command,
        m.reset().wf(),
{
    lemma_dispatch_keeps_wf(DisplayModel { in_command: false, ..m });
}

/// The expected parameter count is that of the current command, in the
/// state after attach and after every byte and event that follows.
pub proof fn lemma_parameter_count_follows_command(m: DisplayModel, data: u8, event: u32)
    requires
        m.params_number == number_of_parameters(m.command),
    ensures
        DisplayModel::initial().params_number == number_of_parameters(DisplayModel::initial().command),
        m.receive(data).params_number == number_of_parameters(m.receive(data).command),
        m.event(event).params_number == number_of_parameters(m.event(event).command),
        m.reset().params_number == number_of_parameters(m.reset().command),
{
}

/// While a command has fewer parameters than it expects, every byte after
/// its opcode is kept as a parameter and the command waits.
pub proof fn lemma_parameters_are_collected(m: DisplayModel, opcode: u8, parameters: Seq<u8>)
    requires
        expects_opcode(m),
        parameters.len() < number_of_parameters(opcode),
    ensures
        m.receive(opcode).receive_all(parameters) == with_command(m, opcode, parameters, true),
    decreases parameters.len(),
{
    if parameters.len() == 0 {
        assert(parameters =~= Seq::<u8>::empty());
    } else {
        let before = parameters.drop_last();
        lemma_parameters_are_collected(m, opcode, before);
        assert(before.push(parameters.last()) =~= parameters);
    }
}

/// A command that has received fewer parameters than it expects when the
/// transfer ends runs on exactly the parameters received, and waits no
/// longer.
pub proof fn lemma_partial_command_runs_at_transfer_end(m: DisplayModel, opcode: u8, parameters: Seq<u8>)
    requires
        expects_opcode(m),
        parameters.len() < number_of_parameters(opcode),
    ensures
        ({
            let waiting = m.receive(opcode).receive_all(parameters);
            let ended = waiting.transfer_ended();
            &&& waiting.in_command
            &&& ended == with_command(m, opcode, parameters, false).dispatch()
            &&& waiting.transfer_ended_result() == with_command(m, opcode, parameters, false).dispatch_result()
            &&& !ended.in_command
            &&& ended.command == opcode
            &&& ended.parameters == parameters
        }),
{
    lemma_parameters_are_collected(m, opcode, parameters);
}

/// A command runs as soon as it has received as many parameters as it
/// expects, on exactly those parameters, and waits no longer. A command
/// that expects none runs on its opcode.
pub proof fn lemma_complete_command_runs(m: DisplayModel, opcode: u8, parameters: Seq<u8>)
    requires
        expects_opcode(m),
        parameters.len() == number_of_parameters(opcode),
    ensures
        ({
            let done = m.receive(opcode).receive_all(parameters);
            &&& done == with_command(m, opcode, parameters, false).dispatch()
            &&& !done.in_command
            &&& done.command == opcode
            &&& done.parameters == parameters
            &&& done.parameters.len() == number_of_parameters(opcode)
        }),
{
    if parameters.len() == 0 {
        assert(parameters =~= Seq::<u8>::empty());
    } else {
        let before = parameters.drop_last();
        lemma_parameters_are_collected(m, opcode, before);
        assert(before.push(parameters.last()) =~= parameters);
    }
}

/// Command 0x20 takes the addressing mode from the two low bits of its
/// parameter: 0 is horizontal, 1 vertical, 2 page. The value 3 is refused
/// as invalid and the mode stays.
pub proof fn lemma_addressing_mode_selection(m: DisplayModel)
    requires
        m.command == 0x20,
        m.parameters.len() >= 1,
    ensures
        ({
            let bits = m.parameters[0] & 0x3;
            &&& bits <= 3
            &&& bits == 0 ==> m.dispatch().memory_addressing_mode == MemoryAddressingMode::Horizontal
            &&& bits == 1 ==> m.dispatch().memory_addressing_mode == MemoryAddressingMode::Vertical
            &&& bits == 2 ==> m.dispatch().memory_addressing_mode == MemoryAddressingMode::Page
            &&& bits == 3 ==> m.dispatch().memory_addressing_mode == m.memory_addressing_mode
            &&& m.dispatch_result() == (if bits == 3 {
                Err::<(), ProtocolError>(ProtocolError::InvalidValue)
            } else {
                Ok(())
            })
            &&& m.dispatch() == (DisplayModel { memory_addressing_mode: m.dispatch().memory_addressing_mode, ..m })
        }),
        addressing_mode_of(0x00) == Some(MemoryAddressingMode::Horizontal),
        addressing_mode_of(0x01) == Some(MemoryAddressingMode::Vertical),
        addressing_mode_of(0x02) == Some(MemoryAddressingMode::Page),
        addressing_mode_of(0x03) is None,
{
    let a = m.parameters[0];
    assert(a & 0x3 <= 3) by (bit_vector);
    assert(0x00u8 & 0x3 == 0 && 0x01u8 & 0x3 == 1 && 0x02u8 & 0x3 == 2 && 0x03u8 & 0x3 == 3) by (bit_vector);
}

/// Command 0xA8 takes the multiplex ratio from the six low bits of its
/// parameter where they lie between 16 and 63. A value outside is refused
/// as invalid and the ratio stays; 200, whose six low bits are 8, is one.
pub proof fn lemma_multiplex_ratio_range(m: DisplayModel)
    requires
        m.command == 0xa8,
        m.parameters.len() >= 1,
    ensures
        ({
            let ratio = m.parameters[0] & 0x3f;
            &&& multiplex_ratio_in_range(ratio) ==> m.dispatch().multiplex_ratio == ratio && m.dispatch_result()
                == Ok::<(), ProtocolError>(())
            &&& !multiplex_ratio_in_range(ratio) ==> m.dispatch() == m && m.dispatch_result() == Err::<
                (),
                ProtocolError,
            >(ProtocolError::InvalidValue)
        }),
        200u8 & 0x3f == 8,
        !multiplex_ratio_in_range(200u8 & 0x3f),
{
    assert(200u8 & 0x3f == 8) by (bit_vector);
}

/// The column and page address commands are refused in page addressing
/// mode and change nothing there.
pub proof fn lemma_window_commands_refused_in_page_mode(m: DisplayModel)
    requires
        m.command == 0x21 || m.command == 0x22,
        m.memory_addressing_mode == MemoryAddressingMode::Page,
    ensures
        m.dispatch() == m,
        m.dispatch_result() == Err::<(), ProtocolError>(ProtocolError::NotAllowedInPageMode),
{
}

/// The paths that the model does not have change nothing and say so: a
/// write to display RAM outside horizontal addressing mode, and the pointer
/// commands of page addressing mode.
pub proof fn lemma_unimplemented_paths_change_nothing(m: DisplayModel, data: u8)
    ensures
        m.memory_addressing_mode != MemoryAddressingMode::Horizontal ==> m.write_gddram(data) == m
            && m.write_gddram_result() == Err::<(), ProtocolError>(ProtocolError::NotImplemented),
        m.command <= 0x1f || (0xb0 <= m.command && m.command <= 0xb7) ==> m.dispatch() == m && m.dispatch_result()
            == Err::<(), ProtocolError>(ProtocolError::NotImplemented),
{
}

/// Writing one run of bytes and then another is writing the two runs as one.
pub proof fn lemma_write_all_concat(m: DisplayModel, first: Seq<u8>, second: Seq<u8>)
    ensures
        m.write_all(first + second) == m.write_all(first).write_all(second),
    decreases second.len(),
{
    if second.len() == 0 {
        assert(first + second =~= first);
    } else {
        lemma_write_all_concat(m, first, second.drop_last());
        assert((first + second).drop_last() =~= first + second.drop_last());
    }
}

/// Writes to display RAM change display RAM and the write pointers and
/// nothing else, and keep the state well formed.
pub proof fn lemma_write_all_changes_memory_only(m: DisplayModel, bytes: Seq<u8>)
    requires
        m.wf(),
    ensures
        m.same_but_memory(m.write_all(bytes)),
        m.write_all(bytes).wf(),
    decreases bytes.len(),
{
    if bytes.len() > 0 {
        lemma_write_all_changes_memory_only(m, bytes.drop_last());
    }
}

/// With valid windows and the pointers inside them, a write in horizontal
/// addressing mode leaves the pointers inside the windows.
pub proof fn lemma_write_keeps_pointers_in_window(m: DisplayModel, data: u8)
    requires
        m.window_is_valid(),
        m.pointers_in_window(),
    ensures
        m.write_gddram(data).pointers_in_window(),
        m.write_gddram(data).window_is_valid(),
{
}

/// In horizontal addressing mode, as many writes as there are columns left
/// before the column end address move the column pointer on by one each
/// and leave the page pointer.
proof fn lemma_walk_in_row(m: DisplayModel, bytes: Seq<u8>)
    requires
        m.wf(),
        m.memory_addressing_mode == MemoryAddressingMode::Horizontal,
        m.column_address_pointer + bytes.len() <= m.column_end_address,
    ensures
        m.write_all(bytes).column_address_pointer == m.column_address_pointer + bytes.len(),
        m.write_all(bytes).page_address_pointer == m.page_address_pointer,
    decreases bytes.len(),
{
    if bytes.len() > 0 {
        lemma_walk_in_row(m, bytes.drop_last());
        lemma_write_all_changes_memory_only(m, bytes.drop_last());
    }
}

/// From the column start address, as many writes as the column window is
/// wide bring the column pointer back to the column start address and move
/// the page pointer to the next page, or past the page end address to the
/// page start address.
proof fn lemma_walk_row(m: DisplayModel, bytes: Seq<u8>)
    requires
        m.wf(),
        m.memory_addressing_mode == MemoryAddressingMode::Horizontal,
        m.column_start_address <= m.column_end_address,
        m.column_address_pointer == m.column_start_address,
        bytes.len() == m.column_end_address - m.column_start_address + 1,
    ensures
        m.write_all(bytes).column_address_pointer == m.column_start_address,
        m.write_all(bytes).page_address_pointer == (if m.page_address_pointer + 1 > m.page_end_address {
            m.page_start_address as int
        } else {
            m.page_address_pointer + 1
        }),
{
    lemma_walk_in_row(m, bytes.drop_last());
    lemma_write_all_changes_memory_only(m, bytes.drop_last());
}

/// From the column start address, `rows` times as many writes as the column
/// window is wide move the page pointer on by `rows` pages, as long as
/// these lie before the page end address.
proof fn lemma_walk_rows(m: DisplayModel, bytes: Seq<u8>, rows: nat)
    requires
        m.wf(),
        m.memory_addressing_mode == MemoryAddressingMode::Horizontal,
        m.column_start_address <= m.column_end_address,
        m.column_address_pointer == m.column_start_address,
        m.page_address_pointer + rows <= m.page_end_address,
        bytes.len() == rows * (m.column_end_address - m.column_start_address + 1),
    ensures
        m.write_all(bytes).column_address_pointer == m.column_start_address,
        m.write_all(bytes).page_address_pointer == m.page_address_pointer + rows,
    decreases rows,
{
    let width = m.column_end_address - m.column_start_address + 1;
    if rows == 0 {
        assert(bytes.len() == 0) by (nonlinear_arith)
            requires
                bytes.len() == rows * width,
                rows == 0,
        ;
    } else {
        let before = (rows - 1) * width;
        assert(0 <= before && before + width == rows * width) by (nonlinear_arith)
            requires
                before == (rows - 1) * width,
                rows >= 1,
                width >= 1,
        ;
        let first = bytes.subrange(0, before);
        let last = bytes.subrange(before, bytes.len() as int);
        assert(first + last =~= bytes);
        lemma_write_all_concat(m, first, last);
        lemma_walk_rows(m, first, (rows - 1) as nat);
        lemma_write_all_changes_memory_only(m, first);
        lemma_walk_row(m.write_all(first), last);
    }
}

/// Where a window has its start behind its end, every write from the start
/// of both windows wraps at once: the pointers stay where they are.
proof fn lemma_walk_empty_window(m: DisplayModel, bytes: Seq<u8>)
    requires
        m.wf(),
        m.memory_addressing_mode == MemoryAddressingMode::Horizontal,
        m.pointers_at_start(),
        m.column_start_address > m.column_end_address,
        m.page_start_address > m.page_end_address,
    ensures
        m.write_all(bytes).pointers_at_start(),
    decreases bytes.len(),
{
    if bytes.len() > 0 {
        lemma_walk_empty_window(m, bytes.drop_last());
        lemma_write_all_changes_memory_only(m, bytes.drop_last());
    }
}

/// In horizontal addressing mode, with both pointers at the start of their
/// windows, writing as many bytes as the column window is wide times the
/// page window is high brings both pointers back to the start of their
/// windows. The writes change display RAM and nothing else.
pub proof fn lemma_horizontal_window_cycle(m: DisplayModel, bytes: Seq<u8>)
    requires
        m.wf(),
        m.memory_addressing_mode == MemoryAddressingMode::Horizontal,
        m.pointers_at_start(),
        bytes.len() == (m.column_end_address - m.column_start_address + 1) * (m.page_end_address
            - m.page_start_address + 1),
    ensures
        m.write_all(bytes).pointers_at_start(),
        m.write_all(bytes).column_address_pointer == m.column_start_address,
        m.write_all(bytes).page_address_pointer == m.page_start_address,
        m.same_but_memory(m.write_all(bytes)),
{
    let width = m.column_end_address - m.column_start_address + 1;
    let height = m.page_end_address - m.page_start_address + 1;
    lemma_write_all_changes_memory_only(m, bytes);
    if bytes.len() == 0 {
    } else if width >= 1 && height >= 1 {
        let before = (height - 1) * width;
        assert(0 <= before && before + width == width * height) by (nonlinear_arith)
            requires
                before == (height - 1) * width,
                height >= 1,
                width >= 1,
        ;
        let first = bytes.subrange(0, before);
        let last = bytes.subrange(before, bytes.len() as int);
        assert(first + last =~= bytes);
        lemma_write_all_concat(m, first, last);
        lemma_walk_rows(m, first, (height - 1) as nat);
        lemma_write_all_changes_memory_only(m, first);
        lemma_walk_row(m.write_all(first), last);
    } else {
        assert(width < 0 && height < 0) by (nonlinear_arith)
            requires
                width * height > 0,
                !(width >= 1 && height >= 1),
        ;
        lemma_walk_empty_window(m, bytes);
    }
}

} // verus!
