use esoteric_vm::instruction::Instruction;
use esoteric_vm::omega::IllusionOfChoice;
use esoteric_vm::state::{Action, Output};
use esoteric_vm::Machine;

fn machine_with_dot() -> Machine {
    let mut machine = Machine::default();
    machine.memory[28657] = b'.';
    machine.reg_dp = 28657;
    machine
}

fn io_instructions() -> Vec<Instruction> {
    vec![
        Instruction::GetChar,
        Instruction::GetLine,
        Instruction::WriteChar,
        Instruction::WriteLiness,
        Instruction::WriteLine(100),
        Instruction::DebugMachineState,
        Instruction::DebugMachineStateCompact,
        Instruction::DebugMemoryRegion(0, 4),
        Instruction::DebugStackRegion(0, 0),
        Instruction::ShowChoice,
    ]
}

#[test]
fn without_the_dot_nothing_is_read_or_written() {
    for instruction in io_instructions() {
        let mut machine = Machine::default();
        machine.reg_dp = 28657;
        machine.memory[100] = b'x';
        assert_eq!(machine.execute_instruction(instruction), Action::Continue);
        assert!(machine.flag);
        assert_eq!(machine.reg_dp, 28657);
        assert_eq!(machine.reg_ep, 0);
        assert_eq!(machine.reg_ch, '\0');
        assert_eq!(machine.memory[100], b'x');
        assert_eq!(machine.stack.used_space(), 0);
    }
}

#[test]
fn putting_the_dot_in_place_lets_the_same_instruction_through() {
    for instruction in io_instructions() {
        let mut machine = Machine::default();
        machine.reg_dp = 28657;
        assert_eq!(machine.execute_instruction(instruction), Action::Continue);
        assert!(machine.flag);
        machine.flag = false;
        machine.memory[28657] = b'.';
        assert_ne!(machine.execute_instruction(instruction), Action::Continue);
        assert!(!machine.flag);
    }
}

#[test]
fn any_byte_but_a_dot_keeps_the_gate_shut() {
    for byte in [0u8, b',', b'/', b'-', 0xFF] {
        let mut machine = Machine::default();
        machine.memory[5] = byte;
        machine.reg_dp = 5;
        assert_eq!(machine.execute_instruction(Instruction::WriteChar), Action::Continue);
        assert!(machine.flag);
    }
}

#[test]
fn a_new_machine_has_no_dot_to_point_at() {
    let mut machine = Machine::default();
    assert_eq!(machine.execute_instruction(Instruction::WriteChar), Action::Continue);
    assert!(machine.flag);
}

#[test]
fn the_character_register_is_written() {
    let mut machine = machine_with_dot();
    machine.reg_ch = 'q';
    assert_eq!(
        machine.execute_instruction(Instruction::WriteChar),
        Action::Print { prefix: None, output: Output::Char('q') }
    );
    assert!(!machine.flag);
}

#[test]
fn output_is_prefixed_while_paperclips_are_made() {
    let mut machine = machine_with_dot();
    machine.reg_ch = 'q';
    machine.num_reg = 99;
    machine.reg_omega.should_make_infinite_paperclips = true;
    assert_eq!(
        machine.execute_instruction(Instruction::WriteChar),
        Action::Print { prefix: Some(99), output: Output::Char('q') }
    );
    assert_eq!(
        machine.execute_instruction(Instruction::ShowChoice),
        Action::Print { prefix: Some(99), output: Output::Choice(IllusionOfChoice::Nothing) }
    );
}

#[test]
fn the_string_register_is_written() {
    let mut machine = machine_with_dot();
    assert_eq!(machine.reg_ss.push_bytes(b"hi there"), Ok(()));
    assert_eq!(
        machine.execute_instruction(Instruction::WriteLiness),
        Action::Print { prefix: None, output: Output::String(b"hi there".to_vec()) }
    );
    assert_eq!(machine.reg_ss.as_slice(), b"hi there");
}

#[test]
fn a_line_out_of_memory_is_written_up_to_its_zero_byte() {
    let mut machine = machine_with_dot();
    machine.memory[13..28].copy_from_slice(b"Hello, world!\n\0");
    machine.memory[28] = b'!';
    assert_eq!(
        machine.execute_instruction(Instruction::WriteLine(13)),
        Action::Print { prefix: None, output: Output::Line(b"Hello, world!\n".to_vec()) }
    );
    assert_eq!(
        machine.execute_instruction(Instruction::WriteLine(27)),
        Action::Print { prefix: None, output: Output::Line(Vec::new()) }
    );
}

#[test]
fn a_line_out_of_memory_wraps_around_its_end() {
    let mut machine = machine_with_dot();
    machine.memory[65534] = b'a';
    machine.memory[65535] = b'b';
    machine.memory[0] = b'c';
    assert_eq!(
        machine.execute_instruction(Instruction::WriteLine(65534)),
        Action::Print { prefix: None, output: Output::Line(b"abc".to_vec()) }
    );
}

#[test]
fn the_state_of_the_machine_is_printed_both_ways() {
    let mut machine = machine_with_dot();
    assert_eq!(
        machine.execute_instruction(Instruction::DebugMachineState),
        Action::Print { prefix: None, output: Output::MachineState }
    );
    assert_eq!(
        machine.execute_instruction(Instruction::DebugMachineStateCompact),
        Action::Print { prefix: None, output: Output::MachineStateCompact }
    );
}

#[test]
fn a_region_of_memory_is_printed() {
    let mut machine = machine_with_dot();
    machine.memory[10..14].copy_from_slice(&[1, 2, 3, 4]);
    assert_eq!(
        machine.execute_instruction(Instruction::DebugMemoryRegion(10, 13)),
        Action::Print { prefix: None, output: Output::MemoryRegion(vec![1, 2, 3]) }
    );
    assert_eq!(
        machine.execute_instruction(Instruction::DebugMemoryRegion(10, 10)),
        Action::Print { prefix: None, output: Output::MemoryRegion(Vec::new()) }
    );
    assert!(!machine.flag);
}

#[test]
fn a_region_of_memory_that_ends_before_it_begins_raises_the_flag() {
    let mut machine = machine_with_dot();
    assert_eq!(
        machine.execute_instruction(Instruction::DebugMemoryRegion(11, 10)),
        Action::Continue
    );
    assert!(machine.flag);
}

#[test]
fn a_region_of_the_stack_is_printed() {
    let mut machine = machine_with_dot();
    assert_eq!(machine.stack.push_bytes(&[5, 6, 7, 8]), Ok(()));
    assert_eq!(
        machine.execute_instruction(Instruction::DebugStackRegion(1, 4)),
        Action::Print { prefix: None, output: Output::StackRegion(vec![6, 7, 8]) }
    );
    assert_eq!(machine.stack.as_slice(), &[5, 6, 7, 8]);
    assert!(!machine.flag);
}

#[test]
fn a_region_that_the_stack_does_not_hold_raises_the_flag() {
    for (start, end) in [(0u16, 5u16), (3, 2), (5, 5), (0, 65535)] {
        let mut machine = machine_with_dot();
        assert_eq!(machine.stack.push_bytes(&[5, 6, 7, 8]), Ok(()));
        assert_eq!(
            machine.execute_instruction(Instruction::DebugStackRegion(start, end)),
            Action::Continue
        );
        assert!(machine.flag);
        assert_eq!(machine.stack.as_slice(), &[5, 6, 7, 8]);
    }
}

#[test]
fn the_illusion_of_choice_is_shown() {
    let mut machine = machine_with_dot();
    machine.reg_omega.illusion_of_choice = IllusionOfChoice::SomeSomethingWithNothing;
    assert_eq!(
        machine.execute_instruction(Instruction::ShowChoice),
        Action::Print {
            prefix: None,
            output: Output::Choice(IllusionOfChoice::SomeSomethingWithNothing)
        }
    );
}

#[test]
fn reading_is_left_to_the_host() {
    let mut machine = machine_with_dot();
    assert_eq!(machine.execute_instruction(Instruction::GetChar), Action::ReadChar);
    assert_eq!(machine.reg_ch, '\0');
    machine.receive_char(Some('7'), false);
    assert_eq!(machine.reg_ch, '7');
    assert_eq!(machine.execute_instruction(Instruction::GetLine), Action::ReadLine);
    assert!(!machine.flag);
    machine.report_failure();
    assert!(machine.flag);
}
