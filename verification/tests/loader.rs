use esoteric_vm::instruction::{DataOrInstruction, Instruction, InstructionKind};
use esoteric_vm::state::{Action, Step};
use esoteric_vm::Machine;

#[test]
fn bytes_are_fetched_one_by_one() {
    let mut machine = Machine::default();
    machine.memory[0] = 7;
    machine.memory[1] = 8;
    assert_eq!(machine.fetch_byte(), 7);
    assert_eq!(machine.reg_ep, 1);
    assert_eq!(machine.fetch_byte(), 8);
    assert_eq!(machine.reg_ep, 2);
}

#[test]
fn fetching_at_the_last_address_wraps_to_address_zero() {
    let mut machine = Machine::default();
    machine.memory[65535] = 9;
    machine.reg_ep = 65535;
    assert_eq!(machine.fetch_byte(), 9);
    assert_eq!(machine.reg_ep, 0);
}

#[test]
fn multi_byte_fetches_are_big_endian() {
    let mut machine = Machine::default();
    machine.memory[..14].copy_from_slice(&[1, 2, 3, 4, 5, 6, 7, 8, 9, 10, 11, 12, 13, 14]);
    assert_eq!(machine.fetch_2_bytes(), 0x0102);
    assert_eq!(machine.reg_ep, 2);
    assert_eq!(machine.fetch_4_bytes(), 0x0304_0506);
    assert_eq!(machine.reg_ep, 6);
    assert_eq!(machine.fetch_8_bytes(), 0x0708_090A_0B0C_0D0E);
    assert_eq!(machine.reg_ep, 14);
}

#[test]
fn multi_byte_fetches_wrap_around_the_end_of_memory() {
    let mut machine = Machine::default();
    machine.memory[65535] = 0xAA;
    machine.memory[0] = 0xBB;
    machine.memory[1] = 0xCC;
    machine.memory[2] = 0xDD;
    machine.reg_ep = 65535;
    assert_eq!(machine.fetch_2_bytes(), 0xAABB);
    assert_eq!(machine.reg_ep, 1);
    machine.reg_ep = 65535;
    assert_eq!(machine.fetch_4_bytes(), 0xAABB_CCDD);
    assert_eq!(machine.reg_ep, 3);
    machine.reg_ep = 65535;
    assert_eq!(machine.fetch_8_bytes(), 0xAABB_CCDD_0000_0000);
    assert_eq!(machine.reg_ep, 7);
}

#[test]
fn the_kind_of_an_instruction_is_fetched() {
    let mut machine = Machine::default();
    machine.memory[0] = 50;
    machine.memory[1] = 200;
    assert_eq!(machine.fetch_instruction_kind(), Some(InstructionKind::Pushi));
    assert_eq!(machine.fetch_instruction_kind(), None);
    assert_eq!(machine.reg_ep, 2);
}

#[test]
fn a_halted_machine_fetches_nothing() {
    let mut machine = Machine::default();
    machine.halted = true;
    machine.reg_ep = 5;
    assert_eq!(machine.fetch_instruction(), None);
    assert_eq!(machine.reg_ep, 5);
}

#[test]
fn a_loaded_instruction_is_fetched_again() {
    let mut machine = Machine::default();
    let mut offset: u16 = 65534;
    machine.load_instruction(Instruction::Setr(3, 0x1234), &mut offset);
    assert_eq!(offset, 2);
    assert_eq!(machine.memory[65534], 6);
    assert_eq!(machine.memory[65535], 3);
    assert_eq!(machine.memory[0], 0x12);
    assert_eq!(machine.memory[1], 0x34);
    machine.reg_ep = 65534;
    assert_eq!(machine.fetch_instruction(), Some(Instruction::Setr(3, 0x1234)));
    assert_eq!(machine.reg_ep, 2);
}

#[test]
fn a_byte_that_is_no_opcode_is_fetched_as_nothing() {
    let mut machine = Machine::default();
    machine.memory[0] = 82;
    assert_eq!(machine.fetch_instruction(), None);
    assert_eq!(machine.reg_ep, 1);
    assert!(!machine.halted);
}

#[test]
fn instructions_are_loaded_one_after_the_other() {
    let mut machine = Machine::default();
    let end = machine.load_instructions(
        &[Instruction::Pushi(b'.'), Instruction::Pop(28657), Instruction::Ldidp(28657)],
        0,
    );
    assert_eq!(end, 8);
    assert_eq!(&machine.memory[..9], &[50, 0x2E, 51, 0x6F, 0xF1, 20, 0x6F, 0xF1, 0]);
    assert_eq!(machine.load_instructions(&[], 77), 77);
}

#[test]
fn a_block_of_bytes_is_loaded_if_it_fits() {
    let mut machine = Machine::default();
    assert_eq!(machine.load_bytes(b"abc", 10), Some(13));
    assert_eq!(&machine.memory[10..13], b"abc");
    assert_eq!(machine.load_bytes(b"xyz", 65533), Some(0));
    assert_eq!(&machine.memory[65533..], b"xyz");
    assert_eq!(machine.load_bytes(b"", 65535), Some(65535));
}

#[test]
fn a_block_of_bytes_that_reaches_beyond_memory_goes_on_at_its_start() {
    let mut machine = Machine::default();
    assert_eq!(machine.load_bytes(b"wxyz", 65533), Some(1));
    assert_eq!(&machine.memory[65533..], b"wxy");
    assert_eq!(machine.memory[0], b'z');
    assert_eq!(machine.memory[1], 0);
    let mut whole: Vec<u8> = vec![1; 65536];
    whole[65535] = 2;
    assert_eq!(machine.load_bytes(&whole, 1), Some(1));
    assert_eq!(machine.memory[1], 1);
    assert_eq!(machine.memory[65535], 1);
    assert_eq!(machine.memory[0], 2);
    assert_eq!(machine.load_bytes(&whole, 0), Some(0));
    assert_eq!(machine.memory[65535], 2);
    assert_eq!(machine.memory[0], 1);
}

#[test]
fn a_block_longer_than_memory_keeps_its_later_bytes() {
    let mut machine = Machine::default();
    let mut block: Vec<u8> = vec![1; 65536];
    block.extend_from_slice(&[7, 8, 9]);
    assert_eq!(machine.load_bytes(&block, 65534), Some(1));
    assert_eq!(machine.memory[65534], 7);
    assert_eq!(machine.memory[65535], 8);
    assert_eq!(machine.memory[0], 9);
    assert_eq!(machine.memory[1], 1);
    assert_eq!(machine.memory[65533], 1);
}

#[test]
fn items_are_loaded_one_after_the_other() {
    let mut machine = Machine::default();
    let end = machine.load(
        &[
            DataOrInstruction::Instruction(Instruction::WriteLine(5)),
            DataOrInstruction::ByteData(0xAA),
            DataOrInstruction::Data(b"hi\0"),
            DataOrInstruction::Instruction(Instruction::Nop),
        ],
        1,
    );
    assert_eq!(end, 9);
    assert_eq!(&machine.memory[..10], &[0, 75, 0, 5, 0xAA, b'h', b'i', 0, 0, 0]);
}

#[test]
fn a_block_that_crosses_the_end_of_memory_is_loaded_around_it() {
    let mut machine = Machine::default();
    let end = machine.load(&[DataOrInstruction::Data(b"abcdef")], 65532);
    assert_eq!(end, 2);
    assert_eq!(&machine.memory[65532..], b"abcd");
    assert_eq!(&machine.memory[..3], &[b'e', b'f', 0]);
    assert_eq!(machine.reg_ep, 0);
    assert_eq!(machine.stack.used_space(), 0);
    assert!(!machine.flag);
}

#[test]
fn the_loader_writes_on_after_a_block_that_crossed_the_end() {
    let mut machine = Machine::default();
    let end = machine.load(
        &[
            DataOrInstruction::ByteData(1),
            DataOrInstruction::Data(b"wrapped!"),
            DataOrInstruction::ByteData(2),
            DataOrInstruction::Instruction(Instruction::Ldar(0x0304)),
        ],
        65534,
    );
    assert_eq!(end, 11);
    assert_eq!(machine.memory[65534], 1);
    assert_eq!(machine.memory[65535], b'w');
    assert_eq!(&machine.memory[..7], b"rapped!");
    assert_eq!(&machine.memory[7..12], &[2, 1, 3, 4, 0]);
}

#[test]
fn the_final_offset_is_the_first_moved_on_by_all_lengths() {
    let mut machine = Machine::default();
    let block: Vec<u8> = vec![5; 70000];
    let items = [
        DataOrInstruction::Instruction(Instruction::Nop),
        DataOrInstruction::Data(&block),
        DataOrInstruction::ByteData(9),
        DataOrInstruction::Instruction(Instruction::DebugMemoryRegion(1, 2)),
    ];
    let end = machine.load(&items, 60000);
    assert_eq!(end as usize, (60000 + 1 + 70000 + 1 + 5) % 65536);
    assert_eq!(end, 64471);
    assert_eq!(machine.memory[64465], 9);
    assert_eq!(&machine.memory[64466..64471], &[79, 0, 1, 0, 2]);
    assert_eq!(machine.memory[64464], 5);
    assert_eq!(machine.memory[64471], 5);
}

#[test]
fn later_items_replace_earlier_ones_across_the_end_of_memory() {
    let mut machine = Machine::default();
    let end = machine.load(
        &[
            DataOrInstruction::ByteData(9),
            DataOrInstruction::Instruction(Instruction::Ldar(0x0102)),
        ],
        65535,
    );
    assert_eq!(end, 3);
    assert_eq!(machine.memory[65535], 9);
    assert_eq!(&machine.memory[..3], &[1, 1, 2]);
}

#[test]
fn a_step_fetches_and_executes() {
    let mut machine = Machine::default();
    machine.load_instructions(&[Instruction::Pushi(5), Instruction::Popa], 0);
    assert_eq!(machine.step(), Step::Ran(Action::Continue));
    assert_eq!(machine.reg_ep, 2);
    assert_eq!(machine.stack.as_slice(), &[5]);
    assert_eq!(machine.step(), Step::Ran(Action::Continue));
    assert_eq!(machine.reg_ep, 3);
    assert_eq!(machine.reg_a, 5);
}

#[test]
fn a_jump_sets_the_execution_pointer_after_the_fetch() {
    let mut machine = Machine::default();
    machine.load_instructions(
        &[Instruction::Pushi(0x12), Instruction::Pushi(0x34), Instruction::Popep],
        0,
    );
    assert_eq!(machine.run(3), None);
    assert_eq!(machine.reg_ep, 0x1234);
}

#[test]
fn a_step_on_a_byte_that_is_no_opcode_is_a_fault() {
    let mut machine = Machine::default();
    machine.memory[0] = 0xFF;
    assert_eq!(machine.step(), Step::Fault);
    assert_eq!(machine.reg_ep, 1);
    assert!(!machine.halted);
    assert_eq!(machine.run(10), None);
    assert_eq!(machine.reg_ep, 11);
}

#[test]
fn a_halted_machine_steps_nowhere() {
    let mut machine = Machine::default();
    machine.load_instructions(
        &[Instruction::Pushi(3), Instruction::Popa, Instruction::OmegaTheEndIsNear, Instruction::OmegaSkipToTheChase],
        0,
    );
    assert_eq!(machine.run(100), Some(Step::Halted(3)));
    assert!(machine.halted);
    assert_eq!(machine.reg_ep, 5);
    assert_eq!(machine.step(), Step::Halted(3));
    assert_eq!(machine.reg_ep, 5);
    assert_eq!(machine.run(0), None);
}

#[test]
fn running_stops_when_the_fuel_is_spent() {
    let mut machine = Machine::default();
    assert_eq!(machine.run(10), None);
    assert_eq!(machine.reg_ep, 10);
    assert_eq!(machine.run(65526), None);
    assert_eq!(machine.reg_ep, 0);
}

#[test]
fn running_stops_at_what_the_host_has_to_do() {
    let mut machine = Machine::default();
    machine.load_instructions(
        &[Instruction::Nop, Instruction::OmegaSetSentience(false), Instruction::Nop],
        0,
    );
    assert_eq!(machine.run(100), Some(Step::Ran(Action::Refuse)));
    assert_eq!(machine.reg_ep, 3);
    assert!(machine.flag);
}

#[test]
fn running_stops_at_a_fault() {
    let mut machine = Machine::default();
    machine.memory[2] = 21;
    machine.memory[3] = 5;
    assert_eq!(machine.run(100), Some(Step::Fault));
    assert_eq!(machine.reg_ep, 4);
}
