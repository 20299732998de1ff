use esoteric_vm::encoding::{decode_at, encode};
use esoteric_vm::instruction::{Instruction, InstructionKind, OPCODE_COUNT};
use esoteric_vm::memory::{write_bytes, zeroed_memory};
use esoteric_vm::omega::IllusionOfChoice;

fn slots_for_encoding_tests() -> [i8; 37] {
    let mut slots = [0i8; 37];
    for (k, slot) in slots.iter_mut().enumerate() {
        *slot = ((k as i16) * 7 - 128) as i8;
    }
    slots
}

fn one_of_each_kind() -> Vec<Instruction> {
    vec![
        Instruction::Nop,
        Instruction::Ldar(0x1234),
        Instruction::Sba,
        Instruction::Clr,
        Instruction::Dumpr(0xFFFF),
        Instruction::Movar(36),
        Instruction::Setr(5, 0xABCD),
        Instruction::Setir(3, -128),
        Instruction::Ldr(0),
        Instruction::Ldir(slots_for_encoding_tests()),
        Instruction::Clss,
        Instruction::Dumpss(1),
        Instruction::Writess(0x0102, 3),
        Instruction::Movass(255),
        Instruction::Setss(0xFF00, 0),
        Instruction::Setiss(1, 2),
        Instruction::Ldss(0x8000),
        Instruction::Pushss,
        Instruction::Popss,
        Instruction::Lenssa,
        Instruction::Ldidp(28657),
        Instruction::OmegaChoiceSet(IllusionOfChoice::SomeNothing),
        Instruction::OmegaChoiceGetA,
        Instruction::OmegaGainAPolymorphicDesires,
        Instruction::OmegaLoseAPolymorphicDesires,
        Instruction::OmegaPushPolymorphicDesires,
        Instruction::OmegaTheEndIsNear,
        Instruction::OmegaSkipToTheChase,
        Instruction::OmegaSetSentience(true),
        Instruction::OmegaSetPaperclipProduction(false),
        Instruction::AddBL,
        Instruction::SubBL,
        Instruction::MulBL,
        Instruction::DivBL,
        Instruction::ModBL,
        Instruction::NotL,
        Instruction::AndBL,
        Instruction::OrBL,
        Instruction::XorBL,
        Instruction::CmpLB,
        Instruction::TgFlag,
        Instruction::ClFlag,
        Instruction::AddF(1),
        Instruction::SubF(2),
        Instruction::MulF(3),
        Instruction::DivF(4),
        Instruction::ModF(5),
        Instruction::StackAlloc(4095),
        Instruction::StackDealloc(2),
        Instruction::Push(7),
        Instruction::Pushi(b'.'),
        Instruction::Pop(28657),
        Instruction::Popa,
        Instruction::Pusha,
        Instruction::Popb,
        Instruction::Pushb,
        Instruction::PopL,
        Instruction::PushL,
        Instruction::Popf,
        Instruction::Pushf,
        Instruction::Popch,
        Instruction::Pushch,
        Instruction::Popnum,
        Instruction::Pushnum,
        Instruction::Popep,
        Instruction::Zpopep,
        Instruction::Ppopep,
        Instruction::Npopep,
        Instruction::Fpopep,
        Instruction::Zapopep,
        Instruction::Dpopep,
        Instruction::GetChar,
        Instruction::GetLine,
        Instruction::WriteChar,
        Instruction::WriteLiness,
        Instruction::WriteLine(13),
        Instruction::ToggleDebug,
        Instruction::DebugMachineState,
        Instruction::DebugMachineStateCompact,
        Instruction::DebugMemoryRegion(0x0010, 0x0020),
        Instruction::DebugStackRegion(0, 0xFFFF),
        Instruction::ShowChoice,
    ]
}

#[test]
fn every_kind_has_the_opcode_of_its_place() {
    let instructions = one_of_each_kind();
    assert_eq!(instructions.len(), OPCODE_COUNT as usize);
    assert_eq!(OPCODE_COUNT, 82);
    for (place, instruction) in instructions.iter().enumerate() {
        assert_eq!(instruction.kind().opcode() as usize, place);
    }
}

#[test]
fn opcodes_and_kinds_match_one_to_one() {
    for opcode in 0..=u8::MAX {
        match InstructionKind::from_repr(opcode) {
            Some(kind) => {
                assert!(opcode < OPCODE_COUNT);
                assert_eq!(kind.opcode(), opcode);
            }
            None => assert!(opcode >= OPCODE_COUNT),
        }
    }
    for instruction in one_of_each_kind() {
        let kind = instruction.kind();
        assert_eq!(InstructionKind::from_repr(kind.opcode()), Some(kind));
    }
}

#[test]
fn some_opcodes_by_number() {
    assert_eq!(InstructionKind::Nop.opcode(), 0);
    assert_eq!(InstructionKind::Ldidp.opcode(), 20);
    assert_eq!(InstructionKind::OmegaTheEndIsNear.opcode(), 26);
    assert_eq!(InstructionKind::CmpLB.opcode(), 39);
    assert_eq!(InstructionKind::Pushi.opcode(), 50);
    assert_eq!(InstructionKind::WriteLine.opcode(), 75);
    assert_eq!(InstructionKind::ShowChoice.opcode(), 81);
    assert_eq!(InstructionKind::from_repr(82), None);
    assert_eq!(InstructionKind::from_repr(255), None);
}

#[test]
fn encodings_are_as_long_as_their_kinds_say() {
    for instruction in one_of_each_kind() {
        let bytes = encode(instruction);
        assert_eq!(bytes.len(), instruction.kind().encoded_len() as usize);
        assert_eq!(bytes[0], instruction.kind().opcode());
    }
    assert_eq!(InstructionKind::Nop.encoded_len(), 1);
    assert_eq!(InstructionKind::Pushi.encoded_len(), 2);
    assert_eq!(InstructionKind::Ldar.encoded_len(), 3);
    assert_eq!(InstructionKind::Setr.encoded_len(), 4);
    assert_eq!(InstructionKind::DebugMemoryRegion.encoded_len(), 5);
    assert_eq!(InstructionKind::Ldir.encoded_len(), 38);
}

#[test]
fn operands_are_laid_out_big_endian_and_in_order() {
    assert_eq!(encode(Instruction::Nop), vec![0]);
    assert_eq!(encode(Instruction::Ldar(0x1234)), vec![1, 0x12, 0x34]);
    assert_eq!(encode(Instruction::Setr(5, 0xABCD)), vec![6, 5, 0xAB, 0xCD]);
    assert_eq!(encode(Instruction::Setir(3, -2)), vec![7, 3, 0xFE]);
    assert_eq!(encode(Instruction::Writess(0x0102, 3)), vec![12, 1, 2, 3]);
    assert_eq!(encode(Instruction::Setiss(9, 8)), vec![15, 9, 8]);
    assert_eq!(encode(Instruction::Ldidp(28657)), vec![20, 0x6F, 0xF1]);
    assert_eq!(encode(Instruction::OmegaSetSentience(true)), vec![28, 1]);
    assert_eq!(encode(Instruction::OmegaSetSentience(false)), vec![28, 0]);
    assert_eq!(encode(Instruction::Pushi(b'.')), vec![50, 0x2E]);
    assert_eq!(
        encode(Instruction::DebugMemoryRegion(0x0102, 0x0304)),
        vec![79, 1, 2, 3, 4]
    );
    let mut expected: Vec<u8> = vec![9];
    for slot in slots_for_encoding_tests() {
        expected.push(slot as u8);
    }
    assert_eq!(encode(Instruction::Ldir(slots_for_encoding_tests())), expected);
}

#[test]
fn the_five_choices_are_the_bytes_zero_to_four() {
    let choices = [
        (IllusionOfChoice::SomeSomethingWithSomeNothing, 0u8),
        (IllusionOfChoice::SomeSomethingWithSomeValuelessSomething, 1),
        (IllusionOfChoice::SomeSomethingWithNothing, 2),
        (IllusionOfChoice::SomeNothing, 3),
        (IllusionOfChoice::Nothing, 4),
    ];
    for (choice, byte) in choices {
        assert_eq!(choice.to_byte(), byte);
        assert_eq!(IllusionOfChoice::from_byte(byte), Some(choice));
        assert_eq!(encode(Instruction::OmegaChoiceSet(choice)), vec![21, byte]);
    }
    for byte in 5..=u8::MAX {
        assert_eq!(IllusionOfChoice::from_byte(byte), None);
    }
}

#[test]
fn decoding_an_encoding_gives_the_instruction_back() {
    for at in [0u16, 1, 1000, 28657, 65498, 65499, 65530, 65534, 65535] {
        for instruction in one_of_each_kind() {
            let mut memory = zeroed_memory();
            let bytes = encode(instruction);
            write_bytes(&mut memory, at, &bytes);
            let (decoded, next) = decode_at(&memory, at);
            assert_eq!(decoded, Some(instruction));
            assert_eq!(next, at.wrapping_add(bytes.len() as u16));
        }
    }
}

#[test]
fn every_choice_and_both_booleans_survive_the_round_trip() {
    let mut instructions: Vec<Instruction> = Vec::new();
    for byte in 0..5u8 {
        instructions.push(Instruction::OmegaChoiceSet(IllusionOfChoice::from_byte(byte).unwrap()));
    }
    for enable in [false, true] {
        instructions.push(Instruction::OmegaSetSentience(enable));
        instructions.push(Instruction::OmegaSetPaperclipProduction(enable));
    }
    for value in [i8::MIN, -1, 0, 1, i8::MAX] {
        instructions.push(Instruction::Setir(0, value));
    }
    for instruction in instructions {
        let mut memory = zeroed_memory();
        write_bytes(&mut memory, 65535, &encode(instruction));
        assert_eq!(decode_at(&memory, 65535).0, Some(instruction));
    }
}

#[test]
fn an_instruction_at_the_last_address_goes_on_at_address_zero() {
    let mut memory = zeroed_memory();
    write_bytes(&mut memory, 65535, &encode(Instruction::Ldar(0x1234)));
    assert_eq!(memory[65535], 1);
    assert_eq!(memory[0], 0x12);
    assert_eq!(memory[1], 0x34);
    assert_eq!(decode_at(&memory, 65535), (Some(Instruction::Ldar(0x1234)), 2));
}

#[test]
fn a_byte_that_is_no_opcode_decodes_to_nothing() {
    let mut memory = zeroed_memory();
    for opcode in 82..=u8::MAX {
        memory[10] = opcode;
        assert_eq!(decode_at(&memory, 10), (None, 11));
    }
    memory[65535] = 200;
    assert_eq!(decode_at(&memory, 65535), (None, 0));
}

#[test]
fn a_byte_that_is_no_choice_decodes_to_nothing() {
    let mut memory = zeroed_memory();
    memory[10] = 21;
    for byte in 5..=u8::MAX {
        memory[11] = byte;
        assert_eq!(decode_at(&memory, 10), (None, 12));
    }
    memory[11] = 4;
    assert_eq!(
        decode_at(&memory, 10),
        (Some(Instruction::OmegaChoiceSet(IllusionOfChoice::Nothing)), 12)
    );
}

#[test]
fn any_byte_but_zero_decodes_to_true() {
    let mut memory = zeroed_memory();
    memory[0] = 28;
    memory[1] = 0;
    assert_eq!(decode_at(&memory, 0).0, Some(Instruction::OmegaSetSentience(false)));
    for byte in 1..=u8::MAX {
        memory[1] = byte;
        assert_eq!(decode_at(&memory, 0).0, Some(Instruction::OmegaSetSentience(true)));
    }
}

#[test]
fn zeroed_memory_decodes_to_no_operation() {
    let memory = zeroed_memory();
    assert_eq!(decode_at(&memory, 0), (Some(Instruction::Nop), 1));
    assert_eq!(decode_at(&memory, 65535), (Some(Instruction::Nop), 0));
    assert_eq!(Instruction::default(), Instruction::Nop);
}
