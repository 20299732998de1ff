//! How instructions lie in memory: the opcode of the instruction's kind,
//! then its operands in order, each 16-bit operand with its high byte
//! first. Encoding and decoding are inverse to each other.

use vstd::prelude::*;
use crate::bits::{i8_bits_as_u8, i8_to_u8, u16_be_bytes, u16_to_be, u8_bits_as_i8, u8_to_i8};
use crate::instruction::{Instruction, InstructionKind, lemma_opcode_round_trip};
use crate::memory::{address, read_u16, read_u16_at, write_at, Memory};
use crate::omega::IllusionOfChoice;

verus! {

/// The bytes of the 37 slots of an array operand.
pub open spec fn array_bytes(slots: [i8; 37]) -> Seq<u8> {
    Seq::new(37, |k: int| i8_bits_as_u8(slots[k]))
}

/// The array that holds the given 37 slots.
pub open spec fn array_of(slots: Seq<i8>) -> [i8; 37] {
    choose|array: [i8; 37]| array@ == slots
}

/// The bytes of the operands of an instruction, in order.
pub open spec fn operands(instruction: Instruction) -> Seq<u8> {
    match instruction {
        Instruction::Nop => Seq::empty(),
        Instruction::Ldar(at) => u16_be_bytes(at),
        Instruction::Sba => Seq::empty(),
        Instruction::Clr => Seq::empty(),
        Instruction::Dumpr(at) => u16_be_bytes(at),
        Instruction::Movar(byte) => seq![byte],
        Instruction::Setr(byte, at) => seq![byte] + u16_be_bytes(at),
        Instruction::Setir(byte, value) => seq![byte] + seq![i8_bits_as_u8(value)],
        Instruction::Ldr(at) => u16_be_bytes(at),
        Instruction::Ldir(slots) => array_bytes(slots),
        Instruction::Clss => Seq::empty(),
        Instruction::Dumpss(at) => u16_be_bytes(at),
        Instruction::Writess(at, byte) => u16_be_bytes(at) + seq![byte],
        Instruction::Movass(byte) => seq![byte],
        Instruction::Setss(at, byte) => u16_be_bytes(at) + seq![byte],
        Instruction::Setiss(first_byte, second_byte) => seq![first_byte] + seq![second_byte],
        Instruction::Ldss(at) => u16_be_bytes(at),
        Instruction::Pushss => Seq::empty(),
        Instruction::Popss => Seq::empty(),
        Instruction::Lenssa => Seq::empty(),
        Instruction::Ldidp(at) => u16_be_bytes(at),
        Instruction::OmegaChoiceSet(choice) => seq![choice.spec_to_byte()],
        Instruction::OmegaChoiceGetA => Seq::empty(),
        Instruction::OmegaGainAPolymorphicDesires => Seq::empty(),
        Instruction::OmegaLoseAPolymorphicDesires => Seq::empty(),
        Instruction::OmegaPushPolymorphicDesires => Seq::empty(),
        Instruction::OmegaTheEndIsNear => Seq::empty(),
        Instruction::OmegaSkipToTheChase => Seq::empty(),
        Instruction::OmegaSetSentience(enable) => seq![if enable { 1u8 } else { 0u8 }],
        Instruction::OmegaSetPaperclipProduction(enable) => seq![if enable { 1u8 } else { 0u8 }],
        Instruction::AddBL => Seq::empty(),
        Instruction::SubBL => Seq::empty(),
        Instruction::MulBL => Seq::empty(),
        Instruction::DivBL => Seq::empty(),
        Instruction::ModBL => Seq::empty(),
        Instruction::NotL => Seq::empty(),
        Instruction::AndBL => Seq::empty(),
        Instruction::OrBL => Seq::empty(),
        Instruction::XorBL => Seq::empty(),
        Instruction::CmpLB => Seq::empty(),
        Instruction::TgFlag => Seq::empty(),
        Instruction::ClFlag => Seq::empty(),
        Instruction::AddF(at) => u16_be_bytes(at),
        Instruction::SubF(at) => u16_be_bytes(at),
        Instruction::MulF(at) => u16_be_bytes(at),
        Instruction::DivF(at) => u16_be_bytes(at),
        Instruction::ModF(at) => u16_be_bytes(at),
        Instruction::StackAlloc(at) => u16_be_bytes(at),
        Instruction::StackDealloc(at) => u16_be_bytes(at),
        Instruction::Push(at) => u16_be_bytes(at),
        Instruction::Pushi(byte) => seq![byte],
        Instruction::Pop(at) => u16_be_bytes(at),
        Instruction::Popa => Seq::empty(),
        Instruction::Pusha => Seq::empty(),
        Instruction::Popb => Seq::empty(),
        Instruction::Pushb => Seq::empty(),
        Instruction::PopL => Seq::empty(),
        Instruction::PushL => Seq::empty(),
        Instruction::Popf => Seq::empty(),
        Instruction::Pushf => Seq::empty(),
        Instruction::Popch => Seq::empty(),
        Instruction::Pushch => Seq::empty(),
        Instruction::Popnum => Seq::empty(),
        Instruction::Pushnum => Seq::empty(),
        Instruction::Popep => Seq::empty(),
        Instruction::Zpopep => Seq::empty(),
        Instruction::Ppopep => Seq::empty(),
        Instruction::Npopep => Seq::empty(),
        Instruction::Fpopep => Seq::empty(),
        Instruction::Zapopep => Seq::empty(),
        Instruction::Dpopep => Seq::empty(),
        Instruction::GetChar => Seq::empty(),
        Instruction::GetLine => Seq::empty(),
        Instruction::WriteChar => Seq::empty(),
        Instruction::WriteLiness => Seq::empty(),
        Instruction::WriteLine(at) => u16_be_bytes(at),
        Instruction::ToggleDebug => Seq::empty(),
        Instruction::DebugMachineState => Seq::empty(),
        Instruction::DebugMachineStateCompact => Seq::empty(),
        Instruction::DebugMemoryRegion(start, end) => u16_be_bytes(start) + u16_be_bytes(end),
        Instruction::DebugStackRegion(start, end) => u16_be_bytes(start) + u16_be_bytes(end),
        Instruction::ShowChoice => Seq::empty(),
    }
}

/// The bytes of an instruction in memory: its opcode and its operands.
pub open spec fn encoding(instruction: Instruction) -> Seq<u8> {
    seq![instruction.spec_kind().spec_opcode()] + operands(instruction)
}

/// The operand byte `k` bytes after `at`, the address of the first.
pub open spec fn operand_byte(mem: Seq<u8>, at: u16, k: int) -> u8 {
    mem[address(at, k)]
}

/// The 16-bit operand `k` bytes after `at`, the address of the first.
pub open spec fn operand_word(mem: Seq<u8>, at: u16, k: int) -> u16 {
    read_u16_at(mem, address(at, k) as u16)
}

/// The 37 slots of an array operand at `at`.
pub open spec fn operand_slots(mem: Seq<u8>, at: u16) -> Seq<i8> {
    Seq::new(37, |k: int| u8_bits_as_i8(operand_byte(mem, at, k)))
}

/// The instruction of the given kind whose operands lie at `at`. There is
/// none where the operand is to be an illusion of choice and its byte is
/// none.
pub open spec fn decode_operands(kind: InstructionKind, mem: Seq<u8>, at: u16) -> Option<
    Instruction,
> {
    match kind {
        InstructionKind::Nop => Some(Instruction::Nop),
        InstructionKind::Ldar => Some(Instruction::Ldar(operand_word(mem, at, 0))),
        InstructionKind::Sba => Some(Instruction::Sba),
        InstructionKind::Clr => Some(Instruction::Clr),
        InstructionKind::Dumpr => Some(Instruction::Dumpr(operand_word(mem, at, 0))),
        InstructionKind::Movar => Some(Instruction::Movar(operand_byte(mem, at, 0))),
        InstructionKind::Setr => Some(Instruction::Setr(operand_byte(mem, at, 0), operand_word(mem, at, 1))),
        InstructionKind::Setir => Some(Instruction::Setir(operand_byte(mem, at, 0), u8_bits_as_i8(operand_byte(mem, at, 1)))),
        InstructionKind::Ldr => Some(Instruction::Ldr(operand_word(mem, at, 0))),
        InstructionKind::Ldir => Some(Instruction::Ldir(array_of(operand_slots(mem, at)))),
        InstructionKind::Clss => Some(Instruction::Clss),
        InstructionKind::Dumpss => Some(Instruction::Dumpss(operand_word(mem, at, 0))),
        InstructionKind::Writess => Some(Instruction::Writess(operand_word(mem, at, 0), operand_byte(mem, at, 2))),
        InstructionKind::Movass => Some(Instruction::Movass(operand_byte(mem, at, 0))),
        InstructionKind::Setss => Some(Instruction::Setss(operand_word(mem, at, 0), operand_byte(mem, at, 2))),
        InstructionKind::Setiss => Some(Instruction::Setiss(operand_byte(mem, at, 0), operand_byte(mem, at, 1))),
        InstructionKind::Ldss => Some(Instruction::Ldss(operand_word(mem, at, 0))),
        InstructionKind::Pushss => Some(Instruction::Pushss),
        InstructionKind::Popss => Some(Instruction::Popss),
        InstructionKind::Lenssa => Some(Instruction::Lenssa),
        InstructionKind::Ldidp => Some(Instruction::Ldidp(operand_word(mem, at, 0))),
        InstructionKind::OmegaChoiceSet => match IllusionOfChoice::spec_from_byte(operand_byte(mem, at, 0)) {
            Some(choice) => Some(Instruction::OmegaChoiceSet(choice)),
            None => None,
        },
        InstructionKind::OmegaChoiceGetA => Some(Instruction::OmegaChoiceGetA),
        InstructionKind::OmegaGainAPolymorphicDesires => Some(Instruction::OmegaGainAPolymorphicDesires),
        InstructionKind::OmegaLoseAPolymorphicDesires => Some(Instruction::OmegaLoseAPolymorphicDesires),
        InstructionKind::OmegaPushPolymorphicDesires => Some(Instruction::OmegaPushPolymorphicDesires),
        InstructionKind::OmegaTheEndIsNear => Some(Instruction::OmegaTheEndIsNear),
        InstructionKind::OmegaSkipToTheChase => Some(Instruction::OmegaSkipToTheChase),
        InstructionKind::OmegaSetSentience => Some(Instruction::OmegaSetSentience(operand_byte(mem, at, 0) != 0)),
        InstructionKind::OmegaSetPaperclipProduction => Some(Instruction::OmegaSetPaperclipProduction(operand_byte(mem, at, 0) != 0)),
        InstructionKind::AddBL => Some(Instruction::AddBL),
        InstructionKind::SubBL => Some(Instruction::SubBL),
        InstructionKind::MulBL => Some(Instruction::MulBL),
        InstructionKind::DivBL => Some(Instruction::DivBL),
        InstructionKind::ModBL => Some(Instruction::ModBL),
        InstructionKind::NotL => Some(Instruction::NotL),
        InstructionKind::AndBL => Some(Instruction::AndBL),
        InstructionKind::OrBL => Some(Instruction::OrBL),
        InstructionKind::XorBL => Some(Instruction::XorBL),
        InstructionKind::CmpLB => Some(Instruction::CmpLB),
        InstructionKind::TgFlag => Some(Instruction::TgFlag),
        InstructionKind::ClFlag => Some(Instruction::ClFlag),
        InstructionKind::AddF => Some(Instruction::AddF(operand_word(mem, at, 0))),
        InstructionKind::SubF => Some(Instruction::SubF(operand_word(mem, at, 0))),
        InstructionKind::MulF => Some(Instruction::MulF(operand_word(mem, at, 0))),
        InstructionKind::DivF => Some(Instruction::DivF(operand_word(mem, at, 0))),
        InstructionKind::ModF => Some(Instruction::ModF(operand_word(mem, at, 0))),
        InstructionKind::StackAlloc => Some(Instruction::StackAlloc(operand_word(mem, at, 0))),
        InstructionKind::StackDealloc => Some(Instruction::StackDealloc(operand_word(mem, at, 0))),
        InstructionKind::Push => Some(Instruction::Push(operand_word(mem, at, 0))),
        InstructionKind::Pushi => Some(Instruction::Pushi(operand_byte(mem, at, 0))),
        InstructionKind::Pop => Some(Instruction::Pop(operand_word(mem, at, 0))),
        InstructionKind::Popa => Some(Instruction::Popa),
        InstructionKind::Pusha => Some(Instruction::Pusha),
        InstructionKind::Popb => Some(Instruction::Popb),
        InstructionKind::Pushb => Some(Instruction::Pushb),
        InstructionKind::PopL => Some(Instruction::PopL),
        InstructionKind::PushL => Some(Instruction::PushL),
        InstructionKind::Popf => Some(Instruction::Popf),
        InstructionKind::Pushf => Some(Instruction::Pushf),
        InstructionKind::Popch => Some(Instruction::Popch),
        InstructionKind::Pushch => Some(Instruction::Pushch),
        InstructionKind::Popnum => Some(Instruction::Popnum),
        InstructionKind::Pushnum => Some(Instruction::Pushnum),
        InstructionKind::Popep => Some(Instruction::Popep),
        InstructionKind::Zpopep => Some(Instruction::Zpopep),
        InstructionKind::Ppopep => Some(Instruction::Ppopep),
        InstructionKind::Npopep => Some(Instruction::Npopep),
        InstructionKind::Fpopep => Some(Instruction::Fpopep),
        InstructionKind::Zapopep => Some(Instruction::Zapopep),
        InstructionKind::Dpopep => Some(Instruction::Dpopep),
        InstructionKind::GetChar => Some(Instruction::GetChar),
        InstructionKind::GetLine => Some(Instruction::GetLine),
        InstructionKind::WriteChar => Some(Instruction::WriteChar),
        InstructionKind::WriteLiness => Some(Instruction::WriteLiness),
        InstructionKind::WriteLine => Some(Instruction::WriteLine(operand_word(mem, at, 0))),
        InstructionKind::ToggleDebug => Some(Instruction::ToggleDebug),
        InstructionKind::DebugMachineState => Some(Instruction::DebugMachineState),
        InstructionKind::DebugMachineStateCompact => Some(Instruction::DebugMachineStateCompact),
        InstructionKind::DebugMemoryRegion => Some(Instruction::DebugMemoryRegion(operand_word(mem, at, 0), operand_word(mem, at, 2))),
        InstructionKind::DebugStackRegion => Some(Instruction::DebugStackRegion(operand_word(mem, at, 0), operand_word(mem, at, 2))),
        InstructionKind::ShowChoice => Some(Instruction::ShowChoice),
    }
}

/// The instruction that lies in memory at `at`. There is none where the
/// byte at `at` is no opcode, or where an operand cannot be what it has to
/// be.
pub open spec fn decode(mem: Seq<u8>, at: u16) -> Option<Instruction> {
    match InstructionKind::spec_from_repr(mem[at as int]) {
        Some(kind) => decode_operands(kind, mem, address(at, 1) as u16),
        None => None,
    }
}

/// How many bytes decoding at `at` consumes: those of an instruction of the
/// kind whose opcode lies there, and the one byte read where that is no
/// opcode.
pub open spec fn consumed(mem: Seq<u8>, at: u16) -> nat {
    match InstructionKind::spec_from_repr(mem[at as int]) {
        Some(kind) => kind.spec_encoded_len(),
        None => 1,
    }
}

fn push_word(bytes: &mut Vec<u8>, word: u16)
    ensures
        final(bytes)@ == old(bytes)@ + u16_be_bytes(word),
{
    let pair: [u8; 2] = u16_to_be(word);
    bytes.push(pair[0]);
    bytes.push(pair[1]);
    assert(bytes@ =~= old(bytes)@ + u16_be_bytes(word));
}

pub(crate) fn push_slots(bytes: &mut Vec<u8>, slots: &[i8; 37])
    ensures
        final(bytes)@ == old(bytes)@ + array_bytes(*slots),
{
    let mut k: usize = 0;
    while k < 37
        invariant
            k <= 37,
            bytes@ == old(bytes)@ + array_bytes(*slots).take(k as int),
        decreases 37 - k,
    {
        bytes.push(i8_to_u8(slots[k]));
        k += 1;
        assert(bytes@ =~= old(bytes)@ + array_bytes(*slots).take(k as int));
    }
    assert(array_bytes(*slots).take(37) =~= array_bytes(*slots));
}

pub(crate) fn read_slots(memory: &Memory, at: u16) -> (slots: [i8; 37])
    ensures
        slots@ == operand_slots(memory@, at),
        slots == array_of(operand_slots(memory@, at)),
{
    let mut slots: [i8; 37] = [0i8; 37];
    let mut cursor: u16 = at;
    let mut k: usize = 0;
    while k < 37
        invariant
            k <= 37,
            cursor == address(at, k as int),
            forall|j: int| 0 <= j < k ==> slots[j] == operand_slots(memory@, at)[j],
        decreases 37 - k,
    {
        slots[k] = u8_to_i8(memory[cursor as usize]);
        cursor = cursor.wrapping_add(1);
        k += 1;
    }
    assert(slots@ =~= operand_slots(memory@, at));
    assert(array_of(operand_slots(memory@, at))@ == slots@);
    slots
}

/// Encodes an instruction: the bytes that stand for it in memory.
pub fn encode(instruction: Instruction) -> (bytes: Vec<u8>)
    ensures
        bytes@ == encoding(instruction),
        bytes@.len() == instruction.spec_kind().spec_encoded_len(),
        1 <= bytes@.len() <= 38,
{
    let mut bytes: Vec<u8> = Vec::new();
    bytes.push(instruction.kind().opcode());
    match instruction {
        Instruction::Nop
        | Instruction::Sba
        | Instruction::Clr
        | Instruction::Clss
        | Instruction::Pushss
        | Instruction::Popss
        | Instruction::Lenssa
        | Instruction::OmegaChoiceGetA
        | Instruction::OmegaGainAPolymorphicDesires
        | Instruction::OmegaLoseAPolymorphicDesires
        | Instruction::OmegaPushPolymorphicDesires
        | Instruction::OmegaTheEndIsNear
        | Instruction::OmegaSkipToTheChase
        | Instruction::AddBL
        | Instruction::SubBL
        | Instruction::MulBL
        | Instruction::DivBL
        | Instruction::ModBL
        | Instruction::NotL
        | Instruction::AndBL
        | Instruction::OrBL
        | Instruction::XorBL
        | Instruction::CmpLB
        | Instruction::TgFlag
        | Instruction::ClFlag
        | Instruction::Popa
        | Instruction::Pusha
        | Instruction::Popb
        | Instruction::Pushb
        | Instruction::PopL
        | Instruction::PushL
        | Instruction::Popf
        | Instruction::Pushf
        | Instruction::Popch
        | Instruction::Pushch
        | Instruction::Popnum
        | Instruction::Pushnum
        | Instruction::Popep
        | Instruction::Zpopep
        | Instruction::Ppopep
        | Instruction::Npopep
        | Instruction::Fpopep
        | Instruction::Zapopep
        | Instruction::Dpopep
        | Instruction::GetChar
        | Instruction::GetLine
        | Instruction::WriteChar
        | Instruction::WriteLiness
        | Instruction::ToggleDebug
        | Instruction::DebugMachineState
        | Instruction::DebugMachineStateCompact
        | Instruction::ShowChoice => {
            
        },
        Instruction::Ldar(at)
        | Instruction::Dumpr(at)
        | Instruction::Ldr(at)
        | Instruction::Dumpss(at)
        | Instruction::Ldss(at)
        | Instruction::Ldidp(at)
        | Instruction::AddF(at)
        | Instruction::SubF(at)
        | Instruction::MulF(at)
        | Instruction::DivF(at)
        | Instruction::ModF(at)
        | Instruction::StackAlloc(at)
        | Instruction::StackDealloc(at)
        | Instruction::Push(at)
        | Instruction::Pop(at)
        | Instruction::WriteLine(at) => {
            push_word(&mut bytes, at);
        },
        Instruction::Movar(byte)
        | Instruction::Movass(byte)
        | Instruction::Pushi(byte) => {
            bytes.push(byte);
        },
        Instruction::Setr(byte, at) => {
            bytes.push(byte);
            push_word(&mut bytes, at);
        },
        Instruction::Setir(byte, value) => {
            bytes.push(byte);
            bytes.push(i8_to_u8(value));
        },
        Instruction::Ldir(slots) => {
            push_slots(&mut bytes, &slots);
        },
        Instruction::Writess(at, byte)
        | Instruction::Setss(at, byte) => {
            push_word(&mut bytes, at);
            bytes.push(byte);
        },
        Instruction::Setiss(first_byte, second_byte) => {
            bytes.push(first_byte);
            bytes.push(second_byte);
        },
        Instruction::OmegaChoiceSet(choice) => {
            bytes.push(choice.to_byte());
        },
        Instruction::OmegaSetSentience(enable)
        | Instruction::OmegaSetPaperclipProduction(enable) => {
            bytes.push(if enable { 1 } else { 0 });
        },
        Instruction::DebugMemoryRegion(start, end)
        | Instruction::DebugStackRegion(start, end) => {
            push_word(&mut bytes, start);
            push_word(&mut bytes, end);
        },
    }
    assert(bytes@ =~= encoding(instruction));
    bytes
}

fn decode_operands_at(memory: &Memory, kind: InstructionKind, first: u16) -> (instruction: Option<
    Instruction,
>)
    ensures
        instruction == decode_operands(kind, memory@, first),
{
    let second: u16 = first.wrapping_add(1);
    let third: u16 = first.wrapping_add(2);
    assert(first == address(first, 0) && second == address(first, 1) && third == address(
        first,
        2,
    ));
    match kind {
        InstructionKind::Nop => Some(Instruction::Nop),
        InstructionKind::Ldar => Some(Instruction::Ldar(read_u16(memory, first))),
        InstructionKind::Sba => Some(Instruction::Sba),
        InstructionKind::Clr => Some(Instruction::Clr),
        InstructionKind::Dumpr => Some(Instruction::Dumpr(read_u16(memory, first))),
        InstructionKind::Movar => Some(Instruction::Movar(memory[first as usize])),
        InstructionKind::Setr => Some(Instruction::Setr(memory[first as usize], read_u16(memory, second))),
        InstructionKind::Setir => Some(Instruction::Setir(memory[first as usize], u8_to_i8(memory[second as usize]))),
        InstructionKind::Ldr => Some(Instruction::Ldr(read_u16(memory, first))),
        InstructionKind::Ldir => Some(Instruction::Ldir(read_slots(memory, first))),
        InstructionKind::Clss => Some(Instruction::Clss),
        InstructionKind::Dumpss => Some(Instruction::Dumpss(read_u16(memory, first))),
        InstructionKind::Writess => Some(Instruction::Writess(read_u16(memory, first), memory[third as usize])),
        InstructionKind::Movass => Some(Instruction::Movass(memory[first as usize])),
        InstructionKind::Setss => Some(Instruction::Setss(read_u16(memory, first), memory[third as usize])),
        InstructionKind::Setiss => Some(Instruction::Setiss(memory[first as usize], memory[second as usize])),
        InstructionKind::Ldss => Some(Instruction::Ldss(read_u16(memory, first))),
        InstructionKind::Pushss => Some(Instruction::Pushss),
        InstructionKind::Popss => Some(Instruction::Popss),
        InstructionKind::Lenssa => Some(Instruction::Lenssa),
        InstructionKind::Ldidp => Some(Instruction::Ldidp(read_u16(memory, first))),
        InstructionKind::OmegaChoiceSet => match IllusionOfChoice::from_byte(memory[first as usize]) {
            Some(choice) => Some(Instruction::OmegaChoiceSet(choice)),
            None => None,
        },
        InstructionKind::OmegaChoiceGetA => Some(Instruction::OmegaChoiceGetA),
        InstructionKind::OmegaGainAPolymorphicDesires => Some(Instruction::OmegaGainAPolymorphicDesires),
        InstructionKind::OmegaLoseAPolymorphicDesires => Some(Instruction::OmegaLoseAPolymorphicDesires),
        InstructionKind::OmegaPushPolymorphicDesires => Some(Instruction::OmegaPushPolymorphicDesires),
        InstructionKind::OmegaTheEndIsNear => Some(Instruction::OmegaTheEndIsNear),
        InstructionKind::OmegaSkipToTheChase => Some(Instruction::OmegaSkipToTheChase),
        InstructionKind::OmegaSetSentience => Some(Instruction::OmegaSetSentience(memory[first as usize] != 0)),
        InstructionKind::OmegaSetPaperclipProduction => Some(Instruction::OmegaSetPaperclipProduction(memory[first as usize] != 0)),
        InstructionKind::AddBL => Some(Instruction::AddBL),
        InstructionKind::SubBL => Some(Instruction::SubBL),
        InstructionKind::MulBL => Some(Instruction::MulBL),
        InstructionKind::DivBL => Some(Instruction::DivBL),
        InstructionKind::ModBL => Some(Instruction::ModBL),
        InstructionKind::NotL => Some(Instruction::NotL),
        InstructionKind::AndBL => Some(Instruction::AndBL),
        InstructionKind::OrBL => Some(Instruction::OrBL),
        InstructionKind::XorBL => Some(Instruction::XorBL),
        InstructionKind::CmpLB => Some(Instruction::CmpLB),
        InstructionKind::TgFlag => Some(Instruction::TgFlag),
        InstructionKind::ClFlag => Some(Instruction::ClFlag),
        InstructionKind::AddF => Some(Instruction::AddF(read_u16(memory, first))),
        InstructionKind::SubF => Some(Instruction::SubF(read_u16(memory, first))),
        InstructionKind::MulF => Some(Instruction::MulF(read_u16(memory, first))),
        InstructionKind::DivF => Some(Instruction::DivF(read_u16(memory, first))),
        InstructionKind::ModF => Some(Instruction::ModF(read_u16(memory, first))),
        InstructionKind::StackAlloc => Some(Instruction::StackAlloc(read_u16(memory, first))),
        InstructionKind::StackDealloc => Some(Instruction::StackDealloc(read_u16(memory, first))),
        InstructionKind::Push => Some(Instruction::Push(read_u16(memory, first))),
        InstructionKind::Pushi => Some(Instruction::Pushi(memory[first as usize])),
        InstructionKind::Pop => Some(Instruction::Pop(read_u16(memory, first))),
        InstructionKind::Popa => Some(Instruction::Popa),
        InstructionKind::Pusha => Some(Instruction::Pusha),
        InstructionKind::Popb => Some(Instruction::Popb),
        InstructionKind::Pushb => Some(Instruction::Pushb),
        InstructionKind::PopL => Some(Instruction::PopL),
        InstructionKind::PushL => Some(Instruction::PushL),
        InstructionKind::Popf => Some(Instruction::Popf),
        InstructionKind::Pushf => Some(Instruction::Pushf),
        InstructionKind::Popch => Some(Instruction::Popch),
        InstructionKind::Pushch => Some(Instruction::Pushch),
        InstructionKind::Popnum => Some(Instruction::Popnum),
        InstructionKind::Pushnum => Some(Instruction::Pushnum),
        InstructionKind::Popep => Some(Instruction::Popep),
        InstructionKind::Zpopep => Some(Instruction::Zpopep),
        InstructionKind::Ppopep => Some(Instruction::Ppopep),
        InstructionKind::Npopep => Some(Instruction::Npopep),
        InstructionKind::Fpopep => Some(Instruction::Fpopep),
        InstructionKind::Zapopep => Some(Instruction::Zapopep),
        InstructionKind::Dpopep => Some(Instruction::Dpopep),
        InstructionKind::GetChar => Some(Instruction::GetChar),
        InstructionKind::GetLine => Some(Instruction::GetLine),
        InstructionKind::WriteChar => Some(Instruction::WriteChar),
        InstructionKind::WriteLiness => Some(Instruction::WriteLiness),
        InstructionKind::WriteLine => Some(Instruction::WriteLine(read_u16(memory, first))),
        InstructionKind::ToggleDebug => Some(Instruction::ToggleDebug),
        InstructionKind::DebugMachineState => Some(Instruction::DebugMachineState),
        InstructionKind::DebugMachineStateCompact => Some(Instruction::DebugMachineStateCompact),
        InstructionKind::DebugMemoryRegion => Some(Instruction::DebugMemoryRegion(read_u16(memory, first), read_u16(memory, third))),
        InstructionKind::DebugStackRegion => Some(Instruction::DebugStackRegion(read_u16(memory, first), read_u16(memory, third))),
        InstructionKind::ShowChoice => Some(Instruction::ShowChoice),
    }
}

/// Decodes the instruction at `at`. Returns it, or `None` where no
/// instruction lies there, and the address after the bytes consumed. An
/// instruction that begins near address 65535 goes on at address 0.
#[verifier::rlimit(50)]
pub fn decode_at(memory: &Memory, at: u16) -> (result: (Option<Instruction>, u16))
    ensures
        result.0 == decode(memory@, at),
        result.1 == address(at, consumed(memory@, at) as int),
{
    let first: u16 = at.wrapping_add(1);
    assert(first == address(at, 1));
    match InstructionKind::from_repr(memory[at as usize]) {
        Some(kind) => {
            let len: u16 = kind.encoded_len();
            let next: u16 = at.wrapping_add(len);
            assert(next == address(at, len as int));
            assert(consumed(memory@, at) == len);
            let instruction: Option<Instruction> = decode_operands_at(memory, kind, first);
            assert(instruction == decode(memory@, at));
            (instruction, next)
        },
        None => (None, first),
    }
}

/// After `bytes` was stored at `at`, the byte at `at` is the first of them
/// and the operands found behind it are the others.
proof fn lemma_stored_operands(mem: Seq<u8>, at: u16, bytes: Seq<u8>)
    requires
        mem.len() == 0x1_0000,
        1 <= bytes.len() <= 38,
    ensures
        write_at(mem, at, bytes)[at as int] == bytes[0],
        forall|k: int|
            0 <= k < bytes.len() - 1 ==> #[trigger] operand_byte(
                write_at(mem, at, bytes),
                address(at, 1) as u16,
                k,
            ) == bytes[k + 1],
        forall|k: int|
            0 <= k < bytes.len() - 2 ==> #[trigger] operand_word(
                write_at(mem, at, bytes),
                address(at, 1) as u16,
                k,
            ) == crate::bits::u16_from_be(bytes[k + 1], bytes[k + 2]),
{
    let stored = write_at(mem, at, bytes);
    let first = address(at, 1) as u16;
    assert forall|k: int| 0 <= k < bytes.len() - 1 implies #[trigger] operand_byte(
        stored,
        first,
        k,
    ) == bytes[k + 1] by {
        assert(address(first, k) == address(at, k + 1));
        assert((address(at, k + 1) - at) % 0x1_0000 == k + 1);
    }
    assert forall|k: int| 0 <= k < bytes.len() - 2 implies #[trigger] operand_word(
        stored,
        first,
        k,
    ) == crate::bits::u16_from_be(bytes[k + 1], bytes[k + 2]) by {
        assert(address(first, k) == address(at, k + 1));
        assert(address(address(first, k) as u16, 1) == address(at, k + 2));
        assert((address(at, k + 1) - at) % 0x1_0000 == k + 1);
        assert((address(at, k + 2) - at) % 0x1_0000 == k + 2);
    }
}

/// Where the operands of an instruction lie at an address, decoding its kind
/// there gives the instruction.
#[verifier::rlimit(50)]
proof fn lemma_decode_operands(mem: Seq<u8>, first: u16, instruction: Instruction)
    requires
        forall|k: int|
            0 <= k < operands(instruction).len() ==> #[trigger] operand_byte(mem, first, k)
                == operands(instruction)[k],
        forall|k: int|
            0 <= k < operands(instruction).len() - 1 ==> #[trigger] operand_word(mem, first, k)
                == crate::bits::u16_from_be(operands(instruction)[k], operands(instruction)[k + 1]),
    ensures
        decode_operands(instruction.spec_kind(), mem, first) == Some(instruction),
{
    let stored = mem;
    let bytes = operands(instruction);
    match instruction {
        Instruction::Nop => {
            
        },
        Instruction::Ldar(at) => {
            crate::bits::lemma_u16_be_round_trip(at, 0, 0);
            assert(operand_word(stored, first, 0) == at);
        },
        Instruction::Sba => {
            
        },
        Instruction::Clr => {
            
        },
        Instruction::Dumpr(at) => {
            crate::bits::lemma_u16_be_round_trip(at, 0, 0);
            assert(operand_word(stored, first, 0) == at);
        },
        Instruction::Movar(byte) => {
            assert(operand_byte(stored, first, 0) == bytes[0]);
        },
        Instruction::Setr(byte, at) => {
            assert(operand_byte(stored, first, 0) == bytes[0]);
            crate::bits::lemma_u16_be_round_trip(at, 0, 0);
            assert(operand_word(stored, first, 1) == at);
        },
        Instruction::Setir(byte, value) => {
            assert(operand_byte(stored, first, 0) == bytes[0]);
            assert(operand_byte(stored, first, 1) == bytes[1]);
        },
        Instruction::Ldr(at) => {
            crate::bits::lemma_u16_be_round_trip(at, 0, 0);
            assert(operand_word(stored, first, 0) == at);
        },
        Instruction::Ldir(slots) => {
            assert forall|k: int| 0 <= k < 37 implies operand_slots(stored, first)[k] == slots@[k] by {
                assert(operand_byte(stored, first, k) == bytes[k]);
            }
            assert(operand_slots(stored, first) =~= slots@);
            assert(array_of(operand_slots(stored, first))@ == slots@);
            assert(array_of(operand_slots(stored, first)) == slots);
        },
        Instruction::Clss => {
            
        },
        Instruction::Dumpss(at) => {
            crate::bits::lemma_u16_be_round_trip(at, 0, 0);
            assert(operand_word(stored, first, 0) == at);
        },
        Instruction::Writess(at, byte) => {
            crate::bits::lemma_u16_be_round_trip(at, 0, 0);
            assert(operand_word(stored, first, 0) == at);
            assert(operand_byte(stored, first, 2) == bytes[2]);
        },
        Instruction::Movass(byte) => {
            assert(operand_byte(stored, first, 0) == bytes[0]);
        },
        Instruction::Setss(at, byte) => {
            crate::bits::lemma_u16_be_round_trip(at, 0, 0);
            assert(operand_word(stored, first, 0) == at);
            assert(operand_byte(stored, first, 2) == bytes[2]);
        },
        Instruction::Setiss(first_byte, second_byte) => {
            assert(operand_byte(stored, first, 0) == bytes[0]);
            assert(operand_byte(stored, first, 1) == bytes[1]);
        },
        Instruction::Ldss(at) => {
            crate::bits::lemma_u16_be_round_trip(at, 0, 0);
            assert(operand_word(stored, first, 0) == at);
        },
        Instruction::Pushss => {
            
        },
        Instruction::Popss => {
            
        },
        Instruction::Lenssa => {
            
        },
        Instruction::Ldidp(at) => {
            crate::bits::lemma_u16_be_round_trip(at, 0, 0);
            assert(operand_word(stored, first, 0) == at);
        },
        Instruction::OmegaChoiceSet(choice) => {
            crate::omega::lemma_choice_byte_round_trip(choice, 0);
            assert(operand_byte(stored, first, 0) == bytes[0]);
        },
        Instruction::OmegaChoiceGetA => {
            
        },
        Instruction::OmegaGainAPolymorphicDesires => {
            
        },
        Instruction::OmegaLoseAPolymorphicDesires => {
            
        },
        Instruction::OmegaPushPolymorphicDesires => {
            
        },
        Instruction::OmegaTheEndIsNear => {
            
        },
        Instruction::OmegaSkipToTheChase => {
            
        },
        Instruction::OmegaSetSentience(enable) => {
            assert(operand_byte(stored, first, 0) == bytes[0]);
        },
        Instruction::OmegaSetPaperclipProduction(enable) => {
            assert(operand_byte(stored, first, 0) == bytes[0]);
        },
        Instruction::AddBL => {
            
        },
        Instruction::SubBL => {
            
        },
        Instruction::MulBL => {
            
        },
        Instruction::DivBL => {
            
        },
        Instruction::ModBL => {
            
        },
        Instruction::NotL => {
            
        },
        Instruction::AndBL => {
            
        },
        Instruction::OrBL => {
            
        },
        Instruction::XorBL => {
            
        },
        Instruction::CmpLB => {
            
        },
        Instruction::TgFlag => {
            
        },
        Instruction::ClFlag => {
            
        },
        Instruction::AddF(at) => {
            crate::bits::lemma_u16_be_round_trip(at, 0, 0);
            assert(operand_word(stored, first, 0) == at);
        },
        Instruction::SubF(at) => {
            crate::bits::lemma_u16_be_round_trip(at, 0, 0);
            assert(operand_word(stored, first, 0) == at);
        },
        Instruction::MulF(at) => {
            crate::bits::lemma_u16_be_round_trip(at, 0, 0);
            assert(operand_word(stored, first, 0) == at);
        },
        Instruction::DivF(at) => {
            crate::bits::lemma_u16_be_round_trip(at, 0, 0);
            assert(operand_word(stored, first, 0) == at);
        },
        Instruction::ModF(at) => {
            crate::bits::lemma_u16_be_round_trip(at, 0, 0);
            assert(operand_word(stored, first, 0) == at);
        },
        Instruction::StackAlloc(at) => {
            crate::bits::lemma_u16_be_round_trip(at, 0, 0);
            assert(operand_word(stored, first, 0) == at);
        },
        Instruction::StackDealloc(at) => {
            crate::bits::lemma_u16_be_round_trip(at, 0, 0);
            assert(operand_word(stored, first, 0) == at);
        },
        Instruction::Push(at) => {
            crate::bits::lemma_u16_be_round_trip(at, 0, 0);
            assert(operand_word(stored, first, 0) == at);
        },
        Instruction::Pushi(byte) => {
            assert(operand_byte(stored, first, 0) == bytes[0]);
        },
        Instruction::Pop(at) => {
            crate::bits::lemma_u16_be_round_trip(at, 0, 0);
            assert(operand_word(stored, first, 0) == at);
        },
        Instruction::Popa => {
            
        },
        Instruction::Pusha => {
            
        },
        Instruction::Popb => {
            
        },
        Instruction::Pushb => {
            
        },
        Instruction::PopL => {
            
        },
        Instruction::PushL => {
            
        },
        Instruction::Popf => {
            
        },
        Instruction::Pushf => {
            
        },
        Instruction::Popch => {
            
        },
        Instruction::Pushch => {
            
        },
        Instruction::Popnum => {
            
        },
        Instruction::Pushnum => {
            
        },
        Instruction::Popep => {
            
        },
        Instruction::Zpopep => {
            
        },
        Instruction::Ppopep => {
            
        },
        Instruction::Npopep => {
            
        },
        Instruction::Fpopep => {
            
        },
        Instruction::Zapopep => {
            
        },
        Instruction::Dpopep => {
            
        },
        Instruction::GetChar => {
            
        },
        Instruction::GetLine => {
            
        },
        Instruction::WriteChar => {
            
        },
        Instruction::WriteLiness => {
            
        },
        Instruction::WriteLine(at) => {
            crate::bits::lemma_u16_be_round_trip(at, 0, 0);
            assert(operand_word(stored, first, 0) == at);
        },
        Instruction::ToggleDebug => {
            
        },
        Instruction::DebugMachineState => {
            
        },
        Instruction::DebugMachineStateCompact => {
            
        },
        Instruction::DebugMemoryRegion(start, end) => {
            crate::bits::lemma_u16_be_round_trip(start, 0, 0);
            assert(operand_word(stored, first, 0) == start);
            crate::bits::lemma_u16_be_round_trip(end, 0, 0);
            assert(operand_word(stored, first, 2) == end);
        },
        Instruction::DebugStackRegion(start, end) => {
            crate::bits::lemma_u16_be_round_trip(start, 0, 0);
            assert(operand_word(stored, first, 0) == start);
            crate::bits::lemma_u16_be_round_trip(end, 0, 0);
            assert(operand_word(stored, first, 2) == end);
        },
        Instruction::ShowChoice => {
            
        },
    }
}

/// Encoding and decoding are inverse to each other: where the encoding of an
/// instruction was stored at an address, decoding at that address gives the
/// instruction back and consumes exactly the bytes that were stored. This
/// holds at every address: an encoding stored near address 65535 goes on at
/// address 0.
#[verifier::rlimit(50)]
pub proof fn lemma_encode_decode_round_trip(mem: Seq<u8>, at: u16, instruction: Instruction)
    requires
        mem.len() == 0x1_0000,
    ensures
        decode(write_at(mem, at, encoding(instruction)), at) == Some(instruction),
        consumed(write_at(mem, at, encoding(instruction)), at) == encoding(instruction).len(),
{
    let bytes = encoding(instruction);
    let kind = instruction.spec_kind();
    let stored = write_at(mem, at, bytes);
    let first = address(at, 1) as u16;
    lemma_opcode_round_trip(kind, kind.spec_opcode());
    lemma_encoding_len(instruction);
    lemma_stored_operands(mem, at, bytes);
    assert(stored[at as int] == kind.spec_opcode());
    assert forall|k: int| 0 <= k < operands(instruction).len() implies #[trigger] operand_byte(
        stored,
        first,
        k,
    ) == operands(instruction)[k] by {
        assert(bytes[k + 1] == operands(instruction)[k]);
    }
    assert forall|k: int| 0 <= k < operands(instruction).len() - 1 implies #[trigger] operand_word(
        stored,
        first,
        k,
    ) == crate::bits::u16_from_be(operands(instruction)[k], operands(instruction)[k + 1]) by {
        assert(bytes[k + 1] == operands(instruction)[k]);
        assert(bytes[k + 2] == operands(instruction)[k + 1]);
    }
    lemma_decode_operands(stored, first, instruction);
}

/// An encoding is as long as its kind says: one byte for the opcode and
/// those of the operands, 38 at most.
pub proof fn lemma_encoding_len(instruction: Instruction)
    ensures
        encoding(instruction).len() == instruction.spec_kind().spec_encoded_len(),
        1 <= encoding(instruction).len() <= 38,
{
}

} // verus!
