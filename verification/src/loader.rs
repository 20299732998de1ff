//! Getting instructions into memory and out of it again: the loader, which
//! stores items one after the other, and the fetch, which decodes what lies
//! at the execution pointer.

use vstd::prelude::*;
use crate::bits::{u32_from_be, u32_of_be, u64_from_be, u64_of_be};
use crate::encoding::{
    consumed, decode, decode_at, encode, encoding, lemma_encode_decode_round_trip,
};
use crate::instruction::{DataOrInstruction, Instruction, InstructionKind};
use crate::machine::Machine;
use crate::memory::{
    address, lemma_address_adds, lemma_store_in_sequence, lemma_store_one, read_at, read_u16,
    read_u16_at, write_at, write_bytes,
};
use crate::state::MachineState;

verus! {

/// Memory and the offset after a block of bytes was loaded at `offset`. A
/// block that reaches beyond the end of memory goes on at its start.
pub open spec fn block_loaded(mem: Seq<u8>, offset: u16, bytes: Seq<u8>) -> (Seq<u8>, u16) {
    (write_at(mem, offset, bytes), address(offset, bytes.len() as int) as u16)
}

/// Memory and the offset after an instruction was loaded at `offset`. An
/// instruction that begins near the end of memory goes on at its start.
pub open spec fn instruction_loaded(mem: Seq<u8>, offset: u16, instruction: Instruction) -> (
    Seq<u8>,
    u16,
) {
    (
        write_at(mem, offset, encoding(instruction)),
        address(offset, encoding(instruction).len() as int) as u16,
    )
}

/// Memory and the offset after an item was loaded at `offset`.
pub open spec fn item_loaded(mem: Seq<u8>, offset: u16, item: DataOrInstruction) -> (Seq<u8>, u16) {
    match item {
        DataOrInstruction::ByteData(byte) => (
            mem.update(offset as int, byte),
            address(offset, 1) as u16,
        ),
        DataOrInstruction::Data(bytes) => block_loaded(mem, offset, bytes@),
        DataOrInstruction::Instruction(instruction) => instruction_loaded(mem, offset, instruction),
    }
}

/// Memory and the offset after the items were loaded one after the other,
/// the first of them at `offset`. Nothing keeps a later item from replacing
/// the bytes of an earlier one.
pub open spec fn items_loaded(mem: Seq<u8>, offset: u16, items: Seq<DataOrInstruction>) -> (
    Seq<u8>,
    u16,
)
    decreases items.len(),
{
    if items.len() == 0 {
        (mem, offset)
    } else {
        let (before, at) = items_loaded(mem, offset, items.drop_last());
        item_loaded(before, at, items.last())
    }
}

/// Memory and the offset after the instructions were loaded one after the
/// other, the first of them at `offset`.
pub open spec fn instructions_loaded(mem: Seq<u8>, offset: u16, instructions: Seq<Instruction>) -> (
    Seq<u8>,
    u16,
)
    decreases instructions.len(),
{
    if instructions.len() == 0 {
        (mem, offset)
    } else {
        let (before, at) = instructions_loaded(mem, offset, instructions.drop_last());
        instruction_loaded(before, at, instructions.last())
    }
}

/// How many bytes an item takes in memory.
pub open spec fn item_len(item: DataOrInstruction) -> nat {
    match item {
        DataOrInstruction::ByteData(_) => 1,
        DataOrInstruction::Data(bytes) => bytes@.len(),
        DataOrInstruction::Instruction(instruction) => encoding(instruction).len(),
    }
}

/// The bytes that stand for an item in memory.
pub open spec fn item_bytes(item: DataOrInstruction) -> Seq<u8> {
    match item {
        DataOrInstruction::ByteData(byte) => seq![byte],
        DataOrInstruction::Data(bytes) => bytes@,
        DataOrInstruction::Instruction(instruction) => encoding(instruction),
    }
}

/// How many bytes the items take in memory, all together.
pub open spec fn items_len(items: Seq<DataOrInstruction>) -> nat
    decreases items.len(),
{
    if items.len() == 0 {
        0
    } else {
        items_len(items.drop_last()) + item_len(items.last())
    }
}

/// The state after the execution pointer moved on by `n` bytes.
pub open spec fn advanced(s: MachineState, n: int) -> MachineState {
    MachineState { reg_ep: address(s.reg_ep, n) as u16, ..s }
}

/// The state with other bytes in memory.
pub open spec fn with_memory(s: MachineState, mem: Seq<u8>) -> MachineState {
    MachineState { memory: mem, ..s }
}

/// The loader writes on from where it is: every item is stored as its
/// bytes at the offset that the items before it have left, wrapping around
/// the end of memory, and moves the offset on by its length. So the offset
/// after all items is the first offset moved on by the length of them all.
#[verifier::rlimit(50)]
pub proof fn lemma_items_are_loaded_in_sequence(
    mem: Seq<u8>,
    offset: u16,
    items: Seq<DataOrInstruction>,
)
    requires
        mem.len() == 0x1_0000,
    ensures
        items_loaded(mem, offset, items).0.len() == 0x1_0000,
        items_loaded(mem, offset, items).1 == address(offset, items_len(items) as int),
        items.len() > 0 ==> ({
            let (before, at) = items_loaded(mem, offset, items.drop_last());
            &&& at == address(offset, items_len(items.drop_last()) as int)
            &&& items_loaded(mem, offset, items).0 == write_at(
                before,
                at,
                item_bytes(items.last()),
            )
        }),
    decreases items.len(),
{
    if items.len() > 0 {
        let earlier = items.drop_last();
        lemma_items_are_loaded_in_sequence(mem, offset, earlier);
        let (before, at) = items_loaded(mem, offset, earlier);
        lemma_item_is_loaded_as_its_bytes(before, at, items.last());
        lemma_address_adds(offset, items_len(earlier) as int, item_len(items.last()) as int);
    }
}

/// An item is stored as its bytes, and moves the offset on by its length.
proof fn lemma_item_is_loaded_as_its_bytes(mem: Seq<u8>, offset: u16, item: DataOrInstruction)
    requires
        mem.len() == 0x1_0000,
    ensures
        item_loaded(mem, offset, item) == (
            write_at(mem, offset, item_bytes(item)),
            address(offset, item_len(item) as int) as u16,
        ),
        item_loaded(mem, offset, item).0.len() == 0x1_0000,
{
    match item {
        DataOrInstruction::ByteData(byte) => {
            lemma_store_one(mem, offset, byte);
        },
        _ => {},
    }
}

/// The encodings of the instructions, end to end.
pub open spec fn encodings(instructions: Seq<Instruction>) -> Seq<u8>
    decreases instructions.len(),
{
    if instructions.len() == 0 {
        Seq::empty()
    } else {
        encodings(instructions.drop_last()) + encoding(instructions.last())
    }
}

/// Loading instructions one after the other is storing their encodings end
/// to end.
#[verifier::rlimit(50)]
pub proof fn lemma_instructions_are_loaded_end_to_end(
    mem: Seq<u8>,
    offset: u16,
    instructions: Seq<Instruction>,
)
    requires
        mem.len() == 0x1_0000,
    ensures
        instructions_loaded(mem, offset, instructions) == (
            write_at(mem, offset, encodings(instructions)),
            address(offset, encodings(instructions).len() as int) as u16,
        ),
    decreases instructions.len(),
{
    if instructions.len() == 0 {
        assert(write_at(mem, offset, Seq::empty()) =~= mem);
    } else {
        let earlier = encodings(instructions.drop_last());
        let last = encoding(instructions.last());
        lemma_instructions_are_loaded_end_to_end(mem, offset, instructions.drop_last());
        lemma_store_in_sequence(mem, offset, earlier, last);
        lemma_address_adds(offset, earlier.len() as int, last.len() as int);
        assert(encodings(instructions) == earlier + last);
        assert((earlier + last).len() == earlier.len() + last.len());
    }
}

/// What was loaded is what is fetched. After an instruction was loaded where
/// the execution pointer points, the machine fetches that instruction, and
/// the execution pointer ends where the loader ended: both pass the same
/// bytes.
pub proof fn lemma_fetch_after_load(s: MachineState, instruction: Instruction)
    requires
        s.wf(),
    ensures
        ({
            let (mem, end) = instruction_loaded(s.memory, s.reg_ep, instruction);
            &&& decode(mem, s.reg_ep) == Some(instruction)
            &&& advanced(with_memory(s, mem), consumed(mem, s.reg_ep) as int).reg_ep == end
        }),
{
    lemma_encode_decode_round_trip(s.memory, s.reg_ep, instruction);
}

impl Machine {
    /// Fetches the byte at the execution pointer and moves the pointer on by
    /// one.
    pub fn fetch_byte(&mut self) -> (byte: u8)
        ensures
            byte == old(self)@.memory[old(self)@.reg_ep as int],
            final(self)@ == advanced(old(self)@, 1),
    {
        let byte: u8 = self.memory[self.reg_ep as usize];
        self.reg_ep = self.reg_ep.wrapping_add(1);
        byte
    }

    /// Fetches the two bytes at the execution pointer as a big-endian number
    /// and moves the pointer on by two.
    pub fn fetch_2_bytes(&mut self) -> (value: u16)
        ensures
            value == read_u16_at(old(self)@.memory, old(self)@.reg_ep),
            final(self)@ == advanced(old(self)@, 2),
    {
        let value: u16 = read_u16(&self.memory, self.reg_ep);
        self.reg_ep = self.reg_ep.wrapping_add(2);
        value
    }

    /// Fetches the four bytes at the execution pointer as a big-endian
    /// number and moves the pointer on by four.
    pub fn fetch_4_bytes(&mut self) -> (value: u32)
        ensures
            value == ({
                let bytes = read_at(old(self)@.memory, old(self)@.reg_ep, 4);
                u32_from_be(bytes[0], bytes[1], bytes[2], bytes[3])
            }),
            final(self)@ == advanced(old(self)@, 4),
    {
        let at: u16 = self.reg_ep;
        let value: u32 = u32_of_be(
            self.memory[at as usize],
            self.memory[at.wrapping_add(1) as usize],
            self.memory[at.wrapping_add(2) as usize],
            self.memory[at.wrapping_add(3) as usize],
        );
        self.reg_ep = at.wrapping_add(4);
        value
    }

    /// Fetches the eight bytes at the execution pointer as a big-endian
    /// number and moves the pointer on by eight.
    pub fn fetch_8_bytes(&mut self) -> (value: u64)
        ensures
            value == u64_from_be(read_at(old(self)@.memory, old(self)@.reg_ep, 8)),
            final(self)@ == advanced(old(self)@, 8),
    {
        let at: u16 = self.reg_ep;
        let bytes: [u8; 8] = [
            self.memory[at as usize],
            self.memory[at.wrapping_add(1) as usize],
            self.memory[at.wrapping_add(2) as usize],
            self.memory[at.wrapping_add(3) as usize],
            self.memory[at.wrapping_add(4) as usize],
            self.memory[at.wrapping_add(5) as usize],
            self.memory[at.wrapping_add(6) as usize],
            self.memory[at.wrapping_add(7) as usize],
        ];
        assert(bytes@ =~= read_at(self.memory@, at, 8));
        self.reg_ep = at.wrapping_add(8);
        u64_of_be(&bytes)
    }

    /// Fetches the byte at the execution pointer as the opcode of a kind of
    /// instruction, and moves the pointer on by one. Gives `None` for a byte
    /// that is no opcode.
    pub fn fetch_instruction_kind(&mut self) -> (kind: Option<InstructionKind>)
        ensures
            kind == InstructionKind::spec_from_repr(
                old(self)@.memory[old(self)@.reg_ep as int],
            ),
            final(self)@ == advanced(old(self)@, 1),
    {
        InstructionKind::from_repr(self.fetch_byte())
    }

    /// Fetches the instruction at the execution pointer, and moves the
    /// pointer on by the bytes that were consumed.
    ///
    /// A halted machine fetches nothing and stays as it is. Otherwise `None`
    /// means that the bytes at the execution pointer are no instruction.
    pub fn fetch_instruction(&mut self) -> (instruction: Option<Instruction>)
        ensures
            old(self)@.halted ==> instruction is None && final(self)@ == old(self)@,
            !old(self)@.halted ==> instruction == decode(old(self)@.memory, old(self)@.reg_ep)
                && final(self)@ == advanced(
                old(self)@,
                consumed(old(self)@.memory, old(self)@.reg_ep) as int,
            ),
    {
        if self.halted {
            return None;
        }
        let (instruction, next): (Option<Instruction>, u16) = decode_at(
            &self.memory,
            self.reg_ep,
        );
        self.reg_ep = next;
        instruction
    }

    /// Loads an instruction into memory at `offset`, and moves `offset` on
    /// by the bytes that were written.
    pub fn load_instruction(&mut self, instruction: Instruction, offset: &mut u16)
        ensures
            final(self)@ == with_memory(
                old(self)@,
                instruction_loaded(old(self)@.memory, *old(offset), instruction).0,
            ),
            *final(offset) == instruction_loaded(old(self)@.memory, *old(offset), instruction).1,
    {
        let bytes: Vec<u8> = encode(instruction);
        write_bytes(&mut self.memory, *offset, bytes.as_slice());
        *offset = offset.wrapping_add(bytes.len() as u16);
    }

    /// Loads a block of bytes into memory at `offset`, and returns the offset
    /// after the block. A block that reaches beyond the end of memory goes
    /// on at its start, so there is always an offset to return.
    pub fn load_bytes(&mut self, bytes: &[u8], offset: u16) -> (end: Option<u16>)
        ensures
            end == Some(block_loaded(old(self)@.memory, offset, bytes@).1),
            final(self)@ == with_memory(
                old(self)@,
                block_loaded(old(self)@.memory, offset, bytes@).0,
            ),
    {
        write_bytes(&mut self.memory, offset, bytes);
        Some(((bytes.len() % 0x1_0000 + offset as usize) % 0x1_0000) as u16)
    }

    /// Loads instructions into memory one after the other, the first of them
    /// at `offset`. Returns the offset after the last.
    pub fn load_instructions(&mut self, instructions: &[Instruction], offset: u16) -> (end: u16)
        ensures
            final(self)@ == with_memory(
                old(self)@,
                instructions_loaded(old(self)@.memory, offset, instructions@).0,
            ),
            end == instructions_loaded(old(self)@.memory, offset, instructions@).1,
    {
        let mut at: u16 = offset;
        let mut k: usize = 0;
        assert(instructions@.take(0) =~= Seq::empty());
        while k < instructions.len()
            invariant
                k <= instructions.len(),
                self@ == with_memory(
                    old(self)@,
                    instructions_loaded(old(self)@.memory, offset, instructions@.take(k as int)).0,
                ),
                at == instructions_loaded(old(self)@.memory, offset, instructions@.take(k as int)).1,
            decreases instructions.len() - k,
        {
            assert(instructions@.take(k + 1).drop_last() =~= instructions@.take(k as int));
            self.load_instruction(instructions[k], &mut at);
            k += 1;
        }
        assert(instructions@.take(k as int) =~= instructions@);
        at
    }

    /// Loads items into memory one after the other, the first of them at
    /// `offset`. Returns the offset after the last.
    pub fn load(&mut self, data: &[DataOrInstruction], offset: u16) -> (end: u16)
        ensures
            final(self)@ == with_memory(
                old(self)@,
                items_loaded(old(self)@.memory, offset, data@).0,
            ),
            end == items_loaded(old(self)@.memory, offset, data@).1,
    {
        let mut at: u16 = offset;
        let mut k: usize = 0;
        assert(data@.take(0) =~= Seq::empty());
        while k < data.len()
            invariant
                k <= data.len(),
                self@ == with_memory(
                    old(self)@,
                    items_loaded(old(self)@.memory, offset, data@.take(k as int)).0,
                ),
                at == items_loaded(old(self)@.memory, offset, data@.take(k as int)).1,
            decreases data.len() - k,
        {
            assert(data@.take(k + 1).drop_last() =~= data@.take(k as int));
            match &data[k] {
                DataOrInstruction::Instruction(instruction) => {
                    self.load_instruction(*instruction, &mut at);
                },
                DataOrInstruction::Data(bytes) => {
                    match self.load_bytes(bytes, at) {
                        Some(end) => {
                            at = end;
                        },
                        None => {},
                    }
                },
                DataOrInstruction::ByteData(byte) => {
                    self.memory[at as usize] = *byte;
                    at = at.wrapping_add(1);
                },
            }
            k += 1;
        }
        assert(data@.take(k as int) =~= data@);
        at
    }
}

} // verus!
