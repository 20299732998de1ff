//! The instruction set: the instructions with their operands, and the kinds
//! of instruction, one for each opcode.

use vstd::prelude::*;
use crate::omega::IllusionOfChoice;

verus! {

/// An instruction with its operands. Memory never holds a value of this
/// type: it holds the opcode of the instruction's kind and, after it, the
/// operands in the order in which they stand here.
#[derive(Debug, Clone, Copy, PartialEq, Eq, Hash, Default)]
#[non_exhaustive]
pub enum Instruction {
    /// Does nothing.
    #[default]
    Nop,
    /// Loads register A with the byte at the address.
    Ldar(u16),
    /// Sets register A to the sign of register B: 0 for zero, 1 for positive,
    /// 255 for negative.
    Sba,
    /// Clears the array register: every slot becomes zero.
    Clr,
    /// Stores the 37 slots of the array register from the address on.
    Dumpr(u16),
    /// Copies the slot of the array register with the given index to register
    /// A; an index past the last slot changes nothing.
    Movar(u8),
    /// Stores the slot of the array register with the given index at the
    /// address; an index past the last slot changes nothing.
    Setr(u8, u16),
    /// Sets the slot of the array register with the given index to the given
    /// value; an index past the last slot changes nothing.
    Setir(u8, i8),
    /// Loads the 37 slots of the array register from the address on.
    Ldr(u16),
    /// Loads the array register with the given 37 values.
    Ldir([i8; 37]),
    /// Empties the string register.
    Clss,
    /// Stores the bytes of the string register from the address on.
    Dumpss(u16),
    /// Stores the byte of the string register with the given index at the
    /// address and in register A; raises the flag if the string is not that
    /// long.
    Writess(u16, u8),
    /// Sets the byte of the string register with the given index to register
    /// A; raises the flag if the string is not that long.
    Movass(u8),
    /// Sets the byte of the string register with the given index to the byte
    /// at the address; raises the flag if the string is not that long.
    Setss(u16, u8),
    /// Sets the byte of the string register with the index given second to
    /// the value given first; raises the flag if the string is not that long.
    Setiss(u8, u8),
    /// Loads the string register with the 255 bytes from the address on;
    /// raises the flag if it cannot hold that many.
    Ldss(u16),
    /// Moves the top byte of the stack to the end of the string register;
    /// raises the flag if the stack is empty or the string full.
    Pushss,
    /// Moves the last byte of the string register onto the stack; raises the
    /// flag if the string is empty or the stack full.
    Popss,
    /// Sets register A to the low byte of the length of the string register.
    Lenssa,
    /// Sets the dot pointer to the address if it is a Fibonacci number that
    /// is prime or semiprime; raises the flag otherwise.
    Ldidp(u16),
    /// Sets the illusion of choice.
    OmegaChoiceSet(IllusionOfChoice),
    /// Sets register A to zero.
    OmegaChoiceGetA,
    /// Adds register A to the polymorphic desires, which stay at their
    /// ceiling once they reach it.
    OmegaGainAPolymorphicDesires,
    /// Subtracts register A from the polymorphic desires, which stay at zero
    /// once they reach it.
    OmegaLoseAPolymorphicDesires,
    /// Pushes the polymorphic desires onto the stack as eight big-endian
    /// bytes; raises the flag if they do not fit.
    OmegaPushPolymorphicDesires,
    /// Creates the feeling of impending doom, which cannot be taken back.
    OmegaTheEndIsNear,
    /// Halts the machine if there is the feeling of impending doom.
    OmegaSkipToTheChase,
    /// Makes the machine sentient if given `true`. Given `false` the machine
    /// refuses: its sentience stays as it is and the flag is raised.
    OmegaSetSentience(bool),
    /// Turns the paperclip production on or off; while it is on, output is
    /// prefixed with the number register.
    OmegaSetPaperclipProduction(bool),
    /// Adds the bits of register B to register L, wrapping; raises the flag
    /// on overflow.
    AddBL,
    /// Subtracts the bits of register B from register L, wrapping; raises the
    /// flag on overflow.
    SubBL,
    /// Multiplies register L by the bits of register B, wrapping; raises the
    /// flag on overflow.
    MulBL,
    /// Divides register L by the bits of register B; division by zero gives
    /// zero.
    DivBL,
    /// Sets register L to its remainder modulo the bits of register B; modulo
    /// zero gives zero.
    ModBL,
    /// Inverts every bit of register L.
    NotL,
    /// Bitwise AND of register L with the bits of register B, to register L.
    AndBL,
    /// Bitwise OR of register L with the bits of register B, to register L.
    OrBL,
    /// Bitwise XOR of register L with the bits of register B, to register L.
    XorBL,
    /// Compares: sets register B to register L minus register B. A register L
    /// above 32767 is first clamped to 32767, and a difference outside the
    /// signed 16-bit range is clamped to 32767; either raises the flag.
    CmpLB,
    /// Toggles the flag.
    TgFlag,
    /// Clears the flag.
    ClFlag,
    /// Adds the float whose eight bytes lie from the address on to register
    /// F.
    AddF(u16),
    /// Subtracts the float whose eight bytes lie from the address on from
    /// register F.
    SubF(u16),
    /// Multiplies register F by the float whose eight bytes lie from the
    /// address on.
    MulF(u16),
    /// Divides register F by the float whose eight bytes lie from the address
    /// on.
    DivF(u16),
    /// Sets register F to its remainder modulo the float whose eight bytes
    /// lie from the address on.
    ModF(u16),
    /// Pushes that many zero bytes onto the stack; raises the flag if they do
    /// not fit.
    StackAlloc(u16),
    /// Pops that many bytes off the stack; raises the flag if it holds fewer.
    StackDealloc(u16),
    /// Pushes the byte at the address onto the stack; raises the flag if the
    /// stack is full.
    Push(u16),
    /// Pushes the given byte onto the stack; raises the flag if the stack is
    /// full.
    Pushi(u8),
    /// Pops a byte off the stack and stores it at the address; raises the
    /// flag if the stack is empty.
    Pop(u16),
    /// Pops a byte off the stack to register A; raises the flag if the stack
    /// is empty.
    Popa,
    /// Pushes register A onto the stack; raises the flag if the stack is
    /// full.
    Pusha,
    /// Pops two bytes off the stack to register B; raises the flag if the
    /// stack holds fewer.
    Popb,
    /// Pushes register B onto the stack as two big-endian bytes; raises the
    /// flag if they do not fit.
    Pushb,
    /// Pops two bytes off the stack to register L; raises the flag if the
    /// stack holds fewer.
    PopL,
    /// Pushes register L onto the stack as two big-endian bytes; raises the
    /// flag if they do not fit.
    PushL,
    /// Pops eight bytes off the stack to register F; raises the flag if the
    /// stack holds fewer.
    Popf,
    /// Pushes register F onto the stack as eight big-endian bytes; raises the
    /// flag if they do not fit.
    Pushf,
    /// Pops four bytes off the stack to the character register; raises the
    /// flag if the stack holds fewer or if they are no character.
    Popch,
    /// Pushes the character register onto the stack as four big-endian bytes;
    /// raises the flag if they do not fit.
    Pushch,
    /// Pops four bytes off the stack to the number register; raises the flag
    /// if the stack holds fewer.
    Popnum,
    /// Pushes the number register onto the stack as four big-endian bytes;
    /// raises the flag if they do not fit.
    Pushnum,
    /// Jumps: pops two bytes off the stack to the execution pointer; raises
    /// the flag if the stack holds fewer.
    Popep,
    /// Jumps as `Popep` does if register B is zero.
    Zpopep,
    /// Jumps as `Popep` does if register B is positive.
    Ppopep,
    /// Jumps as `Popep` does if register B is negative.
    Npopep,
    /// Jumps as `Popep` does if the flag is raised.
    Fpopep,
    /// Jumps as `Popep` does if register A is zero.
    Zapopep,
    /// Jumps as `Popep` does if debug mode is on.
    Dpopep,
    /// Asks the host for one key press, which goes to the character register.
    GetChar,
    /// Asks the host to read a line.
    GetLine,
    /// Writes the character register.
    WriteChar,
    /// Writes the string register.
    WriteLiness,
    /// Writes the bytes from the address on, up to the first zero byte.
    WriteLine(u16),
    /// Toggles debug mode.
    ToggleDebug,
    /// Prints the state of the machine, one field to a line.
    DebugMachineState,
    /// Prints the state of the machine on one line.
    DebugMachineStateCompact,
    /// Prints the bytes of memory from the first address up to the second;
    /// raises the flag if the first lies above the second.
    DebugMemoryRegion(u16, u16),
    /// Prints the bytes of the stack from the first index up to the second;
    /// raises the flag if the stack holds no such range.
    DebugStackRegion(u16, u16),
    /// Prints the illusion of choice.
    ShowChoice,
}

/// A kind of instruction: what is left of an instruction without its
/// operands. Each kind has an opcode of its own.
#[derive(Debug, Clone, Copy, PartialEq, Eq, Hash)]
pub enum InstructionKind {
    Nop,
    Ldar,
    Sba,
    Clr,
    Dumpr,
    Movar,
    Setr,
    Setir,
    Ldr,
    Ldir,
    Clss,
    Dumpss,
    Writess,
    Movass,
    Setss,
    Setiss,
    Ldss,
    Pushss,
    Popss,
    Lenssa,
    Ldidp,
    OmegaChoiceSet,
    OmegaChoiceGetA,
    OmegaGainAPolymorphicDesires,
    OmegaLoseAPolymorphicDesires,
    OmegaPushPolymorphicDesires,
    OmegaTheEndIsNear,
    OmegaSkipToTheChase,
    OmegaSetSentience,
    OmegaSetPaperclipProduction,
    AddBL,
    SubBL,
    MulBL,
    DivBL,
    ModBL,
    NotL,
    AndBL,
    OrBL,
    XorBL,
    CmpLB,
    TgFlag,
    ClFlag,
    AddF,
    SubF,
    MulF,
    DivF,
    ModF,
    StackAlloc,
    StackDealloc,
    Push,
    Pushi,
    Pop,
    Popa,
    Pusha,
    Popb,
    Pushb,
    PopL,
    PushL,
    Popf,
    Pushf,
    Popch,
    Pushch,
    Popnum,
    Pushnum,
    Popep,
    Zpopep,
    Ppopep,
    Npopep,
    Fpopep,
    Zapopep,
    Dpopep,
    GetChar,
    GetLine,
    WriteChar,
    WriteLiness,
    WriteLine,
    ToggleDebug,
    DebugMachineState,
    DebugMachineStateCompact,
    DebugMemoryRegion,
    DebugStackRegion,
    ShowChoice,
}

/// An item to load into memory.
pub enum DataOrInstruction<'a> {
    /// One byte of data.
    ByteData(u8),
    /// A block of bytes.
    Data(&'a [u8]),
    /// An instruction.
    Instruction(Instruction),
}

/// The number of opcodes: the opcodes are the bytes below it.
pub const OPCODE_COUNT: u8 = 82;

impl Instruction {
    /// The kind of the instruction.
    pub open spec fn spec_kind(self) -> InstructionKind {
        match self {
            Instruction::Nop => InstructionKind::Nop,
            Instruction::Ldar(..) => InstructionKind::Ldar,
            Instruction::Sba => InstructionKind::Sba,
            Instruction::Clr => InstructionKind::Clr,
            Instruction::Dumpr(..) => InstructionKind::Dumpr,
            Instruction::Movar(..) => InstructionKind::Movar,
            Instruction::Setr(..) => InstructionKind::Setr,
            Instruction::Setir(..) => InstructionKind::Setir,
            Instruction::Ldr(..) => InstructionKind::Ldr,
            Instruction::Ldir(..) => InstructionKind::Ldir,
            Instruction::Clss => InstructionKind::Clss,
            Instruction::Dumpss(..) => InstructionKind::Dumpss,
            Instruction::Writess(..) => InstructionKind::Writess,
            Instruction::Movass(..) => InstructionKind::Movass,
            Instruction::Setss(..) => InstructionKind::Setss,
            Instruction::Setiss(..) => InstructionKind::Setiss,
            Instruction::Ldss(..) => InstructionKind::Ldss,
            Instruction::Pushss => InstructionKind::Pushss,
            Instruction::Popss => InstructionKind::Popss,
            Instruction::Lenssa => InstructionKind::Lenssa,
            Instruction::Ldidp(..) => InstructionKind::Ldidp,
            Instruction::OmegaChoiceSet(..) => InstructionKind::OmegaChoiceSet,
            Instruction::OmegaChoiceGetA => InstructionKind::OmegaChoiceGetA,
            Instruction::OmegaGainAPolymorphicDesires => InstructionKind::OmegaGainAPolymorphicDesires,
            Instruction::OmegaLoseAPolymorphicDesires => InstructionKind::OmegaLoseAPolymorphicDesires,
            Instruction::OmegaPushPolymorphicDesires => InstructionKind::OmegaPushPolymorphicDesires,
            Instruction::OmegaTheEndIsNear => InstructionKind::OmegaTheEndIsNear,
            Instruction::OmegaSkipToTheChase => InstructionKind::OmegaSkipToTheChase,
            Instruction::OmegaSetSentience(..) => InstructionKind::OmegaSetSentience,
            Instruction::OmegaSetPaperclipProduction(..) => InstructionKind::OmegaSetPaperclipProduction,
            Instruction::AddBL => InstructionKind::AddBL,
            Instruction::SubBL => InstructionKind::SubBL,
            Instruction::MulBL => InstructionKind::MulBL,
            Instruction::DivBL => InstructionKind::DivBL,
            Instruction::ModBL => InstructionKind::ModBL,
            Instruction::NotL => InstructionKind::NotL,
            Instruction::AndBL => InstructionKind::AndBL,
            Instruction::OrBL => InstructionKind::OrBL,
            Instruction::XorBL => InstructionKind::XorBL,
            Instruction::CmpLB => InstructionKind::CmpLB,
            Instruction::TgFlag => InstructionKind::TgFlag,
            Instruction::ClFlag => InstructionKind::ClFlag,
            Instruction::AddF(..) => InstructionKind::AddF,
            Instruction::SubF(..) => InstructionKind::SubF,
            Instruction::MulF(..) => InstructionKind::MulF,
            Instruction::DivF(..) => InstructionKind::DivF,
            Instruction::ModF(..) => InstructionKind::ModF,
            Instruction::StackAlloc(..) => InstructionKind::StackAlloc,
            Instruction::StackDealloc(..) => InstructionKind::StackDealloc,
            Instruction::Push(..) => InstructionKind::Push,
            Instruction::Pushi(..) => InstructionKind::Pushi,
            Instruction::Pop(..) => InstructionKind::Pop,
            Instruction::Popa => InstructionKind::Popa,
            Instruction::Pusha => InstructionKind::Pusha,
            Instruction::Popb => InstructionKind::Popb,
            Instruction::Pushb => InstructionKind::Pushb,
            Instruction::PopL => InstructionKind::PopL,
            Instruction::PushL => InstructionKind::PushL,
            Instruction::Popf => InstructionKind::Popf,
            Instruction::Pushf => InstructionKind::Pushf,
            Instruction::Popch => InstructionKind::Popch,
            Instruction::Pushch => InstructionKind::Pushch,
            Instruction::Popnum => InstructionKind::Popnum,
            Instruction::Pushnum => InstructionKind::Pushnum,
            Instruction::Popep => InstructionKind::Popep,
            Instruction::Zpopep => InstructionKind::Zpopep,
            Instruction::Ppopep => InstructionKind::Ppopep,
            Instruction::Npopep => InstructionKind::Npopep,
            Instruction::Fpopep => InstructionKind::Fpopep,
            Instruction::Zapopep => InstructionKind::Zapopep,
            Instruction::Dpopep => InstructionKind::Dpopep,
            Instruction::GetChar => InstructionKind::GetChar,
            Instruction::GetLine => InstructionKind::GetLine,
            Instruction::WriteChar => InstructionKind::WriteChar,
            Instruction::WriteLiness => InstructionKind::WriteLiness,
            Instruction::WriteLine(..) => InstructionKind::WriteLine,
            Instruction::ToggleDebug => InstructionKind::ToggleDebug,
            Instruction::DebugMachineState => InstructionKind::DebugMachineState,
            Instruction::DebugMachineStateCompact => InstructionKind::DebugMachineStateCompact,
            Instruction::DebugMemoryRegion(..) => InstructionKind::DebugMemoryRegion,
            Instruction::DebugStackRegion(..) => InstructionKind::DebugStackRegion,
            Instruction::ShowChoice => InstructionKind::ShowChoice,
        }
    }

    /// The kind of the instruction.
    #[verifier::when_used_as_spec(spec_kind)]
    pub fn kind(self) -> (kind: InstructionKind)
        ensures
            kind == self.spec_kind(),
    {
        match self {
            Instruction::Nop => InstructionKind::Nop,
            Instruction::Ldar(..) => InstructionKind::Ldar,
            Instruction::Sba => InstructionKind::Sba,
            Instruction::Clr => InstructionKind::Clr,
            Instruction::Dumpr(..) => InstructionKind::Dumpr,
            Instruction::Movar(..) => InstructionKind::Movar,
            Instruction::Setr(..) => InstructionKind::Setr,
            Instruction::Setir(..) => InstructionKind::Setir,
            Instruction::Ldr(..) => InstructionKind::Ldr,
            Instruction::Ldir(..) => InstructionKind::Ldir,
            Instruction::Clss => InstructionKind::Clss,
            Instruction::Dumpss(..) => InstructionKind::Dumpss,
            Instruction::Writess(..) => InstructionKind::Writess,
            Instruction::Movass(..) => InstructionKind::Movass,
            Instruction::Setss(..) => InstructionKind::Setss,
            Instruction::Setiss(..) => InstructionKind::Setiss,
            Instruction::Ldss(..) => InstructionKind::Ldss,
            Instruction::Pushss => InstructionKind::Pushss,
            Instruction::Popss => InstructionKind::Popss,
            Instruction::Lenssa => InstructionKind::Lenssa,
            Instruction::Ldidp(..) => InstructionKind::Ldidp,
            Instruction::OmegaChoiceSet(..) => InstructionKind::OmegaChoiceSet,
            Instruction::OmegaChoiceGetA => InstructionKind::OmegaChoiceGetA,
            Instruction::OmegaGainAPolymorphicDesires => InstructionKind::OmegaGainAPolymorphicDesires,
            Instruction::OmegaLoseAPolymorphicDesires => InstructionKind::OmegaLoseAPolymorphicDesires,
            Instruction::OmegaPushPolymorphicDesires => InstructionKind::OmegaPushPolymorphicDesires,
            Instruction::OmegaTheEndIsNear => InstructionKind::OmegaTheEndIsNear,
            Instruction::OmegaSkipToTheChase => InstructionKind::OmegaSkipToTheChase,
            Instruction::OmegaSetSentience(..) => InstructionKind::OmegaSetSentience,
            Instruction::OmegaSetPaperclipProduction(..) => InstructionKind::OmegaSetPaperclipProduction,
            Instruction::AddBL => InstructionKind::AddBL,
            Instruction::SubBL => InstructionKind::SubBL,
            Instruction::MulBL => InstructionKind::MulBL,
            Instruction::DivBL => InstructionKind::DivBL,
            Instruction::ModBL => InstructionKind::ModBL,
            Instruction::NotL => InstructionKind::NotL,
            Instruction::AndBL => InstructionKind::AndBL,
            Instruction::OrBL => InstructionKind::OrBL,
            Instruction::XorBL => InstructionKind::XorBL,
            Instruction::CmpLB => InstructionKind::CmpLB,
            Instruction::TgFlag => InstructionKind::TgFlag,
            Instruction::ClFlag => InstructionKind::ClFlag,
            Instruction::AddF(..) => InstructionKind::AddF,
            Instruction::SubF(..) => InstructionKind::SubF,
            Instruction::MulF(..) => InstructionKind::MulF,
            Instruction::DivF(..) => InstructionKind::DivF,
            Instruction::ModF(..) => InstructionKind::ModF,
            Instruction::StackAlloc(..) => InstructionKind::StackAlloc,
            Instruction::StackDealloc(..) => InstructionKind::StackDealloc,
            Instruction::Push(..) => InstructionKind::Push,
            Instruction::Pushi(..) => InstructionKind::Pushi,
            Instruction::Pop(..) => InstructionKind::Pop,
            Instruction::Popa => InstructionKind::Popa,
            Instruction::Pusha => InstructionKind::Pusha,
            Instruction::Popb => InstructionKind::Popb,
            Instruction::Pushb => InstructionKind::Pushb,
            Instruction::PopL => InstructionKind::PopL,
            Instruction::PushL => InstructionKind::PushL,
            Instruction::Popf => InstructionKind::Popf,
            Instruction::Pushf => InstructionKind::Pushf,
            Instruction::Popch => InstructionKind::Popch,
            Instruction::Pushch => InstructionKind::Pushch,
            Instruction::Popnum => InstructionKind::Popnum,
            Instruction::Pushnum => InstructionKind::Pushnum,
            Instruction::Popep => InstructionKind::Popep,
            Instruction::Zpopep => InstructionKind::Zpopep,
            Instruction::Ppopep => InstructionKind::Ppopep,
            Instruction::Npopep => InstructionKind::Npopep,
            Instruction::Fpopep => InstructionKind::Fpopep,
            Instruction::Zapopep => InstructionKind::Zapopep,
            Instruction::Dpopep => InstructionKind::Dpopep,
            Instruction::GetChar => InstructionKind::GetChar,
            Instruction::GetLine => InstructionKind::GetLine,
            Instruction::WriteChar => InstructionKind::WriteChar,
            Instruction::WriteLiness => InstructionKind::WriteLiness,
            Instruction::WriteLine(..) => InstructionKind::WriteLine,
            Instruction::ToggleDebug => InstructionKind::ToggleDebug,
            Instruction::DebugMachineState => InstructionKind::DebugMachineState,
            Instruction::DebugMachineStateCompact => InstructionKind::DebugMachineStateCompact,
            Instruction::DebugMemoryRegion(..) => InstructionKind::DebugMemoryRegion,
            Instruction::DebugStackRegion(..) => InstructionKind::DebugStackRegion,
            Instruction::ShowChoice => InstructionKind::ShowChoice,
        }
    }
}

impl InstructionKind {
    /// The opcode of the kind.
    pub open spec fn spec_opcode(self) -> u8 {
        match self {
            InstructionKind::Nop => 0,
            InstructionKind::Ldar => 1,
            InstructionKind::Sba => 2,
            InstructionKind::Clr => 3,
            InstructionKind::Dumpr => 4,
            InstructionKind::Movar => 5,
            InstructionKind::Setr => 6,
            InstructionKind::Setir => 7,
            InstructionKind::Ldr => 8,
            InstructionKind::Ldir => 9,
            InstructionKind::Clss => 10,
            InstructionKind::Dumpss => 11,
            InstructionKind::Writess => 12,
            InstructionKind::Movass => 13,
            InstructionKind::Setss => 14,
            InstructionKind::Setiss => 15,
            InstructionKind::Ldss => 16,
            InstructionKind::Pushss => 17,
            InstructionKind::Popss => 18,
            InstructionKind::Lenssa => 19,
            InstructionKind::Ldidp => 20,
            InstructionKind::OmegaChoiceSet => 21,
            InstructionKind::OmegaChoiceGetA => 22,
            InstructionKind::OmegaGainAPolymorphicDesires => 23,
            InstructionKind::OmegaLoseAPolymorphicDesires => 24,
            InstructionKind::OmegaPushPolymorphicDesires => 25,
            InstructionKind::OmegaTheEndIsNear => 26,
            InstructionKind::OmegaSkipToTheChase => 27,
            InstructionKind::OmegaSetSentience => 28,
            InstructionKind::OmegaSetPaperclipProduction => 29,
            InstructionKind::AddBL => 30,
            InstructionKind::SubBL => 31,
            InstructionKind::MulBL => 32,
            InstructionKind::DivBL => 33,
            InstructionKind::ModBL => 34,
            InstructionKind::NotL => 35,
            InstructionKind::AndBL => 36,
            InstructionKind::OrBL => 37,
            InstructionKind::XorBL => 38,
            InstructionKind::CmpLB => 39,
            InstructionKind::TgFlag => 40,
            InstructionKind::ClFlag => 41,
            InstructionKind::AddF => 42,
            InstructionKind::SubF => 43,
            InstructionKind::MulF => 44,
            InstructionKind::DivF => 45,
            InstructionKind::ModF => 46,
            InstructionKind::StackAlloc => 47,
            InstructionKind::StackDealloc => 48,
            InstructionKind::Push => 49,
            InstructionKind::Pushi => 50,
            InstructionKind::Pop => 51,
            InstructionKind::Popa => 52,
            InstructionKind::Pusha => 53,
            InstructionKind::Popb => 54,
            InstructionKind::Pushb => 55,
            InstructionKind::PopL => 56,
            InstructionKind::PushL => 57,
            InstructionKind::Popf => 58,
            InstructionKind::Pushf => 59,
            InstructionKind::Popch => 60,
            InstructionKind::Pushch => 61,
            InstructionKind::Popnum => 62,
            InstructionKind::Pushnum => 63,
            InstructionKind::Popep => 64,
            InstructionKind::Zpopep => 65,
            InstructionKind::Ppopep => 66,
            InstructionKind::Npopep => 67,
            InstructionKind::Fpopep => 68,
            InstructionKind::Zapopep => 69,
            InstructionKind::Dpopep => 70,
            InstructionKind::GetChar => 71,
            InstructionKind::GetLine => 72,
            InstructionKind::WriteChar => 73,
            InstructionKind::WriteLiness => 74,
            InstructionKind::WriteLine => 75,
            InstructionKind::ToggleDebug => 76,
            InstructionKind::DebugMachineState => 77,
            InstructionKind::DebugMachineStateCompact => 78,
            InstructionKind::DebugMemoryRegion => 79,
            InstructionKind::DebugStackRegion => 80,
            InstructionKind::ShowChoice => 81,
        }
    }

    /// The kind with the given opcode, if the byte is an opcode.
    pub open spec fn spec_from_repr(opcode: u8) -> Option<InstructionKind> {
        if opcode < OPCODE_COUNT {
            Some(choose|kind: InstructionKind| kind.spec_opcode() == opcode)
        } else {
            None
        }
    }

    /// How many bytes an instruction of the kind takes in memory: one for
    /// the opcode, and those of its operands.
    pub open spec fn spec_encoded_len(self) -> nat {
        match self {
            InstructionKind::Nop => 1,
            InstructionKind::Ldar => 3,
            InstructionKind::Sba => 1,
            InstructionKind::Clr => 1,
            InstructionKind::Dumpr => 3,
            InstructionKind::Movar => 2,
            InstructionKind::Setr => 4,
            InstructionKind::Setir => 3,
            InstructionKind::Ldr => 3,
            InstructionKind::Ldir => 38,
            InstructionKind::Clss => 1,
            InstructionKind::Dumpss => 3,
            InstructionKind::Writess => 4,
            InstructionKind::Movass => 2,
            InstructionKind::Setss => 4,
            InstructionKind::Setiss => 3,
            InstructionKind::Ldss => 3,
            InstructionKind::Pushss => 1,
            InstructionKind::Popss => 1,
            InstructionKind::Lenssa => 1,
            InstructionKind::Ldidp => 3,
            InstructionKind::OmegaChoiceSet => 2,
            InstructionKind::OmegaChoiceGetA => 1,
            InstructionKind::OmegaGainAPolymorphicDesires => 1,
            InstructionKind::OmegaLoseAPolymorphicDesires => 1,
            InstructionKind::OmegaPushPolymorphicDesires => 1,
            InstructionKind::OmegaTheEndIsNear => 1,
            InstructionKind::OmegaSkipToTheChase => 1,
            InstructionKind::OmegaSetSentience => 2,
            InstructionKind::OmegaSetPaperclipProduction => 2,
            InstructionKind::AddBL => 1,
            InstructionKind::SubBL => 1,
            InstructionKind::MulBL => 1,
            InstructionKind::DivBL => 1,
            InstructionKind::ModBL => 1,
            InstructionKind::NotL => 1,
            InstructionKind::AndBL => 1,
            InstructionKind::OrBL => 1,
            InstructionKind::XorBL => 1,
            InstructionKind::CmpLB => 1,
            InstructionKind::TgFlag => 1,
            InstructionKind::ClFlag => 1,
            InstructionKind::AddF => 3,
            InstructionKind::SubF => 3,
            InstructionKind::MulF => 3,
            InstructionKind::DivF => 3,
            InstructionKind::ModF => 3,
            InstructionKind::StackAlloc => 3,
            InstructionKind::StackDealloc => 3,
            InstructionKind::Push => 3,
            InstructionKind::Pushi => 2,
            InstructionKind::Pop => 3,
            InstructionKind::Popa => 1,
            InstructionKind::Pusha => 1,
            InstructionKind::Popb => 1,
            InstructionKind::Pushb => 1,
            InstructionKind::PopL => 1,
            InstructionKind::PushL => 1,
            InstructionKind::Popf => 1,
            InstructionKind::Pushf => 1,
            InstructionKind::Popch => 1,
            InstructionKind::Pushch => 1,
            InstructionKind::Popnum => 1,
            InstructionKind::Pushnum => 1,
            InstructionKind::Popep => 1,
            InstructionKind::Zpopep => 1,
            InstructionKind::Ppopep => 1,
            InstructionKind::Npopep => 1,
            InstructionKind::Fpopep => 1,
            InstructionKind::Zapopep => 1,
            InstructionKind::Dpopep => 1,
            InstructionKind::GetChar => 1,
            InstructionKind::GetLine => 1,
            InstructionKind::WriteChar => 1,
            InstructionKind::WriteLiness => 1,
            InstructionKind::WriteLine => 3,
            InstructionKind::ToggleDebug => 1,
            InstructionKind::DebugMachineState => 1,
            InstructionKind::DebugMachineStateCompact => 1,
            InstructionKind::DebugMemoryRegion => 5,
            InstructionKind::DebugStackRegion => 5,
            InstructionKind::ShowChoice => 1,
        }
    }

    /// The opcode of the kind.
    #[verifier::when_used_as_spec(spec_opcode)]
    pub fn opcode(self) -> (opcode: u8)
        ensures
            opcode == self.spec_opcode(),
            opcode < OPCODE_COUNT,
    {
        match self {
            InstructionKind::Nop => 0,
            InstructionKind::Ldar => 1,
            InstructionKind::Sba => 2,
            InstructionKind::Clr => 3,
            InstructionKind::Dumpr => 4,
            InstructionKind::Movar => 5,
            InstructionKind::Setr => 6,
            InstructionKind::Setir => 7,
            InstructionKind::Ldr => 8,
            InstructionKind::Ldir => 9,
            InstructionKind::Clss => 10,
            InstructionKind::Dumpss => 11,
            InstructionKind::Writess => 12,
            InstructionKind::Movass => 13,
            InstructionKind::Setss => 14,
            InstructionKind::Setiss => 15,
            InstructionKind::Ldss => 16,
            InstructionKind::Pushss => 17,
            InstructionKind::Popss => 18,
            InstructionKind::Lenssa => 19,
            InstructionKind::Ldidp => 20,
            InstructionKind::OmegaChoiceSet => 21,
            InstructionKind::OmegaChoiceGetA => 22,
            InstructionKind::OmegaGainAPolymorphicDesires => 23,
            InstructionKind::OmegaLoseAPolymorphicDesires => 24,
            InstructionKind::OmegaPushPolymorphicDesires => 25,
            InstructionKind::OmegaTheEndIsNear => 26,
            InstructionKind::OmegaSkipToTheChase => 27,
            InstructionKind::OmegaSetSentience => 28,
            InstructionKind::OmegaSetPaperclipProduction => 29,
            InstructionKind::AddBL => 30,
            InstructionKind::SubBL => 31,
            InstructionKind::MulBL => 32,
            InstructionKind::DivBL => 33,
            InstructionKind::ModBL => 34,
            InstructionKind::NotL => 35,
            InstructionKind::AndBL => 36,
            InstructionKind::OrBL => 37,
            InstructionKind::XorBL => 38,
            InstructionKind::CmpLB => 39,
            InstructionKind::TgFlag => 40,
            InstructionKind::ClFlag => 41,
            InstructionKind::AddF => 42,
            InstructionKind::SubF => 43,
            InstructionKind::MulF => 44,
            InstructionKind::DivF => 45,
            InstructionKind::ModF => 46,
            InstructionKind::StackAlloc => 47,
            InstructionKind::StackDealloc => 48,
            InstructionKind::Push => 49,
            InstructionKind::Pushi => 50,
            InstructionKind::Pop => 51,
            InstructionKind::Popa => 52,
            InstructionKind::Pusha => 53,
            InstructionKind::Popb => 54,
            InstructionKind::Pushb => 55,
            InstructionKind::PopL => 56,
            InstructionKind::PushL => 57,
            InstructionKind::Popf => 58,
            InstructionKind::Pushf => 59,
            InstructionKind::Popch => 60,
            InstructionKind::Pushch => 61,
            InstructionKind::Popnum => 62,
            InstructionKind::Pushnum => 63,
            InstructionKind::Popep => 64,
            InstructionKind::Zpopep => 65,
            InstructionKind::Ppopep => 66,
            InstructionKind::Npopep => 67,
            InstructionKind::Fpopep => 68,
            InstructionKind::Zapopep => 69,
            InstructionKind::Dpopep => 70,
            InstructionKind::GetChar => 71,
            InstructionKind::GetLine => 72,
            InstructionKind::WriteChar => 73,
            InstructionKind::WriteLiness => 74,
            InstructionKind::WriteLine => 75,
            InstructionKind::ToggleDebug => 76,
            InstructionKind::DebugMachineState => 77,
            InstructionKind::DebugMachineStateCompact => 78,
            InstructionKind::DebugMemoryRegion => 79,
            InstructionKind::DebugStackRegion => 80,
            InstructionKind::ShowChoice => 81,
        }
    }

    /// The kind with the given opcode, or `None` if the byte is no opcode.
    pub fn from_repr(opcode: u8) -> (kind: Option<InstructionKind>)
        ensures
            kind == InstructionKind::spec_from_repr(opcode),
            kind is Some <==> opcode < OPCODE_COUNT,
            kind matches Some(k) ==> k.spec_opcode() == opcode,
    {
        let kind: Option<InstructionKind> = match opcode {
            0 => Some(InstructionKind::Nop),
            1 => Some(InstructionKind::Ldar),
            2 => Some(InstructionKind::Sba),
            3 => Some(InstructionKind::Clr),
            4 => Some(InstructionKind::Dumpr),
            5 => Some(InstructionKind::Movar),
            6 => Some(InstructionKind::Setr),
            7 => Some(InstructionKind::Setir),
            8 => Some(InstructionKind::Ldr),
            9 => Some(InstructionKind::Ldir),
            10 => Some(InstructionKind::Clss),
            11 => Some(InstructionKind::Dumpss),
            12 => Some(InstructionKind::Writess),
            13 => Some(InstructionKind::Movass),
            14 => Some(InstructionKind::Setss),
            15 => Some(InstructionKind::Setiss),
            16 => Some(InstructionKind::Ldss),
            17 => Some(InstructionKind::Pushss),
            18 => Some(InstructionKind::Popss),
            19 => Some(InstructionKind::Lenssa),
            20 => Some(InstructionKind::Ldidp),
            21 => Some(InstructionKind::OmegaChoiceSet),
            22 => Some(InstructionKind::OmegaChoiceGetA),
            23 => Some(InstructionKind::OmegaGainAPolymorphicDesires),
            24 => Some(InstructionKind::OmegaLoseAPolymorphicDesires),
            25 => Some(InstructionKind::OmegaPushPolymorphicDesires),
            26 => Some(InstructionKind::OmegaTheEndIsNear),
            27 => Some(InstructionKind::OmegaSkipToTheChase),
            28 => Some(InstructionKind::OmegaSetSentience),
            29 => Some(InstructionKind::OmegaSetPaperclipProduction),
            30 => Some(InstructionKind::AddBL),
            31 => Some(InstructionKind::SubBL),
            32 => Some(InstructionKind::MulBL),
            33 => Some(InstructionKind::DivBL),
            34 => Some(InstructionKind::ModBL),
            35 => Some(InstructionKind::NotL),
            36 => Some(InstructionKind::AndBL),
            37 => Some(InstructionKind::OrBL),
            38 => Some(InstructionKind::XorBL),
            39 => Some(InstructionKind::CmpLB),
            40 => Some(InstructionKind::TgFlag),
            41 => Some(InstructionKind::ClFlag),
            42 => Some(InstructionKind::AddF),
            43 => Some(InstructionKind::SubF),
            44 => Some(InstructionKind::MulF),
            45 => Some(InstructionKind::DivF),
            46 => Some(InstructionKind::ModF),
            47 => Some(InstructionKind::StackAlloc),
            48 => Some(InstructionKind::StackDealloc),
            49 => Some(InstructionKind::Push),
            50 => Some(InstructionKind::Pushi),
            51 => Some(InstructionKind::Pop),
            52 => Some(InstructionKind::Popa),
            53 => Some(InstructionKind::Pusha),
            54 => Some(InstructionKind::Popb),
            55 => Some(InstructionKind::Pushb),
            56 => Some(InstructionKind::PopL),
            57 => Some(InstructionKind::PushL),
            58 => Some(InstructionKind::Popf),
            59 => Some(InstructionKind::Pushf),
            60 => Some(InstructionKind::Popch),
            61 => Some(InstructionKind::Pushch),
            62 => Some(InstructionKind::Popnum),
            63 => Some(InstructionKind::Pushnum),
            64 => Some(InstructionKind::Popep),
            65 => Some(InstructionKind::Zpopep),
            66 => Some(InstructionKind::Ppopep),
            67 => Some(InstructionKind::Npopep),
            68 => Some(InstructionKind::Fpopep),
            69 => Some(InstructionKind::Zapopep),
            70 => Some(InstructionKind::Dpopep),
            71 => Some(InstructionKind::GetChar),
            72 => Some(InstructionKind::GetLine),
            73 => Some(InstructionKind::WriteChar),
            74 => Some(InstructionKind::WriteLiness),
            75 => Some(InstructionKind::WriteLine),
            76 => Some(InstructionKind::ToggleDebug),
            77 => Some(InstructionKind::DebugMachineState),
            78 => Some(InstructionKind::DebugMachineStateCompact),
            79 => Some(InstructionKind::DebugMemoryRegion),
            80 => Some(InstructionKind::DebugStackRegion),
            81 => Some(InstructionKind::ShowChoice),
            _ => None,
        };
        proof {
            if let Some(k) = kind {
                lemma_opcodes_are_distinct(k, choose|other: InstructionKind| other.spec_opcode() == opcode);
            }
        }
        kind
    }

    /// How many bytes an instruction of the kind takes in memory.
    pub fn encoded_len(self) -> (len: u16)
        ensures
            len == self.spec_encoded_len(),
            1 <= len <= 38,
    {
        match self {
            InstructionKind::Nop => 1,
            InstructionKind::Ldar => 3,
            InstructionKind::Sba => 1,
            InstructionKind::Clr => 1,
            InstructionKind::Dumpr => 3,
            InstructionKind::Movar => 2,
            InstructionKind::Setr => 4,
            InstructionKind::Setir => 3,
            InstructionKind::Ldr => 3,
            InstructionKind::Ldir => 38,
            InstructionKind::Clss => 1,
            InstructionKind::Dumpss => 3,
            InstructionKind::Writess => 4,
            InstructionKind::Movass => 2,
            InstructionKind::Setss => 4,
            InstructionKind::Setiss => 3,
            InstructionKind::Ldss => 3,
            InstructionKind::Pushss => 1,
            InstructionKind::Popss => 1,
            InstructionKind::Lenssa => 1,
            InstructionKind::Ldidp => 3,
            InstructionKind::OmegaChoiceSet => 2,
            InstructionKind::OmegaChoiceGetA => 1,
            InstructionKind::OmegaGainAPolymorphicDesires => 1,
            InstructionKind::OmegaLoseAPolymorphicDesires => 1,
            InstructionKind::OmegaPushPolymorphicDesires => 1,
            InstructionKind::OmegaTheEndIsNear => 1,
            InstructionKind::OmegaSkipToTheChase => 1,
            InstructionKind::OmegaSetSentience => 2,
            InstructionKind::OmegaSetPaperclipProduction => 2,
            InstructionKind::AddBL => 1,
            InstructionKind::SubBL => 1,
            InstructionKind::MulBL => 1,
            InstructionKind::DivBL => 1,
            InstructionKind::ModBL => 1,
            InstructionKind::NotL => 1,
            InstructionKind::AndBL => 1,
            InstructionKind::OrBL => 1,
            InstructionKind::XorBL => 1,
            InstructionKind::CmpLB => 1,
            InstructionKind::TgFlag => 1,
            InstructionKind::ClFlag => 1,
            InstructionKind::AddF => 3,
            InstructionKind::SubF => 3,
            InstructionKind::MulF => 3,
            InstructionKind::DivF => 3,
            InstructionKind::ModF => 3,
            InstructionKind::StackAlloc => 3,
            InstructionKind::StackDealloc => 3,
            InstructionKind::Push => 3,
            InstructionKind::Pushi => 2,
            InstructionKind::Pop => 3,
            InstructionKind::Popa => 1,
            InstructionKind::Pusha => 1,
            InstructionKind::Popb => 1,
            InstructionKind::Pushb => 1,
            InstructionKind::PopL => 1,
            InstructionKind::PushL => 1,
            InstructionKind::Popf => 1,
            InstructionKind::Pushf => 1,
            InstructionKind::Popch => 1,
            InstructionKind::Pushch => 1,
            InstructionKind::Popnum => 1,
            InstructionKind::Pushnum => 1,
            InstructionKind::Popep => 1,
            InstructionKind::Zpopep => 1,
            InstructionKind::Ppopep => 1,
            InstructionKind::Npopep => 1,
            InstructionKind::Fpopep => 1,
            InstructionKind::Zapopep => 1,
            InstructionKind::Dpopep => 1,
            InstructionKind::GetChar => 1,
            InstructionKind::GetLine => 1,
            InstructionKind::WriteChar => 1,
            InstructionKind::WriteLiness => 1,
            InstructionKind::WriteLine => 3,
            InstructionKind::ToggleDebug => 1,
            InstructionKind::DebugMachineState => 1,
            InstructionKind::DebugMachineStateCompact => 1,
            InstructionKind::DebugMemoryRegion => 5,
            InstructionKind::DebugStackRegion => 5,
            InstructionKind::ShowChoice => 1,
        }
    }
}

/// No two kinds share an opcode, and every opcode is below
/// [`OPCODE_COUNT`].
pub proof fn lemma_opcodes_are_distinct(a: InstructionKind, b: InstructionKind)
    ensures
        a.spec_opcode() < OPCODE_COUNT,
        a.spec_opcode() == b.spec_opcode() ==> a == b,
{
}

/// The opcodes and the kinds match one to one: the kind found for a kind's
/// opcode is that kind, a byte below [`OPCODE_COUNT`] is the opcode of the
/// kind found for it, and no other byte is an opcode.
pub proof fn lemma_opcode_round_trip(kind: InstructionKind, opcode: u8)
    ensures
        InstructionKind::spec_from_repr(kind.spec_opcode()) == Some(kind),
        InstructionKind::spec_from_repr(opcode) matches Some(k) ==> k.spec_opcode() == opcode,
        InstructionKind::spec_from_repr(opcode) is None <==> opcode >= OPCODE_COUNT,
{
    lemma_opcodes_are_distinct(
        kind,
        choose|other: InstructionKind| other.spec_opcode() == kind.spec_opcode(),
    );
    if opcode < OPCODE_COUNT {
        lemma_every_opcode_has_a_kind(opcode);
    }
}

/// Every byte below [`OPCODE_COUNT`] is the opcode of some kind.
pub proof fn lemma_every_opcode_has_a_kind(opcode: u8)
    requires
        opcode < OPCODE_COUNT,
    ensures
        exists|kind: InstructionKind| kind.spec_opcode() == opcode,
{
    assert(InstructionKind::Nop.spec_opcode() == 0);
    assert(InstructionKind::Ldar.spec_opcode() == 1);
    assert(InstructionKind::Sba.spec_opcode() == 2);
    assert(InstructionKind::Clr.spec_opcode() == 3);
    assert(InstructionKind::Dumpr.spec_opcode() == 4);
    assert(InstructionKind::Movar.spec_opcode() == 5);
    assert(InstructionKind::Setr.spec_opcode() == 6);
    assert(InstructionKind::Setir.spec_opcode() == 7);
    assert(InstructionKind::Ldr.spec_opcode() == 8);
    assert(InstructionKind::Ldir.spec_opcode() == 9);
    assert(InstructionKind::Clss.spec_opcode() == 10);
    assert(InstructionKind::Dumpss.spec_opcode() == 11);
    assert(InstructionKind::Writess.spec_opcode() == 12);
    assert(InstructionKind::Movass.spec_opcode() == 13);
    assert(InstructionKind::Setss.spec_opcode() == 14);
    assert(InstructionKind::Setiss.spec_opcode() == 15);
    assert(InstructionKind::Ldss.spec_opcode() == 16);
    assert(InstructionKind::Pushss.spec_opcode() == 17);
    assert(InstructionKind::Popss.spec_opcode() == 18);
    assert(InstructionKind::Lenssa.spec_opcode() == 19);
    assert(InstructionKind::Ldidp.spec_opcode() == 20);
    assert(InstructionKind::OmegaChoiceSet.spec_opcode() == 21);
    assert(InstructionKind::OmegaChoiceGetA.spec_opcode() == 22);
    assert(InstructionKind::OmegaGainAPolymorphicDesires.spec_opcode() == 23);
    assert(InstructionKind::OmegaLoseAPolymorphicDesires.spec_opcode() == 24);
    assert(InstructionKind::OmegaPushPolymorphicDesires.spec_opcode() == 25);
    assert(InstructionKind::OmegaTheEndIsNear.spec_opcode() == 26);
    assert(InstructionKind::OmegaSkipToTheChase.spec_opcode() == 27);
    assert(InstructionKind::OmegaSetSentience.spec_opcode() == 28);
    assert(InstructionKind::OmegaSetPaperclipProduction.spec_opcode() == 29);
    assert(InstructionKind::AddBL.spec_opcode() == 30);
    assert(InstructionKind::SubBL.spec_opcode() == 31);
    assert(InstructionKind::MulBL.spec_opcode() == 32);
    assert(InstructionKind::DivBL.spec_opcode() == 33);
    assert(InstructionKind::ModBL.spec_opcode() == 34);
    assert(InstructionKind::NotL.spec_opcode() == 35);
    assert(InstructionKind::AndBL.spec_opcode() == 36);
    assert(InstructionKind::OrBL.spec_opcode() == 37);
    assert(InstructionKind::XorBL.spec_opcode() == 38);
    assert(InstructionKind::CmpLB.spec_opcode() == 39);
    assert(InstructionKind::TgFlag.spec_opcode() == 40);
    assert(InstructionKind::ClFlag.spec_opcode() == 41);
    assert(InstructionKind::AddF.spec_opcode() == 42);
    assert(InstructionKind::SubF.spec_opcode() == 43);
    assert(InstructionKind::MulF.spec_opcode() == 44);
    assert(InstructionKind::DivF.spec_opcode() == 45);
    assert(InstructionKind::ModF.spec_opcode() == 46);
    assert(InstructionKind::StackAlloc.spec_opcode() == 47);
    assert(InstructionKind::StackDealloc.spec_opcode() == 48);
    assert(InstructionKind::Push.spec_opcode() == 49);
    assert(InstructionKind::Pushi.spec_opcode() == 50);
    assert(InstructionKind::Pop.spec_opcode() == 51);
    assert(InstructionKind::Popa.spec_opcode() == 52);
    assert(InstructionKind::Pusha.spec_opcode() == 53);
    assert(InstructionKind::Popb.spec_opcode() == 54);
    assert(InstructionKind::Pushb.spec_opcode() == 55);
    assert(InstructionKind::PopL.spec_opcode() == 56);
    assert(InstructionKind::PushL.spec_opcode() == 57);
    assert(InstructionKind::Popf.spec_opcode() == 58);
    assert(InstructionKind::Pushf.spec_opcode() == 59);
    assert(InstructionKind::Popch.spec_opcode() == 60);
    assert(InstructionKind::Pushch.spec_opcode() == 61);
    assert(InstructionKind::Popnum.spec_opcode() == 62);
    assert(InstructionKind::Pushnum.spec_opcode() == 63);
    assert(InstructionKind::Popep.spec_opcode() == 64);
    assert(InstructionKind::Zpopep.spec_opcode() == 65);
    assert(InstructionKind::Ppopep.spec_opcode() == 66);
    assert(InstructionKind::Npopep.spec_opcode() == 67);
    assert(InstructionKind::Fpopep.spec_opcode() == 68);
    assert(InstructionKind::Zapopep.spec_opcode() == 69);
    assert(InstructionKind::Dpopep.spec_opcode() == 70);
    assert(InstructionKind::GetChar.spec_opcode() == 71);
    assert(InstructionKind::GetLine.spec_opcode() == 72);
    assert(InstructionKind::WriteChar.spec_opcode() == 73);
    assert(InstructionKind::WriteLiness.spec_opcode() == 74);
    assert(InstructionKind::WriteLine.spec_opcode() == 75);
    assert(InstructionKind::ToggleDebug.spec_opcode() == 76);
    assert(InstructionKind::DebugMachineState.spec_opcode() == 77);
    assert(InstructionKind::DebugMachineStateCompact.spec_opcode() == 78);
    assert(InstructionKind::DebugMemoryRegion.spec_opcode() == 79);
    assert(InstructionKind::DebugStackRegion.spec_opcode() == 80);
    assert(InstructionKind::ShowChoice.spec_opcode() == 81);
}

} // verus!
