//! A countdown, as an example of a program and of what can be proved of
//! one: a loop that counts register L down from a number to one and leaves
//! exactly then.

use vstd::prelude::*;
use crate::bits::u16_from_be;
use crate::encoding::{consumed, decode, encoding};
use crate::semantics::execute;
use crate::engine::{
    after_steps, lemma_halted_is_final, lemma_run_goes_through_quiet_steps, lemma_steps_add_up,
    quiet, ran, stepped,
};
use crate::encoding::lemma_encoding_len;
use crate::state::{ActionView, StepView};
use crate::instruction::{lemma_opcode_round_trip, Instruction, InstructionKind};
use crate::loader::{encodings, instructions_loaded, lemma_instructions_are_loaded_end_to_end};
use crate::memory::write_at;
use crate::state::MachineState;

verus! {

/// The address of the head of the loop.
pub const LOOP_HEAD: u16 = 5;

/// The address of the instruction that compares.
pub const COMPARISON: u16 = 10;

/// The address of the instruction that takes one off.
pub const SUBTRACTION: u16 = 24;

/// The address that the loop is left for.
pub const LOOP_END: u16 = 30;

/// The program, which is meant to lie at address 0. It sets register L to
/// `n`. Each round of its loop sets register B to 1 and compares; if
/// register L is 1 it leaves the loop for its end, where it halts;
/// otherwise it takes 1 off register L and jumps back to the head of the
/// loop.
pub open spec fn countdown(n: u16) -> Seq<Instruction> {
    seq![
        Instruction::Pushi((n / 0x100) as u8),
        Instruction::Pushi((n % 0x100) as u8),
        Instruction::PopL,
        Instruction::Pushi(0),
        Instruction::Pushi(1),
        Instruction::Popb,
        Instruction::CmpLB,
        Instruction::Pushi(0),
        Instruction::Pushi(30),
        Instruction::Zpopep,
        Instruction::StackDealloc(2),
        Instruction::Pushi(0),
        Instruction::Pushi(1),
        Instruction::Popb,
        Instruction::SubBL,
        Instruction::Pushi(0),
        Instruction::Pushi(5),
        Instruction::Popep,
        Instruction::OmegaTheEndIsNear,
        Instruction::OmegaSkipToTheChase,
    ]
}

/// Makes the program.
pub fn countdown_program(n: u16) -> (program: Vec<Instruction>)
    ensures
        program@ == countdown(n),
{
    let mut program: Vec<Instruction> = Vec::new();
    program.push(Instruction::Pushi((n / 0x100) as u8));
    program.push(Instruction::Pushi((n % 0x100) as u8));
    program.push(Instruction::PopL);
    program.push(Instruction::Pushi(0));
    program.push(Instruction::Pushi(1));
    program.push(Instruction::Popb);
    program.push(Instruction::CmpLB);
    program.push(Instruction::Pushi(0));
    program.push(Instruction::Pushi(30));
    program.push(Instruction::Zpopep);
    program.push(Instruction::StackDealloc(2));
    program.push(Instruction::Pushi(0));
    program.push(Instruction::Pushi(1));
    program.push(Instruction::Popb);
    program.push(Instruction::SubBL);
    program.push(Instruction::Pushi(0));
    program.push(Instruction::Pushi(5));
    program.push(Instruction::Popep);
    program.push(Instruction::OmegaTheEndIsNear);
    program.push(Instruction::OmegaSkipToTheChase);
    assert(program@ =~= countdown(n));
    program
}

/// Whether the instruction lies in memory at the address.
#[verifier::opaque]
pub open spec fn lies_at(mem: Seq<u8>, at: u16, instruction: Instruction) -> bool {
    decode(mem, at) == Some(instruction) && consumed(mem, at) == encoding(instruction).len()
}

/// Whether the program lies in memory at address 0.
#[verifier::opaque]
pub open spec fn countdown_lies_in(mem: Seq<u8>, n: u16) -> bool {
    &&& mem.len() == 0x1_0000
    &&& lies_at(mem, 0, Instruction::Pushi((n / 0x100) as u8))
    &&& lies_at(mem, 2, Instruction::Pushi((n % 0x100) as u8))
    &&& lies_at(mem, 4, Instruction::PopL)
    &&& lies_at(mem, 5, Instruction::Pushi(0))
    &&& lies_at(mem, 7, Instruction::Pushi(1))
    &&& lies_at(mem, 9, Instruction::Popb)
    &&& lies_at(mem, 10, Instruction::CmpLB)
    &&& lies_at(mem, 11, Instruction::Pushi(0))
    &&& lies_at(mem, 13, Instruction::Pushi(30))
    &&& lies_at(mem, 15, Instruction::Zpopep)
    &&& lies_at(mem, 16, Instruction::StackDealloc(2))
    &&& lies_at(mem, 19, Instruction::Pushi(0))
    &&& lies_at(mem, 21, Instruction::Pushi(1))
    &&& lies_at(mem, 23, Instruction::Popb)
    &&& lies_at(mem, 24, Instruction::SubBL)
    &&& lies_at(mem, 25, Instruction::Pushi(0))
    &&& lies_at(mem, 27, Instruction::Pushi(5))
    &&& lies_at(mem, 29, Instruction::Popep)
    &&& lies_at(mem, 30, Instruction::OmegaTheEndIsNear)
    &&& lies_at(mem, 31, Instruction::OmegaSkipToTheChase)
}

/// The bytes of the program.
#[verifier::opaque]
pub open spec fn countdown_bytes(n: u16) -> Seq<u8> {
    seq![
        50u8,
        (n / 0x100) as u8,
        50u8,
        (n % 0x100) as u8,
        56u8,
        50u8,
        0u8,
        50u8,
        1u8,
        54u8,
        39u8,
        50u8,
        0u8,
        50u8,
        30u8,
        65u8,
        48u8,
        0u8,
        2u8,
        50u8,
        0u8,
        50u8,
        1u8,
        54u8,
        31u8,
        50u8,
        0u8,
        50u8,
        5u8,
        64u8,
        26u8,
        27u8,
    ]
}

proof fn lemma_one_more_encoding(instructions: Seq<Instruction>, instruction: Instruction)
    ensures
        encodings(instructions.push(instruction)) == encodings(instructions) + encoding(
            instruction,
        ),
{
    assert(instructions.push(instruction).drop_last() =~= instructions);
}

/// The encodings of the instructions of the program are its bytes.
#[verifier::rlimit(50)]
pub proof fn lemma_countdown_bytes(n: u16)
    ensures
        encodings(countdown(n)) == countdown_bytes(n),
{
    let p = countdown(n);
    let high = (n / 0x100) as u8;
    let low = (n % 0x100) as u8;
    let p0 = Seq::<Instruction>::empty();
    assert(encodings(p0) =~= Seq::<u8>::empty());
    assert(crate::bits::u16_be_bytes(2) =~= seq![0u8, 2u8]);
    let p1 = p0.push(p[0]);
    lemma_one_more_encoding(p0, p[0]);
    assert(encodings(p1) =~= seq![50u8, high]);
    let p2 = p1.push(p[1]);
    lemma_one_more_encoding(p1, p[1]);
    assert(encodings(p2) =~= seq![50u8, high, 50u8, low]);
    let p3 = p2.push(p[2]);
    lemma_one_more_encoding(p2, p[2]);
    assert(encodings(p3) =~= seq![50u8, high, 50u8, low, 56u8]);
    let p4 = p3.push(p[3]);
    lemma_one_more_encoding(p3, p[3]);
    assert(encodings(p4) =~= seq![50u8, high, 50u8, low, 56u8, 50u8, 0u8]);
    let p5 = p4.push(p[4]);
    lemma_one_more_encoding(p4, p[4]);
    assert(encodings(p5) =~= seq![50u8, high, 50u8, low, 56u8, 50u8, 0u8, 50u8, 1u8]);
    let p6 = p5.push(p[5]);
    lemma_one_more_encoding(p5, p[5]);
    assert(encodings(p6) =~= seq![50u8, high, 50u8, low, 56u8, 50u8, 0u8, 50u8, 1u8, 54u8]);
    let p7 = p6.push(p[6]);
    lemma_one_more_encoding(p6, p[6]);
    assert(encodings(p7) =~= seq![50u8, high, 50u8, low, 56u8, 50u8, 0u8, 50u8, 1u8, 54u8, 39u8]);
    let p8 = p7.push(p[7]);
    lemma_one_more_encoding(p7, p[7]);
    assert(encodings(p8) =~= seq![50u8, high, 50u8, low, 56u8, 50u8, 0u8, 50u8, 1u8, 54u8, 39u8, 50u8, 0u8]);
    let p9 = p8.push(p[8]);
    lemma_one_more_encoding(p8, p[8]);
    assert(encodings(p9) =~= seq![50u8, high, 50u8, low, 56u8, 50u8, 0u8, 50u8, 1u8, 54u8, 39u8, 50u8, 0u8, 50u8, 30u8]);
    let p10 = p9.push(p[9]);
    lemma_one_more_encoding(p9, p[9]);
    assert(encodings(p10) =~= seq![50u8, high, 50u8, low, 56u8, 50u8, 0u8, 50u8, 1u8, 54u8, 39u8, 50u8, 0u8, 50u8, 30u8, 65u8]);
    let p11 = p10.push(p[10]);
    lemma_one_more_encoding(p10, p[10]);
    assert(encodings(p11) =~= seq![50u8, high, 50u8, low, 56u8, 50u8, 0u8, 50u8, 1u8, 54u8, 39u8, 50u8, 0u8, 50u8, 30u8, 65u8, 48u8, 0u8, 2u8]);
    let p12 = p11.push(p[11]);
    lemma_one_more_encoding(p11, p[11]);
    assert(encodings(p12) =~= seq![50u8, high, 50u8, low, 56u8, 50u8, 0u8, 50u8, 1u8, 54u8, 39u8, 50u8, 0u8, 50u8, 30u8, 65u8, 48u8, 0u8, 2u8, 50u8, 0u8]);
    let p13 = p12.push(p[12]);
    lemma_one_more_encoding(p12, p[12]);
    assert(encodings(p13) =~= seq![50u8, high, 50u8, low, 56u8, 50u8, 0u8, 50u8, 1u8, 54u8, 39u8, 50u8, 0u8, 50u8, 30u8, 65u8, 48u8, 0u8, 2u8, 50u8, 0u8, 50u8, 1u8]);
    let p14 = p13.push(p[13]);
    lemma_one_more_encoding(p13, p[13]);
    assert(encodings(p14) =~= seq![50u8, high, 50u8, low, 56u8, 50u8, 0u8, 50u8, 1u8, 54u8, 39u8, 50u8, 0u8, 50u8, 30u8, 65u8, 48u8, 0u8, 2u8, 50u8, 0u8, 50u8, 1u8, 54u8]);
    let p15 = p14.push(p[14]);
    lemma_one_more_encoding(p14, p[14]);
    assert(encodings(p15) =~= seq![50u8, high, 50u8, low, 56u8, 50u8, 0u8, 50u8, 1u8, 54u8, 39u8, 50u8, 0u8, 50u8, 30u8, 65u8, 48u8, 0u8, 2u8, 50u8, 0u8, 50u8, 1u8, 54u8, 31u8]);
    let p16 = p15.push(p[15]);
    lemma_one_more_encoding(p15, p[15]);
    assert(encodings(p16) =~= seq![50u8, high, 50u8, low, 56u8, 50u8, 0u8, 50u8, 1u8, 54u8, 39u8, 50u8, 0u8, 50u8, 30u8, 65u8, 48u8, 0u8, 2u8, 50u8, 0u8, 50u8, 1u8, 54u8, 31u8, 50u8, 0u8]);
    let p17 = p16.push(p[16]);
    lemma_one_more_encoding(p16, p[16]);
    assert(encodings(p17) =~= seq![50u8, high, 50u8, low, 56u8, 50u8, 0u8, 50u8, 1u8, 54u8, 39u8, 50u8, 0u8, 50u8, 30u8, 65u8, 48u8, 0u8, 2u8, 50u8, 0u8, 50u8, 1u8, 54u8, 31u8, 50u8, 0u8, 50u8, 5u8]);
    let p18 = p17.push(p[17]);
    lemma_one_more_encoding(p17, p[17]);
    assert(encodings(p18) =~= seq![50u8, high, 50u8, low, 56u8, 50u8, 0u8, 50u8, 1u8, 54u8, 39u8, 50u8, 0u8, 50u8, 30u8, 65u8, 48u8, 0u8, 2u8, 50u8, 0u8, 50u8, 1u8, 54u8, 31u8, 50u8, 0u8, 50u8, 5u8, 64u8]);
    let p19 = p18.push(p[18]);
    lemma_one_more_encoding(p18, p[18]);
    assert(encodings(p19) =~= seq![50u8, high, 50u8, low, 56u8, 50u8, 0u8, 50u8, 1u8, 54u8, 39u8, 50u8, 0u8, 50u8, 30u8, 65u8, 48u8, 0u8, 2u8, 50u8, 0u8, 50u8, 1u8, 54u8, 31u8, 50u8, 0u8, 50u8, 5u8, 64u8, 26u8]);
    let p20 = p19.push(p[19]);
    lemma_one_more_encoding(p19, p[19]);
    assert(encodings(p20) =~= seq![50u8, high, 50u8, low, 56u8, 50u8, 0u8, 50u8, 1u8, 54u8, 39u8, 50u8, 0u8, 50u8, 30u8, 65u8, 48u8, 0u8, 2u8, 50u8, 0u8, 50u8, 1u8, 54u8, 31u8, 50u8, 0u8, 50u8, 5u8, 64u8, 26u8, 27u8]);
    assert(p20 =~= p);
    assert(countdown_bytes(n) =~= seq![50u8, high, 50u8, low, 56u8, 50u8, 0u8, 50u8, 1u8, 54u8, 39u8, 50u8, 0u8, 50u8, 30u8, 65u8, 48u8, 0u8, 2u8, 50u8, 0u8, 50u8, 1u8, 54u8, 31u8, 50u8, 0u8, 50u8, 5u8, 64u8, 26u8, 27u8]) by {
        reveal(countdown_bytes);
    }
}

proof fn lemma_pushi_lies_at(mem: Seq<u8>, at: u16, value: u8)
    requires
        mem.len() == 0x1_0000,
        at < 0xFFFF,
        mem[at as int] == 50,
        mem[at + 1] == value,
    ensures
        lies_at(mem, at, Instruction::Pushi(value)),
{
    reveal(lies_at);
    lemma_opcode_round_trip(InstructionKind::Pushi, 0);
    assert(crate::encoding::operand_byte(mem, (at + 1) as u16, 0) == value);
}

proof fn lemma_dealloc_lies_at(mem: Seq<u8>, at: u16)
    requires
        mem.len() == 0x1_0000,
        at < 0xFFF0,
        mem[at as int] == 48,
        mem[at + 1] == 0,
        mem[at + 2] == 2,
    ensures
        lies_at(mem, at, Instruction::StackDealloc(2)),
{
    reveal(lies_at);
    lemma_opcode_round_trip(InstructionKind::StackDealloc, 0);
    assert(crate::encoding::operand_word(mem, (at + 1) as u16, 0) == 2);
    assert(crate::bits::u16_be_bytes(2) =~= seq![0u8, 2u8]);
}

proof fn lemma_plain_lies_at(mem: Seq<u8>, at: u16, instruction: Instruction)
    requires
        mem.len() == 0x1_0000,
        instruction == Instruction::PopL || instruction == Instruction::Popb || instruction
            == Instruction::CmpLB || instruction == Instruction::Zpopep || instruction
            == Instruction::SubBL || instruction == Instruction::Popep || instruction
            == Instruction::OmegaTheEndIsNear || instruction == Instruction::OmegaSkipToTheChase,
        mem[at as int] == instruction.spec_kind().spec_opcode(),
    ensures
        lies_at(mem, at, instruction),
{
    reveal(lies_at);
    lemma_opcode_round_trip(instruction.spec_kind(), 0);
}

/// Where the bytes of the program lie at address 0, the program lies there.
#[verifier::rlimit(50)]
pub proof fn lemma_countdown_lies_in_its_bytes(mem: Seq<u8>, n: u16)
    requires
        mem.len() == 0x1_0000,
        forall|k: int| 0 <= k < 32 ==> mem[k] == countdown_bytes(n)[k],
    ensures
        countdown_lies_in(mem, n),
{
    reveal(countdown_bytes);
    reveal(countdown_lies_in);
    let b = countdown_bytes(n);
    assert(mem[0] == b[0] && mem[1] == b[1] && mem[2] == b[2] && mem[3] == b[3] && mem[4] == b[4]
        && mem[5] == b[5] && mem[6] == b[6] && mem[7] == b[7] && mem[8] == b[8] && mem[9] == b[9]
        && mem[10] == b[10] && mem[11] == b[11] && mem[12] == b[12] && mem[13] == b[13] && mem[14]
        == b[14] && mem[15] == b[15]);
    assert(mem[16] == b[16] && mem[17] == b[17] && mem[18] == b[18] && mem[19] == b[19] && mem[20]
        == b[20] && mem[21] == b[21] && mem[22] == b[22] && mem[23] == b[23] && mem[24] == b[24]
        && mem[25] == b[25] && mem[26] == b[26] && mem[27] == b[27] && mem[28] == b[28] && mem[29]
        == b[29] && mem[30] == b[30] && mem[31] == b[31]);
    lemma_pushi_lies_at(mem, 0, (n / 0x100) as u8);
    lemma_pushi_lies_at(mem, 2, (n % 0x100) as u8);
    lemma_plain_lies_at(mem, 4, Instruction::PopL);
    lemma_pushi_lies_at(mem, 5, 0);
    lemma_pushi_lies_at(mem, 7, 1);
    lemma_plain_lies_at(mem, 9, Instruction::Popb);
    lemma_plain_lies_at(mem, 10, Instruction::CmpLB);
    lemma_pushi_lies_at(mem, 11, 0);
    lemma_pushi_lies_at(mem, 13, 30);
    lemma_plain_lies_at(mem, 15, Instruction::Zpopep);
    lemma_dealloc_lies_at(mem, 16);
    lemma_pushi_lies_at(mem, 19, 0);
    lemma_pushi_lies_at(mem, 21, 1);
    lemma_plain_lies_at(mem, 23, Instruction::Popb);
    lemma_plain_lies_at(mem, 24, Instruction::SubBL);
    lemma_pushi_lies_at(mem, 25, 0);
    lemma_pushi_lies_at(mem, 27, 5);
    lemma_plain_lies_at(mem, 29, Instruction::Popep);
    lemma_plain_lies_at(mem, 30, Instruction::OmegaTheEndIsNear);
    lemma_plain_lies_at(mem, 31, Instruction::OmegaSkipToTheChase);
}

/// Once the program was loaded at address 0, it lies there, and the loader
/// has come to address 32.
#[verifier::rlimit(50)]
pub proof fn lemma_countdown_is_loaded(mem: Seq<u8>, n: u16)
    requires
        mem.len() == 0x1_0000,
    ensures
        countdown_lies_in(instructions_loaded(mem, 0, countdown(n)).0, n),
        instructions_loaded(mem, 0, countdown(n)).1 == 32,
{
    lemma_instructions_are_loaded_end_to_end(mem, 0, countdown(n));
    lemma_countdown_bytes(n);
    assert(countdown_bytes(n).len() == 32) by {
        reveal(countdown_bytes);
    }
    lemma_bytes_lie_where_they_were_stored(mem, countdown_bytes(n));
    lemma_countdown_lies_in_its_bytes(write_at(mem, 0, countdown_bytes(n)), n);
}

proof fn lemma_bytes_lie_where_they_were_stored(mem: Seq<u8>, bytes: Seq<u8>)
    requires
        mem.len() == 0x1_0000,
        bytes.len() == 32,
    ensures
        write_at(mem, 0, bytes).len() == 0x1_0000,
        forall|k: int| 0 <= k < 32 ==> write_at(mem, 0, bytes)[k] == bytes[k],
{
    assert forall|k: int| 0 <= k < 32 implies write_at(mem, 0, bytes)[k] == bytes[k] by {
        assert(crate::memory::stored_index(k, 0, 32) == k);
    }
}

/// Whether register L stays within the bounds during the next `steps`
/// steps, their first and last state counted in.
pub open spec fn l_stays_within(s: MachineState, steps: nat, low: int, high: int) -> bool
    decreases steps,
{
    low <= s.reg_l <= high && (steps == 0 || l_stays_within(
        stepped(s).0,
        (steps - 1) as nat,
        low,
        high,
    ))
}

/// How many of the next `steps` steps execute the instruction at `at`.
pub open spec fn executions(s: MachineState, steps: nat, at: u16) -> nat
    decreases steps,
{
    if steps == 0 {
        0
    } else {
        (if s.reg_ep == at && !s.halted {
            1nat
        } else {
            0nat
        }) + executions(stepped(s).0, (steps - 1) as nat, at)
    }
}

proof fn lemma_executions_add_up(s: MachineState, first: nat, then: nat, at: u16)
    ensures
        executions(s, first + then, at) == executions(s, first, at) + executions(
            after_steps(s, first),
            then,
            at,
        ),
    decreases first,
{
    if first > 0 {
        lemma_executions_add_up(stepped(s).0, (first - 1) as nat, then, at);
    }
}

proof fn lemma_l_stays_within_adds_up(s: MachineState, first: nat, then: nat, low: int, high: int)
    requires
        l_stays_within(s, first, low, high),
        l_stays_within(after_steps(s, first), then, low, high),
    ensures
        l_stays_within(s, first + then, low, high),
    decreases first,
{
    if first > 0 {
        lemma_l_stays_within_adds_up(stepped(s).0, (first - 1) as nat, then, low, high);
    }
}

/// What the machine has done after some steps on its way: the state that it
/// has come to, that its steps were quiet, that register L has stayed
/// within the bounds, and how often it has compared and subtracted.
pub open spec fn gone(
    s: MachineState,
    steps: nat,
    to: MachineState,
    low: int,
    high: int,
    comparisons: nat,
    subtractions: nat,
) -> bool {
    &&& after_steps(s, steps) == to
    &&& quiet(s, steps)
    &&& l_stays_within(s, steps, low, high)
    &&& executions(s, steps, COMPARISON) == comparisons
    &&& executions(s, steps, SUBTRACTION) == subtractions
}

/// One way after another is one way.
proof fn lemma_gone_on(
    s: MachineState,
    first: nat,
    here: MachineState,
    then: nat,
    to: MachineState,
    low: int,
    high: int,
    comparisons: nat,
    subtractions: nat,
    more_comparisons: nat,
    more_subtractions: nat,
)
    requires
        gone(s, first, here, low, high, comparisons, subtractions),
        gone(here, then, to, low, high, more_comparisons, more_subtractions),
    ensures
        gone(
            s,
            first + then,
            to,
            low,
            high,
            comparisons + more_comparisons,
            subtractions + more_subtractions,
        ),
{
    lemma_steps_add_up(s, first, then);
    lemma_l_stays_within_adds_up(s, first, then, low, high);
    lemma_executions_add_up(s, first, then, COMPARISON);
    lemma_executions_add_up(s, first, then, SUBTRACTION);
}

/// One step is a way of one step.
proof fn lemma_gone_one_step(c: MachineState, to: MachineState, low: int, high: int)
    requires
        !c.halted,
        stepped(c) == (to, StepView::Ran(ActionView::Continue)),
        low <= c.reg_l <= high,
        low <= to.reg_l <= high,
    ensures
        gone(
            c,
            1,
            to,
            low,
            high,
            if c.reg_ep == COMPARISON {
                1
            } else {
                0
            },
            if c.reg_ep == SUBTRACTION {
                1
            } else {
                0
            },
        ),
{
    reveal_with_fuel(after_steps, 2);
    reveal_with_fuel(quiet, 2);
    reveal_with_fuel(executions, 2);
    reveal_with_fuel(l_stays_within, 2);
}

/// A step of a machine that has not halted executes the instruction that
/// lies at the execution pointer, once that pointer has moved past it.
#[verifier::rlimit(50)]
proof fn lemma_step_executes(c: MachineState, instruction: Instruction, len: int)
    requires
        !c.halted,
        lies_at(c.memory, c.reg_ep, instruction),
        len == encoding(instruction).len(),
        c.reg_ep + len < 0x1_0000,
    ensures
        stepped(c) == (
            execute(MachineState { reg_ep: (c.reg_ep + len) as u16, ..c }, instruction).0,
            StepView::Ran(
                execute(MachineState { reg_ep: (c.reg_ep + len) as u16, ..c }, instruction).1,
            ),
        ),
{
    reveal(lies_at);
    assert(crate::loader::advanced(c, len) == MachineState {
        reg_ep: (c.reg_ep + len) as u16,
        ..c
    });
}

proof fn lemma_pushi_executes(f: MachineState, value: u8)
    requires
        f.stack.len() < f.stack_capacity,
    ensures
        execute(f, Instruction::Pushi(value)) == (
            MachineState { stack: f.stack.push(value), ..f },
            ActionView::Continue,
        ),
{
    assert(f.stack + seq![value] =~= f.stack.push(value));
}

proof fn lemma_pop_l_executes(f: MachineState, below: Seq<u8>, high: u8, low: u8)
    requires
        f.stack == below.push(high).push(low),
    ensures
        execute(f, Instruction::PopL) == (
            MachineState { reg_l: u16_from_be(high, low), stack: below, ..f },
            ActionView::Continue,
        ),
{
    lemma_top_of_stack(f, below, high, low);
}

proof fn lemma_pop_b_executes(f: MachineState, below: Seq<u8>, high: u8, low: u8)
    requires
        f.stack == below.push(high).push(low),
    ensures
        execute(f, Instruction::Popb) == (
            MachineState {
                reg_b: crate::bits::u16_bits_as_i16(u16_from_be(high, low)),
                stack: below,
                ..f
            },
            ActionView::Continue,
        ),
{
    lemma_top_of_stack(f, below, high, low);
}

proof fn lemma_jump_executes(f: MachineState, below: Seq<u8>, high: u8, low: u8)
    requires
        f.stack == below.push(high).push(low),
    ensures
        execute(f, Instruction::Popep) == (
            MachineState { reg_ep: u16_from_be(high, low), stack: below, ..f },
            ActionView::Continue,
        ),
        f.reg_b == 0 ==> execute(f, Instruction::Zpopep) == (
            MachineState { reg_ep: u16_from_be(high, low), stack: below, ..f },
            ActionView::Continue,
        ),
{
    lemma_top_of_stack(f, below, high, low);
}

proof fn lemma_dealloc_executes(f: MachineState, below: Seq<u8>, high: u8, low: u8)
    requires
        f.stack == below.push(high).push(low),
    ensures
        execute(f, Instruction::StackDealloc(2)) == (
            MachineState { stack: below, ..f },
            ActionView::Continue,
        ),
{
    lemma_top_of_stack(f, below, high, low);
}

proof fn lemma_top_of_stack(f: MachineState, below: Seq<u8>, high: u8, low: u8)
    requires
        f.stack == below.push(high).push(low),
    ensures
        f.stack.len() >= 2,
        crate::semantics::below_top(f, 2) == below,
        crate::semantics::top_u16(f) == u16_from_be(high, low),
{
    assert(crate::semantics::below_top(f, 2) =~= below);
    assert(crate::semantics::top(f, 2) =~= seq![high, low]);
}

proof fn lemma_compare_executes(f: MachineState)
    requires
        f.reg_l <= 0x7FFF,
        f.reg_b >= 0,
    ensures
        execute(f, Instruction::CmpLB) == (
            MachineState { reg_b: (f.reg_l - f.reg_b) as i16, ..f },
            ActionView::Continue,
        ),
{
}

proof fn lemma_subtract_executes(f: MachineState)
    requires
        f.reg_b == 1,
        f.reg_l >= 1,
    ensures
        execute(f, Instruction::SubBL) == (
            MachineState { reg_l: (f.reg_l - 1) as u16, ..f },
            ActionView::Continue,
        ),
{
}

proof fn lemma_rest_executes(f: MachineState)
    ensures
        f.reg_b != 0 ==> execute(f, Instruction::Zpopep) == (f, ActionView::Continue),
        execute(f, Instruction::OmegaTheEndIsNear) == (
            MachineState {
                reg_omega: crate::omega::Omega { feeling_of_impending_doom: true, ..f.reg_omega },
                ..f
            },
            ActionView::Continue,
        ),
        f.reg_omega.feeling_of_impending_doom ==> execute(f, Instruction::OmegaSkipToTheChase)
            == (MachineState { halted: true, ..f }, ActionView::Continue),
{
}

/// Where the machine has gone after no step at all.
proof fn lemma_gone_nowhere(c: MachineState, low: int, high: int)
    requires
        low <= c.reg_l <= high,
    ensures
        gone(c, 0, c, low, high, 0, 0),
{
}

/// One step further on a way.
proof fn lemma_one_step_on(
    s: MachineState,
    steps: nat,
    here: MachineState,
    instruction: Instruction,
    len: int,
    to: MachineState,
    low: int,
    high: int,
)
    requires
        gone(s, steps, here, low, high, executions(s, steps, COMPARISON), executions(
            s,
            steps,
            SUBTRACTION,
        )),
        !here.halted,
        lies_at(here.memory, here.reg_ep, instruction),
        len == encoding(instruction).len(),
        here.reg_ep + len < 0x1_0000,
        execute(MachineState { reg_ep: (here.reg_ep + len) as u16, ..here }, instruction) == (
            to,
            ActionView::Continue,
        ),
        low <= here.reg_l <= high,
        low <= to.reg_l <= high,
    ensures
        gone(
            s,
            steps + 1,
            to,
            low,
            high,
            executions(s, steps, COMPARISON) + (if here.reg_ep == COMPARISON {
                1nat
            } else {
                0nat
            }),
            executions(s, steps, SUBTRACTION) + (if here.reg_ep == SUBTRACTION {
                1nat
            } else {
                0nat
            }),
        ),
{
    lemma_step_executes(here, instruction, len);
    lemma_gone_one_step(here, to, low, high);
    lemma_gone_on(
        s,
        steps,
        here,
        1,
        to,
        low,
        high,
        executions(s, steps, COMPARISON),
        executions(s, steps, SUBTRACTION),
        if here.reg_ep == COMPARISON {
            1
        } else {
            0
        },
        if here.reg_ep == SUBTRACTION {
            1
        } else {
            0
        },
    );
}

/// The first three steps of the program set register L to `n` and come to
/// the head of the loop.
#[verifier::rlimit(50)]
proof fn lemma_start(c: MachineState, n: u16, low: int, high: int)
    requires
        countdown_lies_in(c.memory, n),
        !c.halted,
        c.reg_ep == 0,
        c.stack.len() + 2 <= c.stack_capacity,
        low <= c.reg_l <= high,
        low <= n <= high,
    ensures
        gone(c, 3, MachineState { reg_ep: LOOP_HEAD, reg_l: n, ..c }, low, high, 0, 0),
{
    lemma_encoding_len(Instruction::Pushi(0));
    lemma_encoding_len(Instruction::PopL);
    lemma_u16_from_its_bytes(n);
    reveal(countdown_lies_in);
    let st = c.stack;
    let high_byte = (n / 0x100) as u8;
    let low_byte = (n % 0x100) as u8;
    let c1 = MachineState { reg_ep: 2, stack: st.push(high_byte), ..c };
    let c2 = MachineState { reg_ep: 4, stack: st.push(high_byte).push(low_byte), ..c };
    let c3 = MachineState { reg_ep: 5, reg_l: n, ..c };
    lemma_gone_nowhere(c, low, high);
    lemma_pushi_executes(MachineState { reg_ep: 2, ..c }, high_byte);
    lemma_one_step_on(c, 0, c, Instruction::Pushi(high_byte), 2, c1, low, high);
    lemma_pushi_executes(MachineState { reg_ep: 4, ..c1 }, low_byte);
    lemma_one_step_on(c, 1, c1, Instruction::Pushi(low_byte), 2, c2, low, high);
    lemma_pop_l_executes(MachineState { reg_ep: 5, ..c2 }, st, high_byte, low_byte);
    lemma_one_step_on(c, 2, c2, Instruction::PopL, 1, c3, low, high);
}

proof fn lemma_u16_from_its_bytes(n: u16)
    ensures
        u16_from_be((n / 0x100) as u8, (n % 0x100) as u8) == n,
        forall|value: u8| encoding(Instruction::Pushi(value)).len() == 2,
{
}

/// The first half of a round of the loop that begins with more than 1 in
/// register L: the machine compares, and does not leave the loop.
#[verifier::rlimit(50)]
proof fn lemma_round_begins(c: MachineState, n: u16, low: int, high: int)
    requires
        countdown_lies_in(c.memory, n),
        !c.halted,
        c.reg_ep == LOOP_HEAD,
        c.stack.len() + 2 <= c.stack_capacity,
        2 <= c.reg_l <= 0x7FFF,
        low <= c.reg_l <= high,
    ensures
        gone(
            c,
            8,
            MachineState { reg_ep: 19, reg_b: (c.reg_l - 1) as i16, ..c },
            low,
            high,
            1,
            0,
        ),
{
    lemma_lengths();
    reveal(countdown_lies_in);
    let st = c.stack;
    let l = c.reg_l;
    let c1 = MachineState { reg_ep: 7, stack: st.push(0), ..c };
    let c2 = MachineState { reg_ep: 9, stack: st.push(0).push(1), ..c };
    let c3 = MachineState { reg_ep: 10, reg_b: 1, ..c };
    let c4 = MachineState { reg_ep: 11, reg_b: (l - 1) as i16, ..c };
    let c5 = MachineState { reg_ep: 13, stack: st.push(0), ..c4 };
    let c6 = MachineState { reg_ep: 15, stack: st.push(0).push(30), ..c4 };
    let c7 = MachineState { reg_ep: 16, ..c6 };
    let c8 = MachineState { reg_ep: 19, ..c4 };
    lemma_gone_nowhere(c, low, high);
    lemma_pushi_executes(MachineState { reg_ep: 7, ..c }, 0);
    lemma_one_step_on(c, 0, c, Instruction::Pushi(0), 2, c1, low, high);
    lemma_pushi_executes(MachineState { reg_ep: 9, ..c1 }, 1);
    lemma_one_step_on(c, 1, c1, Instruction::Pushi(1), 2, c2, low, high);
    lemma_pop_b_executes(MachineState { reg_ep: 10, ..c2 }, st, 0, 1);
    lemma_one_step_on(c, 2, c2, Instruction::Popb, 1, c3, low, high);
    lemma_compare_executes(MachineState { reg_ep: 11, ..c3 });
    lemma_one_step_on(c, 3, c3, Instruction::CmpLB, 1, c4, low, high);
    lemma_pushi_executes(MachineState { reg_ep: 13, ..c4 }, 0);
    lemma_one_step_on(c, 4, c4, Instruction::Pushi(0), 2, c5, low, high);
    lemma_pushi_executes(MachineState { reg_ep: 15, ..c5 }, 30);
    lemma_one_step_on(c, 5, c5, Instruction::Pushi(30), 2, c6, low, high);
    lemma_rest_executes(MachineState { reg_ep: 16, ..c6 });
    lemma_one_step_on(c, 6, c6, Instruction::Zpopep, 1, c7, low, high);
    lemma_dealloc_executes(MachineState { reg_ep: 19, ..c7 }, st, 0, 30);
    lemma_one_step_on(c, 7, c7, Instruction::StackDealloc(2), 3, c8, low, high);
}

/// The second half of a round of the loop: the machine takes 1 off register
/// L and jumps back to the head of the loop.
#[verifier::rlimit(50)]
proof fn lemma_round_ends(c: MachineState, n: u16, low: int, high: int)
    requires
        countdown_lies_in(c.memory, n),
        !c.halted,
        c.reg_ep == 19,
        c.stack.len() + 2 <= c.stack_capacity,
        1 <= c.reg_l,
        low < c.reg_l <= high,
    ensures
        gone(
            c,
            7,
            MachineState { reg_ep: LOOP_HEAD, reg_b: 1, reg_l: (c.reg_l - 1) as u16, ..c },
            low,
            high,
            0,
            1,
        ),
{
    lemma_lengths();
    reveal(countdown_lies_in);
    let st = c.stack;
    let l = c.reg_l;
    let c9 = MachineState { reg_ep: 21, stack: st.push(0), ..c };
    let c10 = MachineState { reg_ep: 23, stack: st.push(0).push(1), ..c };
    let c11 = MachineState { reg_ep: 24, reg_b: 1, ..c };
    let c12 = MachineState { reg_ep: 25, reg_l: (l - 1) as u16, reg_b: 1, ..c };
    let c13 = MachineState { reg_ep: 27, stack: st.push(0), ..c12 };
    let c14 = MachineState { reg_ep: 29, stack: st.push(0).push(5), ..c12 };
    let c15 = MachineState { reg_ep: 5, ..c12 };
    lemma_gone_nowhere(c, low, high);
    lemma_pushi_executes(MachineState { reg_ep: 21, ..c }, 0);
    lemma_one_step_on(c, 0, c, Instruction::Pushi(0), 2, c9, low, high);
    lemma_pushi_executes(MachineState { reg_ep: 23, ..c9 }, 1);
    lemma_one_step_on(c, 1, c9, Instruction::Pushi(1), 2, c10, low, high);
    lemma_pop_b_executes(MachineState { reg_ep: 24, ..c10 }, st, 0, 1);
    lemma_one_step_on(c, 2, c10, Instruction::Popb, 1, c11, low, high);
    lemma_subtract_executes(MachineState { reg_ep: 25, ..c11 });
    lemma_one_step_on(c, 3, c11, Instruction::SubBL, 1, c12, low, high);
    lemma_pushi_executes(MachineState { reg_ep: 27, ..c12 }, 0);
    lemma_one_step_on(c, 4, c12, Instruction::Pushi(0), 2, c13, low, high);
    lemma_pushi_executes(MachineState { reg_ep: 29, ..c13 }, 5);
    lemma_one_step_on(c, 5, c13, Instruction::Pushi(5), 2, c14, low, high);
    lemma_jump_executes(MachineState { reg_ep: 30, ..c14 }, st, 0, 5);
    lemma_one_step_on(c, 6, c14, Instruction::Popep, 1, c15, low, high);
}

/// A round of the loop that begins with more than 1 in register L takes
/// fifteen steps: it compares once, takes 1 off register L once, and is
/// back at the head of the loop.
proof fn lemma_round(c: MachineState, n: u16, low: int, high: int)
    requires
        countdown_lies_in(c.memory, n),
        !c.halted,
        c.reg_ep == LOOP_HEAD,
        c.stack.len() + 2 <= c.stack_capacity,
        2 <= c.reg_l <= 0x7FFF,
        low < c.reg_l <= high,
    ensures
        gone(
            c,
            15,
            MachineState { reg_b: 1, reg_l: (c.reg_l - 1) as u16, ..c },
            low,
            high,
            1,
            1,
        ),
{
    let middle = MachineState { reg_ep: 19, reg_b: (c.reg_l - 1) as i16, ..c };
    let end = MachineState { reg_b: 1, reg_l: (c.reg_l - 1) as u16, ..c };
    lemma_round_begins(c, n, low, high);
    lemma_round_ends(middle, n, low, high);
    lemma_gone_on(c, 8, middle, 7, end, low, high, 1, 0, 0, 1);
}

proof fn lemma_lengths()
    ensures
        forall|value: u8| encoding(Instruction::Pushi(value)).len() == 2,
        encoding(Instruction::StackDealloc(2)).len() == 3,
        encoding(Instruction::PopL).len() == 1,
        encoding(Instruction::Popb).len() == 1,
        encoding(Instruction::Popep).len() == 1,
        encoding(Instruction::Zpopep).len() == 1,
        encoding(Instruction::CmpLB).len() == 1,
        encoding(Instruction::SubBL).len() == 1,
        encoding(Instruction::OmegaTheEndIsNear).len() == 1,
        encoding(Instruction::OmegaSkipToTheChase).len() == 1,
        u16_from_be(0, 1) == 1,
        u16_from_be(0, 5) == 5,
        u16_from_be(0, 30) == 30,
        crate::bits::u16_bits_as_i16(1) == 1,
{
}

/// The round of the loop that begins with 1 in register L takes nine steps:
/// it compares once, leaves the loop and halts the machine.
#[verifier::rlimit(50)]
proof fn lemma_last_round(c: MachineState, n: u16, low: int, high: int)
    requires
        countdown_lies_in(c.memory, n),
        !c.halted,
        c.reg_ep == LOOP_HEAD,
        c.stack.len() + 2 <= c.stack_capacity,
        c.reg_l == 1,
        low <= 1 <= high,
    ensures
        gone(
            c,
            9,
            MachineState {
                reg_ep: 32,
                reg_b: 0,
                reg_omega: crate::omega::Omega { feeling_of_impending_doom: true, ..c.reg_omega },
                halted: true,
                ..c
            },
            low,
            high,
            1,
            0,
        ),
{
    lemma_lengths();
    reveal(countdown_lies_in);
    let st = c.stack;
    let c1 = MachineState { reg_ep: 7, stack: st.push(0), ..c };
    let c2 = MachineState { reg_ep: 9, stack: st.push(0).push(1), ..c };
    let c3 = MachineState { reg_ep: 10, reg_b: 1, ..c };
    let c4 = MachineState { reg_ep: 11, reg_b: 0, ..c };
    let c5 = MachineState { reg_ep: 13, stack: st.push(0), ..c4 };
    let c6 = MachineState { reg_ep: 15, stack: st.push(0).push(30), ..c4 };
    let c7 = MachineState { reg_ep: 30, ..c4 };
    let c8 = MachineState {
        reg_ep: 31,
        reg_omega: crate::omega::Omega { feeling_of_impending_doom: true, ..c.reg_omega },
        ..c4
    };
    let c9 = MachineState { reg_ep: 32, halted: true, ..c8 };
    lemma_gone_nowhere(c, low, high);
    lemma_pushi_executes(MachineState { reg_ep: 7, ..c }, 0);
    lemma_one_step_on(c, 0, c, Instruction::Pushi(0), 2, c1, low, high);
    lemma_pushi_executes(MachineState { reg_ep: 9, ..c1 }, 1);
    lemma_one_step_on(c, 1, c1, Instruction::Pushi(1), 2, c2, low, high);
    lemma_pop_b_executes(MachineState { reg_ep: 10, ..c2 }, st, 0, 1);
    lemma_one_step_on(c, 2, c2, Instruction::Popb, 1, c3, low, high);
    lemma_compare_executes(MachineState { reg_ep: 11, ..c3 });
    lemma_one_step_on(c, 3, c3, Instruction::CmpLB, 1, c4, low, high);
    lemma_pushi_executes(MachineState { reg_ep: 13, ..c4 }, 0);
    lemma_one_step_on(c, 4, c4, Instruction::Pushi(0), 2, c5, low, high);
    lemma_pushi_executes(MachineState { reg_ep: 15, ..c5 }, 30);
    lemma_one_step_on(c, 5, c5, Instruction::Pushi(30), 2, c6, low, high);
    lemma_jump_executes(MachineState { reg_ep: 16, ..c6 }, st, 0, 30);
    lemma_one_step_on(c, 6, c6, Instruction::Zpopep, 1, c7, low, high);
    lemma_rest_executes(MachineState { reg_ep: 31, ..c7 });
    lemma_one_step_on(c, 7, c7, Instruction::OmegaTheEndIsNear, 1, c8, low, high);
    lemma_rest_executes(MachineState { reg_ep: 32, ..c8 });
    lemma_one_step_on(c, 8, c8, Instruction::OmegaSkipToTheChase, 1, c9, low, high);
}

/// The state at the head of the loop after some rounds: register L is down
/// by their number, and register B is 1 once there was a round.
pub open spec fn after_rounds(head: MachineState, rounds: nat) -> MachineState {
    MachineState {
        reg_b: if rounds == 0 {
            head.reg_b
        } else {
            1
        },
        reg_l: (head.reg_l - rounds) as u16,
        ..head
    }
}

/// Rounds of the loop, as many as leave at least 1 in register L: each takes
/// fifteen steps, compares once and takes 1 off register L once.
#[verifier::rlimit(50)]
proof fn lemma_rounds(c: MachineState, n: u16, rounds: nat)
    requires
        countdown_lies_in(c.memory, n),
        !c.halted,
        c.reg_ep == LOOP_HEAD,
        c.stack.len() + 2 <= c.stack_capacity,
        c.reg_l <= 0x7FFF,
        rounds < c.reg_l,
    ensures
        gone(c, 15 * rounds, after_rounds(c, rounds), 1, c.reg_l as int, rounds, rounds),
    decreases rounds,
{
    if rounds == 0 {
        lemma_gone_nowhere(c, 1, c.reg_l as int);
    } else {
        let before = after_rounds(c, (rounds - 1) as nat);
        lemma_rounds(c, n, (rounds - 1) as nat);
        lemma_round(before, n, 1, c.reg_l as int);
        lemma_gone_on(
            c,
            15 * (rounds - 1) as nat,
            before,
            15,
            after_rounds(c, rounds),
            1,
            c.reg_l as int,
            (rounds - 1) as nat,
            (rounds - 1) as nat,
            1,
            1,
        );
    }
}

/// The state in which the countdown from `n` ends.
pub open spec fn counted_down(s: MachineState) -> MachineState {
    MachineState {
        reg_ep: 32,
        reg_b: 0,
        reg_l: 1,
        reg_omega: crate::omega::Omega { feeling_of_impending_doom: true, ..s.reg_omega },
        halted: true,
        ..s
    }
}

/// How many steps the countdown from `n` takes: three to begin with,
/// fifteen for each round but the last, and nine for the last.
pub open spec fn countdown_steps(n: u16) -> nat {
    (3 + 15 * (n - 1) + 9) as nat
}

/// The countdown leaves its loop exactly at one.
///
/// Let the program be loaded at address 0 of a machine that has not halted,
/// whose execution pointer is 0 and whose stack has room for two bytes, and
/// let `n` be at least 1 and at most 32767. Then the machine comes to the
/// head of the loop `n` times, with `n`, `n - 1`, and so on down to 1 in
/// register L. From the first time on register L is never below 1 nor
/// above `n`. The machine compares `n` times and takes 1 off register L
/// `n - 1` times. After the last round it halts, with 1 in register L,
/// with its stack, its flag and its memory as they were, and having asked
/// nothing of the host.
#[verifier::rlimit(50)]
pub proof fn lemma_countdown_leaves_at_one(s: MachineState, before: Seq<u8>, n: u16, rounds: nat)
    requires
        before.len() == 0x1_0000,
        s.memory == instructions_loaded(before, 0, countdown(n)).0,
        !s.halted,
        s.reg_ep == 0,
        s.stack.len() + 2 <= s.stack_capacity,
        1 <= n <= 0x7FFF,
        rounds < n,
    ensures
        quiet(s, 3 + 15 * rounds),
        after_steps(s, 3 + 15 * rounds) == after_rounds(
            MachineState { reg_ep: LOOP_HEAD, reg_l: n, ..s },
            rounds,
        ),
        quiet(s, countdown_steps(n)),
        after_steps(s, countdown_steps(n)) == counted_down(s),
        ran(s, countdown_steps(n) + 1) == (counted_down(s), Some(StepView::Halted(s.reg_a))),
        l_stays_within(after_steps(s, 3), (countdown_steps(n) - 3) as nat, 1, n as int),
        executions(s, countdown_steps(n), COMPARISON) == n,
        executions(s, countdown_steps(n), SUBTRACTION) == n - 1,
{
    lemma_countdown_is_loaded(before, n);
    let head = MachineState { reg_ep: LOOP_HEAD, reg_l: n, ..s };
    lemma_start(s, n, 0, 0xFFFF);
    // to the head of the loop after the given rounds
    lemma_rounds(head, n, rounds);
    lemma_steps_add_up(s, 3, 15 * rounds);
    // to the end
    let last = after_rounds(head, (n - 1) as nat);
    lemma_rounds(head, n, (n - 1) as nat);
    lemma_last_round(last, n, 1, n as int);
    lemma_gone_on(
        head,
        15 * (n - 1) as nat,
        last,
        9,
        counted_down(s),
        1,
        n as int,
        (n - 1) as nat,
        (n - 1) as nat,
        1,
        0,
    );
    let rest = (countdown_steps(n) - 3) as nat;
    assert(rest == 15 * (n - 1) as nat + 9);
    lemma_steps_add_up(s, 3, rest);
    lemma_executions_add_up(s, 3, rest, COMPARISON);
    lemma_executions_add_up(s, 3, rest, SUBTRACTION);
    lemma_run_goes_through_quiet_steps(s, countdown_steps(n), 1);
    lemma_halted_is_final(counted_down(s), 1);
}

} // verus!
