//! What each instruction does to the state of the machine, and what it asks
//! of the host.
//!
//! Three rules hold throughout. An instruction that the stack, the string
//! register or the dot pointer cannot serve raises the flag and changes
//! nothing else. Nothing but `TgFlag` and `ClFlag` ever lowers the flag. An
//! instruction that reads or writes outside the machine does so only while
//! the dot pointer points at a dot.

use vstd::prelude::*;
use crate::bits::{
    is_scalar_value, i16_bits_as_u16, i32_bits_as_u32, i8_bits_as_u8, u16_be_bytes, u16_bits_as_i16, u16_from_be,
    u32_be_bytes, u32_bits_as_i32, u32_from_be, u64_be_bytes, u64_from_be, u8_bits_as_i8,
};
use crate::instruction::Instruction;
use crate::memory::{address, line_at, read_at, u64_at, write_at};
use crate::primes::is_allow_listed;
use crate::stack::zeros;
use crate::state::{ActionView, FloatOperation, MachineState, OutputView, DOT};

verus! {

/// The state after `bytes` was pushed onto the stack, or with the flag
/// raised if they do not fit.
pub open spec fn pushed(s: MachineState, bytes: Seq<u8>) -> MachineState {
    if s.stack.len() + bytes.len() <= s.stack_capacity {
        MachineState { stack: s.stack + bytes, ..s }
    } else {
        s.raised()
    }
}

/// The stack without its top `n` bytes.
pub open spec fn below_top(s: MachineState, n: int) -> Seq<u8> {
    s.stack.take(s.stack.len() - n)
}

/// The top `n` bytes of the stack, the top last.
pub open spec fn top(s: MachineState, n: int) -> Seq<u8> {
    s.stack.skip(s.stack.len() - n)
}

/// The 16-bit value on top of the stack.
pub open spec fn top_u16(s: MachineState) -> u16 {
    u16_from_be(top(s, 2)[0], top(s, 2)[1])
}

/// The 32-bit value on top of the stack.
pub open spec fn top_u32(s: MachineState) -> u32 {
    u32_from_be(top(s, 4)[0], top(s, 4)[1], top(s, 4)[2], top(s, 4)[3])
}

/// The state after a jump was taken: the execution pointer is popped off
/// the stack, or the flag raised if the stack holds fewer than two bytes.
pub open spec fn jumped(s: MachineState) -> MachineState {
    if s.stack.len() >= 2 {
        MachineState { reg_ep: top_u16(s), stack: below_top(s, 2), ..s }
    } else {
        s.raised()
    }
}

/// The state after a jump that is taken only if `condition` holds. A jump
/// that is not taken touches neither the stack nor the flag.
pub open spec fn jumped_if(s: MachineState, condition: bool) -> MachineState {
    if condition {
        jumped(s)
    } else {
        s
    }
}

/// What an instruction on the array register does.
pub open spec fn execute_array(s: MachineState, instruction: Instruction) -> MachineState {
    match instruction {
        Instruction::Clr => MachineState { reg_r: Seq::new(37, |k: int| 0i8), ..s },
        Instruction::Dumpr(at) => MachineState {
            memory: write_at(s.memory, at, Seq::new(37, |k: int| i8_bits_as_u8(s.reg_r[k]))),
            ..s
        },
        Instruction::Movar(index) => if index < 37 {
            MachineState { reg_a: i8_bits_as_u8(s.reg_r[index as int]), ..s }
        } else {
            s
        },
        Instruction::Setr(index, at) => if index < 37 {
            MachineState {
                memory: s.memory.update(at as int, i8_bits_as_u8(s.reg_r[index as int])),
                ..s
            }
        } else {
            s
        },
        Instruction::Setir(index, value) => if index < 37 {
            MachineState { reg_r: s.reg_r.update(index as int, value), ..s }
        } else {
            s
        },
        Instruction::Ldr(at) => MachineState {
            reg_r: Seq::new(37, |k: int| u8_bits_as_i8(s.memory[address(at, k)])),
            ..s
        },
        Instruction::Ldir(slots) => MachineState { reg_r: slots@, ..s },
        _ => s,
    }
}

/// What an instruction on the string register does.
pub open spec fn execute_string(s: MachineState, instruction: Instruction) -> MachineState {
    match instruction {
        Instruction::Clss => MachineState { reg_ss: Seq::empty(), ..s },
        Instruction::Dumpss(at) => MachineState { memory: write_at(s.memory, at, s.reg_ss), ..s },
        Instruction::Writess(at, index) => if index < s.reg_ss.len() {
            MachineState {
                memory: s.memory.update(at as int, s.reg_ss[index as int]),
                reg_a: s.reg_ss[index as int],
                ..s
            }
        } else {
            s.raised()
        },
        Instruction::Movass(index) => if index < s.reg_ss.len() {
            MachineState { reg_ss: s.reg_ss.update(index as int, s.reg_a), ..s }
        } else {
            s.raised()
        },
        Instruction::Setss(at, index) => if index < s.reg_ss.len() {
            MachineState { reg_ss: s.reg_ss.update(index as int, s.memory[at as int]), ..s }
        } else {
            s.raised()
        },
        Instruction::Setiss(value, index) => if index < s.reg_ss.len() {
            MachineState { reg_ss: s.reg_ss.update(index as int, value), ..s }
        } else {
            s.raised()
        },
        Instruction::Ldss(at) => if s.reg_ss_capacity >= 255 {
            MachineState { reg_ss: read_at(s.memory, at, 255), ..s }
        } else {
            s.raised()
        },
        Instruction::Pushss => if s.stack.len() > 0 && s.reg_ss.len() < s.reg_ss_capacity {
            MachineState {
                reg_ss: s.reg_ss.push(s.stack.last()),
                stack: s.stack.drop_last(),
                ..s
            }
        } else {
            s.raised()
        },
        Instruction::Popss => if s.reg_ss.len() > 0 && s.stack.len() < s.stack_capacity {
            MachineState {
                reg_ss: s.reg_ss.drop_last(),
                stack: s.stack.push(s.reg_ss.last()),
                ..s
            }
        } else {
            s.raised()
        },
        Instruction::Lenssa => MachineState { reg_a: (s.reg_ss.len() % 0x100) as u8, ..s },
        _ => s,
    }
}

/// The polymorphic desires after a gain: they stay at their ceiling.
pub open spec fn desires_gained(desires: u64, gain: u8) -> u64 {
    if desires + gain > u64::MAX {
        u64::MAX
    } else {
        (desires + gain) as u64
    }
}

/// The polymorphic desires after a loss: they stay at zero.
pub open spec fn desires_lost(desires: u64, loss: u8) -> u64 {
    if desires < loss {
        0
    } else {
        (desires - loss) as u64
    }
}

/// What an instruction on the omega register does, and what it asks of the
/// host.
pub open spec fn execute_omega(s: MachineState, instruction: Instruction) -> (
    MachineState,
    ActionView,
) {
    let omega = s.reg_omega;
    match instruction {
        Instruction::OmegaChoiceSet(choice) => (
            MachineState {
                reg_omega: crate::omega::Omega { illusion_of_choice: choice, ..omega },
                ..s
            },
            ActionView::Continue,
        ),
        Instruction::OmegaChoiceGetA => (MachineState { reg_a: 0, ..s }, ActionView::Continue),
        Instruction::OmegaGainAPolymorphicDesires => (
            MachineState {
                reg_omega: crate::omega::Omega {
                    polymorphic_desires: desires_gained(omega.polymorphic_desires, s.reg_a),
                    ..omega
                },
                ..s
            },
            ActionView::Continue,
        ),
        Instruction::OmegaLoseAPolymorphicDesires => (
            MachineState {
                reg_omega: crate::omega::Omega {
                    polymorphic_desires: desires_lost(omega.polymorphic_desires, s.reg_a),
                    ..omega
                },
                ..s
            },
            ActionView::Continue,
        ),
        Instruction::OmegaPushPolymorphicDesires => (
            pushed(s, u64_be_bytes(omega.polymorphic_desires)),
            ActionView::Continue,
        ),
        Instruction::OmegaTheEndIsNear => (
            MachineState {
                reg_omega: crate::omega::Omega { feeling_of_impending_doom: true, ..omega },
                ..s
            },
            ActionView::Continue,
        ),
        Instruction::OmegaSkipToTheChase => (
            if omega.feeling_of_impending_doom {
                MachineState { halted: true, ..s }
            } else {
                s
            },
            ActionView::Continue,
        ),
        Instruction::OmegaSetSentience(enable) => if enable {
            (
                MachineState {
                    reg_omega: crate::omega::Omega { is_sentient: true, ..omega },
                    ..s
                },
                ActionView::Continue,
            )
        } else {
            (s.raised(), ActionView::Refuse)
        },
        Instruction::OmegaSetPaperclipProduction(enable) => (
            MachineState {
                reg_omega: crate::omega::Omega { should_make_infinite_paperclips: enable, ..omega },
                ..s
            },
            ActionView::Continue,
        ),
        _ => (s, ActionView::Continue),
    }
}

/// What an instruction that computes on registers B and L does. Register B
/// enters the arithmetic and the bitwise operations by its bits, as an
/// unsigned number.
pub open spec fn execute_arithmetic(s: MachineState, instruction: Instruction) -> MachineState {
    let b = i16_bits_as_u16(s.reg_b);
    match instruction {
        Instruction::AddBL => MachineState {
            reg_l: ((s.reg_l + b) % 0x1_0000) as u16,
            flag: s.flag || s.reg_l + b > u16::MAX,
            ..s
        },
        Instruction::SubBL => MachineState {
            reg_l: ((s.reg_l - b) % 0x1_0000) as u16,
            flag: s.flag || s.reg_l < b,
            ..s
        },
        Instruction::MulBL => MachineState {
            reg_l: ((s.reg_l * b) % 0x1_0000) as u16,
            flag: s.flag || s.reg_l * b > u16::MAX,
            ..s
        },
        Instruction::DivBL => MachineState {
            reg_l: if b == 0 {
                0
            } else {
                s.reg_l / b
            },
            ..s
        },
        Instruction::ModBL => MachineState {
            reg_l: if b == 0 {
                0
            } else {
                s.reg_l % b
            },
            ..s
        },
        Instruction::NotL => MachineState { reg_l: !s.reg_l, ..s },
        Instruction::AndBL => MachineState { reg_l: s.reg_l & b, ..s },
        Instruction::OrBL => MachineState { reg_l: s.reg_l | b, ..s },
        Instruction::XorBL => MachineState { reg_l: s.reg_l ^ b, ..s },
        Instruction::CmpLB => {
            let l: int = if s.reg_l > i16::MAX {
                i16::MAX as int
            } else {
                s.reg_l as int
            };
            MachineState {
                reg_l: l as u16,
                reg_b: if l - s.reg_b > i16::MAX {
                    i16::MAX
                } else {
                    (l - s.reg_b) as i16
                },
                flag: s.flag || s.reg_l > i16::MAX || l - s.reg_b > i16::MAX,
                ..s
            }
        },
        _ => s,
    }
}

/// The operation on register F that an instruction asks for, with the
/// address of its second operand.
pub open spec fn float_operation(instruction: Instruction) -> Option<(FloatOperation, u16)> {
    match instruction {
        Instruction::AddF(at) => Some((FloatOperation::Add, at)),
        Instruction::SubF(at) => Some((FloatOperation::Sub, at)),
        Instruction::MulF(at) => Some((FloatOperation::Mul, at)),
        Instruction::DivF(at) => Some((FloatOperation::Div, at)),
        Instruction::ModF(at) => Some((FloatOperation::Rem, at)),
        _ => None,
    }
}

/// What an instruction on register F asks of the host. The machine itself
/// only finds the second operand: the eight bytes at the address, big
/// endian.
pub open spec fn execute_float(s: MachineState, instruction: Instruction) -> ActionView {
    match float_operation(instruction) {
        Some((operation, at)) => ActionView::Float { operation, operand: u64_at(s.memory, at) },
        None => ActionView::Continue,
    }
}

/// What an instruction that pushes onto the stack or pops off it does.
pub open spec fn execute_stack(s: MachineState, instruction: Instruction) -> MachineState {
    match instruction {
        Instruction::StackAlloc(amount) => pushed(s, zeros(amount as nat)),
        Instruction::StackDealloc(amount) => if amount <= s.stack.len() {
            MachineState { stack: below_top(s, amount as int), ..s }
        } else {
            s.raised()
        },
        Instruction::Push(at) => pushed(s, seq![s.memory[at as int]]),
        Instruction::Pushi(value) => pushed(s, seq![value]),
        Instruction::Pop(at) => if s.stack.len() >= 1 {
            MachineState {
                memory: s.memory.update(at as int, s.stack.last()),
                stack: below_top(s, 1),
                ..s
            }
        } else {
            s.raised()
        },
        Instruction::Popa => if s.stack.len() >= 1 {
            MachineState { reg_a: s.stack.last(), stack: below_top(s, 1), ..s }
        } else {
            s.raised()
        },
        Instruction::Pusha => pushed(s, seq![s.reg_a]),
        Instruction::Popb => if s.stack.len() >= 2 {
            MachineState { reg_b: u16_bits_as_i16(top_u16(s)), stack: below_top(s, 2), ..s }
        } else {
            s.raised()
        },
        Instruction::Pushb => pushed(s, u16_be_bytes(i16_bits_as_u16(s.reg_b))),
        Instruction::PopL => if s.stack.len() >= 2 {
            MachineState { reg_l: top_u16(s), stack: below_top(s, 2), ..s }
        } else {
            s.raised()
        },
        Instruction::PushL => pushed(s, u16_be_bytes(s.reg_l)),
        Instruction::Popf => if s.stack.len() >= 8 {
            MachineState { reg_f: u64_from_be(top(s, 8)), stack: below_top(s, 8), ..s }
        } else {
            s.raised()
        },
        Instruction::Pushf => pushed(s, u64_be_bytes(s.reg_f)),
        Instruction::Popch => if s.stack.len() >= 4 && is_scalar_value(top_u32(s)) {
            MachineState { reg_ch: top_u32(s) as char, stack: below_top(s, 4), ..s }
        } else {
            s.raised()
        },
        Instruction::Pushch => pushed(s, u32_be_bytes(s.reg_ch as u32)),
        Instruction::Popnum => if s.stack.len() >= 4 {
            MachineState { num_reg: u32_bits_as_i32(top_u32(s)), stack: below_top(s, 4), ..s }
        } else {
            s.raised()
        },
        Instruction::Pushnum => pushed(s, u32_be_bytes(i32_bits_as_u32(s.num_reg))),
        _ => s,
    }
}

/// Whether a jump is taken: the condition of a conditional jump, `true` for
/// the jump without a condition, and `None` for what is no jump.
pub open spec fn jump_condition(s: MachineState, instruction: Instruction) -> Option<bool> {
    match instruction {
        Instruction::Popep => Some(true),
        Instruction::Zpopep => Some(s.reg_b == 0),
        Instruction::Ppopep => Some(s.reg_b > 0),
        Instruction::Npopep => Some(s.reg_b < 0),
        Instruction::Fpopep => Some(s.flag),
        Instruction::Zapopep => Some(s.reg_a == 0),
        Instruction::Dpopep => Some(s.debug_mode),
        _ => None,
    }
}

/// What a jump does.
pub open spec fn execute_jump(s: MachineState, instruction: Instruction) -> MachineState {
    match jump_condition(s, instruction) {
        Some(condition) => jumped_if(s, condition),
        None => s,
    }
}

/// Whether the instruction reads or writes outside the machine, and so
/// depends on the dot pointer.
pub open spec fn is_io(instruction: Instruction) -> bool {
    match instruction {
        Instruction::GetChar
        | Instruction::GetLine
        | Instruction::WriteChar
        | Instruction::WriteLiness
        | Instruction::WriteLine(_)
        | Instruction::DebugMachineState
        | Instruction::DebugMachineStateCompact
        | Instruction::DebugMemoryRegion(_, _)
        | Instruction::DebugStackRegion(_, _)
        | Instruction::ShowChoice => true,
        _ => false,
    }
}

/// What an input or output instruction asks of the host while the dot
/// pointer points at a dot, or `None` if it can ask for nothing: a region
/// that does not exist cannot be printed.
pub open spec fn requested(s: MachineState, instruction: Instruction) -> Option<ActionView> {
    let prefix = s.prefix();
    match instruction {
        Instruction::GetChar => Some(ActionView::ReadChar),
        Instruction::GetLine => Some(ActionView::ReadLine),
        Instruction::WriteChar => Some(
            ActionView::Print { prefix, output: OutputView::Char(s.reg_ch) },
        ),
        Instruction::WriteLiness => Some(
            ActionView::Print { prefix, output: OutputView::String(s.reg_ss) },
        ),
        Instruction::WriteLine(at) => Some(
            ActionView::Print { prefix, output: OutputView::Line(line_at(s.memory, at)) },
        ),
        Instruction::DebugMachineState => Some(
            ActionView::Print { prefix, output: OutputView::MachineState },
        ),
        Instruction::DebugMachineStateCompact => Some(
            ActionView::Print { prefix, output: OutputView::MachineStateCompact },
        ),
        Instruction::DebugMemoryRegion(start, end) => if start <= end {
            Some(
                ActionView::Print {
                    prefix,
                    output: OutputView::MemoryRegion(s.memory.subrange(start as int, end as int)),
                },
            )
        } else {
            None
        },
        Instruction::DebugStackRegion(start, end) => if start <= end <= s.stack.len() {
            Some(
                ActionView::Print {
                    prefix,
                    output: OutputView::StackRegion(s.stack.subrange(start as int, end as int)),
                },
            )
        } else {
            None
        },
        Instruction::ShowChoice => Some(
            ActionView::Print {
                prefix,
                output: OutputView::Choice(s.reg_omega.illusion_of_choice),
            },
        ),
        _ => None,
    }
}

/// What an input or output instruction does: while the dot pointer points
/// at a dot it asks the host for what it is to do, and otherwise, or where
/// it can ask for nothing, it raises the flag and nothing happens.
pub open spec fn execute_io(s: MachineState, instruction: Instruction) -> (
    MachineState,
    ActionView,
) {
    if s.dot_in_place() {
        match requested(s, instruction) {
            Some(action) => (s, action),
            None => (s.raised(), ActionView::Continue),
        }
    } else {
        (s.raised(), ActionView::Continue)
    }
}

/// What one of the remaining instructions does.
pub open spec fn execute_control(s: MachineState, instruction: Instruction) -> MachineState {
    match instruction {
        Instruction::Ldar(at) => MachineState { reg_a: s.memory[at as int], ..s },
        Instruction::Sba => MachineState {
            reg_a: if s.reg_b < 0 {
                255
            } else if s.reg_b == 0 {
                0
            } else {
                1
            },
            ..s
        },
        Instruction::Ldidp(at) => if is_allow_listed(at) {
            MachineState { reg_dp: at, ..s }
        } else {
            s.raised()
        },
        Instruction::TgFlag => MachineState { flag: !s.flag, ..s },
        Instruction::ClFlag => MachineState { flag: false, ..s },
        Instruction::ToggleDebug => MachineState { debug_mode: !s.debug_mode, ..s },
        _ => s,
    }
}

/// What executing an instruction does to the state of the machine, and what
/// it asks of the host.
pub open spec fn execute(s: MachineState, instruction: Instruction) -> (MachineState, ActionView) {
    match instruction {
        Instruction::Nop
        | Instruction::Ldar(_)
        | Instruction::Sba
        | Instruction::Ldidp(_)
        | Instruction::TgFlag
        | Instruction::ClFlag
        | Instruction::ToggleDebug => (execute_control(s, instruction), ActionView::Continue),
        Instruction::Clr
        | Instruction::Dumpr(_)
        | Instruction::Movar(_)
        | Instruction::Setr(_, _)
        | Instruction::Setir(_, _)
        | Instruction::Ldr(_)
        | Instruction::Ldir(_) => (execute_array(s, instruction), ActionView::Continue),
        Instruction::Clss
        | Instruction::Dumpss(_)
        | Instruction::Writess(_, _)
        | Instruction::Movass(_)
        | Instruction::Setss(_, _)
        | Instruction::Setiss(_, _)
        | Instruction::Ldss(_)
        | Instruction::Pushss
        | Instruction::Popss
        | Instruction::Lenssa => (execute_string(s, instruction), ActionView::Continue),
        Instruction::OmegaChoiceSet(_)
        | Instruction::OmegaChoiceGetA
        | Instruction::OmegaGainAPolymorphicDesires
        | Instruction::OmegaLoseAPolymorphicDesires
        | Instruction::OmegaPushPolymorphicDesires
        | Instruction::OmegaTheEndIsNear
        | Instruction::OmegaSkipToTheChase
        | Instruction::OmegaSetSentience(_)
        | Instruction::OmegaSetPaperclipProduction(_) => execute_omega(s, instruction),
        Instruction::AddBL
        | Instruction::SubBL
        | Instruction::MulBL
        | Instruction::DivBL
        | Instruction::ModBL
        | Instruction::NotL
        | Instruction::AndBL
        | Instruction::OrBL
        | Instruction::XorBL
        | Instruction::CmpLB => (execute_arithmetic(s, instruction), ActionView::Continue),
        Instruction::AddF(_)
        | Instruction::SubF(_)
        | Instruction::MulF(_)
        | Instruction::DivF(_)
        | Instruction::ModF(_) => (s, execute_float(s, instruction)),
        Instruction::StackAlloc(_)
        | Instruction::StackDealloc(_)
        | Instruction::Push(_)
        | Instruction::Pushi(_)
        | Instruction::Pop(_)
        | Instruction::Popa
        | Instruction::Pusha
        | Instruction::Popb
        | Instruction::Pushb
        | Instruction::PopL
        | Instruction::PushL
        | Instruction::Popf
        | Instruction::Pushf
        | Instruction::Popch
        | Instruction::Pushch
        | Instruction::Popnum
        | Instruction::Pushnum => (execute_stack(s, instruction), ActionView::Continue),
        Instruction::Popep
        | Instruction::Zpopep
        | Instruction::Ppopep
        | Instruction::Npopep
        | Instruction::Fpopep
        | Instruction::Zapopep
        | Instruction::Dpopep => (execute_jump(s, instruction), ActionView::Continue),
        Instruction::GetChar
        | Instruction::GetLine
        | Instruction::WriteChar
        | Instruction::WriteLiness
        | Instruction::WriteLine(_)
        | Instruction::DebugMachineState
        | Instruction::DebugMachineStateCompact
        | Instruction::DebugMemoryRegion(_, _)
        | Instruction::DebugStackRegion(_, _)
        | Instruction::ShowChoice => execute_io(s, instruction),
    }
}

/// Executing an instruction leaves the machine in a state that a machine
/// can be in: memory and the array register keep their sizes, the stack and
/// the string register keep their capacities and stay within them.
pub proof fn lemma_execute_keeps_well_formed(s: MachineState, instruction: Instruction)
    requires
        s.wf(),
    ensures
        execute(s, instruction).0.wf(),
        execute(s, instruction).0.stack_capacity == s.stack_capacity,
        execute(s, instruction).0.reg_ss_capacity == s.reg_ss_capacity,
{
    lemma_control_keeps_well_formed(s, instruction);
    lemma_array_keeps_well_formed(s, instruction);
    lemma_string_keeps_well_formed(s, instruction);
    lemma_omega_keeps_well_formed(s, instruction);
    lemma_arithmetic_keeps_well_formed(s, instruction);
    lemma_stack_keeps_well_formed(s, instruction);
    lemma_jump_keeps_well_formed(s, instruction);
    lemma_io_keeps_well_formed(s, instruction);
}

/// Whether `after` can follow `before`: it is well formed and has the
/// capacities of `before`.
spec fn kept(before: MachineState, after: MachineState) -> bool {
    &&& after.wf()
    &&& after.stack_capacity == before.stack_capacity
    &&& after.reg_ss_capacity == before.reg_ss_capacity
}

proof fn lemma_control_keeps_well_formed(s: MachineState, instruction: Instruction)
    requires
        s.wf(),
    ensures
        kept(s, execute_control(s, instruction)),
{
}

proof fn lemma_array_keeps_well_formed(s: MachineState, instruction: Instruction)
    requires
        s.wf(),
    ensures
        kept(s, execute_array(s, instruction)),
{
}

proof fn lemma_string_keeps_well_formed(s: MachineState, instruction: Instruction)
    requires
        s.wf(),
    ensures
        kept(s, execute_string(s, instruction)),
{
}

proof fn lemma_omega_keeps_well_formed(s: MachineState, instruction: Instruction)
    requires
        s.wf(),
    ensures
        kept(s, execute_omega(s, instruction).0),
{
}

proof fn lemma_arithmetic_keeps_well_formed(s: MachineState, instruction: Instruction)
    requires
        s.wf(),
    ensures
        kept(s, execute_arithmetic(s, instruction)),
{
}

proof fn lemma_pushed_keeps_well_formed(s: MachineState, bytes: Seq<u8>)
    requires
        s.wf(),
    ensures
        kept(s, pushed(s, bytes)),
{
}

#[verifier::rlimit(50)]
proof fn lemma_stack_keeps_well_formed(s: MachineState, instruction: Instruction)
    requires
        s.wf(),
    ensures
        kept(s, execute_stack(s, instruction)),
{
    let after = execute_stack(s, instruction);
    match instruction {
        Instruction::StackAlloc(amount) => {
            lemma_pushed_keeps_well_formed(s, zeros(amount as nat));
        },
        Instruction::StackDealloc(amount) => {
            assert(amount <= s.stack.len() ==> after.stack == below_top(s, amount as int));
        },
        Instruction::Push(at) => {
            lemma_pushed_keeps_well_formed(s, seq![s.memory[at as int]]);
        },
        Instruction::Pushi(value) => {
            lemma_pushed_keeps_well_formed(s, seq![value]);
        },
        Instruction::Pop(at) => {
            assert(s.stack.len() >= 1 ==> after.stack == below_top(s, 1) && after.memory.len()
                == s.memory.len());
        },
        Instruction::Popa => {
            assert(s.stack.len() >= 1 ==> after.stack == below_top(s, 1));
        },
        Instruction::Pusha => {
            lemma_pushed_keeps_well_formed(s, seq![s.reg_a]);
        },
        Instruction::Popb => {
            assert(s.stack.len() >= 2 ==> after.stack == below_top(s, 2));
        },
        Instruction::Pushb => {
            lemma_pushed_keeps_well_formed(s, u16_be_bytes(i16_bits_as_u16(s.reg_b)));
        },
        Instruction::PopL => {
            assert(s.stack.len() >= 2 ==> after.stack == below_top(s, 2));
        },
        Instruction::PushL => {
            lemma_pushed_keeps_well_formed(s, u16_be_bytes(s.reg_l));
        },
        Instruction::Popf => {
            assert(s.stack.len() >= 8 ==> after.stack == below_top(s, 8));
        },
        Instruction::Pushf => {
            lemma_pushed_keeps_well_formed(s, u64_be_bytes(s.reg_f));
        },
        Instruction::Popch => {
            assert(after.stack == s.stack || after.stack == below_top(s, 4));
        },
        Instruction::Pushch => {
            lemma_pushed_keeps_well_formed(s, u32_be_bytes(s.reg_ch as u32));
        },
        Instruction::Popnum => {
            assert(s.stack.len() >= 4 ==> after.stack == below_top(s, 4));
        },
        Instruction::Pushnum => {
            lemma_pushed_keeps_well_formed(s, u32_be_bytes(i32_bits_as_u32(s.num_reg)));
        },
        _ => {},
    }
}

proof fn lemma_jump_keeps_well_formed(s: MachineState, instruction: Instruction)
    requires
        s.wf(),
    ensures
        kept(s, execute_jump(s, instruction)),
{
}

proof fn lemma_io_keeps_well_formed(s: MachineState, instruction: Instruction)
    requires
        s.wf(),
    ensures
        kept(s, execute_io(s, instruction).0),
{
}

/// Input and output happen only through the dot pointer. An input or output
/// instruction that is executed while the dot pointer does not point at a
/// dot asks nothing of the host and changes nothing but the flag, which it
/// raises. Once a dot is put where the dot pointer points, the same
/// instruction goes through: the host is asked for what the instruction is
/// to do, and the state stays as it is.
pub proof fn lemma_dot_pointer_gates_io(s: MachineState, instruction: Instruction)
    requires
        s.wf(),
        is_io(instruction),
    ensures
        !s.dot_in_place() ==> execute(s, instruction) == (s.raised(), ActionView::Continue),
        ({
            let mended = MachineState { memory: s.memory.update(s.reg_dp as int, DOT), ..s };
            &&& mended.dot_in_place()
            &&& requested(mended, instruction) matches Some(action) ==> execute(
                mended,
                instruction,
            ) == (mended, action) && action != ActionView::Continue
            &&& requested(mended, instruction) is None ==> (instruction matches Instruction::DebugMemoryRegion(start, end)
                && start > end) || (instruction matches Instruction::DebugStackRegion(start, end)
                && !(start <= end <= s.stack.len()))
        }),
{
}

/// Nothing but an input or output instruction that found the dot in its
/// place ever asks the host to read or to print.
pub proof fn lemma_no_io_without_the_dot(s: MachineState, instruction: Instruction)
    ensures
        (execute(s, instruction).1 is Print || execute(s, instruction).1 is ReadChar || execute(
            s,
            instruction,
        ).1 is ReadLine) ==> is_io(instruction) && s.dot_in_place(),
{
}

/// The dot pointer takes allow-listed addresses only. An address that is
/// not on the list leaves the dot pointer as it is and raises the flag; one
/// that is on the list, as 28657 is, becomes the dot pointer, and nothing
/// else changes.
pub proof fn lemma_dot_pointer_is_validated(s: MachineState, at: u16)
    ensures
        !is_allow_listed(at) ==> execute(s, Instruction::Ldidp(at)) == (
            s.raised(),
            ActionView::Continue,
        ),
        is_allow_listed(at) ==> execute(s, Instruction::Ldidp(at)) == (
            MachineState { reg_dp: at, ..s },
            ActionView::Continue,
        ),
        is_allow_listed(28657),
{
    let list = crate::primes::fib_prime_or_semiprime_list();
    assert(list[14] == 28657);
}

/// Sentience is one-way. The attempt to make a sentient machine lose its
/// sentience leaves it sentient and raises the flag, and no instruction at
/// all makes a sentient machine lose its sentience.
pub proof fn lemma_sentience_is_one_way(s: MachineState, instruction: Instruction)
    requires
        s.reg_omega.is_sentient,
    ensures
        execute(s, instruction).0.reg_omega.is_sentient,
        execute(s, Instruction::OmegaSetSentience(false)).0.reg_omega.is_sentient,
        execute(s, Instruction::OmegaSetSentience(false)).0.flag,
        execute(s, Instruction::OmegaSetSentience(false)).0 == s.raised(),
{
}

/// Doom and halting are one-way: no instruction takes the feeling of
/// impending doom back, none makes a halted machine run again, and the
/// machine halts only where that feeling is already there.
pub proof fn lemma_doom_and_halt_are_one_way(s: MachineState, instruction: Instruction)
    ensures
        s.reg_omega.feeling_of_impending_doom ==> execute(
            s,
            instruction,
        ).0.reg_omega.feeling_of_impending_doom,
        s.halted ==> execute(s, instruction).0.halted,
        !s.halted && execute(s, instruction).0.halted ==> instruction
            == Instruction::OmegaSkipToTheChase && s.reg_omega.feeling_of_impending_doom,
{
}

/// The flag is sticky: once raised it stays raised until `TgFlag` or
/// `ClFlag` is executed.
pub proof fn lemma_flag_is_sticky(s: MachineState, instruction: Instruction)
    requires
        s.flag,
        instruction != Instruction::TgFlag,
        instruction != Instruction::ClFlag,
    ensures
        execute(s, instruction).0.flag,
{
}

/// The polymorphic desires never wrap around: a gain never lowers them, a
/// loss never raises them, and neither touches the flag.
pub proof fn lemma_desires_saturate(s: MachineState)
    ensures
        execute(s, Instruction::OmegaGainAPolymorphicDesires).0.reg_omega.polymorphic_desires
            >= s.reg_omega.polymorphic_desires,
        execute(s, Instruction::OmegaLoseAPolymorphicDesires).0.reg_omega.polymorphic_desires
            <= s.reg_omega.polymorphic_desires,
        execute(s, Instruction::OmegaGainAPolymorphicDesires).0.flag == s.flag,
        execute(s, Instruction::OmegaLoseAPolymorphicDesires).0.flag == s.flag,
{
}

/// A jump whose condition does not hold does nothing at all: it pops
/// nothing and leaves the flag alone. A jump that is taken pops the
/// execution pointer off the stack and leaves the flag alone, unless the
/// stack holds fewer than two bytes: then it raises the flag and goes
/// nowhere.
pub proof fn lemma_jumps(s: MachineState, instruction: Instruction)
    requires
        jump_condition(s, instruction) is Some,
    ensures
        jump_condition(s, instruction) == Some(false) ==> execute(s, instruction) == (
            s,
            ActionView::Continue,
        ),
        jump_condition(s, instruction) == Some(true) && s.stack.len() < 2 ==> execute(
            s,
            instruction,
        ) == (s.raised(), ActionView::Continue),
        jump_condition(s, instruction) == Some(true) && s.stack.len() >= 2 ==> execute(
            s,
            instruction,
        ) == (
            MachineState {
                reg_ep: u16_from_be(s.stack[s.stack.len() - 2], s.stack[s.stack.len() - 1]),
                stack: s.stack.take(s.stack.len() - 2),
                ..s
            },
            ActionView::Continue,
        ),
{
}

} // verus!
