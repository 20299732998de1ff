//! The execution of instructions.

use vstd::prelude::*;
use crate::bits::{
    char_from_u32, i16_to_u16, i32_to_u32, i8_bits_as_u8, i8_to_u8, u16_to_be, u16_to_i16,
    u32_of_be, u32_to_be, u32_to_i32, u64_to_be,
};
use crate::constant_size_string::Overflow;
use crate::encoding::{push_slots, read_slots};
use crate::instruction::Instruction;
use crate::machine::Machine;
use crate::memory::{index_u64, read_bytes, read_line, write_bytes};
use crate::primes::is_fib_prime_or_semiprime_u16;
use crate::semantics::{
    execute, execute_arithmetic, execute_array, execute_control, execute_float, execute_io,
    execute_jump, execute_omega, execute_stack, execute_string, jumped, pushed,
};
use crate::stack::StackOverflow;
use crate::state::{Action, FloatOperation, Output, DOT};

verus! {

impl Machine {
    fn run_control(&mut self, instruction: Instruction)
        ensures
            final(self)@ == execute_control(old(self)@, instruction),
    {
        match instruction {
            Instruction::Ldar(at) => {
                self.reg_a = self.memory[at as usize];
            },
            Instruction::Sba => {
                self.reg_a = if self.reg_b < 0 {
                    255
                } else if self.reg_b == 0 {
                    0
                } else {
                    1
                };
            },
            Instruction::Ldidp(at) => {
                if is_fib_prime_or_semiprime_u16(at) {
                    self.reg_dp = at;
                } else {
                    self.flag = true;
                }
            },
            Instruction::TgFlag => {
                self.flag = !self.flag;
            },
            Instruction::ClFlag => {
                self.flag = false;
            },
            Instruction::ToggleDebug => {
                self.debug_mode = !self.debug_mode;
            },
            _ => {},
        }
    }

    fn run_array(&mut self, instruction: Instruction)
        ensures
            final(self)@ == execute_array(old(self)@, instruction),
    {
        match instruction {
            Instruction::Clr => {
                self.reg_r = [0i8; 37];
                assert(self.reg_r@ =~= Seq::new(37, |k: int| 0i8));
            },
            Instruction::Dumpr(at) => {
                let mut bytes: Vec<u8> = Vec::new();
                push_slots(&mut bytes, &self.reg_r);
                assert(bytes@ =~= Seq::new(37, |k: int| i8_bits_as_u8(self.reg_r@[k])));
                write_bytes(&mut self.memory, at, bytes.as_slice());
            },
            Instruction::Movar(index) => {
                if index < 37 {
                    self.reg_a = i8_to_u8(self.reg_r[index as usize]);
                }
            },
            Instruction::Setr(index, at) => {
                if index < 37 {
                    self.memory[at as usize] = i8_to_u8(self.reg_r[index as usize]);
                }
            },
            Instruction::Setir(index, value) => {
                if index < 37 {
                    self.reg_r[index as usize] = value;
                }
            },
            Instruction::Ldr(at) => {
                self.reg_r = read_slots(&self.memory, at);
                assert(self.reg_r@ =~= Seq::new(
                    37,
                    |k: int|
                        crate::bits::u8_bits_as_i8(
                            old(self).memory@[crate::memory::address(at, k)],
                        ),
                ));
            },
            Instruction::Ldir(slots) => {
                self.reg_r = slots;
            },
            _ => {},
        }
    }

    fn set_string_byte(&mut self, index: u8, value: u8)
        ensures
            final(self)@ == (if index < old(self)@.reg_ss.len() {
                crate::state::MachineState {
                    reg_ss: old(self)@.reg_ss.update(index as int, value),
                    ..old(self)@
                }
            } else {
                old(self)@.raised()
            }),
    {
        let outcome: Result<(), Overflow> = self.reg_ss.set(index as usize, value);
        match outcome {
            Ok(()) => {},
            Err(_) => {
                self.flag = true;
            },
        }
    }

    fn run_string(&mut self, instruction: Instruction)
        ensures
            final(self)@ == execute_string(old(self)@, instruction),
    {
        match instruction {
            Instruction::Clss => {
                self.reg_ss.clear();
            },
            Instruction::Dumpss(at) => {
                write_bytes(&mut self.memory, at, self.reg_ss.as_slice());
            },
            Instruction::Writess(at, index) => {
                match self.reg_ss.get(index as usize) {
                    Some(value) => {
                        self.memory[at as usize] = value;
                        self.reg_a = value;
                    },
                    None => {
                        self.flag = true;
                    },
                }
            },
            Instruction::Movass(index) => {
                let value: u8 = self.reg_a;
                self.set_string_byte(index, value);
            },
            Instruction::Setss(at, index) => {
                let value: u8 = self.memory[at as usize];
                self.set_string_byte(index, value);
            },
            Instruction::Setiss(value, index) => {
                self.set_string_byte(index, value);
            },
            Instruction::Ldss(at) => {
                if self.reg_ss.total_space() >= 255 {
                    let bytes: Vec<u8> = read_bytes(&self.memory, at, 255);
                    self.reg_ss.clear();
                    let loaded: Result<(), Overflow> = self.reg_ss.push_bytes(bytes.as_slice());
                    assert(self.reg_ss@ =~= bytes@);
                } else {
                    self.flag = true;
                }
            },
            Instruction::Pushss => {
                if self.stack.used_space() > 0 && self.reg_ss.len() < self.reg_ss.total_space() {
                    match self.stack.pop_byte() {
                        Some(byte) => {
                            let moved: Result<(), Overflow> = self.reg_ss.push_byte(byte);
                        },
                        None => {},
                    }
                } else {
                    self.flag = true;
                }
            },
            Instruction::Popss => {
                if self.reg_ss.len() > 0 && self.stack.space_left() > 0 {
                    match self.reg_ss.pop_byte() {
                        Some(byte) => {
                            let moved: Result<(), StackOverflow> = self.stack.push_byte(byte);
                        },
                        None => {},
                    }
                } else {
                    self.flag = true;
                }
            },
            Instruction::Lenssa => {
                self.reg_a = (self.reg_ss.len() % 0x100) as u8;
            },
            _ => {},
        }
    }

    fn push(&mut self, bytes: &[u8])
        ensures
            final(self)@ == pushed(old(self)@, bytes@),
    {
        let outcome: Result<(), StackOverflow> = self.stack.push_bytes(bytes);
        match outcome {
            Ok(()) => {},
            Err(_) => {
                self.flag = true;
            },
        }
    }

    fn run_omega(&mut self, instruction: Instruction) -> (action: Action)
        ensures
            (final(self)@, action@) == execute_omega(old(self)@, instruction),
    {
        match instruction {
            Instruction::OmegaChoiceSet(choice) => {
                self.reg_omega.illusion_of_choice = choice;
            },
            Instruction::OmegaChoiceGetA => {
                self.reg_a = 0;
            },
            Instruction::OmegaGainAPolymorphicDesires => {
                self.reg_omega.polymorphic_desires =
                self.reg_omega.polymorphic_desires.saturating_add(self.reg_a as u64);
            },
            Instruction::OmegaLoseAPolymorphicDesires => {
                self.reg_omega.polymorphic_desires =
                self.reg_omega.polymorphic_desires.saturating_sub(self.reg_a as u64);
            },
            Instruction::OmegaPushPolymorphicDesires => {
                let bytes: [u8; 8] = u64_to_be(self.reg_omega.polymorphic_desires);
                self.push(bytes.as_slice());
            },
            Instruction::OmegaTheEndIsNear => {
                self.reg_omega.feeling_of_impending_doom = true;
            },
            Instruction::OmegaSkipToTheChase => {
                if self.reg_omega.feeling_of_impending_doom {
                    self.halted = true;
                }
            },
            Instruction::OmegaSetSentience(enable) => {
                if enable {
                    self.reg_omega.is_sentient = true;
                } else {
                    self.flag = true;
                    return Action::Refuse;
                }
            },
            Instruction::OmegaSetPaperclipProduction(enable) => {
                self.reg_omega.should_make_infinite_paperclips = enable;
            },
            _ => {},
        }
        Action::Continue
    }

    fn run_arithmetic(&mut self, instruction: Instruction)
        ensures
            final(self)@ == execute_arithmetic(old(self)@, instruction),
    {
        let b: u16 = i16_to_u16(self.reg_b);
        match instruction {
            Instruction::AddBL => {
                let sum: u32 = self.reg_L as u32 + b as u32;
                if sum > 0xFFFF {
                    self.flag = true;
                }
                self.reg_L = (sum % 0x1_0000) as u16;
            },
            Instruction::SubBL => {
                if self.reg_L < b {
                    self.flag = true;
                }
                self.reg_L = self.reg_L.wrapping_sub(b);
            },
            Instruction::MulBL => {
                assert(self.reg_L * b <= 0xFFFF * 0xFFFF) by (nonlinear_arith)
                    requires
                        self.reg_L <= 0xFFFF,
                        b <= 0xFFFF,
                ;
                let product: u32 = self.reg_L as u32 * b as u32;
                if product > 0xFFFF {
                    self.flag = true;
                }
                self.reg_L = (product % 0x1_0000) as u16;
            },
            Instruction::DivBL => {
                self.reg_L = if b == 0 {
                    0
                } else {
                    self.reg_L / b
                };
            },
            Instruction::ModBL => {
                self.reg_L = if b == 0 {
                    0
                } else {
                    self.reg_L % b
                };
            },
            Instruction::NotL => {
                self.reg_L = !self.reg_L;
            },
            Instruction::AndBL => {
                self.reg_L = self.reg_L & b;
            },
            Instruction::OrBL => {
                self.reg_L = self.reg_L | b;
            },
            Instruction::XorBL => {
                self.reg_L = self.reg_L ^ b;
            },
            Instruction::CmpLB => {
                if self.reg_L > 0x7FFF {
                    self.reg_L = 0x7FFF;
                    self.flag = true;
                }
                let difference: i32 = self.reg_L as i32 - self.reg_b as i32;
                if difference > 0x7FFF {
                    self.reg_b = 0x7FFF;
                    self.flag = true;
                } else {
                    self.reg_b = difference as i16;
                }
            },
            _ => {},
        }
    }

    fn run_float(&self, instruction: Instruction) -> (action: Action)
        ensures
            action@ == execute_float(self@, instruction),
    {
        let (operation, at): (FloatOperation, u16) = match instruction {
            Instruction::AddF(at) => (FloatOperation::Add, at),
            Instruction::SubF(at) => (FloatOperation::Sub, at),
            Instruction::MulF(at) => (FloatOperation::Mul, at),
            Instruction::DivF(at) => (FloatOperation::Div, at),
            Instruction::ModF(at) => (FloatOperation::Rem, at),
            _ => {
                return Action::Continue;
            },
        };
        let bytes: &[u8] = self.memory.as_slice();
        Action::Float { operation, operand: index_u64(bytes, at) }
    }

    fn pop_to_character(&mut self)
        ensures
            final(self)@ == execute_stack(old(self)@, Instruction::Popch),
    {
        let len: usize = self.stack.used_space();
        if len < 4 {
            self.flag = true;
            return ;
        }
        let top: &[u8] = self.stack.as_slice();
        let value: u32 = u32_of_be(top[len - 4], top[len - 3], top[len - 2], top[len - 1]);
        match char_from_u32(value) {
            Some(c) => {
                let popped: Result<(), StackOverflow> = self.stack.dealloc(4);
                self.reg_ch = c;
            },
            None => {
                self.flag = true;
            },
        }
    }

    fn run_stack(&mut self, instruction: Instruction)
        ensures
            final(self)@ == execute_stack(old(self)@, instruction),
    {
        match instruction {
            Instruction::StackAlloc(amount) => {
                let outcome: Result<(), StackOverflow> = self.stack.allocate(amount as usize);
                match outcome {
                    Ok(()) => {},
                    Err(_) => {
                        self.flag = true;
                    },
                }
            },
            Instruction::StackDealloc(amount) => {
                let outcome: Result<(), StackOverflow> = self.stack.dealloc(amount as usize);
                match outcome {
                    Ok(()) => {},
                    Err(_) => {
                        self.flag = true;
                    },
                }
            },
            Instruction::Push(at) => {
                let bytes: [u8; 1] = [self.memory[at as usize]];
                self.push(bytes.as_slice());
            },
            Instruction::Pushi(value) => {
                let bytes: [u8; 1] = [value];
                self.push(bytes.as_slice());
            },
            Instruction::Pop(at) => {
                match self.stack.pop_byte() {
                    Some(byte) => {
                        self.memory[at as usize] = byte;
                    },
                    None => {
                        self.flag = true;
                    },
                }
            },
            Instruction::Popa => {
                match self.stack.pop_byte() {
                    Some(byte) => {
                        self.reg_a = byte;
                    },
                    None => {
                        self.flag = true;
                    },
                }
            },
            Instruction::Pusha => {
                let bytes: [u8; 1] = [self.reg_a];
                self.push(bytes.as_slice());
            },
            Instruction::Popb => {
                match self.stack.pop_u16() {
                    Some(value) => {
                        self.reg_b = u16_to_i16(value);
                    },
                    None => {
                        self.flag = true;
                    },
                }
            },
            Instruction::Pushb => {
                let bytes: [u8; 2] = u16_to_be(i16_to_u16(self.reg_b));
                self.push(bytes.as_slice());
            },
            Instruction::PopL => {
                match self.stack.pop_u16() {
                    Some(value) => {
                        self.reg_L = value;
                    },
                    None => {
                        self.flag = true;
                    },
                }
            },
            Instruction::PushL => {
                let bytes: [u8; 2] = u16_to_be(self.reg_L);
                self.push(bytes.as_slice());
            },
            Instruction::Popf => {
                match self.stack.pop_u64() {
                    Some(value) => {
                        self.reg_f = value;
                    },
                    None => {
                        self.flag = true;
                    },
                }
            },
            Instruction::Pushf => {
                let bytes: [u8; 8] = u64_to_be(self.reg_f);
                self.push(bytes.as_slice());
            },
            Instruction::Popch => {
                self.pop_to_character();
            },
            Instruction::Pushch => {
                let bytes: [u8; 4] = u32_to_be(self.reg_ch as u32);
                self.push(bytes.as_slice());
            },
            Instruction::Popnum => {
                match self.stack.pop_u32() {
                    Some(value) => {
                        self.num_reg = u32_to_i32(value);
                    },
                    None => {
                        self.flag = true;
                    },
                }
            },
            Instruction::Pushnum => {
                let bytes: [u8; 4] = u32_to_be(i32_to_u32(self.num_reg));
                self.push(bytes.as_slice());
            },
            _ => {},
        }
    }

    fn jump(&mut self)
        ensures
            final(self)@ == jumped(old(self)@),
    {
        match self.stack.pop_u16() {
            Some(target) => {
                self.reg_ep = target;
            },
            None => {
                self.flag = true;
            },
        }
    }

    fn run_jump(&mut self, instruction: Instruction)
        ensures
            final(self)@ == execute_jump(old(self)@, instruction),
    {
        let taken: bool = match instruction {
            Instruction::Popep => true,
            Instruction::Zpopep => self.reg_b == 0,
            Instruction::Ppopep => self.reg_b > 0,
            Instruction::Npopep => self.reg_b < 0,
            Instruction::Fpopep => self.flag,
            Instruction::Zapopep => self.reg_a == 0,
            Instruction::Dpopep => self.debug_mode,
            _ => false,
        };
        if taken {
            self.jump();
        }
    }

    /// The number that output is prefixed with, if any.
    pub fn num_debug(&self) -> (prefix: Option<i32>)
        ensures
            prefix == self@.prefix(),
    {
        if self.reg_omega.should_make_infinite_paperclips {
            Some(self.num_reg)
        } else {
            None
        }
    }

    fn request(&self, instruction: Instruction) -> (action: Option<Action>)
        ensures
            match action {
                Some(action) => crate::semantics::requested(self@, instruction) == Some(action@),
                None => crate::semantics::requested(self@, instruction) is None,
            },
    {
        let output: Output = match instruction {
            Instruction::GetChar => {
                return Some(Action::ReadChar);
            },
            Instruction::GetLine => {
                return Some(Action::ReadLine);
            },
            Instruction::WriteChar => Output::Char(self.reg_ch),
            Instruction::WriteLiness => Output::String(self.reg_ss.to_vec()),
            Instruction::WriteLine(at) => Output::Line(read_line(&self.memory, at)),
            Instruction::DebugMachineState => Output::MachineState,
            Instruction::DebugMachineStateCompact => Output::MachineStateCompact,
            Instruction::DebugMemoryRegion(start, end) => {
                if start > end {
                    return None;
                }
                let bytes: Vec<u8> = read_bytes(&self.memory, start, (end - start) as usize);
                assert(bytes@ =~= self.memory@.subrange(start as int, end as int));
                Output::MemoryRegion(bytes)
            },
            Instruction::DebugStackRegion(start, end) => {
                match self.stack.region(start as usize, end as usize) {
                    Some(bytes) => Output::StackRegion(bytes),
                    None => {
                        return None;
                    },
                }
            },
            Instruction::ShowChoice => Output::Choice(self.reg_omega.illusion_of_choice),
            _ => {
                return None;
            },
        };
        Some(Action::Print { prefix: self.num_debug(), output })
    }

    fn run_io(&mut self, instruction: Instruction) -> (action: Action)
        ensures
            (final(self)@, action@) == execute_io(old(self)@, instruction),
    {
        if self.memory[self.reg_dp as usize] == DOT {
            match self.request(instruction) {
                Some(action) => {
                    return action;
                },
                None => {},
            }
        }
        self.flag = true;
        Action::Continue
    }

    /// Executes an instruction, and tells what the host is to do about it.
    pub fn execute_instruction(&mut self, instruction: Instruction) -> (action: Action)
        ensures
            (final(self)@, action@) == execute(old(self)@, instruction),
    {
        match instruction {
            Instruction::Nop
            | Instruction::Ldar(_)
            | Instruction::Sba
            | Instruction::Ldidp(_)
            | Instruction::TgFlag
            | Instruction::ClFlag
            | Instruction::ToggleDebug => {
                self.run_control(instruction);
                Action::Continue
            },
            Instruction::Clr
            | Instruction::Dumpr(_)
            | Instruction::Movar(_)
            | Instruction::Setr(_, _)
            | Instruction::Setir(_, _)
            | Instruction::Ldr(_)
            | Instruction::Ldir(_) => {
                self.run_array(instruction);
                Action::Continue
            },
            Instruction::Clss
            | Instruction::Dumpss(_)
            | Instruction::Writess(_, _)
            | Instruction::Movass(_)
            | Instruction::Setss(_, _)
            | Instruction::Setiss(_, _)
            | Instruction::Ldss(_)
            | Instruction::Pushss
            | Instruction::Popss
            | Instruction::Lenssa => {
                self.run_string(instruction);
                Action::Continue
            },
            Instruction::OmegaChoiceSet(_)
            | Instruction::OmegaChoiceGetA
            | Instruction::OmegaGainAPolymorphicDesires
            | Instruction::OmegaLoseAPolymorphicDesires
            | Instruction::OmegaPushPolymorphicDesires
            | Instruction::OmegaTheEndIsNear
            | Instruction::OmegaSkipToTheChase
            | Instruction::OmegaSetSentience(_)
            | Instruction::OmegaSetPaperclipProduction(_) => self.run_omega(instruction),
            Instruction::AddBL
            | Instruction::SubBL
            | Instruction::MulBL
            | Instruction::DivBL
            | Instruction::ModBL
            | Instruction::NotL
            | Instruction::AndBL
            | Instruction::OrBL
            | Instruction::XorBL
            | Instruction::CmpLB => {
                self.run_arithmetic(instruction);
                Action::Continue
            },
            Instruction::AddF(_)
            | Instruction::SubF(_)
            | Instruction::MulF(_)
            | Instruction::DivF(_)
            | Instruction::ModF(_) => self.run_float(instruction),
            Instruction::StackAlloc(_)
            | Instruction::StackDealloc(_)
            | Instruction::Push(_)
            | Instruction::Pushi(_)
            | Instruction::Pop(_)
            | Instruction::Popa
            | Instruction::Pusha
            | Instruction::Popb
            | Instruction::Pushb
            | Instruction::PopL
            | Instruction::PushL
            | Instruction::Popf
            | Instruction::Pushf
            | Instruction::Popch
            | Instruction::Pushch
            | Instruction::Popnum
            | Instruction::Pushnum => {
                self.run_stack(instruction);
                Action::Continue
            },
            Instruction::Popep
            | Instruction::Zpopep
            | Instruction::Ppopep
            | Instruction::Npopep
            | Instruction::Fpopep
            | Instruction::Zapopep
            | Instruction::Dpopep => {
                self.run_jump(instruction);
                Action::Continue
            },
            Instruction::GetChar
            | Instruction::GetLine
            | Instruction::WriteChar
            | Instruction::WriteLiness
            | Instruction::WriteLine(_)
            | Instruction::DebugMachineState
            | Instruction::DebugMachineStateCompact
            | Instruction::DebugMemoryRegion(_, _)
            | Instruction::DebugStackRegion(_, _)
            | Instruction::ShowChoice => self.run_io(instruction),
        }
    }
}

} // verus!
