//! The machine: its registers, its memory and its stack.

use vstd::prelude::*;
use crate::constant_size_string::ConstantSizeString;
use crate::memory::{zeroed_memory, Memory};
use crate::omega::Omega;
use crate::stack::{Stack, DEFAULT_STACK_CAPACITY};
use crate::state::{MachineState, LOADED_STRING_LEN};

verus! {

/// A virtual machine. A new one comes from [`Machine::default`]; code and
/// data are put into its memory with [`Machine::load`].
#[allow(non_snake_case)]
pub struct Machine {
    /// Register A, which is also the exit code of the machine.
    pub reg_a: u8,
    /// Register B.
    pub reg_b: i16,
    /// Register L.
    pub reg_L: u16,
    /// Register F: the bits of a 64-bit float.
    pub reg_f: u64,
    /// The character register.
    pub reg_ch: char,
    /// The array register.
    pub reg_r: [i8; 37],
    /// The string register.
    pub reg_ss: ConstantSizeString,
    /// The omega register.
    pub reg_omega: Omega,
    /// The number register, which output is prefixed with while paperclips
    /// are made.
    pub num_reg: i32,
    /// The execution pointer: the address of the next instruction.
    pub reg_ep: u16,
    /// The dot pointer. Input and output happen only while it points at a
    /// dot.
    pub reg_dp: u16,
    /// The flag, which is raised when something goes wrong and stays raised
    /// until an instruction clears or toggles it.
    pub flag: bool,
    /// Whether debug mode is on.
    pub debug_mode: bool,
    /// Whether the machine has halted. A halted machine stays halted.
    pub halted: bool,
    /// The memory.
    pub memory: Memory,
    /// The stack.
    pub stack: Stack,
}

impl View for Machine {
    type V = MachineState;

    open spec fn view(&self) -> MachineState {
        MachineState {
            reg_a: self.reg_a,
            reg_b: self.reg_b,
            reg_l: self.reg_L,
            reg_f: self.reg_f,
            reg_ch: self.reg_ch,
            reg_r: self.reg_r@,
            reg_ss: self.reg_ss@,
            reg_ss_capacity: self.reg_ss.capacity(),
            reg_omega: self.reg_omega,
            num_reg: self.num_reg,
            reg_ep: self.reg_ep,
            reg_dp: self.reg_dp,
            flag: self.flag,
            debug_mode: self.debug_mode,
            halted: self.halted,
            memory: self.memory@,
            stack: self.stack@,
            stack_capacity: self.stack.capacity(),
        }
    }
}

impl Default for Machine {
    /// A machine with every register and every byte of memory zero, nothing
    /// on its stack of 4095 bytes and nothing in its string register of 255
    /// bytes.
    fn default() -> (machine: Machine)
        ensures
            machine@ == (MachineState {
                reg_a: 0,
                reg_b: 0,
                reg_l: 0,
                reg_f: 0,
                reg_ch: '\0',
                reg_r: Seq::new(37, |k: int| 0i8),
                reg_ss: Seq::empty(),
                reg_ss_capacity: LOADED_STRING_LEN as nat,
                reg_omega: Omega {
                    illusion_of_choice: crate::omega::IllusionOfChoice::Nothing,
                    polymorphic_desires: 0,
                    feeling_of_impending_doom: false,
                    is_sentient: false,
                    should_make_infinite_paperclips: false,
                },
                num_reg: 0,
                reg_ep: 0,
                reg_dp: 0,
                flag: false,
                debug_mode: false,
                halted: false,
                memory: Seq::new(0x1_0000, |a: int| 0u8),
                stack: Seq::empty(),
                stack_capacity: DEFAULT_STACK_CAPACITY as nat,
            }),
            machine@.wf(),
    {
        let machine = Machine {
            reg_a: 0,
            reg_b: 0,
            reg_L: 0,
            reg_f: 0,
            reg_ch: '\0',
            reg_r: [0i8; 37],
            reg_ss: ConstantSizeString::with_capacity(LOADED_STRING_LEN),
            reg_omega: Omega::zeroed(),
            num_reg: 0,
            reg_ep: 0,
            reg_dp: 0,
            flag: false,
            debug_mode: false,
            halted: false,
            memory: zeroed_memory(),
            stack: Stack::new(DEFAULT_STACK_CAPACITY),
        };
        assert(machine.reg_r@ =~= Seq::new(37, |k: int| 0i8));
        machine
    }
}

impl Clone for Machine {
    /// A machine in the same state.
    fn clone(&self) -> (machine: Machine)
        ensures
            machine@ == self@,
    {
        let machine = Machine {
            reg_a: self.reg_a,
            reg_b: self.reg_b,
            reg_L: self.reg_L,
            reg_f: self.reg_f,
            reg_ch: self.reg_ch,
            reg_r: self.reg_r,
            reg_ss: self.reg_ss.clone(),
            reg_omega: self.reg_omega,
            num_reg: self.num_reg,
            reg_ep: self.reg_ep,
            reg_dp: self.reg_dp,
            flag: self.flag,
            debug_mode: self.debug_mode,
            halted: self.halted,
            memory: self.memory.clone(),
            stack: self.stack.clone(),
        };
        machine
    }
}

} // verus!
