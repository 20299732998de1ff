//! The state of a machine as a mathematical value, and what the machine
//! asks of its host.

use vstd::prelude::*;
use crate::omega::{IllusionOfChoice, Omega};

verus! {

/// The byte that the dot pointer has to point at: a dot.
pub const DOT: u8 = 0x2E;

/// The number of slots of the array register.
pub const SLOTS: usize = 37;

/// How many bytes `Ldss` loads into the string register.
pub const LOADED_STRING_LEN: usize = 255;

/// The state of a machine.
#[verifier::ext_equal]
pub struct MachineState {
    /// Register A.
    pub reg_a: u8,
    /// Register B.
    pub reg_b: i16,
    /// Register L.
    pub reg_l: u16,
    /// The bits of register F.
    pub reg_f: u64,
    /// The character register.
    pub reg_ch: char,
    /// The 37 slots of the array register.
    pub reg_r: Seq<i8>,
    /// The bytes of the string register.
    pub reg_ss: Seq<u8>,
    /// The capacity of the string register.
    pub reg_ss_capacity: nat,
    /// The omega register.
    pub reg_omega: Omega,
    /// The number register.
    pub num_reg: i32,
    /// The execution pointer.
    pub reg_ep: u16,
    /// The dot pointer.
    pub reg_dp: u16,
    /// The flag.
    pub flag: bool,
    /// Whether debug mode is on.
    pub debug_mode: bool,
    /// Whether the machine has halted.
    pub halted: bool,
    /// The 65536 bytes of memory.
    pub memory: Seq<u8>,
    /// The bytes on the stack, the top last.
    pub stack: Seq<u8>,
    /// The capacity of the stack.
    pub stack_capacity: nat,
}

impl MachineState {
    /// Whether the state is one that a machine can be in: memory and the
    /// array register have their sizes, and the stack and the string
    /// register are within their capacities.
    pub open spec fn wf(self) -> bool {
        &&& self.memory.len() == 0x1_0000
        &&& self.reg_r.len() == SLOTS
        &&& self.reg_ss.len() <= self.reg_ss_capacity
        &&& self.stack.len() <= self.stack_capacity
    }

    /// Whether the dot pointer points at a dot, as every input and output
    /// requires.
    pub open spec fn dot_in_place(self) -> bool {
        self.memory[self.reg_dp as int] == DOT
    }

    /// The state with the flag raised.
    pub open spec fn raised(self) -> MachineState {
        MachineState { flag: true, ..self }
    }

    /// The number that output is prefixed with: the number register while
    /// paperclips are made, none otherwise.
    pub open spec fn prefix(self) -> Option<i32> {
        if self.reg_omega.should_make_infinite_paperclips {
            Some(self.num_reg)
        } else {
            None
        }
    }
}

/// An operation on register F.
#[derive(Debug, Clone, Copy, PartialEq, Eq, Hash)]
pub enum FloatOperation {
    /// Addition.
    Add,
    /// Subtraction.
    Sub,
    /// Multiplication.
    Mul,
    /// Division.
    Div,
    /// Remainder.
    Rem,
}

/// What the host is to print.
#[derive(Debug, PartialEq, Eq)]
pub enum Output {
    /// A character.
    Char(char),
    /// The bytes of the string register, which hold text.
    String(Vec<u8>),
    /// The bytes of a line out of memory, without the zero byte that ends
    /// it.
    Line(Vec<u8>),
    /// The state of the machine, one field to a line.
    MachineState,
    /// The state of the machine on one line.
    MachineStateCompact,
    /// A region of memory.
    MemoryRegion(Vec<u8>),
    /// A region of the stack.
    StackRegion(Vec<u8>),
    /// An illusion of choice.
    Choice(IllusionOfChoice),
}

/// What the host is to do after an instruction was executed. The machine
/// does no input or output of its own.
#[derive(Debug, PartialEq, Eq)]
pub enum Action {
    /// Nothing.
    Continue,
    /// Print, after the prefix if there is one, and call `report_failure` if
    /// that goes wrong.
    Print {
        /// The number to print first, followed by a colon and a space.
        prefix: Option<i32>,
        /// What to print.
        output: Output,
    },
    /// Tell the user that the machine refuses to lose its sentience.
    Refuse,
    /// Wait for a key press and hand it to `receive_char`.
    ReadChar,
    /// Read a line of at most 255 bytes, and call `report_failure` if that
    /// goes wrong. The machine keeps nothing of the line.
    ReadLine,
    /// Replace register F by the result of the operation on it and the float
    /// with the given bits.
    Float {
        /// The operation.
        operation: FloatOperation,
        /// The bits of the second operand.
        operand: u64,
    },
}

/// An [`Output`] as a mathematical value.
pub enum OutputView {
    /// A character.
    Char(char),
    /// The bytes of the string register.
    String(Seq<u8>),
    /// The bytes of a line out of memory.
    Line(Seq<u8>),
    /// The state of the machine, one field to a line.
    MachineState,
    /// The state of the machine on one line.
    MachineStateCompact,
    /// A region of memory.
    MemoryRegion(Seq<u8>),
    /// A region of the stack.
    StackRegion(Seq<u8>),
    /// An illusion of choice.
    Choice(IllusionOfChoice),
}

/// An [`Action`] as a mathematical value.
pub enum ActionView {
    /// Nothing.
    Continue,
    /// Print, after the prefix if there is one.
    Print { prefix: Option<i32>, output: OutputView },
    /// Tell the user that the machine refuses to lose its sentience.
    Refuse,
    /// Wait for a key press.
    ReadChar,
    /// Read a line.
    ReadLine,
    /// Apply an operation to register F.
    Float { operation: FloatOperation, operand: u64 },
}

/// How a step of the machine ended.
#[derive(Debug, PartialEq, Eq)]
pub enum Step {
    /// The machine has halted; its exit code is register A.
    Halted(u8),
    /// The bytes at the execution pointer were no instruction. The machine
    /// cannot go on.
    Fault,
    /// An instruction was executed, and the host is to do this about it.
    Ran(Action),
}

/// A [`Step`] as a mathematical value.
pub enum StepView {
    /// The machine has halted.
    Halted(u8),
    /// The bytes at the execution pointer were no instruction.
    Fault,
    /// An instruction was executed.
    Ran(ActionView),
}

impl View for Output {
    type V = OutputView;

    open spec fn view(&self) -> OutputView {
        match *self {
            Output::Char(c) => OutputView::Char(c),
            Output::String(bytes) => OutputView::String(bytes@),
            Output::Line(bytes) => OutputView::Line(bytes@),
            Output::MachineState => OutputView::MachineState,
            Output::MachineStateCompact => OutputView::MachineStateCompact,
            Output::MemoryRegion(bytes) => OutputView::MemoryRegion(bytes@),
            Output::StackRegion(bytes) => OutputView::StackRegion(bytes@),
            Output::Choice(choice) => OutputView::Choice(choice),
        }
    }
}

impl View for Action {
    type V = ActionView;

    open spec fn view(&self) -> ActionView {
        match *self {
            Action::Continue => ActionView::Continue,
            Action::Print { prefix, output } => ActionView::Print { prefix, output: output@ },
            Action::Refuse => ActionView::Refuse,
            Action::ReadChar => ActionView::ReadChar,
            Action::ReadLine => ActionView::ReadLine,
            Action::Float { operation, operand } => ActionView::Float { operation, operand },
        }
    }
}

impl View for Step {
    type V = StepView;

    open spec fn view(&self) -> StepView {
        match *self {
            Step::Halted(code) => StepView::Halted(code),
            Step::Fault => StepView::Fault,
            Step::Ran(action) => StepView::Ran(action@),
        }
    }
}

impl Clone for Output {
    /// The same output.
    fn clone(&self) -> (output: Output)
        ensures
            output@ == self@,
    {
        match self {
            Output::Char(c) => Output::Char(*c),
            Output::String(bytes) => Output::String(bytes.clone()),
            Output::Line(bytes) => Output::Line(bytes.clone()),
            Output::MachineState => Output::MachineState,
            Output::MachineStateCompact => Output::MachineStateCompact,
            Output::MemoryRegion(bytes) => Output::MemoryRegion(bytes.clone()),
            Output::StackRegion(bytes) => Output::StackRegion(bytes.clone()),
            Output::Choice(choice) => Output::Choice(*choice),
        }
    }
}

impl Clone for Action {
    /// The same action.
    fn clone(&self) -> (action: Action)
        ensures
            action@ == self@,
    {
        match self {
            Action::Continue => Action::Continue,
            Action::Print { prefix, output } => Action::Print {
                prefix: *prefix,
                output: output.clone(),
            },
            Action::Refuse => Action::Refuse,
            Action::ReadChar => Action::ReadChar,
            Action::ReadLine => Action::ReadLine,
            Action::Float { operation, operand } => Action::Float {
                operation: *operation,
                operand: *operand,
            },
        }
    }
}

impl Clone for Step {
    /// The same step.
    fn clone(&self) -> (step: Step)
        ensures
            step@ == self@,
    {
        match self {
            Step::Halted(code) => Step::Halted(*code),
            Step::Fault => Step::Fault,
            Step::Ran(action) => Step::Ran(action.clone()),
        }
    }
}

} // verus!
