//! The engine: fetch, decode, execute, for as long as the machine runs.
//!
//! The machine goes from instruction to instruction until it halts or
//! finds bytes that are no instruction. It halts in two steps only: one
//! instruction creates the feeling of impending doom, another one halts the
//! machine if that feeling is there. Whatever is to be read or written is
//! handed to the host as an action.

use vstd::prelude::*;
use crate::encoding::{consumed, decode};
use crate::loader::advanced;
use crate::machine::Machine;
use crate::semantics::{execute, lemma_execute_keeps_well_formed};
use crate::state::{Action, ActionView, MachineState, Step, StepView};

verus! {

/// The state after one step of the machine, and how the step ended.
///
/// A halted machine stays as it is. Otherwise the execution pointer moves
/// past what lies at it, and the instruction found there is executed; where
/// there is none, the step is a fault.
pub open spec fn stepped(s: MachineState) -> (MachineState, StepView) {
    if s.halted {
        (s, StepView::Halted(s.reg_a))
    } else {
        let fetched = advanced(s, consumed(s.memory, s.reg_ep) as int);
        match decode(s.memory, s.reg_ep) {
            Some(instruction) => {
                let (after, action) = execute(fetched, instruction);
                (after, StepView::Ran(action))
            },
            None => (fetched, StepView::Fault),
        }
    }
}

/// The state after the machine ran for at most `fuel` steps, and how the
/// last step ended: the first one that halts, faults or asks something of
/// the host. `None` means that the fuel ran out first.
pub open spec fn ran(s: MachineState, fuel: nat) -> (MachineState, Option<StepView>)
    decreases fuel,
{
    if fuel == 0 {
        (s, None)
    } else {
        let (after, step) = stepped(s);
        if step == StepView::Ran(ActionView::Continue) {
            ran(after, (fuel - 1) as nat)
        } else {
            (after, Some(step))
        }
    }
}

/// The state after `steps` steps of the machine.
pub open spec fn after_steps(s: MachineState, steps: nat) -> MachineState
    decreases steps,
{
    if steps == 0 {
        s
    } else {
        after_steps(stepped(s).0, (steps - 1) as nat)
    }
}

/// Whether the next `steps` steps of the machine go by quietly: each of them
/// executes an instruction that asks nothing of the host.
pub open spec fn quiet(s: MachineState, steps: nat) -> bool
    decreases steps,
{
    steps == 0 || (stepped(s).1 == StepView::Ran(ActionView::Continue) && quiet(
        stepped(s).0,
        (steps - 1) as nat,
    ))
}

/// Steps add up: steps after steps are as many steps at once, and quiet
/// steps after quiet steps are quiet.
pub proof fn lemma_steps_add_up(s: MachineState, first: nat, then: nat)
    ensures
        after_steps(s, first + then) == after_steps(after_steps(s, first), then),
        quiet(s, first) && quiet(after_steps(s, first), then) ==> quiet(s, first + then),
    decreases first,
{
    if first > 0 {
        lemma_steps_add_up(stepped(s).0, (first - 1) as nat, then);
    }
}

/// A run goes through quiet steps without stopping: after them it goes on
/// as a run from the state that they have led to, with the fuel that is
/// left.
pub proof fn lemma_run_goes_through_quiet_steps(s: MachineState, steps: nat, fuel: nat)
    requires
        quiet(s, steps),
    ensures
        ran(s, steps + fuel) == ran(after_steps(s, steps), fuel),
    decreases steps,
{
    if steps > 0 {
        lemma_run_goes_through_quiet_steps(stepped(s).0, (steps - 1) as nat, fuel);
    }
}

/// Halting is final: a halted machine stays in its state whatever is done
/// with it, and every step and every run of it reports the halt, with
/// register A as the exit code.
pub proof fn lemma_halted_is_final(s: MachineState, fuel: nat)
    requires
        s.halted,
    ensures
        stepped(s) == (s, StepView::Halted(s.reg_a)),
        fuel > 0 ==> ran(s, fuel) == (s, Some(StepView::Halted(s.reg_a))),
{
}

/// Whatever the machine does, it stays in a state that a machine can be in,
/// and its stack and its string register keep their capacities.
pub proof fn lemma_run_keeps_well_formed(s: MachineState, fuel: nat)
    requires
        s.wf(),
    ensures
        stepped(s).0.wf(),
        stepped(s).0.stack_capacity == s.stack_capacity,
        stepped(s).0.reg_ss_capacity == s.reg_ss_capacity,
        ran(s, fuel).0.wf(),
        ran(s, fuel).0.stack_capacity == s.stack_capacity,
        ran(s, fuel).0.reg_ss_capacity == s.reg_ss_capacity,
    decreases fuel,
{
    if !s.halted {
        let fetched = advanced(s, consumed(s.memory, s.reg_ep) as int);
        if let Some(instruction) = decode(s.memory, s.reg_ep) {
            lemma_execute_keeps_well_formed(fetched, instruction);
        }
    }
    if fuel > 0 {
        lemma_run_keeps_well_formed(stepped(s).0, (fuel - 1) as nat);
    }
}

/// A machine that has not halted does not halt without the feeling of
/// impending doom: the step that halts it finds that feeling there.
pub proof fn lemma_halt_takes_two_steps(s: MachineState)
    requires
        !s.halted,
        stepped(s).0.halted,
    ensures
        s.reg_omega.feeling_of_impending_doom,
        decode(s.memory, s.reg_ep) == Some(crate::instruction::Instruction::OmegaSkipToTheChase),
{
    let fetched = advanced(s, consumed(s.memory, s.reg_ep) as int);
    if let Some(instruction) = decode(s.memory, s.reg_ep) {
        crate::semantics::lemma_doom_and_halt_are_one_way(fetched, instruction);
    }
}

impl Machine {
    /// Does one step: fetches the instruction at the execution pointer and
    /// executes it, unless the machine has halted.
    pub fn step(&mut self) -> (step: Step)
        ensures
            (final(self)@, step@) == stepped(old(self)@),
    {
        if self.halted {
            return Step::Halted(self.reg_a);
        }
        match self.fetch_instruction() {
            Some(instruction) => Step::Ran(self.execute_instruction(instruction)),
            None => Step::Fault,
        }
    }

    /// Runs the machine for at most `fuel` steps. Stops at the first step
    /// that halts, faults or asks something of the host, and returns it;
    /// returns `None` if the fuel runs out first.
    pub fn run(&mut self, fuel: u64) -> (last: Option<Step>)
        ensures
            final(self)@ == ran(old(self)@, fuel as nat).0,
            match last {
                Some(step) => ran(old(self)@, fuel as nat).1 == Some(step@),
                None => ran(old(self)@, fuel as nat).1 is None,
            },
    {
        let mut left: u64 = fuel;
        while left > 0
            invariant
                ran(old(self)@, fuel as nat) == ran(self@, left as nat),
            decreases left,
        {
            let step: Step = self.step();
            match step {
                Step::Ran(Action::Continue) => {
                    left -= 1;
                },
                _ => {
                    return Some(step);
                },
            }
        }
        None
    }

    /// Takes what the host has read after the action `ReadChar`: the
    /// character of the key that was pressed goes to the character register,
    /// and the flag is raised if anything went wrong on the way.
    pub fn receive_char(&mut self, key: Option<char>, failed: bool)
        ensures
            final(self)@ == (MachineState {
                reg_ch: match key {
                    Some(c) => c,
                    None => old(self)@.reg_ch,
                },
                flag: old(self)@.flag || failed,
                ..old(self)@
            }),
    {
        match key {
            Some(c) => {
                self.reg_ch = c;
            },
            None => {},
        }
        if failed {
            self.flag = true;
        }
    }

    /// Takes the word of the host that what an action asked for could not be
    /// read or written: the flag is raised.
    pub fn report_failure(&mut self)
        ensures
            final(self)@ == old(self)@.raised(),
    {
        self.flag = true;
    }
}

} // verus!
