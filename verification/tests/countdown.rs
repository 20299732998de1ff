use esoteric_vm::countdown::{countdown_program, COMPARISON, LOOP_END, LOOP_HEAD, SUBTRACTION};
use esoteric_vm::instruction::Instruction;
use esoteric_vm::state::{Action, Step};
use esoteric_vm::Machine;

/// What a run of the countdown has shown.
struct Countdown {
    steps: u64,
    at_the_head: Vec<u16>,
    comparisons: u64,
    subtractions: u64,
    lowest: u16,
    highest: u16,
    machine: Machine,
}

fn count_down(n: u16) -> Countdown {
    let mut machine = Machine::default();
    machine.reg_L = 40000;
    machine.reg_a = 7;
    assert_eq!(machine.load_instructions(&countdown_program(n), 0), 32);
    let mut seen = Countdown {
        steps: 0,
        at_the_head: Vec::new(),
        comparisons: 0,
        subtractions: 0,
        lowest: u16::MAX,
        highest: 0,
        machine: Machine::default(),
    };
    loop {
        if seen.steps >= 3 {
            seen.lowest = seen.lowest.min(machine.reg_L);
            seen.highest = seen.highest.max(machine.reg_L);
        }
        if !machine.halted {
            if machine.reg_ep == LOOP_HEAD {
                seen.at_the_head.push(machine.reg_L);
            }
            if machine.reg_ep == COMPARISON {
                seen.comparisons += 1;
            }
            if machine.reg_ep == SUBTRACTION {
                seen.subtractions += 1;
            }
        }
        match machine.step() {
            Step::Halted(code) => {
                assert_eq!(code, 7);
                break;
            }
            Step::Fault => panic!("bad instruction code"),
            Step::Ran(action) => assert_eq!(action, Action::Continue),
        }
        seen.steps += 1;
    }
    seen.machine = machine;
    seen
}

#[test]
fn the_program_is_twenty_instructions() {
    let program = countdown_program(0x1234);
    assert_eq!(program.len(), 20);
    assert_eq!(program[0], Instruction::Pushi(0x12));
    assert_eq!(program[1], Instruction::Pushi(0x34));
    assert_eq!(program[2], Instruction::PopL);
    assert_eq!(program[6], Instruction::CmpLB);
    assert_eq!(program[8], Instruction::Pushi(LOOP_END as u8));
    assert_eq!(program[14], Instruction::SubBL);
    assert_eq!(program[16], Instruction::Pushi(LOOP_HEAD as u8));
    assert_eq!(program[19], Instruction::OmegaSkipToTheChase);
    let mut machine = Machine::default();
    assert_eq!(machine.load_instructions(&program, 0), 32);
    assert_eq!(machine.memory[COMPARISON as usize], 39);
    assert_eq!(machine.memory[SUBTRACTION as usize], 31);
    assert_eq!(machine.memory[LOOP_END as usize], 26);
}

#[test]
fn a_countdown_from_five() {
    let seen = count_down(5);
    assert_eq!(seen.at_the_head, vec![5, 4, 3, 2, 1]);
    assert_eq!(seen.comparisons, 5);
    assert_eq!(seen.subtractions, 4);
    assert_eq!(seen.steps, 3 + 15 * 4 + 9);
    assert_eq!(seen.lowest, 1);
    assert_eq!(seen.highest, 5);
    assert!(seen.machine.halted);
    assert_eq!(seen.machine.reg_L, 1);
    assert_eq!(seen.machine.reg_b, 0);
    assert_eq!(seen.machine.reg_ep, 32);
    assert_eq!(seen.machine.reg_a, 7);
    assert_eq!(seen.machine.stack.used_space(), 0);
    assert!(seen.machine.reg_omega.feeling_of_impending_doom);
    assert!(!seen.machine.flag);
}

#[test]
fn a_countdown_from_one_has_one_round() {
    let seen = count_down(1);
    assert_eq!(seen.at_the_head, vec![1]);
    assert_eq!(seen.comparisons, 1);
    assert_eq!(seen.subtractions, 0);
    assert_eq!(seen.steps, 12);
    assert_eq!(seen.machine.reg_L, 1);
    assert!(seen.machine.halted);
}

#[test]
fn countdowns_leave_their_loop_at_one_without_overshoot() {
    for n in [2u16, 3, 255, 256, 257, 1000, 32767] {
        let seen = count_down(n);
        let expected: Vec<u16> = (1..=n).rev().collect();
        assert_eq!(seen.at_the_head, expected);
        assert_eq!(seen.comparisons, n as u64);
        assert_eq!(seen.subtractions, n as u64 - 1);
        assert_eq!(seen.steps, 3 + 15 * (n as u64 - 1) + 9);
        assert_eq!(seen.lowest, 1);
        assert_eq!(seen.highest, n);
        assert_eq!(seen.machine.reg_L, 1);
        assert!(seen.machine.halted);
        assert!(!seen.machine.flag);
        assert_eq!(seen.machine.stack.used_space(), 0);
    }
}

#[test]
fn a_run_of_the_countdown_reports_the_halt() {
    let mut machine = Machine::default();
    machine.load_instructions(&countdown_program(10), 0);
    assert_eq!(machine.run(3 + 15 * 9 + 9), None);
    assert!(machine.halted);
    let mut again = Machine::default();
    again.load_instructions(&countdown_program(10), 0);
    assert_eq!(again.run(3 + 15 * 9 + 9 + 1), Some(Step::Halted(0)));
    assert_eq!(again.reg_L, 1);
}
