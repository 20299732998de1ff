use esoteric_vm::instruction::{DataOrInstruction, Instruction};
use esoteric_vm::state::{Action, Output, Step};
use esoteric_vm::Machine;

fn item(instruction: Instruction) -> DataOrInstruction<'static> {
    DataOrInstruction::Instruction(instruction)
}

/// Runs the machine as a host would, with the given key presses at hand.
/// Returns what was written, and the exit code if the machine halted within
/// the given number of steps.
fn run_as_host(machine: &mut Machine, keys: &[char], steps: usize) -> (Vec<u8>, Option<u8>) {
    let mut written: Vec<u8> = Vec::new();
    let mut keys = keys.iter();
    for _ in 0..steps {
        let action = match machine.step() {
            Step::Halted(code) => return (written, Some(code)),
            Step::Fault => panic!("bad instruction code"),
            Step::Ran(action) => action,
        };
        match action {
            Action::Print { prefix, output } => {
                if let Some(number) = prefix {
                    written.extend_from_slice(format!("{}: ", number).as_bytes());
                }
                match output {
                    Output::Char(c) => written.extend_from_slice(c.to_string().as_bytes()),
                    Output::String(bytes) | Output::Line(bytes) => written.extend(bytes),
                    _ => {}
                }
            }
            Action::ReadChar => machine.receive_char(keys.next().copied(), false),
            _ => {}
        }
    }
    (written, None)
}

fn hello_world() -> Vec<DataOrInstruction<'static>> {
    vec![
        item(Instruction::Pushi(b'.')),
        item(Instruction::Pop(28657)),
        item(Instruction::Ldidp(28657)),
        item(Instruction::WriteLine(13)),
        item(Instruction::OmegaTheEndIsNear),
        item(Instruction::OmegaSkipToTheChase),
        DataOrInstruction::Data(b"Hello, world!\n\0"),
    ]
}

#[test]
fn hello_world_writes_its_text_and_halts() {
    let mut machine = Machine::default();
    assert_eq!(machine.load(&hello_world(), 0), 28);
    let (written, code) = run_as_host(&mut machine, &[], 100);
    assert_eq!(written, b"Hello, world!\n".to_vec());
    assert_eq!(code, Some(0));
    assert!(machine.halted);
    assert_eq!(machine.reg_a, 0);
    assert_eq!(machine.reg_dp, 28657);
    assert_eq!(machine.reg_ep, 13);
    assert!(!machine.flag);
    assert_eq!(machine.stack.used_space(), 0);
}

#[test]
fn hello_world_takes_six_steps() {
    let mut machine = Machine::default();
    machine.load(&hello_world(), 0);
    assert_eq!(machine.run(3), None);
    assert_eq!(machine.reg_ep, 8);
    assert_eq!(
        machine.run(100),
        Some(Step::Ran(Action::Print {
            prefix: None,
            output: Output::Line(b"Hello, world!\n".to_vec())
        }))
    );
    assert_eq!(machine.reg_ep, 11);
    assert_eq!(machine.run(2), None);
    assert!(machine.halted);
    assert_eq!(machine.run(100), Some(Step::Halted(0)));
}

#[test]
fn hello_world_without_its_dot_writes_nothing() {
    let mut machine = Machine::default();
    let mut program = hello_world();
    program[0] = item(Instruction::Pushi(b','));
    machine.load(&program, 0);
    let (written, code) = run_as_host(&mut machine, &[], 100);
    assert_eq!(written, Vec::<u8>::new());
    assert_eq!(code, Some(0));
    assert!(machine.flag);
}

#[test]
fn the_exit_code_is_register_a() {
    let mut machine = Machine::default();
    machine.load_instructions(
        &[
            Instruction::Pushi(42),
            Instruction::Popa,
            Instruction::OmegaTheEndIsNear,
            Instruction::OmegaSkipToTheChase,
        ],
        0,
    );
    assert_eq!(run_as_host(&mut machine, &[], 100), (Vec::new(), Some(42)));
}

fn ninety_nine_bottles(bottles: u8) -> Vec<DataOrInstruction<'static>> {
    let set_b_to_one =
        [Instruction::Pushi(0), Instruction::Pushi(1), Instruction::Popb];
    let set_num_to_start = [
        Instruction::Pushi(0),
        Instruction::Pushi(0),
        Instruction::Pushi(0),
        Instruction::Pushi(bottles),
        Instruction::Popnum,
    ];
    let mut program: Vec<Instruction> = vec![
        Instruction::Pushi(b'.'),
        Instruction::Pop(28657),
        Instruction::Ldidp(28657),
        Instruction::Pushi(0),
        Instruction::Pushi(bottles),
        Instruction::PopL,
    ];
    program.extend(set_num_to_start);
    program.extend(set_b_to_one);
    program.push(Instruction::OmegaSetPaperclipProduction(true));
    // the loop begins at address 29
    program.extend([
        Instruction::WriteLine(110),
        Instruction::WriteLine(140),
        Instruction::OmegaSetPaperclipProduction(false),
        Instruction::WriteLine(158),
        Instruction::OmegaSetPaperclipProduction(true),
        Instruction::CmpLB,
        Instruction::Pushi(0),
        Instruction::Pushi(71),
        Instruction::Zpopep,
        Instruction::StackDealloc(2),
    ]);
    program.extend(set_b_to_one);
    program.extend([
        Instruction::SubBL,
        Instruction::Pushi(0),
        Instruction::Pushi(0),
        Instruction::PushL,
        Instruction::Popnum,
        Instruction::WriteLine(193),
        Instruction::Pushi(0),
        Instruction::Pushi(29),
        Instruction::Popep,
    ]);
    // the end begins at address 71
    program.extend([
        Instruction::OmegaSetPaperclipProduction(false),
        Instruction::WriteLine(224),
        Instruction::WriteLine(193),
        Instruction::WriteLine(233),
        Instruction::WriteLine(110),
        Instruction::WriteLine(224),
        Instruction::WriteLine(140),
        Instruction::WriteLine(242),
    ]);
    program.extend(set_num_to_start);
    program.extend([
        Instruction::OmegaSetPaperclipProduction(true),
        Instruction::WriteLine(193),
        Instruction::OmegaTheEndIsNear,
        Instruction::OmegaSkipToTheChase,
    ]);
    let mut items: Vec<DataOrInstruction<'static>> = program.into_iter().map(item).collect();
    items.push(DataOrInstruction::Data(b"bottles of beer on the wall, \0"));
    items.push(DataOrInstruction::Data(b"bottles of beer.\n\0"));
    items.push(DataOrInstruction::Data(b"Take one down and pass it around, \0"));
    items.push(DataOrInstruction::Data(b"bottles of beer on the wall.\n\n\0"));
    items.push(DataOrInstruction::Data(b"no more \0"));
    items.push(DataOrInstruction::Data(b"No more \0"));
    items.push(DataOrInstruction::Data(b"Go to the store and buy some more, \0"));
    items
}

fn song(bottles: u8) -> String {
    let mut song = String::new();
    for n in (1..=bottles).rev() {
        song.push_str(&format!("{}: bottles of beer on the wall, {}: bottles of beer.\n", n, n));
        song.push_str("Take one down and pass it around, ");
        if n > 1 {
            song.push_str(&format!("{}: bottles of beer on the wall.\n\n", n - 1));
        }
    }
    song.push_str("no more bottles of beer on the wall.\n\n");
    song.push_str("No more bottles of beer on the wall, no more bottles of beer.\n");
    song.push_str(&format!(
        "Go to the store and buy some more, {}: bottles of beer on the wall.\n\n",
        bottles
    ));
    song
}

#[test]
fn the_bottles_program_lies_where_its_jumps_point() {
    let mut machine = Machine::default();
    assert_eq!(machine.load(&ninety_nine_bottles(99), 0), 278);
    assert_eq!(machine.memory[29], 75);
    assert_eq!(machine.memory[71], 29);
    assert_eq!(&machine.memory[110..117], b"bottles");
    assert_eq!(&machine.memory[242..244], b"Go");
    assert_eq!(machine.memory[277], 0);
}

#[test]
fn ninety_nine_bottles_are_counted_down_to_one() {
    let mut machine = Machine::default();
    machine.load(&ninety_nine_bottles(99), 0);
    let (written, code) = run_as_host(&mut machine, &[], 100_000);
    assert_eq!(String::from_utf8(written).unwrap(), song(99));
    assert_eq!(code, Some(0));
    assert_eq!(machine.reg_L, 1);
    assert_eq!(machine.reg_b, 0);
    assert_eq!(machine.num_reg, 99);
    assert_eq!(machine.stack.used_space(), 0);
    assert!(!machine.flag);
}

#[test]
fn the_countdown_leaves_its_loop_exactly_at_one() {
    for bottles in [1u8, 2, 3, 10] {
        let mut machine = Machine::default();
        machine.load(&ninety_nine_bottles(bottles), 0);
        let mut rounds: u32 = 0;
        let mut lowest: u16 = u16::MAX;
        let mut code: Option<u8> = None;
        for _ in 0..100_000 {
            if machine.reg_ep == 29 {
                rounds += 1;
                lowest = lowest.min(machine.reg_L);
            }
            match machine.step() {
                Step::Halted(c) => {
                    code = Some(c);
                    break;
                }
                Step::Fault => panic!("bad instruction code"),
                Step::Ran(_) => {}
            }
        }
        assert_eq!(code, Some(0));
        assert_eq!(rounds, bottles as u32);
        assert_eq!(lowest, 1);
        assert_eq!(machine.reg_L, 1);
        assert!(!machine.flag);
    }
}

#[test]
fn a_short_song_in_full() {
    let mut machine = Machine::default();
    machine.load(&ninety_nine_bottles(2), 0);
    let (written, _) = run_as_host(&mut machine, &[], 100_000);
    assert_eq!(
        String::from_utf8(written).unwrap(),
        "2: bottles of beer on the wall, 2: bottles of beer.\n\
         Take one down and pass it around, 1: bottles of beer on the wall.\n\n\
         1: bottles of beer on the wall, 1: bottles of beer.\n\
         Take one down and pass it around, no more bottles of beer on the wall.\n\n\
         No more bottles of beer on the wall, no more bottles of beer.\n\
         Go to the store and buy some more, 2: bottles of beer on the wall.\n\n"
    );
}

fn truth_machine() -> Vec<DataOrInstruction<'static>> {
    [
        Instruction::Pushi(b'.'),
        Instruction::Pop(28657),
        Instruction::Ldidp(28657),
        Instruction::GetChar,
        Instruction::Pushch,
        Instruction::Popb,
        Instruction::StackDealloc(2),
        Instruction::Pushi(0),
        Instruction::Pushi(49),
        Instruction::PopL,
        Instruction::CmpLB,
        Instruction::Pushi(0),
        Instruction::Pushi(30),
        Instruction::Zpopep,
        Instruction::StackDealloc(2),
        Instruction::WriteChar,
        Instruction::OmegaTheEndIsNear,
        Instruction::OmegaSkipToTheChase,
        Instruction::WriteChar,
        Instruction::Pushi(0),
        Instruction::Pushi(30),
        Instruction::Popep,
    ]
    .into_iter()
    .map(item)
    .collect()
}

#[test]
fn the_truth_machine_writes_a_zero_once() {
    let mut machine = Machine::default();
    machine.load(&truth_machine(), 0);
    let (written, code) = run_as_host(&mut machine, &['0'], 10_000);
    assert_eq!(written, b"0".to_vec());
    assert_eq!(code, Some(0));
    assert_eq!(machine.reg_ch, '0');
    assert_eq!(machine.reg_b, 1);
}

#[test]
fn the_truth_machine_writes_ones_without_end() {
    let mut machine = Machine::default();
    machine.load(&truth_machine(), 0);
    let (written, code) = run_as_host(&mut machine, &['1'], 10_000);
    assert_eq!(code, None);
    assert!(!machine.halted);
    assert!(written.len() > 1000);
    assert!(written.iter().all(|byte| *byte == b'1'));
    assert!(!machine.flag);
}
