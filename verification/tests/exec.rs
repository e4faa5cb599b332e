use caie_assembler::exec::{ExecutionOutcome, StepStatus};
use caie_assembler::parser::Location;
use caie_assembler::{
    Address, Assembler, Execution, Instruction, Operand, Operation, Register, RuntimeError,
    RuntimeErrorKind, Step,
};

const FUEL: u64 = 100_000;

fn outputs(steps: &[Step]) -> Vec<char> {
    steps.iter().filter_map(|s| s.out).collect()
}

#[test]
fn exec() {
    let mut a = Assembler::from_records(vec![
        Location::new(200, "", "LDD", "365"),
        Location::new(201, "", "CMP", "366"),
        Location::new(202, "", "JPE", "209"),
        Location::new(203, "", "INC", "ACC"),
        Location::new(204, "", "STO", "365"),
        Location::new(205, "", "MOV", "IX"),
        Location::new(206, "", "LDX", "365"),
        Location::new(207, "", "OUT", ""),
        Location::new(208, "", "JMP", "200"),
        Location::new(209, "", "END", ""),
        Location::new(365, "", "", "1"),
        Location::new(366, "", "", "3"),
        Location::new(367, "", "", "65"),
        Location::new(368, "", "", "66"),
    ])
    .unwrap();
    println!("{:#?}", a);
    assert!(matches!(a.execute(200, FUEL), ExecutionOutcome::Halted(_)));
}

#[test]
fn err_indirect() {
    let mut a = Assembler::from_records(vec![Location::new(0, "", "LDI", "0")]).unwrap();
    println!("{:#?}", a);
    match a.execute(0, FUEL) {
        ExecutionOutcome::Faulted(e) => {
            assert_eq!(
                e,
                RuntimeError {
                    address: 0,
                    kind: RuntimeErrorKind::InvalidData(Address::Absolute(0)),
                }
            );
            assert_eq!(e.message(), String::from("Invalid data at address Absolute(0)"));
        }
        other => panic!("{:#?}", other),
    }
}

#[test]
fn ldm_and_mov() {
    let mut a = Assembler::from_records(vec![
        Location::new(0, "", "LDM", "#1"),
        Location::new(1, "", "MOV", "IX"),
    ])
    .unwrap();
    let mut state = Execution::new(0);
    assert!(matches!(a.step(&mut state), StepStatus::Running));
    assert!(matches!(a.step(&mut state), StepStatus::Running));
    assert_eq!(state.registers.accumulator, 1);
    assert_eq!(state.registers.index_register, 1);
}

#[test]
fn ldd_and_sto() {
    let mut a = Assembler::from_records(vec![
        Location::new(0, "", "LDD", "5"),
        Location::new(1, "", "MOV", "IX"),
        Location::new(2, "", "LDM", "#0"),
        Location::new(3, "", "STO", "6"),
        Location::new(5, "", "", "1"),
    ])
    .unwrap();
    let mut state = Execution::new(0);
    for _ in 0..4 {
        assert!(matches!(a.step(&mut state), StepStatus::Running));
    }
    assert_eq!(state.registers.index_register, 1);
    assert_eq!(a.instructions.get(&6), Some(&Instruction::Data(0)));
}

#[test]
fn add_and_sub_number() {
    let mut a = Assembler::from_records(vec![
        Location::new(0, "", "ADD", "#1"),
        Location::new(1, "", "MOV", "IX"),
        Location::new(2, "", "LDM", "#2"),
        Location::new(3, "", "SUB", "#1"),
    ])
    .unwrap();
    let mut state = Execution::new(0);
    for _ in 0..4 {
        assert!(matches!(a.step(&mut state), StepStatus::Running));
    }
    assert_eq!(state.registers.accumulator, 1);
    assert_eq!(state.registers.index_register, 1);
}

#[test]
fn add_address() {
    let mut a = Assembler::from_records(vec![
        Location::new(0, "", "ADD", "9"),
        Location::new(9, "", "", "1"),
    ])
    .unwrap();
    let mut state = Execution::new(0);
    assert!(matches!(a.step(&mut state), StepStatus::Running));
    assert_eq!(state.registers.accumulator, 1);
}

#[test]
fn scenario_loop_outputs() {
    // The counting loop: loads 1, compares with 3, increments, stores,
    // moves the count into IX, loads indexed, outputs, and jumps back
    // until the stored value reaches the compared constant.
    let mut a = Assembler::from_records(vec![
        Location::new(200, "", "LDD", "365"),
        Location::new(201, "", "CMP", "366"),
        Location::new(202, "", "JPE", "209"),
        Location::new(203, "", "INC", "ACC"),
        Location::new(204, "", "STO", "365"),
        Location::new(205, "", "MOV", "IX"),
        Location::new(206, "", "LDX", "365"),
        Location::new(207, "", "OUT", ""),
        Location::new(208, "", "JMP", "200"),
        Location::new(209, "", "END", ""),
        Location::new(365, "", "", "1"),
        Location::new(366, "", "", "3"),
        Location::new(367, "", "", "65"),
        Location::new(368, "", "", "66"),
    ])
    .unwrap();
    match a.execute(200, FUEL) {
        ExecutionOutcome::Halted(steps) => {
            assert_eq!(outputs(&steps), vec!['A', 'B']);
        }
        other => panic!("{:#?}", other),
    }
    // The loop ran until the stored counter reached the constant.
    assert_eq!(a.instructions.get(&365), Some(&Instruction::Data(3)));
}

#[test]
fn missing_cell_faults_immediately() {
    let mut a = Assembler::from_records(vec![]).unwrap();
    assert_eq!(
        a.execute(5, FUEL),
        ExecutionOutcome::Faulted(RuntimeError {
            address: 5,
            kind: RuntimeErrorKind::InvalidInstruction,
        })
    );
    // No step ran: the trace is still empty when the first fetch faults.
    let mut state = Execution::new(5);
    assert!(matches!(a.step(&mut state), StepStatus::Faulted(_)));
    assert!(state.steps.is_empty());
}

#[test]
fn data_cell_is_no_instruction() {
    let mut a = Assembler::from_records(vec![Location::new(0, "", "", "7")]).unwrap();
    match a.execute(0, FUEL) {
        ExecutionOutcome::Faulted(e) => {
            assert_eq!(e.kind, RuntimeErrorKind::InvalidInstruction);
            assert_eq!(e.message(), String::from("Invalid instruction"));
        }
        other => panic!("{:#?}", other),
    }
}

#[test]
fn load_from_operation_cell_faults() {
    // A direct load whose target holds code must fault, never read the
    // raw encoding.
    let mut a = Assembler::from_records(vec![
        Location::new(0, "", "LDD", "1"),
        Location::new(1, "", "END", ""),
    ])
    .unwrap();
    match a.execute(0, FUEL) {
        ExecutionOutcome::Faulted(e) => {
            assert_eq!(e.address, 0);
            assert_eq!(e.kind, RuntimeErrorKind::InvalidData(Address::Absolute(1)));
        }
        other => panic!("{:#?}", other),
    }
}

#[test]
fn indexed_load_from_operation_cell_faults() {
    let mut a = Assembler::from_records(vec![Location::new(0, "", "LDX", "0")]).unwrap();
    match a.execute(0, FUEL) {
        ExecutionOutcome::Faulted(e) => {
            assert_eq!(e.kind, RuntimeErrorKind::InvalidData(Address::Absolute(0)));
        }
        other => panic!("{:#?}", other),
    }
}

#[test]
fn conditional_jump_without_compare_faults() {
    for opcode in ["JPE", "JPN"] {
        let mut a = Assembler::from_records(vec![Location::new(0, "", opcode, "5")]).unwrap();
        assert_eq!(
            a.execute(0, FUEL),
            ExecutionOutcome::Faulted(RuntimeError {
                address: 0,
                kind: RuntimeErrorKind::MissingComparison,
            })
        );
    }
}

#[test]
fn conditional_jump_consumes_the_flag() {
    // One comparison feeds exactly one conditional jump: the second
    // faults.
    let mut a = Assembler::from_records(vec![
        Location::new(0, "", "CMP", "#0"),
        Location::new(1, "", "JPE", "3"),
        Location::new(3, "", "JPE", "0"),
    ])
    .unwrap();
    match a.execute(0, FUEL) {
        ExecutionOutcome::Faulted(e) => {
            assert_eq!(e.address, 3);
            assert_eq!(e.kind, RuntimeErrorKind::MissingComparison);
            assert_eq!(e.message(), String::from("Missing compare instruction"));
        }
        other => panic!("{:#?}", other),
    }
}

#[test]
fn indirect_load_follows_the_chain() {
    // Cell 10 holds Data(11) and cell 11 holds Data(42): the indirect
    // load lands on 42.
    let mut a = Assembler::from_records(vec![
        Location::new(0, "", "LDI", "10"),
        Location::new(10, "", "", "11"),
        Location::new(11, "", "", "42"),
    ])
    .unwrap();
    let mut state = Execution::new(0);
    assert!(matches!(a.step(&mut state), StepStatus::Running));
    assert_eq!(state.registers.accumulator, 42);
}

#[test]
fn indexed_load_adds_the_index() {
    let mut a = Assembler::from_records(vec![
        Location::new(0, "", "LDR", "#2"),
        Location::new(1, "", "LDX", "10"),
        Location::new(10, "", "", "7"),
        Location::new(12, "", "", "99"),
    ])
    .unwrap();
    let mut state = Execution::new(0);
    assert!(matches!(a.step(&mut state), StepStatus::Running));
    assert!(matches!(a.step(&mut state), StepStatus::Running));
    assert_eq!(state.registers.accumulator, 99);
}

fn wrapping_program() -> Vec<Location> {
    vec![
        Location::new(0, "", "LDM", "&FF"),
        Location::new(1, "", "ADD", "#1"),
        Location::new(2, "", "OUT", ""),
        Location::new(3, "", "END", ""),
    ]
}

#[test]
fn arithmetic_wraps_deterministically() {
    let mut first = Assembler::from_records(wrapping_program()).unwrap();
    let mut second = Assembler::from_records(wrapping_program()).unwrap();
    let r1 = first.execute(0, FUEL);
    let r2 = second.execute(0, FUEL);
    assert_eq!(r1, r2);
    match r1 {
        ExecutionOutcome::Halted(steps) => {
            // 255 + 1 wraps to 0 on the 8-bit width.
            assert_eq!(outputs(&steps), vec!['\0']);
        }
        other => panic!("{:#?}", other),
    }
}

#[test]
fn subtraction_wraps() {
    let mut a = Assembler::from_records(vec![Location::new(0, "", "SUB", "#1")]).unwrap();
    let mut state = Execution::new(0);
    assert!(matches!(a.step(&mut state), StepStatus::Running));
    assert_eq!(state.registers.accumulator, 255);
}

#[test]
fn decrease_and_increase_registers() {
    let mut a = Assembler::from_records(vec![
        Location::new(0, "", "INC", "IX"),
        Location::new(1, "", "INC", "IX"),
        Location::new(2, "", "DEC", "ACC"),
    ])
    .unwrap();
    let mut state = Execution::new(0);
    for _ in 0..3 {
        assert!(matches!(a.step(&mut state), StepStatus::Running));
    }
    assert_eq!(state.registers.index_register, 2);
    assert_eq!(state.registers.accumulator, 255);
}

#[test]
fn unresolved_jump_target_faults() {
    let mut a = Assembler::from_records(vec![Location::new(0, "", "JMP", "nowhere")]).unwrap();
    match a.execute(0, FUEL) {
        ExecutionOutcome::Faulted(e) => {
            assert_eq!(
                e.kind,
                RuntimeErrorKind::InvalidAddress(Address::Symbolic(String::from("nowhere")))
            );
            assert_eq!(
                e.message(),
                String::from("Invalid address Symbolic(\"nowhere\")")
            );
        }
        other => panic!("{:#?}", other),
    }
}

#[test]
fn input_is_unimplemented() {
    let mut a = Assembler::from_records(vec![Location::new(0, "", "IN", "")]).unwrap();
    match a.execute(0, FUEL) {
        ExecutionOutcome::Faulted(e) => {
            assert_eq!(e.kind, RuntimeErrorKind::Unimplemented);
        }
        other => panic!("{:#?}", other),
    }
}

#[test]
fn step_bound_cancels_non_terminating_program() {
    let mut a = Assembler::from_records(vec![Location::new(0, "", "JMP", "0")]).unwrap();
    match a.execute(0, 5) {
        ExecutionOutcome::Cancelled(steps) => {
            assert_eq!(steps.len(), 5);
        }
        other => panic!("{:#?}", other),
    }
}

#[test]
fn store_shadows_code() {
    // A store may overwrite a code cell; re-fetching that address then
    // decodes whatever is there now, here a data cell, which faults.
    let mut a = Assembler::from_records(vec![
        Location::new(0, "", "LDM", "#9"),
        Location::new(1, "", "STO", "3"),
        Location::new(2, "", "LDM", "#1"),
        Location::new(3, "", "END", ""),
    ])
    .unwrap();
    match a.execute(0, FUEL) {
        ExecutionOutcome::Faulted(e) => {
            assert_eq!(e.address, 3);
            assert_eq!(e.kind, RuntimeErrorKind::InvalidInstruction);
        }
        other => panic!("{:#?}", other),
    }
    assert_eq!(a.instructions.get(&3), Some(&Instruction::Data(9)));
}

#[test]
fn jump_through_a_label() {
    let mut a = Assembler::from_records(vec![
        Location::new(0, "", "JMP", "done"),
        Location::new(1, "", "IN", ""),
        Location::new(2, "done", "END", ""),
    ])
    .unwrap();
    assert!(matches!(a.execute(0, FUEL), ExecutionOutcome::Halted(_)));
}

#[test]
fn trace_records_the_registers() {
    let mut a = Assembler::from_records(vec![
        Location::new(0, "", "LDM", "#65"),
        Location::new(1, "", "OUT", ""),
        Location::new(2, "", "END", ""),
    ])
    .unwrap();
    match a.execute(0, FUEL) {
        ExecutionOutcome::Halted(steps) => {
            assert_eq!(
                steps,
                vec![
                    Step { pc: 0, acc: 0, ix: 0, out: None },
                    Step { pc: 1, acc: 65, ix: 0, out: Some('A') },
                ]
            );
        }
        other => panic!("{:#?}", other),
    }
}

#[test]
fn operand_values() {
    let a = Assembler::from_records(vec![
        Location::new(0, "", "END", ""),
        Location::new(7, "", "", "33"),
    ])
    .unwrap();
    let state = Execution::new(0);
    assert_eq!(state.get_operand_value(&a, &Operand::Number(9)), Some(9));
    assert_eq!(
        state.get_operand_value(&a, &Operand::Address(Address::Absolute(7))),
        Some(33)
    );
    // An address holding code denotes no data value.
    assert_eq!(
        state.get_operand_value(&a, &Operand::Address(Address::Absolute(0))),
        None
    );
}

#[test]
fn registers_dispatch() {
    let mut registers = caie_assembler::Registers {
        accumulator: 1,
        index_register: 2,
    };
    *registers.get_register_mut(&Register::ACC) = 10;
    *registers.get_register_mut(&Register::IX) = 20;
    assert_eq!(registers.accumulator, 10);
    assert_eq!(registers.index_register, 20);
}

#[test]
fn compare_indirect() {
    // CMI compares the accumulator with the doubly-dereferenced value.
    let mut a = Assembler::from_records(vec![
        Location::new(0, "", "LDM", "#42"),
        Location::new(1, "", "CMI", "10"),
        Location::new(2, "", "JPE", "4"),
        Location::new(3, "", "IN", ""),
        Location::new(4, "", "END", ""),
        Location::new(10, "", "", "11"),
        Location::new(11, "", "", "42"),
    ])
    .unwrap();
    assert!(matches!(a.execute(0, FUEL), ExecutionOutcome::Halted(_)));
}

#[test]
fn large_address_in_message() {
    let mut a = Assembler::from_records(vec![Location::new(0, "", "LDD", "12345")]).unwrap();
    match a.execute(0, FUEL) {
        ExecutionOutcome::Faulted(e) => {
            assert_eq!(
                e.message(),
                String::from("Invalid data at address Absolute(12345)")
            );
        }
        other => panic!("{:#?}", other),
    }
}

#[test]
fn decimal_rendering() {
    assert_eq!(caie_assembler::text::decimal_string(0), String::from("0"));
    assert_eq!(caie_assembler::text::decimal_string(9), String::from("9"));
    assert_eq!(caie_assembler::text::decimal_string(907), String::from("907"));
    assert_eq!(
        caie_assembler::text::decimal_string(18446744073709551615),
        String::from("18446744073709551615")
    );
}
