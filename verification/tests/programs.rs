use spacetab::error::VmError;
use spacetab::interp::Interpreter;
use spacetab::interp::run;
use spacetab::machine::Machine;

fn program(lines: &[&str]) -> Vec<String> {
    lines.iter().map(|l| l.to_string()).collect()
}

#[test]
fn program_prints_one() {
    let lines = program(&[" ", "\t", "\t\t\t\t\t\t\t\t\t"]);
    let (m, err) = run(Machine::new(), &lines);
    assert!(err.is_none());
    assert_eq!(m.get_cell(0), 1);
    assert_eq!(m.output, vec!['1']);
}

#[test]
fn program_prints_a_capital_a() {
    let set_65 = " ".repeat(65);
    let lines = program(&[
        &set_65,                 // operand 65
        "\t",                    // opcode 1: set memory[0] = 65
        " ",                     // operand 1
        &"\t".repeat(11),        // opcode 11: ASCII mode
        &"\t".repeat(9),         // opcode 9: print
    ]);
    let (m, err) = run(Machine::new(), &lines);
    assert!(err.is_none());
    assert_eq!(m.output, vec!['A']);
}

#[test]
fn two_operand_lines_in_a_row_fail() {
    let mut it = Interpreter::new();
    assert!(it.feed_line(" ").is_ok());
    match it.feed_line("  ") {
        Err(VmError::UnconsumedOperand { value }) => assert_eq!(value, 1),
        other => panic!("expected an unconsumed-operand error, got {other:?}"),
    }
}

#[test]
fn a_run_stops_at_the_first_error() {
    let lines = program(&[" ", "  ", "\t"]);
    let (m, err) = run(Machine::new(), &lines);
    match err {
        Some(VmError::UnconsumedOperand { value }) => assert_eq!(value, 1),
        other => panic!("expected an unconsumed-operand error, got {other:?}"),
    }
    // The opcode line after the fault never executed.
    assert_eq!(m.get_cell(0), 0);
}

#[test]
fn output_before_a_fault_stands() {
    let lines = program(&["\t\t\t\t\t\t\t\t\t", " ", " "]);
    let (m, err) = run(Machine::new(), &lines);
    assert!(matches!(err, Some(VmError::UnconsumedOperand { value: 1 })));
    assert_eq!(m.output, vec!['0']);
}

#[test]
fn a_mixed_line_aborts_the_run() {
    let lines = program(&[" ", "\t", " \t"]);
    let (m, err) = run(Machine::new(), &lines);
    match err {
        Some(VmError::MixedLine { spaces, tabs, line }) => {
            assert_eq!(spaces, 1);
            assert_eq!(tabs, 1);
            assert_eq!(line, " \t");
        }
        other => panic!("expected a mixed-line error, got {other:?}"),
    }
    assert_eq!(m.get_cell(0), 1);
}

#[test]
fn a_dangling_operand_at_end_of_input_is_discarded() {
    let lines = program(&[" ", "\t", "   "]);
    let (m, err) = run(Machine::new(), &lines);
    assert!(err.is_none());
    assert_eq!(m.get_cell(0), 1);
    assert_eq!(m.output, Vec::<char>::new());
}

#[test]
fn blank_lines_separate_instructions_anywhere() {
    let lines = program(&["", "  ", "comment", "\t", "", "\t\t\t\t\t\t\t\t\t", ""]);
    let (m, err) = run(Machine::new(), &lines);
    assert!(err.is_none());
    assert_eq!(m.output, vec!['2']);
}

#[test]
fn an_opcode_without_an_operand_executes_plain() {
    // Opcode 10 takes no operand: a tab line straight after an opcode line.
    let lines = program(&["\t\t\t\t\t\t\t\t\t", "\t\t\t\t\t\t\t\t\t\t"]);
    let (m, err) = run(Machine::new(), &lines);
    assert!(err.is_none());
    assert_eq!(m.output, vec!['0', '\n']);
}

#[test]
fn an_omitted_operand_is_absent_not_zero() {
    // A line with zero spaces is no operand at all, so opcode 6 arrives
    // without one — an unrecognized pairing, not a division by zero.
    let set_10 = " ".repeat(10);
    let lines = program(&[&set_10, "\t", "\t\t\t\t\t\t"]);
    let (m, err) = run(Machine::new(), &lines);
    assert!(matches!(err, Some(VmError::UnrecognizedInstruction { action: 6, arg: None })));
    assert_eq!(m.get_cell(0), 10);
}

#[test]
fn feeding_after_an_error_can_continue() {
    // The interpreter is left unchanged by a failed line, so a caller who
    // chooses to go on sees the state from before the fault.
    let mut it = Interpreter::new();
    assert!(it.feed_line(" ").is_ok());
    assert!(it.feed_line("  ").is_err());
    assert!(it.feed_line("\t").is_ok());
    assert_eq!(it.machine.get_cell(0), 1);
}
