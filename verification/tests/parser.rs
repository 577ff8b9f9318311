use spacetab::error::VmError;
use spacetab::interp::Interpreter;
use spacetab::parser::Syntax;
use spacetab::parser::expect_none;
use spacetab::parser::parse;

#[test]
fn parse_empty_line_is_blank() {
    assert!(matches!(parse(""), Ok(None)));
}

#[test]
fn parse_filler_only_line_is_blank() {
    assert!(matches!(parse("just.a.comment?no:just_a_comment!"), Ok(None)));
}

#[test]
fn parse_counts_spaces_and_ignores_filler() {
    assert_eq!(parse(" a b ").unwrap(), Some(Syntax::Spaces(3)));
    assert_eq!(parse(" ").unwrap(), Some(Syntax::Spaces(1)));
}

#[test]
fn parse_counts_tabs_and_ignores_filler() {
    assert_eq!(parse("\tcomment\t\t").unwrap(), Some(Syntax::Tabs(3)));
    assert_eq!(parse("\t").unwrap(), Some(Syntax::Tabs(1)));
}

#[test]
fn parse_mixed_line_fails_with_both_counts() {
    let r = parse(" \t x");
    match r {
        Err(VmError::MixedLine { spaces, tabs, line }) => {
            assert_eq!(spaces, 2);
            assert_eq!(tabs, 1);
            assert_eq!(line, " \t x");
        }
        other => panic!("expected a mixed-line error, got {other:?}"),
    }
}

#[test]
fn blank_lines_are_noops_under_repetition() {
    let mut it = Interpreter::new();
    for _ in 0..10 {
        assert!(it.feed_line("").is_ok());
        assert!(it.feed_line("filler.only").is_ok());
    }
    assert!(it.pending.is_none());
    assert_eq!(it.machine.output, Vec::<char>::new());
    // The machine is still fresh enough to run a full instruction.
    assert!(it.feed_line(" ").is_ok());
    assert!(it.feed_line("\t").is_ok());
    assert_eq!(it.machine.get_cell(0), 1);
}

#[test]
fn expect_none_accepts_an_empty_slot() {
    assert!(expect_none(None).is_ok());
}

#[test]
fn expect_none_rejects_a_stale_operand() {
    match expect_none(Some(7)) {
        Err(VmError::UnconsumedOperand { value }) => assert_eq!(value, 7),
        other => panic!("expected an unconsumed-operand error, got {other:?}"),
    }
}
