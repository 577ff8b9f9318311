//! The library's general guarantees, each stated over the spec-level models
//! that the executable functions' contracts are written against.

use vstd::prelude::*;

use crate::error::ErrorModel;
use crate::interp::InterpModel;
use crate::interp::line_step;
use crate::interp::run_steps;
use crate::machine::MachineModel;
use crate::machine::cell;
use crate::machine::machine_step;
use crate::machine::recognized;
use crate::parser::Syntax;
use crate::parser::count_char;
use crate::parser::parse_spec;

verus! {

/// A line with no spaces and no tabs yields no token and leaves the
/// interpreter exactly as it was.
pub proof fn lemma_blank_line_is_noop(st: InterpModel, line: Seq<char>)
    requires
        count_char(line, ' ') == 0,
        count_char(line, '\t') == 0,
    ensures
        parse_spec(line) == Ok::<Option<Syntax>, ErrorModel>(None),
        line_step(st, line) == Ok::<InterpModel, ErrorModel>(st),
{
}

/// Feeding any number of blank lines, from any state, changes nothing and
/// raises no error: the no-op is a no-op under repetition.
pub proof fn lemma_blank_lines_run_is_noop(st: InterpModel, lines: Seq<Seq<char>>)
    requires
        forall|i: int|
            0 <= i < lines.len() ==> count_char(#[trigger] lines[i], ' ') == 0 && count_char(
                lines[i],
                '\t',
            ) == 0,
    ensures
        run_steps(st, lines) == (st, None::<ErrorModel>),
    decreases lines.len(),
{
    if lines.len() > 0 {
        lemma_blank_line_is_noop(st, lines[0]);
        lemma_blank_lines_run_is_noop(st, lines.drop_first());
    }
}

/// A line with both spaces and tabs fails with the mixed-line error,
/// reporting exactly both counts and the offending line.
pub proof fn lemma_mixed_line_rejected(line: Seq<char>)
    requires
        count_char(line, ' ') > 0,
        count_char(line, '\t') > 0,
    ensures
        parse_spec(line) == Err::<Option<Syntax>, ErrorModel>(
            ErrorModel::MixedLine {
                spaces: count_char(line, ' '),
                tabs: count_char(line, '\t'),
                line,
            },
        ),
{
}

/// Two operand lines in a row, with no opcode line between them, fail: the
/// first is buffered, the second raises the unconsumed-operand error
/// carrying the first line's count.
pub proof fn lemma_double_operand_rejected(
    st: InterpModel,
    first: Seq<char>,
    second: Seq<char>,
    n1: usize,
    n2: usize,
)
    requires
        st.pending is None,
        parse_spec(first) == Ok::<Option<Syntax>, ErrorModel>(Some(Syntax::Spaces(n1))),
        parse_spec(second) == Ok::<Option<Syntax>, ErrorModel>(Some(Syntax::Spaces(n2))),
    ensures
        line_step(st, first) == Ok::<InterpModel, ErrorModel>(
            InterpModel { pending: Some(n1), ..st },
        ),
        line_step(InterpModel { pending: Some(n1), ..st }, second) == Err::<
            InterpModel,
            ErrorModel,
        >(ErrorModel::UnconsumedOperand { value: n1 }),
{
}

/// Opcode 6 with an operand of zero always fails with the division-by-zero
/// error, whatever the dividend holds — zero included — and the machine is
/// left unchanged by the failed step.
pub proof fn lemma_divide_by_zero_rejected(st: MachineModel)
    ensures
        machine_step(st, 6, Some(0)) == Err::<MachineModel, ErrorModel>(
            ErrorModel::DivisionByZero,
        ),
{
}

/// Opcode 8 moves the active cell to address `a`: afterwards the cell at `a`
/// holds what the active cell held, the active cell holds zero — also when
/// `a` is the cursor itself, where the value is lost, not kept — and every
/// other cell, the cursor, the mode and the output are untouched.
pub proof fn lemma_move_clears_source(st: MachineModel, a: usize)
    ensures
        machine_step(st, 8, Some(a)) matches Ok(st2) && {
            &&& cell(st2.mem, st.addr) == 0i32
            &&& a != st.addr ==> cell(st2.mem, a) == cell(st.mem, st.addr)
            &&& forall|b: usize|
                b != a && b != st.addr ==> cell(#[trigger] st2.mem, b) == cell(st.mem, b)
            &&& st2.addr == st.addr
            &&& st2.mode == st.mode
            &&& st2.output == st.output
        },
{
}

/// An (opcode, operand-presence) pair outside the dispatch table always
/// fails with the unrecognized-instruction error carrying the pair as given;
/// and no pair inside the table ever raises that error.
pub proof fn lemma_unknown_pair_rejected(st: MachineModel, action: usize, arg: Option<usize>)
    ensures
        !recognized(action, arg) ==> machine_step(st, action, arg) == Err::<
            MachineModel,
            ErrorModel,
        >(ErrorModel::UnrecognizedInstruction { action, arg }),
        recognized(action, arg) ==> !(machine_step(st, action, arg) matches Err(e)
            && e is UnrecognizedInstruction),
{
}

} // verus!
