//! The instruction assembler and run loop. Lines arrive one at a time; an
//! operand line is buffered in a single pending slot, and an opcode line
//! consumes whatever the slot holds (possibly nothing) and executes at once.

use vstd::prelude::*;

use crate::error::ErrorModel;
use crate::error::VmError;
use crate::machine::Machine;
use crate::machine::MachineModel;
use crate::machine::PrintMode;
use crate::machine::machine_step;
use crate::parser::Syntax;
use crate::parser::expect_none;
use crate::parser::parse;
use crate::parser::parse_spec;

verus! {

/// The interpreter: the machine plus the assembler's one slot of pending
/// operand state.
pub struct Interpreter {
    pub machine: Machine,
    pub pending: Option<usize>,
}

/// The interpreter as mathematics.
pub ghost struct InterpModel {
    pub machine: MachineModel,
    pub pending: Option<usize>,
}

impl View for Interpreter {
    type V = InterpModel;

    open spec fn view(&self) -> InterpModel {
        InterpModel { machine: self.machine@, pending: self.pending }
    }
}

/// The interpreter every run starts from: a fresh machine and an empty slot.
pub open spec fn initial_interp() -> InterpModel {
    InterpModel {
        machine: MachineModel {
            mem: Map::<usize, i32>::empty(),
            addr: 0,
            mode: PrintMode::Decimal,
            output: Seq::<char>::empty(),
        },
        pending: None,
    }
}

/// What one input line does to the interpreter: a blank line does nothing,
/// an operand line fills the pending slot (and must find it empty), and an
/// opcode line empties the slot and executes. An error changes nothing.
pub open spec fn line_step(st: InterpModel, line: Seq<char>) -> Result<InterpModel, ErrorModel> {
    match parse_spec(line) {
        Err(e) => Err(e),
        Ok(None) => Ok(st),
        Ok(Some(Syntax::Spaces(n))) => match st.pending {
            Some(v) => Err(ErrorModel::UnconsumedOperand { value: v }),
            None => Ok(InterpModel { pending: Some(n), ..st }),
        },
        Ok(Some(Syntax::Tabs(n))) => match machine_step(st.machine, n, st.pending) {
            Ok(m) => Ok(InterpModel { machine: m, pending: None }),
            Err(e) => Err(e),
        },
    }
}

/// Feeding a whole program, line by line, stopping at the first error. The
/// result is the state reached and the error, if one arose; a pending
/// operand left over at the end of the input is simply discarded.
pub open spec fn run_steps(st: InterpModel, lines: Seq<Seq<char>>) -> (InterpModel, Option<
    ErrorModel,
>)
    decreases lines.len(),
{
    if lines.len() == 0 {
        (st, None)
    } else {
        match line_step(st, lines[0]) {
            Ok(st2) => run_steps(st2, lines.drop_first()),
            Err(e) => (st, Some(e)),
        }
    }
}

impl Interpreter {
    /// A fresh interpreter: a fresh machine and no pending operand.
    pub fn new() -> (it: Interpreter)
        ensures
            it@ == initial_interp(),
    {
        Interpreter { machine: Machine::new(), pending: None }
    }

    /// Consumes one line of input, exactly as [`line_step`] describes: it is
    /// parsed, an operand is buffered, an opcode executes at once. On an
    /// error the interpreter is unchanged.
    pub fn feed_line(&mut self, line: &str) -> (r: Result<(), VmError>)
        ensures
            match line_step(old(self)@, line@) {
                Ok(st) => r is Ok && final(self)@ == st,
                Err(e) => (r matches Err(err) && err@ == e) && final(self)@ == old(self)@,
            },
    {
        match parse(line) {
            Err(e) => Err(e),
            Ok(None) => Ok(()),
            Ok(Some(Syntax::Spaces(n))) => {
                match expect_none(self.pending) {
                    Ok(()) => {
                        self.pending = Some(n);
                        Ok(())
                    },
                    Err(e) => Err(e),
                }
            },
            Ok(Some(Syntax::Tabs(n))) => {
                match self.machine.apply(n, self.pending) {
                    Ok(()) => {
                        self.pending = None;
                        Ok(())
                    },
                    Err(e) => Err(e),
                }
            },
        }
    }
}

impl Default for Interpreter {
    /// The default interpreter is the fresh one of [`Interpreter::new`].
    fn default() -> (it: Interpreter)
        ensures
            it@ == initial_interp(),
    {
        Interpreter::new()
    }
}

/// Runs a whole program against a machine: every line in order, stopping at
/// the first error, whose value rides back beside the machine so that the
/// output printed before the fault still stands.
pub fn run(m: Machine, lines: &Vec<String>) -> (r: (Machine, Option<VmError>))
    ensures
        ({
            let s = run_steps(InterpModel { machine: m@, pending: None }, lines.deep_view());
            &&& r.0@ == s.0.machine
            &&& match s.1 {
                None => r.1 is None,
                Some(e) => r.1 matches Some(err) && err@ == e,
            }
        }),
{
    let ghost all: Seq<Seq<char>> = lines.deep_view();
    let mut it = Interpreter { machine: m, pending: None };
    let ghost init: InterpModel = it@;
    let mut i: usize = 0;
    proof {
        assert(all.skip(0) =~= all);
    }
    while i < lines.len()
        invariant
            i <= lines@.len(),
            all == lines.deep_view(),
            all.len() == lines@.len(),
            init == (InterpModel { machine: m@, pending: None }),
            run_steps(init, all) == run_steps(it@, all.skip(i as int)),
        decreases lines@.len() - i,
    {
        let ghost before: InterpModel = it@;
        let line: &String = &lines[i];
        proof {
            assert(all[i as int] == line@);
            assert(all.skip(i as int)[0] == all[i as int]);
            assert(all.skip(i as int).drop_first() =~= all.skip(i + 1));
        }
        match it.feed_line(line.as_str()) {
            Ok(()) => {},
            Err(e) => {
                proof {
                    assert(run_steps(before, all.skip(i as int)) == (before, Some(e@)));
                }
                let Interpreter { machine, pending: _ } = it;
                return (machine, Some(e));
            },
        }
        i = i + 1;
    }
    proof {
        assert(all.skip(all.len() as int) =~= Seq::<Seq<char>>::empty());
    }
    let Interpreter { machine, pending: _ } = it;
    (machine, None)
}

} // verus!
