//! The closed error taxonomy of the pipeline. Every error is fatal: the run
//! stops at the first one, and nothing is retried.

use vstd::prelude::*;

verus! {

/// A failure in the parse / assemble / execute pipeline.
#[derive(Debug)]
#[allow(inconsistent_fields)]
pub enum VmError {
    /// A line carried both spaces and tabs.
    MixedLine { spaces: usize, tabs: usize, line: String },
    /// An operand line arrived while an earlier operand was still waiting
    /// for its opcode; the stale value rides along.
    UnconsumedOperand { value: usize },
    /// The (opcode, operand-presence) pair is not in the dispatch table.
    UnrecognizedInstruction { action: usize, arg: Option<usize> },
    /// An operand count, or an arithmetic result, does not fit the signed
    /// cell type.
    ValueConversion,
    /// A cell value rendered in character mode is no Unicode scalar value.
    InvalidCodePoint { value: i32 },
    /// Opcode 6 was asked to divide by an operand of zero.
    DivisionByZero,
}

/// The mathematical shape of a [`VmError`], used by every contract: the
/// offending line becomes a sequence of characters, counts become naturals.
#[allow(inconsistent_fields)]
pub ghost enum ErrorModel {
    MixedLine { spaces: nat, tabs: nat, line: Seq<char> },
    UnconsumedOperand { value: usize },
    UnrecognizedInstruction { action: usize, arg: Option<usize> },
    ValueConversion,
    InvalidCodePoint { value: i32 },
    DivisionByZero,
}

impl View for VmError {
    type V = ErrorModel;

    open spec fn view(&self) -> ErrorModel {
        match self {
            VmError::MixedLine { spaces, tabs, line } => ErrorModel::MixedLine {
                spaces: *spaces as nat,
                tabs: *tabs as nat,
                line: line@,
            },
            VmError::UnconsumedOperand { value } => ErrorModel::UnconsumedOperand {
                value: *value,
            },
            VmError::UnrecognizedInstruction { action, arg } => ErrorModel::UnrecognizedInstruction {
                action: *action,
                arg: *arg,
            },
            VmError::ValueConversion => ErrorModel::ValueConversion,
            VmError::InvalidCodePoint { value } => ErrorModel::InvalidCodePoint { value: *value },
            VmError::DivisionByZero => ErrorModel::DivisionByZero,
        }
    }
}

} // verus!
