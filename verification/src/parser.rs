//! The line parser. A line means nothing but its whitespace: its count of
//! spaces is an operand, its count of tabs an opcode, and a line with neither
//! is blank. A line with both is malformed.

use vstd::prelude::*;
use vstd::string::StrSliceExecFns;

use crate::error::ErrorModel;
use crate::error::VmError;

verus! {

/// One classified input line: an operand (count of spaces) or an opcode
/// (count of tabs).
#[derive(Debug, Clone, Copy, PartialEq, Eq, Structural)]
pub enum Syntax {
    Spaces(usize),
    Tabs(usize),
}

/// How many times `ch` occurs in `line`.
pub open spec fn count_char(line: Seq<char>, ch: char) -> nat
    decreases line.len(),
{
    if line.len() == 0 {
        0
    } else {
        count_char(line.drop_last(), ch) + if line.last() == ch {
            1nat
        } else {
            0nat
        }
    }
}

/// The parser's whole result policy, as a function of the line's characters:
/// blank lines yield no token, space-only lines an operand, tab-only lines an
/// opcode, and a line with both counts fails, reporting both counts and the
/// line itself.
pub open spec fn parse_spec(line: Seq<char>) -> Result<Option<Syntax>, ErrorModel> {
    let spaces = count_char(line, ' ');
    let tabs = count_char(line, '\t');
    if spaces == 0 && tabs == 0 {
        Ok(None)
    } else if tabs == 0 {
        Ok(Some(Syntax::Spaces(spaces as usize)))
    } else if spaces == 0 {
        Ok(Some(Syntax::Tabs(tabs as usize)))
    } else {
        Err(ErrorModel::MixedLine { spaces, tabs, line })
    }
}

/// Classifies one line of text (without its newline). Every character is
/// scanned; anything that is not a space or a tab is filler and is ignored.
pub fn parse(line: &str) -> (r: Result<Option<Syntax>, VmError>)
    ensures
        match r {
            Ok(token) => parse_spec(line@) == Ok::<Option<Syntax>, ErrorModel>(token),
            Err(e) => parse_spec(line@) matches Err(em) && em == e@,
        },
{
    let len: usize = line.unicode_len();
    let mut spaces: usize = 0;
    let mut tabs: usize = 0;
    let mut i: usize = 0;
    while i < len
        invariant
            i <= len,
            len as nat == line@.len(),
            spaces + tabs <= i,
            spaces == count_char(line@.take(i as int), ' '),
            tabs == count_char(line@.take(i as int), '\t'),
        decreases len - i,
    {
        let ch = line.get_char(i);
        proof {
            assert(line@.take(i + 1).drop_last() =~= line@.take(i as int));
            assert(line@.take(i + 1).last() == line@[i as int]);
        }
        if ch == ' ' {
            spaces = spaces + 1;
        } else if ch == '\t' {
            tabs = tabs + 1;
        }
        i = i + 1;
    }
    proof {
        assert(line@.take(len as int) =~= line@);
    }
    if spaces == 0 && tabs == 0 {
        Ok(None)
    } else if tabs == 0 {
        Ok(Some(Syntax::Spaces(spaces)))
    } else if spaces == 0 {
        Ok(Some(Syntax::Tabs(tabs)))
    } else {
        Err(VmError::MixedLine { spaces, tabs, line: line.to_owned() })
    }
}

/// Guards the assembler's single operand slot: a slot still holding a value
/// when a new operand arrives is a fatal error carrying the stale value.
pub fn expect_none(o: Option<usize>) -> (r: Result<(), VmError>)
    ensures
        match o {
            None => r is Ok,
            Some(v) => r matches Err(e) && e@ == (ErrorModel::UnconsumedOperand { value: v }),
        },
{
    match o {
        None => Ok(()),
        Some(v) => Err(VmError::UnconsumedOperand { value: v }),
    }
}

} // verus!
