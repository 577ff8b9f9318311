//! The execution engine: a sparse store of signed cells, a cursor naming the
//! active address, a display mode, and the text the machine has printed so
//! far. One instruction is one `(opcode, optional operand)` pair.

use vstd::prelude::*;

use std::collections::HashMap;

use crate::error::ErrorModel;
use crate::error::VmError;

verus! {

broadcast use vstd::std_specs::hash::group_hash_axioms;

/// How opcode 9 renders the active cell: as a base-10 integer, or as the
/// character whose code point the cell holds.
#[derive(Debug, Clone, Copy, PartialEq, Eq, Structural)]
pub enum PrintMode {
    Decimal,
    ASCII,
}

/// The machine. Unset addresses of the store read as zero, so the store is
/// unbounded in every direction that matters; it grows only when written.
pub struct Machine {
    pub memory: HashMap<usize, i32>,
    pub addr: usize,
    pub print_mode: PrintMode,
    pub output: Vec<char>,
}

/// The machine as mathematics: the store as a partial map (absent keys read
/// as zero), and the printed text as a sequence of characters.
pub ghost struct MachineModel {
    pub mem: Map<usize, i32>,
    pub addr: usize,
    pub mode: PrintMode,
    pub output: Seq<char>,
}

impl View for Machine {
    type V = MachineModel;

    open spec fn view(&self) -> MachineModel {
        MachineModel {
            mem: self.memory@,
            addr: self.addr,
            mode: self.print_mode,
            output: self.output@,
        }
    }
}

/// The value the store holds at `a`: unset addresses read as zero.
pub open spec fn cell(mem: Map<usize, i32>, a: usize) -> i32 {
    if mem.contains_key(a) {
        mem[a]
    } else {
        0i32
    }
}

/// The machine after writing `v` to the active cell.
pub open spec fn stored(st: MachineModel, v: i32) -> MachineModel {
    MachineModel { mem: st.mem.insert(st.addr, v), ..st }
}

/// Truncating (round-toward-zero) division, the division the host machine
/// performs on signed integers. Meaningful for a positive divisor.
pub open spec fn trunc_div(a: int, d: int) -> int {
    if a >= 0 {
        a / d
    } else {
        -((-a) / d)
    }
}

/// Whether a cell value can be rendered as a character: it must be a
/// non-negative Unicode scalar value (no surrogate, at most 0x10FFFF).
pub open spec fn renders_as_char(v: i32) -> bool {
    0 <= v && (v < 0xD800 || (0xE000 <= v && v <= 0x10FFFF))
}

/// The decimal digit character for `d` (meaningful for `d < 10`).
pub open spec fn digit_char(d: nat) -> char {
    if d == 0 {
        '0'
    } else if d == 1 {
        '1'
    } else if d == 2 {
        '2'
    } else if d == 3 {
        '3'
    } else if d == 4 {
        '4'
    } else if d == 5 {
        '5'
    } else if d == 6 {
        '6'
    } else if d == 7 {
        '7'
    } else if d == 8 {
        '8'
    } else {
        '9'
    }
}

/// The decimal digits of `n`, most significant first, no leading zeros
/// (except for `n == 0`, which is the single digit `'0'`).
pub open spec fn dec_digits(n: nat) -> Seq<char>
    decreases n,
{
    if n < 10 {
        seq![digit_char(n)]
    } else {
        dec_digits(n / 10).push(digit_char(n % 10))
    }
}

/// The base-10 rendering of `v`: a minus sign for negatives, then the digits.
pub open spec fn dec_chars(v: int) -> Seq<char> {
    if v < 0 {
        seq!['-'] + dec_digits((-v) as nat)
    } else {
        dec_digits(v as nat)
    }
}

/// The dispatch table's domain: which (opcode, operand-presence) pairs name
/// an instruction at all.
pub open spec fn recognized(action: usize, arg: Option<usize>) -> bool {
    match arg {
        Some(v) => (1 <= action && action <= 8) || (action == 11 && (v == 0 || v == 1)),
        None => action == 9 || action == 10,
    }
}

/// What printing the active cell does: in decimal mode its base-10 text is
/// appended; in character mode the cell must be a Unicode scalar value, and
/// that character is appended.
pub open spec fn render(st: MachineModel) -> Result<MachineModel, ErrorModel> {
    let cur = cell(st.mem, st.addr);
    match st.mode {
        PrintMode::Decimal => Ok(
            MachineModel { output: st.output + dec_chars(cur as int), ..st },
        ),
        PrintMode::ASCII => if renders_as_char(cur) {
            Ok(MachineModel { output: st.output.push((cur as u32) as char), ..st })
        } else {
            Err(ErrorModel::InvalidCodePoint { value: cur })
        },
    }
}

/// An arithmetic opcode (3 add, 4 subtract, 5 multiply, 6 divide) applied to
/// the active cell. A result that does not fit the cell type is a conversion
/// error, never a silent wrap; dividing by zero is its own error.
pub open spec fn arith(st: MachineModel, action: usize, v: i32) -> Result<
    MachineModel,
    ErrorModel,
> {
    let cur = cell(st.mem, st.addr);
    if action == 6 {
        if v == 0 {
            Err(ErrorModel::DivisionByZero)
        } else {
            Ok(stored(st, trunc_div(cur as int, v as int) as i32))
        }
    } else {
        let wide: int = if action == 3 {
            cur + v
        } else if action == 4 {
            cur - v
        } else {
            cur * v
        };
        if wide < i32::MIN || wide > i32::MAX {
            Err(ErrorModel::ValueConversion)
        } else {
            Ok(stored(st, wide as i32))
        }
    }
}

/// One instruction that arrived with an operand.
pub open spec fn machine_step_with(st: MachineModel, action: usize, v: usize) -> Result<
    MachineModel,
    ErrorModel,
> {
    if action == 1 {
        if v > i32::MAX {
            Err(ErrorModel::ValueConversion)
        } else {
            Ok(stored(st, v as i32))
        }
    } else if action == 2 {
        Ok(MachineModel { addr: v, ..st })
    } else if action == 3 || action == 4 || action == 5 || action == 6 {
        if v > i32::MAX {
            Err(ErrorModel::ValueConversion)
        } else {
            arith(st, action, v as i32)
        }
    } else if action == 7 {
        Ok(MachineModel { mem: st.mem.insert(v, cell(st.mem, st.addr)), ..st })
    } else if action == 8 {
        Ok(
            MachineModel {
                mem: st.mem.insert(v, cell(st.mem, st.addr)).insert(st.addr, 0i32),
                ..st
            },
        )
    } else if action == 11 && v == 0 {
        Ok(MachineModel { mode: PrintMode::Decimal, ..st })
    } else if action == 11 && v == 1 {
        Ok(MachineModel { mode: PrintMode::ASCII, ..st })
    } else {
        Err(ErrorModel::UnrecognizedInstruction { action, arg: Some(v) })
    }
}

/// One instruction that arrived without an operand.
pub open spec fn machine_step_plain(st: MachineModel, action: usize) -> Result<
    MachineModel,
    ErrorModel,
> {
    if action == 9 {
        render(st)
    } else if action == 10 {
        Ok(MachineModel { output: st.output.push('\n'), ..st })
    } else {
        Err(ErrorModel::UnrecognizedInstruction { action, arg: None })
    }
}

/// The machine's whole instruction semantics: what one `(opcode, operand)`
/// pair does to a machine state, or which error it raises. An error changes
/// nothing.
pub open spec fn machine_step(st: MachineModel, action: usize, arg: Option<usize>) -> Result<
    MachineModel,
    ErrorModel,
> {
    match arg {
        Some(v) => machine_step_with(st, action, v),
        None => machine_step_plain(st, action),
    }
}

/// Narrows an operand count to a signed cell value; a count beyond the
/// signed range fails explicitly instead of wrapping.
fn to_cell_value(v: usize) -> (r: Result<i32, VmError>)
    ensures
        match r {
            Ok(x) => v <= i32::MAX && x == v as i32,
            Err(e) => v > i32::MAX && e@ == ErrorModel::ValueConversion,
        },
{
    if v <= i32::MAX as usize {
        Ok(v as i32)
    } else {
        Err(VmError::ValueConversion)
    }
}

/// Reinterprets a cell value as the character it names, failing on values
/// that are negative or no Unicode scalar value.
pub fn c(val: i32) -> (r: Result<char, VmError>)
    ensures
        match r {
            Ok(ch) => renders_as_char(val) && ch == (val as u32) as char,
            Err(e) => !renders_as_char(val) && e@ == (ErrorModel::InvalidCodePoint {
                value: val,
            }),
        },
{
    if val < 0 {
        return Err(VmError::InvalidCodePoint { value: val });
    }
    match char_from_u32(val as u32) {
        Some(ch) => {
            proof {
                vstd::utf8::char_u32_cast(ch, val as u32);
            }
            Ok(ch)
        },
        None => Err(VmError::InvalidCodePoint { value: val }),
    }
}

/// Relies on char::from_u32: it returns the character with the given code
/// point, and returns None exactly for surrogates and values above char::MAX.
#[verifier::external_body]
fn char_from_u32(v: u32) -> (r: Option<char>)
    ensures
        r matches Some(ch) ==> ch as u32 == v,
        r is Some <==> (v < 0xD800 || (0xE000 <= v && v <= 0x10FFFF)),
{
    char::from_u32(v)
}

/// The decimal digit character for `d`.
fn digit(d: u64) -> (ch: char)
    requires
        d < 10,
    ensures
        ch == digit_char(d as nat),
{
    if d == 0 {
        '0'
    } else if d == 1 {
        '1'
    } else if d == 2 {
        '2'
    } else if d == 3 {
        '3'
    } else if d == 4 {
        '4'
    } else if d == 5 {
        '5'
    } else if d == 6 {
        '6'
    } else if d == 7 {
        '7'
    } else if d == 8 {
        '8'
    } else {
        '9'
    }
}

/// Appends the decimal digits of `n` to `out`, most significant first.
fn push_dec_digits(out: &mut Vec<char>, n: u64)
    ensures
        final(out)@ == old(out)@ + dec_digits(n as nat),
    decreases n,
{
    if n < 10 {
        out.push(digit(n));
        proof {
            assert(out@ =~= old(out)@ + dec_digits(n as nat));
        }
    } else {
        push_dec_digits(out, n / 10);
        out.push(digit(n % 10));
        proof {
            assert(out@ =~= old(out)@ + dec_digits(n as nat));
        }
    }
}

/// Appends the base-10 rendering of `v` to `out`.
fn push_dec_chars(out: &mut Vec<char>, v: i32)
    ensures
        final(out)@ == old(out)@ + dec_chars(v as int),
{
    if v < 0 {
        out.push('-');
        let m: u64 = (-(v as i64)) as u64;
        push_dec_digits(out, m);
        proof {
            assert(out@ =~= old(out)@ + dec_chars(v as int));
        }
    } else {
        push_dec_digits(out, v as u64);
    }
}

/// Truncating division of a cell value by a positive divisor, computed on
/// magnitudes so that the result matches the host's signed division.
fn div_trunc_cell(a: i32, d: i32) -> (q: i32)
    requires
        d > 0,
    ensures
        q == trunc_div(a as int, d as int),
{
    if a >= 0 {
        let q64: u64 = (a as u64) / (d as u64);
        proof {
            vstd::arithmetic::div_mod::lemma_div_nonincreasing(a as int, d as int);
            vstd::arithmetic::div_mod::lemma_div_pos_is_pos(a as int, d as int);
        }
        q64 as i32
    } else {
        let m: u64 = (-(a as i64)) as u64;
        let q64: u64 = m / (d as u64);
        proof {
            vstd::arithmetic::div_mod::lemma_div_nonincreasing(m as int, d as int);
            vstd::arithmetic::div_mod::lemma_div_pos_is_pos(m as int, d as int);
        }
        (-(q64 as i64)) as i32
    }
}

impl Machine {
    /// A fresh machine: empty store, cursor at address 0, decimal mode, and
    /// nothing printed yet.
    pub fn new() -> (m: Machine)
        ensures
            m@ == (MachineModel {
                mem: Map::<usize, i32>::empty(),
                addr: 0,
                mode: PrintMode::Decimal,
                output: Seq::<char>::empty(),
            }),
    {
        Machine {
            memory: HashMap::new(),
            addr: 0,
            print_mode: PrintMode::Decimal,
            output: Vec::new(),
        }
    }

    /// The value the store holds at `a`; addresses never written read as 0.
    pub fn get_cell(&self, a: usize) -> (v: i32)
        ensures
            v == cell(self@.mem, a),
    {
        match self.memory.get(&a) {
            Some(v) => *v,
            None => 0,
        }
    }

    /// Writes `v` at address `a`, growing the store if the address is new.
    fn set_cell(&mut self, a: usize, v: i32)
        ensures
            final(self)@ == (MachineModel { mem: old(self)@.mem.insert(a, v), ..old(self)@ }),
    {
        let _ = self.memory.insert(a, v);
    }

    /// Executes one instruction against the machine, exactly as
    /// [`machine_step`] describes; on an error the machine is unchanged.
    pub fn apply(&mut self, action: usize, arg: Option<usize>) -> (r: Result<(), VmError>)
        ensures
            match machine_step(old(self)@, action, arg) {
                Ok(st) => r is Ok && final(self)@ == st,
                Err(e) => (r matches Err(err) && err@ == e) && final(self)@ == old(self)@,
            },
    {
        match (action, arg) {
            // 1 - Set the active cell.
            (1, Some(val)) => {
                match to_cell_value(val) {
                    Ok(v) => {
                        let a = self.addr;
                        self.set_cell(a, v);
                        Ok(())
                    },
                    Err(e) => Err(e),
                }
            },
            // 2 - Move the cursor.
            (2, Some(a)) => {
                self.addr = a;
                Ok(())
            },
            // 3, 4, 5 - Add to, subtract from, multiply the active cell.
            (3, Some(val)) | (4, Some(val)) | (5, Some(val)) => {
                match to_cell_value(val) {
                    Ok(v) => {
                        let cur = self.get_cell(self.addr);
                        let wide: i64 = if action == 3 {
                            (cur as i64) + (v as i64)
                        } else if action == 4 {
                            (cur as i64) - (v as i64)
                        } else {
                            proof {
                                assert((-0x4000_0000_0000_0000 <= (cur as int) * (v as int)
                                    <= 0x4000_0000_0000_0000) && (cur as int) * (v as int) == (
                                cur as i64 as int) * (v as i64 as int)) by (nonlinear_arith)
                                    requires
                                        -0x8000_0000 <= cur as int <= 0x7fff_ffff,
                                        0 <= v as int <= 0x7fff_ffff,
                                ;
                            }
                            (cur as i64) * (v as i64)
                        };
                        if wide < i32::MIN as i64 || wide > i32::MAX as i64 {
                            Err(VmError::ValueConversion)
                        } else {
                            let a = self.addr;
                            self.set_cell(a, wide as i32);
                            Ok(())
                        }
                    },
                    Err(e) => Err(e),
                }
            },
            // 6 - Divide the active cell.
            (6, Some(val)) => {
                match to_cell_value(val) {
                    Ok(d) => {
                        if d == 0 {
                            Err(VmError::DivisionByZero)
                        } else {
                            let cur = self.get_cell(self.addr);
                            let q = div_trunc_cell(cur, d);
                            let a = self.addr;
                            self.set_cell(a, q);
                            Ok(())
                        }
                    },
                    Err(e) => Err(e),
                }
            },
            // 7 - Copy the active cell to the given address.
            (7, Some(a)) => {
                let cur = self.get_cell(self.addr);
                self.set_cell(a, cur);
                Ok(())
            },
            // 8 - Move the active cell to the given address, clearing it.
            (8, Some(a)) => {
                let cur = self.get_cell(self.addr);
                self.set_cell(a, cur);
                let here = self.addr;
                self.set_cell(here, 0);
                Ok(())
            },
            // 9 - Print the active cell in the current display mode.
            (9, None) => {
                let cur = self.get_cell(self.addr);
                match self.print_mode {
                    PrintMode::Decimal => {
                        push_dec_chars(&mut self.output, cur);
                        Ok(())
                    },
                    PrintMode::ASCII => {
                        match c(cur) {
                            Ok(ch) => {
                                self.output.push(ch);
                                Ok(())
                            },
                            Err(e) => Err(e),
                        }
                    },
                }
            },
            // 10 - Print a line break.
            (10, None) => {
                self.output.push('\n');
                Ok(())
            },
            // 11 - Switch the display mode: 0 decimal, 1 character.
            (11, Some(0)) => {
                self.print_mode = PrintMode::Decimal;
                Ok(())
            },
            (11, Some(1)) => {
                self.print_mode = PrintMode::ASCII;
                Ok(())
            },
            _ => Err(VmError::UnrecognizedInstruction { action, arg }),
        }
    }
}

impl Default for Machine {
    /// The default machine is the fresh machine of [`Machine::new`].
    fn default() -> (m: Machine)
        ensures
            m@ == (MachineModel {
                mem: Map::<usize, i32>::empty(),
                addr: 0,
                mode: PrintMode::Decimal,
                output: Seq::<char>::empty(),
            }),
    {
        Machine::new()
    }
}

} // verus!
