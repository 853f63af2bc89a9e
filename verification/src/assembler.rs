//! The assembler pipeline: tokens, the line grammar, and the encoder from
//! parsed instructions to the byte stream the virtual machine executes.
//!
//! The text is handled as bytes; the grammar is pure ASCII. Each spec
//! function here pins down one lexical element: where a run ends and what
//! value it denotes.

pub mod instruction_parsers;
pub mod opcode_parsers;
pub mod operand_parsers;
pub mod program_parsers;
pub mod register_parsers;

use vstd::prelude::*;

use crate::instruction::Opcode;

verus! {

/// One lexical element of an assembly line.
#[derive(Debug, PartialEq, Eq, Clone, Copy)]
pub enum Token {
    Op { code: Opcode },
    Register { number: u8 },
    IntegerOperand { value: i32 },
}

/// A compile-time error: assembly is aborted wholesale, no bytes are
/// emitted. Each variant carries the byte offset in the source at which the
/// offending instruction begins.
#[derive(Debug, PartialEq, Eq, Clone, Copy)]
pub enum AssemblyError {
    /// No instruction can be parsed at this position.
    ParseError { pos: usize },
    /// The operands present do not match the shape the opcode table
    /// declares for the mnemonic.
    ShapeMismatch { pos: usize },
    /// A register operand names an index outside 0..=31.
    RegisterOutOfRange { pos: usize },
}

/// Whitespace between tokens: space, tab, newline, carriage return.
pub open spec fn is_space(c: u8) -> bool {
    c == 32 || c == 9 || c == 10 || c == 13
}

/// An ASCII decimal digit.
pub open spec fn is_digit(c: u8) -> bool {
    48 <= c <= 57
}

/// An ASCII letter.
pub open spec fn is_alpha(c: u8) -> bool {
    (65 <= c <= 90) || (97 <= c <= 122)
}

/// The first position at or after `pos` that does not hold whitespace.
pub open spec fn spec_skip_ws(s: Seq<u8>, pos: int) -> int
    recommends
        0 <= pos <= s.len(),
    decreases s.len() - pos,
{
    if pos < s.len() && is_space(s[pos]) {
        spec_skip_ws(s, pos + 1)
    } else {
        pos
    }
}

/// The end of the digit run starting at `pos`.
pub open spec fn spec_digit_run_end(s: Seq<u8>, pos: int) -> int
    recommends
        0 <= pos <= s.len(),
    decreases s.len() - pos,
{
    if pos < s.len() && is_digit(s[pos]) {
        spec_digit_run_end(s, pos + 1)
    } else {
        pos
    }
}

/// The end of the letter run starting at `pos`.
pub open spec fn spec_alpha_run_end(s: Seq<u8>, pos: int) -> int
    recommends
        0 <= pos <= s.len(),
    decreases s.len() - pos,
{
    if pos < s.len() && is_alpha(s[pos]) {
        spec_alpha_run_end(s, pos + 1)
    } else {
        pos
    }
}

/// The decimal value of the digits `s[start..end]`.
pub open spec fn spec_digits_value(s: Seq<u8>, start: int, end: int) -> int
    recommends
        0 <= start <= end <= s.len(),
    decreases end - start,
{
    if start >= end {
        0
    } else {
        spec_digits_value(s, start, end - 1) * 10 + (s[end - 1] - 48)
    }
}

/// Advance past whitespace.
pub fn skip_ws(s: &[u8], pos: usize) -> (r: usize)
    requires
        pos <= s@.len(),
    ensures
        r == spec_skip_ws(s@, pos as int),
        pos <= r <= s@.len(),
{
    let mut i: usize = pos;
    while i < s.len() && (s[i] == 32 || s[i] == 9 || s[i] == 10 || s[i] == 13)
        invariant
            pos <= i <= s@.len(),
            spec_skip_ws(s@, pos as int) == spec_skip_ws(s@, i as int),
        decreases s@.len() - i,
    {
        i = i + 1;
    }
    i
}

/// Scan the digit run starting at `pos`: its end, and its decimal value
/// where that value does not exceed `limit`.
pub fn scan_number(s: &[u8], pos: usize, limit: u32) -> (r: (usize, Option<u32>))
    requires
        pos <= s@.len(),
    ensures
        r.0 == spec_digit_run_end(s@, pos as int),
        pos <= r.0 <= s@.len(),
        (match r.1 {
            Some(v) => spec_digits_value(s@, pos as int, r.0 as int) == v && v <= limit,
            None => spec_digits_value(s@, pos as int, r.0 as int) > limit,
        }),
{
    let mut i: usize = pos;
    let mut acc: u32 = 0;
    let mut over: bool = false;
    while i < s.len() && s[i] >= 48 && s[i] <= 57
        invariant
            pos <= i <= s@.len(),
            limit <= u32::MAX,
            spec_digit_run_end(s@, pos as int) == spec_digit_run_end(s@, i as int),
            spec_digits_value(s@, pos as int, i as int) >= 0,
            !over ==> acc == spec_digits_value(s@, pos as int, i as int) && acc <= limit,
            over ==> spec_digits_value(s@, pos as int, i as int) > limit,
        decreases s@.len() - i,
    {
        let d: u8 = s[i] - 48;
        proof {
            assert(spec_digits_value(s@, pos as int, i as int + 1) == spec_digits_value(
                s@,
                pos as int,
                i as int,
            ) * 10 + d);
        }
        if !over {
            let t: u64 = (acc as u64) * 10 + (d as u64);
            if t > limit as u64 {
                over = true;
            } else {
                acc = t as u32;
            }
        }
        i = i + 1;
    }
    (i, if over {
        None
    } else {
        Some(acc)
    })
}

} // verus!
