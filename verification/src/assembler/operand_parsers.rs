//! The immediate operand: a `#` sigil, an optional minus sign, and one or
//! more decimal digits, read as a signed 32-bit value. Leading whitespace
//! is insignificant.

use vstd::prelude::*;

use crate::assembler::Token;
use crate::assembler::spec_digit_run_end;
use crate::assembler::spec_digits_value;
use crate::assembler::spec_skip_ws;
use crate::assembler::scan_number;
use crate::assembler::skip_ws;

verus! {

/// What parsing an immediate token at `pos` yields: the token and the
/// position just past its digits, or nothing when no immediate token starts
/// there. A value outside the signed 32-bit range is no token.
pub open spec fn spec_integer_operand(s: Seq<u8>, pos: int) -> Option<(Token, int)>
    recommends
        0 <= pos <= s.len(),
{
    let p = spec_skip_ws(s, pos);
    if p < s.len() && s[p] == 35 {
        let neg = p + 1 < s.len() && s[p + 1] == 45;
        let d0 = if neg {
            p + 2
        } else {
            p + 1
        };
        let end = spec_digit_run_end(s, d0);
        if end == d0 {
            None
        } else {
            let m = spec_digits_value(s, d0, end);
            if neg {
                if m <= 0x8000_0000 {
                    Some((Token::IntegerOperand { value: (-m) as i32 }, end))
                } else {
                    None
                }
            } else {
                if m <= 0x7fff_ffff {
                    Some((Token::IntegerOperand { value: m as i32 }, end))
                } else {
                    None
                }
            }
        }
    } else {
        None
    }
}

/// Parse an immediate token at `pos`.
pub fn integer_operand(s: &[u8], pos: usize) -> (r: Option<(Token, usize)>)
    requires
        pos <= s@.len(),
    ensures
        (match (r, spec_integer_operand(s@, pos as int)) {
            (Some(t), Some(st)) => t.0 == st.0 && t.1 == st.1,
            (None, None) => true,
            _ => false,
        }),
        r matches Some(t) ==> pos < t.1 <= s@.len(),
{
    let p: usize = skip_ws(s, pos);
    if p < s.len() && s[p] == 35 {
        let neg: bool = p + 1 < s.len() && s[p + 1] == 45;
        let d0: usize = if neg {
            p + 2
        } else {
            p + 1
        };
        let (end, magnitude) = scan_number(s, d0, if neg {
            0x8000_0000
        } else {
            0x7fff_ffff
        });
        if end == d0 {
            return None;
        }
        match magnitude {
            Some(m) => {
                if neg {
                    Some((Token::IntegerOperand { value: (-(m as i64)) as i32 }, end))
                } else {
                    Some((Token::IntegerOperand { value: m as i32 }, end))
                }
            },
            None => None,
        }
    } else {
        None
    }
}

} // verus!
