//! The register operand: a `$` sigil followed by one or more decimal
//! digits, read as an 8-bit index. Leading whitespace is insignificant.

use vstd::prelude::*;

use crate::assembler::Token;
use crate::assembler::spec_digit_run_end;
use crate::assembler::spec_digits_value;
use crate::assembler::spec_skip_ws;
use crate::assembler::scan_number;
use crate::assembler::skip_ws;

verus! {

/// What parsing a register token at `pos` yields: the token and the
/// position just past its digits, or nothing when no register token starts
/// there. A digit run denoting a value above 255 is no token.
pub open spec fn spec_register(s: Seq<u8>, pos: int) -> Option<(Token, int)>
    recommends
        0 <= pos <= s.len(),
{
    let p = spec_skip_ws(s, pos);
    if p < s.len() && s[p] == 36 {
        let d0 = p + 1;
        let end = spec_digit_run_end(s, d0);
        if end == d0 {
            None
        } else {
            let v = spec_digits_value(s, d0, end);
            if v <= 255 {
                Some((Token::Register { number: v as u8 }, end))
            } else {
                None
            }
        }
    } else {
        None
    }
}

/// Parse a register token at `pos`.
pub fn register(s: &[u8], pos: usize) -> (r: Option<(Token, usize)>)
    requires
        pos <= s@.len(),
    ensures
        (match (r, spec_register(s@, pos as int)) {
            (Some(t), Some(st)) => t.0 == st.0 && t.1 == st.1,
            (None, None) => true,
            _ => false,
        }),
        r matches Some(t) ==> pos < t.1 <= s@.len(),
{
    let p: usize = skip_ws(s, pos);
    if p < s.len() && s[p] == 36 {
        let (end, value) = scan_number(s, p + 1, 255);
        if end == p + 1 {
            return None;
        }
        match value {
            Some(v) => Some((Token::Register { number: v as u8 }, end)),
            None => None,
        }
    } else {
        None
    }
}

} // verus!
