//! The mnemonic: a run of one or more letters, mapped case-sensitively to
//! its opcode. Every unrecognized run maps to `IGL`.

use vstd::prelude::*;

use crate::assembler::Token;
use crate::assembler::is_alpha;
use crate::assembler::spec_alpha_run_end;
use crate::instruction::Opcode;

verus! {

/// `m` is exactly the two given letters.
pub open spec fn mnemonic2(m: Seq<u8>, c0: u8, c1: u8) -> bool {
    m.len() == 2 && m[0] == c0 && m[1] == c1
}

/// `m` is exactly the three given letters.
pub open spec fn mnemonic3(m: Seq<u8>, c0: u8, c1: u8, c2: u8) -> bool {
    m.len() == 3 && m[0] == c0 && m[1] == c1 && m[2] == c2
}

/// `m` is exactly the four given letters.
pub open spec fn mnemonic4(m: Seq<u8>, c0: u8, c1: u8, c2: u8, c3: u8) -> bool {
    m.len() == 4 && m[0] == c0 && m[1] == c1 && m[2] == c2 && m[3] == c3
}

/// The opcode a mnemonic names: total over all byte strings, with every
/// unrecognized one mapping to `IGL`.
pub open spec fn spec_opcode_of_mnemonic(m: Seq<u8>) -> Opcode {
    if mnemonic3(m, 104, 108, 116) {
        Opcode::HLT
    } else if mnemonic4(m, 108, 111, 97, 100) {
        Opcode::LOAD
    } else if mnemonic3(m, 97, 100, 100) {
        Opcode::ADD
    } else if mnemonic3(m, 115, 117, 98) {
        Opcode::SUB
    } else if mnemonic3(m, 109, 117, 108) {
        Opcode::MUL
    } else if mnemonic3(m, 100, 105, 118) {
        Opcode::DIV
    } else if mnemonic3(m, 106, 109, 112) {
        Opcode::JMP
    } else if mnemonic4(m, 106, 109, 112, 98) {
        Opcode::JMPB
    } else if mnemonic4(m, 106, 109, 112, 102) {
        Opcode::JMPF
    } else if mnemonic4(m, 106, 109, 112, 99) {
        Opcode::JMPC
    } else if mnemonic2(m, 101, 113) {
        Opcode::EQ
    } else if mnemonic3(m, 110, 101, 113) {
        Opcode::NEQ
    } else if mnemonic2(m, 103, 116) {
        Opcode::GT
    } else if mnemonic2(m, 108, 116) {
        Opcode::LT
    } else if mnemonic3(m, 103, 116, 113) {
        Opcode::GTQ
    } else if mnemonic3(m, 108, 116, 113) {
        Opcode::LTQ
    } else if mnemonic3(m, 110, 111, 112) {
        Opcode::NOP
    } else {
        Opcode::IGL
    }
}

/// The opcode named by the mnemonic `m`, `IGL` for every unrecognized one.
pub fn from_mnemonic(m: &[u8]) -> (op: Opcode)
    ensures
        op == spec_opcode_of_mnemonic(m@),
{
    if m.len() == 2 {
        if m[0] == 101 && m[1] == 113 {
            Opcode::EQ
        } else if m[0] == 103 && m[1] == 116 {
            Opcode::GT
        } else if m[0] == 108 && m[1] == 116 {
            Opcode::LT
        } else {
            Opcode::IGL
        }
    } else if m.len() == 3 {
        if m[0] == 104 && m[1] == 108 && m[2] == 116 {
            Opcode::HLT
        } else if m[0] == 97 && m[1] == 100 && m[2] == 100 {
            Opcode::ADD
        } else if m[0] == 115 && m[1] == 117 && m[2] == 98 {
            Opcode::SUB
        } else if m[0] == 109 && m[1] == 117 && m[2] == 108 {
            Opcode::MUL
        } else if m[0] == 100 && m[1] == 105 && m[2] == 118 {
            Opcode::DIV
        } else if m[0] == 106 && m[1] == 109 && m[2] == 112 {
            Opcode::JMP
        } else if m[0] == 110 && m[1] == 101 && m[2] == 113 {
            Opcode::NEQ
        } else if m[0] == 103 && m[1] == 116 && m[2] == 113 {
            Opcode::GTQ
        } else if m[0] == 108 && m[1] == 116 && m[2] == 113 {
            Opcode::LTQ
        } else if m[0] == 110 && m[1] == 111 && m[2] == 112 {
            Opcode::NOP
        } else {
            Opcode::IGL
        }
    } else if m.len() == 4 {
        if m[0] == 108 && m[1] == 111 && m[2] == 97 && m[3] == 100 {
            Opcode::LOAD
        } else if m[0] == 106 && m[1] == 109 && m[2] == 112 && m[3] == 98 {
            Opcode::JMPB
        } else if m[0] == 106 && m[1] == 109 && m[2] == 112 && m[3] == 102 {
            Opcode::JMPF
        } else if m[0] == 106 && m[1] == 109 && m[2] == 112 && m[3] == 99 {
            Opcode::JMPC
        } else {
            Opcode::IGL
        }
    } else {
        Opcode::IGL
    }
}

/// What parsing a mnemonic at `pos` yields: the opcode token and the
/// position just past the letter run, or nothing when no letter stands at
/// `pos`.
pub open spec fn spec_opcode(s: Seq<u8>, pos: int) -> Option<(Token, int)>
    recommends
        0 <= pos <= s.len(),
{
    let end = spec_alpha_run_end(s, pos);
    if end == pos {
        None
    } else {
        Some((Token::Op { code: spec_opcode_of_mnemonic(s.subrange(pos, end)) }, end))
    }
}

/// Parse a mnemonic at `pos` into an opcode token.
pub fn opcode(s: &[u8], pos: usize) -> (r: Option<(Token, usize)>)
    requires
        pos <= s@.len(),
    ensures
        (match (r, spec_opcode(s@, pos as int)) {
            (Some(t), Some(st)) => t.0 == st.0 && t.1 == st.1,
            (None, None) => true,
            _ => false,
        }),
        r matches Some(t) ==> pos < t.1 <= s@.len(),
{
    let mut end: usize = pos;
    while end < s.len() && ((s[end] >= 65 && s[end] <= 90) || (s[end] >= 97 && s[end] <= 122))
        invariant
            pos <= end <= s@.len(),
            spec_alpha_run_end(s@, pos as int) == spec_alpha_run_end(s@, end as int),
            forall|j: int| pos <= j < end ==> is_alpha(s@[j]),
        decreases s@.len() - end,
    {
        end = end + 1;
    }
    if end == pos {
        None
    } else {
        let code = from_mnemonic(&s[pos..end]);
        Some((Token::Op { code: code }, end))
    }
}

} // verus!
