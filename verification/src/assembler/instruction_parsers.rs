//! One instruction: a mnemonic, the operands its declared shape asks for,
//! and optional trailing whitespace; and its encoding into bytes.

use vstd::prelude::*;

use crate::assembler::AssemblyError;
use crate::assembler::Token;
use crate::assembler::spec_skip_ws;
use crate::assembler::skip_ws;
use crate::assembler::opcode_parsers::opcode;
use crate::assembler::opcode_parsers::spec_opcode;
use crate::assembler::operand_parsers::integer_operand;
use crate::assembler::operand_parsers::spec_integer_operand;
use crate::assembler::register_parsers::register;
use crate::assembler::register_parsers::spec_register;
use crate::instruction::Opcode;
use crate::instruction::OperandShape;
use crate::instruction::opcode_code;
use crate::instruction::spec_shape_of;

verus! {

/// One parsed instruction: its opcode token and up to three operand
/// tokens, populated in order.
#[derive(Debug, PartialEq, Eq, Clone, Copy)]
pub struct AssemblerInstruction {
    pub opcode: Token,
    pub operand1: Option<Token>,
    pub operand2: Option<Token>,
    pub operand3: Option<Token>,
}

/// An operand slot is empty or holds a register or immediate token, never
/// an opcode.
pub open spec fn operand_slot_wf(t: Option<Token>) -> bool {
    t matches Some(tok) ==> !(tok is Op)
}

/// A structurally sound instruction: an opcode token in the opcode field
/// and only operand tokens in the operand slots.
pub open spec fn instr_wf(i: AssemblerInstruction) -> bool {
    &&& i.opcode is Op
    &&& operand_slot_wf(i.operand1)
    &&& operand_slot_wf(i.operand2)
    &&& operand_slot_wf(i.operand3)
}

/// The bytes an operand token contributes: a register its index byte, an
/// immediate its value truncated to unsigned 16 bits, big-endian.
pub open spec fn token_bytes(t: Token) -> Seq<u8>
    recommends
        !(t is Op),
{
    match t {
        Token::Register { number } => seq![number],
        Token::IntegerOperand { value } => {
            let imm = value as u16;
            seq![(imm / 256) as u8, (imm % 256) as u8]
        },
        Token::Op { .. } => seq![],
    }
}

/// The bytes an operand slot contributes: nothing when empty.
pub open spec fn operand_slot_bytes(t: Option<Token>) -> Seq<u8>
    recommends
        operand_slot_wf(t),
{
    match t {
        Some(tok) => token_bytes(tok),
        None => seq![],
    }
}

/// The encoding of one instruction: its opcode byte, then the bytes of each
/// populated operand slot in order.
pub open spec fn instr_bytes(i: AssemblerInstruction) -> Seq<u8>
    recommends
        instr_wf(i),
{
    seq![opcode_code(i.opcode->code)] + operand_slot_bytes(i.operand1) + operand_slot_bytes(
        i.operand2,
    ) + operand_slot_bytes(i.operand3)
}

impl AssemblerInstruction {
    /// Append the bytes of one operand token to `results`.
    pub fn extract_operand(t: &Token, results: &mut Vec<u8>)
        requires
            !(*t is Op),
        ensures
            final(results)@ == old(results)@ + token_bytes(*t),
    {
        match t {
            Token::Register { number } => {
                results.push(*number);
            },
            Token::IntegerOperand { value } => {
                let converted: u16 = *value as u16;
                results.push((converted / 256) as u8);
                results.push((converted % 256) as u8);
            },
            Token::Op { .. } => {
            },
        }
        proof {
            assert(results@ =~= old(results)@ + token_bytes(*t));
        }
    }

    /// Encode this instruction.
    pub fn to_bytes(&self) -> (r: Vec<u8>)
        requires
            instr_wf(*self),
        ensures
            r@ == instr_bytes(*self),
    {
        let mut results: Vec<u8> = Vec::new();
        match &self.opcode {
            Token::Op { code } => {
                results.push(code.to_byte());
            },
            _ => {
            },
        }
        if let Some(t) = &self.operand1 {
            AssemblerInstruction::extract_operand(t, &mut results);
        }
        if let Some(t) = &self.operand2 {
            AssemblerInstruction::extract_operand(t, &mut results);
        }
        if let Some(t) = &self.operand3 {
            AssemblerInstruction::extract_operand(t, &mut results);
        }
        proof {
            assert(results@ =~= instr_bytes(*self));
        }
        results
    }
}

/// What parsing one operand at `pos` yields: a register token if one starts
/// there, else an immediate token if one starts there, else nothing.
pub open spec fn spec_operand(s: Seq<u8>, pos: int) -> Option<(Token, int)>
    recommends
        0 <= pos <= s.len(),
{
    match spec_register(s, pos) {
        Some(t) => Some(t),
        None => spec_integer_operand(s, pos),
    }
}

/// Parse one operand token at `pos`.
pub fn operand(s: &[u8], pos: usize) -> (r: Option<(Token, usize)>)
    requires
        pos <= s@.len(),
    ensures
        (match (r, spec_operand(s@, pos as int)) {
            (Some(t), Some(st)) => t.0 == st.0 && t.1 == st.1,
            (None, None) => true,
            _ => false,
        }),
        r matches Some(t) ==> pos < t.1 <= s@.len(),
{
    match register(s, pos) {
        Some(t) => Some(t),
        None => integer_operand(s, pos),
    }
}

/// What greedily parsing up to three operands at `pos` yields: the three
/// slots in order and the position after the last token taken.
pub open spec fn spec_operands(s: Seq<u8>, pos: int) -> (
    Option<Token>,
    Option<Token>,
    Option<Token>,
    int,
)
    recommends
        0 <= pos <= s.len(),
{
    match spec_operand(s, pos) {
        None => (None, None, None, pos),
        Some((t1, p1)) => match spec_operand(s, p1) {
            None => (Some(t1), None, None, p1),
            Some((t2, p2)) => match spec_operand(s, p2) {
                None => (Some(t1), Some(t2), None, p2),
                Some((t3, p3)) => (Some(t1), Some(t2), Some(t3), p3),
            },
        },
    }
}

/// Whether the populated operand slots are exactly what `shape` asks for.
pub open spec fn operands_match_shape(
    shape: OperandShape,
    o1: Option<Token>,
    o2: Option<Token>,
    o3: Option<Token>,
) -> bool {
    match shape {
        OperandShape::NoOperands => o1 is None && o2 is None && o3 is None,
        OperandShape::OneRegister => (o1 matches Some(t) && t is Register) && o2 is None
            && o3 is None,
        OperandShape::RegisterImmediate => (o1 matches Some(t1) && t1 is Register) && (
        o2 matches Some(t2)
            && t2 is IntegerOperand) && o3 is None,
        OperandShape::TwoRegisters => (o1 matches Some(t1) && t1 is Register) && (
        o2 matches Some(t2)
            && t2 is Register) && o3 is None,
        OperandShape::ThreeRegisters => (o1 matches Some(t1) && t1 is Register) && (
        o2 matches Some(t2)
            && t2 is Register) && (o3 matches Some(t3) && t3 is Register),
    }
}

/// The operand patterns an unknown mnemonic may carry: any of the supported
/// grammars except the single register, which no alternative of the line
/// grammar admits.
pub open spec fn operands_match_any_shape(
    o1: Option<Token>,
    o2: Option<Token>,
    o3: Option<Token>,
) -> bool {
    ||| operands_match_shape(OperandShape::NoOperands, o1, o2, o3)
    ||| operands_match_shape(OperandShape::RegisterImmediate, o1, o2, o3)
    ||| operands_match_shape(OperandShape::TwoRegisters, o1, o2, o3)
    ||| operands_match_shape(OperandShape::ThreeRegisters, o1, o2, o3)
}

/// An operand slot names no register index above 31.
pub open spec fn operand_register_ok(t: Option<Token>) -> bool {
    t matches Some(tok) ==> (tok matches Token::Register { number } ==> number <= 31)
}

/// What parsing one instruction at `pos` yields. Leading whitespace is
/// skipped; the mnemonic is parsed; the operands are parsed greedily and
/// held against the shape the opcode table declares for the mnemonic;
/// register indices are held to 0..=31; trailing whitespace is consumed.
/// Each error reports the offset at which the instruction begins.
pub open spec fn spec_instruction(s: Seq<u8>, pos: int) -> Result<
    (AssemblerInstruction, int),
    AssemblyError,
>
    recommends
        0 <= pos <= s.len(),
{
    let p = spec_skip_ws(s, pos);
    match spec_opcode(s, p) {
        None => Err(AssemblyError::ParseError { pos: p as usize }),
        Some((optok, q)) => {
            let (o1, o2, o3, r) = spec_operands(s, q);
            let shape_ok = match spec_shape_of(optok->code) {
                Some(shape) => operands_match_shape(shape, o1, o2, o3),
                None => operands_match_any_shape(o1, o2, o3),
            };
            if !shape_ok {
                Err(AssemblyError::ShapeMismatch { pos: p as usize })
            } else if !(operand_register_ok(o1) && operand_register_ok(o2) && operand_register_ok(
                o3,
            )) {
                Err(AssemblyError::RegisterOutOfRange { pos: p as usize })
            } else {
                Ok(
                    (
                        AssemblerInstruction {
                            opcode: optok,
                            operand1: o1,
                            operand2: o2,
                            operand3: o3,
                        },
                        spec_skip_ws(s, r),
                    ),
                )
            }
        },
    }
}

/// Parse one instruction at `pos`.
pub fn instruction(s: &[u8], pos: usize) -> (r: Result<(AssemblerInstruction, usize), AssemblyError>)
    requires
        pos <= s@.len(),
    ensures
        (match (r, spec_instruction(s@, pos as int)) {
            (Ok(t), Ok(st)) => t.0 == st.0 && t.1 == st.1,
            (Err(e), Err(se)) => e == se,
            _ => false,
        }),
        r matches Ok(t) ==> pos < t.1 <= s@.len() && instr_wf(t.0),
{
    let p: usize = skip_ws(s, pos);
    let parsed_opcode = match opcode(s, p) {
        None => {
            return Err(AssemblyError::ParseError { pos: p });
        },
        Some(t) => t,
    };
    let optok = parsed_opcode.0;
    let q: usize = parsed_opcode.1;
    let mut o1: Option<Token> = None;
    let mut o2: Option<Token> = None;
    let mut o3: Option<Token> = None;
    let mut after: usize = q;
    match operand(s, q) {
        None => {
        },
        Some((t1, p1)) => {
            o1 = Some(t1);
            after = p1;
            match operand(s, p1) {
                None => {
                },
                Some((t2, p2)) => {
                    o2 = Some(t2);
                    after = p2;
                    match operand(s, p2) {
                        None => {
                        },
                        Some((t3, p3)) => {
                            o3 = Some(t3);
                            after = p3;
                        },
                    }
                },
            }
        },
    }
    let code = match optok {
        Token::Op { code } => code,
        _ => Opcode::IGL,
    };
    let shape_ok: bool = match code.shape() {
        Some(shape) => check_shape(shape, &o1, &o2, &o3),
        None => check_shape(OperandShape::NoOperands, &o1, &o2, &o3) || check_shape(
            OperandShape::RegisterImmediate,
            &o1,
            &o2,
            &o3,
        ) || check_shape(OperandShape::TwoRegisters, &o1, &o2, &o3) || check_shape(
            OperandShape::ThreeRegisters,
            &o1,
            &o2,
            &o3,
        ),
    };
    if !shape_ok {
        return Err(AssemblyError::ShapeMismatch { pos: p });
    }
    if !(slot_register_ok(&o1) && slot_register_ok(&o2) && slot_register_ok(&o3)) {
        return Err(AssemblyError::RegisterOutOfRange { pos: p });
    }
    let end: usize = skip_ws(s, after);
    Ok((AssemblerInstruction { opcode: optok, operand1: o1, operand2: o2, operand3: o3 }, end))
}

/// Whether the slots carry exactly what `shape` asks for.
fn check_shape(
    shape: OperandShape,
    o1: &Option<Token>,
    o2: &Option<Token>,
    o3: &Option<Token>,
) -> (b: bool)
    ensures
        b == operands_match_shape(shape, *o1, *o2, *o3),
{
    match shape {
        OperandShape::NoOperands => o1.is_none() && o2.is_none() && o3.is_none(),
        OperandShape::OneRegister => slot_is_register(o1) && o2.is_none() && o3.is_none(),
        OperandShape::RegisterImmediate => slot_is_register(o1) && slot_is_immediate(o2)
            && o3.is_none(),
        OperandShape::TwoRegisters => slot_is_register(o1) && slot_is_register(o2) && o3.is_none(),
        OperandShape::ThreeRegisters => slot_is_register(o1) && slot_is_register(o2)
            && slot_is_register(o3),
    }
}

/// Whether the slot holds a register token.
fn slot_is_register(t: &Option<Token>) -> (b: bool)
    ensures
        b == (*t matches Some(tok) && tok is Register),
{
    match t {
        Some(Token::Register { .. }) => true,
        _ => false,
    }
}

/// Whether the slot holds an immediate token.
fn slot_is_immediate(t: &Option<Token>) -> (b: bool)
    ensures
        b == (*t matches Some(tok) && tok is IntegerOperand),
{
    match t {
        Some(Token::IntegerOperand { .. }) => true,
        _ => false,
    }
}

/// Whether the slot names no register index above 31.
fn slot_register_ok(t: &Option<Token>) -> (b: bool)
    ensures
        b == operand_register_ok(*t),
{
    match t {
        Some(Token::Register { number }) => *number <= 31,
        _ => true,
    }
}

} // verus!
