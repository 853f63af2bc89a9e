//! The opcode table: the closed set of operations, their fixed byte codes,
//! and the operand shape each opcode requires.

use vstd::prelude::*;

verus! {

/// An operation the virtual machine can execute.
///
/// `IGL` is the sentinel for every byte value and mnemonic outside the table.
#[derive(Debug, PartialEq, Eq, Clone, Copy)]
pub enum Opcode {
    HLT,
    LOAD,
    ADD,
    SUB,
    MUL,
    DIV,
    JMP,
    JMPB,
    JMPF,
    JMPC,
    EQ,
    NEQ,
    GT,
    LT,
    GTQ,
    LTQ,
    IGL,
    NOP,
}

/// The operand pattern an instruction carries: registers are one byte each,
/// an immediate is two bytes.
#[derive(Debug, PartialEq, Eq, Clone, Copy)]
pub enum OperandShape {
    NoOperands,
    OneRegister,
    RegisterImmediate,
    TwoRegisters,
    ThreeRegisters,
}

/// The fixed byte code that encodes an opcode.
pub open spec fn opcode_code(op: Opcode) -> u8 {
    match op {
        Opcode::HLT => 0,
        Opcode::LOAD => 1,
        Opcode::ADD => 2,
        Opcode::SUB => 3,
        Opcode::MUL => 4,
        Opcode::DIV => 5,
        Opcode::JMP => 6,
        Opcode::JMPB => 7,
        Opcode::JMPF => 8,
        Opcode::JMPC => 9,
        Opcode::EQ => 10,
        Opcode::NEQ => 11,
        Opcode::GT => 12,
        Opcode::LT => 13,
        Opcode::GTQ => 14,
        Opcode::LTQ => 15,
        Opcode::IGL => 16,
        Opcode::NOP => 255,
    }
}

/// The opcode a byte decodes to: total over all 256 byte values, with every
/// value outside the table mapping to `IGL`.
pub open spec fn opcode_of_byte(b: u8) -> Opcode {
    if b == 0 {
        Opcode::HLT
    } else if b == 1 {
        Opcode::LOAD
    } else if b == 2 {
        Opcode::ADD
    } else if b == 3 {
        Opcode::SUB
    } else if b == 4 {
        Opcode::MUL
    } else if b == 5 {
        Opcode::DIV
    } else if b == 6 {
        Opcode::JMP
    } else if b == 7 {
        Opcode::JMPB
    } else if b == 8 {
        Opcode::JMPF
    } else if b == 9 {
        Opcode::JMPC
    } else if b == 10 {
        Opcode::EQ
    } else if b == 11 {
        Opcode::NEQ
    } else if b == 12 {
        Opcode::GT
    } else if b == 13 {
        Opcode::LT
    } else if b == 14 {
        Opcode::GTQ
    } else if b == 15 {
        Opcode::LTQ
    } else if b == 255 {
        Opcode::NOP
    } else {
        Opcode::IGL
    }
}

/// The operand shape the table declares for an opcode; `IGL` declares none.
pub open spec fn spec_shape_of(op: Opcode) -> Option<OperandShape> {
    match op {
        Opcode::HLT => Some(OperandShape::NoOperands),
        Opcode::NOP => Some(OperandShape::NoOperands),
        Opcode::JMP => Some(OperandShape::OneRegister),
        Opcode::JMPB => Some(OperandShape::OneRegister),
        Opcode::JMPF => Some(OperandShape::OneRegister),
        Opcode::JMPC => Some(OperandShape::OneRegister),
        Opcode::LOAD => Some(OperandShape::RegisterImmediate),
        Opcode::EQ => Some(OperandShape::TwoRegisters),
        Opcode::NEQ => Some(OperandShape::TwoRegisters),
        Opcode::GT => Some(OperandShape::TwoRegisters),
        Opcode::LT => Some(OperandShape::TwoRegisters),
        Opcode::GTQ => Some(OperandShape::TwoRegisters),
        Opcode::LTQ => Some(OperandShape::TwoRegisters),
        Opcode::ADD => Some(OperandShape::ThreeRegisters),
        Opcode::SUB => Some(OperandShape::ThreeRegisters),
        Opcode::MUL => Some(OperandShape::ThreeRegisters),
        Opcode::DIV => Some(OperandShape::ThreeRegisters),
        Opcode::IGL => None,
    }
}

/// How many operand bytes a shape occupies in the byte stream.
pub open spec fn shape_operand_len(s: OperandShape) -> nat {
    match s {
        OperandShape::NoOperands => 0,
        OperandShape::OneRegister => 1,
        OperandShape::RegisterImmediate => 3,
        OperandShape::TwoRegisters => 2,
        OperandShape::ThreeRegisters => 3,
    }
}

impl Opcode {
    /// The byte this opcode encodes to.
    pub fn to_byte(self) -> (b: u8)
        ensures
            b == opcode_code(self),
    {
        match self {
            Opcode::HLT => 0,
            Opcode::LOAD => 1,
            Opcode::ADD => 2,
            Opcode::SUB => 3,
            Opcode::MUL => 4,
            Opcode::DIV => 5,
            Opcode::JMP => 6,
            Opcode::JMPB => 7,
            Opcode::JMPF => 8,
            Opcode::JMPC => 9,
            Opcode::EQ => 10,
            Opcode::NEQ => 11,
            Opcode::GT => 12,
            Opcode::LT => 13,
            Opcode::GTQ => 14,
            Opcode::LTQ => 15,
            Opcode::IGL => 16,
            Opcode::NOP => 255,
        }
    }

    /// The operand shape the table declares for this opcode, `None` for `IGL`.
    pub fn shape(self) -> (s: Option<OperandShape>)
        ensures
            s == spec_shape_of(self),
    {
        match self {
            Opcode::HLT => Some(OperandShape::NoOperands),
            Opcode::NOP => Some(OperandShape::NoOperands),
            Opcode::JMP => Some(OperandShape::OneRegister),
            Opcode::JMPB => Some(OperandShape::OneRegister),
            Opcode::JMPF => Some(OperandShape::OneRegister),
            Opcode::JMPC => Some(OperandShape::OneRegister),
            Opcode::LOAD => Some(OperandShape::RegisterImmediate),
            Opcode::EQ => Some(OperandShape::TwoRegisters),
            Opcode::NEQ => Some(OperandShape::TwoRegisters),
            Opcode::GT => Some(OperandShape::TwoRegisters),
            Opcode::LT => Some(OperandShape::TwoRegisters),
            Opcode::GTQ => Some(OperandShape::TwoRegisters),
            Opcode::LTQ => Some(OperandShape::TwoRegisters),
            Opcode::ADD => Some(OperandShape::ThreeRegisters),
            Opcode::SUB => Some(OperandShape::ThreeRegisters),
            Opcode::MUL => Some(OperandShape::ThreeRegisters),
            Opcode::DIV => Some(OperandShape::ThreeRegisters),
            Opcode::IGL => None,
        }
    }
}

impl From<u8> for Opcode {
    /// The total decoding of a byte: table values map to their opcode,
    /// 255 to `NOP`, everything else to `IGL`.
    fn from(v: u8) -> (op: Opcode) {
        if v == 0 {
            Opcode::HLT
        } else if v == 1 {
            Opcode::LOAD
        } else if v == 2 {
            Opcode::ADD
        } else if v == 3 {
            Opcode::SUB
        } else if v == 4 {
            Opcode::MUL
        } else if v == 5 {
            Opcode::DIV
        } else if v == 6 {
            Opcode::JMP
        } else if v == 7 {
            Opcode::JMPB
        } else if v == 8 {
            Opcode::JMPF
        } else if v == 9 {
            Opcode::JMPC
        } else if v == 10 {
            Opcode::EQ
        } else if v == 11 {
            Opcode::NEQ
        } else if v == 12 {
            Opcode::GT
        } else if v == 13 {
            Opcode::LT
        } else if v == 14 {
            Opcode::GTQ
        } else if v == 15 {
            Opcode::LTQ
        } else if v == 255 {
            Opcode::NOP
        } else {
            Opcode::IGL
        }
    }
}

impl vstd::std_specs::convert::FromSpecImpl<u8> for Opcode {
    open spec fn obeys_from_spec() -> bool {
        true
    }

    open spec fn from_spec(v: u8) -> Opcode {
        opcode_of_byte(v)
    }
}

/// Round trip through the opcode table: every opcode decodes back from the
/// byte it encodes to.
pub proof fn lemma_opcode_round_trip(op: Opcode)
    ensures
        opcode_of_byte(opcode_code(op)) == op,
{
}

/// A decoded instruction as the virtual machine sees it: its opcode.
#[derive(Debug, PartialEq, Eq, Clone, Copy)]
pub struct Instruction {
    pub opcode: Opcode,
}

impl Instruction {
    pub fn new(opcode: Opcode) -> (i: Instruction)
        ensures
            i.opcode == opcode,
    {
        Instruction { opcode: opcode }
    }
}

} // verus!
