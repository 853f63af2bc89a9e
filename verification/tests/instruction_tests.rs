use asmvm::instruction::{Instruction, Opcode};

#[test]
fn test_create_hlt() {
    let test_opcode = Opcode::HLT;
    assert_eq!(test_opcode, Opcode::HLT);
}

#[test]
fn test_create_instruction() {
    let test_instruction = Instruction::new(Opcode::HLT);
    assert_eq!(test_instruction.opcode, Opcode::HLT);
}

#[test]
fn test_opcode_round_trip_all() {
    let opcodes = [
        Opcode::HLT,
        Opcode::LOAD,
        Opcode::ADD,
        Opcode::SUB,
        Opcode::MUL,
        Opcode::DIV,
        Opcode::JMP,
        Opcode::JMPB,
        Opcode::JMPF,
        Opcode::JMPC,
        Opcode::EQ,
        Opcode::NEQ,
        Opcode::GT,
        Opcode::LT,
        Opcode::GTQ,
        Opcode::LTQ,
        Opcode::IGL,
        Opcode::NOP,
    ];
    for op in opcodes {
        assert_eq!(Opcode::from(op.to_byte()), op);
    }
}

#[test]
fn test_opcode_table_bytes() {
    assert_eq!(Opcode::HLT.to_byte(), 0);
    assert_eq!(Opcode::LOAD.to_byte(), 1);
    assert_eq!(Opcode::DIV.to_byte(), 5);
    assert_eq!(Opcode::LTQ.to_byte(), 15);
    assert_eq!(Opcode::NOP.to_byte(), 255);
    assert_eq!(Opcode::from(16), Opcode::IGL);
    assert_eq!(Opcode::from(200), Opcode::IGL);
    assert_eq!(Opcode::from(255), Opcode::NOP);
}
