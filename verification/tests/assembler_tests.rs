use asmvm::assembler::instruction_parsers::{instruction, AssemblerInstruction};
use asmvm::assembler::opcode_parsers::opcode;
use asmvm::assembler::operand_parsers::integer_operand;
use asmvm::assembler::program_parsers::{assemble, program};
use asmvm::assembler::register_parsers::register;
use asmvm::assembler::{AssemblyError, Token};
use asmvm::instruction::Opcode;

#[test]
fn test_parse_instruction_load() {
    let src = b"load $0 #100\n";
    let result = instruction(src, 0);
    assert_eq!(
        result,
        Ok((
            AssemblerInstruction {
                opcode: Token::Op { code: Opcode::LOAD },
                operand1: Some(Token::Register { number: 0 }),
                operand2: Some(Token::IntegerOperand { value: 100 }),
                operand3: None,
            },
            src.len(),
        ))
    );
}

#[test]
fn test_parse_instruction_halt() {
    let src = b"hlt\n";
    let result = instruction(src, 0);
    assert_eq!(
        result,
        Ok((
            AssemblerInstruction {
                opcode: Token::Op { code: Opcode::HLT },
                operand1: None,
                operand2: None,
                operand3: None,
            },
            src.len(),
        ))
    );
}

#[test]
fn test_parse_instruction_mul() {
    let src = b"mul $1 $2 $3\n";
    let result = instruction(src, 0);
    assert_eq!(
        result,
        Ok((
            AssemblerInstruction {
                opcode: Token::Op { code: Opcode::MUL },
                operand1: Some(Token::Register { number: 1 }),
                operand2: Some(Token::Register { number: 2 }),
                operand3: Some(Token::Register { number: 3 }),
            },
            src.len(),
        ))
    );
}

#[test]
fn test_parse_instruction_lt() {
    let src = b"lt $1 $2\n eq $1 $2\n load $1 #123";
    let result = instruction(src, 0);
    let (parsed, _rest) = result.unwrap();
    assert_eq!(
        parsed,
        AssemblerInstruction {
            opcode: Token::Op { code: Opcode::LT },
            operand1: Some(Token::Register { number: 1 }),
            operand2: Some(Token::Register { number: 2 }),
            operand3: None,
        }
    );
}

#[test]
fn opcode_parsers_test_opcode_load() {
    let result = opcode(b"load", 0);
    assert_eq!(result.is_some(), true);

    let (token, rest) = result.unwrap();
    assert_eq!(token, Token::Op { code: Opcode::LOAD });
    assert_eq!(rest, 4);

    let result = opcode(b"aold", 0);
    let (token, _rest) = result.unwrap();
    assert_eq!(token, Token::Op { code: Opcode::IGL });
}

#[test]
fn test_parse_integer_operand() {
    let result = integer_operand(b"#146", 0);
    assert_eq!(result.is_some(), true);
    let (token, _rest) = result.unwrap();
    assert_eq!(token, Token::IntegerOperand { value: 146 });
    let result = integer_operand(b"55#", 0);
    assert_eq!(result.is_some(), false);
    let result = integer_operand(b"#", 0);
    assert_eq!(result.is_some(), false);
}

#[test]
fn test_parse_register() {
    let result = register(b"$0", 0);
    assert_eq!(result.is_some(), true);
    let (token, _rest) = result.unwrap();
    assert_eq!(token, Token::Register { number: 0 });
    let result = register(b"0$", 0);
    assert_eq!(result.is_some(), false);
    let result = register(b"$a", 0);
    assert_eq!(result.is_some(), false);
    let result = register(b"$23", 0);
    let (token, _rest) = result.unwrap();
    assert_eq!(token, Token::Register { number: 23 });
}

#[test]
fn test_parse_program() {
    let result = program(b"load $0 #100\n\n");
    assert_eq!(result.is_ok(), true);
    let parsed = result.unwrap();
    assert_eq!(1, parsed.instructions.len());
}

#[test]
fn test_program_to_bytes() {
    let result = program(b"load $0 #100\nload $1 #500\n");
    let parsed = result.unwrap();
    assert_eq!(parsed.to_bytes(), [1, 0, 0, 100, 1, 1, 1, 244]);
}

#[test]
fn test_other_program_to_bytes() {
    let result = program(b"load $0 #100\nload $1 #500\ndiv $0 $1 $3\nltq $0 $1\nhlt");
    let parsed = result.unwrap();
    assert_eq!(
        parsed.to_bytes(),
        [
            1, 0, 0, 100, //
            1, 1, 1, 244, //
            5, 0, 1, 3, //
            15, 0, 1, //
            0, //
        ]
    );
}

#[test]
fn test_register_token_above_byte_range() {
    assert_eq!(register(b"$300", 0), None);
    assert_eq!(register(b"$255", 0), Some((Token::Register { number: 255 }, 4)));
}

#[test]
fn test_malformed_register_is_an_error() {
    let result = assemble("load $a #100");
    assert_eq!(result, Err(AssemblyError::ShapeMismatch { pos: 0 }));
}

#[test]
fn test_bare_operand_is_an_error() {
    let result = assemble("$1");
    assert_eq!(result, Err(AssemblyError::ParseError { pos: 0 }));
}

#[test]
fn test_register_out_of_range_is_an_error() {
    let result = assemble("load $40 #1");
    assert_eq!(result, Err(AssemblyError::RegisterOutOfRange { pos: 0 }));
}

#[test]
fn test_missing_operand_is_a_shape_mismatch() {
    assert_eq!(assemble("add $1 $2"), Err(AssemblyError::ShapeMismatch { pos: 0 }));
    assert_eq!(assemble("jmp $1 $2"), Err(AssemblyError::ShapeMismatch { pos: 0 }));
}

#[test]
fn test_empty_source_is_an_error() {
    assert_eq!(assemble(""), Err(AssemblyError::ParseError { pos: 0 }));
    assert_eq!(assemble("  \n\n"), Err(AssemblyError::ParseError { pos: 0 }));
}

#[test]
fn test_unknown_mnemonic_encodes_illegal() {
    let bytes = assemble("xyz\nhlt").unwrap();
    assert_eq!(bytes, vec![16, 0]);
}

#[test]
fn test_unknown_mnemonic_with_one_register_is_an_error() {
    assert_eq!(assemble("foo $1"), Err(AssemblyError::ShapeMismatch { pos: 0 }));
}

#[test]
fn test_negative_immediate_encoding() {
    let bytes = assemble("load $0 #-5\nhlt").unwrap();
    assert_eq!(bytes, vec![1, 0, 255, 251, 0]);
}

#[test]
fn test_large_immediate_truncates_to_16_bits() {
    let bytes = assemble("load $0 #70000\nhlt").unwrap();
    assert_eq!(bytes, vec![1, 0, 17, 112, 0]);
}

#[test]
fn test_immediate_outside_i32_is_an_error() {
    assert!(assemble("load $0 #3000000000").is_err());
}
