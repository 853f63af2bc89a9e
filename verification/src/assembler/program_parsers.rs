//! A whole program: one instruction after another until the source is
//! exhausted, and its encoding into the flat byte stream.

use vstd::prelude::*;
use vstd::string::StringSliceAdditionalSpecFns;

use crate::assembler::AssemblyError;
use crate::assembler::spec_skip_ws;
use crate::assembler::skip_ws;
use crate::assembler::instruction_parsers::AssemblerInstruction;
use crate::assembler::instruction_parsers::instr_bytes;
use crate::assembler::instruction_parsers::instr_wf;
use crate::assembler::instruction_parsers::instruction;
use crate::assembler::instruction_parsers::spec_instruction;

verus! {

/// An ordered list of parsed instructions; the order is execution order and
/// is preserved through encoding.
#[derive(Debug, PartialEq, Eq)]
pub struct Program {
    pub instructions: Vec<AssemblerInstruction>,
}

/// Every instruction of the list is structurally sound.
pub open spec fn program_wf(instrs: Seq<AssemblerInstruction>) -> bool {
    forall|i: int| 0 <= i < instrs.len() ==> instr_wf(#[trigger] instrs[i])
}

/// The encoding of an instruction list: the bytes of each instruction, in
/// instruction order, with no padding and no framing.
pub open spec fn program_bytes(instrs: Seq<AssemblerInstruction>) -> Seq<u8>
    recommends
        program_wf(instrs),
    decreases instrs.len(),
{
    if instrs.len() == 0 {
        seq![]
    } else {
        program_bytes(instrs.drop_last()) + instr_bytes(instrs.last())
    }
}

/// What parsing every remaining instruction from `pos` on yields: the
/// instruction list, or the first error. The source is exhausted when only
/// whitespace remains. A parse that consumed nothing cannot occur; the
/// guard keeps the recursion well founded.
pub open spec fn spec_program_from(s: Seq<u8>, pos: int) -> Result<
    Seq<AssemblerInstruction>,
    AssemblyError,
>
    recommends
        0 <= pos <= s.len(),
    decreases s.len() - pos,
{
    if spec_skip_ws(s, pos) >= s.len() {
        Ok(seq![])
    } else {
        match spec_instruction(s, pos) {
            Err(e) => Err(e),
            Ok((instr, end)) => if pos < end <= s.len() {
                match spec_program_from(s, end) {
                    Err(e) => Err(e),
                    Ok(rest) => Ok(seq![instr] + rest),
                }
            } else {
                Err(AssemblyError::ParseError { pos: pos as usize })
            },
        }
    }
}

/// What assembling a whole source yields: the parsed program, which must
/// hold at least one instruction, or the first error.
pub open spec fn spec_program(s: Seq<u8>) -> Result<Seq<AssemblerInstruction>, AssemblyError> {
    match spec_program_from(s, 0) {
        Err(e) => Err(e),
        Ok(instrs) => if instrs.len() == 0 {
            Err(AssemblyError::ParseError { pos: 0 })
        } else {
            Ok(instrs)
        },
    }
}

/// What assembling a whole source into bytes yields.
pub open spec fn spec_assemble(s: Seq<u8>) -> Result<Seq<u8>, AssemblyError> {
    match spec_program(s) {
        Err(e) => Err(e),
        Ok(instrs) => Ok(program_bytes(instrs)),
    }
}

impl Program {
    /// Encode the program: the bytes of each instruction, in order.
    pub fn to_bytes(&self) -> (r: Vec<u8>)
        requires
            program_wf(self.instructions@),
        ensures
            r@ == program_bytes(self.instructions@),
    {
        let mut program: Vec<u8> = Vec::new();
        let mut idx: usize = 0;
        while idx < self.instructions.len()
            invariant
                idx <= self.instructions@.len(),
                program_wf(self.instructions@),
                program@ == program_bytes(self.instructions@.take(idx as int)),
            decreases self.instructions@.len() - idx,
        {
            let mut bytes = self.instructions[idx].to_bytes();
            program.append(&mut bytes);
            idx = idx + 1;
            proof {
                assert(self.instructions@.take(idx as int).drop_last() =~= self.instructions@.take(
                    idx as int - 1,
                ));
            }
        }
        proof {
            assert(self.instructions@.take(self.instructions@.len() as int)
                =~= self.instructions@);
        }
        program
    }
}

/// Parse a whole source into a program: instructions until only whitespace
/// remains, at least one of them.
pub fn program(s: &[u8]) -> (r: Result<Program, AssemblyError>)
    ensures
        (match (r, spec_program(s@)) {
            (Ok(p), Ok(instrs)) => p.instructions@ == instrs,
            (Err(e), Err(se)) => e == se,
            _ => false,
        }),
        r matches Ok(p) ==> program_wf(p.instructions@),
{
    let mut instrs: Vec<AssemblerInstruction> = Vec::new();
    let mut pos: usize = 0;
    loop
        invariant
            pos <= s@.len(),
            program_wf(instrs@),
            (match spec_program_from(s@, pos as int) {
                Ok(rest) => spec_program_from(s@, 0) == Ok::<_, AssemblyError>(instrs@ + rest),
                Err(e) => spec_program_from(s@, 0) == Err::<Seq<AssemblerInstruction>, _>(e),
            }),
        ensures
            program_wf(instrs@),
            spec_program_from(s@, 0) == Ok::<_, AssemblyError>(instrs@),
        decreases s@.len() - pos,
    {
        let ws: usize = skip_ws(s, pos);
        if ws >= s.len() {
            proof {
                assert(instrs@ + Seq::<AssemblerInstruction>::empty() =~= instrs@);
            }
            break;
        }
        match instruction(s, pos) {
            Err(e) => {
                return Err(e);
            },
            Ok((instr, end)) => {
                proof {
                    assert(instrs@.push(instr) + (match spec_program_from(s@, end as int) {
                        Ok(rest) => rest,
                        Err(_) => Seq::<AssemblerInstruction>::empty(),
                    }) =~= instrs@ + (seq![instr] + (match spec_program_from(s@, end as int) {
                        Ok(rest) => rest,
                        Err(_) => Seq::<AssemblerInstruction>::empty(),
                    })));
                }
                instrs.push(instr);
                pos = end;
            },
        }
    }
    if instrs.len() == 0 {
        return Err(AssemblyError::ParseError { pos: 0 });
    }
    Ok(Program { instructions: instrs })
}

/// Assemble a whole source text into the byte stream the virtual machine
/// executes. Assembly is aborted wholesale on the first error; no partial
/// bytecode is emitted.
pub fn assemble(code: &str) -> (r: Result<Vec<u8>, AssemblyError>)
    ensures
        (match (r, spec_assemble(code.spec_bytes())) {
            (Ok(v), Ok(sv)) => v@ == sv,
            (Err(e), Err(se)) => e == se,
            _ => false,
        }),
{
    let bytes: &[u8] = code.as_bytes();
    match program(bytes) {
        Err(e) => Err(e),
        Ok(p) => Ok(p.to_bytes()),
    }
}

} // verus!
