//! The virtual machine: a file of 32 signed 32-bit registers, a program
//! counter, a remainder register, a conditional flag, and the owned byte
//! stream, driven by a fetch-decode-execute loop.

use vstd::prelude::*;
use vstd::pervasive::VecAdditionalExecFns;

use crate::instruction::Opcode;
use crate::instruction::opcode_code;
use crate::instruction::opcode_of_byte;

verus! {

broadcast use vstd::std_specs::vec::group_vec_axioms;

/// The mathematical state of a machine: what the contracts speak of.
#[verifier::ext_equal]
pub ghost struct VMView {
    pub regs: Seq<i32>,
    pub pc: nat,
    pub program: Seq<u8>,
    pub remainder: u32,
    pub conditional: bool,
    pub halted: bool,
}

/// A machine state is well formed when it has exactly 32 registers.
pub open spec fn vm_wf(v: VMView) -> bool {
    v.regs.len() == 32
}

/// Why execution faulted.
#[derive(Debug, PartialEq, Eq, Clone, Copy)]
pub enum FaultKind {
    /// The decoded opcode byte is outside the table.
    IllegalOpcode,
    /// A `div` instruction named a divisor register holding 0.
    DivisionByZero,
    /// An operand named a register index outside 0..=31.
    RegisterOutOfRange,
    /// A jump or a truncated instruction moved the program counter outside
    /// the byte stream.
    ProgramCounterOutOfRange,
    /// A backward jump retreated past offset 0.
    JumpUnderflow,
}

/// A run-time fault: its kind and the byte offset of the instruction that
/// raised it.
#[derive(Debug, PartialEq, Eq, Clone, Copy)]
pub struct Fault {
    pub kind: FaultKind,
    pub pc: usize,
}

/// What a single execution step did.
#[derive(Debug, PartialEq, Eq, Clone, Copy)]
pub enum StepOutcome {
    Continued,
    Halted,
    Faulted(Fault),
}

/// How a run ended: `Running` means the step budget was exhausted first.
#[derive(Debug, PartialEq, Eq, Clone, Copy)]
pub enum RunOutcome {
    Halted,
    Faulted(Fault),
    Running,
}

/// The two-byte big-endian immediate starting at offset `i`.
pub open spec fn read_imm16(s: Seq<u8>, i: int) -> u16
    recommends
        0 <= i,
        i + 2 <= s.len(),
{
    (s[i] as int * 256 + s[i + 1] as int) as u16
}

/// The signed 32-bit wraparound result of an arithmetic opcode.
pub open spec fn arith_result(op: Opcode, a: i32, b: i32) -> i32
    recommends
        op == Opcode::ADD || op == Opcode::SUB || op == Opcode::MUL,
{
    match op {
        Opcode::ADD => a.wrapping_add(b),
        Opcode::SUB => a.wrapping_sub(b),
        Opcode::MUL => a.wrapping_mul(b),
        _ => 0,
    }
}

/// The boolean relation a comparison opcode computes.
pub open spec fn cmp_result(op: Opcode, a: i32, b: i32) -> bool
    recommends
        op == Opcode::EQ || op == Opcode::NEQ || op == Opcode::GT || op == Opcode::LT
            || op == Opcode::GTQ || op == Opcode::LTQ,
{
    match op {
        Opcode::EQ => a == b,
        Opcode::NEQ => a != b,
        Opcode::GT => a > b,
        Opcode::LT => a < b,
        Opcode::GTQ => a >= b,
        Opcode::LTQ => a <= b,
        _ => false,
    }
}

/// The quotient of signed division truncated toward zero, with the one
/// overflowing case (`i32::MIN / -1`) wrapping back to `i32::MIN`.
pub open spec fn trunc_div(a: i32, b: i32) -> i32
    recommends
        b != 0,
{
    match a.checked_div(b) {
        Some(q) => q,
        None => i32::MIN,
    }
}

/// The remainder of signed division, taking the sign of the dividend, with
/// the one overflowing case (`i32::MIN % -1`) yielding 0.
pub open spec fn trunc_rem(a: i32, b: i32) -> i32
    recommends
        b != 0,
{
    match a.checked_rem(b) {
        Some(r) => r,
        None => 0,
    }
}

/// The state and outcome after a jump whose byte offset lands at `target`,
/// where `after` is the offset just past the jump's operand and `at` the
/// offset of its opcode. A negative target faults with `neg_kind` and leaves
/// the counter at `after`; a target beyond the end of the program faults with
/// the counter left at the attempted target (saturated at `usize::MAX`).
pub open spec fn jump_step(
    v: VMView,
    after: int,
    target: int,
    at: int,
    neg_kind: FaultKind,
) -> (VMView, StepOutcome) {
    if target < 0 {
        (
            (VMView { pc: after as nat, halted: true, ..v }),
            StepOutcome::Faulted(Fault { kind: neg_kind, pc: at as usize }),
        )
    } else if target > v.program.len() {
        (
            (VMView {
                pc: if target > usize::MAX { usize::MAX as nat } else { target as nat },
                halted: true,
                ..v
            }),
            StepOutcome::Faulted(
                Fault { kind: FaultKind::ProgramCounterOutOfRange, pc: at as usize },
            ),
        )
    } else {
        ((VMView { pc: target as nat, ..v }), StepOutcome::Continued)
    }
}

/// The faulted state with the counter at `pc` and a fault raised by the
/// instruction at `at`.
pub open spec fn fault_step(v: VMView, pc: int, kind: FaultKind, at: int) -> (VMView,
    StepOutcome,
) {
    (
        (VMView { pc: pc as nat, halted: true, ..v }),
        StepOutcome::Faulted(Fault { kind: kind, pc: at as usize }),
    )
}

/// One execution step: fetch the opcode at the program counter, consume its
/// operand bytes, and apply its effect. Total over every machine state; a
/// step on a halted machine, and a fetch at or past the end of the program,
/// leave the state unchanged but for the halt flag.
pub open spec fn spec_step(v: VMView) -> (VMView, StepOutcome)
    recommends
        vm_wf(v),
{
    if v.halted {
        (v, StepOutcome::Halted)
    } else if v.pc >= v.program.len() {
        ((VMView { halted: true, ..v }), StepOutcome::Halted)
    } else {
        let p = v.pc as int;
        let len = v.program.len() as int;
        let op = opcode_of_byte(v.program[p]);
        match op {
            Opcode::HLT => ((VMView { pc: (p + 1) as nat, halted: true, ..v }), StepOutcome::Halted),
            Opcode::NOP => ((VMView { pc: (p + 1) as nat, ..v }), StepOutcome::Continued),
            Opcode::IGL => fault_step(v, p + 1, FaultKind::IllegalOpcode, p),
            Opcode::LOAD => {
                if p + 4 > len {
                    fault_step(v, p + 1, FaultKind::ProgramCounterOutOfRange, p)
                } else {
                    let r = v.program[p + 1];
                    let imm = read_imm16(v.program, p + 2);
                    if r >= 32 {
                        fault_step(v, p + 4, FaultKind::RegisterOutOfRange, p)
                    } else {
                        (
                            (VMView {
                                pc: (p + 4) as nat,
                                regs: v.regs.update(r as int, imm as i32),
                                ..v
                            }),
                            StepOutcome::Continued,
                        )
                    }
                }
            },
            Opcode::ADD | Opcode::SUB | Opcode::MUL => {
                if p + 4 > len {
                    fault_step(v, p + 1, FaultKind::ProgramCounterOutOfRange, p)
                } else {
                    let r1 = v.program[p + 1];
                    let r2 = v.program[p + 2];
                    let r3 = v.program[p + 3];
                    if r1 >= 32 || r2 >= 32 || r3 >= 32 {
                        fault_step(v, p + 4, FaultKind::RegisterOutOfRange, p)
                    } else {
                        (
                            (VMView {
                                pc: (p + 4) as nat,
                                regs: v.regs.update(
                                    r3 as int,
                                    arith_result(op, v.regs[r1 as int], v.regs[r2 as int]),
                                ),
                                ..v
                            }),
                            StepOutcome::Continued,
                        )
                    }
                }
            },
            Opcode::DIV => {
                if p + 4 > len {
                    fault_step(v, p + 1, FaultKind::ProgramCounterOutOfRange, p)
                } else {
                    let r1 = v.program[p + 1];
                    let r2 = v.program[p + 2];
                    let r3 = v.program[p + 3];
                    if r1 >= 32 || r2 >= 32 || r3 >= 32 {
                        fault_step(v, p + 4, FaultKind::RegisterOutOfRange, p)
                    } else if v.regs[r2 as int] == 0 {
                        fault_step(v, p + 4, FaultKind::DivisionByZero, p)
                    } else {
                        let a = v.regs[r1 as int];
                        let b = v.regs[r2 as int];
                        (
                            (VMView {
                                pc: (p + 4) as nat,
                                regs: v.regs.update(r3 as int, trunc_div(a, b)),
                                remainder: trunc_rem(a, b) as u32,
                                ..v
                            }),
                            StepOutcome::Continued,
                        )
                    }
                }
            },
            Opcode::EQ | Opcode::NEQ | Opcode::GT | Opcode::LT | Opcode::GTQ | Opcode::LTQ => {
                if p + 3 > len {
                    fault_step(v, p + 1, FaultKind::ProgramCounterOutOfRange, p)
                } else {
                    let r1 = v.program[p + 1];
                    let r2 = v.program[p + 2];
                    if r1 >= 32 || r2 >= 32 {
                        fault_step(v, p + 3, FaultKind::RegisterOutOfRange, p)
                    } else {
                        (
                            (VMView {
                                pc: (p + 3) as nat,
                                conditional: cmp_result(op, v.regs[r1 as int], v.regs[r2 as int]),
                                ..v
                            }),
                            StepOutcome::Continued,
                        )
                    }
                }
            },
            Opcode::JMP => {
                if p + 2 > len {
                    fault_step(v, p + 1, FaultKind::ProgramCounterOutOfRange, p)
                } else {
                    let r = v.program[p + 1];
                    if r >= 32 {
                        fault_step(v, p + 2, FaultKind::RegisterOutOfRange, p)
                    } else {
                        jump_step(
                            v,
                            p + 2,
                            v.regs[r as int] as int,
                            p,
                            FaultKind::ProgramCounterOutOfRange,
                        )
                    }
                }
            },
            Opcode::JMPC => {
                if p + 2 > len {
                    fault_step(v, p + 1, FaultKind::ProgramCounterOutOfRange, p)
                } else {
                    let r = v.program[p + 1];
                    if r >= 32 {
                        fault_step(v, p + 2, FaultKind::RegisterOutOfRange, p)
                    } else if v.conditional {
                        jump_step(
                            v,
                            p + 2,
                            v.regs[r as int] as int,
                            p,
                            FaultKind::ProgramCounterOutOfRange,
                        )
                    } else {
                        ((VMView { pc: (p + 2) as nat, ..v }), StepOutcome::Continued)
                    }
                }
            },
            Opcode::JMPF => {
                if p + 2 > len {
                    fault_step(v, p + 1, FaultKind::ProgramCounterOutOfRange, p)
                } else {
                    let r = v.program[p + 1];
                    if r >= 32 {
                        fault_step(v, p + 2, FaultKind::RegisterOutOfRange, p)
                    } else {
                        jump_step(
                            v,
                            p + 2,
                            p + 2 + v.regs[r as int],
                            p,
                            FaultKind::ProgramCounterOutOfRange,
                        )
                    }
                }
            },
            Opcode::JMPB => {
                if p + 2 > len {
                    fault_step(v, p + 1, FaultKind::ProgramCounterOutOfRange, p)
                } else {
                    let r = v.program[p + 1];
                    if r >= 32 {
                        fault_step(v, p + 2, FaultKind::RegisterOutOfRange, p)
                    } else {
                        jump_step(v, p + 2, p + 2 - v.regs[r as int], p, FaultKind::JumpUnderflow)
                    }
                }
            },
        }
    }
}

/// Repeated stepping: up to `fuel` steps, stopping early at a halt or a
/// fault. `Running` reports an exhausted budget with the machine still
/// willing to continue.
pub open spec fn spec_run(v: VMView, fuel: nat) -> (VMView, RunOutcome)
    decreases fuel,
{
    if fuel == 0 {
        (v, RunOutcome::Running)
    } else {
        let stepped = spec_step(v);
        match stepped.1 {
            StepOutcome::Continued => spec_run(stepped.0, (fuel - 1) as nat),
            StepOutcome::Halted => (stepped.0, RunOutcome::Halted),
            StepOutcome::Faulted(f) => (stepped.0, RunOutcome::Faulted(f)),
        }
    }
}

/// Law: for every pair of valid register indices and every pair of register
/// values, executing an `add` instruction writes the sum of the two source
/// registers into the destination register with signed 32-bit wraparound
/// semantics, advances the program counter by exactly 4 bytes, and
/// continues.
pub proof fn lemma_add_semantics(v: VMView, r1: u8, r2: u8, r3: u8)
    requires
        vm_wf(v),
        !v.halted,
        r1 < 32,
        r2 < 32,
        r3 < 32,
        v.pc + 4 <= v.program.len(),
        v.program[v.pc as int] == opcode_code(Opcode::ADD),
        v.program[v.pc as int + 1] == r1,
        v.program[v.pc as int + 2] == r2,
        v.program[v.pc as int + 3] == r3,
    ensures
        spec_step(v).1 == StepOutcome::Continued,
        spec_step(v).0.pc == v.pc + 4,
        spec_step(v).0.regs == v.regs.update(
            r3 as int,
            v.regs[r1 as int].wrapping_add(v.regs[r2 as int]),
        ),
        spec_step(v).0.conditional == v.conditional,
        spec_step(v).0.remainder == v.remainder,
        !spec_step(v).0.halted,
        ({
            let a = v.regs[r1 as int] as int;
            let b = v.regs[r2 as int] as int;
            let written = spec_step(v).0.regs[r3 as int] as int;
            written == if a + b > i32::MAX {
                a + b - 0x1_0000_0000
            } else if a + b < i32::MIN {
                a + b + 0x1_0000_0000
            } else {
                a + b
            }
        }),
{
}

/// Law: a `div` instruction whose divisor register holds 0 raises a fault of
/// kind `DivisionByZero` at the instruction's offset and mutates neither the
/// destination register nor any other register, nor the remainder register;
/// the machine halts.
pub proof fn lemma_div_by_zero_faults(v: VMView, r1: u8, r2: u8, r3: u8)
    requires
        vm_wf(v),
        !v.halted,
        r1 < 32,
        r2 < 32,
        r3 < 32,
        v.pc + 4 <= v.program.len(),
        v.program[v.pc as int] == opcode_code(Opcode::DIV),
        v.program[v.pc as int + 1] == r1,
        v.program[v.pc as int + 2] == r2,
        v.program[v.pc as int + 3] == r3,
        v.regs[r2 as int] == 0i32,
    ensures
        spec_step(v).1 == StepOutcome::Faulted(
            Fault { kind: FaultKind::DivisionByZero, pc: v.pc as usize },
        ),
        spec_step(v).0.regs == v.regs,
        spec_step(v).0.remainder == v.remainder,
        spec_step(v).0.conditional == v.conditional,
        spec_step(v).0.pc == v.pc + 4,
        spec_step(v).0.halted,
{
}

/// Law: when the conditional flag is false, a `jmpc` instruction is a no-op
/// apart from operand consumption: the program counter advances by exactly
/// the instruction's 2 bytes, and registers and flags keep their values.
pub proof fn lemma_jmpc_not_taken(v: VMView, r: u8)
    requires
        vm_wf(v),
        !v.halted,
        r < 32,
        !v.conditional,
        v.pc + 2 <= v.program.len(),
        v.program[v.pc as int] == opcode_code(Opcode::JMPC),
        v.program[v.pc as int + 1] == r,
    ensures
        spec_step(v).1 == StepOutcome::Continued,
        spec_step(v).0 == (VMView { pc: (v.pc + 2) as nat, ..v }),
{
}

/// The virtual machine. State is reached only through its methods; the
/// contracts speak of the mathematical view `self@`.
pub struct VM {
    registers: Vec<i32>,
    pc: usize,
    program: Vec<u8>,
    remainder: u32,
    conditional: bool,
    halted: bool,
}

impl View for VM {
    type V = VMView;

    closed spec fn view(&self) -> VMView {
        VMView {
            regs: self.registers@,
            pc: self.pc as nat,
            program: self.program@,
            remainder: self.remainder,
            conditional: self.conditional,
            halted: self.halted,
        }
    }
}

impl VM {
    /// The machine invariant: exactly 32 registers.
    pub open spec fn inv(&self) -> bool {
        vm_wf(self@)
    }

    /// A fresh machine: registers zeroed, counter at 0, no program, flag
    /// false, remainder 0, running.
    pub fn new() -> (vm: VM)
        ensures
            vm.inv(),
            vm@.regs == Seq::new(32, |i: int| 0i32),
            vm@.pc == 0,
            vm@.program == Seq::<u8>::empty(),
            vm@.remainder == 0u32,
            vm@.conditional == false,
            vm@.halted == false,
    {
        let mut registers: Vec<i32> = Vec::new();
        let mut i: usize = 0;
        while i < 32
            invariant
                i <= 32,
                registers@ =~= Seq::new(i as nat, |_j: int| 0i32),
            decreases 32 - i,
        {
            registers.push(0);
            i = i + 1;
        }
        proof {
            assert(registers@ =~= Seq::new(32, |i: int| 0i32));
        }
        VM { registers, pc: 0, program: Vec::new(), remainder: 0, conditional: false, halted: false }
    }

    /// Hand the machine the byte stream to execute. Registers, flags and the
    /// counter keep their values.
    pub fn load_program(&mut self, program: Vec<u8>)
        ensures
            final(self)@ == (VMView { program: program@, ..old(self)@ }),
    {
        self.program = program;
    }

    /// The value of register `idx`.
    pub fn get_register(&self, idx: usize) -> (value: i32)
        requires
            self.inv(),
            idx < 32,
        ensures
            value == self@.regs[idx as int],
    {
        self.registers[idx]
    }

    /// Overwrite register `idx`.
    pub fn set_register(&mut self, idx: usize, value: i32)
        requires
            old(self).inv(),
            idx < 32,
        ensures
            final(self)@ == (VMView {
                regs: old(self)@.regs.update(idx as int, value),
                ..old(self)@
            }),
    {
        self.registers.set(idx, value);
    }

    /// The program counter: the byte offset of the next fetch.
    pub fn pc(&self) -> (pc: usize)
        ensures
            pc == self@.pc,
    {
        self.pc
    }

    /// Move the program counter.
    pub fn set_pc(&mut self, pc: usize)
        ensures
            final(self)@ == (VMView { pc: pc as nat, ..old(self)@ }),
    {
        self.pc = pc;
    }

    /// The length in bytes of the loaded program.
    pub fn program_len(&self) -> (n: usize)
        ensures
            n == self@.program.len(),
    {
        self.program.len()
    }

    /// The remainder of the most recent division.
    pub fn remainder(&self) -> (r: u32)
        ensures
            r == self@.remainder,
    {
        self.remainder
    }

    /// The conditional flag set by the most recent comparison.
    pub fn conditional(&self) -> (c: bool)
        ensures
            c == self@.conditional,
    {
        self.conditional
    }

    /// Overwrite the conditional flag.
    pub fn set_conditional(&mut self, conditional: bool)
        ensures
            final(self)@ == (VMView { conditional: conditional, ..old(self)@ }),
    {
        self.conditional = conditional;
    }

    /// Whether the machine has reached its terminal state.
    pub fn is_halted(&self) -> (h: bool)
        ensures
            h == self@.halted,
    {
        self.halted
    }

    /// Fetch the byte at the program counter as an opcode and advance the
    /// counter past it.
    pub fn decode_opcode(&mut self) -> (opcode: Opcode)
        requires
            old(self)@.pc < old(self)@.program.len(),
        ensures
            opcode == opcode_of_byte(old(self)@.program[old(self)@.pc as int]),
            final(self)@ == (VMView { pc: old(self)@.pc + 1, ..old(self)@ }),
    {
        proof {
            vstd::std_specs::vec::axiom_spec_len(&self.program);
        }
        let opcode = Opcode::from(self.program[self.pc]);
        self.pc = self.pc + 1;
        opcode
    }

    /// Consume one operand byte.
    fn next_8_bits(&mut self) -> (b: u8)
        requires
            old(self)@.pc < old(self)@.program.len(),
        ensures
            b == old(self)@.program[old(self)@.pc as int],
            final(self)@ == (VMView { pc: old(self)@.pc + 1, ..old(self)@ }),
    {
        proof {
            vstd::std_specs::vec::axiom_spec_len(&self.program);
        }
        let result = self.program[self.pc];
        self.pc = self.pc + 1;
        result
    }

    /// Consume a two-byte big-endian operand.
    fn next_16_bits(&mut self) -> (w: u16)
        requires
            old(self)@.pc + 2 <= old(self)@.program.len(),
        ensures
            w == read_imm16(old(self)@.program, old(self)@.pc as int),
            final(self)@ == (VMView { pc: old(self)@.pc + 2, ..old(self)@ }),
    {
        proof {
            vstd::std_specs::vec::axiom_spec_len(&self.program);
        }
        let hi: u8 = self.program[self.pc];
        let lo: u8 = self.program[self.pc + 1];
        self.pc = self.pc + 2;
        (hi as u16) * 256 + (lo as u16)
    }

    /// One execution step, exactly as `spec_step` describes it: fetch the
    /// opcode at the counter, consume its operand bytes, apply its effect.
    pub fn execute_instruction(&mut self) -> (out: StepOutcome)
        requires
            old(self).inv(),
        ensures
            final(self).inv(),
            final(self)@ == spec_step(old(self)@).0,
            out == spec_step(old(self)@).1,
    {
        proof {
            vstd::std_specs::vec::axiom_spec_len(&self.program);
        }
        if self.halted {
            return StepOutcome::Halted;
        }
        if self.pc >= self.program.len() {
            self.halted = true;
            return StepOutcome::Halted;
        }
        let at: usize = self.pc;
        let opcode = self.decode_opcode();
        match opcode {
            Opcode::HLT => {
                self.halted = true;
                StepOutcome::Halted
            },
            Opcode::NOP => StepOutcome::Continued,
            Opcode::IGL => {
                self.halted = true;
                StepOutcome::Faulted(Fault { kind: FaultKind::IllegalOpcode, pc: at })
            },
            Opcode::LOAD => {
                if self.program.len() - self.pc < 3 {
                    self.halted = true;
                    return StepOutcome::Faulted(
                        Fault { kind: FaultKind::ProgramCounterOutOfRange, pc: at },
                    );
                }
                let register: usize = self.next_8_bits() as usize;
                let number: u16 = self.next_16_bits();
                if register >= 32 {
                    self.halted = true;
                    return StepOutcome::Faulted(
                        Fault { kind: FaultKind::RegisterOutOfRange, pc: at },
                    );
                }
                self.registers.set(register, number as i32);
                StepOutcome::Continued
            },
            Opcode::ADD | Opcode::SUB | Opcode::MUL => {
                if self.program.len() - self.pc < 3 {
                    self.halted = true;
                    return StepOutcome::Faulted(
                        Fault { kind: FaultKind::ProgramCounterOutOfRange, pc: at },
                    );
                }
                let r1: usize = self.next_8_bits() as usize;
                let r2: usize = self.next_8_bits() as usize;
                let r3: usize = self.next_8_bits() as usize;
                if r1 >= 32 || r2 >= 32 || r3 >= 32 {
                    self.halted = true;
                    return StepOutcome::Faulted(
                        Fault { kind: FaultKind::RegisterOutOfRange, pc: at },
                    );
                }
                let a: i32 = self.registers[r1];
                let b: i32 = self.registers[r2];
                let result: i32 = match opcode {
                    Opcode::ADD => a.wrapping_add(b),
                    Opcode::SUB => a.wrapping_sub(b),
                    Opcode::MUL => a.wrapping_mul(b),
                    _ => 0,
                };
                self.registers.set(r3, result);
                StepOutcome::Continued
            },
            Opcode::DIV => {
                if self.program.len() - self.pc < 3 {
                    self.halted = true;
                    return StepOutcome::Faulted(
                        Fault { kind: FaultKind::ProgramCounterOutOfRange, pc: at },
                    );
                }
                let r1: usize = self.next_8_bits() as usize;
                let r2: usize = self.next_8_bits() as usize;
                let r3: usize = self.next_8_bits() as usize;
                if r1 >= 32 || r2 >= 32 || r3 >= 32 {
                    self.halted = true;
                    return StepOutcome::Faulted(
                        Fault { kind: FaultKind::RegisterOutOfRange, pc: at },
                    );
                }
                let a: i32 = self.registers[r1];
                let b: i32 = self.registers[r2];
                if b == 0 {
                    self.halted = true;
                    return StepOutcome::Faulted(Fault { kind: FaultKind::DivisionByZero, pc: at });
                }
                let quotient: i32 = match a.checked_div(b) {
                    Some(q) => q,
                    None => i32::MIN,
                };
                let rem: i32 = match a.checked_rem(b) {
                    Some(r) => r,
                    None => 0,
                };
                self.registers.set(r3, quotient);
                self.remainder = rem as u32;
                StepOutcome::Continued
            },
            Opcode::EQ | Opcode::NEQ | Opcode::GT | Opcode::LT | Opcode::GTQ | Opcode::LTQ => {
                if self.program.len() - self.pc < 2 {
                    self.halted = true;
                    return StepOutcome::Faulted(
                        Fault { kind: FaultKind::ProgramCounterOutOfRange, pc: at },
                    );
                }
                let r1: usize = self.next_8_bits() as usize;
                let r2: usize = self.next_8_bits() as usize;
                if r1 >= 32 || r2 >= 32 {
                    self.halted = true;
                    return StepOutcome::Faulted(
                        Fault { kind: FaultKind::RegisterOutOfRange, pc: at },
                    );
                }
                let a: i32 = self.registers[r1];
                let b: i32 = self.registers[r2];
                self.conditional = match opcode {
                    Opcode::EQ => a == b,
                    Opcode::NEQ => a != b,
                    Opcode::GT => a > b,
                    Opcode::LT => a < b,
                    Opcode::GTQ => a >= b,
                    Opcode::LTQ => a <= b,
                    _ => false,
                };
                StepOutcome::Continued
            },
            Opcode::JMP | Opcode::JMPC => {
                if self.program.len() - self.pc < 1 {
                    self.halted = true;
                    return StepOutcome::Faulted(
                        Fault { kind: FaultKind::ProgramCounterOutOfRange, pc: at },
                    );
                }
                let r: usize = self.next_8_bits() as usize;
                if r >= 32 {
                    self.halted = true;
                    return StepOutcome::Faulted(
                        Fault { kind: FaultKind::RegisterOutOfRange, pc: at },
                    );
                }
                let take: bool = match opcode {
                    Opcode::JMP => true,
                    _ => self.conditional,
                };
                if !take {
                    return StepOutcome::Continued;
                }
                let target: i32 = self.registers[r];
                if target < 0 {
                    self.halted = true;
                    return StepOutcome::Faulted(
                        Fault { kind: FaultKind::ProgramCounterOutOfRange, pc: at },
                    );
                }
                let t: usize = target as usize;
                if t > self.program.len() {
                    self.pc = t;
                    self.halted = true;
                    return StepOutcome::Faulted(
                        Fault { kind: FaultKind::ProgramCounterOutOfRange, pc: at },
                    );
                }
                self.pc = t;
                StepOutcome::Continued
            },
            Opcode::JMPF => {
                if self.program.len() - self.pc < 1 {
                    self.halted = true;
                    return StepOutcome::Faulted(
                        Fault { kind: FaultKind::ProgramCounterOutOfRange, pc: at },
                    );
                }
                let r: usize = self.next_8_bits() as usize;
                if r >= 32 {
                    self.halted = true;
                    return StepOutcome::Faulted(
                        Fault { kind: FaultKind::RegisterOutOfRange, pc: at },
                    );
                }
                let offset: i32 = self.registers[r];
                if offset >= 0 {
                    match self.pc.checked_add(offset as usize) {
                        Some(t) => {
                            if t > self.program.len() {
                                self.pc = t;
                                self.halted = true;
                                StepOutcome::Faulted(
                                    Fault { kind: FaultKind::ProgramCounterOutOfRange, pc: at },
                                )
                            } else {
                                self.pc = t;
                                StepOutcome::Continued
                            }
                        },
                        None => {
                            self.pc = usize::MAX;
                            self.halted = true;
                            StepOutcome::Faulted(
                                Fault { kind: FaultKind::ProgramCounterOutOfRange, pc: at },
                            )
                        },
                    }
                } else {
                    let back: usize = (-(offset as i64)) as usize;
                    if back > self.pc {
                        self.halted = true;
                        StepOutcome::Faulted(
                            Fault { kind: FaultKind::ProgramCounterOutOfRange, pc: at },
                        )
                    } else {
                        self.pc = self.pc - back;
                        StepOutcome::Continued
                    }
                }
            },
            Opcode::JMPB => {
                if self.program.len() - self.pc < 1 {
                    self.halted = true;
                    return StepOutcome::Faulted(
                        Fault { kind: FaultKind::ProgramCounterOutOfRange, pc: at },
                    );
                }
                let r: usize = self.next_8_bits() as usize;
                if r >= 32 {
                    self.halted = true;
                    return StepOutcome::Faulted(
                        Fault { kind: FaultKind::RegisterOutOfRange, pc: at },
                    );
                }
                let offset: i32 = self.registers[r];
                if offset >= 0 {
                    let back: usize = offset as usize;
                    if back > self.pc {
                        self.halted = true;
                        StepOutcome::Faulted(Fault { kind: FaultKind::JumpUnderflow, pc: at })
                    } else {
                        self.pc = self.pc - back;
                        StepOutcome::Continued
                    }
                } else {
                    let fwd: usize = (-(offset as i64)) as usize;
                    match self.pc.checked_add(fwd) {
                        Some(t) => {
                            if t > self.program.len() {
                                self.pc = t;
                                self.halted = true;
                                StepOutcome::Faulted(
                                    Fault { kind: FaultKind::ProgramCounterOutOfRange, pc: at },
                                )
                            } else {
                                self.pc = t;
                                StepOutcome::Continued
                            }
                        },
                        None => {
                            self.pc = usize::MAX;
                            self.halted = true;
                            StepOutcome::Faulted(
                                Fault { kind: FaultKind::ProgramCounterOutOfRange, pc: at },
                            )
                        },
                    }
                }
            },
        }
    }

    /// One execution step; the single-step entry point for an embedding
    /// host.
    pub fn step(&mut self) -> (out: StepOutcome)
        requires
            old(self).inv(),
        ensures
            final(self).inv(),
            final(self)@ == spec_step(old(self)@).0,
            out == spec_step(old(self)@).1,
    {
        self.execute_instruction()
    }

    /// Drive execution step by step until the machine halts or faults, or at
    /// most `max_steps` steps, exactly as `spec_run` describes it.
    pub fn run(&mut self, max_steps: usize) -> (out: RunOutcome)
        requires
            old(self).inv(),
        ensures
            final(self).inv(),
            final(self)@ == spec_run(old(self)@, max_steps as nat).0,
            out == spec_run(old(self)@, max_steps as nat).1,
    {
        let mut steps_left: usize = max_steps;
        loop
            invariant
                self.inv(),
                spec_run(self@, steps_left as nat) == spec_run(old(self)@, max_steps as nat),
            decreases steps_left,
        {
            if steps_left == 0 {
                return RunOutcome::Running;
            }
            let out = self.execute_instruction();
            match out {
                StepOutcome::Continued => {
                    steps_left = steps_left - 1;
                },
                StepOutcome::Halted => {
                    return RunOutcome::Halted;
                },
                StepOutcome::Faulted(f) => {
                    return RunOutcome::Faulted(f);
                },
            }
        }
    }
}

} // verus!
