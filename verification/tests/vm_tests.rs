use asmvm::assembler::program_parsers::assemble;
use asmvm::vm::{FaultKind, RunOutcome, StepOutcome, VM};

const BUDGET: usize = 10_000;

#[test]
fn test_create_vm() {
    let test_vm = VM::new();
    assert_eq!(test_vm.get_register(0), 0);
    assert_eq!(test_vm.pc(), 0);
}

#[test]
fn test_opcode_hlt() {
    let mut test_vm = VM::new();
    let test_bytes = vec![0, 0, 0, 0];
    test_vm.load_program(test_bytes);
    test_vm.run(BUDGET);
    assert_eq!(test_vm.pc(), 1);
}

#[test]
fn test_opcode_nop() {
    let mut test_vm = VM::new();
    test_vm.load_program(vec![255, 255, 255]);
    test_vm.run(BUDGET);
    assert_eq!(test_vm.pc(), 3);
}

#[test]
fn test_opcode_igl() {
    let mut test_vm = VM::new();
    let test_bytes = vec![200, 0, 0, 0];
    test_vm.load_program(test_bytes);
    test_vm.run(BUDGET);
    assert_eq!(test_vm.pc(), 1);
}

#[test]
fn vm_test_opcode_load() {
    let mut test_vm = VM::new();
    test_vm.load_program(vec![1, 0, 1, 244]);
    test_vm.run(BUDGET);
    assert_eq!(test_vm.get_register(0), 500);
}

#[test]
fn test_opcode_add() {
    let mut test_vm = VM::new();
    test_vm.load_program(vec![
        1, 0, 1, 244, // LOAD $0 #500
        1, 1, 0, 10, //  LOAD $1 #10
        2, 0, 1, 0, //   ADD  $0 $1 $0
    ]);
    test_vm.run(BUDGET);
    assert_eq!(test_vm.get_register(0), 510);
}

#[test]
fn test_opcode_sub() {
    let mut test_vm = VM::new();
    test_vm.load_program(vec![
        1, 0, 1, 244, // LOAD $0 #500
        1, 1, 0, 10, //  LOAD $1 #10
        3, 0, 1, 0, //   SUB  $0 $1 $0
    ]);
    test_vm.run(BUDGET);
    assert_eq!(test_vm.get_register(0), 490);
}

#[test]
fn test_opcode_mul() {
    let mut test_vm = VM::new();
    test_vm.load_program(vec![
        1, 0, 1, 244, // LOAD $0 #500
        1, 1, 0, 10, //  LOAD $1 #10
        4, 0, 1, 3, //   MUL  $0 $1 $3
    ]);
    test_vm.run(BUDGET);
    assert_eq!(test_vm.get_register(3), 5000);
}

#[test]
fn test_opcode_div() {
    let mut test_vm = VM::new();
    test_vm.load_program(vec![
        1, 0, 1, 244, // LOAD $0 #500
        1, 1, 0, 6, //   LOAD $1 #6
        5, 0, 1, 3, //   DIV  $0 $1 $3
    ]);
    test_vm.run(BUDGET);
    assert_eq!(test_vm.get_register(3), 83);
    assert_eq!(test_vm.remainder(), 2);
}

#[test]
fn test_opcode_jmp() {
    let mut test_vm = VM::new();
    test_vm.set_register(0, 5);
    test_vm.load_program(vec![6, 0, 0, 0]);
    test_vm.step();
    assert_eq!(test_vm.pc(), 5);
}

#[test]
fn test_opcode_jmpb() {
    let mut test_vm = VM::new();
    test_vm.set_register(0, 6);
    test_vm.set_pc(1);
    test_vm.load_program(vec![0, 255, 255, 255, 7, 0]);
    test_vm.run(BUDGET);
    assert_eq!(test_vm.pc(), 1);
}

#[test]
fn test_opcode_jmpf() {
    let mut test_vm = VM::new();
    test_vm.set_register(0, 5);
    test_vm.load_program(vec![255, 8, 0]);
    test_vm.step();
    test_vm.step();
    assert_eq!(test_vm.pc(), 8);
}

#[test]
fn test_opcode_jmpc() {
    let mut test_vm = VM::new();
    test_vm.set_register(0, 5);
    test_vm.load_program(vec![9, 0]);
    test_vm.step();
    assert_eq!(test_vm.pc(), 2);
    test_vm.set_pc(0);
    test_vm.set_conditional(true);
    test_vm.step();
    assert_eq!(test_vm.pc(), 5);
}

#[test]
fn test_opcode_eq() {
    let mut test_vm = VM::new();
    test_vm.load_program(vec![10, 0, 1]);
    test_vm.set_register(0, 3);
    test_vm.set_register(1, 3);
    test_vm.step();
    assert_eq!(test_vm.conditional(), true);
    test_vm.set_pc(0);
    test_vm.set_register(1, 4);
    test_vm.step();
    assert_eq!(test_vm.conditional(), false);
}

#[test]
fn test_opcode_neq() {
    let mut test_vm = VM::new();
    test_vm.load_program(vec![11, 0, 1]);
    test_vm.set_register(0, 3);
    test_vm.set_register(1, 3);
    test_vm.step();
    assert_eq!(test_vm.conditional(), false);
    test_vm.set_pc(0);
    test_vm.set_register(1, 4);
    test_vm.step();
    assert_eq!(test_vm.conditional(), true);
}

#[test]
fn test_opcode_gt() {
    let mut test_vm = VM::new();
    test_vm.load_program(vec![12, 0, 1]);
    test_vm.set_register(0, 5);
    test_vm.set_register(1, 3);
    test_vm.step();
    assert_eq!(test_vm.conditional(), true);
    test_vm.set_pc(0);
    test_vm.set_register(1, 7);
    test_vm.step();
    assert_eq!(test_vm.conditional(), false);
}

#[test]
fn test_opcode_lt() {
    let mut test_vm = VM::new();
    test_vm.load_program(vec![13, 0, 1]);
    test_vm.set_register(0, 5);
    test_vm.set_register(1, 3);
    test_vm.step();
    assert_eq!(test_vm.conditional(), false);
    test_vm.set_pc(0);
    test_vm.set_register(1, 7);
    test_vm.step();
    assert_eq!(test_vm.conditional(), true);
}

#[test]
fn test_opcode_gtq() {
    let mut test_vm = VM::new();
    test_vm.load_program(vec![14, 0, 1]);
    test_vm.set_register(0, 3);
    test_vm.set_register(1, 3);
    test_vm.step();
    assert_eq!(test_vm.conditional(), true);
    test_vm.set_pc(0);
    test_vm.set_register(1, 2);
    test_vm.step();
    assert_eq!(test_vm.conditional(), true);
    test_vm.set_pc(0);
    test_vm.set_register(1, 5);
    test_vm.step();
    assert_eq!(test_vm.conditional(), false);
}

#[test]
fn test_opcode_ltq() {
    let mut test_vm = VM::new();
    test_vm.load_program(vec![15, 0, 1]);
    test_vm.set_register(0, 3);
    test_vm.set_register(1, 3);
    test_vm.step();
    assert_eq!(test_vm.conditional(), true);
    test_vm.set_pc(0);
    test_vm.set_register(1, 5);
    test_vm.step();
    assert_eq!(test_vm.conditional(), true);
    test_vm.set_pc(0);
    test_vm.set_register(0, 2);
    test_vm.step();
    assert_eq!(test_vm.conditional(), true);
}

#[test]
fn test_fib() {
    let mut test_vm = VM::new();
    test_vm.load_program(vec![
        1, 0, 0, 0, //   load $0 #0
        1, 1, 0, 1, //   load $1 #1
        1, 2, 0, 0, //   load $2 #0
        1, 3, 0, 0, //   load $3 #0
        1, 4, 0, 0, //   load $4 #0   iteration counter
        1, 5, 0, 1, //   load $5 #1   increment
        1, 6, 0, 20, //  load $6 #20  iteration bound
        2, 1, 3, 2, //   add $1 $3 $2
        2, 0, 1, 1, //   add $0 $1 $1
        2, 2, 3, 0, //   add $2 $3 $0
        2, 4, 5, 4, //   add $4 $5 $4
        13, 4, 6, //     lt $4 $6
        1, 7, 0, 28, //  load $7 #28
        9, 7, //         jmpc $7
        0, //            hlt
    ]);
    test_vm.run(BUDGET);
    assert_eq!(test_vm.get_register(1), 10946);
}

#[test]
fn test_fib_terminates_halted() {
    let mut test_vm = VM::new();
    test_vm.load_program(assemble(
        "load $0 #0\nload $1 #1\nload $2 #0\nload $3 #0\nload $4 #0\nload $5 #1\nload $6 #20\n\
         add $1 $3 $2\nadd $0 $1 $1\nadd $2 $3 $0\nadd $4 $5 $4\nlt $4 $6\nload $7 #28\njmpc $7\nhlt",
    )
    .unwrap());
    let outcome = test_vm.run(BUDGET);
    assert_eq!(outcome, RunOutcome::Halted);
    assert!(test_vm.is_halted());
    assert_eq!(test_vm.get_register(1), 10946);
}

#[test]
fn test_assembly_program() {
    let mut test_vm = VM::new();
    test_vm.load_program(assemble("load $0 #100\nload $1 #50\nmul $0 $1 $0\nhlt").unwrap());
    test_vm.run(BUDGET);
    assert_eq!(test_vm.get_register(0), 5000);
}

#[test]
fn test_load_then_halt_yields_halted() {
    let mut test_vm = VM::new();
    test_vm.load_program(assemble("load $0 #100\nhlt").unwrap());
    let outcome = test_vm.run(BUDGET);
    assert_eq!(test_vm.get_register(0), 100);
    assert_eq!(outcome, RunOutcome::Halted);
    assert!(test_vm.is_halted());
}

#[test]
fn test_mul_program_runs_to_50000() {
    let mut test_vm = VM::new();
    test_vm.load_program(assemble("load $0 #100\nload $1 #500\nmul $0 $1 $0\nhlt").unwrap());
    let outcome = test_vm.run(BUDGET);
    assert_eq!(test_vm.get_register(0), 50000);
    assert_eq!(outcome, RunOutcome::Halted);
}

#[test]
fn test_add_wraps_around() {
    let mut test_vm = VM::new();
    test_vm.set_register(0, i32::MAX);
    test_vm.set_register(1, 1);
    test_vm.load_program(vec![2, 0, 1, 2]);
    let outcome = test_vm.step();
    assert_eq!(outcome, StepOutcome::Continued);
    assert_eq!(test_vm.get_register(2), i32::MIN);
    assert_eq!(test_vm.pc(), 4);
}

#[test]
fn test_div_by_zero_faults_without_mutation() {
    let mut test_vm = VM::new();
    test_vm.set_register(0, 500);
    test_vm.set_register(1, 0);
    test_vm.set_register(3, 77);
    test_vm.load_program(vec![5, 0, 1, 3]);
    let outcome = test_vm.run(BUDGET);
    match outcome {
        RunOutcome::Faulted(fault) => {
            assert_eq!(fault.kind, FaultKind::DivisionByZero);
            assert_eq!(fault.pc, 0);
        }
        other => panic!("expected a division fault, got {:?}", other),
    }
    assert_eq!(test_vm.get_register(3), 77);
    assert_eq!(test_vm.remainder(), 0);
    assert!(test_vm.is_halted());
}

#[test]
fn test_register_index_out_of_range_faults() {
    let mut test_vm = VM::new();
    test_vm.load_program(vec![2, 40, 0, 0]);
    let outcome = test_vm.step();
    match outcome {
        StepOutcome::Faulted(fault) => assert_eq!(fault.kind, FaultKind::RegisterOutOfRange),
        other => panic!("expected a register fault, got {:?}", other),
    }
}

#[test]
fn test_jmpb_past_zero_faults() {
    let mut test_vm = VM::new();
    test_vm.set_register(0, 10);
    test_vm.load_program(vec![7, 0]);
    let outcome = test_vm.step();
    match outcome {
        StepOutcome::Faulted(fault) => {
            assert_eq!(fault.kind, FaultKind::JumpUnderflow);
            assert_eq!(fault.pc, 0);
        }
        other => panic!("expected an underflow fault, got {:?}", other),
    }
}

#[test]
fn test_truncated_instruction_faults() {
    let mut test_vm = VM::new();
    test_vm.load_program(vec![1, 0]);
    let outcome = test_vm.step();
    match outcome {
        StepOutcome::Faulted(fault) => {
            assert_eq!(fault.kind, FaultKind::ProgramCounterOutOfRange);
        }
        other => panic!("expected a fault, got {:?}", other),
    }
}

#[test]
fn test_illegal_opcode_faults() {
    let mut test_vm = VM::new();
    test_vm.load_program(assemble("xyz\nhlt").unwrap());
    let outcome = test_vm.run(BUDGET);
    match outcome {
        RunOutcome::Faulted(fault) => {
            assert_eq!(fault.kind, FaultKind::IllegalOpcode);
            assert_eq!(fault.pc, 0);
        }
        other => panic!("expected an illegal-opcode fault, got {:?}", other),
    }
}

#[test]
fn test_run_budget_exhausted_reports_running() {
    let mut test_vm = VM::new();
    test_vm.load_program(assemble("load $0 #0\njmp $0").unwrap());
    let outcome = test_vm.run(10);
    assert_eq!(outcome, RunOutcome::Running);
    assert!(!test_vm.is_halted());
}

#[test]
fn test_step_on_empty_program_halts_cleanly() {
    let mut test_vm = VM::new();
    assert_eq!(test_vm.step(), StepOutcome::Halted);
    assert!(test_vm.is_halted());
    assert_eq!(test_vm.step(), StepOutcome::Halted);
}

#[test]
fn test_negative_immediate_zero_extends() {
    let mut test_vm = VM::new();
    test_vm.load_program(assemble("load $0 #-5\nhlt").unwrap());
    test_vm.run(BUDGET);
    assert_eq!(test_vm.get_register(0), 65531);
}
