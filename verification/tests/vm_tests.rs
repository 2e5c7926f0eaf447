//! Executor state machine: interrupt classification, termination and
//! result assembly.

use vrf_engine::{
    ExecutionStatus, MachineSnapshot, MemoryPage, ProgramExecutor, StepOutcome,
};

fn page(address: u32, data: Vec<u8>) -> MemoryPage {
    MemoryPage { address, data, is_writable: true }
}

fn snapshot(pc: u32, gas: i64) -> MachineSnapshot {
    MachineSnapshot {
        final_pc: pc,
        registers: vec![0u64; 13],
        gas_remaining: gas,
        pages: vec![page(0x20000, vec![0u8; 16])],
    }
}

#[test]
fn test_new_executor_running() {
    let exec = ProgramExecutor::new(vec![page(0x1000, vec![1, 2, 3])]);
    assert!(!exec.is_finished());
    assert_eq!(exec.current_status, ExecutionStatus::Running);
    assert_eq!(exec.segfault_address, 0);
}

#[test]
fn test_step_classifies_interrupts() {
    let mut exec = ProgramExecutor::new(vec![]);

    let r = exec.step(StepOutcome::Step, snapshot(4, 9999));
    assert_eq!(r.status, ExecutionStatus::Running);
    assert!(!exec.is_finished());

    let r = exec.step(StepOutcome::Ecalli(7), snapshot(8, 9998));
    assert_eq!(r.status, ExecutionStatus::Running);
    assert!(!exec.is_finished());

    let r = exec.step(StepOutcome::Finished, snapshot(12, 9997));
    assert_eq!(r.status, ExecutionStatus::Success);
    assert!(exec.is_finished());
}

#[test]
fn test_step_terminal_statuses() {
    let mut exec = ProgramExecutor::new(vec![]);
    let r = exec.step(StepOutcome::Trap, snapshot(0, 100));
    assert_eq!(r.status, ExecutionStatus::Trap);
    assert!(exec.is_finished());

    let mut exec = ProgramExecutor::new(vec![]);
    let r = exec.step(StepOutcome::NotEnoughGas, snapshot(0, 0));
    assert_eq!(r.status, ExecutionStatus::OutOfGas);
    assert!(exec.is_finished());

    let mut exec = ProgramExecutor::new(vec![]);
    let r = exec.step(StepOutcome::Failed, snapshot(0, 50));
    assert_eq!(r.status, ExecutionStatus::InstanceRunError);
    assert!(exec.is_finished());
}

#[test]
fn test_segfault_address_recorded() {
    let mut exec = ProgramExecutor::new(vec![]);
    let r = exec.step(StepOutcome::Segfault(0xdead_0000), snapshot(16, 42));
    assert_eq!(r.status, ExecutionStatus::Segfault);
    assert_eq!(r.segfault_address, 0xdead_0000);
    assert_eq!(exec.segfault_address, 0xdead_0000);
    assert!(exec.is_finished());
}

#[test]
fn test_result_carries_snapshot() {
    let mut exec = ProgramExecutor::new(vec![page(0x2000, vec![9; 4])]);
    let mut snap = snapshot(0x30, 1234);
    snap.registers[2] = 0xdeadbeef;
    snap.pages = vec![page(0x2000, vec![0x78, 0x56, 0x34, 0x12])];

    let r = exec.step(StepOutcome::Trap, snap);
    assert_eq!(r.final_pc, 0x30);
    assert_eq!(r.gas_remaining, 1234);
    assert_eq!(r.registers[2], 0xdeadbeef);
    assert_eq!(r.pages.len(), 1);
    assert_eq!(r.pages[0].address, 0x2000);
    assert_eq!(r.pages[0].data, vec![0x78, 0x56, 0x34, 0x12]);
}
