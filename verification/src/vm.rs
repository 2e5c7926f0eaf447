//! Bytecode-executor state machine.
//!
//! The virtual machine engine itself is an external collaborator: it runs
//! the guest program and reports, step by step, how the run was interrupted
//! and what the machine state looks like. This module holds the decisions
//! made around that engine: how each interrupt is classified into an
//! execution status, when a run counts as finished, and how a step's
//! machine snapshot is assembled into a result record.

use vstd::prelude::*;

verus! {

/// A page of guest memory: its base address, its contents and whether the
/// guest may write to it.
#[derive(Debug, Clone)]
pub struct MemoryPage {
    pub address: u32,
    pub data: Vec<u8>,
    pub is_writable: bool,
}

/// Why constructing an executor failed.
#[derive(Debug, PartialEq, Eq, Structural, Clone, Copy)]
pub enum InitializationError {
    EngineError,
    ProgramError,
    ModuleError,
    InstantiationError,
    MemoryError,
}

/// Overall status of a run.
#[derive(Debug, PartialEq, Eq, Structural, Clone, Copy)]
pub enum ExecutionStatus {
    Success,
    Trap,
    OutOfGas,
    Segfault,
    InstanceRunError,
    Running,
}

/// How the engine reported back after being asked to run one step.
#[derive(Debug, PartialEq, Eq, Structural, Clone, Copy)]
pub enum StepOutcome {
    /// The program ran to completion.
    Finished,
    /// The program hit a trap instruction.
    Trap,
    /// The gas budget ran out.
    NotEnoughGas,
    /// The program touched an unmapped page; the payload is the page address.
    Segfault(u32),
    /// One instruction was executed; the program is still running.
    Step,
    /// The program made a host call; the payload is the call number.
    Ecalli(u32),
    /// The engine itself failed to run the instance.
    Failed,
}

/// The machine state the engine reports after a step: program counter,
/// the 13 general-purpose registers, remaining gas and the current
/// contents of the tracked memory pages.
pub struct MachineSnapshot {
    pub final_pc: u32,
    pub registers: Vec<u64>,
    pub gas_remaining: i64,
    pub pages: Vec<MemoryPage>,
}

/// Final record of one step: the status reached, the machine state, and
/// the faulting page address if a segfault was ever observed.
pub struct ExecutionResult {
    pub status: ExecutionStatus,
    pub final_pc: u32,
    pub pages: Vec<MemoryPage>,
    pub registers: Vec<u64>,
    pub gas_remaining: i64,
    pub segfault_address: u32,
}

/// The status that one engine report maps to.
pub open spec fn status_of(outcome: StepOutcome) -> ExecutionStatus {
    match outcome {
        StepOutcome::Finished => ExecutionStatus::Success,
        StepOutcome::Trap => ExecutionStatus::Trap,
        StepOutcome::NotEnoughGas => ExecutionStatus::OutOfGas,
        StepOutcome::Segfault(_) => ExecutionStatus::Segfault,
        StepOutcome::Step => ExecutionStatus::Running,
        StepOutcome::Ecalli(_) => ExecutionStatus::Running,
        StepOutcome::Failed => ExecutionStatus::InstanceRunError,
    }
}

/// Whether a status is terminal: once reached, the run is over.
pub open spec fn is_terminal(status: ExecutionStatus) -> bool {
    match status {
        ExecutionStatus::Success => true,
        ExecutionStatus::Trap => true,
        ExecutionStatus::OutOfGas => true,
        ExecutionStatus::Segfault => true,
        ExecutionStatus::InstanceRunError => true,
        ExecutionStatus::Running => false,
    }
}

/// Tracks a run of the external engine: the pages handed to it at start,
/// the status reached so far and the last observed faulting address.
pub struct ProgramExecutor {
    pub initial_pages: Vec<MemoryPage>,
    pub current_status: ExecutionStatus,
    pub segfault_address: u32,
}

impl ProgramExecutor {
    /// A fresh executor: still running, no fault observed.
    pub fn new(initial_pages: Vec<MemoryPage>) -> (r: ProgramExecutor)
        ensures
            r.current_status == ExecutionStatus::Running,
            r.segfault_address == 0,
            r.initial_pages@ == initial_pages@,
    {
        ProgramExecutor {
            initial_pages,
            current_status: ExecutionStatus::Running,
            segfault_address: 0,
        }
    }

    /// Record the engine's report for one step and assemble the result.
    ///
    /// The status becomes exactly what the report maps to; the faulting
    /// address is updated only on a segfault report; the machine snapshot
    /// is carried into the result unchanged.
    pub fn step(&mut self, outcome: StepOutcome, snapshot: MachineSnapshot) -> (r: ExecutionResult)
        ensures
            final(self).current_status == status_of(outcome),
            final(self).initial_pages@ == old(self).initial_pages@,
            final(self).segfault_address == (match outcome {
                StepOutcome::Segfault(addr) => addr,
                _ => old(self).segfault_address,
            }),
            r.status == final(self).current_status,
            r.segfault_address == final(self).segfault_address,
            r.final_pc == snapshot.final_pc,
            r.registers@ == snapshot.registers@,
            r.gas_remaining == snapshot.gas_remaining,
            r.pages@ == snapshot.pages@,
    {
        match outcome {
            StepOutcome::Finished => {
                self.current_status = ExecutionStatus::Success;
            }
            StepOutcome::Trap => {
                self.current_status = ExecutionStatus::Trap;
            }
            StepOutcome::NotEnoughGas => {
                self.current_status = ExecutionStatus::OutOfGas;
            }
            StepOutcome::Segfault(addr) => {
                self.segfault_address = addr;
                self.current_status = ExecutionStatus::Segfault;
            }
            StepOutcome::Step => {
                self.current_status = ExecutionStatus::Running;
            }
            StepOutcome::Ecalli(_) => {
                self.current_status = ExecutionStatus::Running;
            }
            StepOutcome::Failed => {
                self.current_status = ExecutionStatus::InstanceRunError;
            }
        }
        self.create_execution_result(snapshot)
    }

    /// Whether the run is over: every status but `Running` is terminal.
    pub fn is_finished(&self) -> (r: bool)
        ensures
            r == is_terminal(self.current_status),
    {
        match self.current_status {
            ExecutionStatus::Running => false,
            _ => true,
        }
    }

    /// Assemble a result record from the current status and a machine snapshot.
    pub fn create_execution_result(&self, snapshot: MachineSnapshot) -> (r: ExecutionResult)
        ensures
            r.status == self.current_status,
            r.segfault_address == self.segfault_address,
            r.final_pc == snapshot.final_pc,
            r.registers@ == snapshot.registers@,
            r.gas_remaining == snapshot.gas_remaining,
            r.pages@ == snapshot.pages@,
    {
        ExecutionResult {
            status: self.current_status,
            final_pc: snapshot.final_pc,
            pages: snapshot.pages,
            registers: snapshot.registers,
            gas_remaining: snapshot.gas_remaining,
            segfault_address: self.segfault_address,
        }
    }
}

} // verus!
