//! The engine's own view of a finished transaction.
//!
//! These types mirror what the execution engine reports when a transaction
//! completes: one of three termination modes, with mode-specific payloads.
//! The halt-reason set here is the engine's full set — five of its members
//! are internal-only instrumentation signals that must never appear in a
//! finished result, and the host-facing taxonomy excludes them.

use vstd::prelude::*;

use crate::buffer::ByteBuffer;

verus! {

/// Which terminating opcode ended execution successfully.
#[derive(Clone, Copy, Debug, PartialEq, Eq, Structural)]
pub enum SuccessReason {
    /// The opcode `STOP` was called.
    Stop,
    /// The opcode `RETURN` was called.
    Return,
    /// The opcode `SELFDESTRUCT` was called.
    SelfDestruct,
}

/// The specific out-of-gas condition the engine ran into. The host-facing
/// taxonomy does not distinguish these; they all surface as plain out-of-gas.
#[derive(Clone, Copy, Debug, PartialEq, Eq, Structural)]
pub enum OutOfGasError {
    /// The transaction ran out of its gas allowance.
    Basic,
    /// The memory expansion limit was exceeded.
    MemoryLimit,
    /// A memory expansion could not be paid for.
    Memory,
    /// A precompile ran out of gas.
    Precompile,
    /// A gas computation received an invalid operand.
    InvalidOperand,
    /// The reentrancy sentry of a transient-storage access ran out of gas.
    ReentrancySentry,
}

/// Every halt reason the engine can produce. The last five variants are
/// internal-only: they arise inside intermediate instrumentation and are
/// consumed there; a finished result that carries one is evidence of an
/// engine bug, not a reportable outcome.
#[derive(Clone, Copy, Debug, PartialEq, Eq, Structural)]
pub enum HaltReason {
    OutOfGas(OutOfGasError),
    OpcodeNotFound,
    InvalidFEOpcode,
    InvalidJump,
    NotActivated,
    StackUnderflow,
    StackOverflow,
    OutOfOffset,
    CreateCollision,
    PrecompileError,
    NonceOverflow,
    /// Create code size exceeds the runtime limit.
    CreateContractSizeLimit,
    /// The created contract's code begins with the reserved byte `EF`.
    CreateContractStartingWithEF,
    /// The init code size limit was exceeded.
    CreateInitCodeSizeLimit,
    /// Internal-only: a value transfer overflowed the payee's balance.
    OverflowPayment,
    /// Internal-only: a state change was attempted inside a static call.
    StateChangeDuringStaticCall,
    /// Internal-only: a disallowed call was made inside a static call.
    CallNotAllowedInsideStatic,
    /// Internal-only: the caller could not pay for a value transfer.
    OutOfFunds,
    /// Internal-only: the call depth limit was exceeded.
    CallTooDeep,
}

impl HaltReason {
    /// Whether this reason is one of the five internal-only signals that a
    /// finished result must never carry.
    pub open spec fn spec_internal_only(self) -> bool {
        match self {
            HaltReason::OverflowPayment => true,
            HaltReason::StateChangeDuringStaticCall => true,
            HaltReason::CallNotAllowedInsideStatic => true,
            HaltReason::OutOfFunds => true,
            HaltReason::CallTooDeep => true,
            HaltReason::OutOfGas(_) => false,
            HaltReason::OpcodeNotFound => false,
            HaltReason::InvalidFEOpcode => false,
            HaltReason::InvalidJump => false,
            HaltReason::NotActivated => false,
            HaltReason::StackUnderflow => false,
            HaltReason::StackOverflow => false,
            HaltReason::OutOfOffset => false,
            HaltReason::CreateCollision => false,
            HaltReason::PrecompileError => false,
            HaltReason::NonceOverflow => false,
            HaltReason::CreateContractSizeLimit => false,
            HaltReason::CreateContractStartingWithEF => false,
            HaltReason::CreateInitCodeSizeLimit => false,
        }
    }

    /// Runtime check for the internal-only signals.
    pub fn is_internal_only(&self) -> (b: bool)
        ensures
            b == self.spec_internal_only(),
    {
        match self {
            HaltReason::OverflowPayment
            | HaltReason::StateChangeDuringStaticCall
            | HaltReason::CallNotAllowedInsideStatic
            | HaltReason::OutOfFunds
            | HaltReason::CallTooDeep => true,
            HaltReason::OutOfGas(_)
            | HaltReason::OpcodeNotFound
            | HaltReason::InvalidFEOpcode
            | HaltReason::InvalidJump
            | HaltReason::NotActivated
            | HaltReason::StackUnderflow
            | HaltReason::StackOverflow
            | HaltReason::OutOfOffset
            | HaltReason::CreateCollision
            | HaltReason::PrecompileError
            | HaltReason::NonceOverflow
            | HaltReason::CreateContractSizeLimit
            | HaltReason::CreateContractStartingWithEF
            | HaltReason::CreateInitCodeSizeLimit => false,
        }
    }
}

/// One log record emitted during execution. Only its byte payload matters to
/// the marshalling layer; log ordering is the emission order and is kept.
pub struct Log {
    /// The record's payload, finalized by the engine.
    pub data: ByteBuffer,
}

/// What a successful transaction returned.
pub enum Output {
    /// Return data of a plain call.
    Call(ByteBuffer),
    /// Return data of a contract creation, and the deployed address if one
    /// was assigned. The address is absent — not zero-filled — when creation
    /// did not get as far as assigning one.
    Create(ByteBuffer, Option<Vec<u8>>),
}

impl Output {
    /// A deployed address, when present, is exactly 20 bytes.
    pub open spec fn wf(self) -> bool {
        match self {
            Output::Call(_) => true,
            Output::Create(_, address) => match address {
                Some(a) => a@.len() == 20,
                None => true,
            },
        }
    }

    /// Runtime check of the address invariant.
    pub fn well_formed(&self) -> (b: bool)
        ensures
            b == self.wf(),
    {
        match self {
            Output::Call(_) => true,
            Output::Create(_, address) => match address {
                Some(a) => a.len() == 20,
                None => true,
            },
        }
    }
}

/// The outcome record of one completed transaction: exactly one of the three
/// termination modes, with that mode's fields.
pub enum ExecutionResult {
    /// The transaction completed successfully.
    Success {
        reason: SuccessReason,
        gas_used: u64,
        gas_refunded: u64,
        logs: Vec<Log>,
        output: Output,
    },
    /// The transaction reverted, returning its unused gas.
    Revert { gas_used: u64, output: ByteBuffer },
    /// The transaction halted exceptionally, consuming all remaining gas.
    Halt { reason: HaltReason, gas_used: u64 },
}

impl ExecutionResult {
    /// The engine's contract for a finished result: addresses are 20 bytes
    /// when present, and a halt never carries an internal-only reason.
    pub open spec fn wf(self) -> bool {
        match self {
            ExecutionResult::Success { output, .. } => output.wf(),
            ExecutionResult::Revert { .. } => true,
            ExecutionResult::Halt { reason, .. } => !reason.spec_internal_only(),
        }
    }

    /// Runtime check of the engine's contract, for callers that receive a
    /// result from outside verified code.
    pub fn well_formed(&self) -> (b: bool)
        ensures
            b == self.wf(),
    {
        match self {
            ExecutionResult::Success { output, .. } => output.well_formed(),
            ExecutionResult::Revert { .. } => true,
            ExecutionResult::Halt { reason, .. } => !reason.is_internal_only(),
        }
    }
}

} // verus!
