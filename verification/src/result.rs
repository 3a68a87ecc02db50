//! The host-facing result taxonomy and the mapping onto it.
//!
//! A finished engine result is converted into a host-facing object of the
//! same shape: the active variant corresponds one to one, gas fields are
//! exact numeric copies, log order is kept, and every byte payload is moved
//! across the boundary through the ownership bridge. The host-facing halt
//! taxonomy is a strict subset of the engine's: the five internal-only halt
//! reasons have no image, and meeting one in a finished result is an engine
//! contract violation, not a reportable outcome.

use vstd::prelude::*;

use crate::bigint::BigInt;
use crate::buffer::HostBuffer;
use crate::engine;

verus! {

/// The possible reasons for successful termination, as the host sees them.
#[derive(Clone, Copy, Debug, PartialEq, Eq, Structural)]
pub enum SuccessReason {
    /// The opcode `STOP` was called.
    Stop,
    /// The opcode `RETURN` was called.
    Return,
    /// The opcode `SELFDESTRUCT` was called.
    SelfDestruct,
}

/// An exceptional halt, as the host sees it. Execution ended immediately
/// with all gas consumed. This set is the engine's halt-reason set minus its
/// five internal-only signals; the correspondence is order-preserving and
/// part of the stable external contract.
#[derive(Clone, Copy, Debug, PartialEq, Eq, Structural)]
pub enum ExceptionalHalt {
    OutOfGas,
    OpcodeNotFound,
    InvalidFEOpcode,
    InvalidJump,
    NotActivated,
    StackUnderflow,
    StackOverflow,
    OutOfOffset,
    CreateCollision,
    PrecompileError,
    NonceOverflow,
    /// Create code size exceeds the runtime limit.
    CreateContractSizeLimit,
    /// The created contract's code begins with the reserved byte `EF`.
    CreateContractStartingWithEF,
    /// The init code size limit was exceeded.
    CreateInitCodeSizeLimit,
}

/// The image of an engine success reason on the host side.
pub open spec fn success_reason_to_host(reason: engine::SuccessReason) -> SuccessReason {
    match reason {
        engine::SuccessReason::Stop => SuccessReason::Stop,
        engine::SuccessReason::Return => SuccessReason::Return,
        engine::SuccessReason::SelfDestruct => SuccessReason::SelfDestruct,
    }
}

/// The engine-side reading of a host success reason.
pub open spec fn success_reason_to_engine(reason: SuccessReason) -> engine::SuccessReason {
    match reason {
        SuccessReason::Stop => engine::SuccessReason::Stop,
        SuccessReason::Return => engine::SuccessReason::Return,
        SuccessReason::SelfDestruct => engine::SuccessReason::SelfDestruct,
    }
}

/// The image of an engine halt reason on the host side. Meaningful only for
/// the reasons a finished result may carry; the five internal-only signals
/// have no image.
pub open spec fn halt_to_host(reason: engine::HaltReason) -> ExceptionalHalt
    recommends
        !reason.spec_internal_only(),
{
    match reason {
        engine::HaltReason::OutOfGas(_) => ExceptionalHalt::OutOfGas,
        engine::HaltReason::OpcodeNotFound => ExceptionalHalt::OpcodeNotFound,
        engine::HaltReason::InvalidFEOpcode => ExceptionalHalt::InvalidFEOpcode,
        engine::HaltReason::InvalidJump => ExceptionalHalt::InvalidJump,
        engine::HaltReason::NotActivated => ExceptionalHalt::NotActivated,
        engine::HaltReason::StackUnderflow => ExceptionalHalt::StackUnderflow,
        engine::HaltReason::StackOverflow => ExceptionalHalt::StackOverflow,
        engine::HaltReason::OutOfOffset => ExceptionalHalt::OutOfOffset,
        engine::HaltReason::CreateCollision => ExceptionalHalt::CreateCollision,
        engine::HaltReason::PrecompileError => ExceptionalHalt::PrecompileError,
        engine::HaltReason::NonceOverflow => ExceptionalHalt::NonceOverflow,
        engine::HaltReason::CreateContractSizeLimit => ExceptionalHalt::CreateContractSizeLimit,
        engine::HaltReason::CreateContractStartingWithEF => ExceptionalHalt::CreateContractStartingWithEF,
        engine::HaltReason::CreateInitCodeSizeLimit => ExceptionalHalt::CreateInitCodeSizeLimit,
        engine::HaltReason::OverflowPayment => arbitrary(),
        engine::HaltReason::StateChangeDuringStaticCall => arbitrary(),
        engine::HaltReason::CallNotAllowedInsideStatic => arbitrary(),
        engine::HaltReason::OutOfFunds => arbitrary(),
        engine::HaltReason::CallTooDeep => arbitrary(),
    }
}

/// The engine-side reading of a host halt reason. The host does not record
/// which out-of-gas condition occurred, so out-of-gas comes back as the
/// basic variant.
pub open spec fn halt_to_engine(halt: ExceptionalHalt) -> engine::HaltReason {
    match halt {
        ExceptionalHalt::OutOfGas => engine::HaltReason::OutOfGas(engine::OutOfGasError::Basic),
        ExceptionalHalt::OpcodeNotFound => engine::HaltReason::OpcodeNotFound,
        ExceptionalHalt::InvalidFEOpcode => engine::HaltReason::InvalidFEOpcode,
        ExceptionalHalt::InvalidJump => engine::HaltReason::InvalidJump,
        ExceptionalHalt::NotActivated => engine::HaltReason::NotActivated,
        ExceptionalHalt::StackUnderflow => engine::HaltReason::StackUnderflow,
        ExceptionalHalt::StackOverflow => engine::HaltReason::StackOverflow,
        ExceptionalHalt::OutOfOffset => engine::HaltReason::OutOfOffset,
        ExceptionalHalt::CreateCollision => engine::HaltReason::CreateCollision,
        ExceptionalHalt::PrecompileError => engine::HaltReason::PrecompileError,
        ExceptionalHalt::NonceOverflow => engine::HaltReason::NonceOverflow,
        ExceptionalHalt::CreateContractSizeLimit => engine::HaltReason::CreateContractSizeLimit,
        ExceptionalHalt::CreateContractStartingWithEF => engine::HaltReason::CreateContractStartingWithEF,
        ExceptionalHalt::CreateInitCodeSizeLimit => engine::HaltReason::CreateInitCodeSizeLimit,
    }
}

impl SuccessReason {
    /// Maps an engine success reason to its host-side mirror.
    pub fn from(eval: engine::SuccessReason) -> (r: Self)
        ensures
            r == success_reason_to_host(eval),
    {
        match eval {
            engine::SuccessReason::Stop => SuccessReason::Stop,
            engine::SuccessReason::Return => SuccessReason::Return,
            engine::SuccessReason::SelfDestruct => SuccessReason::SelfDestruct,
        }
    }
}

impl engine::SuccessReason {
    /// Reads a host success reason back into the engine's terms.
    pub fn from(value: SuccessReason) -> (r: Self)
        ensures
            r == success_reason_to_engine(value),
    {
        match value {
            SuccessReason::Stop => engine::SuccessReason::Stop,
            SuccessReason::Return => engine::SuccessReason::Return,
            SuccessReason::SelfDestruct => engine::SuccessReason::SelfDestruct,
        }
    }
}

impl ExceptionalHalt {
    /// Checked mapping of an engine halt reason onto the host taxonomy.
    /// It yields a value exactly for the reasons a finished result may
    /// carry; the five internal-only signals yield nothing, never an
    /// arbitrary stand-in.
    pub fn try_from(halt: engine::HaltReason) -> (r: Option<Self>)
        ensures
            r is Some <==> !halt.spec_internal_only(),
            !halt.spec_internal_only() ==> r == Some(halt_to_host(halt)),
    {
        match halt {
            engine::HaltReason::OutOfGas(_) => Some(ExceptionalHalt::OutOfGas),
            engine::HaltReason::OpcodeNotFound => Some(ExceptionalHalt::OpcodeNotFound),
            engine::HaltReason::InvalidFEOpcode => Some(ExceptionalHalt::InvalidFEOpcode),
            engine::HaltReason::InvalidJump => Some(ExceptionalHalt::InvalidJump),
            engine::HaltReason::NotActivated => Some(ExceptionalHalt::NotActivated),
            engine::HaltReason::StackUnderflow => Some(ExceptionalHalt::StackUnderflow),
            engine::HaltReason::StackOverflow => Some(ExceptionalHalt::StackOverflow),
            engine::HaltReason::OutOfOffset => Some(ExceptionalHalt::OutOfOffset),
            engine::HaltReason::CreateCollision => Some(ExceptionalHalt::CreateCollision),
            engine::HaltReason::PrecompileError => Some(ExceptionalHalt::PrecompileError),
            engine::HaltReason::NonceOverflow => Some(ExceptionalHalt::NonceOverflow),
            engine::HaltReason::CreateContractSizeLimit => {
                Some(ExceptionalHalt::CreateContractSizeLimit)
            }
            engine::HaltReason::CreateContractStartingWithEF => {
                Some(ExceptionalHalt::CreateContractStartingWithEF)
            }
            engine::HaltReason::CreateInitCodeSizeLimit => {
                Some(ExceptionalHalt::CreateInitCodeSizeLimit)
            }
            engine::HaltReason::OverflowPayment
            | engine::HaltReason::StateChangeDuringStaticCall
            | engine::HaltReason::CallNotAllowedInsideStatic
            | engine::HaltReason::OutOfFunds
            | engine::HaltReason::CallTooDeep => None,
        }
    }

    /// Maps an engine halt reason to its host-side mirror. The internal-only
    /// signals are ruled out up front: their appearance in a finished result
    /// is an engine contract violation, so no call may present one.
    pub fn from(halt: engine::HaltReason) -> (r: Self)
        requires
            !halt.spec_internal_only(),
        ensures
            r == halt_to_host(halt),
    {
        match Self::try_from(halt) {
            Some(r) => r,
            None => unreached(),
        }
    }
}

impl engine::HaltReason {
    /// Reads a host halt reason back into the engine's terms. The result is
    /// never one of the internal-only signals; out-of-gas comes back as the
    /// basic variant, since the host records no finer detail.
    pub fn from(value: ExceptionalHalt) -> (r: Self)
        ensures
            r == halt_to_engine(value),
    {
        match value {
            ExceptionalHalt::OutOfGas => engine::HaltReason::OutOfGas(engine::OutOfGasError::Basic),
            ExceptionalHalt::OpcodeNotFound => engine::HaltReason::OpcodeNotFound,
            ExceptionalHalt::InvalidFEOpcode => engine::HaltReason::InvalidFEOpcode,
            ExceptionalHalt::InvalidJump => engine::HaltReason::InvalidJump,
            ExceptionalHalt::NotActivated => engine::HaltReason::NotActivated,
            ExceptionalHalt::StackUnderflow => engine::HaltReason::StackUnderflow,
            ExceptionalHalt::StackOverflow => engine::HaltReason::StackOverflow,
            ExceptionalHalt::OutOfOffset => engine::HaltReason::OutOfOffset,
            ExceptionalHalt::CreateCollision => engine::HaltReason::CreateCollision,
            ExceptionalHalt::PrecompileError => engine::HaltReason::PrecompileError,
            ExceptionalHalt::NonceOverflow => engine::HaltReason::NonceOverflow,
            ExceptionalHalt::CreateContractSizeLimit => {
                engine::HaltReason::CreateContractSizeLimit
            }
            ExceptionalHalt::CreateContractStartingWithEF => {
                engine::HaltReason::CreateContractStartingWithEF
            }
            ExceptionalHalt::CreateInitCodeSizeLimit => {
                engine::HaltReason::CreateInitCodeSizeLimit
            }
        }
    }
}

/// Output of a plain call, as the host sees it.
pub struct CallOutput {
    /// Return value.
    pub return_value: HostBuffer,
}

/// Output of a contract creation, as the host sees it.
pub struct CreateOutput {
    /// Return value.
    pub return_value: HostBuffer,
    /// The deployed 160-bit address, when one was assigned. Absent — not
    /// zero-filled — when creation did not get as far as assigning one.
    pub address: Option<Vec<u8>>,
}

impl CreateOutput {
    /// A deployed address, when present, is exactly 20 bytes.
    pub open spec fn wf(self) -> bool {
        match self.address {
            Some(a) => a@.len() == 20,
            None => true,
        }
    }
}

/// One of two alternatives.
pub enum Either<A, B> {
    A(A),
    B(B),
}

/// One of three alternatives.
pub enum Either3<A, B, C> {
    A(A),
    B(B),
    C(C),
}

/// One log record as the host sees it: its payload bridged, not copied.
pub struct ExecutionLog {
    /// The record's payload.
    pub data: HostBuffer,
}

impl ExecutionLog {
    /// Bridges one log record's payload to the host.
    pub fn new(log: engine::Log) -> (r: Self)
        ensures
            r.data@ == log.data@,
            !r.data.is_released(),
    {
        ExecutionLog { data: HostBuffer::bridge(log.data) }
    }
}

/// The result when the engine terminates successfully.
pub struct SuccessResult {
    /// The reason for termination.
    pub reason: SuccessReason,
    /// The amount of gas used.
    pub gas_used: BigInt,
    /// The amount of gas refunded.
    pub gas_refunded: BigInt,
    /// The logs, in emission order.
    pub logs: Vec<ExecutionLog>,
    /// The transaction output.
    pub output: Either<CallOutput, CreateOutput>,
}

/// The result when the engine terminates due to a revert.
pub struct RevertResult {
    /// The amount of gas used.
    pub gas_used: BigInt,
    /// The transaction output.
    pub output: HostBuffer,
}

/// The result when the engine terminates due to an exceptional halt.
pub struct HaltResult {
    /// The exceptional halt that occurred.
    pub reason: ExceptionalHalt,
    /// Halting spends all the gas, so this equals the gas limit the
    /// transaction ran under.
    pub gas_used: BigInt,
}

/// One log record corresponds to its engine original when it carries the
/// same bytes.
pub open spec fn log_corresponds(host: ExecutionLog, log: engine::Log) -> bool {
    host.data@ == log.data@
}

/// A host output corresponds to the engine output when the sub-variant
/// matches, the returned bytes are identical, and a deployed address is
/// present on one side exactly when it is on the other, with the same bytes.
pub open spec fn output_corresponds(
    host: Either<CallOutput, CreateOutput>,
    output: engine::Output,
) -> bool {
    match (host, output) {
        (Either::A(call), engine::Output::Call(bytes)) => call.return_value@ == bytes@,
        (Either::B(create), engine::Output::Create(bytes, address)) => {
            &&& create.return_value@ == bytes@
            &&& match (create.address, address) {
                (Some(a), Some(b)) => a@ == b@,
                (None, None) => true,
                _ => false,
            }
        }
        _ => false,
    }
}

/// The result of executing a transaction, as handed to the host.
pub struct ExecutionResult {
    /// The transaction result.
    pub result: Either3<SuccessResult, RevertResult, HaltResult>,
}

impl ExecutionResult {
    /// What it means for a host result to mirror an engine result: the
    /// active variant corresponds one to one, every scalar field is an exact
    /// numeric copy, logs keep their emission order byte for byte, and the
    /// output payloads are identical.
    pub open spec fn corresponds(self, result: engine::ExecutionResult) -> bool {
        match (self.result, result) {
            (
                Either3::A(s),
                engine::ExecutionResult::Success {
                    reason,
                    gas_used,
                    gas_refunded,
                    logs,
                    output,
                },
            ) => {
                &&& s.reason == success_reason_to_host(reason)
                &&& s.gas_used.value() == gas_used as nat
                &&& s.gas_refunded.value() == gas_refunded as nat
                &&& s.logs.len() == logs.len()
                &&& forall|i: int|
                    0 <= i < logs.len() ==> #[trigger] log_corresponds(s.logs[i], logs[i])
                &&& output_corresponds(s.output, output)
            }
            (Either3::B(r), engine::ExecutionResult::Revert { gas_used, output }) => {
                &&& r.gas_used.value() == gas_used as nat
                &&& r.output@ == output@
            }
            (Either3::C(h), engine::ExecutionResult::Halt { reason, gas_used }) => {
                &&& h.reason == halt_to_host(reason)
                &&& h.gas_used.value() == gas_used as nat
            }
            _ => false,
        }
    }

    /// The host-side invariant: a deployed address, when present, is exactly
    /// 20 bytes.
    pub open spec fn wf(self) -> bool {
        match self.result {
            Either3::A(s) => match s.output {
                Either::A(_) => true,
                Either::B(create) => create.wf(),
            },
            Either3::B(_) => true,
            Either3::C(_) => true,
        }
    }

    /// Every bridged payload's release is still pending: none of the
    /// buffers handed out has been released while the host can reach it.
    pub open spec fn releases_pending(self) -> bool {
        match self.result {
            Either3::A(s) => {
                &&& forall|i: int|
                    0 <= i < s.logs.len() ==> !(#[trigger] s.logs[i]).data.is_released()
                &&& match s.output {
                    Either::A(call) => !call.return_value.is_released(),
                    Either::B(create) => !create.return_value.is_released(),
                }
            }
            Either3::B(r) => !r.output.is_released(),
            Either3::C(_) => true,
        }
    }

    /// Maps one finished engine result to its host-facing mirror. The input
    /// must satisfy the engine's own contract for finished results — in
    /// particular, a halt never carries an internal-only reason; a caller
    /// that receives results from unverified code checks `well_formed`
    /// first. Every byte payload is moved through the ownership bridge, so
    /// nothing is copied and each bridged buffer's release is left pending
    /// for the host.
    pub fn new(result: engine::ExecutionResult) -> (r: Self)
        requires
            result.wf(),
        ensures
            r.corresponds(result),
            r.wf(),
            r.releases_pending(),
    {
        match result {
            engine::ExecutionResult::Success {
                reason,
                gas_used,
                gas_refunded,
                logs,
                output,
            } => {
                let ghost emitted: Seq<engine::Log> = logs@;
                let mut remaining: Vec<engine::Log> = logs;
                let mut host_logs: Vec<ExecutionLog> = Vec::new();
                while remaining.len() > 0
                    invariant
                        host_logs@.len() + remaining@.len() == emitted.len(),
                        forall|i: int|
                            0 <= i < host_logs@.len()
                                ==> #[trigger] log_corresponds(host_logs@[i], emitted[i]),
                        forall|j: int|
                            0 <= j < remaining@.len()
                                ==> remaining@[j] == emitted[host_logs@.len() + j],
                        forall|i: int|
                            0 <= i < host_logs@.len()
                                ==> !(#[trigger] host_logs@[i]).data.is_released(),
                    decreases remaining@.len(),
                {
                    let entry = remaining.remove(0);
                    host_logs.push(ExecutionLog::new(entry));
                }
                let host_output: Either<CallOutput, CreateOutput> = match output {
                    engine::Output::Call(bytes) => {
                        Either::A(CallOutput { return_value: HostBuffer::bridge(bytes) })
                    }
                    engine::Output::Create(bytes, address) => {
                        Either::B(CreateOutput {
                            return_value: HostBuffer::bridge(bytes),
                            address,
                        })
                    }
                };
                ExecutionResult {
                    result: Either3::A(SuccessResult {
                        reason: SuccessReason::from(reason),
                        gas_used: BigInt::from_u64(gas_used),
                        gas_refunded: BigInt::from_u64(gas_refunded),
                        logs: host_logs,
                        output: host_output,
                    }),
                }
            }
            engine::ExecutionResult::Revert { gas_used, output } => {
                ExecutionResult {
                    result: Either3::B(RevertResult {
                        gas_used: BigInt::from_u64(gas_used),
                        output: HostBuffer::bridge(output),
                    }),
                }
            }
            engine::ExecutionResult::Halt { reason, gas_used } => {
                ExecutionResult {
                    result: Either3::C(HaltResult {
                        reason: ExceptionalHalt::from(reason),
                        gas_used: BigInt::from_u64(gas_used),
                    }),
                }
            }
        }
    }
}

/// Mapping a host success reason into the engine's terms and back is the
/// identity, for each of its three values.
pub proof fn lemma_success_reason_roundtrip(reason: SuccessReason)
    ensures
        success_reason_to_host(success_reason_to_engine(reason)) == reason,
{
    match reason {
        SuccessReason::Stop => {}
        SuccessReason::Return => {}
        SuccessReason::SelfDestruct => {}
    }
}

/// Mapping a host halt reason into the engine's terms and back is the
/// identity, for each of its fourteen values; and the engine-side image is
/// never one of the internal-only signals.
pub proof fn lemma_halt_roundtrip(halt: ExceptionalHalt)
    ensures
        !halt_to_engine(halt).spec_internal_only(),
        halt_to_host(halt_to_engine(halt)) == halt,
{
    match halt {
        ExceptionalHalt::OutOfGas => {}
        ExceptionalHalt::OpcodeNotFound => {}
        ExceptionalHalt::InvalidFEOpcode => {}
        ExceptionalHalt::InvalidJump => {}
        ExceptionalHalt::NotActivated => {}
        ExceptionalHalt::StackUnderflow => {}
        ExceptionalHalt::StackOverflow => {}
        ExceptionalHalt::OutOfOffset => {}
        ExceptionalHalt::CreateCollision => {}
        ExceptionalHalt::PrecompileError => {}
        ExceptionalHalt::NonceOverflow => {}
        ExceptionalHalt::CreateContractSizeLimit => {}
        ExceptionalHalt::CreateContractStartingWithEF => {}
        ExceptionalHalt::CreateInitCodeSizeLimit => {}
    }
}

} // verus!

