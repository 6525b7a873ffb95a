//! The boundary the core drives: what a call request looks like, what the
//! sandboxed executor is asked to run, and what it reports back. The
//! executor itself is an external collaborator; the core fixes what is
//! handed to it and states what holds of whatever comes back.

use vstd::prelude::*;

use crate::call::Event;
use crate::errors::TraceError;
use crate::resolver::ExecutionContext;

verus! {

/// The ceiling on the encoded size of a traced call's payload.
pub const MAX_ENCODED_TX_SIZE: usize = 1 << 24;

/// Exactly one of these is reported per execution.
#[derive(Debug)]
pub enum ExecutionOutcome {
    /// The call completed; `output` is what it returned.
    Success { output: Vec<u8> },
    /// The call reverted; `output` carries the revert message.
    Revert { output: Vec<u8> },
    /// The virtual machine terminated abnormally (for example, resource
    /// exhaustion); no trace can be produced.
    Halt { reason: Vec<u8> },
}

/// Resource-usage statistics of one execution.
#[derive(Clone, Copy, Debug, PartialEq, Eq, Structural)]
pub struct ExecutionStats {
    pub gas_used: u64,
}

/// Everything one executor invocation reports: the outcome, the statistics,
/// and the emitted event log.
#[derive(Debug)]
pub struct VmExecutionResult {
    pub outcome: ExecutionOutcome,
    pub stats: ExecutionStats,
    pub events: Vec<Event>,
}

/// Optional per-call overrides supplied by the caller; they never mutate
/// persisted state.
#[derive(Clone, Copy, Debug)]
pub struct CallOverrides {
    pub balance: Option<u64>,
    pub nonce: Option<u64>,
}

/// A call to be traced, as the caller hands it in.
#[derive(Debug)]
pub struct CallRequest {
    pub from: u64,
    pub to: Option<u64>,
    pub value: u64,
    pub data: Vec<u8>,
    pub gas: Option<u64>,
    pub signature: Vec<u8>,
    pub overrides: Option<CallOverrides>,
}

/// The transaction actually handed to the executor.
#[derive(Debug)]
pub struct PreparedTransaction {
    pub from: u64,
    pub to: u64,
    pub value: u64,
    pub gas_limit: u64,
    pub calldata: Vec<u8>,
    pub signature: Vec<u8>,
}

/// One executor invocation: the context and transaction to run, the
/// caller's overrides, whether a call tracer rides along, and whether the
/// best-effort validation-mode execution is wanted besides.
#[derive(Debug)]
pub struct VmInvocation {
    pub context: ExecutionContext,
    pub transaction: PreparedTransaction,
    pub overrides: Option<CallOverrides>,
    pub attach_call_tracer: bool,
    pub run_validation: bool,
}

/// The gas limit used when the request names none: the system-computed
/// default estimate.
pub open spec fn effective_gas(request_gas: Option<u64>, default_gas: u64) -> u64 {
    match request_gas {
        Some(g) => g,
        None => default_gas,
    }
}

/// The packed signature substituted for an absent one.
pub open spec fn default_signature_model() -> Seq<u8> {
    Seq::new(65, |i: int| 0u8)
}

/// The signature actually attached: the caller's, or the default packed one
/// where the caller supplied none.
pub open spec fn effective_signature(s: Seq<u8>) -> Seq<u8> {
    if s.len() == 0 {
        default_signature_model()
    } else {
        s
    }
}

/// The default packed signature as a value.
pub fn default_signature() -> (r: Vec<u8>)
    ensures
        r@ == default_signature_model(),
{
    let mut v: Vec<u8> = Vec::new();
    let mut i: usize = 0;
    while i < 65
        invariant
            i <= 65,
            v@.len() == i as int,
            forall|k: int| 0 <= k < i ==> v@[k] == 0u8,
        decreases 65 - i,
    {
        v.push(0);
        i += 1;
    }
    proof {
        assert(v@ =~= default_signature_model());
    }
    v
}

/// The prepared transaction is exactly what the request asked for, with the
/// gas and signature defaults applied.
pub open spec fn prepared_matches(
    tx: PreparedTransaction,
    request: CallRequest,
    default_gas: u64,
) -> bool {
    &&& (request.to matches Some(t) && tx.to == t)
    &&& tx.from == request.from
    &&& tx.value == request.value
    &&& tx.calldata@ == request.data@
    &&& tx.gas_limit == effective_gas(request.gas, default_gas)
    &&& tx.signature@ == effective_signature(request.signature@)
}

/// Turns a call request into the transaction handed to the executor. A
/// request naming no callee is malformed; a payload past the encoded-size
/// ceiling is oversized.
pub fn prepare_transaction(request: CallRequest, default_gas: u64) -> (r: Result<
    PreparedTransaction,
    TraceError,
>)
    ensures
        request.to is None ==> r matches Err(TraceError::DecodeError),
        request.to is Some && request.data@.len() > MAX_ENCODED_TX_SIZE ==> r matches Err(
            TraceError::PayloadTooLarge,
        ),
        request.to is Some && request.data@.len() <= MAX_ENCODED_TX_SIZE ==> (r matches Ok(tx)
            && prepared_matches(tx, request, default_gas)),
{
    let to = match request.to {
        Some(t) => t,
        None => {
            return Err(TraceError::DecodeError);
        },
    };
    if request.data.len() > MAX_ENCODED_TX_SIZE {
        return Err(TraceError::PayloadTooLarge);
    }
    let gas_limit = match request.gas {
        Some(g) => g,
        None => default_gas,
    };
    let signature = if request.signature.len() == 0 {
        default_signature()
    } else {
        request.signature
    };
    Ok(PreparedTransaction {
        from: request.from,
        to,
        value: request.value,
        gas_limit,
        calldata: request.data,
        signature,
    })
}

} // verus!
