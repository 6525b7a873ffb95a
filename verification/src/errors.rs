//! Error taxonomy of the tracing core.

use vstd::prelude::*;

verus! {

/// Everything that can go wrong while serving a trace request.
///
/// `NotFound` is recoverable and surfaces as an empty or absent result where
/// the operation semantics allow it. `DecodeError` and `PayloadTooLarge` are
/// client errors. `ServerShuttingDown` is reported when a sandbox permit
/// cannot be granted because the pool is draining. `ExecutionHalted` carries
/// the halt reason of a virtual machine that terminated abnormally; a halt is
/// fatal to the trace request, never a partial trace.
#[derive(Debug)]
pub enum TraceError {
    /// The referenced block or transaction does not exist.
    NotFound,
    /// A symbolic block tag is unsupported for the requested operation.
    InvalidReference,
    /// The call request is malformed (for example, it names no callee).
    DecodeError,
    /// The call payload exceeds the encoded-transaction ceiling.
    PayloadTooLarge,
    /// The permit pool is draining for shutdown; execution must not proceed.
    ServerShuttingDown,
    /// The virtual machine halted; the reason text is carried verbatim.
    ExecutionHalted { reason: Vec<u8> },
    /// A storage or backend failure, surfaced opaquely.
    Internal,
}

} // verus!
