//! Sandboxed transaction re-execution and call-trace assembly.
//!
//! The library resolves a block reference to an execution context, bounds
//! concurrent sandboxed executions with a permit pool, carries the raw call
//! tree from the executor back to the caller through an exactly-once cell,
//! assembles the canonical hierarchical trace from the execution outcome,
//! and flattens it into the ordered linear trace format.

pub mod call;
pub mod errors;
pub mod flatten;
pub mod namespace;
pub mod permit;
pub mod resolver;
pub mod storage;
pub mod tracer_cell;
pub mod vm;
