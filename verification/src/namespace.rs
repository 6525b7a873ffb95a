//! The debug namespace: the operations exposed to API callers. Historical
//! traces are served straight from the store; live re-execution is driven
//! through the sandbox permit pool and the call tracer cell, and assembled
//! from the execution outcome.

use vstd::prelude::*;

use crate::call::{
    call_model, calls_model, lemma_calls_model, Call, CallDataModel, CallKind, CallModel,
    DebugCall, DebugCallModel, EventModel, ResultDebugCall, TracerConfig, events_model, only_top,
    only_top_requested,
};
use crate::errors::TraceError;
use vstd::pervasive::unreached;

use crate::flatten::{
    flats_model, flatten_block_model, flatten_debug_calls, flatten_debug_model, DebugCallFlat,
    FlatEntry,
};
use crate::permit::{AcquireOutcome, VmConcurrencyLimiter, VmPermit};
use crate::resolver::{
    block_diff, is_pending, resolve_spec, BlockReference, BlockTag, ExecutionContext,
};
use crate::storage::{connection_bump, lookup_key, TraceStore};
use crate::tracer_cell::CallTracerCell;
use crate::vm::{
    effective_gas, prepare_transaction, prepared_matches, CallRequest, ExecutionOutcome,
    VmExecutionResult, VmInvocation, MAX_ENCODED_TX_SIZE,
};

verus! {

/// Per-request observability: the diagnostic distance of the last resolved
/// block from the chain head. A side effect, not correctness-relevant.
#[derive(Clone, Copy, Debug, PartialEq, Eq, Structural)]
pub struct MethodDiagnostics {
    pub block_diff: u64,
}

/// The namespace: the trace store, the permit pool, and the fee and gas
/// parameters every execution context is built from.
#[derive(Debug)]
pub struct DebugNamespace {
    batch_fee_input: u64,
    default_call_gas: u64,
    gas_ceiling: u64,
    store: TraceStore,
    limiter: VmConcurrencyLimiter,
    diagnostics: MethodDiagnostics,
}

/// Block-wide results carry each stored tree's data, its children unless
/// only the top call was requested, and no events: stored traces have none.
pub open spec fn block_traces_match(
    v: Seq<ResultDebugCall>,
    stored: Seq<CallModel>,
    top: bool,
) -> bool {
    &&& v.len() == stored.len()
    &&& forall|i: int|
        0 <= i < v.len() ==> {
            let d = (#[trigger] v[i]).result@;
            &&& d.data == stored[i].data
            &&& d.calls == if top {
                Seq::<CallModel>::empty()
            } else {
                stored[i].calls
            }
            &&& d.events == Seq::<EventModel>::empty()
        }
}

/// The hierarchical trace served for one stored tree.
pub open spec fn stored_debug_model(m: CallModel, top: bool) -> DebugCallModel {
    DebugCallModel {
        data: m.data,
        calls: if top {
            Seq::<CallModel>::empty()
        } else {
            m.calls
        },
        events: Seq::<EventModel>::empty(),
    }
}

/// The flat trace of a whole stored block.
pub open spec fn flatten_stored_block(stored: Seq<CallModel>, top: bool) -> Seq<FlatEntry>
    decreases stored.len(),
{
    if stored.len() == 0 {
        Seq::empty()
    } else {
        flatten_debug_model(stored_debug_model(stored[0], top)) + flatten_stored_block(
            stored.subrange(1, stored.len() as int),
            top,
        )
    }
}

pub proof fn lemma_flatten_block_from_stored(
    v: Seq<ResultDebugCall>,
    stored: Seq<CallModel>,
    top: bool,
)
    requires
        block_traces_match(v, stored, top),
    ensures
        flatten_block_model(v) == flatten_stored_block(stored, top),
    decreases v.len(),
{
    if v.len() > 0 {
        let vt = v.subrange(1, v.len() as int);
        let st = stored.subrange(1, stored.len() as int);
        assert forall|i: int| 0 <= i < vt.len() implies {
            let d = (#[trigger] vt[i]).result@;
            &&& d.data == st[i].data
            &&& d.calls == if top {
                Seq::<CallModel>::empty()
            } else {
                st[i].calls
            }
            &&& d.events == Seq::<EventModel>::empty()
        } by {
            assert(vt[i] == v[i + 1]);
            assert(st[i] == stored[i + 1]);
        }
        lemma_flatten_block_from_stored(vt, st, top);
        assert(v[0].result@ =~= stored_debug_model(stored[0], top));
    }
}

impl DebugNamespace {
    /// The scaled fee input executions are charged with.
    pub closed spec fn fee_input(&self) -> u64 {
        self.batch_fee_input
    }

    /// The system-computed gas estimate used when a request names no gas.
    pub closed spec fn default_call_gas(&self) -> u64 {
        self.default_call_gas
    }

    /// The computational gas ceiling of a sandboxed execution.
    pub closed spec fn gas_ceiling(&self) -> u64 {
        self.gas_ceiling
    }

    /// The historical trace store.
    pub closed spec fn store(&self) -> TraceStore {
        self.store
    }

    /// The sandbox permit pool.
    pub closed spec fn limiter(&self) -> VmConcurrencyLimiter {
        self.limiter
    }

    /// The per-request diagnostics.
    pub closed spec fn diagnostics(&self) -> MethodDiagnostics {
        self.diagnostics
    }

    pub open spec fn wf(&self) -> bool {
        self.store().wf() && self.limiter().wf()
    }

    /// Everything but the store's connection counter and the diagnostics is
    /// unchanged.
    pub open spec fn same_but_connections(&self, other: &DebugNamespace) -> bool {
        &&& self.fee_input() == other.fee_input()
        &&& self.default_call_gas() == other.default_call_gas()
        &&& self.gas_ceiling() == other.gas_ceiling()
        &&& self.store().same_data(&other.store())
        &&& self.limiter().capacity() == other.limiter().capacity()
        &&& self.limiter().granted() == other.limiter().granted()
        &&& self.limiter().is_draining() == other.limiter().is_draining()
    }

    /// The namespace is assembled from plain values: the fee input and gas
    /// parameters come from the node's configuration, the store and the
    /// permit pool are injected so independent instances can coexist.
    pub fn new(
        batch_fee_input: u64,
        default_call_gas: u64,
        gas_ceiling: u64,
        store: TraceStore,
        limiter: VmConcurrencyLimiter,
    ) -> (r: Self)
        requires
            store.wf(),
            limiter.wf(),
        ensures
            r.fee_input() == batch_fee_input,
            r.default_call_gas() == default_call_gas,
            r.gas_ceiling() == gas_ceiling,
            r.store() == store,
            r.limiter() == limiter,
            r.diagnostics() == (MethodDiagnostics { block_diff: 0 }),
            r.wf(),
    {
        DebugNamespace {
            batch_fee_input,
            default_call_gas,
            gas_ceiling,
            store,
            limiter,
            diagnostics: MethodDiagnostics { block_diff: 0 },
        }
    }

    /// How many storage connections this namespace has acquired so far.
    pub fn storage_connections(&self) -> (r: u64)
        ensures
            r == self.store().connections(),
    {
        self.store.connections_acquired()
    }

    /// The diagnostics of the current method call.
    pub fn current_method(&self) -> (r: &MethodDiagnostics)
        ensures
            *r == self.diagnostics(),
    {
        &self.diagnostics
    }

    /// The execution context for a resolved block: its snapshot, the shared
    /// fee input, and the gas ceiling.
    pub fn execution_context(&self, block_number: u64) -> (r: ExecutionContext)
        ensures
            r == (ExecutionContext {
                block_number,
                snapshot: block_number,
                fee_input: self.fee_input(),
                gas_ceiling: self.gas_ceiling(),
            }),
    {
        ExecutionContext {
            block_number,
            snapshot: block_number,
            fee_input: self.batch_fee_input,
            gas_ceiling: self.gas_ceiling,
        }
    }

    /// Serves the hierarchical traces of every transaction of a block. A
    /// pending-tagged block has no stable snapshot: the result is empty, and
    /// neither storage nor the executor is consulted. A sealed block with no
    /// stored traces yields the empty sequence, not an error.
    pub fn debug_trace_block_impl(
        &mut self,
        block: BlockReference,
        options: Option<TracerConfig>,
    ) -> (r: Result<Vec<ResultDebugCall>, TraceError>)
        requires
            old(self).wf(),
        ensures
            final(self).wf(),
            final(self).same_but_connections(old(self)),
            is_pending(block) ==> (r matches Ok(v) && v@.len() == 0 && final(self).store()
                == old(self).store()),
            !is_pending(block) ==> final(self).store().connections() == connection_bump(
                old(self).store().connections(),
            ),
            !is_pending(block) ==> match resolve_spec(
                old(self).store().head(),
                old(self).store().hashes(),
                block,
            ) {
                Err(e) => (r matches Err(e2) && e2 == e),
                Ok(n) => match lookup_key(old(self).store().blocks(), n) {
                    Some(w) => (r matches Ok(v) && block_traces_match(
                        v@,
                        calls_model(w@),
                        only_top(options),
                    )),
                    None => (r matches Ok(v) && v@.len() == 0),
                },
            },
    {
        let only_top_call = only_top_requested(&options);
        if matches!(block, BlockReference::Tag(BlockTag::Pending)) {
            return Ok(Vec::new());
        }
        self.store.acquire_connection();
        let number = match self.store.resolve_block(block) {
            Ok(n) => n,
            Err(e) => {
                return Err(e);
            },
        };
        let head = self.store.last_sealed_block();
        self.diagnostics.block_diff = block_diff(head, number);
        let raw = match self.store.get_traces_for_block(number) {
            Some(v) => v,
            None => {
                return Ok(Vec::new());
            },
        };
        let mut out: Vec<ResultDebugCall> = Vec::new();
        let n = raw.len();
        let mut i: usize = 0;
        while i < n
            invariant
                n == raw@.len(),
                i <= n,
                out@.len() == i as int,
                forall|k: int|
                    0 <= k < i ==> {
                        let d = (#[trigger] out@[k]).result@;
                        &&& d.data == raw@[k]@.data
                        &&& d.calls == if only_top_call {
                            Seq::<CallModel>::empty()
                        } else {
                            raw@[k]@.calls
                        }
                        &&& d.events == Seq::<EventModel>::empty()
                    },
            decreases n - i,
        {
            let root = raw[i].duplicate();
            let d = DebugCall::from_call(root, only_top_call);
            out.push(ResultDebugCall { result: d });
            i += 1;
        }
        proof {
            lemma_calls_model(raw@);
            let w = lookup_key(old(self).store().blocks(), number)->Some_0;
            lemma_calls_model(w@);
            assert(block_traces_match(out@, calls_model(w@), only_top(options)));
        }
        Ok(out)
    }

    /// Serves the flat traces of every transaction of a block, in block
    /// order: the hierarchical result of [`Self::debug_trace_block_impl`],
    /// flattened.
    pub fn debug_trace_block_flat_impl(
        &mut self,
        block: BlockReference,
        options: Option<TracerConfig>,
    ) -> (r: Result<Vec<DebugCallFlat>, TraceError>)
        requires
            old(self).wf(),
        ensures
            final(self).wf(),
            final(self).same_but_connections(old(self)),
            is_pending(block) ==> (r matches Ok(v) && v@.len() == 0 && final(self).store()
                == old(self).store()),
            !is_pending(block) ==> final(self).store().connections() == connection_bump(
                old(self).store().connections(),
            ),
            !is_pending(block) ==> match resolve_spec(
                old(self).store().head(),
                old(self).store().hashes(),
                block,
            ) {
                Err(e) => (r matches Err(e2) && e2 == e),
                Ok(n) => match lookup_key(old(self).store().blocks(), n) {
                    Some(w) => (r matches Ok(v) && flats_model(v@) == flatten_stored_block(
                        calls_model(w@),
                        only_top(options),
                    )),
                    None => (r matches Ok(v) && v@.len() == 0),
                },
            },
    {
        let inner = match self.debug_trace_block_impl(block, options) {
            Ok(v) => v,
            Err(e) => {
                return Err(e);
            },
        };
        let flat = flatten_debug_calls(&inner);
        proof {
            if is_pending(block) {
                assert(inner@.len() == 0);
                assert(flatten_block_model(inner@) =~= Seq::<FlatEntry>::empty());
                assert(flats_model(flat@).len() == flat@.len());
                assert(flat@.len() == 0);
            } else {
                let resolved = resolve_spec(
                    old(self).store().head(),
                    old(self).store().hashes(),
                    block,
                );
                if resolved is Ok {
                    let looked = lookup_key(old(self).store().blocks(), resolved->Ok_0);
                    if looked is Some {
                        lemma_flatten_block_from_stored(
                            inner@,
                            calls_model(looked->Some_0@),
                            only_top(options),
                        );
                    } else {
                        assert(inner@.len() == 0);
                        assert(flatten_block_model(inner@) =~= Seq::<FlatEntry>::empty());
                        assert(flats_model(flat@).len() == flat@.len());
                        assert(flat@.len() == 0);
                    }
                }
            }
        }
        Ok(flat)
    }

    /// Serves the stored hierarchical trace of one transaction. An unknown
    /// hash yields `None`: absence is a valid, expected outcome, not an
    /// error.
    pub fn debug_trace_transaction_impl(
        &mut self,
        tx_hash: u64,
        options: Option<TracerConfig>,
    ) -> (r: Result<Option<DebugCall>, TraceError>)
        requires
            old(self).wf(),
        ensures
            final(self).wf(),
            final(self).same_but_connections(old(self)),
            final(self).store().connections() == connection_bump(old(self).store().connections()),
            match lookup_key(old(self).store().txs(), tx_hash) {
                Some(w) => (r matches Ok(o) && o matches Some(d) && d@ == stored_debug_model(
                    call_model(w),
                    only_top(options),
                )),
                None => (r matches Ok(o) && o is None),
            },
    {
        let only_top_call = only_top_requested(&options);
        self.store.acquire_connection();
        match self.store.get_call_trace(tx_hash) {
            Some(root) => {
                let d = DebugCall::from_call(root, only_top_call);
                proof {
                    let w = lookup_key(old(self).store().txs(), tx_hash)->Some_0;
                    assert(d@ =~= stored_debug_model(call_model(w), only_top(options)));
                }
                Ok(Some(d))
            },
            None => Ok(None),
        }
    }
}

/// The block reference a call is traced against: the caller's, or the
/// pending tag when none is given.
pub open spec fn effective_block(block: Option<BlockReference>) -> BlockReference {
    match block {
        Some(b) => b,
        None => BlockReference::Tag(BlockTag::Pending),
    }
}

/// A live re-execution in flight: the permit being held, the fresh tracer
/// cell, and what assembling the trace will need of the transaction.
#[derive(Debug)]
pub struct TraceCallSession {
    permit: VmPermit,
    cell: CallTracerCell,
    tx_gas_limit: u64,
    tx_value: u64,
    tx_calldata: Vec<u8>,
    tracer_attached: bool,
    only_top_call: bool,
}

impl TraceCallSession {
    /// The gas limit the transaction runs with.
    pub closed spec fn gas_limit(&self) -> u64 {
        self.tx_gas_limit
    }

    /// The value the transaction transfers.
    pub closed spec fn value(&self) -> u64 {
        self.tx_value
    }

    /// The transaction's input bytes.
    pub closed spec fn calldata(&self) -> Seq<u8> {
        self.tx_calldata@
    }

    /// Whether a call tracer rides along with the execution.
    pub closed spec fn tracer_attached(&self) -> bool {
        self.tracer_attached
    }

    /// Whether only the top call was requested.
    pub closed spec fn only_top_call(&self) -> bool {
        self.only_top_call
    }

    /// The tracer cell has not been written yet.
    pub closed spec fn cell_fresh(&self) -> bool {
        self.cell.recorded() is None
    }
}

/// How starting a live trace came out.
#[derive(Debug)]
pub enum TraceCallStart {
    /// A permit was granted: the caller runs the invocation on the executor
    /// and hands its response to [`DebugNamespace::finish_trace_call`].
    Started { session: TraceCallSession, invocation: VmInvocation },
    /// The pool is at capacity: the caller suspends and starts over.
    Busy,
}

/// The session carries exactly what assembling the trace will need, and a
/// tracer is attached exactly when more than the top call was requested.
pub open spec fn session_matches(
    s: TraceCallSession,
    request: CallRequest,
    default_gas: u64,
    options: Option<TracerConfig>,
) -> bool {
    &&& s.gas_limit() == effective_gas(request.gas, default_gas)
    &&& s.value() == request.value
    &&& s.calldata() == request.data@
    &&& s.tracer_attached() == !only_top(options)
    &&& s.only_top_call() == only_top(options)
    &&& s.cell_fresh()
}

/// The subcalls the executor recorded, as a model; an absent recording is
/// the empty tree.
pub open spec fn recorded_calls(recorded: Option<Vec<Call>>) -> Seq<CallModel> {
    match recorded {
        Some(v) => calls_model(v@),
        None => Seq::empty(),
    }
}

/// The shape of an assembled hierarchical trace: the root carries the
/// transaction's own fields and the outcome's output and revert reason, the
/// children are the recorded subcalls unless only the top call was
/// requested, and the outcome's events are attached unconditionally.
pub open spec fn debug_call_shape(
    d: DebugCallModel,
    gas: u64,
    gas_used: u64,
    value: u64,
    input: Seq<u8>,
    output: Seq<u8>,
    revert_reason: Option<Seq<u8>>,
    only_top_call: bool,
    recorded: Seq<CallModel>,
    events: Seq<EventModel>,
) -> bool {
    &&& d.data == (CallDataModel {
        kind: CallKind::Call,
        from: 0,
        to: 0,
        gas,
        gas_used,
        value,
        input,
        output,
        error: None::<Seq<u8>>,
        revert_reason,
    })
    &&& d.calls == if only_top_call {
        Seq::<CallModel>::empty()
    } else {
        recorded
    }
    &&& d.events == events
}

/// How one execution outcome is mapped onto the trace or an error: success
/// keeps the returned bytes; a revert empties the output and carries the
/// revert message, with whatever children were recorded up to the revert
/// point; a halt is fatal and surfaces its reason, never a partial trace.
pub open spec fn finish_outcome(
    gas_limit: u64,
    value: u64,
    calldata: Seq<u8>,
    only_top_call: bool,
    vm: VmExecutionResult,
    recorded: Seq<CallModel>,
    r: Result<DebugCall, TraceError>,
) -> bool {
    match vm.outcome {
        ExecutionOutcome::Halt { reason } => (r matches Err(e)
            && e matches TraceError::ExecutionHalted { reason: carried } && carried@ == reason@),
        ExecutionOutcome::Success { output } => (r matches Ok(d) && debug_call_shape(
            d@,
            gas_limit,
            vm.stats.gas_used,
            value,
            calldata,
            output@,
            None::<Seq<u8>>,
            only_top_call,
            recorded,
            events_model(vm.events@),
        )),
        ExecutionOutcome::Revert { output } => (r matches Ok(d) && debug_call_shape(
            d@,
            gas_limit,
            vm.stats.gas_used,
            value,
            calldata,
            Seq::<u8>::empty(),
            Some(output@),
            only_top_call,
            recorded,
            events_model(vm.events@),
        )),
    }
}

impl DebugNamespace {
    /// Begins a live re-execution: resolves the block reference (the
    /// pending tag when none is given), applies the gas default, prepares
    /// the transaction, and draws a sandbox permit. No tracer is attached
    /// when only the top call was requested. On `Busy` nothing was
    /// acquired; the caller suspends and starts over.
    pub fn start_trace_call(
        &mut self,
        request: CallRequest,
        block: Option<BlockReference>,
        options: Option<TracerConfig>,
    ) -> (r: Result<TraceCallStart, TraceError>)
        requires
            old(self).wf(),
        ensures
            final(self).wf(),
            final(self).fee_input() == old(self).fee_input(),
            final(self).default_call_gas() == old(self).default_call_gas(),
            final(self).gas_ceiling() == old(self).gas_ceiling(),
            final(self).store().same_data(&old(self).store()),
            final(self).store().connections() == connection_bump(old(self).store().connections()),
            final(self).limiter().capacity() == old(self).limiter().capacity(),
            final(self).limiter().is_draining() == old(self).limiter().is_draining(),
            match resolve_spec(
                old(self).store().head(),
                old(self).store().hashes(),
                effective_block(block),
            ) {
                Err(e) => (r matches Err(e2) && e2 == e) && final(self).limiter().granted()
                    == old(self).limiter().granted(),
                Ok(n) => if request.to is None {
                    (r matches Err(TraceError::DecodeError)) && final(self).limiter().granted()
                        == old(self).limiter().granted()
                } else if request.data@.len() > MAX_ENCODED_TX_SIZE {
                    (r matches Err(TraceError::PayloadTooLarge)) && final(self).limiter().granted()
                        == old(self).limiter().granted()
                } else if old(self).limiter().is_draining() {
                    (r matches Err(TraceError::ServerShuttingDown))
                        && final(self).limiter().granted() == old(self).limiter().granted()
                } else if old(self).limiter().granted() == old(self).limiter().capacity() {
                    (r matches Ok(s) && s is Busy)
                        && final(self).limiter().granted() == old(self).limiter().granted()
                } else {
                    final(self).limiter().granted() == old(self).limiter().granted() + 1 && (
                    r matches Ok(s) && s matches TraceCallStart::Started { session, invocation }
                        && session_matches(session, request, old(self).default_call_gas(), options)
                        && invocation.attach_call_tracer == !only_top(options)
                        && invocation.run_validation && invocation.overrides == request.overrides
                        && invocation.context == (ExecutionContext {
                        block_number: n,
                        snapshot: n,
                        fee_input: old(self).fee_input(),
                        gas_ceiling: old(self).gas_ceiling(),
                    }) && prepared_matches(
                        invocation.transaction,
                        request,
                        old(self).default_call_gas(),
                    ))
                },
            },
    {
        let only_top_call = only_top_requested(&options);
        let overrides = request.overrides;
        let eff = match block {
            Some(b) => b,
            None => BlockReference::Tag(BlockTag::Pending),
        };
        self.store.acquire_connection();
        let number = match self.store.resolve_block(eff) {
            Ok(n) => n,
            Err(e) => {
                return Err(e);
            },
        };
        let head = self.store.last_sealed_block();
        self.diagnostics.block_diff = block_diff(head, number);
        let tx = match prepare_transaction(request, self.default_call_gas) {
            Ok(t) => t,
            Err(e) => {
                return Err(e);
            },
        };
        let permit = match self.limiter.acquire() {
            AcquireOutcome::ShuttingDown => {
                return Err(TraceError::ServerShuttingDown);
            },
            AcquireOutcome::MustWait => {
                return Ok(TraceCallStart::Busy);
            },
            AcquireOutcome::Granted(p) => p,
        };
        let context = self.execution_context(number);
        let session_calldata = crate::call::clone_bytes(&tx.calldata);
        let session = TraceCallSession {
            permit,
            cell: CallTracerCell::new(),
            tx_gas_limit: tx.gas_limit,
            tx_value: tx.value,
            tx_calldata: session_calldata,
            tracer_attached: !only_top_call,
            only_top_call,
        };
        let invocation = VmInvocation {
            context,
            transaction: tx,
            overrides,
            attach_call_tracer: !only_top_call,
            run_validation: true,
        };
        Ok(TraceCallStart::Started { session, invocation })
    }

    /// Completes a live re-execution: releases the permit — exactly once,
    /// on every path, whatever the outcome — runs the tracer-cell handoff,
    /// and assembles the trace. The optional validation-mode observation is
    /// ignored: its result never affects what the caller gets.
    pub fn finish_trace_call(
        &mut self,
        session: TraceCallSession,
        vm: VmExecutionResult,
        recorded: Option<Vec<Call>>,
        validation: Option<VmExecutionResult>,
    ) -> (r: Result<DebugCall, TraceError>)
        requires
            old(self).wf(),
            old(self).limiter().granted() >= 1,
            session.cell_fresh(),
            recorded is Some ==> session.tracer_attached(),
        ensures
            final(self).wf(),
            final(self).fee_input() == old(self).fee_input(),
            final(self).default_call_gas() == old(self).default_call_gas(),
            final(self).gas_ceiling() == old(self).gas_ceiling(),
            final(self).store() == old(self).store(),
            final(self).diagnostics() == old(self).diagnostics(),
            final(self).limiter().capacity() == old(self).limiter().capacity(),
            final(self).limiter().is_draining() == old(self).limiter().is_draining(),
            final(self).limiter().granted() == old(self).limiter().granted() - 1,
            finish_outcome(
                session.gas_limit(),
                session.value(),
                session.calldata(),
                session.only_top_call(),
                vm,
                recorded_calls(recorded),
                r,
            ),
    {
        let TraceCallSession {
            permit,
            cell,
            tx_gas_limit,
            tx_value,
            tx_calldata,
            tracer_attached: _,
            only_top_call,
        } = session;
        let mut cell = cell;
        self.limiter.release(permit);
        let _ = validation;
        if let Some(tree) = recorded {
            cell.record(tree);
        }
        let trace = cell.claim();
        proof {
            assert(calls_model(Seq::<Call>::empty()) =~= Seq::<CallModel>::empty());
        }
        let VmExecutionResult { outcome, stats, events } = vm;
        match outcome {
            ExecutionOutcome::Halt { reason } => Err(TraceError::ExecutionHalted { reason }),
            ExecutionOutcome::Success { output } => {
                let call = Call::new_high_level(
                    tx_gas_limit,
                    stats.gas_used,
                    tx_value,
                    tx_calldata,
                    output,
                    None,
                    trace,
                );
                let mut d = DebugCall::from_call(call, only_top_call);
                d.events = events;
                Ok(d)
            },
            ExecutionOutcome::Revert { output } => {
                let call = Call::new_high_level(
                    tx_gas_limit,
                    stats.gas_used,
                    tx_value,
                    tx_calldata,
                    Vec::new(),
                    Some(output),
                    trace,
                );
                let mut d = DebugCall::from_call(call, only_top_call);
                d.events = events;
                Ok(d)
            },
        }
    }

    /// Traces one call by live re-execution, with the executor's response
    /// handed in: the composition of [`Self::start_trace_call`] and
    /// [`Self::finish_trace_call`]. The permit drawn for the execution is
    /// released again on every path, so the pool ends where it began.
    pub fn debug_trace_call_impl(
        &mut self,
        request: CallRequest,
        block: Option<BlockReference>,
        options: Option<TracerConfig>,
        vm: VmExecutionResult,
        recorded: Option<Vec<Call>>,
        validation: Option<VmExecutionResult>,
    ) -> (r: Result<DebugCall, TraceError>)
        requires
            old(self).wf(),
            old(self).limiter().granted() < old(self).limiter().capacity(),
            recorded is Some ==> !only_top(options),
        ensures
            final(self).wf(),
            final(self).same_but_connections(old(self)),
            final(self).store().connections() == connection_bump(old(self).store().connections()),
            match resolve_spec(
                old(self).store().head(),
                old(self).store().hashes(),
                effective_block(block),
            ) {
                Err(e) => (r matches Err(e2) && e2 == e),
                Ok(n) => if request.to is None {
                    r matches Err(TraceError::DecodeError)
                } else if request.data@.len() > MAX_ENCODED_TX_SIZE {
                    r matches Err(TraceError::PayloadTooLarge)
                } else if old(self).limiter().is_draining() {
                    r matches Err(TraceError::ServerShuttingDown)
                } else {
                    finish_outcome(
                        effective_gas(request.gas, old(self).default_call_gas()),
                        request.value,
                        request.data@,
                        only_top(options),
                        vm,
                        recorded_calls(recorded),
                        r,
                    )
                },
            },
    {
        match self.start_trace_call(request, block, options) {
            Err(e) => Err(e),
            Ok(TraceCallStart::Busy) => {
                proof {
                    assert(false);
                }
                unreached()
            },
            Ok(TraceCallStart::Started { session, invocation }) => {
                let _ = invocation;
                self.finish_trace_call(session, vm, recorded, validation)
            },
        }
    }
}

/// Law: re-running a call with identical inputs against an unchanged
/// snapshot yields a structurally identical trace. The sandbox is
/// deterministic over its snapshot, so equal requests receive equal
/// executor responses; two results assembled from equal inputs then agree
/// in every model field.
pub proof fn lemma_trace_call_idempotent(
    gas_limit: u64,
    value: u64,
    calldata: Seq<u8>,
    only_top_call: bool,
    vm: VmExecutionResult,
    recorded: Seq<CallModel>,
    r1: Result<DebugCall, TraceError>,
    r2: Result<DebugCall, TraceError>,
)
    requires
        finish_outcome(gas_limit, value, calldata, only_top_call, vm, recorded, r1),
        finish_outcome(gas_limit, value, calldata, only_top_call, vm, recorded, r2),
    ensures
        r1 is Ok <==> r2 is Ok,
        r1 is Ok ==> (r1->Ok_0)@ == (r2->Ok_0)@,
        r1 is Err ==> ((r1->Err_0) matches TraceError::ExecutionHalted { reason: x }
            && (r2->Err_0) matches TraceError::ExecutionHalted { reason: y } && x@ == y@),
{
    match vm.outcome {
        ExecutionOutcome::Halt { .. } => {},
        ExecutionOutcome::Success { .. } => {
            assert((r1->Ok_0)@ =~= (r2->Ok_0)@);
        },
        ExecutionOutcome::Revert { .. } => {
            assert((r1->Ok_0)@ =~= (r2->Ok_0)@);
        },
    }
}

/// Law: when only the top call is requested, the assembled trace is a
/// root-only call, whatever the executed call depth.
pub proof fn lemma_top_call_only(
    gas_limit: u64,
    value: u64,
    calldata: Seq<u8>,
    vm: VmExecutionResult,
    recorded: Seq<CallModel>,
    r: Result<DebugCall, TraceError>,
)
    requires
        finish_outcome(gas_limit, value, calldata, true, vm, recorded, r),
        r is Ok,
    ensures
        (r->Ok_0)@.calls == Seq::<CallModel>::empty(),
{
}

} // verus!
