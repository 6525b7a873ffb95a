use debug_tracer::call::{Call, CallData, CallKind, DebugCall, Event, TracerConfig};
use debug_tracer::errors::TraceError;
use debug_tracer::flatten::flatten_debug_call;
use debug_tracer::namespace::{DebugNamespace, TraceCallStart};
use debug_tracer::permit::VmConcurrencyLimiter;
use debug_tracer::resolver::{BlockReference, BlockTag};
use debug_tracer::storage::TraceStore;
use debug_tracer::vm::{
    prepare_transaction, CallRequest, ExecutionOutcome, ExecutionStats, VmExecutionResult,
    MAX_ENCODED_TX_SIZE,
};

fn mk_data(tag: u64) -> CallData {
    CallData {
        kind: CallKind::Call,
        from: tag,
        to: tag + 1,
        gas: 1000 + tag,
        gas_used: 10 + tag,
        value: tag,
        input: vec![tag as u8],
        output: vec![],
        error: None,
        revert_reason: None,
    }
}

fn leaf(tag: u64) -> Call {
    Call { data: mk_data(tag), calls: vec![] }
}

fn base_request() -> CallRequest {
    CallRequest {
        from: 5,
        to: Some(9),
        value: 100,
        data: vec![1, 2, 3],
        gas: Some(50_000),
        signature: vec![],
        overrides: None,
    }
}

fn vm_result(outcome: ExecutionOutcome) -> VmExecutionResult {
    VmExecutionResult { outcome, stats: ExecutionStats { gas_used: 21_000 }, events: vec![] }
}

fn mk_namespace(head: u64, capacity: usize) -> DebugNamespace {
    DebugNamespace::new(
        250,
        1_000_000,
        80_000_000,
        TraceStore::new(head),
        VmConcurrencyLimiter::new(capacity),
    )
}

fn assert_same_call(a: &Call, b: &Call) {
    assert_eq!(a.data.from, b.data.from);
    assert_eq!(a.data.to, b.data.to);
    assert_eq!(a.data.gas, b.data.gas);
    assert_eq!(a.data.gas_used, b.data.gas_used);
    assert_eq!(a.data.value, b.data.value);
    assert_eq!(a.data.input, b.data.input);
    assert_eq!(a.data.output, b.data.output);
    assert_eq!(a.data.error, b.data.error);
    assert_eq!(a.data.revert_reason, b.data.revert_reason);
    assert_eq!(a.calls.len(), b.calls.len());
    for i in 0..a.calls.len() {
        assert_same_call(&a.calls[i], &b.calls[i]);
    }
}

fn assert_same_debug(a: &DebugCall, b: &DebugCall) {
    assert_eq!(a.data.gas, b.data.gas);
    assert_eq!(a.data.gas_used, b.data.gas_used);
    assert_eq!(a.data.value, b.data.value);
    assert_eq!(a.data.input, b.data.input);
    assert_eq!(a.data.output, b.data.output);
    assert_eq!(a.data.revert_reason, b.data.revert_reason);
    assert_eq!(a.calls.len(), b.calls.len());
    for i in 0..a.calls.len() {
        assert_same_call(&a.calls[i], &b.calls[i]);
    }
    assert_eq!(a.events.len(), b.events.len());
}

#[test]
fn pending_block_trace_is_empty_without_storage() {
    let mut ns = mk_namespace(10, 2);
    assert_eq!(ns.storage_connections(), 0);
    let r = ns.debug_trace_block_impl(BlockReference::Tag(BlockTag::Pending), None).unwrap();
    assert_eq!(r.len(), 0);
    assert_eq!(ns.storage_connections(), 0);
}

#[test]
fn pending_block_flat_trace_is_empty_without_storage() {
    let mut ns = mk_namespace(10, 2);
    let r = ns.debug_trace_block_flat_impl(BlockReference::Tag(BlockTag::Pending), None).unwrap();
    assert_eq!(r.len(), 0);
    assert_eq!(ns.storage_connections(), 0);
}

#[test]
fn sealed_block_trace_counts_a_connection() {
    let mut store = TraceStore::new(10);
    store.insert_block_traces(4, vec![leaf(1)]);
    let mut ns =
        DebugNamespace::new(250, 1_000, 2_000, store, VmConcurrencyLimiter::new(1));
    let r = ns.debug_trace_block_impl(BlockReference::Number(4), None).unwrap();
    assert_eq!(r.len(), 1);
    assert_eq!(r[0].result.data.from, 1);
    assert_eq!(ns.storage_connections(), 1);
}

#[test]
fn block_trace_unknown_number_is_not_found() {
    let mut ns = mk_namespace(10, 1);
    let r = ns.debug_trace_block_impl(BlockReference::Number(11), None);
    assert!(matches!(r, Err(TraceError::NotFound)));
}

#[test]
fn block_trace_by_hash() {
    let mut store = TraceStore::new(10);
    store.insert_block_hash(77, 4);
    store.insert_block_traces(4, vec![leaf(6)]);
    let mut ns =
        DebugNamespace::new(250, 1_000, 2_000, store, VmConcurrencyLimiter::new(1));
    let r = ns.debug_trace_block_impl(BlockReference::Hash(77), None).unwrap();
    assert_eq!(r.len(), 1);
    assert_eq!(r[0].result.data.from, 6);
}

#[test]
fn block_trace_unknown_hash_is_not_found() {
    let mut ns = mk_namespace(10, 1);
    let r = ns.debug_trace_block_impl(BlockReference::Hash(123), None);
    assert!(matches!(r, Err(TraceError::NotFound)));
}

#[test]
fn block_without_stored_traces_is_empty() {
    let mut ns = mk_namespace(10, 1);
    let r = ns.debug_trace_block_impl(BlockReference::Number(3), None).unwrap();
    assert_eq!(r.len(), 0);
}

#[test]
fn block_trace_top_call_only_drops_children() {
    let mut store = TraceStore::new(10);
    let root = Call { data: mk_data(1), calls: vec![leaf(2), leaf(3)] };
    store.insert_block_traces(4, vec![root]);
    let mut ns =
        DebugNamespace::new(250, 1_000, 2_000, store, VmConcurrencyLimiter::new(1));
    let top = Some(TracerConfig { only_top_call: true });
    let r = ns.debug_trace_block_impl(BlockReference::Number(4), top).unwrap();
    assert_eq!(r.len(), 1);
    assert!(r[0].result.calls.is_empty());
    let full = ns.debug_trace_block_impl(BlockReference::Number(4), None).unwrap();
    assert_eq!(full[0].result.calls.len(), 2);
}

#[test]
fn block_flat_trace_of_stored_block() {
    let mut store = TraceStore::new(10);
    let root = Call { data: mk_data(1), calls: vec![leaf(2)] };
    store.insert_block_traces(4, vec![root, leaf(9)]);
    let mut ns =
        DebugNamespace::new(250, 1_000, 2_000, store, VmConcurrencyLimiter::new(1));
    let flat = ns.debug_trace_block_flat_impl(BlockReference::Number(4), None).unwrap();
    assert_eq!(flat.len(), 3);
    assert_eq!(flat[0].trace_address, Vec::<usize>::new());
    assert_eq!(flat[1].trace_address, vec![0]);
    assert_eq!(flat[2].trace_address, Vec::<usize>::new());
    assert_eq!(flat[2].data.from, 9);
}

#[test]
fn transaction_trace_unknown_hash_is_absent() {
    let mut ns = mk_namespace(5, 1);
    let r = ns.debug_trace_transaction_impl(0xdead, None).unwrap();
    assert!(r.is_none());
}

#[test]
fn transaction_trace_known_hash() {
    let mut store = TraceStore::new(5);
    store.insert_tx_trace(42, Call { data: mk_data(1), calls: vec![leaf(2)] });
    let mut ns =
        DebugNamespace::new(250, 1_000, 2_000, store, VmConcurrencyLimiter::new(1));
    let d = ns.debug_trace_transaction_impl(42, None).unwrap().unwrap();
    assert_eq!(d.data.from, 1);
    assert_eq!(d.calls.len(), 1);
    let top = Some(TracerConfig { only_top_call: true });
    let d2 = ns.debug_trace_transaction_impl(42, top).unwrap().unwrap();
    assert!(d2.calls.is_empty());
}

#[test]
fn trace_call_success_assembles_root() {
    let mut ns = mk_namespace(10, 1);
    let vm = vm_result(ExecutionOutcome::Success { output: vec![0xaa] });
    let recorded = Some(vec![leaf(8)]);
    let d = ns
        .debug_trace_call_impl(
            base_request(),
            Some(BlockReference::Number(3)),
            None,
            vm,
            recorded,
            None,
        )
        .unwrap();
    assert_eq!(d.data.gas, 50_000);
    assert_eq!(d.data.gas_used, 21_000);
    assert_eq!(d.data.value, 100);
    assert_eq!(d.data.input, vec![1, 2, 3]);
    assert_eq!(d.data.output, vec![0xaa]);
    assert!(d.data.revert_reason.is_none());
    assert_eq!(d.calls.len(), 1);
    assert_eq!(d.calls[0].data.from, 8);
}

#[test]
fn trace_call_attaches_events() {
    let mut ns = mk_namespace(10, 1);
    let vm = VmExecutionResult {
        outcome: ExecutionOutcome::Success { output: vec![] },
        stats: ExecutionStats { gas_used: 7 },
        events: vec![Event { address: 3, payload: vec![9, 9] }],
    };
    let d = ns.debug_trace_call_impl(base_request(), None, None, vm, None, None).unwrap();
    assert_eq!(d.events.len(), 1);
    assert_eq!(d.events[0].address, 3);
    assert_eq!(d.events[0].payload, vec![9, 9]);
}

#[test]
fn trace_call_revert_keeps_children_and_reason() {
    let mut ns = mk_namespace(10, 1);
    let vm = vm_result(ExecutionOutcome::Revert { output: b"insufficient balance".to_vec() });
    let recorded = Some(vec![leaf(4)]);
    let d = ns.debug_trace_call_impl(base_request(), None, None, vm, recorded, None).unwrap();
    assert!(d.data.output.is_empty());
    assert_eq!(d.data.revert_reason, Some(b"insufficient balance".to_vec()));
    assert_eq!(d.calls.len(), 1);
    assert_eq!(d.calls[0].data.from, 4);
}

#[test]
fn trace_call_halt_is_submission_error() {
    let mut ns = mk_namespace(10, 1);
    let vm = vm_result(ExecutionOutcome::Halt { reason: b"out of gas".to_vec() });
    let r = ns.debug_trace_call_impl(base_request(), None, None, vm, None, None);
    match r {
        Err(TraceError::ExecutionHalted { reason }) => {
            assert_eq!(reason, b"out of gas".to_vec());
        },
        _ => panic!("a halt must fail the trace request"),
    }
}

#[test]
fn trace_call_top_call_only_has_no_children() {
    let mut ns = mk_namespace(10, 1);
    let top = Some(TracerConfig { only_top_call: true });
    let vm = vm_result(ExecutionOutcome::Success { output: vec![] });
    let d = ns.debug_trace_call_impl(base_request(), None, top, vm, None, None).unwrap();
    assert!(d.calls.is_empty());
}

#[test]
fn start_does_not_attach_tracer_for_top_call() {
    let mut ns = mk_namespace(10, 1);
    let top = Some(TracerConfig { only_top_call: true });
    match ns.start_trace_call(base_request(), None, top).unwrap() {
        TraceCallStart::Started { session: _, invocation } => {
            assert!(!invocation.attach_call_tracer);
        },
        TraceCallStart::Busy => panic!("expected a permit"),
    }
}

#[test]
fn start_attaches_tracer_for_full_trace() {
    let mut ns = mk_namespace(10, 1);
    match ns.start_trace_call(base_request(), None, None).unwrap() {
        TraceCallStart::Started { session: _, invocation } => {
            assert!(invocation.attach_call_tracer);
            assert!(invocation.run_validation);
            assert_eq!(invocation.context.block_number, 11);
            assert_eq!(invocation.context.fee_input, 250);
            assert_eq!(invocation.transaction.gas_limit, 50_000);
        },
        TraceCallStart::Busy => panic!("expected a permit"),
    }
}

#[test]
fn start_reports_busy_at_capacity() {
    let mut ns = mk_namespace(10, 1);
    let first = ns.start_trace_call(base_request(), None, None).unwrap();
    assert!(matches!(first, TraceCallStart::Started { .. }));
    let second = ns.start_trace_call(base_request(), None, None).unwrap();
    assert!(matches!(second, TraceCallStart::Busy));
}

#[test]
fn finish_releases_the_permit_on_halt_too() {
    let mut ns = mk_namespace(10, 1);
    let started = ns.start_trace_call(base_request(), None, None).unwrap();
    let session = match started {
        TraceCallStart::Started { session, invocation: _ } => session,
        TraceCallStart::Busy => panic!("expected a permit"),
    };
    let vm = vm_result(ExecutionOutcome::Halt { reason: b"boom".to_vec() });
    let r = ns.finish_trace_call(session, vm, None, None);
    assert!(matches!(r, Err(TraceError::ExecutionHalted { .. })));
    // the permit went back: a new execution can start at once
    let again = ns.start_trace_call(base_request(), None, None).unwrap();
    assert!(matches!(again, TraceCallStart::Started { .. }));
}

#[test]
fn trace_call_decode_error_without_callee() {
    let mut ns = mk_namespace(10, 1);
    let mut request = base_request();
    request.to = None;
    let vm = vm_result(ExecutionOutcome::Success { output: vec![] });
    let r = ns.debug_trace_call_impl(request, None, None, vm, None, None);
    assert!(matches!(r, Err(TraceError::DecodeError)));
}

#[test]
fn trace_call_payload_too_large() {
    let mut ns = mk_namespace(10, 1);
    let mut request = base_request();
    request.data = vec![0; MAX_ENCODED_TX_SIZE + 1];
    let vm = vm_result(ExecutionOutcome::Success { output: vec![] });
    let r = ns.debug_trace_call_impl(request, None, None, vm, None, None);
    assert!(matches!(r, Err(TraceError::PayloadTooLarge)));
}

#[test]
fn trace_call_rejected_while_draining() {
    let mut limiter = VmConcurrencyLimiter::new(1);
    limiter.start_draining();
    let mut ns = DebugNamespace::new(250, 1_000, 2_000, TraceStore::new(10), limiter);
    let vm = vm_result(ExecutionOutcome::Success { output: vec![] });
    let r = ns.debug_trace_call_impl(base_request(), None, None, vm, None, None);
    assert!(matches!(r, Err(TraceError::ServerShuttingDown)));
}

#[test]
fn trace_call_unknown_block_is_not_found() {
    let mut ns = mk_namespace(10, 1);
    let vm = vm_result(ExecutionOutcome::Success { output: vec![] });
    let r = ns.debug_trace_call_impl(
        base_request(),
        Some(BlockReference::Number(99)),
        None,
        vm,
        None,
        None,
    );
    assert!(matches!(r, Err(TraceError::NotFound)));
}

#[test]
fn trace_call_idempotent() {
    let recorded = || Some(vec![Call { data: mk_data(4), calls: vec![leaf(5)] }]);
    let vm = || vm_result(ExecutionOutcome::Success { output: vec![0xcc] });
    let mut ns1 = mk_namespace(10, 1);
    let d1 = ns1
        .debug_trace_call_impl(base_request(), None, None, vm(), recorded(), None)
        .unwrap();
    let mut ns2 = mk_namespace(10, 1);
    let d2 = ns2
        .debug_trace_call_impl(base_request(), None, None, vm(), recorded(), None)
        .unwrap();
    assert_same_debug(&d1, &d2);
}

#[test]
fn live_trace_flattens_in_preorder() {
    let mut ns = mk_namespace(10, 1);
    let vm = vm_result(ExecutionOutcome::Success { output: vec![] });
    let recorded = Some(vec![Call { data: mk_data(2), calls: vec![leaf(3)] }]);
    let d = ns.debug_trace_call_impl(base_request(), None, None, vm, recorded, None).unwrap();
    let flat = flatten_debug_call(&d);
    assert_eq!(flat.len(), 3);
    assert_eq!(flat[0].trace_address, Vec::<usize>::new());
    assert_eq!(flat[1].trace_address, vec![0]);
    assert_eq!(flat[2].trace_address, vec![0, 0]);
    assert_eq!(flat[0].subtraces, 1);
    assert_eq!(flat[1].data.from, 2);
    assert_eq!(flat[2].data.from, 3);
}

#[test]
fn block_flat_top_call_only_keeps_roots_only() {
    let mut store = TraceStore::new(10);
    let root = Call { data: mk_data(1), calls: vec![leaf(2), leaf(3)] };
    store.insert_block_traces(4, vec![root]);
    let mut ns =
        DebugNamespace::new(250, 1_000, 2_000, store, VmConcurrencyLimiter::new(1));
    let top = Some(TracerConfig { only_top_call: true });
    let flat = ns.debug_trace_block_flat_impl(BlockReference::Number(4), top).unwrap();
    assert_eq!(flat.len(), 1);
    assert_eq!(flat[0].subtraces, 0);
    assert_eq!(flat[0].trace_address, Vec::<usize>::new());
}

#[test]
fn prepare_defaults_gas_and_signature() {
    let mut request = base_request();
    request.gas = None;
    request.signature = vec![];
    let tx = prepare_transaction(request, 777).unwrap();
    assert_eq!(tx.gas_limit, 777);
    assert_eq!(tx.signature, vec![0u8; 65]);
    assert_eq!(tx.to, 9);
    assert_eq!(tx.calldata, vec![1, 2, 3]);
}

#[test]
fn prepare_keeps_explicit_gas_and_signature() {
    let mut request = base_request();
    request.gas = Some(123);
    request.signature = vec![7, 7];
    let tx = prepare_transaction(request, 777).unwrap();
    assert_eq!(tx.gas_limit, 123);
    assert_eq!(tx.signature, vec![7, 7]);
}
