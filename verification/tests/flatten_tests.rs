use debug_tracer::call::{Call, CallData, CallKind, DebugCall, ResultDebugCall};
use debug_tracer::flatten::{flatten_debug_call, flatten_debug_calls};

fn mk_data(tag: u64) -> CallData {
    CallData {
        kind: CallKind::Call,
        from: tag,
        to: tag + 1,
        gas: 1000 + tag,
        gas_used: 10 + tag,
        value: tag,
        input: vec![tag as u8],
        output: vec![],
        error: None,
        revert_reason: None,
    }
}

fn leaf(tag: u64) -> Call {
    Call { data: mk_data(tag), calls: vec![] }
}

#[test]
fn flatten_single_node_trace() {
    let d = DebugCall { data: mk_data(7), calls: vec![], events: vec![] };
    let flat = flatten_debug_call(&d);
    assert_eq!(flat.len(), 1);
    assert_eq!(flat[0].trace_address, Vec::<usize>::new());
    assert_eq!(flat[0].subtraces, 0);
    assert_eq!(flat[0].data.from, 7);
}

#[test]
fn flatten_three_level_chain() {
    // A transaction calling contract A, which calls B, which calls C, with
    // no reverts: three entries in pre-order.
    let c = leaf(3);
    let b = Call { data: mk_data(2), calls: vec![c] };
    let a = DebugCall { data: mk_data(1), calls: vec![b], events: vec![] };
    let flat = flatten_debug_call(&a);
    assert_eq!(flat.len(), 3);
    assert_eq!(flat[0].trace_address, Vec::<usize>::new());
    assert_eq!(flat[1].trace_address, vec![0]);
    assert_eq!(flat[2].trace_address, vec![0, 0]);
    assert_eq!(flat[0].subtraces, 1);
    assert_eq!(flat[1].subtraces, 1);
    assert_eq!(flat[2].subtraces, 0);
    assert_eq!(flat[0].data.from, 1);
    assert_eq!(flat[1].data.from, 2);
    assert_eq!(flat[2].data.from, 3);
}

#[test]
fn flatten_entry_count_equals_node_count() {
    let tree = DebugCall {
        data: mk_data(0),
        calls: vec![Call { data: mk_data(1), calls: vec![leaf(2), leaf(3)] }, leaf(4)],
        events: vec![],
    };
    let flat = flatten_debug_call(&tree);
    assert_eq!(flat.len(), 5);
    assert_eq!(flat[0].trace_address, Vec::<usize>::new());
}

#[test]
fn flatten_sibling_addresses_contiguous() {
    let tree = DebugCall {
        data: mk_data(0),
        calls: vec![leaf(1), leaf(2), leaf(3)],
        events: vec![],
    };
    let flat = flatten_debug_call(&tree);
    assert_eq!(flat.len(), 4);
    assert_eq!(flat[0].subtraces, 3);
    assert_eq!(flat[1].trace_address, vec![0]);
    assert_eq!(flat[2].trace_address, vec![1]);
    assert_eq!(flat[3].trace_address, vec![2]);
    assert_eq!(flat[1].data.from, 1);
    assert_eq!(flat[2].data.from, 2);
    assert_eq!(flat[3].data.from, 3);
}

#[test]
fn flatten_deep_tree_keeps_parent_prefix() {
    let tree = DebugCall {
        data: mk_data(0),
        calls: vec![Call {
            data: mk_data(1),
            calls: vec![leaf(2), Call { data: mk_data(3), calls: vec![leaf(4)] }],
        }],
        events: vec![],
    };
    let flat = flatten_debug_call(&tree);
    assert_eq!(flat.len(), 5);
    assert_eq!(flat[1].trace_address, vec![0]);
    assert_eq!(flat[2].trace_address, vec![0, 0]);
    assert_eq!(flat[3].trace_address, vec![0, 1]);
    assert_eq!(flat[4].trace_address, vec![0, 1, 0]);
    assert_eq!(flat[3].subtraces, 1);
    assert_eq!(flat[4].subtraces, 0);
}

#[test]
fn flatten_block_concatenates_transactions() {
    let first = DebugCall { data: mk_data(1), calls: vec![leaf(2)], events: vec![] };
    let second = DebugCall { data: mk_data(3), calls: vec![], events: vec![] };
    let block = vec![ResultDebugCall { result: first }, ResultDebugCall { result: second }];
    let flat = flatten_debug_calls(&block);
    assert_eq!(flat.len(), 3);
    assert_eq!(flat[0].trace_address, Vec::<usize>::new());
    assert_eq!(flat[1].trace_address, vec![0]);
    assert_eq!(flat[2].trace_address, Vec::<usize>::new());
    assert_eq!(flat[2].data.from, 3);
}

#[test]
fn flatten_empty_block() {
    let block: Vec<ResultDebugCall> = vec![];
    let flat = flatten_debug_calls(&block);
    assert_eq!(flat.len(), 0);
}

#[test]
fn flatten_copies_node_payload() {
    let mut data = mk_data(5);
    data.output = vec![0xde, 0xad];
    data.revert_reason = Some(b"nope".to_vec());
    let d = DebugCall { data, calls: vec![], events: vec![] };
    let flat = flatten_debug_call(&d);
    assert_eq!(flat[0].data.output, vec![0xde, 0xad]);
    assert_eq!(flat[0].data.revert_reason, Some(b"nope".to_vec()));
    assert_eq!(flat[0].data.input, vec![5u8]);
}
