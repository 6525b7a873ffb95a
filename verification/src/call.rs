//! Call trees: the raw node recorded by the tracer, the public hierarchical
//! trace, and their mathematical models.

use vstd::prelude::*;

verus! {

/// The kind of a contract call.
#[derive(Clone, Copy, Debug, PartialEq, Eq, Structural)]
pub enum CallKind {
    /// A plain contract call.
    Call,
    /// A contract deployment.
    Create,
}

/// The per-node payload shared by raw call nodes, hierarchical traces and
/// flat trace entries.
#[derive(Debug)]
pub struct CallData {
    pub kind: CallKind,
    pub from: u64,
    pub to: u64,
    pub gas: u64,
    pub gas_used: u64,
    pub value: u64,
    pub input: Vec<u8>,
    pub output: Vec<u8>,
    pub error: Option<Vec<u8>>,
    pub revert_reason: Option<Vec<u8>>,
}

/// Mathematical model of [`CallData`].
#[verifier::ext_equal]
pub struct CallDataModel {
    pub kind: CallKind,
    pub from: u64,
    pub to: u64,
    pub gas: u64,
    pub gas_used: u64,
    pub value: u64,
    pub input: Seq<u8>,
    pub output: Seq<u8>,
    pub error: Option<Seq<u8>>,
    pub revert_reason: Option<Seq<u8>>,
}

pub open spec fn opt_bytes_view(o: Option<Vec<u8>>) -> Option<Seq<u8>> {
    match o {
        Some(v) => Some(v@),
        None => None,
    }
}

impl View for CallData {
    type V = CallDataModel;

    open spec fn view(&self) -> CallDataModel {
        CallDataModel {
            kind: self.kind,
            from: self.from,
            to: self.to,
            gas: self.gas,
            gas_used: self.gas_used,
            value: self.value,
            input: self.input@,
            output: self.output@,
            error: opt_bytes_view(self.error),
            revert_reason: opt_bytes_view(self.revert_reason),
        }
    }
}

/// One raw node of the call tree recorded during execution. Children are
/// appended strictly in execution order; that ordering is load-bearing for
/// flattening.
#[derive(Debug)]
pub struct Call {
    pub data: CallData,
    pub calls: Vec<Call>,
}

/// Mathematical model of a [`Call`] tree.
#[verifier::ext_equal]
pub struct CallModel {
    pub data: CallDataModel,
    pub calls: Seq<CallModel>,
}

pub open spec fn call_model(c: Call) -> CallModel
    decreases c,
{
    CallModel { data: c.data@, calls: calls_model(c.calls@) }
}

pub open spec fn calls_model(s: Seq<Call>) -> Seq<CallModel>
    decreases s,
{
    if s.len() == 0 {
        Seq::empty()
    } else {
        calls_model(s.subrange(0, s.len() - 1)).push(call_model(s[s.len() - 1]))
    }
}

impl View for Call {
    type V = CallModel;

    open spec fn view(&self) -> CallModel {
        call_model(*self)
    }
}

pub proof fn lemma_calls_model(s: Seq<Call>)
    ensures
        calls_model(s).len() == s.len(),
        forall|i: int| 0 <= i < s.len() ==> calls_model(s)[i] == call_model(s[i]),
    decreases s.len(),
{
    if s.len() > 0 {
        lemma_calls_model(s.subrange(0, s.len() - 1));
    }
}

/// Copies a byte vector; the copy has the same contents.
pub fn clone_bytes(v: &Vec<u8>) -> (r: Vec<u8>)
    ensures
        r@ == v@,
{
    let r = v.clone();
    proof {
        assert(r@ =~= v@);
    }
    r
}

/// Copies an optional byte vector.
pub fn clone_opt_bytes(o: &Option<Vec<u8>>) -> (r: Option<Vec<u8>>)
    ensures
        opt_bytes_view(r) == opt_bytes_view(*o),
{
    match o {
        Some(v) => Some(clone_bytes(v)),
        None => None,
    }
}

impl CallData {
    /// Copies the payload; the copy has the same model.
    pub fn duplicate(&self) -> (r: CallData)
        ensures
            r@ == self@,
    {
        CallData {
            kind: self.kind,
            from: self.from,
            to: self.to,
            gas: self.gas,
            gas_used: self.gas_used,
            value: self.value,
            input: clone_bytes(&self.input),
            output: clone_bytes(&self.output),
            error: clone_opt_bytes(&self.error),
            revert_reason: clone_opt_bytes(&self.revert_reason),
        }
    }
}

impl Call {
    /// Copies the whole call tree; the copy has the same model.
    pub fn duplicate(&self) -> (r: Call)
        ensures
            r@ == self@,
        decreases *self,
    {
        let mut calls: Vec<Call> = Vec::new();
        let n = self.calls.len();
        let mut i: usize = 0;
        while i < n
            invariant
                n == self.calls@.len(),
                i <= n,
                calls@.len() == i as int,
                forall|k: int| 0 <= k < i ==> calls@[k]@ == self.calls@[k]@,
            decreases n - i,
        {
            proof {
                assert(decreases_to!(*self => self.calls@[i as int]));
            }
            let child = self.calls[i].duplicate();
            calls.push(child);
            i += 1;
        }
        proof {
            lemma_calls_model(calls@);
            lemma_calls_model(self.calls@);
            assert(calls_model(calls@) =~= calls_model(self.calls@));
        }
        Call { data: self.data.duplicate(), calls }
    }

    /// Builds the root node of a trace from the transaction's own fields, the
    /// execution outcome, and the recorded subcalls.
    pub fn new_high_level(
        gas: u64,
        gas_used: u64,
        value: u64,
        input: Vec<u8>,
        output: Vec<u8>,
        revert_reason: Option<Vec<u8>>,
        calls: Vec<Call>,
    ) -> (r: Call)
        ensures
            r@.data == (CallDataModel {
                kind: CallKind::Call,
                from: 0,
                to: 0,
                gas,
                gas_used,
                value,
                input: input@,
                output: output@,
                error: None::<Seq<u8>>,
                revert_reason: opt_bytes_view(revert_reason),
            }),
            r@.calls == calls_model(calls@),
    {
        Call {
            data: CallData {
                kind: CallKind::Call,
                from: 0,
                to: 0,
                gas,
                gas_used,
                value,
                input,
                output,
                error: None,
                revert_reason,
            },
            calls,
        }
    }
}

/// Copies a sequence of call trees; the copy has the same model.
pub fn clone_calls(v: &Vec<Call>) -> (r: Vec<Call>)
    ensures
        calls_model(r@) == calls_model(v@),
{
    let mut out: Vec<Call> = Vec::new();
    let n = v.len();
    let mut i: usize = 0;
    while i < n
        invariant
            n == v@.len(),
            i <= n,
            out@.len() == i as int,
            forall|k: int| 0 <= k < i ==> out@[k]@ == v@[k]@,
        decreases n - i,
    {
        let child = v[i].duplicate();
        out.push(child);
        i += 1;
    }
    proof {
        lemma_calls_model(out@);
        lemma_calls_model(v@);
        assert(calls_model(out@) =~= calls_model(v@));
    }
    out
}

/// An event emitted during execution.
#[derive(Debug)]
pub struct Event {
    pub address: u64,
    pub payload: Vec<u8>,
}

/// Mathematical model of an [`Event`].
#[verifier::ext_equal]
pub struct EventModel {
    pub address: u64,
    pub payload: Seq<u8>,
}

impl View for Event {
    type V = EventModel;

    open spec fn view(&self) -> EventModel {
        EventModel { address: self.address, payload: self.payload@ }
    }
}

pub open spec fn events_model(s: Seq<Event>) -> Seq<EventModel> {
    Seq::new(s.len(), |i: int| s[i]@)
}

/// The public hierarchical trace: the root call's data, its subcall trees,
/// and the events emitted by the execution. Children are cleared entirely
/// when only the top call was requested; the root itself is never omitted.
#[derive(Debug)]
pub struct DebugCall {
    pub data: CallData,
    pub calls: Vec<Call>,
    pub events: Vec<Event>,
}

/// Mathematical model of a [`DebugCall`].
#[verifier::ext_equal]
pub struct DebugCallModel {
    pub data: CallDataModel,
    pub calls: Seq<CallModel>,
    pub events: Seq<EventModel>,
}

impl View for DebugCall {
    type V = DebugCallModel;

    open spec fn view(&self) -> DebugCallModel {
        DebugCallModel {
            data: self.data@,
            calls: calls_model(self.calls@),
            events: events_model(self.events@),
        }
    }
}

impl DebugCall {
    /// Turns a stored call tree into a hierarchical trace, discarding the
    /// root's children when only the top call was requested. No events are
    /// attached on this path: stored traces carry none.
    pub fn from_call(root: Call, only_top_call: bool) -> (r: DebugCall)
        ensures
            r@.data == root@.data,
            r@.calls == if only_top_call { Seq::<CallModel>::empty() } else { root@.calls },
            r@.events == Seq::<EventModel>::empty(),
    {
        let Call { data, calls } = root;
        let calls = if only_top_call { Vec::new() } else { calls };
        proof {
            assert(events_model(Seq::<Event>::empty()) =~= Seq::<EventModel>::empty());
        }
        DebugCall { data, calls, events: Vec::new() }
    }
}

/// One per-transaction entry of a block-wide trace.
#[derive(Debug)]
pub struct ResultDebugCall {
    pub result: DebugCall,
}

/// Per-request tracer options.
#[derive(Clone, Copy, Debug, PartialEq, Eq, Structural)]
pub struct TracerConfig {
    pub only_top_call: bool,
}

/// Whether the options ask for the top call only; absent options do not.
pub open spec fn only_top(options: Option<TracerConfig>) -> bool {
    match options {
        Some(t) => t.only_top_call,
        None => false,
    }
}

pub fn only_top_requested(options: &Option<TracerConfig>) -> (r: bool)
    ensures
        r == only_top(*options),
{
    match options {
        Some(t) => t.only_top_call,
        None => false,
    }
}

} // verus!
