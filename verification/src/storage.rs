//! The historical trace store: the model of the external storage that keeps
//! raw call traces of already-sealed blocks and transactions, together with
//! the chain-head metadata the resolver reads. Connections to it are a
//! bounded external resource; every acquisition is counted, so contracts can
//! state when storage was not touched at all.

use vstd::prelude::*;

use crate::call::{call_model, calls_model, clone_calls, Call, CallModel};

verus! {

/// First-match lookup of `key` in an association list.
pub open spec fn lookup_key<V>(s: Seq<(u64, V)>, key: u64) -> Option<V>
    decreases s.len(),
{
    if s.len() == 0 {
        None
    } else if s[0].0 == key {
        Some(s[0].1)
    } else {
        lookup_key(s.subrange(1, s.len() as int), key)
    }
}

pub proof fn lemma_lookup_key_prefix<V>(s: Seq<(u64, V)>, key: u64, i: int)
    requires
        0 <= i <= s.len(),
        forall|k: int| 0 <= k < i ==> (#[trigger] s[k]).0 != key,
    ensures
        lookup_key(s, key) == lookup_key(s.subrange(i, s.len() as int), key),
    decreases i,
{
    if i > 0 {
        let tail = s.subrange(1, s.len() as int);
        lemma_lookup_key_prefix(tail, key, i - 1);
        assert(tail.subrange(i - 1, tail.len() as int) =~= s.subrange(i, s.len() as int));
    } else {
        assert(s.subrange(0, s.len() as int) =~= s);
    }
}

/// Finds the first entry keyed `key`; returns its position.
pub fn find_key_index<V>(v: &Vec<(u64, V)>, key: u64) -> (r: Option<usize>)
    ensures
        match r {
            Some(i) => {
                &&& (i as int) < v@.len()
                &&& v@[i as int].0 == key
                &&& lookup_key(v@, key) == Some(v@[i as int].1)
            },
            None => lookup_key(v@, key) is None,
        },
{
    let n = v.len();
    let mut i: usize = 0;
    while i < n
        invariant
            n == v@.len(),
            i <= n,
            forall|k: int| 0 <= k < i ==> (#[trigger] v@[k]).0 != key,
        decreases n - i,
    {
        if v[i].0 == key {
            proof {
                lemma_lookup_key_prefix(v@, key, i as int);
                assert(v@.subrange(i as int, v@.len() as int)[0] == v@[i as int]);
            }
            return Some(i);
        }
        i += 1;
    }
    proof {
        lemma_lookup_key_prefix(v@, key, n as int);
        assert(v@.subrange(n as int, v@.len() as int) =~= Seq::<(u64, V)>::empty());
    }
    None
}

/// A connection count one higher, saturating at the counter's ceiling.
pub open spec fn connection_bump(n: u64) -> u64 {
    if n == u64::MAX {
        n
    } else {
        (n + 1) as u64
    }
}

/// The store: per-block call traces, per-transaction call traces, the
/// hash-to-number index, the chain head, and the connection counter.
#[derive(Debug)]
pub struct TraceStore {
    head: u64,
    block_traces: Vec<(u64, Vec<Call>)>,
    tx_traces: Vec<(u64, Call)>,
    block_hashes: Vec<(u64, u64)>,
    connections: u64,
}

impl TraceStore {
    /// The number of the last sealed block.
    pub closed spec fn head(&self) -> u64 {
        self.head
    }

    /// The stored block traces, keyed by block number.
    pub closed spec fn blocks(&self) -> Seq<(u64, Vec<Call>)> {
        self.block_traces@
    }

    /// The stored transaction traces, keyed by transaction hash.
    pub closed spec fn txs(&self) -> Seq<(u64, Call)> {
        self.tx_traces@
    }

    /// The hash-to-number index.
    pub closed spec fn hashes(&self) -> Seq<(u64, u64)> {
        self.block_hashes@
    }

    /// How many storage connections were acquired so far.
    pub closed spec fn connections(&self) -> u64 {
        self.connections
    }

    /// Block numbers stay below the counter ceiling, so the block after the
    /// head (the pending one) still has a number.
    pub open spec fn wf(&self) -> bool {
        self.head() < u64::MAX
    }

    /// The stored data of two store states is the same; the connection
    /// counters may differ.
    pub open spec fn same_data(&self, other: &TraceStore) -> bool {
        &&& self.head() == other.head()
        &&& self.blocks() == other.blocks()
        &&& self.txs() == other.txs()
        &&& self.hashes() == other.hashes()
    }

    pub fn new(head: u64) -> (r: Self)
        requires
            head < u64::MAX,
        ensures
            r.head() == head,
            r.blocks() == Seq::<(u64, Vec<Call>)>::empty(),
            r.txs() == Seq::<(u64, Call)>::empty(),
            r.hashes() == Seq::<(u64, u64)>::empty(),
            r.connections() == 0,
            r.wf(),
    {
        let r = TraceStore {
            head,
            block_traces: Vec::new(),
            tx_traces: Vec::new(),
            block_hashes: Vec::new(),
            connections: 0,
        };
        proof {
            assert(r.blocks() =~= Seq::<(u64, Vec<Call>)>::empty());
            assert(r.txs() =~= Seq::<(u64, Call)>::empty());
            assert(r.hashes() =~= Seq::<(u64, u64)>::empty());
        }
        r
    }

    pub fn insert_block_traces(&mut self, number: u64, traces: Vec<Call>)
        ensures
            final(self).blocks() == old(self).blocks().push((number, traces)),
            final(self).head() == old(self).head(),
            final(self).txs() == old(self).txs(),
            final(self).hashes() == old(self).hashes(),
            final(self).connections() == old(self).connections(),
    {
        self.block_traces.push((number, traces));
    }

    pub fn insert_tx_trace(&mut self, hash: u64, trace: Call)
        ensures
            final(self).txs() == old(self).txs().push((hash, trace)),
            final(self).head() == old(self).head(),
            final(self).blocks() == old(self).blocks(),
            final(self).hashes() == old(self).hashes(),
            final(self).connections() == old(self).connections(),
    {
        self.tx_traces.push((hash, trace));
    }

    pub fn insert_block_hash(&mut self, hash: u64, number: u64)
        ensures
            final(self).hashes() == old(self).hashes().push((hash, number)),
            final(self).head() == old(self).head(),
            final(self).blocks() == old(self).blocks(),
            final(self).txs() == old(self).txs(),
            final(self).connections() == old(self).connections(),
    {
        self.block_hashes.push((hash, number));
    }

    /// Acquires one scoped storage connection; only the counter moves.
    pub fn acquire_connection(&mut self)
        ensures
            final(self).same_data(old(self)),
            final(self).connections() == connection_bump(old(self).connections()),
    {
        if self.connections < u64::MAX {
            self.connections = self.connections + 1;
        }
    }

    /// The stored call traces of one block, or `None` if the block has no
    /// entry. The returned trees model the stored ones.
    pub fn get_traces_for_block(&self, number: u64) -> (r: Option<Vec<Call>>)
        ensures
            match r {
                Some(v) => lookup_key(self.blocks(), number) matches Some(w) && calls_model(v@)
                    == calls_model(w@),
                None => lookup_key(self.blocks(), number) is None,
            },
    {
        match find_key_index(&self.block_traces, number) {
            Some(i) => Some(clone_calls(&self.block_traces[i].1)),
            None => None,
        }
    }

    /// The stored call trace of one transaction, or `None` for an unknown
    /// hash; absence is a valid, expected outcome, not an error.
    pub fn get_call_trace(&self, hash: u64) -> (r: Option<Call>)
        ensures
            match r {
                Some(c) => lookup_key(self.txs(), hash) matches Some(w) && call_model(c)
                    == call_model(w),
                None => lookup_key(self.txs(), hash) is None,
            },
    {
        match find_key_index(&self.tx_traces, hash) {
            Some(i) => Some(self.tx_traces[i].1.duplicate()),
            None => None,
        }
    }

    /// The number of the block with the given hash, if the store knows it.
    pub fn block_number_of_hash(&self, hash: u64) -> (r: Option<u64>)
        ensures
            r == lookup_key(self.hashes(), hash),
    {
        match find_key_index(&self.block_hashes, hash) {
            Some(i) => Some(self.block_hashes[i].1),
            None => None,
        }
    }

    /// How many storage connections were acquired so far.
    pub fn connections_acquired(&self) -> (r: u64)
        ensures
            r == self.connections(),
    {
        self.connections
    }

    /// The number of the last sealed block.
    pub fn last_sealed_block(&self) -> (r: u64)
        ensures
            r == self.head(),
    {
        self.head
    }
}

} // verus!
