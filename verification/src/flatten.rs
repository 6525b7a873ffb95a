//! The flattener: turns a hierarchical trace into the ordered flat trace
//! format, one entry per tree node in pre-order. Each entry carries the
//! node's data, the sequence of zero-based child indices from the root to
//! the node (`trace_address`), and the node's direct child count
//! (`subtraces`).

use vstd::prelude::*;

use crate::call::{
    calls_model, lemma_calls_model, Call, CallData, CallDataModel, CallModel, DebugCall,
    DebugCallModel, ResultDebugCall,
};

verus! {

/// One entry of the flat trace.
#[derive(Debug)]
pub struct DebugCallFlat {
    pub data: CallData,
    pub subtraces: usize,
    pub trace_address: Vec<usize>,
}

/// Mathematical model of a [`DebugCallFlat`]. Addresses are sequences of
/// unbounded integers so that the flattening laws hold of every model tree.
#[verifier::ext_equal]
pub struct FlatEntry {
    pub data: CallDataModel,
    pub subtraces: nat,
    pub trace_address: Seq<int>,
}

/// An address vector seen as a sequence of unbounded integers.
pub open spec fn addr_model(s: Seq<usize>) -> Seq<int> {
    Seq::new(s.len(), |i: int| s[i] as int)
}

impl View for DebugCallFlat {
    type V = FlatEntry;

    open spec fn view(&self) -> FlatEntry {
        FlatEntry {
            data: self.data@,
            subtraces: self.subtraces as nat,
            trace_address: addr_model(self.trace_address@),
        }
    }
}

pub open spec fn flats_model(s: Seq<DebugCallFlat>) -> Seq<FlatEntry> {
    Seq::new(s.len(), |i: int| s[i]@)
}

/// The total number of nodes of a call tree.
pub open spec fn node_count(m: CallModel) -> nat
    decreases m,
{
    1 + nodes_count(m.calls)
}

pub open spec fn nodes_count(s: Seq<CallModel>) -> nat
    decreases s,
{
    if s.len() == 0 {
        0
    } else {
        node_count(s[0]) + nodes_count(s.subrange(1, s.len() as int))
    }
}

/// The node reached from `m` by following the child indices in `path`;
/// the empty path names `m` itself.
pub open spec fn node_at(m: CallModel, path: Seq<int>) -> Option<CallModel>
    decreases path.len(),
{
    if path.len() == 0 {
        Some(m)
    } else if 0 <= path[0] < m.calls.len() {
        node_at(m.calls[path[0]], path.subrange(1, path.len() as int))
    } else {
        None
    }
}

/// The flat entry emitted for a node standing at address `addr`.
pub open spec fn root_entry(m: CallModel, addr: Seq<int>) -> FlatEntry {
    FlatEntry { data: m.data, subtraces: m.calls.len(), trace_address: addr }
}

/// Pre-order flattening of one node: the node's own entry, then its
/// children's entries in order.
pub open spec fn flatten_node(m: CallModel, addr: Seq<int>) -> Seq<FlatEntry>
    decreases m,
{
    seq![root_entry(m, addr)] + flatten_nodes(m.calls, addr, 0)
}

/// Flattening of a sibling group whose first member has index `base`.
pub open spec fn flatten_nodes(s: Seq<CallModel>, addr: Seq<int>, base: int) -> Seq<FlatEntry>
    decreases s,
{
    if s.len() == 0 {
        Seq::empty()
    } else {
        flatten_node(s[0], addr.push(base)) + flatten_nodes(
            s.subrange(1, s.len() as int),
            addr,
            base + 1,
        )
    }
}

/// A hierarchical trace seen as a call tree: the root's data and subcalls.
pub open spec fn as_call_model(d: DebugCallModel) -> CallModel {
    CallModel { data: d.data, calls: d.calls }
}

/// The flat trace of one hierarchical trace.
pub open spec fn flatten_debug_model(d: DebugCallModel) -> Seq<FlatEntry> {
    flatten_node(as_call_model(d), Seq::empty())
}

/// The flat trace of a whole block: the transactions' flat traces in order.
pub open spec fn flatten_block_model(s: Seq<ResultDebugCall>) -> Seq<FlatEntry>
    decreases s,
{
    if s.len() == 0 {
        Seq::empty()
    } else {
        flatten_debug_model(s[0].result@) + flatten_block_model(s.subrange(1, s.len() as int))
    }
}

/// An entry carries exactly a node's data and direct child count.
pub open spec fn entry_matches(e: FlatEntry, m: CallModel) -> bool {
    e.data == m.data && e.subtraces == m.calls.len()
}

pub proof fn lemma_flatten_count(m: CallModel, addr: Seq<int>)
    ensures
        flatten_node(m, addr).len() == node_count(m),
        flatten_node(m, addr)[0] == root_entry(m, addr),
    decreases m, 0int,
{
    lemma_flatten_nodes_count(m.calls, addr, 0);
}

pub proof fn lemma_flatten_nodes_count(s: Seq<CallModel>, addr: Seq<int>, base: int)
    ensures
        flatten_nodes(s, addr, base).len() == nodes_count(s),
    decreases s, 1int,
{
    if s.len() > 0 {
        lemma_flatten_count(s[0], addr.push(base));
        lemma_flatten_nodes_count(s.subrange(1, s.len() as int), addr, base + 1);
    }
}

/// Every entry of `entries`, read relative to `addr`, resolves through
/// `node_at` on `m` to the node it was emitted for.
pub open spec fn entries_sound(m: CallModel, addr: Seq<int>, entries: Seq<FlatEntry>) -> bool {
    forall|i: int|
        0 <= i < entries.len() ==> {
            let e = #[trigger] entries[i];
            &&& e.trace_address.len() >= addr.len()
            &&& e.trace_address.subrange(0, addr.len() as int) == addr
            &&& match node_at(
                m,
                e.trace_address.subrange(addr.len() as int, e.trace_address.len() as int),
            ) {
                Some(n) => entry_matches(e, n),
                None => false,
            }
        }
}

/// The counterpart of [`entries_sound`] for a sibling group whose first
/// member has index `base`.
pub open spec fn nodes_entries_sound(
    s: Seq<CallModel>,
    addr: Seq<int>,
    base: int,
    entries: Seq<FlatEntry>,
) -> bool {
    forall|i: int|
        0 <= i < entries.len() ==> {
            let e = #[trigger] entries[i];
            &&& e.trace_address.len() > addr.len()
            &&& e.trace_address.subrange(0, addr.len() as int) == addr
            &&& base <= e.trace_address[addr.len() as int] < base + s.len()
            &&& match node_at(
                s[e.trace_address[addr.len() as int] - base],
                e.trace_address.subrange(addr.len() as int + 1, e.trace_address.len() as int),
            ) {
                Some(n) => entry_matches(e, n),
                None => false,
            }
        }
}

pub proof fn lemma_flatten_sound(m: CallModel, addr: Seq<int>)
    ensures
        entries_sound(m, addr, flatten_node(m, addr)),
    decreases m, 0int,
{
    lemma_flatten_nodes_sound(m.calls, addr, 0);
    let entries = flatten_node(m, addr);
    let children = flatten_nodes(m.calls, addr, 0);
    assert forall|i: int| 0 <= i < entries.len() implies {
        let e = #[trigger] entries[i];
        &&& e.trace_address.len() >= addr.len()
        &&& e.trace_address.subrange(0, addr.len() as int) == addr
        &&& match node_at(
            m,
            e.trace_address.subrange(addr.len() as int, e.trace_address.len() as int),
        ) {
            Some(n) => entry_matches(e, n),
            None => false,
        }
    } by {
        if i == 0 {
            let e = entries[0];
            assert(e == root_entry(m, addr));
            assert(e.trace_address.subrange(0, addr.len() as int) =~= addr);
            assert(e.trace_address.subrange(addr.len() as int, e.trace_address.len() as int)
                =~= Seq::<int>::empty());
        } else {
            let e = entries[i];
            assert(e == children[i - 1]);
            let j = e.trace_address[addr.len() as int];
            let rel = e.trace_address.subrange(addr.len() as int, e.trace_address.len() as int);
            assert(rel[0] == j);
            assert(rel.subrange(1, rel.len() as int) =~= e.trace_address.subrange(
                addr.len() as int + 1,
                e.trace_address.len() as int,
            ));
        }
    }
}

pub proof fn lemma_flatten_nodes_sound(s: Seq<CallModel>, addr: Seq<int>, base: int)
    ensures
        nodes_entries_sound(s, addr, base, flatten_nodes(s, addr, base)),
    decreases s, 1int,
{
    if s.len() > 0 {
        let caddr = addr.push(base);
        let first = flatten_node(s[0], caddr);
        let tail = s.subrange(1, s.len() as int);
        let rest = flatten_nodes(tail, addr, base + 1);
        let entries = flatten_nodes(s, addr, base);
        lemma_flatten_sound(s[0], caddr);
        lemma_flatten_nodes_sound(tail, addr, base + 1);
        assert forall|i: int| 0 <= i < entries.len() implies {
            let e = #[trigger] entries[i];
            &&& e.trace_address.len() > addr.len()
            &&& e.trace_address.subrange(0, addr.len() as int) == addr
            &&& base <= e.trace_address[addr.len() as int] < base + s.len()
            &&& match node_at(
                s[e.trace_address[addr.len() as int] - base],
                e.trace_address.subrange(addr.len() as int + 1, e.trace_address.len() as int),
            ) {
                Some(n) => entry_matches(e, n),
                None => false,
            }
        } by {
            if i < first.len() {
                let e = first[i];
                assert(entries[i] == e);
                assert(e.trace_address.subrange(0, caddr.len() as int) == caddr);
                assert(e.trace_address.subrange(0, addr.len() as int) =~= addr);
                assert(e.trace_address[addr.len() as int] == caddr[addr.len() as int]);
                assert(e.trace_address.subrange(
                    caddr.len() as int,
                    e.trace_address.len() as int,
                ) =~= e.trace_address.subrange(
                    addr.len() as int + 1,
                    e.trace_address.len() as int,
                ));
            } else {
                let e = rest[i - first.len()];
                assert(entries[i] == e);
                let j = e.trace_address[addr.len() as int];
                assert(tail[j - (base + 1)] == s[j - base]);
            }
        }
    }
}

/// Resolving one step further: following `path` and then one child index.
pub proof fn lemma_node_at_push(m: CallModel, path: Seq<int>, j: int)
    ensures
        node_at(m, path.push(j)) == (match node_at(m, path) {
            Some(n) => if 0 <= j < n.calls.len() {
                Some(n.calls[j])
            } else {
                None::<CallModel>
            },
            None => None::<CallModel>,
        }),
    decreases path.len(),
{
    reveal_with_fuel(node_at, 3);
    if path.len() == 0 {
        assert(path.push(j)[0] == j);
        assert(path.push(j).subrange(1, 1) =~= Seq::<int>::empty());
    } else {
        assert(path.push(j)[0] == path[0]);
        assert(path.push(j).subrange(1, path.push(j).len() as int) =~= path.subrange(
            1,
            path.len() as int,
        ).push(j));
        if 0 <= path[0] < m.calls.len() {
            lemma_node_at_push(m.calls[path[0]], path.subrange(1, path.len() as int), j);
        }
    }
}

pub proof fn lemma_flatten_nodes_member(
    s: Seq<CallModel>,
    addr: Seq<int>,
    base: int,
    k: int,
    i2: int,
)
    requires
        0 <= k < s.len(),
        0 <= i2 < flatten_node(s[k], addr.push(base + k)).len(),
    ensures
        exists|i: int|
            0 <= i < flatten_nodes(s, addr, base).len() && (#[trigger] flatten_nodes(
                s,
                addr,
                base,
            )[i]) == flatten_node(s[k], addr.push(base + k))[i2],
    decreases k,
{
    let entries = flatten_nodes(s, addr, base);
    if k == 0 {
        assert(entries[i2] == flatten_node(s[0], addr.push(base))[i2]);
    } else {
        let tail = s.subrange(1, s.len() as int);
        assert(tail[k - 1] == s[k]);
        lemma_flatten_nodes_member(tail, addr, base + 1, k - 1, i2);
        let i3 = choose|i: int|
            0 <= i < flatten_nodes(tail, addr, base + 1).len() && (#[trigger] flatten_nodes(
                tail,
                addr,
                base + 1,
            )[i]) == flatten_node(tail[k - 1], addr.push((base + 1) + (k - 1)))[i2];
        let first = flatten_node(s[0], addr.push(base));
        assert(entries[first.len() + i3] == flatten_nodes(tail, addr, base + 1)[i3]);
    }
}

/// Every node reachable in the tree owns an entry of the flat trace, at the
/// node's own address.
pub proof fn lemma_flatten_contains(m: CallModel, addr: Seq<int>, rel: Seq<int>)
    requires
        node_at(m, rel) is Some,
    ensures
        exists|i: int|
            0 <= i < flatten_node(m, addr).len() && (#[trigger] flatten_node(
                m,
                addr,
            )[i]).trace_address == addr + rel,
    decreases rel.len(),
{
    let entries = flatten_node(m, addr);
    if rel.len() == 0 {
        assert(addr + rel =~= addr);
        assert(entries[0] == root_entry(m, addr));
        assert(entries[0].trace_address == addr + rel);
    } else {
        let j = rel[0];
        let rest = rel.subrange(1, rel.len() as int);
        lemma_flatten_contains(m.calls[j], addr.push(j), rest);
        let i2 = choose|i: int|
            0 <= i < flatten_node(m.calls[j], addr.push(j)).len() && (#[trigger] flatten_node(
                m.calls[j],
                addr.push(j),
            )[i]).trace_address == addr.push(j) + rest;
        assert(addr.push(j) + rest =~= addr + rel);
        assert(addr.push(0 + j) == addr.push(j));
        lemma_flatten_nodes_member(m.calls, addr, 0, j, i2);
        let i3 = choose|i: int|
            0 <= i < flatten_nodes(m.calls, addr, 0).len() && (#[trigger] flatten_nodes(
                m.calls,
                addr,
                0,
            )[i]) == flatten_node(m.calls[0 + j], addr.push(0 + j))[i2];
        assert(entries[1 + i3] == flatten_nodes(m.calls, addr, 0)[i3]);
        assert(entries[1 + i3].trace_address == addr + rel);
    }
}

/// Law: the flat trace has exactly one entry per tree node, and its first
/// entry is the root's, carrying the empty trace address.
pub proof fn lemma_flat_trace_entry_count(d: DebugCallModel)
    ensures
        flatten_debug_model(d).len() == node_count(as_call_model(d)),
        flatten_debug_model(d)[0] == root_entry(as_call_model(d), Seq::<int>::empty()),
{
    lemma_flatten_count(as_call_model(d), Seq::empty());
}

/// Law: every entry of the flat trace resolves, by following its trace
/// address from the root, to a node carrying the entry's data, and its
/// `subtraces` equals that node's direct child count.
pub proof fn lemma_flat_trace_addresses(d: DebugCallModel)
    ensures
        forall|i: int|
            0 <= i < flatten_debug_model(d).len() ==> {
                let e = #[trigger] flatten_debug_model(d)[i];
                match node_at(as_call_model(d), e.trace_address) {
                    Some(n) => entry_matches(e, n),
                    None => false,
                }
            },
{
    let m = as_call_model(d);
    lemma_flatten_sound(m, Seq::empty());
    let entries = flatten_debug_model(d);
    assert forall|i: int| 0 <= i < entries.len() implies {
        let e = #[trigger] entries[i];
        match node_at(m, e.trace_address) {
            Some(n) => entry_matches(e, n),
            None => false,
        }
    } by {
        let e = entries[i];
        assert(e.trace_address.subrange(0, e.trace_address.len() as int) =~= e.trace_address);
    }
}

/// Law: every child a `subtraces` count announces is present: its address is
/// the parent's with one more index appended, indices being zero-based.
pub proof fn lemma_flat_trace_child_present(d: DebugCallModel, i: int, j: int)
    requires
        0 <= i < flatten_debug_model(d).len(),
        0 <= j < flatten_debug_model(d)[i].subtraces,
    ensures
        exists|k: int|
            0 <= k < flatten_debug_model(d).len() && (#[trigger] flatten_debug_model(
                d,
            )[k]).trace_address == flatten_debug_model(d)[i].trace_address.push(j),
{
    let m = as_call_model(d);
    let e = flatten_debug_model(d)[i];
    lemma_flat_trace_addresses(d);
    lemma_node_at_push(m, e.trace_address, j);
    lemma_flatten_contains(m, Seq::empty(), e.trace_address.push(j));
    let k = choose|k: int|
        0 <= k < flatten_node(m, Seq::empty()).len() && (#[trigger] flatten_node(
            m,
            Seq::empty(),
        )[k]).trace_address == Seq::empty() + e.trace_address.push(j);
    assert(Seq::empty() + e.trace_address.push(j) =~= e.trace_address.push(j));
    assert(flatten_debug_model(d)[k].trace_address == e.trace_address.push(j));
}

/// Law: sibling indices stay below the parent's `subtraces`: no entry is
/// addressed past the parent's announced child count.
pub proof fn lemma_flat_trace_sibling_bound(d: DebugCallModel, i: int, k: int, j: int)
    requires
        0 <= i < flatten_debug_model(d).len(),
        0 <= k < flatten_debug_model(d).len(),
        flatten_debug_model(d)[k].trace_address == flatten_debug_model(d)[i].trace_address.push(j),
    ensures
        0 <= j < flatten_debug_model(d)[i].subtraces,
{
    let m = as_call_model(d);
    let e = flatten_debug_model(d)[i];
    lemma_flat_trace_addresses(d);
    lemma_node_at_push(m, e.trace_address, j);
}

pub proof fn lemma_flatten_nodes_snoc(s: Seq<CallModel>, x: CallModel, addr: Seq<int>, base: int)
    ensures
        flatten_nodes(s.push(x), addr, base) == flatten_nodes(s, addr, base) + flatten_node(
            x,
            addr.push(base + s.len()),
        ),
    decreases s.len(),
{
    reveal_with_fuel(flatten_nodes, 3);
    if s.len() == 0 {
        assert(s.push(x)[0] == x);
        assert(s.push(x).subrange(1, 1) =~= Seq::<CallModel>::empty());
        assert(flatten_nodes(s.push(x), addr, base) =~= flatten_nodes(s, addr, base)
            + flatten_node(x, addr.push(base + s.len())));
    } else {
        lemma_flatten_nodes_snoc(s.subrange(1, s.len() as int), x, addr, base + 1);
        assert(s.push(x).subrange(1, s.push(x).len() as int) =~= s.subrange(
            1,
            s.len() as int,
        ).push(x));
        assert(s.push(x)[0] == s[0]);
        assert(flatten_nodes(s.push(x), addr, base) =~= flatten_nodes(s, addr, base)
            + flatten_node(x, addr.push(base + s.len())));
    }
}

pub proof fn lemma_flatten_block_snoc(s: Seq<ResultDebugCall>, x: ResultDebugCall)
    ensures
        flatten_block_model(s.push(x)) == flatten_block_model(s) + flatten_debug_model(x.result@),
    decreases s.len(),
{
    reveal_with_fuel(flatten_block_model, 3);
    if s.len() == 0 {
        assert(s.push(x)[0] == x);
        assert(s.push(x).subrange(1, 1) =~= Seq::<ResultDebugCall>::empty());
        assert(flatten_block_model(s.push(x)) =~= flatten_block_model(s) + flatten_debug_model(
            x.result@,
        ));
    } else {
        lemma_flatten_block_snoc(s.subrange(1, s.len() as int), x);
        assert(s.push(x).subrange(1, s.push(x).len() as int) =~= s.subrange(
            1,
            s.len() as int,
        ).push(x));
        assert(s.push(x)[0] == s[0]);
        assert(flatten_block_model(s.push(x)) =~= flatten_block_model(s) + flatten_debug_model(
            x.result@,
        ));
    }
}

/// Copies an address vector; the copy has the same contents.
pub fn clone_addr(v: &Vec<usize>) -> (r: Vec<usize>)
    ensures
        r@ == v@,
{
    let r = v.clone();
    proof {
        assert(r@ =~= v@);
    }
    r
}

/// Emits the entries of the subtree rooted at `c`, standing at `addr`,
/// onto the end of `out`.
fn flatten_into(c: &Call, addr: &Vec<usize>, out: &mut Vec<DebugCallFlat>)
    ensures
        flats_model(final(out)@) == flats_model(old(out)@) + flatten_node(
            c@,
            addr_model(addr@),
        ),
    decreases *c,
{
    let entry = DebugCallFlat {
        data: c.data.duplicate(),
        subtraces: c.calls.len(),
        trace_address: clone_addr(addr),
    };
    out.push(entry);
    proof {
        lemma_calls_model(c.calls@);
        assert(flats_model(out@) =~= flats_model(old(out)@) + seq![
            root_entry(c@, addr_model(addr@)),
        ]);
    }
    let n = c.calls.len();
    let mut i: usize = 0;
    while i < n
        invariant
            n == c.calls@.len(),
            i <= n,
            flats_model(out@) == flats_model(old(out)@) + seq![root_entry(c@, addr_model(addr@))]
                + flatten_nodes(c@.calls.subrange(0, i as int), addr_model(addr@), 0),
        decreases n - i,
    {
        let mut child_addr = clone_addr(addr);
        child_addr.push(i);
        proof {
            assert(decreases_to!(*c => c.calls@[i as int]));
        }
        flatten_into(&c.calls[i], &child_addr, out);
        proof {
            lemma_calls_model(c.calls@);
            lemma_flatten_nodes_snoc(
                c@.calls.subrange(0, i as int),
                c@.calls[i as int],
                addr_model(addr@),
                0,
            );
            assert(c@.calls.subrange(0, i as int + 1) =~= c@.calls.subrange(0, i as int).push(
                c@.calls[i as int],
            ));
            assert(addr_model(addr@).push(0 + c@.calls.subrange(0, i as int).len() as int)
                =~= addr_model(child_addr@));
            assert(flats_model(out@) =~= flats_model(old(out)@) + seq![
                root_entry(c@, addr_model(addr@)),
            ] + flatten_nodes(c@.calls.subrange(0, i as int + 1), addr_model(addr@), 0));
        }
        i += 1;
    }
    proof {
        lemma_calls_model(c.calls@);
        assert(c@.calls.subrange(0, n as int) =~= c@.calls);
        assert(flats_model(out@) =~= flats_model(old(out)@) + flatten_node(
            c@,
            addr_model(addr@),
        ));
    }
}

/// Flattens one hierarchical trace: pre-order, the root entry first with the
/// empty address.
pub fn flatten_debug_call(d: &DebugCall) -> (r: Vec<DebugCallFlat>)
    ensures
        flats_model(r@) == flatten_debug_model(d@),
{
    let mut out: Vec<DebugCallFlat> = Vec::new();
    let entry = DebugCallFlat {
        data: d.data.duplicate(),
        subtraces: d.calls.len(),
        trace_address: Vec::new(),
    };
    out.push(entry);
    proof {
        lemma_calls_model(d.calls@);
        assert(addr_model(Seq::<usize>::empty()) =~= Seq::<int>::empty());
        assert(flats_model(out@) =~= seq![root_entry(as_call_model(d@), Seq::<int>::empty())]
            + flatten_nodes(as_call_model(d@).calls.subrange(0, 0), Seq::<int>::empty(), 0));
    }
    let n = d.calls.len();
    let mut i: usize = 0;
    while i < n
        invariant
            n == d.calls@.len(),
            i <= n,
            flats_model(out@) == seq![root_entry(as_call_model(d@), Seq::<int>::empty())]
                + flatten_nodes(
                as_call_model(d@).calls.subrange(0, i as int),
                Seq::<int>::empty(),
                0,
            ),
        decreases n - i,
    {
        let mut child_addr: Vec<usize> = Vec::new();
        child_addr.push(i);
        flatten_into(&d.calls[i], &child_addr, &mut out);
        proof {
            lemma_calls_model(d.calls@);
            lemma_flatten_nodes_snoc(
                as_call_model(d@).calls.subrange(0, i as int),
                as_call_model(d@).calls[i as int],
                Seq::<int>::empty(),
                0,
            );
            assert(as_call_model(d@).calls.subrange(0, i as int + 1) =~= as_call_model(
                d@,
            ).calls.subrange(0, i as int).push(as_call_model(d@).calls[i as int]));
            assert(Seq::<int>::empty().push(
                0 + as_call_model(d@).calls.subrange(0, i as int).len() as int,
            ) =~= addr_model(child_addr@));
            assert(flats_model(out@) =~= seq![
                root_entry(as_call_model(d@), Seq::<int>::empty()),
            ] + flatten_nodes(
                as_call_model(d@).calls.subrange(0, i as int + 1),
                Seq::<int>::empty(),
                0,
            ));
        }
        i += 1;
    }
    proof {
        lemma_calls_model(d.calls@);
        assert(as_call_model(d@).calls.subrange(0, n as int) =~= as_call_model(d@).calls);
        assert(flats_model(out@) =~= flatten_debug_model(d@));
    }
    out
}

/// Flattens a block-wide trace: the transactions' flat traces concatenated
/// in block order.
pub fn flatten_debug_calls(calls: &Vec<ResultDebugCall>) -> (r: Vec<DebugCallFlat>)
    ensures
        flats_model(r@) == flatten_block_model(calls@),
{
    let mut out: Vec<DebugCallFlat> = Vec::new();
    proof {
        assert(flats_model(out@) =~= flatten_block_model(calls@.subrange(0, 0)));
    }
    let n = calls.len();
    let mut i: usize = 0;
    while i < n
        invariant
            n == calls@.len(),
            i <= n,
            flats_model(out@) == flatten_block_model(calls@.subrange(0, i as int)),
        decreases n - i,
    {
        let mut part = flatten_debug_call(&calls[i].result);
        let ghost part_snapshot = part@;
        let ghost out_snapshot = out@;
        out.append(&mut part);
        proof {
            lemma_flatten_block_snoc(calls@.subrange(0, i as int), calls@[i as int]);
            assert(calls@.subrange(0, i as int + 1) =~= calls@.subrange(0, i as int).push(
                calls@[i as int],
            ));
            assert(flats_model(out@) =~= flats_model(out_snapshot) + flats_model(part_snapshot));
            assert(flats_model(out@) =~= flatten_block_model(calls@.subrange(0, i as int + 1)));
        }
        i += 1;
    }
    proof {
        assert(calls@.subrange(0, n as int) =~= calls@);
    }
    out
}

} // verus!
