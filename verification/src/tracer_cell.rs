//! The call tracer cell: an exclusive, exactly-once handoff of the raw call
//! tree from the executor to the caller. The cell is written at most once,
//! by the executor upon completion, and claimed at most once, by the
//! assembler after the executor call has returned. Claiming consumes the
//! cell, so a second read is impossible by construction; a claim of a cell
//! that was never written substitutes the empty tree, which covers the
//! top-call-only path where no tracer was attached at all.

use vstd::prelude::*;

use crate::call::Call;

verus! {

/// A single-slot container for one recorded call tree.
#[derive(Debug)]
pub struct CallTracerCell {
    slot: Option<Vec<Call>>,
}

impl CallTracerCell {
    /// The recorded subcalls, if the executor wrote any.
    pub closed spec fn recorded(&self) -> Option<Seq<Call>> {
        match self.slot {
            Some(v) => Some(v@),
            None => None,
        }
    }

    /// An empty cell, awaiting at most one write.
    pub fn new() -> (r: Self)
        ensures
            r.recorded() is None,
    {
        CallTracerCell { slot: None }
    }

    /// The executor's single write of the recorded call tree.
    pub fn record(&mut self, calls: Vec<Call>)
        requires
            old(self).recorded() is None,
        ensures
            final(self).recorded() == Some(calls@),
    {
        self.slot = Some(calls);
    }

    /// Extracts the recorded tree, or the empty tree if none was ever
    /// written. Consumes the cell: a second claim cannot be expressed.
    pub fn claim(self) -> (r: Vec<Call>)
        ensures
            r@ == match self.recorded() {
                Some(s) => s,
                None => Seq::<Call>::empty(),
            },
    {
        match self.slot {
            Some(v) => v,
            None => Vec::new(),
        }
    }
}

} // verus!
