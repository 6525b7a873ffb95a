//! The context resolver: turns a block reference into a concrete block
//! number, against the chain metadata the store keeps, and computes the
//! diagnostic distance from the chain head.

use vstd::prelude::*;

use crate::errors::TraceError;
use crate::storage::{lookup_key, TraceStore};

verus! {

/// A symbolic block tag.
#[derive(Clone, Copy, Debug, PartialEq, Eq, Structural)]
pub enum BlockTag {
    Latest,
    Earliest,
    /// The block being built; it has no stable snapshot yet.
    Pending,
}

/// A block, named by number, by hash, or symbolically.
#[derive(Clone, Copy, Debug, PartialEq, Eq, Structural)]
pub enum BlockReference {
    Number(u64),
    Hash(u64),
    Tag(BlockTag),
}

/// Whether a reference names the pending block.
pub open spec fn is_pending(r: BlockReference) -> bool {
    r == BlockReference::Tag(BlockTag::Pending)
}

/// A concrete execution context: the resolved block, the pre-state snapshot
/// it stands for, the scaled fee input, and the gas ceiling. Immutable once
/// constructed and owned by the request that created it.
#[derive(Clone, Copy, Debug, PartialEq, Eq, Structural)]
pub struct ExecutionContext {
    pub block_number: u64,
    pub snapshot: u64,
    pub fee_input: u64,
    pub gas_ceiling: u64,
}

/// What resolving a reference against a chain head and hash index yields:
/// an exact number up to the head, the head itself for `Latest`, zero for
/// `Earliest`, the block after the head for `Pending`, and `NotFound` for a
/// number past the head or an unknown hash.
pub open spec fn resolve_spec(
    head: u64,
    hashes: Seq<(u64, u64)>,
    r: BlockReference,
) -> Result<u64, TraceError> {
    match r {
        BlockReference::Number(n) => if n <= head {
            Ok(n)
        } else {
            Err(TraceError::NotFound)
        },
        BlockReference::Hash(h) => match lookup_key(hashes, h) {
            Some(n) => Ok(n),
            None => Err(TraceError::NotFound),
        },
        BlockReference::Tag(BlockTag::Latest) => Ok(head),
        BlockReference::Tag(BlockTag::Earliest) => Ok(0),
        BlockReference::Tag(BlockTag::Pending) => Ok((head + 1) as u64),
    }
}

impl TraceStore {
    /// Resolves a block reference to an exact block number.
    pub fn resolve_block(&self, reference: BlockReference) -> (r: Result<u64, TraceError>)
        requires
            self.wf(),
        ensures
            r == resolve_spec(self.head(), self.hashes(), reference),
    {
        match reference {
            BlockReference::Number(n) => if n <= self.last_sealed_block() {
                Ok(n)
            } else {
                Err(TraceError::NotFound)
            },
            BlockReference::Hash(h) => match self.block_number_of_hash(h) {
                Some(n) => Ok(n),
                None => Err(TraceError::NotFound),
            },
            BlockReference::Tag(BlockTag::Latest) => Ok(self.last_sealed_block()),
            BlockReference::Tag(BlockTag::Earliest) => Ok(0),
            BlockReference::Tag(BlockTag::Pending) => Ok(self.last_sealed_block() + 1),
        }
    }
}

/// The diagnostic distance of a resolved block from the chain head; blocks
/// past the head count as distance zero.
pub fn block_diff(head: u64, resolved: u64) -> (r: u64)
    ensures
        r == if resolved <= head {
            head - resolved
        } else {
            0
        },
{
    if resolved <= head {
        head - resolved
    } else {
        0
    }
}

} // verus!
