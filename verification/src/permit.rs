//! The sandbox permit pool: a counting semaphore that bounds concurrent
//! virtual-machine executions system-wide. Holding a permit is mandatory for
//! any executor invocation, and every permit granted must be released exactly
//! once, on every exit path of the execution step.

use vstd::prelude::*;

verus! {

/// A token representing the right to run one sandboxed execution. Permits
/// cannot be copied or forged: they are only issued by
/// [`VmConcurrencyLimiter::acquire`] and are consumed on release.
#[derive(Debug)]
pub struct VmPermit {
    issued: bool,
}

/// What an acquisition attempt came to.
#[derive(Debug)]
pub enum AcquireOutcome {
    /// A permit was granted.
    Granted(VmPermit),
    /// The pool is at capacity; the caller must suspend and retry.
    MustWait,
    /// The pool is draining for shutdown; the caller must not execute.
    ShuttingDown,
}

/// The permit pool. Its capacity is configured once; the count of
/// outstanding permits never exceeds it.
#[derive(Debug)]
pub struct VmConcurrencyLimiter {
    cap: usize,
    used: usize,
    draining: bool,
}

impl VmConcurrencyLimiter {
    /// The configured bound on concurrent executions.
    pub closed spec fn capacity(&self) -> nat {
        self.cap as nat
    }

    /// The number of permits currently outstanding.
    pub closed spec fn granted(&self) -> nat {
        self.used as nat
    }

    /// Whether the pool has observed the shutdown signal.
    pub closed spec fn is_draining(&self) -> bool {
        self.draining
    }

    /// The pool never grants more concurrent permits than its capacity.
    pub open spec fn wf(&self) -> bool {
        self.granted() <= self.capacity()
    }

    pub fn new(capacity: usize) -> (r: Self)
        ensures
            r.capacity() == capacity,
            r.granted() == 0,
            !r.is_draining(),
            r.wf(),
    {
        VmConcurrencyLimiter { cap: capacity, used: 0, draining: false }
    }

    /// Attempts to draw a permit. A draining pool refuses; a full pool asks
    /// the caller to suspend; otherwise a permit is granted and the
    /// outstanding count grows by one, never past the capacity.
    pub fn acquire(&mut self) -> (r: AcquireOutcome)
        requires
            old(self).wf(),
        ensures
            final(self).wf(),
            acquire_transition(*old(self), *final(self), r),
    {
        if self.draining {
            AcquireOutcome::ShuttingDown
        } else if self.used < self.cap {
            self.used = self.used + 1;
            AcquireOutcome::Granted(VmPermit { issued: true })
        } else {
            AcquireOutcome::MustWait
        }
    }

    /// Returns a permit. The permit value is consumed, so a caller cannot
    /// release the same acquisition twice.
    pub fn release(&mut self, permit: VmPermit)
        requires
            old(self).wf(),
            old(self).granted() >= 1,
        ensures
            final(self).wf(),
            final(self).granted() == old(self).granted() - 1,
            final(self).capacity() == old(self).capacity(),
            final(self).is_draining() == old(self).is_draining(),
    {
        let VmPermit { issued: _ } = permit;
        self.used = self.used - 1;
    }

    /// Records the external shutdown signal: from here on no permit is
    /// granted, and callers are told the server is shutting down.
    pub fn start_draining(&mut self)
        ensures
            final(self).is_draining(),
            final(self).capacity() == old(self).capacity(),
            final(self).granted() == old(self).granted(),
    {
        self.draining = true;
    }
}

/// The acquisition contract, as a relation between the pool before the
/// attempt, the pool after it, and the outcome.
pub open spec fn acquire_transition(
    pre: VmConcurrencyLimiter,
    post: VmConcurrencyLimiter,
    r: AcquireOutcome,
) -> bool {
    &&& post.capacity() == pre.capacity()
    &&& post.is_draining() == pre.is_draining()
    &&& (pre.is_draining() ==> r is ShuttingDown && post.granted() == pre.granted())
    &&& (!pre.is_draining() && pre.granted() < pre.capacity() ==> r is Granted && post.granted()
        == pre.granted() + 1)
    &&& (!pre.is_draining() && pre.granted() >= pre.capacity() ==> r is MustWait && post.granted()
        == pre.granted())
}

/// Law: an acquisition never takes the outstanding count past the capacity,
/// and a permit is granted exactly when the pool is neither draining nor
/// full.
pub proof fn lemma_acquire_bounded(
    pre: VmConcurrencyLimiter,
    post: VmConcurrencyLimiter,
    r: AcquireOutcome,
)
    requires
        pre.wf(),
        acquire_transition(pre, post, r),
    ensures
        post.granted() <= post.capacity(),
        r is Granted <==> (!pre.is_draining() && pre.granted() < pre.capacity()),
{
}

} // verus!
