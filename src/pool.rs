//! A bounded pool of reusable resources (decoder sessions, model instances).
//!
//! Idle resources wait in a FIFO queue. A checkout takes the oldest idle
//! resource; when none is idle the checkout is a miss and the caller builds
//! a temporary overflow resource, which is never admitted to the queue. A
//! release re-admits a pooled resource only while the queue is below
//! capacity, so the idle queue never exceeds the pool's size. Callers that
//! share a pool wrap it in a lock held only for `checkout` and `release`.

use vstd::prelude::*;

verus! {

/// A resource held by a caller, tagged with where it came from.
pub struct Checkout<R> {
    pub resource: R,
    /// `true` when it came from the idle queue; `false` for an overflow
    /// resource built on a miss.
    pub pooled: bool,
}

impl<R> Checkout<R> {
    /// Tags a resource built on a miss.
    pub fn overflow(resource: R) -> (r: Self)
        ensures
            r.resource == resource,
            !r.pooled,
    {
        Checkout { resource, pooled: false }
    }
}

/// Result of a checkout.
pub enum Lease<R> {
    /// The oldest idle resource.
    Pooled(Checkout<R>),
    /// The queue was empty: build an overflow resource.
    Miss,
}

/// Occupancy of a pool.
#[derive(Debug, Clone, Copy, PartialEq, Eq, Structural)]
pub struct PoolStats {
    pub total_size: usize,
    pub available: usize,
    pub in_use: usize,
}

/// A bounded FIFO pool of idle resources.
pub struct BoundedPool<R> {
    idle: Vec<R>,
    capacity: usize,
}

impl<R> BoundedPool<R> {
    /// The idle queue, oldest first.
    pub closed spec fn idle_spec(&self) -> Seq<R> {
        self.idle@
    }

    /// The pool's size.
    pub closed spec fn capacity_spec(&self) -> nat {
        self.capacity as nat
    }

    pub closed spec fn wf(&self) -> bool {
        self.idle@.len() <= self.capacity
    }

    /// A pool holding the resources that were built successfully at start;
    /// their number is the pool's size.
    pub fn new(ready: Vec<R>) -> (r: Self)
        ensures
            r.wf(),
            r.idle_spec() == ready@,
            r.capacity_spec() == ready@.len(),
    {
        let capacity = ready.len();
        BoundedPool { idle: ready, capacity }
    }

    /// The pool's size.
    pub fn capacity(&self) -> (r: usize)
        ensures
            r as nat == self.capacity_spec(),
    {
        self.capacity
    }

    /// Number of idle resources.
    pub fn available(&self) -> (r: usize)
        ensures
            r as nat == self.idle_spec().len(),
    {
        self.idle.len()
    }

    /// Takes the oldest idle resource, or reports a miss when none is idle.
    /// A checkout always succeeds in one of these two ways.
    pub fn checkout(&mut self) -> (r: Lease<R>)
        requires
            old(self).wf(),
        ensures
            final(self).wf(),
            final(self).capacity_spec() == old(self).capacity_spec(),
            final(self).idle_spec() == idle_after_checkout(old(self).idle_spec()),
            old(self).idle_spec().len() > 0 ==> (match r {
                Lease::Pooled(c) => c.pooled && c.resource == old(self).idle_spec()[0],
                Lease::Miss => false,
            }),
            old(self).idle_spec().len() == 0 ==> r is Miss,
    {
        if self.idle.len() == 0 {
            Lease::Miss
        } else {
            let resource = self.idle.remove(0);
            assert(self.idle@ =~= old(self).idle@.drop_first());
            Lease::Pooled(Checkout { resource, pooled: true })
        }
    }

    /// Returns a checked-out resource. A pooled resource rejoins the queue
    /// while the queue is below capacity; an overflow resource, or one that
    /// finds the queue full, is dropped. Returns whether it was kept.
    pub fn release(&mut self, c: Checkout<R>) -> (kept: bool)
        requires
            old(self).wf(),
        ensures
            final(self).wf(),
            final(self).capacity_spec() == old(self).capacity_spec(),
            kept == (c.pooled && old(self).idle_spec().len() < old(self).capacity_spec()),
            final(self).idle_spec() == idle_after_release(
                old(self).idle_spec(),
                old(self).capacity_spec(),
                c.resource,
                c.pooled,
            ),
    {
        if c.pooled && self.idle.len() < self.capacity {
            self.idle.push(c.resource);
            true
        } else {
            false
        }
    }

    /// Replaces every idle resource by freshly built ones (at most the
    /// pool's size of them are kept).
    pub fn refresh(&mut self, fresh: Vec<R>)
        requires
            old(self).wf(),
        ensures
            final(self).wf(),
            final(self).capacity_spec() == old(self).capacity_spec(),
            final(self).idle_spec() == if fresh@.len() <= old(self).capacity_spec() {
                fresh@
            } else {
                fresh@.take(old(self).capacity_spec() as int)
            },
    {
        let mut fresh = fresh;
        if fresh.len() > self.capacity {
            fresh.truncate(self.capacity);
        }
        self.idle = fresh;
    }

    /// Size, idle count and checked-out count of the pool.
    pub fn get_pool_stats(&self) -> (r: PoolStats)
        requires
            self.wf(),
        ensures
            r.total_size as nat == self.capacity_spec(),
            r.available as nat == self.idle_spec().len(),
            r.in_use as nat == self.capacity_spec() - self.idle_spec().len(),
    {
        PoolStats {
            total_size: self.capacity,
            available: self.idle.len(),
            in_use: self.capacity - self.idle.len(),
        }
    }
}

/// One operation on a pool's idle queue.
pub enum PoolOp<R> {
    Checkout,
    /// Release of a resource; the flag tells whether it was pooled.
    Release(R, bool),
}

/// The idle queue after a checkout.
pub open spec fn idle_after_checkout<R>(idle: Seq<R>) -> Seq<R> {
    if idle.len() > 0 {
        idle.drop_first()
    } else {
        idle
    }
}

/// The idle queue after a release into a pool of size `cap`.
pub open spec fn idle_after_release<R>(idle: Seq<R>, cap: nat, r: R, pooled: bool) -> Seq<R> {
    if pooled && idle.len() < cap {
        idle.push(r)
    } else {
        idle
    }
}

/// The idle queue after a sequence of operations.
pub open spec fn idle_after_ops<R>(idle: Seq<R>, cap: nat, ops: Seq<PoolOp<R>>) -> Seq<R>
    decreases ops.len(),
{
    if ops.len() == 0 {
        idle
    } else {
        let before = idle_after_ops(idle, cap, ops.drop_last());
        match ops.last() {
            PoolOp::Checkout => idle_after_checkout(before),
            PoolOp::Release(r, pooled) => idle_after_release(before, cap, r, pooled),
        }
    }
}

/// `n` checkouts in a row.
pub open spec fn checkouts<R>(n: nat) -> Seq<PoolOp<R>> {
    Seq::new(n, |i: int| PoolOp::Checkout)
}

/// Whatever checkouts and releases happen, in any order, a pool whose idle
/// queue starts within its size keeps it within its size.
pub proof fn lemma_idle_never_exceeds_size<R>(idle: Seq<R>, cap: nat, ops: Seq<PoolOp<R>>)
    requires
        idle.len() <= cap,
    ensures
        idle_after_ops(idle, cap, ops).len() <= cap,
    decreases ops.len(),
{
    if ops.len() > 0 {
        lemma_idle_never_exceeds_size(idle, cap, ops.drop_last());
    }
}

/// After as many checkouts as there were idle resources, with no release,
/// the queue is empty: the next checkout is a miss, served by an overflow
/// resource rather than refused.
pub proof fn lemma_exhausted_after_checkouts<R>(idle: Seq<R>, cap: nat, n: nat)
    requires
        n >= idle.len(),
    ensures
        idle_after_ops(idle, cap, checkouts::<R>(n)).len() == 0,
    decreases n,
{
    if n > 0 {
        let ops = checkouts::<R>(n);
        assert(ops.drop_last() =~= checkouts::<R>((n - 1) as nat));
        if n - 1 >= idle.len() {
            lemma_exhausted_after_checkouts(idle, cap, (n - 1) as nat);
        } else {
            lemma_checkouts_shrink(idle, cap, (n - 1) as nat);
        }
    }
}

/// `n` checkouts remove `n` idle resources while there are any.
pub proof fn lemma_checkouts_shrink<R>(idle: Seq<R>, cap: nat, n: nat)
    requires
        n <= idle.len(),
    ensures
        idle_after_ops(idle, cap, checkouts::<R>(n)).len() == idle.len() - n,
    decreases n,
{
    if n > 0 {
        let ops = checkouts::<R>(n);
        assert(ops.drop_last() =~= checkouts::<R>((n - 1) as nat));
        lemma_checkouts_shrink(idle, cap, (n - 1) as nat);
    }
}

} // verus!
