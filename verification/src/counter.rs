//! Reference counters held in a shared allocation's header.
//!
//! Two shapes occur: a dual counter (a primary count and a total count,
//! where every primary acquire is also counted in the total) used by the
//! strong/weak pair, and a single counter used by the acyclic variant.

use vstd::prelude::*;

verus! {

/// A counter that tracks how many live handles of each kind refer to one
/// allocation.  `primary_count` counts the handles that keep the element
/// body alive; `total_count` counts the handles of any kind.  A primary
/// handle is counted once in each, so `primary_count() <= total_count()`
/// whenever `inv()` holds.
pub trait Counter: Sized + Copy {
    /// How many live content-keeping references the counter records.
    spec fn primary_count(self) -> nat;

    /// How many live references of any kind the counter records.
    spec fn total_count(self) -> nat;

    /// Internal consistency of the counter value.
    spec fn inv(self) -> bool;

    /// A consistent counter never records more primary references than
    /// total references.
    proof fn lemma_inv(self)
        requires
            self.inv(),
        ensures
            self.primary_count() <= self.total_count(),
    ;

    /// A counter recording no references at all, as written into the
    /// header of a freshly built allocation before the first acquire.
    fn fresh() -> (c: Self)
        ensures
            c.inv(),
            c.primary_count() == 0,
            c.total_count() == 0,
    ;
}

/// The dual counter shared by the strong and weak reference kinds.
///
/// `strong` counts the strong handles; `total` counts strong and weak
/// handles together.  Every strong acquire increments both, and a
/// weak-only acquire increments only `total`, so `strong <= total`
/// always, and `total == 0` implies `strong == 0`.
#[derive(Clone, Copy)]
pub struct StrongWeakCounter {
    strong: usize,
    total: usize,
}

impl Counter for StrongWeakCounter {
    closed spec fn primary_count(self) -> nat {
        self.strong as nat
    }

    closed spec fn total_count(self) -> nat {
        self.total as nat
    }

    closed spec fn inv(self) -> bool {
        self.strong <= self.total
    }

    proof fn lemma_inv(self) {
    }

    fn fresh() -> (c: Self) {
        StrongWeakCounter { strong: 0, total: 0 }
    }
}

impl StrongWeakCounter {
    /// Record one more strong handle: both counts grow by one.
    pub fn incr_strong(&mut self)
        requires
            old(self).inv(),
            old(self).total_count() < usize::MAX,
        ensures
            final(self).inv(),
            final(self).primary_count() == old(self).primary_count() + 1,
            final(self).total_count() == old(self).total_count() + 1,
    {
        let prev: usize = self.strong;
        self.strong = prev + 1;
        self.incr_weak();
    }

    /// Record one more weak handle: only the total count grows.
    pub fn incr_weak(&mut self)
        requires
            old(self).total_count() < usize::MAX,
        ensures
            final(self).primary_count() == old(self).primary_count(),
            final(self).total_count() == old(self).total_count() + 1,
            old(self).inv() ==> final(self).inv(),
    {
        let prev: usize = self.total;
        self.total = prev + 1;
    }

    /// Forget one strong handle: both counts shrink by one.  Calling this
    /// with no strong reference recorded would be a caller error, so it is
    /// ruled out by the precondition.
    pub fn decr_strong(&mut self)
        requires
            old(self).inv(),
            old(self).primary_count() > 0,
        ensures
            final(self).inv(),
            final(self).primary_count() == old(self).primary_count() - 1,
            final(self).total_count() == old(self).total_count() - 1,
    {
        let prev: usize = self.strong;
        self.strong = prev - 1;
        self.decr_weak();
    }

    /// Forget one weak handle: only the total count shrinks.
    pub fn decr_weak(&mut self)
        requires
            old(self).total_count() > 0,
        ensures
            final(self).primary_count() == old(self).primary_count(),
            final(self).total_count() == old(self).total_count() - 1,
            old(self).primary_count() < old(self).total_count() ==> final(self).inv(),
    {
        let prev: usize = self.total;
        self.total = prev - 1;
    }

    /// Does at least one strong handle survive?
    pub fn valid_strong(&self) -> (r: bool)
        ensures
            r == (self.primary_count() > 0),
    {
        self.strong > 0
    }

    /// Does at least one handle of any kind survive?
    pub fn valid_weak(&self) -> (r: bool)
        ensures
            r == (self.total_count() > 0),
    {
        self.total > 0
    }

    /// Is there at most one strong handle?
    pub fn unique_strong(&self) -> (r: bool)
        ensures
            r == (self.primary_count() <= 1),
    {
        self.strong <= 1
    }

    /// Is there at most one handle of any kind?
    pub fn unique_weak(&self) -> (r: bool)
        ensures
            r == (self.total_count() <= 1),
    {
        self.total <= 1
    }
}

/// The single counter of the acyclic variant, which has no weak kind:
/// the primary and the total count coincide.
#[derive(Clone, Copy)]
pub struct AcyclicCounter {
    count: usize,
}

impl Counter for AcyclicCounter {
    closed spec fn primary_count(self) -> nat {
        self.count as nat
    }

    closed spec fn total_count(self) -> nat {
        self.count as nat
    }

    closed spec fn inv(self) -> bool {
        true
    }

    proof fn lemma_inv(self) {
    }

    fn fresh() -> (c: Self) {
        AcyclicCounter { count: 0 }
    }
}

impl AcyclicCounter {
    /// The acyclic counter has a single count: the primary and the total
    /// count coincide.
    pub proof fn lemma_counts_agree(self)
        ensures
            self.primary_count() == self.total_count(),
    {
    }

    /// Record one more handle.
    pub fn incr(&mut self)
        requires
            old(self).total_count() < usize::MAX,
        ensures
            final(self).inv(),
            final(self).primary_count() == old(self).primary_count() + 1,
            final(self).total_count() == old(self).total_count() + 1,
    {
        let prev: usize = self.count;
        self.count = prev + 1;
    }

    /// Forget one handle.  Calling this with no reference recorded would
    /// be a caller error, so it is ruled out by the precondition.
    pub fn decr(&mut self)
        requires
            old(self).total_count() > 0,
        ensures
            final(self).inv(),
            final(self).primary_count() == old(self).primary_count() - 1,
            final(self).total_count() == old(self).total_count() - 1,
    {
        let prev: usize = self.count;
        self.count = prev - 1;
    }

    /// Does at least one handle survive?
    pub fn valid(&self) -> (r: bool)
        ensures
            r == (self.total_count() > 0),
    {
        self.count > 0
    }

    /// Is there at most one handle?
    pub fn unique(&self) -> (r: bool)
        ensures
            r == (self.total_count() <= 1),
    {
        self.count <= 1
    }
}

} // verus!
