//! Reference-kind policies.
//!
//! A reference kind is a stateless, type-level policy over a chosen
//! [`Counter`]: it says which counter operation an acquire or a release of
//! its kind performs, when a handle of its kind may borrow or mutate the
//! shared allocation, when it may be created by converting another handle,
//! and what a release of its kind must tear down.

use vstd::prelude::*;

use crate::counter::AcyclicCounter;
use crate::counter::Counter;
use crate::counter::StrongWeakCounter;

verus! {

/// A reference kind over a counter type.
///
/// A *primary* kind keeps the element body alive and is counted in both
/// the primary and the total count; a secondary (weak) kind is counted
/// only in the total count.  The access and teardown predicates are fixed
/// functions of the counter state:
///
/// - borrow immutably: a primary kind with a live primary count; never
///   for a secondary kind;
/// - borrow mutably: a primary kind whose *total* count is at most one,
///   so that no handle of any kind can observe the mutation (growth may
///   relocate the body, which would leave any other handle stale);
/// - take ownership: a primary kind with at most one primary reference;
/// - drop the contents on release: a primary kind whose release removed
///   the last primary reference;
/// - free the whole allocation on release: any kind whose release removed
///   the last reference of any kind.
pub trait VecType: Sized {
    /// The counter shape this kind is counted in.
    type Counter: Counter;

    /// Whether this kind keeps the element body alive.
    spec fn is_primary() -> bool;

    /// When a handle of this kind may be created from an existing handle
    /// to the same allocation.
    spec fn can_create_spec(c: Self::Counter) -> bool;

    /// A kind that may be created while some handle survives can rely on
    /// the element body being present if it is a primary kind.
    proof fn lemma_can_create(c: Self::Counter)
        requires
            c.inv(),
            Self::can_create_spec(c),
            c.total_count() > 0,
        ensures
            Self::is_primary() ==> c.primary_count() > 0,
    ;

    /// Record the acquisition of one handle of this kind.
    fn incr(c: &mut Self::Counter)
        requires
            old(c).inv(),
            old(c).total_count() < usize::MAX,
        ensures
            final(c).inv(),
            final(c).total_count() == old(c).total_count() + 1,
            final(c).primary_count() == old(c).primary_count() + (if Self::is_primary() {
                1nat
            } else {
                0nat
            }),
    ;

    /// Record the release of one handle of this kind.  A release is only
    /// legal while a handle of this kind is recorded: a primary reference
    /// for a primary kind, and for a secondary kind a total count that
    /// exceeds the primary count.
    fn decr(c: &mut Self::Counter)
        requires
            old(c).inv(),
            old(c).total_count() > 0,
            Self::is_primary() ==> old(c).primary_count() > 0,
            !Self::is_primary() ==> old(c).primary_count() < old(c).total_count(),
        ensures
            final(c).inv(),
            final(c).total_count() == old(c).total_count() - 1,
            final(c).primary_count() == old(c).primary_count() - (if Self::is_primary() {
                1nat
            } else {
                0nat
            }),
    ;

    /// May a handle of this kind take sole ownership of the elements?
    fn can_take(c: &Self::Counter) -> (r: bool)
        ensures
            r == (Self::is_primary() && c.primary_count() <= 1),
    ;

    /// May a handle of this kind borrow the elements immutably?
    fn can_get_ref(c: &Self::Counter) -> (r: bool)
        ensures
            r == (Self::is_primary() && c.primary_count() > 0),
    ;

    /// May a handle of this kind borrow the elements mutably?
    fn can_get_mut(c: &Self::Counter) -> (r: bool)
        ensures
            r == (Self::is_primary() && c.total_count() <= 1),
    ;

    /// After a release of this kind, must the whole allocation be freed?
    fn should_drop_entire_vector(c: &Self::Counter) -> (r: bool)
        ensures
            r == (c.total_count() == 0),
    ;

    /// After a release of this kind, must the elements be destructed in
    /// place (keeping the allocation for surviving weak handles)?
    fn should_drop_contents(c: &Self::Counter) -> (r: bool)
        ensures
            r == (Self::is_primary() && c.primary_count() == 0),
    ;

    /// May a handle of this kind be created from an existing handle?
    fn can_create(c: &Self::Counter) -> (r: bool)
        ensures
            r == Self::can_create_spec(*c),
    ;
}

/// The strong kind of the strong/weak pair: keeps elements alive.
#[derive(Clone, Copy)]
pub struct StrongType;

impl VecType for StrongType {
    type Counter = StrongWeakCounter;

    open spec fn is_primary() -> bool {
        true
    }

    open spec fn can_create_spec(c: StrongWeakCounter) -> bool {
        c.primary_count() > 0
    }

    proof fn lemma_can_create(c: StrongWeakCounter) {
    }

    fn incr(c: &mut StrongWeakCounter) {
        c.incr_strong();
    }

    fn decr(c: &mut StrongWeakCounter) {
        c.decr_strong();
    }

    fn can_take(c: &StrongWeakCounter) -> (r: bool) {
        c.unique_strong()
    }

    fn can_get_ref(c: &StrongWeakCounter) -> (r: bool) {
        c.valid_strong()
    }

    fn can_get_mut(c: &StrongWeakCounter) -> (r: bool) {
        c.unique_weak()
    }

    fn should_drop_entire_vector(c: &StrongWeakCounter) -> (r: bool) {
        !c.valid_weak()
    }

    fn should_drop_contents(c: &StrongWeakCounter) -> (r: bool) {
        !c.valid_strong()
    }

    fn can_create(c: &StrongWeakCounter) -> (r: bool) {
        c.valid_strong()
    }
}

/// The weak kind of the strong/weak pair: observes liveness without
/// keeping elements alive, and never grants access to them.
#[derive(Clone, Copy)]
pub struct WeakType;

impl VecType for WeakType {
    type Counter = StrongWeakCounter;

    open spec fn is_primary() -> bool {
        false
    }

    open spec fn can_create_spec(c: StrongWeakCounter) -> bool {
        true
    }

    proof fn lemma_can_create(c: StrongWeakCounter) {
    }

    fn incr(c: &mut StrongWeakCounter) {
        c.incr_weak();
    }

    fn decr(c: &mut StrongWeakCounter) {
        c.decr_weak();
    }

    fn can_take(c: &StrongWeakCounter) -> (r: bool) {
        false
    }

    fn can_get_ref(c: &StrongWeakCounter) -> (r: bool) {
        false
    }

    fn can_get_mut(c: &StrongWeakCounter) -> (r: bool) {
        false
    }

    fn should_drop_entire_vector(c: &StrongWeakCounter) -> (r: bool) {
        !c.valid_weak()
    }

    fn should_drop_contents(c: &StrongWeakCounter) -> (r: bool) {
        false
    }

    fn can_create(c: &StrongWeakCounter) -> (r: bool) {
        true
    }
}

/// The single kind of the acyclic variant: a primary kind over the
/// single counter, with no weak kind beside it.
#[derive(Clone, Copy)]
pub struct AcycType;

impl VecType for AcycType {
    type Counter = AcyclicCounter;

    open spec fn is_primary() -> bool {
        true
    }

    open spec fn can_create_spec(c: AcyclicCounter) -> bool {
        true
    }

    proof fn lemma_can_create(c: AcyclicCounter) {
        c.lemma_counts_agree();
    }

    fn incr(c: &mut AcyclicCounter) {
        proof {
            old(c).lemma_counts_agree();
        }
        c.incr();
    }

    fn decr(c: &mut AcyclicCounter) {
        proof {
            old(c).lemma_counts_agree();
        }
        c.decr();
    }

    fn can_take(c: &AcyclicCounter) -> (r: bool) {
        proof {
            c.lemma_counts_agree();
        }
        c.unique()
    }

    fn can_get_ref(c: &AcyclicCounter) -> (r: bool) {
        proof {
            c.lemma_counts_agree();
        }
        c.valid()
    }

    fn can_get_mut(c: &AcyclicCounter) -> (r: bool) {
        c.unique()
    }

    fn should_drop_entire_vector(c: &AcyclicCounter) -> (r: bool) {
        !c.valid()
    }

    fn should_drop_contents(c: &AcyclicCounter) -> (r: bool) {
        proof {
            c.lemma_counts_agree();
        }
        !c.valid()
    }

    fn can_create(c: &AcyclicCounter) -> (r: bool) {
        true
    }
}

} // verus!
