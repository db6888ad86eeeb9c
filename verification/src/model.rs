//! The life cycle of one shared allocation, over all operation sequences.
//!
//! A handle on an allocation of the strong/weak pair can be cloned,
//! dropped, downgraded and upgraded.  This module models the allocation's
//! state under any legal sequence of such operations and proves the
//! life-cycle laws: the counters always equal the number of live handles,
//! mutable borrowing is permitted exactly when one handle survives, the
//! block is freed exactly once and only after the last handle of any kind
//! is dropped, the elements are destructed as soon as the last strong
//! handle goes while weak handles survive, and a downgrade followed by an
//! upgrade succeeds and observes the same elements while a strong handle
//! remains.
//!
//! Each step of the model mirrors, via [`abs_slot`], the slot transition
//! that the container operations ensure through [`acquire_post`] and
//! [`release_post`]; the bridging lemmas at the end state that
//! correspondence.

use vstd::prelude::*;

use crate::base::acquire_post;
use crate::base::release_post;
use crate::counter::Counter;
use crate::counter::StrongWeakCounter;
use crate::kinds::StrongType;
use crate::kinds::VecType;
use crate::kinds::WeakType;
use crate::store::Slot;

verus! {

/// One operation on handles of a single allocation.  `CloneStrong` and
/// `Upgrade` acquire a strong reference, `Downgrade` and `CloneWeak`
/// acquire a weak one, `DropStrong` and `DropWeak` release one.  An
/// upgrade that finds no strong reference fails and changes nothing, so
/// only successful upgrades appear in a sequence.
pub enum RcOp {
    CloneStrong,
    DropStrong,
    Downgrade,
    CloneWeak,
    DropWeak,
    Upgrade,
}

/// The state of one allocation: the dual counter, whether the element
/// body is still present, and whether the block has been freed.
pub struct AllocModel {
    /// How many strong references the counter records.
    pub strong: nat,
    /// How many references of any kind the counter records.
    pub total: nat,
    /// Whether the element body is still present.
    pub contents_live: bool,
    /// Whether the block has been freed.
    pub freed: bool,
}

/// The state right after the allocation is created with its first strong
/// handle.
pub open spec fn init_model() -> AllocModel {
    AllocModel { strong: 1, total: 1, contents_live: true, freed: false }
}

/// How many strong handles are live after `ops`: the creating handle,
/// plus one per clone or successful upgrade, minus one per drop.
pub open spec fn strong_live(ops: Seq<RcOp>) -> int
    decreases ops.len(),
{
    if ops.len() == 0 {
        1
    } else {
        strong_live(ops.drop_last()) + (match ops.last() {
            RcOp::CloneStrong => 1int,
            RcOp::Upgrade => 1int,
            RcOp::DropStrong => -1int,
            _ => 0int,
        })
    }
}

/// How many weak handles are live after `ops`: one per downgrade or weak
/// clone, minus one per weak drop.
pub open spec fn weak_live(ops: Seq<RcOp>) -> int
    decreases ops.len(),
{
    if ops.len() == 0 {
        0
    } else {
        weak_live(ops.drop_last()) + (match ops.last() {
            RcOp::Downgrade => 1int,
            RcOp::CloneWeak => 1int,
            RcOp::DropWeak => -1int,
            _ => 0int,
        })
    }
}

/// An operation is possible only through a live handle of the right
/// kind; an upgrade moreover succeeds only while a strong handle is
/// live.
pub open spec fn op_enabled(ops: Seq<RcOp>, op: RcOp) -> bool {
    match op {
        RcOp::CloneStrong => strong_live(ops) > 0,
        RcOp::DropStrong => strong_live(ops) > 0,
        RcOp::Downgrade => strong_live(ops) > 0,
        RcOp::CloneWeak => weak_live(ops) > 0,
        RcOp::DropWeak => weak_live(ops) > 0,
        RcOp::Upgrade => weak_live(ops) > 0 && strong_live(ops) > 0,
    }
}

/// Every operation of the sequence is performed through a handle that is
/// live at that point.
pub open spec fn ops_ok(ops: Seq<RcOp>) -> bool {
    forall|i: int| 0 <= i < ops.len() ==> op_enabled(#[trigger] ops.subrange(0, i), ops[i])
}

/// How one operation changes the allocation state: acquires bump the
/// counts; a release decrements them, destructs the element body when the
/// last strong reference goes, and frees the block when the last
/// reference of any kind goes.
pub open spec fn step_model(m: AllocModel, op: RcOp) -> AllocModel {
    match op {
        RcOp::CloneStrong | RcOp::Upgrade => AllocModel {
            strong: m.strong + 1,
            total: m.total + 1,
            contents_live: m.contents_live,
            freed: m.freed,
        },
        RcOp::Downgrade | RcOp::CloneWeak => AllocModel {
            strong: m.strong,
            total: m.total + 1,
            contents_live: m.contents_live,
            freed: m.freed,
        },
        RcOp::DropStrong => {
            let s = (m.strong - 1) as nat;
            let t = (m.total - 1) as nat;
            AllocModel {
                strong: s,
                total: t,
                contents_live: m.contents_live && s > 0,
                freed: t == 0,
            }
        },
        RcOp::DropWeak => {
            let t = (m.total - 1) as nat;
            AllocModel { strong: m.strong, total: t, contents_live: m.contents_live, freed: t == 0 }
        },
    }
}

/// The allocation state after a sequence of operations.
pub open spec fn run_model(ops: Seq<RcOp>) -> AllocModel
    decreases ops.len(),
{
    if ops.len() == 0 {
        init_model()
    } else {
        step_model(run_model(ops.drop_last()), ops.last())
    }
}

/// The strong kind's mutable-borrow predicate over the model state,
/// exactly as `StrongType::can_get_mut` computes it over the embedded
/// counter: the total count is at most one.
pub open spec fn can_borrow_mut(m: AllocModel) -> bool {
    m.total <= 1
}

/// A prefix of a legal operation sequence is itself legal.
pub proof fn lemma_ops_ok_prefix(ops: Seq<RcOp>, n: int)
    requires
        ops_ok(ops),
        0 <= n <= ops.len(),
    ensures
        ops_ok(ops.subrange(0, n)),
{
    let pre = ops.subrange(0, n);
    assert forall|i: int| 0 <= i < pre.len() implies op_enabled(
        #[trigger] pre.subrange(0, i),
        pre[i],
    ) by {
        assert(pre.subrange(0, i) =~= ops.subrange(0, i));
        assert(op_enabled(ops.subrange(0, i), ops[i]));
    }
}

/// Counter accuracy: after any legal operation sequence, the counter
/// records exactly the live handles (strong handles once in each count),
/// the element body is present exactly while a strong handle is live,
/// and the block is freed exactly when no handle of any kind is live.
pub proof fn lemma_counters_accurate(ops: Seq<RcOp>)
    requires
        ops_ok(ops),
    ensures
        strong_live(ops) >= 0,
        weak_live(ops) >= 0,
        run_model(ops).strong == strong_live(ops),
        run_model(ops).total == strong_live(ops) + weak_live(ops),
        run_model(ops).contents_live <==> strong_live(ops) > 0,
        run_model(ops).freed <==> strong_live(ops) + weak_live(ops) == 0,
    decreases ops.len(),
{
    if ops.len() > 0 {
        let pre = ops.drop_last();
        lemma_ops_ok_prefix(ops, ops.len() - 1);
        assert(pre =~= ops.subrange(0, ops.len() - 1));
        lemma_counters_accurate(pre);
        assert(op_enabled(ops.subrange(0, ops.len() - 1), ops[ops.len() - 1]));
        assert(op_enabled(pre, ops.last()));
    }
}

/// Uniqueness invariant: after any legal sequence of clone, drop,
/// downgrade and upgrade operations, mutable borrowing is permitted
/// exactly when precisely one live handle (of any kind) references the
/// allocation.
pub proof fn lemma_uniqueness_invariant(ops: Seq<RcOp>)
    requires
        ops_ok(ops),
        strong_live(ops) + weak_live(ops) >= 1,
    ensures
        can_borrow_mut(run_model(ops)) <==> strong_live(ops) + weak_live(ops) == 1,
{
    lemma_counters_accurate(ops);
}

/// No premature free: after any legal operation sequence the block is
/// freed exactly when the last handle of any kind has been dropped.
pub proof fn lemma_no_premature_free(ops: Seq<RcOp>)
    requires
        ops_ok(ops),
    ensures
        run_model(ops).freed <==> strong_live(ops) + weak_live(ops) == 0,
{
    lemma_counters_accurate(ops);
}

/// The free happens exactly once: no strict prefix of a legal operation
/// sequence leaves the block freed, since a freed allocation has no live
/// handle through which the remaining operations could act.  Together
/// with [`lemma_no_premature_free`] this pins the free to the single
/// release of the last handle.
pub proof fn lemma_freed_only_at_end(ops: Seq<RcOp>, n: int)
    requires
        ops_ok(ops),
        0 <= n < ops.len(),
    ensures
        !run_model(ops.subrange(0, n)).freed,
{
    let pre = ops.subrange(0, n);
    lemma_ops_ok_prefix(ops, n);
    lemma_counters_accurate(pre);
    if run_model(pre).freed {
        assert(op_enabled(ops.subrange(0, n), ops[n]));
        assert(false);
    }
}

/// Contents drop before free when the weak handles outlive the strong
/// ones: as soon as no strong handle survives while a weak handle does,
/// the elements have been destructed and the block has not been freed;
/// by [`lemma_no_premature_free`], it is freed only when the last weak
/// handle is later dropped.
pub proof fn lemma_contents_dropped_while_weak_survives(ops: Seq<RcOp>)
    requires
        ops_ok(ops),
        strong_live(ops) == 0,
        weak_live(ops) > 0,
    ensures
        !run_model(ops).contents_live,
        !run_model(ops).freed,
{
    lemma_counters_accurate(ops);
}

/// Upgrade/downgrade round trip, over operation sequences: while a
/// strong handle survives, a downgrade is always possible and an upgrade
/// of the new weak handle succeeds right after, and the element body
/// stays present throughout; with no strong handle left an upgrade is
/// not available.
pub proof fn lemma_downgrade_upgrade_round_trip(ops: Seq<RcOp>)
    requires
        ops_ok(ops),
    ensures
        strong_live(ops) > 0 ==> ops_ok(ops.push(RcOp::Downgrade)),
        strong_live(ops) > 0 ==> ops_ok(ops.push(RcOp::Downgrade).push(RcOp::Upgrade)),
        strong_live(ops) > 0 ==> run_model(
            ops.push(RcOp::Downgrade).push(RcOp::Upgrade),
        ).contents_live,
        strong_live(ops) <= 0 ==> !op_enabled(ops.push(RcOp::Downgrade), RcOp::Upgrade),
    decreases ops.len(),
{
    lemma_counters_accurate(ops);
    let ops1 = ops.push(RcOp::Downgrade);
    let ops2 = ops1.push(RcOp::Upgrade);
    assert(ops1.drop_last() =~= ops);
    assert(ops2.drop_last() =~= ops1);
    if strong_live(ops) > 0 {
        assert forall|i: int| 0 <= i < ops1.len() implies op_enabled(
            #[trigger] ops1.subrange(0, i),
            ops1[i],
        ) by {
            if i < ops.len() {
                assert(ops1.subrange(0, i) =~= ops.subrange(0, i));
            } else {
                assert(ops1.subrange(0, i) =~= ops);
            }
        }
        assert forall|i: int| 0 <= i < ops2.len() implies op_enabled(
            #[trigger] ops2.subrange(0, i),
            ops2[i],
        ) by {
            if i < ops.len() {
                assert(ops2.subrange(0, i) =~= ops.subrange(0, i));
            } else if i == ops.len() {
                assert(ops2.subrange(0, i) =~= ops);
            } else {
                assert(ops2.subrange(0, i) =~= ops1);
            }
        }
        lemma_counters_accurate(ops2);
    }
}

/// The abstraction of one store slot of the strong/weak pair as a model
/// state.
pub open spec fn abs_slot<T>(s: Slot<StrongWeakCounter, T>) -> AllocModel {
    AllocModel {
        strong: s.counter.primary_count(),
        total: s.counter.total_count(),
        contents_live: s.contents is Some,
        freed: s.freed,
    }
}

/// Acquiring a strong reference (a clone of a strong handle, or a
/// successful upgrade) moves the slot exactly as the model's
/// `CloneStrong` and `Upgrade` steps do.
pub proof fn lemma_acquire_strong_is_step<T>(pre: Slot<StrongWeakCounter, T>, post: Slot<
    StrongWeakCounter,
    T,
>)
    requires
        acquire_post::<StrongType, T>(pre, post),
    ensures
        abs_slot(post) == step_model(abs_slot(pre), RcOp::CloneStrong),
        abs_slot(post) == step_model(abs_slot(pre), RcOp::Upgrade),
{
}

/// Acquiring a weak reference (a downgrade, or a clone of a weak handle)
/// moves the slot exactly as the model's `Downgrade` and `CloneWeak`
/// steps do.
pub proof fn lemma_acquire_weak_is_step<T>(pre: Slot<StrongWeakCounter, T>, post: Slot<
    StrongWeakCounter,
    T,
>)
    requires
        acquire_post::<WeakType, T>(pre, post),
    ensures
        abs_slot(post) == step_model(abs_slot(pre), RcOp::Downgrade),
        abs_slot(post) == step_model(abs_slot(pre), RcOp::CloneWeak),
{
}

/// Releasing a strong handle moves a well-formed slot exactly as the
/// model's `DropStrong` step does.
pub proof fn lemma_release_strong_is_step<T>(pre: Slot<StrongWeakCounter, T>, post: Slot<
    StrongWeakCounter,
    T,
>)
    requires
        pre.wf(),
        pre.counter.primary_count() > 0,
        release_post::<StrongType, T>(pre, post),
    ensures
        abs_slot(post) == step_model(abs_slot(pre), RcOp::DropStrong),
{
    pre.counter.lemma_inv();
}

/// Releasing a weak handle moves a well-formed slot exactly as the
/// model's `DropWeak` step does.
pub proof fn lemma_release_weak_is_step<T>(pre: Slot<StrongWeakCounter, T>, post: Slot<
    StrongWeakCounter,
    T,
>)
    requires
        pre.wf(),
        pre.counter.primary_count() < pre.counter.total_count(),
        release_post::<WeakType, T>(pre, post),
    ensures
        abs_slot(post) == step_model(abs_slot(pre), RcOp::DropWeak),
{
}

/// Round trip at the slot level: downgrading a strong handle and
/// upgrading the resulting weak handle is permitted and observes the
/// same, still present, elements.
pub proof fn lemma_round_trip_slots<T>(
    s0: Slot<StrongWeakCounter, T>,
    s1: Slot<StrongWeakCounter, T>,
    s2: Slot<StrongWeakCounter, T>,
)
    requires
        s0.wf(),
        s0.counter.primary_count() > 0,
        acquire_post::<WeakType, T>(s0, s1),
        acquire_post::<StrongType, T>(s1, s2),
    ensures
        s1.counter.primary_count() > 0,
        s2.contents == s0.contents,
        s2.contents is Some,
{
}

} // verus!
