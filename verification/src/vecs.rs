//! The concrete shared vector types.
//!
//! [`GenericVec`] is the user-facing container over a primary reference
//! kind; [`RcVec`] (strong, with a weak counterpart [`WeakVec`]) and
//! [`AcycVec`] (single-owner counting, no weak kind) are its two
//! instantiations.  Every mutating operation is copy-on-write: it goes
//! through [`BaseRcVec::try_make_vec_mut`], so a mutation is never
//! observable through any other outstanding handle.

use vstd::prelude::*;

use crate::base::acquire_post;
use crate::base::release_post;
use crate::base::BaseRcVec;
use crate::counter::Counter;
use crate::counter::StrongWeakCounter;
use crate::kinds::AcycType;
use crate::kinds::StrongType;
use crate::kinds::VecType;
use crate::kinds::WeakType;
use crate::store::lemma_remove_insert;
use crate::store::Slot;
use crate::store::Store;

verus! {

/// How one copy-on-write mutation changes the store: every other
/// allocation is untouched; the handle's allocation either is mutated in
/// place (when the counter proved exclusivity) or stays as it was except
/// for the release of the old reference, with the new data in a fresh
/// allocation.  In particular, what is observable through any *other*
/// handle never changes.
pub open spec fn cow_mutation<V: VecType, T>(
    pre: Seq<Slot<V::Counter, T>>,
    post: Seq<Slot<V::Counter, T>>,
    pre_id: int,
    post_id: int,
    new_data: Seq<T>,
) -> bool {
    &&& forall|j: int| 0 <= j < pre.len() && j != pre_id ==> post[j] == pre[j]
    &&& post[post_id].is_state(1, 1, Some(new_data), false)
    &&& (pre[pre_id].counter.total_count() <= 1 ==> post_id == pre_id && post.len() == pre.len())
    &&& (pre[pre_id].counter.total_count() > 1 ==> {
        &&& post_id == pre.len()
        &&& post.len() == pre.len() + 1
        &&& release_post::<V, T>(pre[pre_id], post[pre_id])
    })
}

/// Copy-on-write isolation: a mutation through one handle never changes
/// what is observable through any other handle.  A handle on a different
/// allocation sees an untouched slot; a second strong handle on the
/// *same* allocation (so the primary count is at least two) still sees
/// the old elements, because the mutation went into a fresh copy and
/// only released the mutating handle's own reference.
pub proof fn lemma_cow_isolation<V: VecType, T>(
    pre: Seq<Slot<V::Counter, T>>,
    post: Seq<Slot<V::Counter, T>>,
    pre_id: int,
    post_id: int,
    new_data: Seq<T>,
    other: int,
)
    requires
        cow_mutation::<V, T>(pre, post, pre_id, post_id, new_data),
        0 <= pre_id < pre.len(),
        0 <= other < pre.len(),
        pre[pre_id].counter.inv(),
        other == pre_id ==> pre[pre_id].counter.primary_count() >= 2,
    ensures
        post[other].contents == pre[other].contents,
{
    if other == pre_id {
        pre[pre_id].counter.lemma_inv();
    }
}

/// A growable vector sharing its allocation through reference counting,
/// generic over the (primary) reference kind.
pub struct GenericVec<V: VecType, T> {
    /// The underlying handle into the allocation store.
    pub base: BaseRcVec<V, T>,
}

/// A strong shared vector: keeps its elements alive, can be downgraded.
pub type RcVec<T> = GenericVec<StrongType, T>;

/// A single-owner-counted shared vector with no weak kind.
pub type AcycVec<T> = GenericVec<AcycType, T>;

impl<V: VecType, T> GenericVec<V, T> {
    /// The index of the allocation this vector refers to.
    pub open spec fn id(self) -> int {
        self.base.id()
    }

    /// The handle refers to a live allocation of the store.
    pub open spec fn valid(self, st: Store<V::Counter, T>) -> bool {
        self.base.valid(st)
    }

    /// The elements observable through this vector.
    pub open spec fn data(self, st: Store<V::Counter, T>) -> Seq<T>
        recommends
            self.valid(st),
    {
        self.base.data(st)
    }

    /// A new empty shared vector in a fresh allocation.
    pub fn new(st: &mut Store<V::Counter, T>) -> (v: Self)
        requires
            old(st).wf(),
            V::is_primary(),
        ensures
            final(st).wf(),
            final(st)@.len() == old(st)@.len() + 1,
            forall|j: int| 0 <= j < old(st)@.len() ==> final(st)@[j] == old(st)@[j],
            v.id() == old(st)@.len(),
            v.valid(*final(st)),
            v.data(*final(st)) == Seq::<T>::empty(),
            final(st)@[v.id()].is_state(1, 1, Some(Seq::<T>::empty()), false),
    {
        Self::from_vec(st, Vec::new())
    }

    /// A new empty shared vector whose allocation has room for `cap`
    /// elements.
    pub fn with_capacity(st: &mut Store<V::Counter, T>, cap: usize) -> (v: Self)
        requires
            old(st).wf(),
            V::is_primary(),
        ensures
            final(st).wf(),
            final(st)@.len() == old(st)@.len() + 1,
            forall|j: int| 0 <= j < old(st)@.len() ==> final(st)@[j] == old(st)@[j],
            v.id() == old(st)@.len(),
            v.valid(*final(st)),
            v.data(*final(st)) == Seq::<T>::empty(),
            final(st)@[v.id()].is_state(1, 1, Some(Seq::<T>::empty()), false),
    {
        Self::from_vec(st, Vec::with_capacity(cap))
    }

    /// Wrap an owned element vector into a fresh shared allocation.
    pub fn from_vec(st: &mut Store<V::Counter, T>, elems: Vec<T>) -> (v: Self)
        requires
            old(st).wf(),
            V::is_primary(),
        ensures
            final(st).wf(),
            final(st)@.len() == old(st)@.len() + 1,
            forall|j: int| 0 <= j < old(st)@.len() ==> final(st)@[j] == old(st)@[j],
            v.id() == old(st)@.len(),
            v.valid(*final(st)),
            v.data(*final(st)) == elems@,
            final(st)@[v.id()].is_state(1, 1, Some(elems@), false),
    {
        GenericVec { base: BaseRcVec::from_vec(st, elems) }
    }

    /// Acquire one more handle on the same allocation.
    pub fn clone_handle(&self, st: &mut Store<V::Counter, T>) -> (v: Self)
        requires
            old(st).wf(),
            self.valid(*old(st)),
            old(st)@[self.id()].counter.total_count() < usize::MAX,
        ensures
            final(st).wf(),
            final(st)@.len() == old(st)@.len(),
            forall|j: int|
                0 <= j < final(st)@.len() && j != self.id() ==> final(st)@[j] == old(st)@[j],
            acquire_post::<V, T>(old(st)@[self.id()], final(st)@[self.id()]),
            v.id() == self.id(),
            v.valid(*final(st)),
            self.valid(*final(st)),
            v.data(*final(st)) == self.data(*old(st)),
    {
        GenericVec { base: self.base.clone_handle(st) }
    }

    /// Release this handle, with the staged teardown of its kind.
    pub fn release(self, st: &mut Store<V::Counter, T>)
        requires
            old(st).wf(),
            self.valid(*old(st)),
        ensures
            final(st).wf(),
            final(st)@.len() == old(st)@.len(),
            forall|j: int|
                0 <= j < final(st)@.len() && j != self.id() ==> final(st)@[j] == old(st)@[j],
            release_post::<V, T>(old(st)@[self.id()], final(st)@[self.id()]),
    {
        self.base.release(st)
    }

    /// How many elements are observable through this vector.
    pub fn len(&self, st: &Store<V::Counter, T>) -> (n: usize)
        requires
            st.wf(),
            self.valid(*st),
            V::is_primary(),
        ensures
            n == self.data(*st).len(),
    {
        let v = self.base.try_vec_ref(st).unwrap();
        v.len()
    }

    /// Read one element.
    pub fn get<'a>(&self, st: &'a Store<V::Counter, T>, i: usize) -> (r: &'a T)
        requires
            st.wf(),
            self.valid(*st),
            V::is_primary(),
            i < self.data(*st).len(),
        ensures
            *r == self.data(*st)[i as int],
    {
        let v = self.base.try_vec_ref(st).unwrap();
        &v[i]
    }

    /// Unwrap into the bare owned element vector.  Succeeds exactly when
    /// this handle holds the sole primary reference; otherwise the
    /// untouched, still-shared handle is handed back as failure.
    pub fn try_into_vec(self, st: &mut Store<V::Counter, T>) -> (r: Result<Vec<T>, Self>)
        requires
            old(st).wf(),
            self.valid(*old(st)),
        ensures
            final(st).wf(),
            r is Ok <==> (V::is_primary() && old(st)@[self.id()].counter.primary_count() <= 1),
            r is Err ==> (r->Err_0).id() == self.id() && (r->Err_0).valid(*final(st)),
            r is Err ==> final(st)@ == old(st)@,
            r is Ok ==> (r->Ok_0)@ == self.data(*old(st)),
            r is Ok ==> final(st)@.len() == old(st)@.len(),
            r is Ok ==> forall|j: int|
                0 <= j < old(st)@.len() && j != self.id() ==> final(st)@[j] == old(st)@[j],
            r is Ok ==> release_post::<V, T>(old(st)@[self.id()], final(st)@[self.id()]),
    {
        match self.base.try_into_vec(st) {
            Ok(v) => Ok(v),
            Err(base) => Err(GenericVec { base }),
        }
    }
}

impl<V: VecType, T: Clone> GenericVec<V, T> {
    /// Duplicate every element into a brand-new allocation.  A valid
    /// handle of a primary kind always succeeds.
    pub fn try_deep_clone(&self, st: &mut Store<V::Counter, T>) -> (r: Option<Self>)
        requires
            old(st).wf(),
            self.valid(*old(st)),
        ensures
            final(st).wf(),
            r is Some <==> V::is_primary(),
            r is None ==> final(st)@ == old(st)@,
            r is Some ==> final(st)@.len() == old(st)@.len() + 1,
            r is Some ==> forall|j: int| 0 <= j < old(st)@.len() ==> final(st)@[j] == old(st)@[j],
            r is Some ==> (r->Some_0).id() == old(st)@.len(),
            r is Some ==> (r->Some_0).valid(*final(st)),
            r is Some ==> {
                let d = (r->Some_0).data(*final(st));
                &&& d.len() == self.data(*old(st)).len()
                &&& forall|k: int|
                    0 <= k < d.len() ==> cloned::<T>(self.data(*old(st))[k], #[trigger] d[k])
            },
            self.valid(*final(st)),
    {
        match self.base.try_deep_clone(st) {
            Some(base) => Some(GenericVec { base }),
            None => None,
        }
    }
}

impl<V: VecType, T: Copy> GenericVec<V, T> {
    /// Copy the elements of a slice into a fresh shared allocation.
    pub fn copy_from_slice(st: &mut Store<V::Counter, T>, src: &[T]) -> (v: Self)
        requires
            old(st).wf(),
            V::is_primary(),
        ensures
            final(st).wf(),
            final(st)@.len() == old(st)@.len() + 1,
            forall|j: int| 0 <= j < old(st)@.len() ==> final(st)@[j] == old(st)@[j],
            v.id() == old(st)@.len(),
            v.valid(*final(st)),
            v.data(*final(st)) == src@,
            final(st)@[v.id()].is_state(1, 1, Some(src@), false),
    {
        Self::from_vec(st, vstd::slice::slice_to_vec(src))
    }

    /// Copy the observable elements into an owned vector.
    pub fn to_vec(&self, st: &Store<V::Counter, T>) -> (r: Vec<T>)
        requires
            st.wf(),
            self.valid(*st),
            V::is_primary(),
        ensures
            r@ == self.data(*st),
    {
        let v = self.base.try_vec_ref(st).unwrap();
        vstd::slice::slice_to_vec(v.as_slice())
    }

    /// Replace self by a handle whose mutation is permitted, copying the
    /// elements into a fresh allocation if the current one is shared.
    pub fn try_make_unique(&mut self, st: &mut Store<V::Counter, T>) -> (r: bool)
        requires
            old(st).wf(),
            old(self).valid(*old(st)),
        ensures
            final(st).wf(),
            r == V::is_primary(),
            !r ==> final(st)@ == old(st)@ && *final(self) == *old(self),
            r ==> final(self).valid(*final(st)),
            r ==> cow_mutation::<V, T>(
                old(st)@,
                final(st)@,
                old(self).id(),
                final(self).id(),
                old(self).data(*old(st)),
            ),
    {
        let r = self.base.try_make_unique(st);
        r
    }

    /// Append one element, copying the allocation first if it is shared.
    pub fn push(&mut self, st: &mut Store<V::Counter, T>, val: T)
        requires
            old(st).wf(),
            old(self).valid(*old(st)),
            V::is_primary(),
        ensures
            final(st).wf(),
            final(self).valid(*final(st)),
            final(self).data(*final(st)) == old(self).data(*old(st)).push(val),
            cow_mutation::<V, T>(
                old(st)@,
                final(st)@,
                old(self).id(),
                final(self).id(),
                old(self).data(*old(st)).push(val),
            ),
    {
        let ok = self.base.try_make_vec_mut(st);
        if !ok {
            proof {
                assert(false);
            }
            return ;
        }
        let ghost st1 = *st;
        let i: usize = self.base.slot_index();
        let slot = st.take_slot(i);
        let Slot { counter, contents, freed } = slot;
        let mut v: Vec<T> = contents.unwrap();
        v.push(val);
        let ns = Slot { counter, contents: Some(v), freed };
        let ghost gns = ns;
        st.put_slot(i, ns);
        proof {
            lemma_remove_insert(st1@, i as int, gns);
        }
    }

    /// Remove and return the last element, if any; copies the allocation
    /// first if it is shared, whether or not an element is there to pop.
    pub fn pop(&mut self, st: &mut Store<V::Counter, T>) -> (r: Option<T>)
        requires
            old(st).wf(),
            old(self).valid(*old(st)),
            V::is_primary(),
        ensures
            final(st).wf(),
            final(self).valid(*final(st)),
            old(self).data(*old(st)).len() > 0 ==> r == Some(old(self).data(*old(st)).last())
                && final(self).data(*final(st)) == old(self).data(*old(st)).drop_last(),
            old(self).data(*old(st)).len() == 0 ==> r is None && final(self).data(*final(st))
                == old(self).data(*old(st)),
            cow_mutation::<V, T>(
                old(st)@,
                final(st)@,
                old(self).id(),
                final(self).id(),
                final(self).data(*final(st)),
            ),
    {
        let ok = self.base.try_make_vec_mut(st);
        if !ok {
            proof {
                assert(false);
            }
            return None;
        }
        let ghost st1 = *st;
        let i: usize = self.base.slot_index();
        let slot = st.take_slot(i);
        let Slot { counter, contents, freed } = slot;
        let mut v: Vec<T> = contents.unwrap();
        let r = v.pop();
        let ns = Slot { counter, contents: Some(v), freed };
        let ghost gns = ns;
        st.put_slot(i, ns);
        proof {
            lemma_remove_insert(st1@, i as int, gns);
        }
        r
    }

    /// Remove every element; copies the allocation first if it is shared.
    pub fn clear(&mut self, st: &mut Store<V::Counter, T>)
        requires
            old(st).wf(),
            old(self).valid(*old(st)),
            V::is_primary(),
        ensures
            final(st).wf(),
            final(self).valid(*final(st)),
            final(self).data(*final(st)) == Seq::<T>::empty(),
            cow_mutation::<V, T>(
                old(st)@,
                final(st)@,
                old(self).id(),
                final(self).id(),
                Seq::<T>::empty(),
            ),
    {
        let ok = self.base.try_make_vec_mut(st);
        if !ok {
            proof {
                assert(false);
            }
            return ;
        }
        let ghost st1 = *st;
        let i: usize = self.base.slot_index();
        let slot = st.take_slot(i);
        let Slot { counter, contents, freed } = slot;
        let mut v: Vec<T> = contents.unwrap();
        v.clear();
        let ns = Slot { counter, contents: Some(v), freed };
        let ghost gns = ns;
        st.put_slot(i, ns);
        proof {
            lemma_remove_insert(st1@, i as int, gns);
        }
    }

    /// Insert one element at `index`, shifting what follows; copies the
    /// allocation first if it is shared.
    pub fn insert(&mut self, st: &mut Store<V::Counter, T>, index: usize, val: T)
        requires
            old(st).wf(),
            old(self).valid(*old(st)),
            V::is_primary(),
            index <= old(self).data(*old(st)).len(),
        ensures
            final(st).wf(),
            final(self).valid(*final(st)),
            final(self).data(*final(st)) == old(self).data(*old(st)).insert(index as int, val),
            cow_mutation::<V, T>(
                old(st)@,
                final(st)@,
                old(self).id(),
                final(self).id(),
                old(self).data(*old(st)).insert(index as int, val),
            ),
    {
        let ok = self.base.try_make_vec_mut(st);
        if !ok {
            proof {
                assert(false);
            }
            return ;
        }
        let ghost st1 = *st;
        let i: usize = self.base.slot_index();
        let slot = st.take_slot(i);
        let Slot { counter, contents, freed } = slot;
        let mut v: Vec<T> = contents.unwrap();
        v.insert(index, val);
        let ns = Slot { counter, contents: Some(v), freed };
        let ghost gns = ns;
        st.put_slot(i, ns);
        proof {
            lemma_remove_insert(st1@, i as int, gns);
        }
    }

    /// Remove and return the element at `index`, if it is in bounds;
    /// copies the allocation first if it is shared, in or out of bounds.
    pub fn remove(&mut self, st: &mut Store<V::Counter, T>, index: usize) -> (r: Option<T>)
        requires
            old(st).wf(),
            old(self).valid(*old(st)),
            V::is_primary(),
        ensures
            final(st).wf(),
            final(self).valid(*final(st)),
            index < old(self).data(*old(st)).len() ==> r == Some(
                old(self).data(*old(st))[index as int],
            ) && final(self).data(*final(st)) == old(self).data(*old(st)).remove(index as int),
            index >= old(self).data(*old(st)).len() ==> r is None && final(self).data(*final(st))
                == old(self).data(*old(st)),
            cow_mutation::<V, T>(
                old(st)@,
                final(st)@,
                old(self).id(),
                final(self).id(),
                final(self).data(*final(st)),
            ),
    {
        let ok = self.base.try_make_vec_mut(st);
        if !ok {
            proof {
                assert(false);
            }
            return None;
        }
        let ghost st1 = *st;
        let i: usize = self.base.slot_index();
        let slot = st.take_slot(i);
        let Slot { counter, contents, freed } = slot;
        let mut v: Vec<T> = contents.unwrap();
        let r: Option<T> = if index < v.len() {
            Some(v.remove(index))
        } else {
            None
        };
        let ns = Slot { counter, contents: Some(v), freed };
        let ghost gns = ns;
        st.put_slot(i, ns);
        proof {
            lemma_remove_insert(st1@, i as int, gns);
        }
        r
    }

    /// Append a copy of every element of a slice; copies the allocation
    /// first if it is shared.
    pub fn extend_from_slice(&mut self, st: &mut Store<V::Counter, T>, src: &[T])
        requires
            old(st).wf(),
            old(self).valid(*old(st)),
            V::is_primary(),
        ensures
            final(st).wf(),
            final(self).valid(*final(st)),
            final(self).data(*final(st)) == old(self).data(*old(st)) + src@,
            cow_mutation::<V, T>(
                old(st)@,
                final(st)@,
                old(self).id(),
                final(self).id(),
                old(self).data(*old(st)) + src@,
            ),
    {
        let ok = self.base.try_make_vec_mut(st);
        if !ok {
            proof {
                assert(false);
            }
            return ;
        }
        let ghost st1 = *st;
        let i: usize = self.base.slot_index();
        let slot = st.take_slot(i);
        let Slot { counter, contents, freed } = slot;
        let mut v: Vec<T> = contents.unwrap();
        let mut extra: Vec<T> = vstd::slice::slice_to_vec(src);
        v.append(&mut extra);
        let ns = Slot { counter, contents: Some(v), freed };
        let ghost gns = ns;
        st.put_slot(i, ns);
        proof {
            lemma_remove_insert(st1@, i as int, gns);
        }
    }
}

impl<T> GenericVec<StrongType, T> {
    /// Create a weak handle observing the same allocation.  Always
    /// succeeds: any counter state admits a new weak reference.
    pub fn downgrade(&self, st: &mut Store<StrongWeakCounter, T>) -> (w: WeakVec<T>)
        requires
            old(st).wf(),
            self.valid(*old(st)),
            old(st)@[self.id()].counter.total_count() < usize::MAX,
        ensures
            final(st).wf(),
            final(st)@.len() == old(st)@.len(),
            forall|j: int|
                0 <= j < final(st)@.len() && j != self.id() ==> final(st)@[j] == old(st)@[j],
            acquire_post::<WeakType, T>(old(st)@[self.id()], final(st)@[self.id()]),
            w.id() == self.id(),
            w.valid(*final(st)),
            self.valid(*final(st)),
            self.data(*final(st)) == self.data(*old(st)),
    {
        proof {
            old(st)@[self.id()].counter.lemma_inv();
        }
        let base = self.base.try_convert::<WeakType>(st).unwrap();
        WeakVec { base }
    }
}

/// A weak handle on a shared allocation: it observes whether the strong
/// handles are gone, but grants no access to the elements and does not
/// keep them alive.
pub struct WeakVec<T> {
    /// The underlying handle into the allocation store.
    pub base: BaseRcVec<WeakType, T>,
}

impl<T> WeakVec<T> {
    /// The index of the allocation this handle refers to.
    pub open spec fn id(self) -> int {
        self.base.id()
    }

    /// The handle refers to a live allocation of the store.
    pub open spec fn valid(self, st: Store<StrongWeakCounter, T>) -> bool {
        self.base.valid(st)
    }

    /// Try to create a strong handle on the same allocation.  Succeeds
    /// exactly while some strong handle survives; once the last strong
    /// handle is gone the elements have been destructed and upgrading
    /// reports failure.
    pub fn upgrade(&self, st: &mut Store<StrongWeakCounter, T>) -> (r: Option<RcVec<T>>)
        requires
            old(st).wf(),
            self.valid(*old(st)),
            old(st)@[self.id()].counter.total_count() < usize::MAX,
        ensures
            final(st).wf(),
            r is Some <==> old(st)@[self.id()].counter.primary_count() > 0,
            r is None ==> final(st)@ == old(st)@,
            r is Some ==> final(st)@.len() == old(st)@.len(),
            r is Some ==> forall|j: int|
                0 <= j < final(st)@.len() && j != self.id() ==> final(st)@[j] == old(st)@[j],
            r is Some ==> acquire_post::<StrongType, T>(old(st)@[self.id()], final(st)@[self.id()]),
            r is Some ==> (r->Some_0).id() == self.id(),
            r is Some ==> (r->Some_0).valid(*final(st)),
            r is Some ==> (r->Some_0).data(*final(st)) == old(st)@[self.id()].data(),
            self.valid(*final(st)),
    {
        match self.base.try_convert::<StrongType>(st) {
            Some(base) => Some(GenericVec { base }),
            None => None,
        }
    }

    /// Acquire one more weak handle on the same allocation.
    pub fn clone_handle(&self, st: &mut Store<StrongWeakCounter, T>) -> (w: Self)
        requires
            old(st).wf(),
            self.valid(*old(st)),
            old(st)@[self.id()].counter.total_count() < usize::MAX,
        ensures
            final(st).wf(),
            final(st)@.len() == old(st)@.len(),
            forall|j: int|
                0 <= j < final(st)@.len() && j != self.id() ==> final(st)@[j] == old(st)@[j],
            acquire_post::<WeakType, T>(old(st)@[self.id()], final(st)@[self.id()]),
            w.id() == self.id(),
            w.valid(*final(st)),
            self.valid(*final(st)),
    {
        WeakVec { base: self.base.clone_handle(st) }
    }

    /// Release this weak handle; the allocation is freed if it was the
    /// last handle of any kind.
    pub fn release(self, st: &mut Store<StrongWeakCounter, T>)
        requires
            old(st).wf(),
            self.valid(*old(st)),
        ensures
            final(st).wf(),
            final(st)@.len() == old(st)@.len(),
            forall|j: int|
                0 <= j < final(st)@.len() && j != self.id() ==> final(st)@[j] == old(st)@[j],
            release_post::<WeakType, T>(old(st)@[self.id()], final(st)@[self.id()]),
    {
        self.base.release(st)
    }
}

} // verus!
