//! The generic shared container.
//!
//! A [`BaseRcVec`] couples one slot of the allocation [`Store`] with a
//! reference-kind policy chosen at the type level.  It implements
//! creation, fallible borrowing, conversion between reference kinds,
//! deep-clone-on-write uniqueness enforcement, unwrapping, and the staged
//! teardown on release.  Every operation states exactly which slots it
//! touches and how.

use core::marker::PhantomData;

use vstd::prelude::*;

use crate::counter::Counter;
use crate::kinds::VecType;
use crate::store::lemma_remove_insert;
use crate::store::Slot;
use crate::store::Store;

verus! {

/// How acquiring one reference of kind `V` changes a slot: the total
/// count grows by one, the primary count grows for a primary kind, and
/// the body and the freed flag stay as they were.
pub open spec fn acquire_post<V: VecType, T>(
    pre: Slot<V::Counter, T>,
    post: Slot<V::Counter, T>,
) -> bool {
    &&& post.counter.inv()
    &&& post.counter.primary_count() == pre.counter.primary_count() + (if V::is_primary() {
        1int
    } else {
        0int
    })
    &&& post.counter.total_count() == pre.counter.total_count() + 1
    &&& post.contents == pre.contents
    &&& post.freed == pre.freed
}

/// How releasing one reference of kind `V` changes a slot: the counts
/// shrink, the body is destructed exactly when the last content-keeping
/// reference goes, and the block is freed exactly when the last reference
/// of any kind goes.
pub open spec fn release_post<V: VecType, T>(
    pre: Slot<V::Counter, T>,
    post: Slot<V::Counter, T>,
) -> bool {
    let p = pre.counter.primary_count() - (if V::is_primary() {
        1int
    } else {
        0int
    });
    let t = pre.counter.total_count() - 1;
    &&& post.counter.inv()
    &&& post.counter.primary_count() == p
    &&& post.counter.total_count() == t
    &&& (p == 0 ==> post.contents is None)
    &&& (p > 0 ==> post.contents == pre.contents)
    &&& post.freed == (t == 0)
}

/// A handle of kind `V` on one shared allocation.
///
/// The handle itself is only a slot index; it deliberately implements
/// neither `Copy` nor `Clone`.  New handles to the same allocation come
/// only from [`BaseRcVec::clone_handle`] and [`BaseRcVec::try_convert`],
/// which record the acquisition in the counter, and a handle is given up
/// only through [`BaseRcVec::release`] or [`BaseRcVec::try_into_vec`],
/// which record the release.  This is what keeps the counters equal to
/// the number of live handles.
pub struct BaseRcVec<V: VecType, T> {
    slot: usize,
    kind: PhantomData<V>,
    elems: PhantomData<T>,
}

impl<V: VecType, T> BaseRcVec<V, T> {
    /// The index of the allocation this handle refers to.
    pub closed spec fn id(self) -> int {
        self.slot as int
    }

    /// The handle refers to a slot of the store whose counter still
    /// records a handle of this kind: a primary reference for a primary
    /// kind, and for a secondary kind a total count exceeding the primary
    /// count.
    pub open spec fn valid(self, st: Store<V::Counter, T>) -> bool {
        &&& 0 <= self.id() < st@.len()
        &&& (V::is_primary() ==> st@[self.id()].counter.primary_count() > 0)
        &&& (!V::is_primary() ==> st@[self.id()].counter.primary_count() < st@[
            self.id()
        ].counter.total_count())
    }

    /// The elements observable through this handle.
    pub open spec fn data(self, st: Store<V::Counter, T>) -> Seq<T>
        recommends
            self.valid(st),
    {
        st@[self.id()].data()
    }

    /// The slot index this handle refers to.
    pub fn slot_index(&self) -> (i: usize)
        ensures
            i == self.id(),
    {
        self.slot
    }

    /// Wrap a freshly built element vector into a new combined
    /// allocation, with a fresh counter header, and acquire the one
    /// reference of this handle's kind.  Always succeeds.
    pub fn from_vec(st: &mut Store<V::Counter, T>, v: Vec<T>) -> (h: Self)
        requires
            old(st).wf(),
            V::is_primary(),
        ensures
            final(st).wf(),
            final(st)@.len() == old(st)@.len() + 1,
            forall|j: int| 0 <= j < old(st)@.len() ==> final(st)@[j] == old(st)@[j],
            h.id() == old(st)@.len(),
            h.valid(*final(st)),
            final(st)@[h.id()].is_state(1, 1, Some(v@), false),
    {
        let mut c: V::Counter = Counter::fresh();
        V::incr(&mut c);
        let i: usize = st.num_slots();
        st.push_slot(Slot { counter: c, contents: Some(v), freed: false });
        BaseRcVec { slot: i, kind: PhantomData, elems: PhantomData }
    }

    /// Acquire one more handle of this kind on the same allocation.
    pub fn clone_handle(&self, st: &mut Store<V::Counter, T>) -> (h: Self)
        requires
            old(st).wf(),
            self.valid(*old(st)),
            old(st)@[self.id()].counter.total_count() < usize::MAX,
        ensures
            final(st).wf(),
            final(st)@.len() == old(st)@.len(),
            forall|j: int|
                0 <= j < final(st)@.len() && j != self.id() ==> final(st)@[j] == old(st)@[j],
            acquire_post::<V, T>(old(st)@[self.id()], final(st)@[self.id()]),
            h.id() == self.id(),
            h.valid(*final(st)),
            self.valid(*final(st)),
    {
        let i: usize = self.slot;
        let mut slot = st.take_slot(i);
        proof {
            slot.counter.lemma_inv();
        }
        V::incr(&mut slot.counter);
        let ghost ns = slot;
        st.put_slot(i, slot);
        proof {
            lemma_remove_insert(old(st)@, i as int, ns);
        }
        BaseRcVec { slot: i, kind: PhantomData, elems: PhantomData }
    }

    /// Release this handle: decrement the counter for its kind, then
    /// perform the staged teardown the policy asks for.  If the last
    /// content-keeping reference went, the elements are destructed in
    /// place; if the last reference of any kind went, the whole
    /// allocation is freed.
    pub fn release(self, st: &mut Store<V::Counter, T>)
        requires
            old(st).wf(),
            self.valid(*old(st)),
        ensures
            final(st).wf(),
            final(st)@.len() == old(st)@.len(),
            forall|j: int|
                0 <= j < final(st)@.len() && j != self.id() ==> final(st)@[j] == old(st)@[j],
            release_post::<V, T>(old(st)@[self.id()], final(st)@[self.id()]),
    {
        let i: usize = self.slot;
        let mut slot = st.take_slot(i);
        proof {
            slot.counter.lemma_inv();
        }
        V::decr(&mut slot.counter);
        if V::should_drop_contents(&slot.counter) {
            slot.contents = None;
        }
        if V::should_drop_entire_vector(&slot.counter) {
            slot.freed = true;
        }
        let ghost ns = slot;
        st.put_slot(i, slot);
        proof {
            lemma_remove_insert(old(st)@, i as int, ns);
        }
    }

    /// Borrow the element body immutably.  Fails exactly when the policy
    /// forbids immutable access for this kind; a valid handle of a
    /// primary kind always succeeds.
    pub fn try_vec_ref<'a>(&self, st: &'a Store<V::Counter, T>) -> (r: Option<&'a Vec<T>>)
        requires
            st.wf(),
            self.valid(*st),
        ensures
            r is Some <==> (V::is_primary() && st@[self.id()].counter.primary_count() > 0),
            r is Some ==> (r->Some_0)@ == self.data(*st),
    {
        let slot = st.slot_at(self.slot);
        if V::can_get_ref(&slot.counter) {
            match &slot.contents {
                Some(v) => Some(v),
                None => {
                    proof {
                        assert(false);
                    }
                    None
                },
            }
        } else {
            None
        }
    }

    /// Convert this handle into a handle of another kind over the same
    /// counter shape (strong to weak, weak to strong).  Fails exactly
    /// when the target kind's creation predicate rejects the current
    /// counter state; on success a reference of the target kind is
    /// acquired on the *same* allocation.
    pub fn try_convert<V2: VecType<Counter = V::Counter>>(
        &self,
        st: &mut Store<V::Counter, T>,
    ) -> (r: Option<BaseRcVec<V2, T>>)
        requires
            old(st).wf(),
            self.valid(*old(st)),
            old(st)@[self.id()].counter.total_count() < usize::MAX,
        ensures
            final(st).wf(),
            r is Some <==> V2::can_create_spec(old(st)@[self.id()].counter),
            r is None ==> final(st)@ == old(st)@,
            r is Some ==> final(st)@.len() == old(st)@.len(),
            r is Some ==> forall|j: int|
                0 <= j < final(st)@.len() && j != self.id() ==> final(st)@[j] == old(st)@[j],
            r is Some ==> acquire_post::<V2, T>(old(st)@[self.id()], final(st)@[self.id()]),
            r is Some ==> (r->Some_0).id() == self.id(),
            r is Some ==> (r->Some_0).valid(*final(st)),
            r is Some ==> self.valid(*final(st)),
    {
        let i: usize = self.slot;
        let ok: bool = {
            let slot = st.slot_at(i);
            V2::can_create(&slot.counter)
        };
        if ok {
            let mut slot = st.take_slot(i);
            proof {
                slot.counter.lemma_inv();
                V2::lemma_can_create(slot.counter);
            }
            V2::incr(&mut slot.counter);
            let ghost ns = slot;
            st.put_slot(i, slot);
            proof {
                lemma_remove_insert(old(st)@, i as int, ns);
            }
            Some(BaseRcVec { slot: i, kind: PhantomData, elems: PhantomData })
        } else {
            None
        }
    }

    /// Unwrap the container into the bare owned element vector without
    /// destructing it, transferring ownership out of the shared
    /// allocation model.  Succeeds exactly when this handle holds the
    /// sole primary reference: the handle's reference is then released
    /// with nothing left to destruct, and the allocation is freed unless
    /// surviving weak handles still need its header.  Otherwise the
    /// still-shared handle is handed back unchanged, as failure.
    pub fn try_into_vec(self, st: &mut Store<V::Counter, T>) -> (r: Result<Vec<T>, Self>)
        requires
            old(st).wf(),
            self.valid(*old(st)),
        ensures
            final(st).wf(),
            r is Ok <==> (V::is_primary() && old(st)@[self.id()].counter.primary_count() <= 1),
            r is Err ==> r->Err_0 == self && final(st)@ == old(st)@,
            r is Ok ==> (r->Ok_0)@ == self.data(*old(st)),
            r is Ok ==> final(st)@.len() == old(st)@.len(),
            r is Ok ==> forall|j: int|
                0 <= j < old(st)@.len() && j != self.id() ==> final(st)@[j] == old(st)@[j],
            r is Ok ==> release_post::<V, T>(old(st)@[self.id()], final(st)@[self.id()]),
            r is Ok ==> final(st)@[self.id()].contents is None,
    {
        let i: usize = self.slot;
        let ok: bool = {
            let slot = st.slot_at(i);
            V::can_take(&slot.counter)
        };
        if !ok {
            return Err(self);
        }
        let slot = st.take_slot(i);
        let Slot { counter, contents, freed: _ } = slot;
        let mut c = counter;
        let v: Vec<T> = match contents {
            Some(v) => v,
            None => {
                proof {
                    assert(false);
                }
                Vec::new()
            },
        };
        proof {
            c.lemma_inv();
        }
        V::decr(&mut c);
        let gone = V::should_drop_entire_vector(&c);
        let ns = Slot { counter: c, contents: None, freed: gone };
        let ghost gns = ns;
        st.put_slot(i, ns);
        proof {
            lemma_remove_insert(old(st)@, i as int, gns);
        }
        Ok(v)
    }
}

impl<V: VecType, T: Clone> BaseRcVec<V, T> {
    /// Duplicate every element into a brand-new allocation and wrap it as
    /// a new handle of the same kind.  Fails exactly when an immutable
    /// borrow is impossible, so a valid handle of a primary kind always
    /// succeeds.  The source allocation's counter is not touched.
    ///
    /// Element duplication goes through `T::clone`, of which Verus knows
    /// only its own postcondition; each new element is therefore related
    /// to its source by `cloned`.
    pub fn try_deep_clone(&self, st: &mut Store<V::Counter, T>) -> (r: Option<Self>)
        requires
            old(st).wf(),
            self.valid(*old(st)),
        ensures
            final(st).wf(),
            r is Some <==> V::is_primary(),
            r is None ==> final(st)@ == old(st)@,
            r is Some ==> final(st)@.len() == old(st)@.len() + 1,
            r is Some ==> forall|j: int| 0 <= j < old(st)@.len() ==> final(st)@[j] == old(st)@[j],
            r is Some ==> (r->Some_0).id() == old(st)@.len(),
            r is Some ==> (r->Some_0).valid(*final(st)),
            r is Some ==> {
                let ns = final(st)@[(r->Some_0).id()];
                &&& ns.counter.inv()
                &&& ns.counter.primary_count() == 1
                &&& ns.counter.total_count() == 1
                &&& ns.contents is Some
                &&& !ns.freed
                &&& ns.data().len() == self.data(*old(st)).len()
                &&& forall|k: int|
                    0 <= k < ns.data().len() ==> cloned::<T>(
                        self.data(*old(st))[k],
                        #[trigger] ns.data()[k],
                    )
            },
            self.valid(*final(st)),
    {
        let i: usize = self.slot;
        let copied: Option<Vec<T>> = {
            let slot = st.slot_at(i);
            if V::can_get_ref(&slot.counter) {
                match &slot.contents {
                    Some(v) => Some(v.clone()),
                    None => {
                        proof {
                            assert(false);
                        }
                        None
                    },
                }
            } else {
                None
            }
        };
        match copied {
            Some(v) => Some(Self::from_vec(st, v)),
            None => None,
        }
    }
}

impl<V: VecType, T: Copy> BaseRcVec<V, T> {
    /// Make mutation through this handle permissible: if the counter
    /// state already proves exclusivity this does nothing; otherwise the
    /// elements are copied into a brand-new allocation, the old reference
    /// is released, and the handle is redirected to the copy.  Reports
    /// failure exactly when even an immutable borrow is impossible, so a
    /// valid handle of a primary kind always succeeds.
    ///
    /// The elements are copied by value, which is why this operation asks
    /// for `Copy`: the fresh allocation then holds exactly the old
    /// elements.  Duplication through `Clone` promises nothing about the
    /// copies; see [`BaseRcVec::try_deep_clone`].
    pub fn try_make_unique(&mut self, st: &mut Store<V::Counter, T>) -> (r: bool)
        requires
            old(st).wf(),
            old(self).valid(*old(st)),
        ensures
            final(st).wf(),
            r == V::is_primary(),
            final(self).id() == old(self).id() || final(self).id() == old(st)@.len(),
            !r ==> final(st)@ == old(st)@ && *final(self) == *old(self),
            r ==> final(self).valid(*final(st)),
            r ==> final(st)@[final(self).id()].is_state(
                1,
                1,
                Some(old(self).data(*old(st))),
                false,
            ),
            r ==> forall|j: int|
                0 <= j < old(st)@.len() && j != old(self).id() ==> final(st)@[j] == old(st)@[j],
            (r && old(st)@[old(self).id()].counter.total_count() <= 1) ==> final(st)@ == old(st)@
                && *final(self) == *old(self),
            (r && old(st)@[old(self).id()].counter.total_count() > 1) ==> {
                &&& final(st)@.len() == old(st)@.len() + 1
                &&& final(self).id() == old(st)@.len()
                &&& release_post::<V, T>(old(st)@[old(self).id()], final(st)@[old(self).id()])
            },
    {
        let i: usize = self.slot;
        let can_mut: bool = {
            let slot = st.slot_at(i);
            V::can_get_mut(&slot.counter)
        };
        if can_mut {
            proof {
                old(st)@[i as int].counter.lemma_inv();
            }
            return true;
        }
        let copied: Option<Vec<T>> = {
            let slot = st.slot_at(i);
            if V::can_get_ref(&slot.counter) {
                match &slot.contents {
                    Some(v) => Some(vstd::slice::slice_to_vec(v.as_slice())),
                    None => {
                        proof {
                            assert(false);
                        }
                        None
                    },
                }
            } else {
                None
            }
        };
        match copied {
            Some(v) => {
                proof {
                    old(st)@[i as int].counter.lemma_inv();
                }
                let h = Self::from_vec(st, v);
                let prev = BaseRcVec::<V, T> {
                    slot: self.slot,
                    kind: PhantomData,
                    elems: PhantomData,
                };
                self.slot = h.slot;
                prev.release(st);
                true
            },
            None => false,
        }
    }

    /// Make mutation permissible, as `try_make_unique`, and confirm that
    /// a mutable borrow is now allowed.  This is the copy-on-write entry
    /// point used by every mutating operation of the concrete vector
    /// types.
    pub fn try_make_vec_mut(&mut self, st: &mut Store<V::Counter, T>) -> (r: bool)
        requires
            old(st).wf(),
            old(self).valid(*old(st)),
        ensures
            final(st).wf(),
            r == V::is_primary(),
            final(self).id() == old(self).id() || final(self).id() == old(st)@.len(),
            !r ==> final(st)@ == old(st)@ && *final(self) == *old(self),
            r ==> final(self).valid(*final(st)),
            r ==> final(st)@[final(self).id()].is_state(
                1,
                1,
                Some(old(self).data(*old(st))),
                false,
            ),
            r ==> forall|j: int|
                0 <= j < old(st)@.len() && j != old(self).id() ==> final(st)@[j] == old(st)@[j],
            (r && old(st)@[old(self).id()].counter.total_count() <= 1) ==> final(st)@ == old(st)@
                && *final(self) == *old(self),
            (r && old(st)@[old(self).id()].counter.total_count() > 1) ==> {
                &&& final(st)@.len() == old(st)@.len() + 1
                &&& final(self).id() == old(st)@.len()
                &&& release_post::<V, T>(old(st)@[old(self).id()], final(st)@[old(self).id()])
            },
    {
        if !self.try_make_unique(st) {
            return false;
        }
        let ok: bool = {
            let slot = st.slot_at(self.slot);
            V::can_get_mut(&slot.counter)
        };
        ok
    }

}

} // verus!
