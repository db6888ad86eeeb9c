//! The allocation store.
//!
//! Each [`Slot`] models one combined allocation: a counter header followed
//! by the element body, freed as one unit.  A [`Store`] owns every
//! allocation; handles refer to slots by index and the store is threaded
//! through every container operation.  A slot is never reused: once freed
//! it stays freed, so the indices held by surviving handles stay stable.

use vstd::prelude::*;

use crate::counter::Counter;

verus! {

/// One combined allocation: the counter header, the element body, and
/// whether the block has been freed.
///
/// `contents` is `None` once the element body has been destructed, which
/// happens exactly when the last content-keeping reference is released;
/// the elements inside are therefore destructed exactly once.
pub struct Slot<C, T> {
    /// The counter header embedded in the allocation.
    pub counter: C,
    /// The element body; `None` once the contents have been destructed.
    pub contents: Option<Vec<T>>,
    /// Whether the whole allocation has been freed.
    pub freed: bool,
}

impl<C: Counter, T> Slot<C, T> {
    /// The element body, for slots whose contents are still present.
    pub open spec fn data(self) -> Seq<T>
        recommends
            self.contents is Some,
    {
        (self.contents->Some_0)@
    }

    /// The slot invariant tying the three fields together: the body is
    /// present exactly while a content-keeping reference survives, and
    /// the block is freed exactly when no reference of any kind survives.
    pub open spec fn wf(self) -> bool {
        &&& self.counter.inv()
        &&& (self.contents is Some <==> self.counter.primary_count() > 0)
        &&& (self.freed <==> self.counter.total_count() == 0)
    }

    /// The slot records exactly the given counter values, body and freed
    /// flag.  A shorthand for the postconditions of the container
    /// operations.
    pub open spec fn is_state(
        self,
        primary: int,
        total: int,
        data: Option<Seq<T>>,
        freed: bool,
    ) -> bool {
        &&& self.counter.inv()
        &&& self.counter.primary_count() == primary
        &&& self.counter.total_count() == total
        &&& (match data {
            Some(d) => self.contents is Some && self.data() == d,
            None => self.contents is None,
        })
        &&& self.freed == freed
    }
}

/// The store owning every shared allocation.
pub struct Store<C, T> {
    slots: Vec<Slot<C, T>>,
}

impl<C, T> View for Store<C, T> {
    type V = Seq<Slot<C, T>>;

    closed spec fn view(&self) -> Seq<Slot<C, T>> {
        self.slots@
    }
}

impl<C: Counter, T> Store<C, T> {
    /// Every slot satisfies its invariant.
    pub open spec fn wf(self) -> bool {
        forall|i: int| 0 <= i < self@.len() ==> (#[trigger] self@[i]).wf()
    }

    /// An empty store, holding no allocation.
    pub fn new() -> (st: Self)
        ensures
            st.wf(),
            st@.len() == 0,
    {
        Store { slots: Vec::new() }
    }

    /// How many allocations the store has ever held (freed ones included).
    pub fn num_slots(&self) -> (n: usize)
        ensures
            n == self@.len(),
    {
        self.slots.len()
    }

    /// Read access to one slot.
    pub(crate) fn slot_at(&self, i: usize) -> (s: &Slot<C, T>)
        requires
            i < self@.len(),
        ensures
            *s == self@[i as int],
    {
        &self.slots[i]
    }

    /// Move one slot out of the store, to modify and put back.  Together
    /// with [`Store::put_slot`] this plays the write guard's role: the
    /// possibly changed body is published back into the owning slot when
    /// the mutation ends, on every path.
    pub(crate) fn take_slot(&mut self, i: usize) -> (s: Slot<C, T>)
        requires
            i < old(self)@.len(),
        ensures
            s == old(self)@[i as int],
            final(self)@ == old(self)@.remove(i as int),
    {
        self.slots.remove(i)
    }

    /// Put a slot back at the index it was taken from.
    pub(crate) fn put_slot(&mut self, i: usize, s: Slot<C, T>)
        requires
            i <= old(self)@.len(),
        ensures
            final(self)@ == old(self)@.insert(i as int, s),
    {
        self.slots.insert(i, s);
    }

    /// Append a freshly built allocation.
    pub(crate) fn push_slot(&mut self, s: Slot<C, T>)
        ensures
            final(self)@ == old(self)@.push(s),
    {
        self.slots.push(s);
    }
}

/// Taking a slot out and putting a modified one back at the same index
/// updates exactly that index.
pub(crate) proof fn lemma_remove_insert<A>(s: Seq<A>, i: int, a: A)
    requires
        0 <= i < s.len(),
    ensures
        s.remove(i).insert(i, a) == s.update(i, a),
{
    assert(s.remove(i).insert(i, a) =~= s.update(i, a));
}

} // verus!
