//! The registry of in-flight requests, keyed by request id.
//!
//! The write path reserves the lowest id that no in-flight request holds;
//! the read path takes the entry back when the matching response arrives.

use vstd::prelude::*;

verus! {

/// `id` is free in `entries`, and every lower id is taken.
pub open spec fn is_lowest_free<T>(entries: Map<u32, T>, id: u32) -> bool {
    &&& !entries.contains_key(id)
    &&& forall|j: u32| j < id ==> entries.contains_key(j)
}

/// Every id is held by an in-flight request.
pub open spec fn is_full<T>(entries: Map<u32, T>) -> bool {
    forall|j: u32| entries.contains_key(j)
}

/// A reserved id is free before the call, so two live entries never share
/// an id, and the next reservation (with no take in between) picks another.
pub proof fn lemma_reserved_ids_distinct<T>(entries: Map<u32, T>, id: u32, value: T, next: u32)
    requires
        is_lowest_free(entries, id),
        is_lowest_free(entries.insert(id, value), next),
    ensures
        !entries.contains_key(id),
        entries.insert(id, value).contains_key(id),
        next != id,
        id < next,
{
    if next < id {
        assert(entries.contains_key(next));
    }
}

/// A take on an id that holds no entry returns nothing and changes nothing.
pub proof fn lemma_take_unknown_id<T>(entries: Map<u32, T>, id: u32)
    requires
        !entries.contains_key(id),
    ensures
        entries.remove(id) =~= entries,
{
}

/// In-flight requests, one slot per id; a free slot holds `None`.
pub struct ResponseTable<T> {
    slots: Vec<Option<T>>,
}

impl<T> View for ResponseTable<T> {
    type V = Map<u32, T>;

    /// The live entries, by id.
    closed spec fn view(&self) -> Map<u32, T> {
        Map::new(
            |id: u32| (id as int) < self.slots@.len() && self.slots@[id as int] is Some,
            |id: u32| self.slots@[id as int]->Some_0,
        )
    }
}

impl<T> ResponseTable<T> {
    /// Every slot index is an id.
    pub closed spec fn wf(&self) -> bool {
        self.slots@.len() <= u32::MAX as int + 1
    }

    /// A table with no entry.
    pub fn new() -> (r: Self)
        ensures
            r.wf(),
            r@ == Map::<u32, T>::empty(),
    {
        let r = ResponseTable { slots: Vec::new() };
        assert(r@ =~= Map::<u32, T>::empty());
        r
    }

    /// Registers `value` under the lowest free id and returns that id, or
    /// returns `None` and changes nothing when every id is in flight.
    pub fn reserve(&mut self, value: T) -> (r: Option<u32>)
        requires
            old(self).wf(),
        ensures
            final(self).wf(),
            r is None <==> is_full(old(self)@),
            r is None ==> final(self)@ == old(self)@,
            r matches Some(id) ==> is_lowest_free(old(self)@, id) && final(self)@ == old(
                self,
            )@.insert(id, value),
    {
        let mut i: usize = 0;
        while i < self.slots.len()
            invariant
                self.wf(),
                self.slots@ == old(self).slots@,
                i <= self.slots@.len(),
                forall|j: int| 0 <= j < i ==> self.slots@[j] is Some,
            decreases self.slots@.len() - i,
        {
            if self.slots[i].is_none() {
                self.slots.set(i, Some(value));
                let id = i as u32;
                assert(self@ =~= old(self)@.insert(id, value));
                assert forall|j: u32| j < id implies old(self)@.contains_key(j) by {
                    assert(old(self).slots@[j as int] is Some);
                }
                assert(!old(self)@.contains_key(id));
                return Some(id);
            }
            i = i + 1;
        }
        if self.slots.len() <= u32::MAX as usize {
            let id = self.slots.len() as u32;
            self.slots.push(Some(value));
            assert(self@ =~= old(self)@.insert(id, value));
            assert forall|j: u32| j < id implies old(self)@.contains_key(j) by {
                assert(old(self).slots@[j as int] is Some);
            }
            assert(!old(self)@.contains_key(id));
            Some(id)
        } else {
            assert forall|j: u32| old(self)@.contains_key(j) by {
                assert(old(self).slots@[j as int] is Some);
            }
            None
        }
    }

    /// Removes and returns the entry of `id`, or `None` when no request
    /// with that id is in flight.
    pub fn take(&mut self, id: u32) -> (r: Option<T>)
        requires
            old(self).wf(),
        ensures
            final(self).wf(),
            final(self)@ == old(self)@.remove(id),
            r == (if old(self)@.contains_key(id) {
                Some(old(self)@[id])
            } else {
                None::<T>
            }),
    {
        if (id as usize) < self.slots.len() {
            let mut out: Option<T> = None;
            self.slots.set_and_swap(id as usize, &mut out);
            assert(self@ =~= old(self)@.remove(id));
            out
        } else {
            assert(self@ =~= old(self)@.remove(id));
            None
        }
    }

    /// Whether a request with `id` is in flight.
    pub fn contains(&self, id: u32) -> (r: bool)
        requires
            self.wf(),
        ensures
            r == self@.contains_key(id),
    {
        (id as usize) < self.slots.len() && self.slots[id as usize].is_some()
    }
}

} // verus!
