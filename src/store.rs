use std::collections::HashMap;
use vstd::prelude::*;

verus! {

broadcast use vstd::std_specs::hash::group_hash_axioms;

/// Data points keyed by absolute metric identifier; each entry is handed
/// out at most once.
pub struct DataPointStore<D> {
    pub entries: HashMap<u16, Vec<D>>,
}

/// What a store holds for `id`: its data points, or none.
pub open spec fn points_for<D>(m: Map<u16, Vec<D>>, id: u16) -> Seq<D> {
    if m.contains_key(id) {
        m[id]@
    } else {
        Seq::empty()
    }
}

impl<D> DataPointStore<D> {
    pub fn new() -> (r: Self)
        ensures
            r.entries@ == Map::<u16, Vec<D>>::empty(),
    {
        DataPointStore { entries: HashMap::new() }
    }

    /// Sets the data points of `id`.
    pub fn insert(&mut self, id: u16, points: Vec<D>)
        ensures
            final(self).entries@ == old(self).entries@.insert(id, points),
    {
        self.entries.insert(id, points);
    }

    /// Takes the data points of `id` out of the store, leaving none behind.
    pub fn take(&mut self, id: u16) -> (r: Vec<D>)
        ensures
            r@ == points_for(old(self).entries@, id),
            final(self).entries@ == old(self).entries@.remove(id),
    {
        match self.entries.remove(&id) {
            Some(v) => v,
            None => Vec::new(),
        }
    }
}

/// Retrieval exhausts an entry: a second take of the same identifier
/// yields no data points.
pub proof fn lemma_take_twice_is_empty<D>(m: Map<u16, Vec<D>>, id: u16)
    ensures
        points_for(m.remove(id), id) == Seq::<D>::empty(),
{
}

} // verus!
