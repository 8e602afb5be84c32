use vstd::prelude::*;

verus! {

/// Every slot before `i` is occupied and slot `i` is free.
pub open spec fn is_first_free<T>(s: Seq<Option<T>>, i: int) -> bool {
    &&& 0 <= i < s.len()
    &&& s[i] is None
    &&& forall|j: int| 0 <= j < i ==> (#[trigger] s[j]) is Some
}

/// No slot is free.
pub open spec fn all_occupied<T>(s: Seq<Option<T>>) -> bool {
    forall|j: int| 0 <= j < s.len() ==> (#[trigger] s[j]) is Some
}

/// A slot allocator: each stored value is reachable through a stable
/// integer index until it is removed, after which the index may be reused.
pub struct Arena<T> {
    inner: Vec<Option<T>>,
    last_remove: Option<usize>,
}

impl<T> Arena<T> {
    /// The slots, in index order; `None` marks a free slot.
    pub closed spec fn view(&self) -> Seq<Option<T>> {
        self.inner@
    }

    /// The slot freed by the latest removal, while no insertion has used it.
    pub closed spec fn last_freed(&self) -> Option<usize> {
        self.last_remove
    }

    pub closed spec fn wf(&self) -> bool {
        match self.last_remove {
            Some(v) => v < self.inner@.len() && self.inner@[v as int] is None,
            None => true,
        }
    }

    /// Whether index `i` currently holds a value.
    pub open spec fn occupied(&self, i: int) -> bool {
        0 <= i < self@.len() && self@[i] is Some
    }

    /// The index that the next insertion takes: the slot freed last if it is
    /// still free, else the first free slot, else a new slot at the end.
    pub open spec fn next_index(&self, i: int) -> bool {
        match self.last_freed() {
            Some(v) => i == v,
            None => is_first_free(self@, i) || (i == self@.len() && all_occupied(self@)),
        }
    }

    pub fn new() -> (r: Self)
        ensures
            r.wf(),
            r@ == Seq::<Option<T>>::empty(),
            r.last_freed() is None,
    {
        Arena { inner: Vec::new(), last_remove: None }
    }

    /// Stores `e` and returns its index.
    pub fn insert(&mut self, e: T) -> (r: usize)
        requires
            old(self).wf(),
        ensures
            final(self).wf(),
            old(self).next_index(r as int),
            !old(self).occupied(r as int),
            r <= old(self)@.len(),
            r < old(self)@.len() ==> final(self)@ == old(self)@.update(r as int, Some(e)),
            r == old(self)@.len() ==> final(self)@ == old(self)@.push(Some(e)),
            final(self).last_freed() is None,
    {
        if let Some(vacancy) = self.last_remove {
            self.inner.set(vacancy, Some(e));
            self.last_remove = None;
            vacancy
        } else {
            let n = self.inner.len();
            let mut i: usize = 0;
            while i < n
                invariant
                    n == self.inner@.len(),
                    self.inner@ == old(self).inner@,
                    old(self).last_remove is None,
                    i <= n,
                    self.last_remove is None,
                    forall|j: int| 0 <= j < i ==> (#[trigger] self.inner@[j]) is Some,
                decreases n - i,
            {
                if self.inner[i].is_none() {
                    self.inner.set(i, Some(e));
                    return i;
                }
                i += 1;
            }
            self.inner.push(Some(e));
            n
        }
    }

    /// Takes the value at index `i` out, freeing its slot. Returns `None`
    /// when `i` is out of range or its slot is already free.
    pub fn remove(&mut self, i: usize) -> (r: Option<T>)
        requires
            old(self).wf(),
        ensures
            final(self).wf(),
            old(self).occupied(i as int) ==> {
                &&& r == old(self)@[i as int]
                &&& final(self)@ == old(self)@.update(i as int, None)
                &&& final(self).last_freed() == Some(i)
            },
            !old(self).occupied(i as int) ==> {
                &&& r is None
                &&& final(self)@ == old(self)@
                &&& final(self).last_freed() == old(self).last_freed()
            },
    {
        if i >= self.inner.len() {
            return None;
        }
        let mut slot: Option<T> = None;
        self.inner.set_and_swap(i, &mut slot);
        if slot.is_some() {
            self.last_remove = Some(i);
        }
        slot
    }

    /// Puts `e` in the occupied slot `i` and returns what it held. Returns
    /// `None` and changes nothing when slot `i` is free or out of range.
    pub fn replace(&mut self, i: usize, e: T) -> (r: Option<T>)
        requires
            old(self).wf(),
        ensures
            final(self).wf(),
            final(self).last_freed() == old(self).last_freed(),
            old(self).occupied(i as int) ==> {
                &&& r == old(self)@[i as int]
                &&& final(self)@ == old(self)@.update(i as int, Some(e))
            },
            !old(self).occupied(i as int) ==> r is None && final(self)@ == old(self)@,
    {
        if i >= self.inner.len() || self.inner[i].is_none() {
            return None;
        }
        let mut slot: Option<T> = Some(e);
        self.inner.set_and_swap(i, &mut slot);
        slot
    }
}

} // verus!
