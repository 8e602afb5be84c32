use vstd::prelude::*;

use crate::arena::Arena;

verus! {

/// The state of one dispatched operation, as the demultiplexer sees it.
pub enum Pending<T> {
    /// Dispatched; its response has not arrived and its caller still waits.
    Waiting,
    /// Dispatched; its caller went away before the response arrived.
    Abandoned,
    /// The response arrived and waits for its caller to collect it.
    Done(T),
}

/// A violation of the request/response protocol: the bridge itself is out of
/// step with the backend, so the operation chain cannot go on.
#[derive(Debug, Clone, Copy, PartialEq, Eq, Structural)]
pub enum ProtocolError {
    /// No dispatched operation carries this correlation id.
    UnknownId,
    /// A second response arrived for an id whose result is not collected yet.
    DuplicateResponse,
    /// A response field does not have the shape its request allows.
    Malformed,
}

/// What became of a delivered response.
#[derive(Debug, Clone, Copy, PartialEq, Eq, Structural)]
pub enum Delivery {
    /// The result is stored for its caller, who should be woken.
    Stored,
    /// The caller had gone away: the result was dropped and the id freed.
    Discarded,
}

/// How delivering `value` to operation `id` changes the pending operations
/// from `before` to `after`, with outcome `r`.
pub open spec fn delivered<T>(
    before: Map<int, Pending<T>>,
    after: Map<int, Pending<T>>,
    id: int,
    value: T,
    r: Result<Delivery, ProtocolError>,
) -> bool {
    match before.get(id) {
        Some(Pending::Waiting) => r == Ok::<Delivery, ProtocolError>(Delivery::Stored) && after
            == before.insert(id, Pending::Done(value)),
        Some(Pending::Abandoned) => r == Ok::<Delivery, ProtocolError>(Delivery::Discarded)
            && after == before.remove(id),
        Some(Pending::Done(_)) => r == Err::<Delivery, ProtocolError>(
            ProtocolError::DuplicateResponse,
        ) && after == before,
        None => r == Err::<Delivery, ProtocolError>(ProtocolError::UnknownId) && after == before,
    }
}

/// How collecting operation `id` changes the pending operations from
/// `before` to `after`, with outcome `r`.
pub open spec fn collected<T>(
    before: Map<int, Pending<T>>,
    after: Map<int, Pending<T>>,
    id: int,
    r: Result<Option<T>, ProtocolError>,
) -> bool {
    match before.get(id) {
        Some(Pending::Done(v)) => r == Ok::<Option<T>, ProtocolError>(Some(v)) && after
            == before.remove(id),
        Some(Pending::Waiting) => r == Ok::<Option<T>, ProtocolError>(None) && after == before,
        _ => r == Err::<Option<T>, ProtocolError>(ProtocolError::UnknownId) && after == before,
    }
}

/// How giving up on operation `id` changes the pending operations from
/// `before` to `after`: a waiting operation is marked abandoned, a result
/// not yet collected is dropped, and anything else is left as it is.
pub open spec fn abandoned<T>(before: Map<int, Pending<T>>, after: Map<int, Pending<T>>, id: int) -> bool {
    match before.get(id) {
        Some(Pending::Waiting) => after == before.insert(id, Pending::Abandoned),
        Some(Pending::Done(_)) => after == before.remove(id),
        _ => after == before,
    }
}

/// Whether `after` is `before` with operation `id` newly dispatched.
pub open spec fn dispatched<T>(before: Map<int, Pending<T>>, after: Map<int, Pending<T>>, id: int) -> bool {
    !before.contains_key(id) && after == before.insert(id, Pending::Waiting)
}

/// An id gets at most one response: once one is stored, a second response
/// for the same id is refused and changes nothing, and once the stored
/// result is collected, further responses name an unknown id.
pub proof fn lemma_one_delivery_per_id<T>(
    m0: Map<int, Pending<T>>,
    m1: Map<int, Pending<T>>,
    m2: Map<int, Pending<T>>,
    m3: Map<int, Pending<T>>,
    m4: Map<int, Pending<T>>,
    id: int,
    v: T,
    w: T,
    r1: Result<Delivery, ProtocolError>,
    r2: Result<Delivery, ProtocolError>,
    c: Result<Option<T>, ProtocolError>,
    r3: Result<Delivery, ProtocolError>,
)
    requires
        delivered(m0, m1, id, v, r1),
        r1 == Ok::<Delivery, ProtocolError>(Delivery::Stored),
        delivered(m1, m2, id, w, r2),
        collected(m2, m3, id, c),
        delivered(m3, m4, id, w, r3),
    ensures
        r2 == Err::<Delivery, ProtocolError>(ProtocolError::DuplicateResponse),
        m2 == m1,
        c == Ok::<Option<T>, ProtocolError>(Some(v)),
        r3 == Err::<Delivery, ProtocolError>(ProtocolError::UnknownId),
        m4 == m3,
{
    assert(m1.get(id) == Some(Pending::Done(v)));
    assert(!m3.contains_key(id));
}

/// Pending operations of one kind, keyed by correlation id.
pub struct Registry<T> {
    slots: Arena<Pending<T>>,
}

impl<T> Registry<T> {
    pub closed spec fn wf(&self) -> bool {
        self.slots.wf()
    }

    /// The ids in use: an id maps to the state of its operation.
    pub closed spec fn view(&self) -> Map<int, Pending<T>> {
        Map::new(
            |i: int| self.slots.occupied(i),
            |i: int| self.slots@[i]->Some_0,
        )
    }

    /// Whether `id` is the id that the next dispatched operation gets.
    pub closed spec fn next_id(&self, id: int) -> bool {
        self.slots.next_index(id)
    }

    pub fn new() -> (r: Self)
        ensures
            r.wf(),
            r@ == Map::<int, Pending<T>>::empty(),
    {
        let r = Registry { slots: Arena::new() };
        assert(r@ =~= Map::<int, Pending<T>>::empty());
        r
    }

    /// Registers a newly dispatched operation and returns its id.
    pub fn start(&mut self) -> (id: usize)
        requires
            old(self).wf(),
        ensures
            final(self).wf(),
            old(self).next_id(id as int),
            dispatched(old(self)@, final(self)@, id as int),
    {
        let id = self.slots.insert(Pending::Waiting);
        assert(final(self)@ =~= old(self)@.insert(id as int, Pending::Waiting));
        id
    }

    /// Hands the response `value` to the operation `id`.
    pub fn deliver(&mut self, id: usize, value: T) -> (r: Result<Delivery, ProtocolError>)
        requires
            old(self).wf(),
        ensures
            final(self).wf(),
            delivered(old(self)@, final(self)@, id as int, value, r),
    {
        let ghost before = self@;
        match self.slots.replace(id, Pending::Done(value)) {
            None => {
                assert(self@ =~= before);
                Err(ProtocolError::UnknownId)
            },
            Some(Pending::Waiting) => {
                assert(self@ =~= before.insert(id as int, Pending::Done(value)));
                Ok(Delivery::Stored)
            },
            Some(Pending::Abandoned) => {
                self.slots.remove(id);
                assert(self@ =~= before.remove(id as int));
                Ok(Delivery::Discarded)
            },
            Some(Pending::Done(earlier)) => {
                self.slots.replace(id, Pending::Done(earlier));
                assert(self.slots@ =~= old(self).slots@);
                assert(self@ =~= before);
                Err(ProtocolError::DuplicateResponse)
            },
        }
    }

    /// Takes the result of operation `id` if it has arrived, freeing the id.
    /// Returns `Ok(None)` while the operation is still in flight.
    pub fn collect(&mut self, id: usize) -> (r: Result<Option<T>, ProtocolError>)
        requires
            old(self).wf(),
        ensures
            final(self).wf(),
            collected(old(self)@, final(self)@, id as int, r),
    {
        let ghost before = self@;
        match self.slots.replace(id, Pending::Waiting) {
            None => {
                assert(self@ =~= before);
                Err(ProtocolError::UnknownId)
            },
            Some(Pending::Waiting) => {
                assert(self.slots@ =~= old(self).slots@);
                assert(self@ =~= before);
                Ok(None)
            },
            Some(Pending::Abandoned) => {
                self.slots.replace(id, Pending::Abandoned);
                assert(self.slots@ =~= old(self).slots@);
                assert(self@ =~= before);
                Err(ProtocolError::UnknownId)
            },
            Some(Pending::Done(v)) => {
                self.slots.remove(id);
                assert(self@ =~= before.remove(id as int));
                Ok(Some(v))
            },
        }
    }

    /// Gives up on operation `id`: a result already in is dropped and the id
    /// freed; otherwise the response, once it comes, will be dropped.
    pub fn abandon(&mut self, id: usize) -> (r: Result<(), ProtocolError>)
        requires
            old(self).wf(),
        ensures
            final(self).wf(),
            abandoned(old(self)@, final(self)@, id as int),
            r is Ok <==> (old(self)@.get(id as int) matches Some(Pending::Waiting) || old(self)@.get(
                id as int,
            ) matches Some(Pending::Done(_))),
            r is Err ==> r == Err::<(), ProtocolError>(ProtocolError::UnknownId),
    {
        let ghost before = self@;
        match self.slots.replace(id, Pending::Abandoned) {
            None => {
                assert(self@ =~= before);
                Err(ProtocolError::UnknownId)
            },
            Some(Pending::Waiting) => {
                assert(self@ =~= before.insert(id as int, Pending::Abandoned));
                Ok(())
            },
            Some(Pending::Abandoned) => {
                assert(self.slots@ =~= old(self).slots@);
                assert(self@ =~= before);
                Err(ProtocolError::UnknownId)
            },
            Some(Pending::Done(_)) => {
                self.slots.remove(id);
                assert(self@ =~= before.remove(id as int));
                Ok(())
            },
        }
    }
}

} // verus!
