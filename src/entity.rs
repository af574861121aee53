use vstd::prelude::*;

verus! {

/// Opaque identity of an entity in the store.
#[derive(Clone, Copy, Debug, PartialEq, Eq, Structural)]
pub struct EntityId(pub usize);

/// A strong reference: the entity lives while any strong reference is held.
#[derive(Debug, PartialEq, Eq, Structural)]
pub struct Handle {
    pub id: EntityId,
}

/// A reference that does not keep the entity alive.
#[derive(Clone, Copy, Debug, PartialEq, Eq, Structural)]
pub struct WeakHandle {
    pub id: EntityId,
}

/// What the store holds under one identity.
pub enum Slot<T> {
    /// The entity was dropped (or never existed).
    Vacant,
    /// The identity is reserved while the entity is being built.
    Reserved,
    /// The entity's value is in the store.
    Present(T),
    /// The value is out on a lease.
    Leased,
}

#[derive(Clone, Copy, Debug, PartialEq, Eq, Structural)]
pub enum LeaseError {
    /// The entity is already out on a lease.
    AlreadyLeased,
    /// The identity does not resolve to a live entity.
    NotFound,
}

/// Application state, one value per entity, accessed by exclusive leases.
pub struct EntityMap<T> {
    slots: Vec<Slot<T>>,
    ref_counts: Vec<usize>,
}

pub open spec fn is_live<T>(s: Slot<T>) -> bool {
    s is Present || s is Leased
}

impl<T> EntityMap<T> {
    pub closed spec fn slots(&self) -> Seq<Slot<T>> {
        self.slots@
    }

    pub closed spec fn ref_counts(&self) -> Seq<usize> {
        self.ref_counts@
    }

    /// One count per slot; an entity is live exactly while it is counted.
    pub open spec fn wf(&self) -> bool {
        &&& self.ref_counts().len() == self.slots().len()
        &&& forall|i: int| 0 <= i < self.slots().len() ==>
            (is_live(#[trigger] self.slots()[i]) <==> self.ref_counts()[i] > 0)
    }

    pub open spec fn live(&self, id: EntityId) -> bool {
        id.0 < self.slots().len() && is_live(self.slots()[id.0 as int])
    }

    pub open spec fn is_leased_spec(&self, id: EntityId) -> bool {
        id.0 < self.slots().len() && self.slots()[id.0 as int] is Leased
    }

    pub open spec fn is_reserved_spec(&self, id: EntityId) -> bool {
        id.0 < self.slots().len() && self.slots()[id.0 as int] is Reserved
    }

    pub open spec fn value_of(&self, id: EntityId) -> Option<T> {
        if id.0 < self.slots().len() {
            match self.slots()[id.0 as int] {
                Slot::Present(v) => Some(v),
                _ => None,
            }
        } else {
            None
        }
    }

    pub fn new() -> (r: EntityMap<T>)
        ensures
            r.wf(),
            r.slots().len() == 0,
    {
        EntityMap { slots: Vec::new(), ref_counts: Vec::new() }
    }

    /// Reserves a fresh identity for an entity under construction.
    pub fn reserve(&mut self) -> (r: EntityId)
        requires
            old(self).wf(),
        ensures
            final(self).wf(),
            r.0 == old(self).slots().len(),
            final(self).slots() == old(self).slots().push(Slot::Reserved),
            final(self).ref_counts() == old(self).ref_counts().push(0),
    {
        let id = EntityId(self.slots.len());
        self.slots.push(Slot::Reserved);
        self.ref_counts.push(0);
        id
    }

    fn put(&mut self, i: usize, s: Slot<T>) -> (r: Slot<T>)
        requires
            i < old(self).slots().len(),
        ensures
            final(self).slots() == old(self).slots().update(i as int, s),
            final(self).ref_counts() == old(self).ref_counts(),
            r == old(self).slots()[i as int],
    {
        self.slots.push(s);
        let r = self.slots.swap_remove(i);
        assert(self.slots@ =~= old(self).slots@.update(i as int, s));
        r
    }

    /// Stores the value of a reserved entity and returns the first strong handle.
    pub fn redeem(&mut self, id: EntityId, value: T) -> (r: Handle)
        requires
            old(self).wf(),
            id.0 < old(self).slots().len(),
            old(self).slots()[id.0 as int] is Reserved,
        ensures
            final(self).wf(),
            r.id == id,
            final(self).slots() == old(self).slots().update(id.0 as int, Slot::Present(value)),
            final(self).ref_counts() == old(self).ref_counts().update(id.0 as int, 1),
    {
        self.put(id.0, Slot::Present(value));
        self.ref_counts.set(id.0, 1);
        Handle { id }
    }

    /// Takes the entity's value out of the store for exclusive use.
    pub fn lease(&mut self, id: EntityId) -> (r: Result<T, LeaseError>)
        requires
            old(self).wf(),
        ensures
            final(self).wf(),
            old(self).value_of(id) is Some <==> r is Ok,
            r is Ok ==> {
                &&& Some(r->Ok_0) == old(self).value_of(id)
                &&& final(self).slots() == old(self).slots().update(id.0 as int, Slot::Leased)
                &&& final(self).ref_counts() == old(self).ref_counts()
            },
            r is Err ==> *final(self) == *old(self),
            (id.0 < old(self).slots().len() && old(self).slots()[id.0 as int] is Leased)
                <==> r == Err::<T, LeaseError>(LeaseError::AlreadyLeased),
    {
        if id.0 >= self.slots.len() {
            return Err(LeaseError::NotFound);
        }
        match self.slots[id.0] {
            Slot::Present(_) => {},
            Slot::Leased => {
                return Err(LeaseError::AlreadyLeased);
            },
            _ => {
                return Err(LeaseError::NotFound);
            },
        }
        let s = self.put(id.0, Slot::Leased);
        match s {
            Slot::Present(v) => Ok(v),
            _ => Err(LeaseError::NotFound),
        }
    }

    /// Returns a leased value to the store.
    pub fn end_lease(&mut self, id: EntityId, value: T)
        requires
            old(self).wf(),
            id.0 < old(self).slots().len(),
            old(self).slots()[id.0 as int] is Leased,
        ensures
            final(self).wf(),
            final(self).slots() == old(self).slots().update(id.0 as int, Slot::Present(value)),
            final(self).ref_counts() == old(self).ref_counts(),
    {
        self.put(id.0, Slot::Present(value));
    }

    /// Whether `id` is out on a lease.
    pub fn is_leased(&self, id: EntityId) -> (r: bool)
        ensures
            r == (id.0 < self.slots().len() && self.slots()[id.0 as int] is Leased),
    {
        id.0 < self.slots.len() && match self.slots[id.0] {
            Slot::Leased => true,
            _ => false,
        }
    }

    /// Whether `id` names a live entity (stored or out on a lease).
    pub fn is_live(&self, id: EntityId) -> (r: bool)
        ensures
            r == self.live(id),
    {
        id.0 < self.slots.len() && match self.slots[id.0] {
            Slot::Present(_) | Slot::Leased => true,
            _ => false,
        }
    }

    /// A weak handle to `id`.
    pub fn weak_handle(&self, id: EntityId) -> (r: WeakHandle)
        ensures
            r.id == id,
    {
        WeakHandle { id }
    }

    /// A strong handle to the entity if it is still alive.
    pub fn upgrade(&mut self, weak: WeakHandle) -> (r: Option<Handle>)
        requires
            old(self).wf(),
            forall|i: int| 0 <= i < old(self).ref_counts().len() ==> old(self).ref_counts()[i] < usize::MAX,
        ensures
            final(self).wf(),
            old(self).live(weak.id) <==> r is Some,
            r is Some ==> {
                &&& r->Some_0.id == weak.id
                &&& final(self).slots() == old(self).slots()
                &&& final(self).ref_counts() == old(self).ref_counts().update(
                    weak.id.0 as int,
                    (old(self).ref_counts()[weak.id.0 as int] + 1) as usize,
                )
            },
            r is None ==> *final(self) == *old(self),
    {
        let i = weak.id.0;
        if i >= self.slots.len() {
            return None;
        }
        match self.slots[i] {
            Slot::Present(_) | Slot::Leased => {},
            _ => {
                return None;
            },
        }
        let c = self.ref_counts[i];
        self.ref_counts.set(i, c + 1);
        Some(Handle { id: weak.id })
    }

    /// Gives up a strong handle; the entity is dropped with its last one.
    pub fn release(&mut self, handle: Handle)
        requires
            old(self).wf(),
            old(self).live(handle.id),
        ensures
            final(self).wf(),
            final(self).ref_counts() == old(self).ref_counts().update(
                handle.id.0 as int,
                (old(self).ref_counts()[handle.id.0 as int] - 1) as usize,
            ),
            old(self).ref_counts()[handle.id.0 as int] > 1 ==> final(self).slots() == old(self).slots(),
            old(self).ref_counts()[handle.id.0 as int] == 1 ==> final(self).slots() == old(self).slots().update(
                handle.id.0 as int,
                Slot::Vacant,
            ),
    {
        let i = handle.id.0;
        let c = self.ref_counts[i];
        self.ref_counts.set(i, c - 1);
        if c == 1 {
            self.put(i, Slot::Vacant);
        }
    }

    /// A lease followed by its end stores exactly the value handed back, and
    /// leaves every other entity and every count as it was.
    pub proof fn lemma_lease_round_trip(m0: EntityMap<T>, m1: EntityMap<T>, m2: EntityMap<T>, id: EntityId, v: T)
        requires
            m0.value_of(id) is Some,
            m1.slots() == m0.slots().update(id.0 as int, Slot::Leased),
            m1.ref_counts() == m0.ref_counts(),
            m2.slots() == m1.slots().update(id.0 as int, Slot::Present(v)),
            m2.ref_counts() == m1.ref_counts(),
        ensures
            m2.value_of(id) == Some(v),
            m2.ref_counts() == m0.ref_counts(),
            forall|k: int| 0 <= k < m0.slots().len() && k != id.0 ==> m2.slots()[k] == m0.slots()[k],
            m2.slots().len() == m0.slots().len(),
    {
    }
}

} // verus!
