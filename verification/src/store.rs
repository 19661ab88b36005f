use vstd::prelude::*;

verus! {

/// A component store: a partial map from entities to components of one
/// kind. Entities are dense small integers, so the store keeps one slot
/// per entity up to the highest entity it has seen.
pub struct Store<T> {
    slots: Vec<Option<T>>,
}

impl<T> View for Store<T> {
    type V = Map<int, T>;

    closed spec fn view(&self) -> Map<int, T> {
        Map::new(
            |e: int| 0 <= e < self.slots@.len() && self.slots@[e] is Some,
            |e: int| self.slots@[e]->0,
        )
    }
}

impl<T> Store<T> {
    /// An empty store: no entity has a component of this kind.
    pub fn new() -> (s: Store<T>)
        ensures
            s@ == Map::<int, T>::empty(),
    {
        let s = Store { slots: Vec::new() };
        proof {
            assert(s@ =~= Map::<int, T>::empty());
        }
        s
    }

    /// Does the entity carry a component of this kind?
    pub fn contains(&self, e: usize) -> (r: bool)
        ensures
            r == self@.contains_key(e as int),
    {
        e < self.slots.len() && self.slots[e].is_some()
    }

    /// The entity's component of this kind, if it has one.
    pub fn get(&self, e: usize) -> (r: Option<&T>)
        ensures
            match r {
                Some(v) => self@.contains_key(e as int) && *v == self@[e as int],
                None => !self@.contains_key(e as int),
            },
    {
        if e < self.slots.len() {
            match &self.slots[e] {
                Some(v) => Some(v),
                None => None,
            }
        } else {
            None
        }
    }

    /// Attach a component to the entity, replacing any component of this
    /// kind it already had.
    pub fn insert(&mut self, e: usize, v: T)
        requires
            e < usize::MAX,
        ensures
            final(self)@ == old(self)@.insert(e as int, v),
    {
        while self.slots.len() <= e
            invariant
                e < usize::MAX,
                forall|i: int|
                    0 <= i < self.slots@.len() ==> self.slots@[i] == (if i
                        < old(self).slots@.len() {
                        old(self).slots@[i]
                    } else {
                        Option::<T>::None
                    }),
                self.slots@.len() >= old(self).slots@.len(),
            decreases e + 1 - self.slots@.len(),
        {
            self.slots.push(None);
        }
        self.slots[e] = Some(v);
        proof {
            assert(final(self)@ =~= old(self)@.insert(e as int, v));
        }
    }

    /// Attach the component to the entity if one is given, and otherwise
    /// leave the store unchanged.
    pub fn insert_opt(&mut self, e: usize, v: Option<T>)
        requires
            e < usize::MAX,
        ensures
            final(self)@ == (if v is Some {
                old(self)@.insert(e as int, v->0)
            } else {
                old(self)@
            }),
    {
        match v {
            Some(v) => self.insert(e, v),
            None => (),
        }
    }

    /// Attach the component to the entity if the flag is set, and otherwise
    /// leave the store unchanged.
    pub fn insert_if(&mut self, e: usize, flag: bool, v: T)
        requires
            e < usize::MAX,
        ensures
            final(self)@ == (if flag {
                old(self)@.insert(e as int, v)
            } else {
                old(self)@
            }),
    {
        if flag {
            self.insert(e, v);
        }
    }

    /// Detach the entity's component of this kind, if any.
    pub fn remove(&mut self, e: usize)
        ensures
            final(self)@ == old(self)@.remove(e as int),
    {
        if e < self.slots.len() {
            self.slots[e] = None;
        }
        proof {
            assert(final(self)@ =~= old(self)@.remove(e as int));
        }
    }

    /// Detach and return the entity's component of this kind, if any.
    pub fn take(&mut self, e: usize) -> (r: Option<T>)
        ensures
            final(self)@ == old(self)@.remove(e as int),
            match r {
                Some(v) => old(self)@.contains_key(e as int) && v == old(self)@[e as int],
                None => !old(self)@.contains_key(e as int),
            },
    {
        let r = if e < self.slots.len() {
            self.slots.push(None);
            self.slots.swap_remove(e)
        } else {
            None
        };
        proof {
            assert(final(self)@ =~= old(self)@.remove(e as int));
        }
        r
    }

    /// Detach this kind of component from every entity at once.
    pub fn clear(&mut self)
        ensures
            final(self)@ == Map::<int, T>::empty(),
    {
        self.slots.clear();
        proof {
            assert(final(self)@ =~= Map::<int, T>::empty());
        }
    }
}

} // verus!
