//! Entities: the per-particle liveness flag and the swap-removal step of
//! the particle micro-framework.
//!
//! The wider framework — entity classes, their procedures, and the
//! parallel iteration that runs them — lives in the embedding program;
//! what it hands off here is the pure step: once a class's procedure has
//! run, the dead entities are removed and the live ones kept.

use vstd::prelude::*;

verus! {

/// One entity: a liveness flag and the data the users care about.
pub struct Entity<T> {
    /// Whether the current entity is alive.
    alive: bool,
    /// The data the users care about.
    payload: T,
}

impl<T> Entity<T> {
    /// Whether the entity is alive, as a specification value.
    pub closed spec fn spec_alive(&self) -> bool {
        self.alive
    }

    /// The entity's data, as a specification value.
    pub closed spec fn spec_payload(&self) -> T {
        self.payload
    }

    /// A new, live entity around the given data.
    pub fn new(payload: T) -> (r: Self)
        ensures
            r.spec_alive(),
            r.spec_payload() == payload,
    {
        Entity { alive: true, payload }
    }

    /// Marks this entity as being dead.
    pub fn kill(&mut self)
        ensures
            !final(self).spec_alive(),
            final(self).spec_payload() == old(self).spec_payload(),
    {
        self.alive = false;
    }

    /// Marks this entity as being alive.
    pub fn revive(&mut self)
        ensures
            final(self).spec_alive(),
            final(self).spec_payload() == old(self).spec_payload(),
    {
        self.alive = true;
    }

    /// Whether this entity is alive.  Dead entities are removed when
    /// their class is next compacted.
    pub fn alive(&self) -> (r: bool)
        ensures
            r == self.spec_alive(),
    {
        self.alive
    }

    /// The entity's data.
    pub fn payload(&self) -> (r: &T)
        ensures
            *r == self.spec_payload(),
    {
        &self.payload
    }

    /// The entity's data, for writing.
    pub fn payload_mut(&mut self) -> (r: &mut T)
        ensures
            *r == old(self).spec_payload(),
            final(self).spec_payload() == *final(r),
            final(self).spec_alive() == old(self).spec_alive(),
    {
        &mut self.payload
    }
}

/// The predicate that keeps an entity: it is alive.
pub open spec fn alive_pred<T>() -> spec_fn(Entity<T>) -> bool {
    |e: Entity<T>| e.spec_alive()
}

/// Removes the dead entities of one class and keeps the live ones, in
/// order: exactly the live entities of the input, nothing else.
pub fn compact_entities<T>(entities: Vec<Entity<T>>) -> (r: Vec<Entity<T>>)
    ensures
        r@ == entities@.filter(alive_pred::<T>()),
{
    let ghost orig = entities@;
    let mut rest = entities;
    let mut kept: Vec<Entity<T>> = Vec::new();
    let ghost mut consumed = Seq::<Entity<T>>::empty();
    proof {
        assert(consumed.filter(alive_pred::<T>()) =~= Seq::<Entity<T>>::empty());
        assert(consumed + rest@ =~= orig);
    }
    while rest.len() > 0
        invariant
            consumed + rest@ == orig,
            kept@ == consumed.filter(alive_pred::<T>()),
        decreases rest@.len(),
    {
        let e = rest.remove(0);
        let ghost consumed2 = consumed.push(e);
        proof {
            assert(consumed2.drop_last() =~= consumed);
            assert(consumed2 + rest@ =~= orig);
            assert(consumed2.filter(alive_pred::<T>()) == (if alive_pred::<T>()(e) {
                consumed.filter(alive_pred::<T>()).push(e)
            } else {
                consumed.filter(alive_pred::<T>())
            })) by {
                reveal_with_fuel(Seq::filter, 2);
                assert(consumed2.last() == e);
            }
        }
        if e.alive() {
            kept.push(e);
        }
        proof {
            consumed = consumed2;
        }
    }
    proof {
        assert(consumed =~= orig);
    }
    kept
}

} // verus!
