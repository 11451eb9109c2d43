//! The particle store: an append-only collection in creation order, in
//! which a particle's id is its position.

use vstd::prelude::*;

verus! {

/// One particle: its id and what the simulation attaches to it (position,
/// radius, mass, colour).
pub struct Particle<T> {
    /// Given at creation, never changed and never given again.
    pub id: u32,
    /// What the simulation attaches to the particle.
    pub body: T,
}

/// All live particles, in creation order. Nothing is ever removed.
pub struct ParticleStore<T> {
    items: Vec<Particle<T>>,
}

/// Every particle's id is its position in the sequence.
pub open spec fn ids_follow_positions<T>(particles: Seq<Particle<T>>) -> bool {
    forall|i: int| 0 <= i < particles.len() ==> (#[trigger] particles[i]).id == i
}

impl<T> View for ParticleStore<T> {
    type V = Seq<Particle<T>>;

    closed spec fn view(&self) -> Seq<Particle<T>> {
        self.items@
    }
}

impl<T> ParticleStore<T> {
    /// Ids are positions, and there are no more particles than ids below
    /// `u32::MAX`.
    pub open spec fn wf(&self) -> bool {
        &&& self@.len() <= u32::MAX
        &&& ids_follow_positions(self@)
    }

    /// An empty store.
    pub fn new() -> (store: Self)
        ensures
            store.wf(),
            store@ == Seq::<Particle<T>>::empty(),
    {
        ParticleStore { items: Vec::new() }
    }

    /// How many particles were created so far.
    pub fn len(&self) -> (count: usize)
        ensures
            count == self@.len(),
    {
        self.items.len()
    }

    /// Whether no particle was created yet.
    pub fn is_empty(&self) -> (empty: bool)
        ensures
            empty == (self@.len() == 0),
    {
        self.items.len() == 0
    }

    /// Appends a particle with the next id and returns that id, which is
    /// greater than every id given before. Once `u32::MAX` particles exist
    /// the store stays as it is and hands the body back.
    pub fn create(&mut self, body: T) -> (created: Result<u32, T>)
        requires
            old(self).wf(),
        ensures
            final(self).wf(),
            old(self)@.len() < u32::MAX ==> {
                &&& created == Ok::<u32, T>(old(self)@.len() as u32)
                &&& final(self)@ == old(self)@.push(
                    Particle { id: old(self)@.len() as u32, body },
                )
            },
            old(self)@.len() >= u32::MAX ==> {
                &&& created == Err::<u32, T>(body)
                &&& final(self)@ == old(self)@
            },
    {
        let count: usize = self.items.len();
        if count < u32::MAX as usize {
            let id: u32 = count as u32;
            self.items.push(Particle { id, body });
            Ok(id)
        } else {
            Err(body)
        }
    }

    /// The particle with the given id, if it was created.
    pub fn get(&self, id: u32) -> (found: Option<&Particle<T>>)
        requires
            self.wf(),
        ensures
            found is Some <==> id < self@.len(),
            found is Some ==> *found->0 == self@[id as int] && found->0.id == id,
    {
        let index: usize = id as usize;
        if index < self.items.len() {
            Some(&self.items[index])
        } else {
            None
        }
    }

    /// Every particle, in creation order.
    pub fn all(&self) -> (particles: &Vec<Particle<T>>)
        ensures
            particles@ == self@,
    {
        &self.items
    }

    /// Replaces the body of the particle with the given id; ids and order
    /// stay. An id that was never given leaves the store as it is and hands
    /// the body back.
    pub fn replace_body(&mut self, id: u32, body: T) -> (replaced: Result<(), T>)
        requires
            old(self).wf(),
        ensures
            final(self).wf(),
            id < old(self)@.len() ==> {
                &&& replaced == Ok::<(), T>(())
                &&& final(self)@ == old(self)@.update(id as int, Particle { id, body })
            },
            id >= old(self)@.len() ==> {
                &&& replaced == Err::<(), T>(body)
                &&& final(self)@ == old(self)@
            },
    {
        let index: usize = id as usize;
        if index < self.items.len() {
            self.items.set(index, Particle { id, body });
            Ok(())
        } else {
            Err(body)
        }
    }
}

/// Ids grow strictly along the creation order, so no two particles share
/// one.
pub proof fn lemma_ids_strictly_increasing<T>(store: ParticleStore<T>)
    requires
        store.wf(),
    ensures
        forall|i: int, j: int|
            0 <= i < j < store@.len() ==> (#[trigger] store@[i]).id < (#[trigger] store@[j]).id,
{
}

/// A store that grew by creations alone keeps every particle it had, and
/// each later particle has a greater id than each earlier one.
pub proof fn lemma_later_ids_are_greater<T>(
    earlier: ParticleStore<T>,
    later: ParticleStore<T>,
)
    requires
        earlier.wf(),
        later.wf(),
        earlier@.is_prefix_of(later@),
    ensures
        forall|i: int, j: int|
            0 <= i < earlier@.len() <= j < later@.len()
                ==> (#[trigger] earlier@[i]).id < (#[trigger] later@[j]).id,
        forall|i: int| 0 <= i < earlier@.len() ==> later@[i] == earlier@[i],
{
}

} // verus!
