//! The celestial bodies of the world: a roster in creation order, each
//! body under a name of its own.

use vstd::prelude::*;

verus! {

/// Why a body could not be added.
#[derive(Clone, Copy, Debug, PartialEq, Eq, Structural)]
pub enum BodiesError {
    /// A body of the same name is on the roster already.
    DuplicateName,
}

struct Entry<B> {
    name: String,
    orbit: B,
}

/// The celestial bodies, in the order in which they were added. `B` is the
/// orbital state of one body (radius, angle, angular velocity); this crate
/// stores it and hands it to the caller's functions, and never looks
/// inside. No two bodies have the same name.
pub struct Bodies<B> {
    entries: Vec<Entry<B>>,
}

spec fn names_of<B>(entries: Seq<Entry<B>>) -> Seq<Seq<char>> {
    Seq::new(entries.len(), |i: int| entries[i].name@)
}

spec fn orbits_of<B>(entries: Seq<Entry<B>>) -> Seq<B> {
    Seq::new(entries.len(), |i: int| entries[i].orbit)
}

impl<B> Bodies<B> {
    /// The names of the bodies, in creation order.
    pub closed spec fn names(&self) -> Seq<Seq<char>> {
        names_of(self.entries@)
    }

    /// The orbital states of the bodies, in creation order.
    pub closed spec fn orbits(&self) -> Seq<B> {
        orbits_of(self.entries@)
    }

    #[verifier::type_invariant]
    spec fn inv(self) -> bool {
        self.names().no_duplicates()
    }

    /// An empty roster.
    pub fn new() -> (bodies: Bodies<B>)
        ensures
            bodies.names() == Seq::<Seq<char>>::empty(),
            bodies.orbits() == Seq::<B>::empty(),
    {
        let bodies = Bodies { entries: Vec::new() };
        assert(bodies.names() =~= Seq::<Seq<char>>::empty());
        assert(bodies.orbits() =~= Seq::<B>::empty());
        bodies
    }

    /// How many bodies there are.
    pub fn len(&self) -> (n: usize)
        ensures
            n == self.names().len(),
            n == self.orbits().len(),
            self.names().no_duplicates(),
    {
        proof {
            use_type_invariant(self);
        }
        self.entries.len()
    }

    /// Adds a body at the end of the roster. Fails, and changes nothing, if
    /// a body of that name is on the roster already.
    pub fn add_body(&mut self, name: String, orbit: B) -> (r: Result<(), BodiesError>)
        ensures
            old(self).names().contains(name@) ==> {
                &&& r == Err::<(), BodiesError>(BodiesError::DuplicateName)
                &&& final(self).names() == old(self).names()
                &&& final(self).orbits() == old(self).orbits()
            },
            !old(self).names().contains(name@) ==> {
                &&& r is Ok
                &&& final(self).names() == old(self).names().push(name@)
                &&& final(self).orbits() == old(self).orbits().push(orbit)
            },
    {
        proof {
            use_type_invariant(&*self);
        }
        let mut i: usize = 0;
        while i < self.entries.len()
            invariant
                0 <= i <= self.entries@.len(),
                *self == *old(self),
                forall|j: int| 0 <= j < i ==> self.entries@[j].name@ != name@,
            decreases self.entries@.len() - i,
        {
            if self.entries[i].name == name {
                assert(self.names()[i as int] == name@);
                return Err(BodiesError::DuplicateName);
            }
            i = i + 1;
        }
        assert(!self.names().contains(name@)) by {
            if self.names().contains(name@) {
                let j = choose|j: int| 0 <= j < self.names().len() && self.names()[j] == name@;
                assert(self.entries@[j].name@ == name@);
            }
        }
        // Take the roster out whole, so that the entries can be extended by value.
        let mut taken = Bodies { entries: Vec::new() };
        assert(taken.names() =~= Seq::<Seq<char>>::empty());
        core::mem::swap(self, &mut taken);
        let Bodies { entries } = taken;
        let mut entries = entries;
        entries.push(Entry { name, orbit });
        proof {
            let before = old(self).names();
            assert(names_of(entries@) =~= before.push(name@));
            assert(orbits_of(entries@) =~= old(self).orbits().push(orbit));
            assert forall|a: int, b: int|
                0 <= a < before.push(name@).len() && 0 <= b < before.push(name@).len() && a
                    != b implies before.push(name@)[a] != before.push(name@)[b] by {
                if a < before.len() && b < before.len() {
                    assert(before[a] != before[b]);
                } else if a < before.len() {
                    assert(before.contains(before[a]));
                } else if b < before.len() {
                    assert(before.contains(before[b]));
                }
            }
        }
        *self = Bodies { entries };
        Ok(())
    }

    /// The names of the bodies, in creation order.
    pub fn body_names(&self) -> (names: Vec<String>)
        ensures
            names@.len() == self.names().len(),
            forall|i: int| 0 <= i < names@.len() ==> (#[trigger] names@[i])@ == self.names()[i],
            self.names().no_duplicates(),
    {
        proof {
            use_type_invariant(self);
        }
        let mut names: Vec<String> = Vec::new();
        let mut i: usize = 0;
        while i < self.entries.len()
            invariant
                0 <= i <= self.entries@.len(),
                names@.len() == i,
                forall|j: int| 0 <= j < i ==> (#[trigger] names@[j])@ == self.entries@[j].name@,
            decreases self.entries@.len() - i,
        {
            names.push(self.entries[i].name.clone());
            i = i + 1;
        }
        names
    }

    /// One tick: replaces the orbital state of every body by what `advance`
    /// returns for it. Each body is advanced exactly once, from its state
    /// before the tick; the roster keeps its bodies, their names and their
    /// order.
    pub fn update<F: Fn(&B) -> B>(&mut self, advance: F)
        requires
            forall|i: int|
                0 <= i < old(self).orbits().len() ==> call_requires(
                    advance,
                    (&#[trigger] old(self).orbits()[i],),
                ),
        ensures
            final(self).names() == old(self).names(),
            final(self).orbits().len() == old(self).orbits().len(),
            forall|i: int|
                0 <= i < old(self).orbits().len() ==> call_ensures(
                    advance,
                    (&old(self).orbits()[i],),
                    #[trigger] final(self).orbits()[i],
                ),
    {
        proof {
            use_type_invariant(&*self);
        }
        let mut next: Vec<Entry<B>> = Vec::new();
        let mut i: usize = 0;
        while i < self.entries.len()
            invariant
                0 <= i <= self.entries@.len(),
                *self == *old(self),
                next@.len() == i,
                forall|j: int|
                    0 <= j < old(self).orbits().len() ==> call_requires(
                        advance,
                        (&#[trigger] old(self).orbits()[j],),
                    ),
                forall|j: int| 0 <= j < i ==> (#[trigger] next@[j]).name@ == self.entries@[j].name@,
                forall|j: int|
                    0 <= j < i ==> call_ensures(
                        advance,
                        (&self.entries@[j].orbit,),
                        (#[trigger] next@[j]).orbit,
                    ),
            decreases self.entries@.len() - i,
        {
            assert(old(self).orbits()[i as int] == self.entries@[i as int].orbit);
            let orbit = advance(&self.entries[i].orbit);
            next.push(Entry { name: self.entries[i].name.clone(), orbit });
            i = i + 1;
        }
        proof {
            assert(names_of(next@) =~= old(self).names());
            assert forall|j: int| 0 <= j < old(self).orbits().len() implies call_ensures(
                advance,
                (&old(self).orbits()[j],),
                #[trigger] orbits_of(next@)[j],
            ) by {
                assert(orbits_of(next@)[j] == next@[j].orbit);
            }
        }
        *self = Bodies { entries: next };
    }

    /// Reads every body with `locate`, in creation order: the named
    /// positions of one snapshot.
    pub fn positions<P, F: Fn(&B) -> P>(&self, locate: F) -> (positions: Vec<(String, P)>)
        requires
            forall|i: int|
                0 <= i < self.orbits().len() ==> call_requires(
                    locate,
                    (&#[trigger] self.orbits()[i],),
                ),
        ensures
            positions@.len() == self.names().len(),
            forall|i: int|
                0 <= i < positions@.len() ==> (#[trigger] positions@[i]).0@ == self.names()[i]
                    && call_ensures(locate, (&self.orbits()[i],), positions@[i].1),
            self.names().no_duplicates(),
    {
        proof {
            use_type_invariant(self);
        }
        let mut positions: Vec<(String, P)> = Vec::new();
        let mut i: usize = 0;
        while i < self.entries.len()
            invariant
                0 <= i <= self.entries@.len(),
                positions@.len() == i,
                forall|j: int|
                    0 <= j < self.orbits().len() ==> call_requires(
                        locate,
                        (&#[trigger] self.orbits()[j],),
                    ),
                forall|j: int|
                    0 <= j < i ==> (#[trigger] positions@[j]).0@ == self.entries@[j].name@
                        && call_ensures(locate, (&self.entries@[j].orbit,), positions@[j].1),
            decreases self.entries@.len() - i,
        {
            assert(self.orbits()[i as int] == self.entries@[i as int].orbit);
            let position = locate(&self.entries[i].orbit);
            positions.push((self.entries[i].name.clone(), position));
            i = i + 1;
        }
        positions
    }
}

} // verus!
