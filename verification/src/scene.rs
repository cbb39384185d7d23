//! The objects a game starts with.

use vstd::prelude::*;
use crate::engine::structures::{AnimatedObject, StaticObject};
use crate::types::List;

verus! {

/// The objects of a scene, immovable and movable, in the order they were added.
pub struct World {
    pub s_objects: List<StaticObject>,
    pub a_objects: List<AnimatedObject>,
}

impl Default for World {
    fn default() -> (world: Self)
        ensures
            world.s_objects@ == Seq::<StaticObject>::empty(),
            world.a_objects@ == Seq::<AnimatedObject>::empty(),
            world.s_objects.cursor() == None::<int>,
            world.a_objects.cursor() == None::<int>,
    {
        Self { s_objects: List::new(), a_objects: List::new() }
    }
}

impl World {
    /// A scene without objects.
    pub fn new() -> (world: Self)
        ensures
            world.s_objects@ == Seq::<StaticObject>::empty(),
            world.a_objects@ == Seq::<AnimatedObject>::empty(),
            world.s_objects.cursor() == None::<int>,
            world.a_objects.cursor() == None::<int>,
    {
        Self { s_objects: List::new(), a_objects: List::new() }
    }

    /// Adds immovable objects to the scene, in the order given.
    pub fn add_static(&mut self, static_objects: Vec<StaticObject>)
        ensures
            final(self).s_objects@ == old(self).s_objects@ + static_objects@,
            final(self).s_objects.cursor() == old(self).s_objects.cursor(),
            final(self).a_objects == old(self).a_objects,
    {
        let ghost before = self.s_objects@;
        for obj in it: static_objects.into_iter()
            invariant
                it.seq() == static_objects@,
                self.a_objects == old(self).a_objects,
                self.s_objects.cursor() == old(self).s_objects.cursor(),
                before == old(self).s_objects@,
                self.s_objects@ == before + static_objects@.take(it.index() as int),
        {
            let ghost done = it.index() as int;
            self.s_objects.append(obj);
            assert(static_objects@.take(done + 1) =~= static_objects@.take(done).push(static_objects@[done]));
        }
        assert(static_objects@.take(static_objects@.len() as int) =~= static_objects@);
    }

    /// Adds movable objects to the scene, in the order given.
    pub fn add_animated(&mut self, animated_objects: Vec<AnimatedObject>)
        ensures
            final(self).a_objects@ == old(self).a_objects@ + animated_objects@,
            final(self).a_objects.cursor() == old(self).a_objects.cursor(),
            final(self).s_objects == old(self).s_objects,
    {
        let ghost before = self.a_objects@;
        for obj in it: animated_objects.into_iter()
            invariant
                it.seq() == animated_objects@,
                self.s_objects == old(self).s_objects,
                self.a_objects.cursor() == old(self).a_objects.cursor(),
                before == old(self).a_objects@,
                self.a_objects@ == before + animated_objects@.take(it.index() as int),
        {
            let ghost done = it.index() as int;
            self.a_objects.append(obj);
            assert(animated_objects@.take(done + 1) =~= animated_objects@.take(done).push(animated_objects@[done]));
        }
        assert(animated_objects@.take(animated_objects@.len() as int) =~= animated_objects@);
    }
}

} // verus!
