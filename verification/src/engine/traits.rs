//! The capabilities of game objects. Each executable accessor is tied to a
//! specification function of the same trait, so that code written against a
//! capability can be reasoned about without knowing the object's type.

use vstd::prelude::*;
use crate::engine::resolver::{can_move, collides, resolved};
use crate::scripts::settled_after;
use crate::state::engine_state::GlobalState;
use crate::units::{PointWithDeg, Size, Velocity};
use crate::utils::shapes::{CustomShape, ShapeModel};

verus! {

/// Objects that are drawn in one of 256 layers.
pub trait ZIndexTrait {
    /// The object's draw layer.
    spec fn spec_z_index(&self) -> u8;

    /// Returns the object's draw layer.
    fn get_z_index(&self) -> (z: u8)
        ensures
            z == self.spec_z_index(),
    ;
}

/// Objects that carry a unique identifier.
pub trait IdentifiableTrait {
    /// The object's identifier.
    spec fn spec_id(&self) -> Seq<char>;

    /// Returns a copy of the object's identifier.
    fn get_id(&self) -> (id: String)
        ensures
            id@ == self.spec_id(),
    ;
}

/// Objects that carry a display name.
pub trait NamedTrait {
    /// The object's name.
    spec fn spec_name(&self) -> Seq<char>;

    /// Returns a copy of the object's name.
    fn get_name(&self) -> (name: String)
        ensures
            name@ == self.spec_name(),
    ;
}

/// Objects that belong to collision groups.
pub trait MasksTrait {
    /// The numbers of the collision groups the object belongs to.
    spec fn spec_masks(&self) -> Seq<usize>;

    /// Returns a copy of the object's group numbers.
    fn get_masks(&self) -> (masks: Vec<usize>)
        ensures
            masks@ == self.spec_masks(),
    ;
}

/// Objects that have an outline.
pub trait ShapeTrait {
    /// The object's outline.
    spec fn spec_shape(&self) -> ShapeModel;

    /// Returns a copy of the object's outline.
    fn get_shape(&self) -> (shape: CustomShape)
        ensures
            shape@ == self.spec_shape(),
    ;
}

/// Objects that have a velocity.
pub trait VelocityTrait {
    /// The object's velocity.
    spec fn spec_velocity(&self) -> Velocity;

    /// Returns the object's velocity.
    fn get_velocity(&self) -> (velocity: Velocity)
        ensures
            velocity == self.spec_velocity(),
    ;
}

/// Objects that have an extent.
pub trait SizeTrait {
    /// The object's size.
    spec fn spec_size(&self) -> Size;

    /// Returns the object's size.
    fn get_size(&self) -> (size: Size)
        ensures
            size == self.spec_size(),
    ;
}

/// Objects that have a position.
pub trait PointTrait {
    /// The object's position.
    spec fn spec_pos(&self) -> PointWithDeg;

    /// Returns the object's position.
    fn get_pos(&self) -> (pos: PointWithDeg)
        ensures
            pos == self.spec_pos(),
    ;
}

/// Objects that are stopped by other registered objects.
pub trait CollisionTrait: IdentifiableTrait + PointTrait + SizeTrait + VelocityTrait {
    /// Whether the object, were it placed at `new_point`, would overlap
    /// another object registered in `state`. The object itself is not moved.
    fn check_collision(&self, state: &GlobalState, new_point: PointWithDeg) -> (hit: bool)
        requires
            state@.wf(),
        ensures
            hit == collides(state@, self.spec_id(), new_point, self.spec_size()),
    ;

    /// Moves the object by its velocity over `delta_time`, as far as the
    /// other objects in `state` allow: by the whole step, or else by the
    /// largest free step among nine tenths down to one tenth of it, cutting
    /// the velocity by the same factor. Returns `true` when no step is free;
    /// the object then stays as it is.
    fn move_object(&mut self, state: &GlobalState, delta_time: i64) -> (blocked: bool)
        requires
            state@.wf(),
            can_move(old(self).spec_pos(), old(self).spec_velocity(), delta_time as int),
        ensures
            final(self).spec_id() == old(self).spec_id(),
            final(self).spec_size() == old(self).spec_size(),
            resolved(
                state@,
                old(self).spec_id(),
                old(self).spec_size(),
                old(self).spec_pos(),
                old(self).spec_velocity(),
                delta_time as int,
                blocked,
                final(self).spec_pos(),
                final(self).spec_velocity(),
            ),
    ;
}

/// Consuming setters: the object is used up and nothing is handed back.
pub trait Object {
    /// Gives the object a new size and drops it.
    fn set_size(self, size: Size);

    /// Gives the object a new position and drops it.
    fn set_pos(self, pos: PointWithDeg);
}

/// Objects that are advanced once per frame.
pub trait PhysicsObject: IdentifiableTrait + PointTrait + SizeTrait + VelocityTrait {
    /// The former per-frame hook. It does nothing; `process` took its place.
    fn update(&mut self, delta_time: i64)
        ensures
            final(self).spec_id() == old(self).spec_id(),
            final(self).spec_size() == old(self).spec_size(),
            final(self).spec_pos() == old(self).spec_pos(),
            final(self).spec_velocity() == old(self).spec_velocity(),
    ;

    /// Advances the object by one frame of `delta_time`: its velocity is
    /// damped by one tenth as often as its full step is obstructed, until
    /// the step is free or the object is at rest; a free step is then taken.
    fn process(&mut self, state: &GlobalState, delta_time: i64)
        requires
            state@.wf(),
            can_move(old(self).spec_pos(), old(self).spec_velocity(), delta_time as int),
        ensures
            final(self).spec_id() == old(self).spec_id(),
            final(self).spec_size() == old(self).spec_size(),
            settled_after(
                state@,
                old(self).spec_id(),
                old(self).spec_size(),
                old(self).spec_pos(),
                old(self).spec_velocity(),
                delta_time as int,
                final(self).spec_pos(),
                final(self).spec_velocity(),
            ),
    ;
}

/// What a scripted step may use of an object.
pub trait SequenceParamTraits: Send + Sync + VelocityTrait + PointTrait + CollisionTrait {
}

impl<T> SequenceParamTraits for T where T: Send + Sync + VelocityTrait + PointTrait + CollisionTrait {
}

/// What every registered object offers.
pub trait CommonObjectTraits:
    ZIndexTrait + Object + IdentifiableTrait + NamedTrait + MasksTrait + SizeTrait + PointTrait + ShapeTrait {
}

impl<T> CommonObjectTraits for T where
    T: ZIndexTrait + Object + IdentifiableTrait + NamedTrait + MasksTrait + SizeTrait + PointTrait + ShapeTrait,
 {
}

/// What an immovable object offers.
pub trait StaticObjectTrait: CommonObjectTraits + Send + Sync {
}

impl<T> StaticObjectTrait for T where T: CommonObjectTraits + Send + Sync {
}

/// What a movable object offers.
pub trait PhysicsObjectTrait:
    CommonObjectTraits + PhysicsObject + VelocityTrait + CollisionTrait + Send + Sync {
}

impl<T> PhysicsObjectTrait for T where
    T: CommonObjectTraits + PhysicsObject + VelocityTrait + CollisionTrait + Send + Sync,
 {
}

} // verus!
