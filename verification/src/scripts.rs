//! The per-frame behaviour of movable objects.

use vstd::prelude::*;
use crate::engine::resolver::{can_move, candidate, collides, lemma_candidate_in_range};
use crate::engine::structures::{AnimatedModel, AnimatedObject};
use crate::engine::traits::{CollisionTrait, PhysicsObject};
use crate::state::engine_state::GlobalState;
use crate::state::model::RegistryModel;
use crate::units::{
    fx_mul, fx_product, lemma_fx_mul_monotone, lemma_fx_mul_shrinks, PointWithDeg, Size, Velocity,
};

verus! {

/// The factor by which an obstructed object is slowed down: nine tenths.
pub const DAMPING: i64 = 900;

/// Whether a velocity is so small that the object counts as standing still:
/// at most one thousandth along each axis.
pub open spec fn at_rest(velocity: Velocity) -> bool {
    -1 <= velocity.x <= 1 && -1 <= velocity.y <= 1
}

/// A velocity slowed down once.
pub open spec fn damped(velocity: Velocity) -> Velocity {
    Velocity { x: fx_mul(velocity.x as int, 900) as i64, y: fx_mul(velocity.y as int, 900) as i64 }
}

/// The sum of the magnitudes of a velocity's components.
pub open spec fn speed(velocity: Velocity) -> nat {
    (if velocity.x >= 0 {
        velocity.x as int
    } else {
        -velocity.x
    } + if velocity.y >= 0 {
        velocity.y as int
    } else {
        -velocity.y
    }) as nat
}

/// Slowing down keeps each component's sign, never raises its magnitude,
/// and lowers the speed of an object that is not at rest.
pub proof fn lemma_damped(velocity: Velocity)
    ensures
        damped(velocity).x == fx_mul(velocity.x as int, 900),
        damped(velocity).y == fx_mul(velocity.y as int, 900),
        0 <= damped(velocity).x <= velocity.x || velocity.x <= damped(velocity).x <= 0,
        0 <= damped(velocity).y <= velocity.y || velocity.y <= damped(velocity).y <= 0,
        !at_rest(velocity) ==> speed(damped(velocity)) < speed(velocity),
{
    lemma_fx_mul_shrinks(velocity.x as int, 900);
    lemma_fx_mul_shrinks(velocity.y as int, 900);
}

/// The velocity with which the object ends the frame: the first among the
/// velocity, the velocity slowed down once, twice, and so on, that either
/// counts as rest or whose full step is free.
pub open spec fn final_velocity(
    state: RegistryModel,
    self_id: Seq<char>,
    size: Size,
    pos: PointWithDeg,
    velocity: Velocity,
    delta_time: int,
) -> Velocity
    decreases speed(velocity),
{
    if at_rest(velocity) || !collides(state, self_id, candidate(pos, velocity, delta_time, 1_000), size) {
        velocity
    } else {
        proof {
            lemma_damped(velocity);
        }
        final_velocity(state, self_id, size, pos, damped(velocity), delta_time)
    }
}

/// What a frame does to an object that stood at `pos` with `velocity`: it
/// ends with the final velocity; if that counts as rest the object has not
/// moved, otherwise it has taken the full step of the final velocity.
pub open spec fn settled_after(
    state: RegistryModel,
    self_id: Seq<char>,
    size: Size,
    pos: PointWithDeg,
    velocity: Velocity,
    delta_time: int,
    new_pos: PointWithDeg,
    new_velocity: Velocity,
) -> bool {
    let v = final_velocity(state, self_id, size, pos, velocity, delta_time);
    &&& new_velocity == v
    &&& new_pos == if at_rest(v) {
        pos
    } else {
        candidate(pos, v, delta_time, 1_000)
    }
}

/// A slowed-down object can still take its full step.
pub proof fn lemma_damped_can_move(pos: PointWithDeg, velocity: Velocity, delta_time: int)
    requires
        can_move(pos, velocity, delta_time),
    ensures
        can_move(pos, damped(velocity), delta_time),
{
    lemma_damped(velocity);
    lemma_fx_mul_monotone(damped(velocity).x as int, velocity.x as int, delta_time);
    lemma_fx_mul_monotone(damped(velocity).y as int, velocity.y as int, delta_time);
}

/// Moves `obj` by its full step if that is free. While the step is
/// obstructed the velocity is slowed down by one tenth and the step is tried
/// again, until the object counts as standing still. Always returns `true`.
pub fn _safe_move(obj: &mut AnimatedObject, state: &GlobalState, delta_time: i64) -> (done: bool)
    requires
        state@.wf(),
        can_move(old(obj).pos, old(obj).velocity, delta_time as int),
    ensures
        done,
        final(obj)@ == (AnimatedModel { pos: final(obj).pos, velocity: final(obj).velocity, ..old(obj)@ }),
        settled_after(
            state@,
            old(obj).id@,
            old(obj).size,
            old(obj).pos,
            old(obj).velocity,
            delta_time as int,
            final(obj).pos,
            final(obj).velocity,
        ),
{
    loop
        invariant
            state@.wf(),
            can_move(obj.pos, obj.velocity, delta_time as int),
            obj@ == (AnimatedModel { velocity: obj.velocity, ..old(obj)@ }),
            final_velocity(state@, obj.id@, obj.size, obj.pos, obj.velocity, delta_time as int)
                == final_velocity(
                state@,
                old(obj).id@,
                old(obj).size,
                old(obj).pos,
                old(obj).velocity,
                delta_time as int,
            ),
        decreases speed(obj.velocity),
    {
        let v = obj.velocity;
        if -1 <= v.x && v.x <= 1 && -1 <= v.y && v.y <= 1 {
            return true;
        }
        proof {
            lemma_candidate_in_range(obj.pos, v, delta_time as int, 10);
        }
        let virtual_pos = PointWithDeg {
            x: (obj.pos.x as i128 + fx_product(v.x, delta_time)) as i64,
            y: (obj.pos.y as i128 + fx_product(v.y, delta_time)) as i64,
            deg: obj.pos.deg,
        };
        assert(virtual_pos == candidate(obj.pos, v, delta_time as int, 1_000));
        if !obj.check_collision(state, virtual_pos) {
            obj.pos = virtual_pos;
            return true;
        }
        proof {
            lemma_damped(v);
            lemma_damped_can_move(obj.pos, v, delta_time as int);
        }
        obj.velocity.scale_mut(DAMPING);
        assert(obj.velocity == damped(v));
    }
}

impl PhysicsObject for AnimatedObject {
    fn update(&mut self, delta_time: i64)
        ensures
            *final(self) == *old(self),
    {
    }

    fn process(&mut self, state: &GlobalState, delta_time: i64)
        ensures
            final(self)@ == (AnimatedModel {
                pos: final(self).pos,
                velocity: final(self).velocity,
                ..old(self)@
            }),
    {
        _safe_move(self, state, delta_time);
    }
}

} // verus!
