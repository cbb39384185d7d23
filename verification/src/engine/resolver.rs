//! What the movement resolver computes, stated over the registry's contents.
//!
//! An object moves by its velocity times the elapsed time. Where the whole
//! step would run into another object, nine tenths of it are tried, then
//! eight tenths, down to one tenth; the first free step is taken and the
//! velocity is cut by the same factor.

use vstd::prelude::*;
use crate::state::model::RegistryModel;
use crate::units::{fits, fx_mul, fx_product, lemma_fx_mul_shrinks, PointWithDeg, Size, Velocity};
use crate::utils::collision_cal::overlaps;

verus! {

/// Whether an object registered under `id`, immovable or movable, overlaps
/// the box at `pos` of extent `size`.
pub open spec fn obstacle_at(state: RegistryModel, id: Seq<char>, pos: PointWithDeg, size: Size) -> bool {
    ||| state.s_map.contains_key(id) && overlaps(pos, size, state.s_map[id].pos, state.s_map[id].size)
    ||| state.a_map.contains_key(id) && overlaps(pos, size, state.a_map[id].pos, state.a_map[id].size)
}

/// Whether member `i` of the group at position `g` is an obstacle for the
/// object `self_id` placed at `pos`: it is another object, it is registered,
/// and it overlaps.
pub open spec fn member_blocks(
    state: RegistryModel,
    g: int,
    i: int,
    self_id: Seq<char>,
    pos: PointWithDeg,
    size: Size,
) -> bool {
    state.masks[g][i] != self_id && obstacle_at(state, state.masks[g][i], pos, size)
}

/// Whether the object `self_id`, placed at `pos` with extent `size`, would
/// overlap another registered object that is a member of any of the 15
/// collision groups. A member that is not registered is no obstacle.
pub open spec fn collides(state: RegistryModel, self_id: Seq<char>, pos: PointWithDeg, size: Size) -> bool {
    exists|g: int, i: int|
        0 <= g < 15 && 0 <= i < state.masks[g].len() && #[trigger] member_blocks(
            state,
            g,
            i,
            self_id,
            pos,
            size,
        )
}

/// The factor of step `k`: `k` tenths.
pub open spec fn step_factor(k: int) -> int {
    100 * k
}

/// Where the object would stand after `factor` of its full step. The
/// rotation stays as it is.
pub open spec fn candidate(pos: PointWithDeg, velocity: Velocity, delta_time: int, factor: int) -> PointWithDeg {
    PointWithDeg {
        x: (pos.x + fx_mul(fx_mul(velocity.x as int, delta_time), factor)) as i64,
        y: (pos.y + fx_mul(fx_mul(velocity.y as int, delta_time), factor)) as i64,
        deg: pos.deg,
    }
}

/// Whether the end of the full step is a representable position.
pub open spec fn can_move(pos: PointWithDeg, velocity: Velocity, delta_time: int) -> bool {
    &&& fits(pos.x + fx_mul(velocity.x as int, delta_time))
    &&& fits(pos.y + fx_mul(velocity.y as int, delta_time))
}

/// Tests whether the end of the full step is a representable position.
pub fn is_movable(pos: &PointWithDeg, velocity: &Velocity, delta_time: i64) -> (ok: bool)
    ensures
        ok == can_move(*pos, *velocity, delta_time as int),
{
    let x: i128 = pos.x as i128 + fx_product(velocity.x, delta_time);
    let y: i128 = pos.y as i128 + fx_product(velocity.y, delta_time);
    let low: i128 = i64::MIN as i128;
    let high: i128 = i64::MAX as i128;
    low <= x && x <= high && low <= y && y <= high
}

/// The largest step among `k`, `k - 1`, ..., 1 tenths that runs into no
/// obstacle, or 0 when each of them does.
pub open spec fn free_step_from(
    state: RegistryModel,
    self_id: Seq<char>,
    pos: PointWithDeg,
    size: Size,
    velocity: Velocity,
    delta_time: int,
    k: int,
) -> int
    decreases k,
{
    if k <= 0 {
        0
    } else if !collides(state, self_id, candidate(pos, velocity, delta_time, step_factor(k)), size) {
        k
    } else {
        free_step_from(state, self_id, pos, size, velocity, delta_time, k - 1)
    }
}

/// The step that the resolver takes, in tenths of the full step: the
/// largest of 10, 9, ..., 1 that runs into no obstacle, or 0 when the
/// object is blocked.
pub open spec fn free_step(
    state: RegistryModel,
    self_id: Seq<char>,
    pos: PointWithDeg,
    size: Size,
    velocity: Velocity,
    delta_time: int,
) -> int {
    free_step_from(state, self_id, pos, size, velocity, delta_time, 10)
}

/// What a move does to an object that stood at `pos` with `velocity`: it
/// reports `blocked` exactly when no step is free; otherwise the object ends
/// at the candidate of the step taken and its velocity is cut by that step's
/// factor; a blocked object keeps both.
pub open spec fn resolved(
    state: RegistryModel,
    self_id: Seq<char>,
    size: Size,
    pos: PointWithDeg,
    velocity: Velocity,
    delta_time: int,
    blocked: bool,
    new_pos: PointWithDeg,
    new_velocity: Velocity,
) -> bool {
    let k = free_step(state, self_id, pos, size, velocity, delta_time);
    &&& blocked == (k == 0)
    &&& k == 0 ==> new_pos == pos && new_velocity == velocity
    &&& k != 0 ==> new_pos == candidate(pos, velocity, delta_time, step_factor(k)) && (
    new_velocity.x as int,
    new_velocity.y as int,
    ) == velocity.scaled(step_factor(k))
}

/// The step taken is free, every larger step is obstructed, and no step is
/// taken only where all ten are obstructed.
pub proof fn lemma_free_step_from(
    state: RegistryModel,
    self_id: Seq<char>,
    pos: PointWithDeg,
    size: Size,
    velocity: Velocity,
    delta_time: int,
    k: int,
)
    requires
        0 <= k,
    ensures
        ({
            let s = free_step_from(state, self_id, pos, size, velocity, delta_time, k);
            &&& 0 <= s <= k
            &&& s > 0 ==> !collides(state, self_id, candidate(pos, velocity, delta_time, step_factor(s)), size)
            &&& forall|j: int|
                s < j <= k ==> collides(
                    state,
                    self_id,
                    #[trigger] candidate(pos, velocity, delta_time, step_factor(j)),
                    size,
                )
        }),
    decreases k,
{
    if k > 0 && collides(state, self_id, candidate(pos, velocity, delta_time, step_factor(k)), size) {
        lemma_free_step_from(state, self_id, pos, size, velocity, delta_time, k - 1);
    }
}

/// An object whose path is obstructed at every one of the ten steps is
/// reported as blocked and keeps its position and its velocity.
pub proof fn lemma_blocked_when_every_step_obstructed(
    state: RegistryModel,
    self_id: Seq<char>,
    size: Size,
    pos: PointWithDeg,
    velocity: Velocity,
    delta_time: int,
    blocked: bool,
    new_pos: PointWithDeg,
    new_velocity: Velocity,
)
    requires
        resolved(state, self_id, size, pos, velocity, delta_time, blocked, new_pos, new_velocity),
        forall|k: int|
            1 <= k <= 10 ==> collides(
                state,
                self_id,
                #[trigger] candidate(pos, velocity, delta_time, step_factor(k)),
                size,
            ),
    ensures
        blocked,
        new_pos == pos,
        new_velocity == velocity,
{
    lemma_free_step_from(state, self_id, pos, size, velocity, delta_time, 10);
    let s = free_step(state, self_id, pos, size, velocity, delta_time);
    if s > 0 {
        assert(collides(state, self_id, candidate(pos, velocity, delta_time, step_factor(s)), size));
    }
}

/// An object whose path is free at step `f` and obstructed at every larger
/// step is reported as not blocked; it ends at the start plus `f` tenths of
/// its full displacement, with `f` tenths of its velocity.
pub proof fn lemma_moves_by_largest_free_step(
    state: RegistryModel,
    self_id: Seq<char>,
    size: Size,
    pos: PointWithDeg,
    velocity: Velocity,
    delta_time: int,
    blocked: bool,
    new_pos: PointWithDeg,
    new_velocity: Velocity,
    f: int,
)
    requires
        resolved(state, self_id, size, pos, velocity, delta_time, blocked, new_pos, new_velocity),
        can_move(pos, velocity, delta_time),
        1 <= f <= 10,
        !collides(state, self_id, candidate(pos, velocity, delta_time, step_factor(f)), size),
        forall|j: int|
            f < j <= 10 ==> collides(
                state,
                self_id,
                #[trigger] candidate(pos, velocity, delta_time, step_factor(j)),
                size,
            ),
    ensures
        !blocked,
        new_pos.x == pos.x + fx_mul(fx_mul(velocity.x as int, delta_time), 100 * f),
        new_pos.y == pos.y + fx_mul(fx_mul(velocity.y as int, delta_time), 100 * f),
        new_pos.deg == pos.deg,
        new_velocity.x == fx_mul(velocity.x as int, 100 * f),
        new_velocity.y == fx_mul(velocity.y as int, 100 * f),
{
    lemma_free_step_from(state, self_id, pos, size, velocity, delta_time, 10);
    let s = free_step(state, self_id, pos, size, velocity, delta_time);
    if s < f {
        assert(collides(state, self_id, candidate(pos, velocity, delta_time, step_factor(f)), size));
    }
    if s > f {
        assert(collides(state, self_id, candidate(pos, velocity, delta_time, step_factor(s)), size));
    }
    lemma_candidate_in_range(pos, velocity, delta_time, f);
}

/// A move reports `blocked` exactly when every one of the ten steps is
/// obstructed: one free step, whichever, is enough for the object to move.
pub proof fn lemma_blocked_exactly_when_every_step_obstructed(
    state: RegistryModel,
    self_id: Seq<char>,
    size: Size,
    pos: PointWithDeg,
    velocity: Velocity,
    delta_time: int,
    blocked: bool,
    new_pos: PointWithDeg,
    new_velocity: Velocity,
)
    requires
        resolved(state, self_id, size, pos, velocity, delta_time, blocked, new_pos, new_velocity),
    ensures
        blocked <==> forall|k: int|
            1 <= k <= 10 ==> collides(
                state,
                self_id,
                #[trigger] candidate(pos, velocity, delta_time, step_factor(k)),
                size,
            ),
{
    lemma_free_step_from(state, self_id, pos, size, velocity, delta_time, 10);
    let s = free_step(state, self_id, pos, size, velocity, delta_time);
    if s > 0 {
        assert(!collides(state, self_id, candidate(pos, velocity, delta_time, step_factor(s)), size));
    }
}

/// A shortened step leaves the object slower than it was: after a step of
/// fewer than ten tenths every component of the velocity that was not zero
/// is smaller in magnitude and has kept its sign, and a component that was
/// zero still is.
pub proof fn lemma_shortened_step_slows_down(v: int, f: int)
    requires
        1 <= f <= 9,
    ensures
        v > 0 ==> 0 <= fx_mul(v, 100 * f) < v,
        v < 0 ==> v < fx_mul(v, 100 * f) <= 0,
        v == 0 ==> fx_mul(v, 100 * f) == 0,
{
    if v > 0 {
        assert(0 <= v * (100 * f) <= v * 900) by (nonlinear_arith)
            requires
                v > 0,
                1 <= f <= 9,
        ;
    } else if v < 0 {
        assert(0 <= (-v) * (100 * f) <= (-v) * 900) by (nonlinear_arith)
            requires
                v < 0,
                1 <= f <= 9,
        ;
        assert(-(v * (100 * f)) == (-v) * (100 * f)) by (nonlinear_arith);
    }
}

/// An object is never an obstacle to itself: no member of a group that
/// carries the object's own identifier blocks it, wherever it stands and
/// whatever is registered under that identifier.
pub proof fn lemma_self_never_blocks(
    state: RegistryModel,
    self_id: Seq<char>,
    pos: PointWithDeg,
    size: Size,
)
    ensures
        forall|g: int, i: int|
            state.masks[g][i] == self_id ==> !#[trigger] member_blocks(state, g, i, self_id, pos, size),
        (forall|g: int, i: int|
            0 <= g < 15 && 0 <= i < state.masks[g].len() ==> #[trigger] state.masks[g][i] == self_id)
            ==> !collides(state, self_id, pos, size),
{
}

/// What is stored under the object's own identifier plays no part: two
/// registries with the same groups that agree on every other identifier
/// give the same answer.
pub proof fn lemma_own_record_is_ignored(
    state: RegistryModel,
    other: RegistryModel,
    self_id: Seq<char>,
    pos: PointWithDeg,
    size: Size,
)
    requires
        other.masks == state.masks,
        forall|id: Seq<char>|
            id != self_id ==> (#[trigger] other.s_map.contains_key(id) == state.s_map.contains_key(id))
                && other.s_map[id] == state.s_map[id],
        forall|id: Seq<char>|
            id != self_id ==> (#[trigger] other.a_map.contains_key(id) == state.a_map.contains_key(id))
                && other.a_map[id] == state.a_map[id],
    ensures
        collides(other, self_id, pos, size) == collides(state, self_id, pos, size),
{
    assert forall|g: int, i: int|
        member_blocks(other, g, i, self_id, pos, size) == #[trigger] member_blocks(
            state,
            g,
            i,
            self_id,
            pos,
            size,
        ) by {
        let id = state.masks[g][i];
        if id != self_id {
            assert(other.s_map.contains_key(id) == state.s_map.contains_key(id));
            assert(other.a_map.contains_key(id) == state.a_map.contains_key(id));
        }
    }
    if collides(state, self_id, pos, size) {
        let (g, i) = choose|g: int, i: int|
            0 <= g < 15 && 0 <= i < state.masks[g].len() && #[trigger] member_blocks(
                state,
                g,
                i,
                self_id,
                pos,
                size,
            );
        assert(member_blocks(other, g, i, self_id, pos, size));
    }
    if collides(other, self_id, pos, size) {
        let (g, i) = choose|g: int, i: int|
            0 <= g < 15 && 0 <= i < other.masks[g].len() && #[trigger] member_blocks(
                other,
                g,
                i,
                self_id,
                pos,
                size,
            );
        assert(member_blocks(state, g, i, self_id, pos, size));
    }
}

/// Every step of a representable move ends at a representable position: each
/// coordinate of a candidate lies between the start and the end of the full step.
pub proof fn lemma_candidate_in_range(pos: PointWithDeg, velocity: Velocity, delta_time: int, k: int)
    requires
        can_move(pos, velocity, delta_time),
        0 <= k <= 10,
    ensures
        fits(pos.x + fx_mul(fx_mul(velocity.x as int, delta_time), step_factor(k))),
        fits(pos.y + fx_mul(fx_mul(velocity.y as int, delta_time), step_factor(k))),
        candidate(pos, velocity, delta_time, step_factor(k)).x == pos.x + fx_mul(
            fx_mul(velocity.x as int, delta_time),
            step_factor(k),
        ),
        candidate(pos, velocity, delta_time, step_factor(k)).y == pos.y + fx_mul(
            fx_mul(velocity.y as int, delta_time),
            step_factor(k),
        ),
        candidate(pos, velocity, delta_time, step_factor(10)).x == pos.x + fx_mul(velocity.x as int, delta_time),
        candidate(pos, velocity, delta_time, step_factor(10)).y == pos.y + fx_mul(velocity.y as int, delta_time),
{
    lemma_fx_mul_shrinks(fx_mul(velocity.x as int, delta_time), step_factor(k));
    lemma_fx_mul_shrinks(fx_mul(velocity.y as int, delta_time), step_factor(k));
    lemma_fx_mul_whole(fx_mul(velocity.x as int, delta_time));
    lemma_fx_mul_whole(fx_mul(velocity.y as int, delta_time));
}

/// Multiplying by the factor one changes nothing.
pub proof fn lemma_fx_mul_whole(a: int)
    ensures
        fx_mul(a, 1_000) == a,
{
    if a >= 0 {
        assert((a * 1_000) / 1_000 == a) by (nonlinear_arith);
    } else {
        assert(-(a * 1_000) == (-a) * 1_000) by (nonlinear_arith);
        assert(((-a) * 1_000) / 1_000 == -a) by (nonlinear_arith);
    }
}

} // verus!
