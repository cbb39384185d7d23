//! The frame driver: it fills the registry from a scene and advances the
//! movable objects once per frame.

use vstd::prelude::*;
use crate::engine::resolver::{can_move, candidate, is_movable};
use crate::engine::structures::{AnimatedModel, AnimatedObject, StaticObject};
use crate::engine::traits::PhysicsObject;
use crate::scene::World;
use crate::scripts::{at_rest, final_velocity};
use crate::state::engine_state::{a_add_a_object, a_add_s_object, GlobalState};
use crate::state::model::{valid_mask, valid_masks, RegistryModel, MASK_ROWS};

verus! {

/// Whether every object of a scene lists only collision groups from 1 to 15.
pub open spec fn scene_valid(scene: &World) -> bool {
    &&& forall|i: int| 0 <= i < scene.s_objects@.len() ==> valid_masks(#[trigger] scene.s_objects@[i]@.masks)
    &&& forall|i: int| 0 <= i < scene.a_objects@.len() ==> valid_masks(#[trigger] scene.a_objects@[i]@.masks)
}

/// Tests whether every entry of `masks` is a collision group from 1 to 15.
fn masks_are_valid(masks: &Vec<usize>) -> (ok: bool)
    ensures
        ok == valid_masks(masks@),
{
    let mut i: usize = 0;
    while i < masks.len()
        invariant
            i <= masks.len(),
            forall|k: int| 0 <= k < i ==> valid_mask(#[trigger] masks@[k] as int),
        decreases masks.len() - i,
    {
        if masks[i] < 1 || masks[i] > MASK_ROWS {
            return false;
        }
        i += 1;
    }
    true
}

/// Tests whether every object of a scene lists only collision groups from
/// 1 to 15, which is what registering the scene asks for.
pub fn scene_is_valid(scene: &World) -> (ok: bool)
    ensures
        ok == scene_valid(scene),
{
    let mut statics = scene.s_objects.iter();
    loop
        invariant
            statics.source() == scene.s_objects@,
            0 <= statics.index() <= scene.s_objects@.len(),
            forall|k: int| 0 <= k < statics.index() ==> valid_masks(#[trigger] scene.s_objects@[k]@.masks),
        ensures
            forall|k: int| 0 <= k < scene.s_objects@.len() ==> valid_masks(#[trigger] scene.s_objects@[k]@.masks),
        decreases scene.s_objects@.len() - statics.index(),
    {
        let ghost i = statics.index();
        match statics.next() {
            Some(obj) => {
                if !masks_are_valid(&obj.masks) {
                    assert(!valid_masks(scene.s_objects@[i]@.masks));
                    return false;
                }
            },
            None => {
                break ;
            },
        }
    }
    let mut animateds = scene.a_objects.iter();
    loop
        invariant
            animateds.source() == scene.a_objects@,
            0 <= animateds.index() <= scene.a_objects@.len(),
            forall|k: int| 0 <= k < scene.s_objects@.len() ==> valid_masks(#[trigger] scene.s_objects@[k]@.masks),
            forall|k: int|
                0 <= k < animateds.index() ==> valid_masks(#[trigger] scene.a_objects@[k]@.masks),
        ensures
            forall|k: int| 0 <= k < scene.a_objects@.len() ==> valid_masks(#[trigger] scene.a_objects@[k]@.masks),
        decreases scene.a_objects@.len() - animateds.index(),
    {
        let ghost i = animateds.index();
        match animateds.next() {
            Some(obj) => {
                if !masks_are_valid(&obj.masks) {
                    assert(!valid_masks(scene.a_objects@[i]@.masks));
                    return false;
                }
            },
            None => {
                break ;
            },
        }
    }
    true
}

/// The registry after the immovable objects `objects` were registered in full, in order.
pub open spec fn with_statics(m: RegistryModel, objects: Seq<StaticObject>) -> RegistryModel
    decreases objects.len(),
{
    if objects.len() == 0 {
        m
    } else {
        with_statics(m, objects.drop_last()).add_s_object(objects.last()@)
    }
}

/// The registry after the movable objects `objects` were registered in full, in order.
pub open spec fn with_animateds(m: RegistryModel, objects: Seq<AnimatedObject>) -> RegistryModel
    decreases objects.len(),
{
    if objects.len() == 0 {
        m
    } else {
        with_animateds(m, objects.drop_last()).add_a_object(objects.last()@)
    }
}

/// The registry after a scene was registered: first its immovable objects,
/// then its movable ones.
pub open spec fn populated(m: RegistryModel, scene: &World) -> RegistryModel {
    with_animateds(with_statics(m, scene.s_objects@), scene.a_objects@)
}

/// Registers every object of `scene` in `state`. The scene keeps its
/// objects; the registry gets copies.
pub fn populate_global_state(state: &mut GlobalState, scene: &World)
    requires
        old(state)@.wf(),
        scene_valid(scene),
    ensures
        final(state)@.wf(),
        final(state)@ == populated(old(state)@, scene),
{
    let ghost start = state@;
    let mut statics = scene.s_objects.iter();
    loop
        invariant
            state@.wf(),
            scene_valid(scene),
            start == old(state)@,
            statics.source() == scene.s_objects@,
            0 <= statics.index() <= scene.s_objects@.len(),
            state@ == with_statics(start, scene.s_objects@.take(statics.index())),
        ensures
            state@.wf(),
            state@ == with_statics(start, scene.s_objects@),
        decreases scene.s_objects@.len() - statics.index(),
    {
        let ghost i = statics.index();
        match statics.next() {
            Some(obj) => {
                proof {
                    let next = scene.s_objects@.take(i + 1);
                    assert(next.drop_last() =~= scene.s_objects@.take(i));
                    assert(next.last() == scene.s_objects@[i]);
                }
                let added = a_add_s_object(state, obj.clone());
                assert(added is Ok);
            },
            None => {
                assert(scene.s_objects@.take(i) =~= scene.s_objects@);
                break ;
            },
        }
    }
    let ghost middle = state@;
    let mut animateds = scene.a_objects.iter();
    loop
        invariant
            state@.wf(),
            scene_valid(scene),
            animateds.source() == scene.a_objects@,
            0 <= animateds.index() <= scene.a_objects@.len(),
            state@ == with_animateds(middle, scene.a_objects@.take(animateds.index())),
        ensures
            state@.wf(),
            state@ == with_animateds(middle, scene.a_objects@),
        decreases scene.a_objects@.len() - animateds.index(),
    {
        let ghost i = animateds.index();
        match animateds.next() {
            Some(obj) => {
                proof {
                    let next = scene.a_objects@.take(i + 1);
                    assert(next.drop_last() =~= scene.a_objects@.take(i));
                    assert(next.last() == scene.a_objects@[i]);
                }
                let added = a_add_a_object(state, obj.clone());
                assert(added is Ok);
            },
            None => {
                assert(scene.a_objects@.take(i) =~= scene.a_objects@);
                break ;
            },
        }
    }
}

/// The time from `last` to `now`, both in thousandths of a second: zero if
/// the clock went back, and capped at the largest time span.
pub open spec fn elapsed(last: u64, now: u64) -> int {
    if now <= last {
        0
    } else if now - last > i64::MAX {
        i64::MAX as int
    } else {
        now - last
    }
}

/// The registry after the movable object stored under `id` lived through
/// one frame: slowed down as often as its full step was obstructed, and
/// moved if it did not come to rest. It stays as it is where nothing is
/// stored under `id`, and where the end of its full step is no
/// representable position.
pub open spec fn advanced(m: RegistryModel, id: Seq<char>, delta_time: int) -> RegistryModel {
    if m.a_map.contains_key(id) && can_move(m.a_map[id].pos, m.a_map[id].velocity, delta_time) {
        let obj = m.a_map[id];
        let velocity = final_velocity(m, obj.id, obj.size, obj.pos, obj.velocity, delta_time);
        let pos = if at_rest(velocity) {
            obj.pos
        } else {
            candidate(obj.pos, velocity, delta_time, 1_000)
        };
        m.update_a_map(id, AnimatedModel { pos, velocity, ..obj })
    } else {
        m
    }
}

/// The registry after the objects listed in `ids` lived through one frame,
/// one after the other: each sees where the ones before it ended up.
pub open spec fn advanced_all(m: RegistryModel, ids: Seq<Seq<char>>, delta_time: int) -> RegistryModel
    decreases ids.len(),
{
    if ids.len() == 0 {
        m
    } else {
        advanced(advanced_all(m, ids.drop_last(), delta_time), ids.last(), delta_time)
    }
}

/// A frame changes the store of movable objects and nothing else.
pub proof fn lemma_advanced_all_frame(m: RegistryModel, ids: Seq<Seq<char>>, delta_time: int)
    ensures
        advanced_all(m, ids, delta_time) == (RegistryModel {
            a_map: advanced_all(m, ids, delta_time).a_map,
            ..m
        }),
        advanced_all(m, ids, delta_time).a_map.dom() == m.a_map.dom(),
    decreases ids.len(),
{
    if ids.len() > 0 {
        lemma_advanced_all_frame(m, ids.drop_last(), delta_time);
        let before = advanced_all(m, ids.drop_last(), delta_time);
        assert(advanced(before, ids.last(), delta_time).a_map.dom() =~= before.a_map.dom());
    }
}

/// The game loop: a scene, the registry filled from it, and the time of the
/// last frame in thousandths of a second.
pub struct GameLoop {
    last_time: u64,
    scene: World,
    state: GlobalState,
}

impl GameLoop {
    /// The time of the last frame.
    pub closed spec fn last_time(&self) -> u64 {
        self.last_time
    }

    /// The registry's contents.
    pub closed spec fn registry(&self) -> RegistryModel {
        self.state@
    }

    /// The scene the game started with.
    pub closed spec fn world(&self) -> World {
        self.scene
    }

    /// Makes a game loop for `scene` at time `now`: a fresh registry is
    /// filled with the scene's objects.
    pub fn new(scene: World, now: u64) -> (game: Self)
        requires
            scene_valid(&scene),
        ensures
            game.registry().wf(),
            game.registry() == populated(RegistryModel::empty(), &scene),
            game.last_time() == now,
            game.world() == scene,
    {
        let mut state = GlobalState::new();
        populate_global_state(&mut state, &scene);
        Self { last_time: now, scene, state }
    }

    /// The scene the game started with.
    pub fn scene(&self) -> (scene: &World)
        ensures
            *scene == self.world(),
    {
        &self.scene
    }

    /// The registry, for queries.
    pub fn state(&self) -> (state: &GlobalState)
        ensures
            state@ == self.registry(),
    {
        &self.state
    }

    /// Advances the game to time `now`: every movable object lives through
    /// one frame as long as the time since the last frame.
    pub fn update(&mut self, now: u64)
        requires
            old(self).registry().wf(),
        ensures
            final(self).registry().wf(),
            final(self).last_time() == now,
            final(self).world() == old(self).world(),
            final(self).registry() == advanced_all(
                old(self).registry(),
                old(self).registry().a_identifiables,
                elapsed(old(self).last_time(), now),
            ),
    {
        let delta_time: i64 = if now <= self.last_time {
            0
        } else if now - self.last_time > 0x7fff_ffff_ffff_ffff {
            0x7fff_ffff_ffff_ffff
        } else {
            (now - self.last_time) as i64
        };
        self.update_game(delta_time);
        self.last_time = now;
    }

    /// Lets every movable object live through one frame of `delta_time`, in
    /// the order in which their identifiers were listed.
    pub fn update_game(&mut self, delta_time: i64)
        requires
            old(self).registry().wf(),
        ensures
            final(self).registry().wf(),
            final(self).last_time() == old(self).last_time(),
            final(self).world() == old(self).world(),
            final(self).registry() == advanced_all(
                old(self).registry(),
                old(self).registry().a_identifiables,
                delta_time as int,
            ),
    {
        let ids = self.state.get_animated_identifiables();
        let ghost start = self.state@;
        let mut i: usize = 0;
        assert(ids.deep_view().take(0) =~= Seq::<Seq<char>>::empty());
        while i < ids.len()
            invariant
                i <= ids.len(),
                self.state@.wf(),
                self.last_time == old(self).last_time,
                self.scene == old(self).scene,
                start == old(self).state@,
                ids.deep_view() == start.a_identifiables,
                self.state@ == advanced_all(start, ids.deep_view().take(i as int), delta_time as int),
            decreases ids.len() - i,
        {
            proof {
                let next = ids.deep_view().take(i + 1);
                assert(next.drop_last() =~= ids.deep_view().take(i as int));
                assert(next.last() == ids@[i as int]@);
            }
            let moved = match self.state.get_animated_object(ids[i].as_str()) {
                Some(obj) => {
                    if is_movable(&obj.pos, &obj.velocity, delta_time) {
                        let mut copy = obj.clone();
                        copy.process(&self.state, delta_time);
                        Some(copy)
                    } else {
                        None
                    }
                },
                None => None,
            };
            if let Some(obj) = moved {
                self.state.update_a_map(ids[i].clone(), obj);
            }
            i += 1;
        }
        assert(ids.deep_view().take(i as int) =~= ids.deep_view());
    }
}

} // verus!
