//! The two kinds of game object: immovable and movable.

use vstd::prelude::*;
use crate::engine::resolver::{
    can_move, candidate, free_step_from, is_movable, lemma_candidate_in_range, member_blocks,
    obstacle_at, resolved, step_factor,
};
use crate::engine::traits::{
    CollisionTrait, IdentifiableTrait, MasksTrait, NamedTrait, Object, PointTrait, ShapeTrait, SizeTrait,
    VelocityTrait, ZIndexTrait,
};
use crate::state::engine_state::GlobalState;
use crate::state::model::MASK_ROWS;
use crate::units::{fx_mul, fx_product, fx_product_wide, lemma_fx_mul_shrinks, PointWithDeg, Size, Velocity};
use crate::utils::collision_cal::boxes_overlap;
use crate::utils::shapes::{default_points, CustomShape, ShapeKind, ShapeModel};
use crate::utils::util_items::{gen_id, is_random_id};

verus! {

/// Copies a list of group numbers.
pub(crate) fn copy_masks(masks: &Vec<usize>) -> (copy: Vec<usize>)
    ensures
        copy@ == masks@,
{
    let mut copy: Vec<usize> = Vec::new();
    let mut i: usize = 0;
    while i < masks.len()
        invariant
            i <= masks.len(),
            copy@ == masks@.take(i as int),
        decreases masks.len() - i,
    {
        copy.push(masks[i]);
        assert(masks@.take(i + 1) == masks@.take(i as int).push(masks@[i as int]));
        i += 1;
    }
    assert(masks@.take(i as int) == masks@);
    copy
}

/// An object that never moves: a wall, a floor, scenery.
#[derive(Debug)]
pub struct StaticObject {
    /// The draw layer.
    pub z_index: u8,
    /// The unique identifier, drawn when the object is made.
    pub id: String,
    /// The display name.
    pub name: String,
    /// The position, with rotation.
    pub pos: PointWithDeg,
    /// Width and height.
    pub size: Size,
    /// The collision groups the object belongs to.
    pub masks: Vec<usize>,
    /// The outline.
    pub shape: CustomShape,
}

/// What an immovable object is, as plain values.
pub struct StaticModel {
    pub z_index: u8,
    pub id: Seq<char>,
    pub name: Seq<char>,
    pub pos: PointWithDeg,
    pub size: Size,
    pub masks: Seq<usize>,
    pub shape: ShapeModel,
}

impl View for StaticObject {
    type V = StaticModel;

    open spec fn view(&self) -> StaticModel {
        StaticModel {
            z_index: self.z_index,
            id: self.id@,
            name: self.name@,
            pos: self.pos,
            size: self.size,
            masks: self.masks@,
            shape: self.shape@,
        }
    }
}

impl Clone for StaticObject {
    fn clone(&self) -> (c: Self)
        ensures
            c@ == self@,
    {
        StaticObject {
            z_index: self.z_index,
            id: self.id.clone(),
            name: self.name.clone(),
            pos: self.pos,
            size: self.size,
            masks: copy_masks(&self.masks),
            shape: self.shape.clone(),
        }
    }
}

impl StaticObject {
    /// Makes an immovable object with a fresh identifier. Without `masks`
    /// the object belongs to no collision group.
    pub fn new(
        z_index: u8,
        name: String,
        pos: PointWithDeg,
        size: Size,
        masks: Option<Vec<usize>>,
        shape: CustomShape,
    ) -> (obj: Self)
        ensures
            is_random_id(obj@.id),
            obj@.z_index == z_index,
            obj@.name == name@,
            obj@.pos == pos,
            obj@.size == size,
            obj@.masks == (match masks {
                Some(m) => m@,
                None => Seq::<usize>::empty(),
            }),
            obj@.shape == shape@,
    {
        let id = gen_id();
        let masks = match masks {
            Some(m) => m,
            None => Vec::new(),
        };
        Self { z_index, id, name, pos, size, masks, shape }
    }
}

impl ZIndexTrait for StaticObject {
    open spec fn spec_z_index(&self) -> u8 {
        self.z_index
    }

    fn get_z_index(&self) -> (z: u8) {
        self.z_index
    }
}

impl IdentifiableTrait for StaticObject {
    open spec fn spec_id(&self) -> Seq<char> {
        self.id@
    }

    fn get_id(&self) -> (id: String) {
        self.id.clone()
    }
}

impl NamedTrait for StaticObject {
    open spec fn spec_name(&self) -> Seq<char> {
        self.name@
    }

    fn get_name(&self) -> (name: String) {
        self.name.clone()
    }
}

impl MasksTrait for StaticObject {
    open spec fn spec_masks(&self) -> Seq<usize> {
        self.masks@
    }

    fn get_masks(&self) -> (masks: Vec<usize>) {
        copy_masks(&self.masks)
    }
}

impl SizeTrait for StaticObject {
    open spec fn spec_size(&self) -> Size {
        self.size
    }

    fn get_size(&self) -> (size: Size) {
        self.size
    }
}

impl PointTrait for StaticObject {
    open spec fn spec_pos(&self) -> PointWithDeg {
        self.pos
    }

    fn get_pos(&self) -> (pos: PointWithDeg) {
        self.pos
    }
}

impl ShapeTrait for StaticObject {
    open spec fn spec_shape(&self) -> ShapeModel {
        self.shape@
    }

    fn get_shape(&self) -> (shape: CustomShape) {
        self.shape.clone()
    }
}

impl Object for StaticObject {
    fn set_pos(self, pos: PointWithDeg) {
        let mut obj = self;
        obj.pos = pos;
    }

    fn set_size(self, size: Size) {
        let mut obj = self;
        obj.size = size;
    }
}

/// An object that moves: it has a velocity and is stopped by obstacles.
#[derive(Debug)]
pub struct AnimatedObject {
    /// The draw layer.
    pub z_index: u8,
    /// The unique identifier, drawn when the object is made.
    pub id: String,
    /// The display name.
    pub name: String,
    /// The position, with rotation.
    pub pos: PointWithDeg,
    /// Width and height.
    pub size: Size,
    /// The collision groups the object belongs to.
    pub masks: Vec<usize>,
    /// The speed per second along each axis.
    pub velocity: Velocity,
    /// The outline.
    pub shape: CustomShape,
}

/// What a movable object is, as plain values.
pub struct AnimatedModel {
    pub z_index: u8,
    pub id: Seq<char>,
    pub name: Seq<char>,
    pub pos: PointWithDeg,
    pub size: Size,
    pub masks: Seq<usize>,
    pub velocity: Velocity,
    pub shape: ShapeModel,
}

impl View for AnimatedObject {
    type V = AnimatedModel;

    open spec fn view(&self) -> AnimatedModel {
        AnimatedModel {
            z_index: self.z_index,
            id: self.id@,
            name: self.name@,
            pos: self.pos,
            size: self.size,
            masks: self.masks@,
            velocity: self.velocity,
            shape: self.shape@,
        }
    }
}

impl Clone for AnimatedObject {
    fn clone(&self) -> (c: Self)
        ensures
            c@ == self@,
    {
        AnimatedObject {
            z_index: self.z_index,
            id: self.id.clone(),
            name: self.name.clone(),
            pos: self.pos,
            size: self.size,
            masks: copy_masks(&self.masks),
            velocity: self.velocity,
            shape: self.shape.clone(),
        }
    }
}

/// The identifier of an object that was made without drawing one: the nil
/// identifier, all of whose digits are zero.
pub open spec fn nil_id() -> Seq<char> {
    "00000000-0000-0000-0000-000000000000"@
}

impl Default for AnimatedObject {
    /// A movable object at rest at the origin, without extent, name or
    /// groups, in layer 0, with the default outline and the nil identifier.
    fn default() -> (obj: Self)
        ensures
            obj@.z_index == 0,
            obj@.id == nil_id(),
            obj@.name == Seq::<char>::empty(),
            obj@.pos == (PointWithDeg { x: 0, y: 0, deg: 0 }),
            obj@.size == (Size { x: 0, y: 0 }),
            obj@.masks == Seq::<usize>::empty(),
            obj@.velocity == (Velocity { x: 0, y: 0 }),
            obj@.shape.points == default_points(),
            obj@.shape.variant == ShapeKind::Rectangle,
    {
        Self {
            z_index: 0,
            id: "00000000-0000-0000-0000-000000000000".to_owned(),
            name: String::new(),
            pos: PointWithDeg { x: 0, y: 0, deg: 0 },
            size: Size { x: 0, y: 0 },
            masks: Vec::new(),
            velocity: Velocity { x: 0, y: 0 },
            shape: CustomShape::default(),
        }
    }
}

impl AnimatedObject {
    /// Makes a movable object with a fresh identifier. Without `masks` the
    /// object belongs to no collision group.
    pub fn new(
        z_index: u8,
        name: String,
        pos: PointWithDeg,
        size: Size,
        velocity: Velocity,
        masks: Option<Vec<usize>>,
        shape: CustomShape,
    ) -> (obj: Self)
        ensures
            is_random_id(obj@.id),
            obj@.z_index == z_index,
            obj@.name == name@,
            obj@.pos == pos,
            obj@.size == size,
            obj@.velocity == velocity,
            obj@.masks == (match masks {
                Some(m) => m@,
                None => Seq::<usize>::empty(),
            }),
            obj@.shape == shape@,
    {
        let id = gen_id();
        let masks = match masks {
            Some(m) => m,
            None => Vec::new(),
        };
        Self { z_index, id, name, pos, size, masks, velocity, shape }
    }
}

impl ZIndexTrait for AnimatedObject {
    open spec fn spec_z_index(&self) -> u8 {
        self.z_index
    }

    fn get_z_index(&self) -> (z: u8) {
        self.z_index
    }
}

impl IdentifiableTrait for AnimatedObject {
    open spec fn spec_id(&self) -> Seq<char> {
        self.id@
    }

    fn get_id(&self) -> (id: String) {
        self.id.clone()
    }
}

impl NamedTrait for AnimatedObject {
    open spec fn spec_name(&self) -> Seq<char> {
        self.name@
    }

    fn get_name(&self) -> (name: String) {
        self.name.clone()
    }
}

impl MasksTrait for AnimatedObject {
    open spec fn spec_masks(&self) -> Seq<usize> {
        self.masks@
    }

    fn get_masks(&self) -> (masks: Vec<usize>) {
        copy_masks(&self.masks)
    }
}

impl VelocityTrait for AnimatedObject {
    open spec fn spec_velocity(&self) -> Velocity {
        self.velocity
    }

    fn get_velocity(&self) -> (velocity: Velocity) {
        self.velocity
    }
}

impl SizeTrait for AnimatedObject {
    open spec fn spec_size(&self) -> Size {
        self.size
    }

    fn get_size(&self) -> (size: Size) {
        self.size
    }
}

impl PointTrait for AnimatedObject {
    open spec fn spec_pos(&self) -> PointWithDeg {
        self.pos
    }

    fn get_pos(&self) -> (pos: PointWithDeg) {
        self.pos
    }
}

impl ShapeTrait for AnimatedObject {
    open spec fn spec_shape(&self) -> ShapeModel {
        self.shape@
    }

    fn get_shape(&self) -> (shape: CustomShape) {
        self.shape.clone()
    }
}

impl Object for AnimatedObject {
    fn set_pos(self, pos: PointWithDeg) {
        let mut obj = self;
        obj.pos = pos;
    }

    fn set_size(self, size: Size) {
        let mut obj = self;
        obj.size = size;
    }
}

impl AnimatedObject {
    /// Whether one member of a collision group is an obstacle for this
    /// object placed at `new_point`.
    fn blocked_by(&self, state: &GlobalState, member: &String, new_point: &PointWithDeg) -> (hit: bool)
        ensures
            hit == (member@ != self.id@ && obstacle_at(state@, member@, *new_point, self.size)),
    {
        if *member == self.id {
            return false;
        }
        if let Some(other) = state.get_static_object(member.as_str()) {
            if boxes_overlap(new_point, &self.size, &other.pos, &other.size) {
                return true;
            }
        }
        if let Some(other) = state.get_animated_object(member.as_str()) {
            if boxes_overlap(new_point, &self.size, &other.pos, &other.size) {
                return true;
            }
        }
        false
    }
}

impl AnimatedObject {
    /// Moves the object as `move_object` does, where the end of its full step
    /// is a representable position; where it is not, the object stays as it
    /// is and there is no answer.
    pub fn try_move(&mut self, state: &GlobalState, delta_time: i64) -> (r: Option<bool>)
        requires
            state@.wf(),
        ensures
            final(self)@ == (AnimatedModel {
                pos: final(self).pos,
                velocity: final(self).velocity,
                ..old(self)@
            }),
            match r {
                Some(blocked) => can_move(old(self).pos, old(self).velocity, delta_time as int)
                    && resolved(
                    state@,
                    old(self).id@,
                    old(self).size,
                    old(self).pos,
                    old(self).velocity,
                    delta_time as int,
                    blocked,
                    final(self).pos,
                    final(self).velocity,
                ),
                None => !can_move(old(self).pos, old(self).velocity, delta_time as int)
                    && final(self).pos == old(self).pos && final(self).velocity == old(self).velocity,
            },
    {
        if is_movable(&self.pos, &self.velocity, delta_time) {
            Some(self.move_object(state, delta_time))
        } else {
            None
        }
    }
}

impl CollisionTrait for AnimatedObject {
    fn check_collision(&self, state: &GlobalState, new_point: PointWithDeg) -> (hit: bool) {
        let mut row: usize = 1;
        while row <= MASK_ROWS
            invariant
                1 <= row <= 16,
                state@.wf(),
                forall|g: int, i: int|
                    0 <= g < row - 1 && 0 <= i < state@.masks[g].len() ==> !#[trigger] member_blocks(
                        state@,
                        g,
                        i,
                        self.id@,
                        new_point,
                        self.size,
                    ),
            decreases 16 - row,
        {
            let members = match state.get_mask_row(row) {
                Ok(members) => members,
                Err(_) => Vec::new(),
            };
            let mut i: usize = 0;
            while i < members.len()
                invariant
                    1 <= row <= 15,
                    i <= members.len(),
                    state@.wf(),
                    members.deep_view() == state@.masks[row - 1],
                    forall|k: int|
                        0 <= k < i ==> !#[trigger] member_blocks(state@, row - 1, k, self.id@, new_point, self.size),
                decreases members.len() - i,
            {
                assert(members.deep_view()[i as int] == members@[i as int]@);
                if self.blocked_by(state, &members[i], &new_point) {
                    assert(member_blocks(state@, row - 1, i as int, self.id@, new_point, self.size));
                    return true;
                }
                i += 1;
            }
            row += 1;
        }
        false
    }

    fn move_object(&mut self, state: &GlobalState, delta_time: i64) -> (blocked: bool)
        ensures
            final(self)@ == (AnimatedModel {
                pos: final(self).pos,
                velocity: final(self).velocity,
                ..old(self)@
            }),
    {
        let dx: i128 = fx_product(self.velocity.x, delta_time);
        let dy: i128 = fx_product(self.velocity.y, delta_time);
        let mut k: i64 = 10;
        while k >= 1
            invariant
                0 <= k <= 10,
                state@.wf(),
                *self == *old(self),
                can_move(self.pos, self.velocity, delta_time as int),
                dx == fx_mul(self.velocity.x as int, delta_time as int),
                dy == fx_mul(self.velocity.y as int, delta_time as int),
                free_step_from(state@, self.id@, self.pos, self.size, self.velocity, delta_time as int, 10)
                    == free_step_from(
                    state@,
                    self.id@,
                    self.pos,
                    self.size,
                    self.velocity,
                    delta_time as int,
                    k as int,
                ),
            decreases k,
        {
            let factor: i64 = 100 * k;
            proof {
                lemma_candidate_in_range(self.pos, self.velocity, delta_time as int, k as int);
                lemma_fx_mul_shrinks(self.velocity.x as int, factor as int);
                lemma_fx_mul_shrinks(self.velocity.y as int, factor as int);
            }
            let new_pos = PointWithDeg {
                x: (self.pos.x as i128 + fx_product_wide(dx, factor)) as i64,
                y: (self.pos.y as i128 + fx_product_wide(dy, factor)) as i64,
                deg: self.pos.deg,
            };
            assert(new_pos == candidate(self.pos, self.velocity, delta_time as int, step_factor(k as int)));
            if !self.check_collision(state, new_pos) {
                self.pos = new_pos;
                self.velocity = self.velocity.scale(factor);
                return false;
            }
            k -= 1;
        }
        true
    }
}

} // verus!
