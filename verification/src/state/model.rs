//! The registry as a mathematical value, and what each operation does to it.

use vstd::prelude::*;
use crate::engine::structures::{AnimatedModel, StaticModel};
use crate::state::id_list::{empty_table, without};

verus! {

/// The number of collision groups; they are numbered from 1.
pub const MASK_ROWS: usize = 15;

/// The number of draw layers; they are numbered from 0.
pub const Z_INDEX_ROWS: usize = 256;

/// Whether `row` is the number of a collision group.
pub open spec fn valid_mask(row: int) -> bool {
    1 <= row <= MASK_ROWS
}

/// Whether `row` is the number of a draw layer.
pub open spec fn valid_z_index(row: int) -> bool {
    0 <= row < Z_INDEX_ROWS
}

/// Whether every entry of `rows` is the number of a collision group.
pub open spec fn valid_masks(rows: Seq<usize>) -> bool {
    forall|i: int| 0 <= i < rows.len() ==> valid_mask(#[trigger] rows[i] as int)
}

/// The position of the first entry of `rows` that is no collision group, or
/// the length of `rows` when there is none.
pub open spec fn first_invalid(rows: Seq<usize>) -> int
    decreases rows.len(),
{
    if rows.len() == 0 {
        0
    } else if !valid_mask(rows[0] as int) {
        0
    } else {
        1 + first_invalid(rows.drop_first())
    }
}

/// The registry's contents: who is in which collision group and draw layer,
/// which identifiers are known in each category, and the objects by identifier.
pub struct RegistryModel {
    /// The members of the collision groups; group `g` is entry `g - 1`.
    pub masks: Seq<Seq<Seq<char>>>,
    /// The immovable objects of each draw layer.
    pub s_z_index: Seq<Seq<Seq<char>>>,
    /// The movable objects of each draw layer.
    pub a_z_index: Seq<Seq<Seq<char>>>,
    /// The identifiers of the immovable objects.
    pub s_identifiables: Seq<Seq<char>>,
    /// The identifiers of the movable objects.
    pub a_identifiables: Seq<Seq<char>>,
    /// The immovable objects.
    pub s_map: Map<Seq<char>, StaticModel>,
    /// The movable objects.
    pub a_map: Map<Seq<char>, AnimatedModel>,
}

impl RegistryModel {
    /// The registry has its 15 groups and its 256 layers per category.
    pub open spec fn wf(self) -> bool {
        &&& self.masks.len() == MASK_ROWS
        &&& self.s_z_index.len() == Z_INDEX_ROWS
        &&& self.a_z_index.len() == Z_INDEX_ROWS
    }

    /// The registry that holds nothing.
    pub open spec fn empty() -> RegistryModel {
        RegistryModel {
            masks: empty_table(MASK_ROWS as nat),
            s_z_index: empty_table(Z_INDEX_ROWS as nat),
            a_z_index: empty_table(Z_INDEX_ROWS as nat),
            s_identifiables: Seq::empty(),
            a_identifiables: Seq::empty(),
            s_map: Map::empty(),
            a_map: Map::empty(),
        }
    }

    /// The members of collision group `row`.
    pub open spec fn mask_row(self, row: int) -> Seq<Seq<char>> {
        self.masks[row - 1]
    }

    /// `id` joins collision group `row` as its last member.
    pub open spec fn append_mask(self, row: int, id: Seq<char>) -> RegistryModel {
        RegistryModel { masks: self.masks.update(row - 1, self.masks[row - 1].push(id)), ..self }
    }

    /// Every occurrence of `id` leaves collision group `row`.
    pub open spec fn remove_mask(self, row: int, id: Seq<char>) -> RegistryModel {
        RegistryModel { masks: self.masks.update(row - 1, without(self.masks[row - 1], id)), ..self }
    }

    /// `id` joins draw layer `row` of the immovable objects as its last member.
    pub open spec fn append_static_z_index(self, row: int, id: Seq<char>) -> RegistryModel {
        RegistryModel { s_z_index: self.s_z_index.update(row, self.s_z_index[row].push(id)), ..self }
    }

    /// `id` joins draw layer `row` of the movable objects as its last member.
    pub open spec fn append_animated_z_index(self, row: int, id: Seq<char>) -> RegistryModel {
        RegistryModel { a_z_index: self.a_z_index.update(row, self.a_z_index[row].push(id)), ..self }
    }

    /// Every occurrence of `id` leaves draw layer `row` of the immovable objects.
    pub open spec fn remove_static_z_index(self, row: int, id: Seq<char>) -> RegistryModel {
        RegistryModel { s_z_index: self.s_z_index.update(row, without(self.s_z_index[row], id)), ..self }
    }

    /// Every occurrence of `id` leaves draw layer `row` of the movable objects.
    pub open spec fn remove_animated_z_index(self, row: int, id: Seq<char>) -> RegistryModel {
        RegistryModel { a_z_index: self.a_z_index.update(row, without(self.a_z_index[row], id)), ..self }
    }

    /// `id` is listed last among the immovable objects.
    pub open spec fn append_static_identifiable(self, id: Seq<char>) -> RegistryModel {
        RegistryModel { s_identifiables: self.s_identifiables.push(id), ..self }
    }

    /// `id` is listed last among the movable objects.
    pub open spec fn append_animated_identifiable(self, id: Seq<char>) -> RegistryModel {
        RegistryModel { a_identifiables: self.a_identifiables.push(id), ..self }
    }

    /// Every occurrence of `id` leaves the list of the immovable objects.
    pub open spec fn remove_static_identifiable(self, id: Seq<char>) -> RegistryModel {
        RegistryModel { s_identifiables: without(self.s_identifiables, id), ..self }
    }

    /// Every occurrence of `id` leaves the list of the movable objects.
    pub open spec fn remove_animated_identifiable(self, id: Seq<char>) -> RegistryModel {
        RegistryModel { a_identifiables: without(self.a_identifiables, id), ..self }
    }

    /// The first object stored under a key stays: a later one is ignored.
    pub open spec fn insert_s_map(self, key: Seq<char>, value: StaticModel) -> RegistryModel {
        if self.s_map.contains_key(key) {
            self
        } else {
            RegistryModel { s_map: self.s_map.insert(key, value), ..self }
        }
    }

    /// The first object stored under a key stays: a later one is ignored.
    pub open spec fn insert_a_map(self, key: Seq<char>, value: AnimatedModel) -> RegistryModel {
        if self.a_map.contains_key(key) {
            self
        } else {
            RegistryModel { a_map: self.a_map.insert(key, value), ..self }
        }
    }

    /// The immovable object stored under `key`, if any, is forgotten.
    pub open spec fn remove_s_map(self, key: Seq<char>) -> RegistryModel {
        RegistryModel { s_map: self.s_map.remove(key), ..self }
    }

    /// The movable object stored under `key`, if any, is forgotten.
    pub open spec fn remove_a_map(self, key: Seq<char>) -> RegistryModel {
        RegistryModel { a_map: self.a_map.remove(key), ..self }
    }

    /// The movable object stored under `key` is replaced; without one,
    /// nothing changes.
    pub open spec fn update_a_map(self, key: Seq<char>, value: AnimatedModel) -> RegistryModel {
        if self.a_map.contains_key(key) {
            RegistryModel { a_map: self.a_map.insert(key, value), ..self }
        } else {
            self
        }
    }

    /// `id` joins the groups listed in `rows`, one after the other.
    pub open spec fn append_masks(self, rows: Seq<usize>, id: Seq<char>) -> RegistryModel
        decreases rows.len(),
    {
        if rows.len() == 0 {
            self
        } else {
            self.append_masks(rows.drop_last(), id).append_mask(rows.last() as int, id)
        }
    }

    /// `id` leaves the groups listed in `rows`, one after the other.
    pub open spec fn remove_masks(self, rows: Seq<usize>, id: Seq<char>) -> RegistryModel
        decreases rows.len(),
    {
        if rows.len() == 0 {
            self
        } else {
            self.remove_masks(rows.drop_last(), id).remove_mask(rows.last() as int, id)
        }
    }

    /// Full registration of an immovable object: it joins its groups and its
    /// layer, its identifier is listed, and the object is stored. Where an
    /// immovable object is already stored under its identifier, nothing changes.
    pub open spec fn add_s_object(self, obj: StaticModel) -> RegistryModel {
        if self.s_map.contains_key(obj.id) {
            self
        } else {
            self.append_masks(obj.masks, obj.id).append_static_z_index(
                obj.z_index as int,
                obj.id,
            ).append_static_identifiable(obj.id).insert_s_map(obj.id, obj)
        }
    }

    /// Full registration of a movable object: it joins its groups and its
    /// layer, its identifier is listed, and the object is stored. Where a
    /// movable object is already stored under its identifier, nothing changes.
    pub open spec fn add_a_object(self, obj: AnimatedModel) -> RegistryModel {
        if self.a_map.contains_key(obj.id) {
            self
        } else {
            self.append_masks(obj.masks, obj.id).append_animated_z_index(
                obj.z_index as int,
                obj.id,
            ).append_animated_identifiable(obj.id).insert_a_map(obj.id, obj)
        }
    }

    /// Full deregistration of an immovable object.
    pub open spec fn remove_s_object(self, obj: StaticModel) -> RegistryModel {
        self.remove_masks(obj.masks, obj.id).remove_static_z_index(
            obj.z_index as int,
            obj.id,
        ).remove_static_identifiable(obj.id).remove_s_map(obj.id)
    }

    /// Full deregistration of a movable object.
    pub open spec fn remove_a_object(self, obj: AnimatedModel) -> RegistryModel {
        self.remove_masks(obj.masks, obj.id).remove_animated_z_index(
            obj.z_index as int,
            obj.id,
        ).remove_animated_identifiable(obj.id).remove_a_map(obj.id)
    }

    /// Whether `id` occurs in none of the groups listed in `rows`.
    pub open spec fn absent_from_masks(self, rows: Seq<usize>, id: Seq<char>) -> bool {
        forall|i: int| 0 <= i < rows.len() ==> !self.mask_row(#[trigger] rows[i] as int).contains(id)
    }
}

/// Where the entries before position `i` are groups and the entry at `i` is
/// not, `i` is the first invalid position.
pub proof fn lemma_first_invalid_at(rows: Seq<usize>, i: int)
    requires
        0 <= i < rows.len(),
        forall|j: int| 0 <= j < i ==> valid_mask(#[trigger] rows[j] as int),
        !valid_mask(rows[i] as int),
    ensures
        first_invalid(rows) == i,
        !valid_masks(rows),
    decreases i,
{
    if i > 0 {
        let rest = rows.drop_first();
        assert forall|j: int| 0 <= j < i - 1 implies valid_mask(#[trigger] rest[j] as int) by {
            assert(rest[j] == rows[j + 1]);
        }
        assert(rest[i - 1] == rows[i]);
        lemma_first_invalid_at(rest, i - 1);
        assert(valid_mask(rows[0] as int));
    }
}

} // verus!
