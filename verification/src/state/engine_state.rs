//! The registry itself: collision groups, draw layers, identifier lists and
//! the objects by identifier, for immovable and movable objects.
//!
//! A registry is an ordinary value that its user constructs and passes
//! along. Objects live inside it and are reached through their identifiers.

use vstd::prelude::*;
use vstd::hash_map::StringHashMap;
use crate::engine::structures::{AnimatedModel, AnimatedObject, StaticModel, StaticObject};
use crate::state::id_list::{
    ids_append, ids_copy, ids_remove, rows_append, rows_copy, rows_new, rows_remove,
};
use crate::state::model::{
    first_invalid, lemma_first_invalid_at, valid_mask, valid_masks, valid_z_index, RegistryModel,
    MASK_ROWS, Z_INDEX_ROWS,
};

verus! {

/// The two categories of registered objects.
#[derive(Clone, Copy, Debug, PartialEq, Eq, Structural)]
pub enum ObjectType {
    StaticObject,
    AnimatedObject,
}

/// What a lookup by identifier finds.
pub enum GlobalStateResult<'a> {
    /// An immovable object.
    StaticOjbect(&'a StaticObject),
    /// A movable object.
    Animatedbject(&'a AnimatedObject),
    /// No object.
    NotFound,
}

/// The text of the error for a collision group outside 1 to 15.
pub open spec fn mask_range_message() -> Seq<char> {
    "mask out of range, must be between 1 and 15"@
}

/// The text of the error for a draw layer outside 0 to 255.
pub open spec fn z_index_range_message() -> Seq<char> {
    "z-index out of range, must be between 0 and 255"@
}

/// The text of the error for a removal from a row that does not exist.
pub open spec fn remove_failed_message() -> Seq<char> {
    "Failed to remove masks from row"@
}

/// The text of the error for an immovable object that is not registered.
pub open spec fn static_missing_message() -> Seq<char> {
    "Failed to get static object"@
}

/// The text of the error for a movable object that is not registered.
pub open spec fn animated_missing_message() -> Seq<char> {
    "Failed to get animated object"@
}

fn mask_range_error() -> (e: String)
    ensures
        e@ == mask_range_message(),
{
    "mask out of range, must be between 1 and 15".to_owned()
}

fn z_index_range_error() -> (e: String)
    ensures
        e@ == z_index_range_message(),
{
    "z-index out of range, must be between 0 and 255".to_owned()
}

fn remove_failed_error() -> (e: String)
    ensures
        e@ == remove_failed_message(),
{
    "Failed to remove masks from row".to_owned()
}

/// The registry of all game objects.
pub struct GlobalState {
    masks: Vec<Vec<String>>,
    s_z_index: Vec<Vec<String>>,
    a_z_index: Vec<Vec<String>>,
    s_identifiables: Vec<String>,
    a_identifiables: Vec<String>,
    s_map: StringHashMap<StaticObject>,
    a_map: StringHashMap<AnimatedObject>,
}

impl View for GlobalState {
    type V = RegistryModel;

    closed spec fn view(&self) -> RegistryModel {
        RegistryModel {
            masks: self.masks.deep_view(),
            s_z_index: self.s_z_index.deep_view(),
            a_z_index: self.a_z_index.deep_view(),
            s_identifiables: self.s_identifiables.deep_view(),
            a_identifiables: self.a_identifiables.deep_view(),
            s_map: self.s_map@.map_values(|o: StaticObject| o@),
            a_map: self.a_map@.map_values(|o: AnimatedObject| o@),
        }
    }
}

impl Default for GlobalState {
    fn default() -> (state: Self)
        ensures
            state@ == RegistryModel::empty(),
            state@.wf(),
    {
        GlobalState::new()
    }
}

impl GlobalState {
    /// An empty registry.
    pub fn new() -> (state: Self)
        ensures
            state@ == RegistryModel::empty(),
            state@.wf(),
    {
        let state = GlobalState {
            masks: rows_new(MASK_ROWS),
            s_z_index: rows_new(Z_INDEX_ROWS),
            a_z_index: rows_new(Z_INDEX_ROWS),
            s_identifiables: Vec::new(),
            a_identifiables: Vec::new(),
            s_map: StringHashMap::new(),
            a_map: StringHashMap::new(),
        };
        assert(state.s_identifiables.deep_view() =~= Seq::<Seq<char>>::empty());
        assert(state.a_identifiables.deep_view() =~= Seq::<Seq<char>>::empty());
        assert(state.s_map@.map_values(|o: StaticObject| o@) =~= Map::<Seq<char>, StaticModel>::empty());
        assert(state.a_map@.map_values(|o: AnimatedObject| o@) =~= Map::<Seq<char>, AnimatedModel>::empty());
        state
    }

    /// Appends `item` to collision group `mask`.
    pub fn append_mask(&mut self, mask: usize, item: String) -> (r: Result<(), String>)
        requires
            old(self)@.wf(),
        ensures
            final(self)@.wf(),
            match r {
                Ok(_) => valid_mask(mask as int) && final(self)@ == old(self)@.append_mask(mask as int, item@),
                Err(e) => !valid_mask(mask as int) && final(self)@ == old(self)@ && e@ == mask_range_message(),
            },
    {
        if mask < 1 || mask > MASK_ROWS {
            return Err(mask_range_error());
        }
        rows_append(&mut self.masks, mask - 1, item);
        Ok(())
    }

    /// Removes every occurrence of `id` from collision group `row`.
    pub fn remove_mask(&mut self, row: usize, id: String) -> (r: Result<(), String>)
        requires
            old(self)@.wf(),
        ensures
            final(self)@.wf(),
            match r {
                Ok(_) => valid_mask(row as int) && final(self)@ == old(self)@.remove_mask(row as int, id@),
                Err(e) => !valid_mask(row as int) && final(self)@ == old(self)@ && e@ == mask_range_message(),
            },
    {
        if row < 1 || row > MASK_ROWS {
            return Err(mask_range_error());
        }
        rows_remove(&mut self.masks, row - 1, &id);
        Ok(())
    }

    /// Appends `id` to draw layer `row` of the immovable objects.
    pub fn append_static_z_index(&mut self, row: usize, id: String) -> (r: Result<(), String>)
        requires
            old(self)@.wf(),
        ensures
            final(self)@.wf(),
            match r {
                Ok(_) => valid_z_index(row as int) && final(self)@ == old(self)@.append_static_z_index(
                    row as int,
                    id@,
                ),
                Err(e) => !valid_z_index(row as int) && final(self)@ == old(self)@ && e@
                    == z_index_range_message(),
            },
    {
        if row >= Z_INDEX_ROWS {
            return Err(z_index_range_error());
        }
        rows_append(&mut self.s_z_index, row, id);
        Ok(())
    }

    /// Appends `id` to draw layer `row` of the movable objects.
    pub fn append_animated_z_index(&mut self, row: usize, id: String) -> (r: Result<(), String>)
        requires
            old(self)@.wf(),
        ensures
            final(self)@.wf(),
            match r {
                Ok(_) => valid_z_index(row as int) && final(self)@ == old(self)@.append_animated_z_index(
                    row as int,
                    id@,
                ),
                Err(e) => !valid_z_index(row as int) && final(self)@ == old(self)@ && e@
                    == z_index_range_message(),
            },
    {
        if row >= Z_INDEX_ROWS {
            return Err(z_index_range_error());
        }
        rows_append(&mut self.a_z_index, row, id);
        Ok(())
    }

    /// Removes every occurrence of `id` from draw layer `row` of the immovable objects.
    pub fn remove_static_z_index(&mut self, row: usize, id: String) -> (r: Result<(), String>)
        requires
            old(self)@.wf(),
        ensures
            final(self)@.wf(),
            match r {
                Ok(_) => valid_z_index(row as int) && final(self)@ == old(self)@.remove_static_z_index(
                    row as int,
                    id@,
                ),
                Err(e) => !valid_z_index(row as int) && final(self)@ == old(self)@ && e@
                    == z_index_range_message(),
            },
    {
        if row >= Z_INDEX_ROWS {
            return Err(z_index_range_error());
        }
        rows_remove(&mut self.s_z_index, row, &id);
        Ok(())
    }

    /// Removes every occurrence of `id` from draw layer `row` of the movable objects.
    pub fn remove_animated_z_index(&mut self, row: usize, id: String) -> (r: Result<(), String>)
        requires
            old(self)@.wf(),
        ensures
            final(self)@.wf(),
            match r {
                Ok(_) => valid_z_index(row as int) && final(self)@ == old(self)@.remove_animated_z_index(
                    row as int,
                    id@,
                ),
                Err(e) => !valid_z_index(row as int) && final(self)@ == old(self)@ && e@
                    == z_index_range_message(),
            },
    {
        if row >= Z_INDEX_ROWS {
            return Err(z_index_range_error());
        }
        rows_remove(&mut self.a_z_index, row, &id);
        Ok(())
    }

    /// Appends `id` to the identifiers of the immovable objects.
    pub fn append_static_identifiable(&mut self, id: String)
        ensures
            final(self)@ == old(self)@.append_static_identifiable(id@),
    {
        ids_append(&mut self.s_identifiables, id);
    }

    /// Appends `id` to the identifiers of the movable objects.
    pub fn append_animated_identifiable(&mut self, id: String)
        ensures
            final(self)@ == old(self)@.append_animated_identifiable(id@),
    {
        ids_append(&mut self.a_identifiables, id);
    }

    /// Removes every occurrence of `id` from the identifiers of the immovable objects.
    pub fn remove_static_identifiable(&mut self, id: String)
        ensures
            final(self)@ == old(self)@.remove_static_identifiable(id@),
    {
        ids_remove(&mut self.s_identifiables, &id);
    }

    /// Removes every occurrence of `id` from the identifiers of the movable objects.
    pub fn remove_animated_identifiable(&mut self, id: String)
        ensures
            final(self)@ == old(self)@.remove_animated_identifiable(id@),
    {
        ids_remove(&mut self.a_identifiables, &id);
    }

    /// Stores an immovable object under `key`, unless the key is taken.
    pub fn insert_s_map(&mut self, key: String, value: StaticObject)
        ensures
            final(self)@ == old(self)@.insert_s_map(key@, value@),
    {
        if self.s_map.contains_key(key.as_str()) {
            return ;
        }
        let ghost before = self.s_map@;
        self.s_map.insert(key, value);
        assert(self.s_map@.map_values(|o: StaticObject| o@) =~= before.map_values(
            |o: StaticObject| o@,
        ).insert(key@, value@));
    }

    /// Stores a movable object under `key`, unless the key is taken.
    pub fn insert_a_map(&mut self, key: String, value: AnimatedObject)
        ensures
            final(self)@ == old(self)@.insert_a_map(key@, value@),
    {
        if self.a_map.contains_key(key.as_str()) {
            return ;
        }
        let ghost before = self.a_map@;
        self.a_map.insert(key, value);
        assert(self.a_map@.map_values(|o: AnimatedObject| o@) =~= before.map_values(
            |o: AnimatedObject| o@,
        ).insert(key@, value@));
    }

    /// Replaces the movable object stored under `key`; without one, nothing changes.
    pub fn update_a_map(&mut self, key: String, value: AnimatedObject)
        ensures
            final(self)@ == old(self)@.update_a_map(key@, value@),
    {
        if !self.a_map.contains_key(key.as_str()) {
            return ;
        }
        let ghost before = self.a_map@;
        self.a_map.insert(key, value);
        assert(self.a_map@.map_values(|o: AnimatedObject| o@) =~= before.map_values(
            |o: AnimatedObject| o@,
        ).insert(key@, value@));
    }

    /// Forgets the immovable object stored under `key`.
    pub fn remove_s_map(&mut self, key: String)
        ensures
            final(self)@ == old(self)@.remove_s_map(key@),
    {
        let ghost before = self.s_map@;
        self.s_map.remove(key.as_str());
        assert(self.s_map@.map_values(|o: StaticObject| o@) =~= before.map_values(
            |o: StaticObject| o@,
        ).remove(key@));
    }

    /// Forgets the movable object stored under `key`.
    pub fn remove_a_map(&mut self, key: String)
        ensures
            final(self)@ == old(self)@.remove_a_map(key@),
    {
        let ghost before = self.a_map@;
        self.a_map.remove(key.as_str());
        assert(self.a_map@.map_values(|o: AnimatedObject| o@) =~= before.map_values(
            |o: AnimatedObject| o@,
        ).remove(key@));
    }

    /// The members of collision group `row`, in the order they joined.
    pub fn get_mask_row(&self, row: usize) -> (r: Result<Vec<String>, String>)
        requires
            self@.wf(),
        ensures
            match r {
                Ok(list) => valid_mask(row as int) && list.deep_view() == self@.mask_row(row as int),
                Err(e) => !valid_mask(row as int) && e@ == mask_range_message(),
            },
    {
        if row < 1 || row > MASK_ROWS {
            return Err(mask_range_error());
        }
        Ok(rows_copy(&self.masks, row - 1))
    }

    /// The immovable objects of draw layer `row`, in the order they joined.
    pub fn get_static_z_index_row(&self, row: usize) -> (r: Result<Vec<String>, String>)
        requires
            self@.wf(),
        ensures
            match r {
                Ok(list) => valid_z_index(row as int) && list.deep_view() == self@.s_z_index[row as int],
                Err(e) => !valid_z_index(row as int) && e@ == z_index_range_message(),
            },
    {
        if row >= Z_INDEX_ROWS {
            return Err(z_index_range_error());
        }
        Ok(rows_copy(&self.s_z_index, row))
    }

    /// The movable objects of draw layer `row`, in the order they joined.
    pub fn get_animated_z_index_row(&self, row: usize) -> (r: Result<Vec<String>, String>)
        requires
            self@.wf(),
        ensures
            match r {
                Ok(list) => valid_z_index(row as int) && list.deep_view() == self@.a_z_index[row as int],
                Err(e) => !valid_z_index(row as int) && e@ == z_index_range_message(),
            },
    {
        if row >= Z_INDEX_ROWS {
            return Err(z_index_range_error());
        }
        Ok(rows_copy(&self.a_z_index, row))
    }

    /// The identifiers of the immovable objects, in the order they were added.
    pub fn get_static_identifiables(&self) -> (list: Vec<String>)
        ensures
            list.deep_view() == self@.s_identifiables,
    {
        ids_copy(&self.s_identifiables)
    }

    /// The identifiers of the movable objects, in the order they were added.
    pub fn get_animated_identifiables(&self) -> (list: Vec<String>)
        ensures
            list.deep_view() == self@.a_identifiables,
    {
        ids_copy(&self.a_identifiables)
    }

    /// The immovable object stored under `key`.
    pub fn get_static_object(&self, key: &str) -> (r: Option<&StaticObject>)
        ensures
            match r {
                Some(obj) => self@.s_map.contains_key(key@) && obj@ == self@.s_map[key@],
                None => !self@.s_map.contains_key(key@),
            },
    {
        self.s_map.get(key)
    }

    /// The movable object stored under `key`.
    pub fn get_animated_object(&self, key: &str) -> (r: Option<&AnimatedObject>)
        ensures
            match r {
                Some(obj) => self@.a_map.contains_key(key@) && obj@ == self@.a_map[key@],
                None => !self@.a_map.contains_key(key@),
            },
    {
        self.a_map.get(key)
    }

    /// The object stored under `key`, looked for among the immovable objects
    /// first and among the movable ones after that.
    pub fn find_object(&self, key: &str) -> (r: GlobalStateResult<'_>)
        ensures
            match r {
                GlobalStateResult::StaticOjbect(obj) => self@.s_map.contains_key(key@) && obj@
                    == self@.s_map[key@],
                GlobalStateResult::Animatedbject(obj) => !self@.s_map.contains_key(key@)
                    && self@.a_map.contains_key(key@) && obj@ == self@.a_map[key@],
                GlobalStateResult::NotFound => !self@.s_map.contains_key(key@)
                    && !self@.a_map.contains_key(key@),
            },
    {
        match self.s_map.get(key) {
            Some(obj) => GlobalStateResult::StaticOjbect(obj),
            None => match self.a_map.get(key) {
                Some(obj) => GlobalStateResult::Animatedbject(obj),
                None => GlobalStateResult::NotFound,
            },
        }
    }
}

/// The members of collision group `row` of `state`.
pub fn get_mask_row(state: &GlobalState, row: usize) -> (r: Result<Vec<String>, String>)
    requires
        state@.wf(),
    ensures
        match r {
            Ok(list) => valid_mask(row as int) && list.deep_view() == state@.mask_row(row as int),
            Err(e) => !valid_mask(row as int) && e@ == mask_range_message(),
        },
{
    state.get_mask_row(row)
}

/// The immovable objects of draw layer `row` of `state`.
pub fn get_static_z_index_row(state: &GlobalState, row: usize) -> (r: Result<Vec<String>, String>)
    requires
        state@.wf(),
    ensures
        match r {
            Ok(list) => valid_z_index(row as int) && list.deep_view() == state@.s_z_index[row as int],
            Err(e) => !valid_z_index(row as int) && e@ == z_index_range_message(),
        },
{
    state.get_static_z_index_row(row)
}

/// The movable objects of draw layer `row` of `state`.
pub fn get_animated_z_index_row(state: &GlobalState, row: usize) -> (r: Result<Vec<String>, String>)
    requires
        state@.wf(),
    ensures
        match r {
            Ok(list) => valid_z_index(row as int) && list.deep_view() == state@.a_z_index[row as int],
            Err(e) => !valid_z_index(row as int) && e@ == z_index_range_message(),
        },
{
    state.get_animated_z_index_row(row)
}

/// The identifiers of the immovable objects of `state`.
pub fn get_static_identifiable(state: &GlobalState) -> (r: Result<Vec<String>, String>)
    ensures
        match r {
            Ok(list) => list.deep_view() == state@.s_identifiables,
            Err(_) => false,
        },
{
    Ok(state.get_static_identifiables())
}

/// The identifiers of the movable objects of `state`.
pub fn get_animated_identifiable(state: &GlobalState) -> (r: Result<Vec<String>, String>)
    ensures
        match r {
            Ok(list) => list.deep_view() == state@.a_identifiables,
            Err(_) => false,
        },
{
    Ok(state.get_animated_identifiables())
}

/// The immovable object registered under `key`, or an error when there is none.
pub fn get_static_object<'a>(state: &'a GlobalState, key: &str) -> (r: Result<&'a StaticObject, String>)
    ensures
        match r {
            Ok(obj) => state@.s_map.contains_key(key@) && obj@ == state@.s_map[key@],
            Err(e) => !state@.s_map.contains_key(key@) && e@ == static_missing_message(),
        },
{
    match state.get_static_object(key) {
        Some(obj) => Ok(obj),
        None => Err("Failed to get static object".to_owned()),
    }
}

/// The movable object registered under `key`, or an error when there is none.
pub fn get_animated_object<'a>(state: &'a GlobalState, key: &str) -> (r: Result<
    &'a AnimatedObject,
    String,
>)
    ensures
        match r {
            Ok(obj) => state@.a_map.contains_key(key@) && obj@ == state@.a_map[key@],
            Err(e) => !state@.a_map.contains_key(key@) && e@ == animated_missing_message(),
        },
{
    match state.get_animated_object(key) {
        Some(obj) => Ok(obj),
        None => Err("Failed to get animated object".to_owned()),
    }
}

/// Appends `id` to collision group `row`; a group outside 1 to 15 is refused.
pub fn append_mask_to_row(state: &mut GlobalState, row: usize, id: String) -> (r: Result<(), String>)
    requires
        old(state)@.wf(),
    ensures
        final(state)@.wf(),
        match r {
            Ok(_) => valid_mask(row as int) && final(state)@ == old(state)@.append_mask(row as int, id@),
            Err(e) => !valid_mask(row as int) && final(state)@ == old(state)@ && e@
                == mask_range_message(),
        },
{
    state.append_mask(row, id)
}

/// Appends `id` to draw layer `row` of the immovable objects; a layer
/// outside 0 to 255 is refused.
pub fn append_static_id_to_z_index_row(state: &mut GlobalState, row: usize, id: String) -> (r: Result<
    (),
    String,
>)
    requires
        old(state)@.wf(),
    ensures
        final(state)@.wf(),
        match r {
            Ok(_) => valid_z_index(row as int) && final(state)@ == old(state)@.append_static_z_index(
                row as int,
                id@,
            ),
            Err(e) => !valid_z_index(row as int) && final(state)@ == old(state)@ && e@
                == z_index_range_message(),
        },
{
    state.append_static_z_index(row, id)
}

/// Appends `id` to draw layer `row` of the movable objects; a layer outside
/// 0 to 255 is refused.
pub fn append_animated_id_to_z_index_row(state: &mut GlobalState, row: usize, id: String) -> (r:
    Result<(), String>)
    requires
        old(state)@.wf(),
    ensures
        final(state)@.wf(),
        match r {
            Ok(_) => valid_z_index(row as int) && final(state)@
                == old(state)@.append_animated_z_index(row as int, id@),
            Err(e) => !valid_z_index(row as int) && final(state)@ == old(state)@ && e@
                == z_index_range_message(),
        },
{
    state.append_animated_z_index(row, id)
}

/// Appends `id` to the identifiers of the immovable objects.
pub fn append_static_identifiable(state: &mut GlobalState, id: String) -> (r: Result<(), String>)
    ensures
        r is Ok,
        final(state)@ == old(state)@.append_static_identifiable(id@),
{
    state.append_static_identifiable(id);
    Ok(())
}

/// Appends `id` to the identifiers of the movable objects.
pub fn append_animated_identifiable(state: &mut GlobalState, id: String) -> (r: Result<(), String>)
    ensures
        r is Ok,
        final(state)@ == old(state)@.append_animated_identifiable(id@),
{
    state.append_animated_identifiable(id);
    Ok(())
}

/// Stores the immovable object `obj` under `id`; if the identifier is taken,
/// the stored object stays and `obj` is dropped.
pub fn insert_static_object(state: &mut GlobalState, id: String, obj: StaticObject) -> (r: Result<
    (),
    String,
>)
    ensures
        r is Ok,
        final(state)@ == old(state)@.insert_s_map(id@, obj@),
{
    state.insert_s_map(id, obj);
    Ok(())
}

/// Stores the movable object `obj` under `id`; if the identifier is taken,
/// the stored object stays and `obj` is dropped.
pub fn insert_animated_object(state: &mut GlobalState, id: String, obj: AnimatedObject) -> (r: Result<
    (),
    String,
>)
    ensures
        r is Ok,
        final(state)@ == old(state)@.insert_a_map(id@, obj@),
{
    state.insert_a_map(id, obj);
    Ok(())
}

/// Removes every occurrence of `id` from collision group `row`; a group
/// outside 1 to 15 is refused.
pub fn remove_mask_from_row(state: &mut GlobalState, row: usize, id: String) -> (r: Result<(), String>)
    requires
        old(state)@.wf(),
    ensures
        final(state)@.wf(),
        match r {
            Ok(_) => valid_mask(row as int) && final(state)@ == old(state)@.remove_mask(row as int, id@),
            Err(e) => !valid_mask(row as int) && final(state)@ == old(state)@ && e@
                == remove_failed_message(),
        },
{
    match state.remove_mask(row, id) {
        Ok(_) => Ok(()),
        Err(_) => Err(remove_failed_error()),
    }
}

/// Removes every occurrence of `id` from draw layer `row` of the immovable
/// objects; a layer outside 0 to 255 is refused.
pub fn remove_static_z_index_from_row(state: &mut GlobalState, row: usize, id: String) -> (r: Result<
    (),
    String,
>)
    requires
        old(state)@.wf(),
    ensures
        final(state)@.wf(),
        match r {
            Ok(_) => valid_z_index(row as int) && final(state)@ == old(state)@.remove_static_z_index(
                row as int,
                id@,
            ),
            Err(e) => !valid_z_index(row as int) && final(state)@ == old(state)@ && e@
                == remove_failed_message(),
        },
{
    match state.remove_static_z_index(row, id) {
        Ok(_) => Ok(()),
        Err(_) => Err(remove_failed_error()),
    }
}

/// Removes every occurrence of `id` from draw layer `row` of the movable
/// objects; a layer outside 0 to 255 is refused.
pub fn remove_animated_z_index_from_row(state: &mut GlobalState, row: usize, id: String) -> (r: Result<
    (),
    String,
>)
    requires
        old(state)@.wf(),
    ensures
        final(state)@.wf(),
        match r {
            Ok(_) => valid_z_index(row as int) && final(state)@
                == old(state)@.remove_animated_z_index(row as int, id@),
            Err(e) => !valid_z_index(row as int) && final(state)@ == old(state)@ && e@
                == remove_failed_message(),
        },
{
    match state.remove_animated_z_index(row, id) {
        Ok(_) => Ok(()),
        Err(_) => Err(remove_failed_error()),
    }
}

/// Removes every occurrence of `id` from the identifiers of the immovable objects.
pub fn remove_static_identifiable(state: &mut GlobalState, id: String) -> (r: Result<(), String>)
    ensures
        r is Ok,
        final(state)@ == old(state)@.remove_static_identifiable(id@),
{
    state.remove_static_identifiable(id);
    Ok(())
}

/// Removes every occurrence of `id` from the identifiers of the movable objects.
pub fn remove_animated_identifiable(state: &mut GlobalState, id: String) -> (r: Result<(), String>)
    ensures
        r is Ok,
        final(state)@ == old(state)@.remove_animated_identifiable(id@),
{
    state.remove_animated_identifiable(id);
    Ok(())
}

/// Forgets the immovable object stored under `id`.
pub fn remove_static_object(state: &mut GlobalState, id: String) -> (r: Result<(), String>)
    ensures
        r is Ok,
        final(state)@ == old(state)@.remove_s_map(id@),
{
    state.remove_s_map(id);
    Ok(())
}

/// Forgets the movable object stored under `id`.
pub fn remove_animated_object(state: &mut GlobalState, id: String) -> (r: Result<(), String>)
    ensures
        r is Ok,
        final(state)@ == old(state)@.remove_a_map(id@),
{
    state.remove_a_map(id);
    Ok(())
}

/// Enters `id` into the groups listed in `masks`, in order, and stops at the
/// first entry that is no group.
fn append_to_masks(state: &mut GlobalState, masks: &Vec<usize>, id: &String) -> (r: Result<(), String>)
    requires
        old(state)@.wf(),
    ensures
        final(state)@.wf(),
        match r {
            Ok(_) => valid_masks(masks@) && final(state)@ == old(state)@.append_masks(masks@, id@),
            Err(e) => !valid_masks(masks@) && final(state)@ == old(state)@.append_masks(
                masks@.take(first_invalid(masks@)),
                id@,
            ) && e@ == mask_range_message(),
        },
{
    let ghost start = state@;
    let mut i: usize = 0;
    assert(masks@.take(0) =~= Seq::<usize>::empty());
    while i < masks.len()
        invariant
            i <= masks.len(),
            state@.wf(),
            start == old(state)@,
            forall|j: int| 0 <= j < i ==> valid_mask(#[trigger] masks@[j] as int),
            state@ == start.append_masks(masks@.take(i as int), id@),
        decreases masks.len() - i,
    {
        match append_mask_to_row(state, masks[i], id.clone()) {
            Ok(_) => {},
            Err(e) => {
                proof {
                    lemma_first_invalid_at(masks@, i as int);
                }
                return Err(e);
            },
        }
        proof {
            let next = masks@.take(i + 1);
            assert(next.drop_last() =~= masks@.take(i as int));
            assert(next.last() == masks@[i as int]);
        }
        i += 1;
    }
    assert(masks@.take(i as int) =~= masks@);
    Ok(())
}

/// Takes `id` out of the groups listed in `masks`, in order, and stops at
/// the first entry that is no group.
fn remove_from_masks(state: &mut GlobalState, masks: &Vec<usize>, id: &String) -> (r: Result<(), String>)
    requires
        old(state)@.wf(),
    ensures
        final(state)@.wf(),
        match r {
            Ok(_) => valid_masks(masks@) && final(state)@ == old(state)@.remove_masks(masks@, id@),
            Err(e) => !valid_masks(masks@) && final(state)@ == old(state)@.remove_masks(
                masks@.take(first_invalid(masks@)),
                id@,
            ) && e@ == remove_failed_message(),
        },
{
    let ghost start = state@;
    let mut i: usize = 0;
    assert(masks@.take(0) =~= Seq::<usize>::empty());
    while i < masks.len()
        invariant
            i <= masks.len(),
            state@.wf(),
            start == old(state)@,
            forall|j: int| 0 <= j < i ==> valid_mask(#[trigger] masks@[j] as int),
            state@ == start.remove_masks(masks@.take(i as int), id@),
        decreases masks.len() - i,
    {
        match remove_mask_from_row(state, masks[i], id.clone()) {
            Ok(_) => {},
            Err(e) => {
                proof {
                    lemma_first_invalid_at(masks@, i as int);
                }
                return Err(e);
            },
        }
        proof {
            let next = masks@.take(i + 1);
            assert(next.drop_last() =~= masks@.take(i as int));
            assert(next.last() == masks@[i as int]);
        }
        i += 1;
    }
    assert(masks@.take(i as int) =~= masks@);
    Ok(())
}

/// Registers an immovable object in full: it joins its collision groups and
/// its draw layer, its identifier is listed, and the object is stored.
///
/// Registering an object again is no error and changes nothing: where an
/// immovable object is already stored under the identifier, the registry
/// stays as it is. Otherwise registration stops at the first group number
/// outside 1 to 15: the object has then joined the groups listed before it
/// and nothing else has changed.
pub fn a_add_s_object(state: &mut GlobalState, obj: StaticObject) -> (r: Result<(), String>)
    requires
        old(state)@.wf(),
    ensures
        final(state)@.wf(),
        match r {
            Ok(_) => (old(state)@.s_map.contains_key(obj@.id) || valid_masks(obj@.masks))
                && final(state)@ == old(state)@.add_s_object(obj@),
            Err(e) => !old(state)@.s_map.contains_key(obj@.id) && !valid_masks(obj@.masks)
                && final(state)@ == old(state)@.append_masks(
                obj@.masks.take(first_invalid(obj@.masks)),
                obj@.id,
            ) && e@ == mask_range_message(),
        },
{
    if state.get_static_object(obj.id.as_str()).is_some() {
        return Ok(());
    }
    let id = obj.id.clone();
    match append_to_masks(state, &obj.masks, &id) {
        Ok(_) => {},
        Err(e) => {
            return Err(e);
        },
    }
    let layer: usize = obj.z_index as usize;
    match append_static_id_to_z_index_row(state, layer, id.clone()) {
        Ok(_) => {},
        Err(e) => {
            return Err(e);
        },
    }
    state.append_static_identifiable(id.clone());
    state.insert_s_map(id, obj);
    Ok(())
}

/// Registers a movable object in full: it joins its collision groups and its
/// draw layer, its identifier is listed, and the object is stored.
///
/// Registering an object again is no error and changes nothing: where a
/// movable object is already stored under the identifier, the registry stays
/// as it is. Otherwise registration stops at the first group number outside
/// 1 to 15: the object has then joined the groups listed before it and
/// nothing else has changed.
pub fn a_add_a_object(state: &mut GlobalState, obj: AnimatedObject) -> (r: Result<(), String>)
    requires
        old(state)@.wf(),
    ensures
        final(state)@.wf(),
        match r {
            Ok(_) => (old(state)@.a_map.contains_key(obj@.id) || valid_masks(obj@.masks))
                && final(state)@ == old(state)@.add_a_object(obj@),
            Err(e) => !old(state)@.a_map.contains_key(obj@.id) && !valid_masks(obj@.masks)
                && final(state)@ == old(state)@.append_masks(
                obj@.masks.take(first_invalid(obj@.masks)),
                obj@.id,
            ) && e@ == mask_range_message(),
        },
{
    if state.get_animated_object(obj.id.as_str()).is_some() {
        return Ok(());
    }
    let id = obj.id.clone();
    match append_to_masks(state, &obj.masks, &id) {
        Ok(_) => {},
        Err(e) => {
            return Err(e);
        },
    }
    let layer: usize = obj.z_index as usize;
    match append_animated_id_to_z_index_row(state, layer, id.clone()) {
        Ok(_) => {},
        Err(e) => {
            return Err(e);
        },
    }
    state.append_animated_identifiable(id.clone());
    state.insert_a_map(id, obj);
    Ok(())
}

/// Takes an immovable object out of the registry: out of its collision
/// groups and its draw layer, out of the identifiers, and out of the store.
///
/// Deregistration stops at the first group number outside 1 to 15: the
/// object has then left the groups listed before it and nothing else has changed.
pub fn a_remove_s_object(state: &mut GlobalState, obj: &StaticObject) -> (r: Result<(), String>)
    requires
        old(state)@.wf(),
    ensures
        final(state)@.wf(),
        match r {
            Ok(_) => valid_masks(obj@.masks) && final(state)@ == old(state)@.remove_s_object(obj@),
            Err(e) => !valid_masks(obj@.masks) && final(state)@ == old(state)@.remove_masks(
                obj@.masks.take(first_invalid(obj@.masks)),
                obj@.id,
            ) && e@ == remove_failed_message(),
        },
{
    let id = obj.id.clone();
    match remove_from_masks(state, &obj.masks, &id) {
        Ok(_) => {},
        Err(e) => {
            return Err(e);
        },
    }
    let layer: usize = obj.z_index as usize;
    match remove_static_z_index_from_row(state, layer, id.clone()) {
        Ok(_) => {},
        Err(e) => {
            return Err(e);
        },
    }
    state.remove_static_identifiable(id.clone());
    state.remove_s_map(id);
    Ok(())
}

/// Takes a movable object out of the registry: out of its collision groups
/// and its draw layer, out of the identifiers, and out of the store.
///
/// Deregistration stops at the first group number outside 1 to 15: the
/// object has then left the groups listed before it and nothing else has changed.
pub fn a_remove_a_object(state: &mut GlobalState, obj: &AnimatedObject) -> (r: Result<(), String>)
    requires
        old(state)@.wf(),
    ensures
        final(state)@.wf(),
        match r {
            Ok(_) => valid_masks(obj@.masks) && final(state)@ == old(state)@.remove_a_object(obj@),
            Err(e) => !valid_masks(obj@.masks) && final(state)@ == old(state)@.remove_masks(
                obj@.masks.take(first_invalid(obj@.masks)),
                obj@.id,
            ) && e@ == remove_failed_message(),
        },
{
    let id = obj.id.clone();
    match remove_from_masks(state, &obj.masks, &id) {
        Ok(_) => {},
        Err(e) => {
            return Err(e);
        },
    }
    let layer: usize = obj.z_index as usize;
    match remove_animated_z_index_from_row(state, layer, id.clone()) {
        Ok(_) => {},
        Err(e) => {
            return Err(e);
        },
    }
    state.remove_animated_identifiable(id.clone());
    state.remove_a_map(id);
    Ok(())
}

} // verus!
