//! What holds of the registry's operations taken together.

use vstd::prelude::*;
use crate::engine::structures::{AnimatedModel, StaticModel};
use crate::state::id_list::{lemma_without_absent, lemma_without_idempotent, lemma_without_push, without};
use crate::state::model::{valid_mask, valid_masks, valid_z_index, RegistryModel};

verus! {

/// Appending an identifier to a list and removing it again leaves the list
/// without that identifier; a list that did not hold it is restored.
pub proof fn lemma_list_round_trip(list: Seq<Seq<char>>, id: Seq<char>)
    ensures
        without(list.push(id), id) == without(list, id),
        !list.contains(id) ==> without(list.push(id), id) == list,
        !list.contains(id) ==> without(list.push(id), id).len() == list.len(),
{
    lemma_without_push(list, id, id);
    if !list.contains(id) {
        lemma_without_absent(list, id);
    }
}

/// Joining a collision group and leaving it again restores the registry,
/// for every group from 1 to 15 and every identifier that was not a member.
/// In particular the group has its former length.
pub proof fn lemma_mask_round_trip(m: RegistryModel, group: int, id: Seq<char>)
    requires
        m.wf(),
        valid_mask(group),
        !m.mask_row(group).contains(id),
    ensures
        m.append_mask(group, id).remove_mask(group, id) == m,
        m.append_mask(group, id).remove_mask(group, id).mask_row(group).len() == m.mask_row(group).len(),
{
    lemma_list_round_trip(m.masks[group - 1], id);
    let after = m.append_mask(group, id).remove_mask(group, id);
    assert(after.masks =~= m.masks);
}

/// Joining a draw layer of the immovable objects and leaving it again
/// restores the registry, for every layer from 0 to 255 and every identifier
/// that was not in the layer.
pub proof fn lemma_static_z_index_round_trip(m: RegistryModel, layer: int, id: Seq<char>)
    requires
        m.wf(),
        valid_z_index(layer),
        !m.s_z_index[layer].contains(id),
    ensures
        m.append_static_z_index(layer, id).remove_static_z_index(layer, id) == m,
        m.append_static_z_index(layer, id).remove_static_z_index(layer, id).s_z_index[layer].len()
            == m.s_z_index[layer].len(),
{
    lemma_list_round_trip(m.s_z_index[layer], id);
    let after = m.append_static_z_index(layer, id).remove_static_z_index(layer, id);
    assert(after.s_z_index =~= m.s_z_index);
}

/// Joining a draw layer of the movable objects and leaving it again restores
/// the registry, for every layer from 0 to 255 and every identifier that was
/// not in the layer.
pub proof fn lemma_animated_z_index_round_trip(m: RegistryModel, layer: int, id: Seq<char>)
    requires
        m.wf(),
        valid_z_index(layer),
        !m.a_z_index[layer].contains(id),
    ensures
        m.append_animated_z_index(layer, id).remove_animated_z_index(layer, id) == m,
        m.append_animated_z_index(layer, id).remove_animated_z_index(layer, id).a_z_index[layer].len()
            == m.a_z_index[layer].len(),
{
    lemma_list_round_trip(m.a_z_index[layer], id);
    let after = m.append_animated_z_index(layer, id).remove_animated_z_index(layer, id);
    assert(after.a_z_index =~= m.a_z_index);
}

/// What joining a list of groups does: only the groups change; each keeps
/// its members other than `id`; a group that is not listed is untouched.
pub proof fn lemma_append_masks(m: RegistryModel, rows: Seq<usize>, id: Seq<char>)
    requires
        m.wf(),
        valid_masks(rows),
    ensures
        m.append_masks(rows, id) == (RegistryModel { masks: m.append_masks(rows, id).masks, ..m }),
        m.append_masks(rows, id).masks.len() == 15,
        forall|g: int|
            0 <= g < 15 ==> without(#[trigger] m.append_masks(rows, id).masks[g], id) == without(
                m.masks[g],
                id,
            ),
        forall|g: int|
            0 <= g < 15 && !rows.contains((g + 1) as usize) ==> #[trigger] m.append_masks(rows, id).masks[g]
                == m.masks[g],
    decreases rows.len(),
{
    if rows.len() > 0 {
        let front = rows.drop_last();
        let last = rows.last();
        assert(valid_mask(rows[rows.len() - 1] as int));
        assert forall|i: int| 0 <= i < front.len() implies valid_mask(#[trigger] front[i] as int) by {
            assert(front[i] == rows[i]);
        }
        lemma_append_masks(m, front, id);
        let mid = m.append_masks(front, id);
        lemma_without_push(mid.masks[last - 1], id, id);
        assert forall|g: int| 0 <= g < 15 && !rows.contains((g + 1) as usize) implies #[trigger] m.append_masks(
            rows,
            id,
        ).masks[g] == m.masks[g] by {
            assert(rows[rows.len() - 1] == last);
            if front.contains((g + 1) as usize) {
                let i = choose|i: int| 0 <= i < front.len() && front[i] == (g + 1) as usize;
                assert(rows[i] == (g + 1) as usize);
            }
        }
    }
}

/// What leaving a list of groups does: only the groups change; a listed
/// group loses `id` and keeps its other members; a group that is not listed
/// is untouched.
pub proof fn lemma_remove_masks(m: RegistryModel, rows: Seq<usize>, id: Seq<char>)
    requires
        m.wf(),
        valid_masks(rows),
    ensures
        m.remove_masks(rows, id) == (RegistryModel { masks: m.remove_masks(rows, id).masks, ..m }),
        m.remove_masks(rows, id).masks.len() == 15,
        forall|g: int|
            0 <= g < 15 && rows.contains((g + 1) as usize) ==> #[trigger] m.remove_masks(rows, id).masks[g]
                == without(m.masks[g], id),
        forall|g: int|
            0 <= g < 15 && !rows.contains((g + 1) as usize) ==> #[trigger] m.remove_masks(rows, id).masks[g]
                == m.masks[g],
    decreases rows.len(),
{
    if rows.len() > 0 {
        let front = rows.drop_last();
        let last = rows.last();
        assert(valid_mask(rows[rows.len() - 1] as int));
        assert forall|i: int| 0 <= i < front.len() implies valid_mask(#[trigger] front[i] as int) by {
            assert(front[i] == rows[i]);
        }
        lemma_remove_masks(m, front, id);
        let mid = m.remove_masks(front, id);
        let after = m.remove_masks(rows, id);
        assert(rows[rows.len() - 1] == last);
        assert forall|g: int| 0 <= g < 15 implies (rows.contains((g + 1) as usize) ==> #[trigger] after.masks[g]
            == without(m.masks[g], id)) && (!rows.contains((g + 1) as usize) ==> after.masks[g]
            == m.masks[g]) by {
            if front.contains((g + 1) as usize) {
                let i = choose|i: int| 0 <= i < front.len() && front[i] == (g + 1) as usize;
                assert(rows[i] == (g + 1) as usize);
                lemma_without_idempotent(m.masks[g], id);
            }
            if rows.contains((g + 1) as usize) && !front.contains((g + 1) as usize) {
                let i = choose|i: int| 0 <= i < rows.len() && rows[i] == (g + 1) as usize;
                if i < front.len() {
                    assert(front[i] == rows[i]);
                }
                assert(last == (g + 1) as usize);
            }
        }
    }
}

/// Joining the groups of a list and leaving them again restores the
/// registry, where `id` was in none of them before.
pub proof fn lemma_masks_round_trip(m: RegistryModel, rows: Seq<usize>, id: Seq<char>)
    requires
        m.wf(),
        valid_masks(rows),
        m.absent_from_masks(rows, id),
    ensures
        m.append_masks(rows, id).remove_masks(rows, id) == m,
{
    lemma_append_masks(m, rows, id);
    let mid = m.append_masks(rows, id);
    lemma_remove_masks(mid, rows, id);
    let after = mid.remove_masks(rows, id);
    assert forall|g: int| 0 <= g < 15 implies after.masks[g] == m.masks[g] by {
        if rows.contains((g + 1) as usize) {
            let i = choose|i: int| 0 <= i < rows.len() && rows[i] == (g + 1) as usize;
            assert(m.mask_row(rows[i] as int) == m.masks[g]);
            lemma_without_absent(m.masks[g], id);
        }
    }
    assert(after.masks =~= m.masks);
}

/// Registering an immovable object in full and deregistering it again leaves
/// every group, layer, identifier list and store as it was, where the
/// object's groups are valid and its identifier was not in use: in none of
/// its groups, not in its layer, not among the identifiers, not in the store.
pub proof fn lemma_static_registration_round_trip(m: RegistryModel, obj: StaticModel)
    requires
        m.wf(),
        valid_masks(obj.masks),
        m.absent_from_masks(obj.masks, obj.id),
        !m.s_z_index[obj.z_index as int].contains(obj.id),
        !m.s_identifiables.contains(obj.id),
        !m.s_map.contains_key(obj.id),
    ensures
        m.add_s_object(obj).remove_s_object(obj) == m,
{
    let id = obj.id;
    let z = obj.z_index as int;
    lemma_append_masks(m, obj.masks, id);
    let a1 = m.append_masks(obj.masks, id);
    let added = m.add_s_object(obj);
    lemma_remove_masks(added, obj.masks, id);
    lemma_remove_masks(a1, obj.masks, id);
    lemma_masks_round_trip(m, obj.masks, id);
    let r1 = added.remove_masks(obj.masks, id);
    assert(r1.masks =~= m.masks) by {
        assert forall|g: int| 0 <= g < 15 implies r1.masks[g] == a1.remove_masks(obj.masks, id).masks[g] by {}
    }
    lemma_list_round_trip(m.s_z_index[z], id);
    lemma_list_round_trip(m.s_identifiables, id);
    let after = added.remove_s_object(obj);
    assert(after.masks =~= m.masks);
    assert(after.s_z_index =~= m.s_z_index);
    assert(after.s_identifiables =~= m.s_identifiables);
    assert(after.s_map =~= m.s_map);
}

/// Registering a movable object in full and deregistering it again leaves
/// every group, layer, identifier list and store as it was, where the
/// object's groups are valid and its identifier was not in use: in none of
/// its groups, not in its layer, not among the identifiers, not in the store.
pub proof fn lemma_animated_registration_round_trip(m: RegistryModel, obj: AnimatedModel)
    requires
        m.wf(),
        valid_masks(obj.masks),
        m.absent_from_masks(obj.masks, obj.id),
        !m.a_z_index[obj.z_index as int].contains(obj.id),
        !m.a_identifiables.contains(obj.id),
        !m.a_map.contains_key(obj.id),
    ensures
        m.add_a_object(obj).remove_a_object(obj) == m,
{
    let id = obj.id;
    let z = obj.z_index as int;
    lemma_append_masks(m, obj.masks, id);
    let a1 = m.append_masks(obj.masks, id);
    let added = m.add_a_object(obj);
    lemma_remove_masks(added, obj.masks, id);
    lemma_remove_masks(a1, obj.masks, id);
    lemma_masks_round_trip(m, obj.masks, id);
    let r1 = added.remove_masks(obj.masks, id);
    assert(r1.masks =~= m.masks) by {
        assert forall|g: int| 0 <= g < 15 implies r1.masks[g] == a1.remove_masks(obj.masks, id).masks[g] by {}
    }
    lemma_list_round_trip(m.a_z_index[z], id);
    lemma_list_round_trip(m.a_identifiables, id);
    let after = added.remove_a_object(obj);
    assert(after.masks =~= m.masks);
    assert(after.a_z_index =~= m.a_z_index);
    assert(after.a_identifiables =~= m.a_identifiables);
    assert(after.a_map =~= m.a_map);
}

/// After joining the groups of a list, a group holds `id` exactly if it
/// held it before or is listed.
pub proof fn lemma_append_masks_members(m: RegistryModel, rows: Seq<usize>, id: Seq<char>)
    requires
        m.wf(),
        valid_masks(rows),
    ensures
        forall|g: int|
            1 <= g <= 15 ==> (#[trigger] m.append_masks(rows, id).mask_row(g).contains(id) <==> m.mask_row(
                g,
            ).contains(id) || rows.contains(g as usize)),
    decreases rows.len(),
{
    if rows.len() > 0 {
        let front = rows.drop_last();
        let last = rows.last();
        assert(valid_mask(rows[rows.len() - 1] as int));
        assert forall|i: int| 0 <= i < front.len() implies valid_mask(#[trigger] front[i] as int) by {
            assert(front[i] == rows[i]);
        }
        lemma_append_masks_members(m, front, id);
        lemma_append_masks(m, front, id);
        let mid = m.append_masks(front, id);
        let after = m.append_masks(rows, id);
        assert forall|g: int| 1 <= g <= 15 implies (#[trigger] after.mask_row(g).contains(id) <==> m.mask_row(
            g,
        ).contains(id) || rows.contains(g as usize)) by {
            assert(rows[rows.len() - 1] == last);
            if g == last {
                let joined = mid.mask_row(g).push(id);
                assert(after.mask_row(g) == joined);
                assert(joined[joined.len() - 1] == id);
            } else {
                assert(after.mask_row(g) == mid.mask_row(g));
            }
            if front.contains(g as usize) {
                let i = choose|i: int| 0 <= i < front.len() && front[i] == g as usize;
                assert(rows[i] == g as usize);
            }
            if rows.contains(g as usize) && g != last {
                let i = choose|i: int| 0 <= i < rows.len() && rows[i] == g as usize;
                assert(front[i] == g as usize);
            }
        }
    }
}

/// A fully registered immovable object is found in every index, and only
/// where it belongs: where its identifier was not in use before, it is a
/// member of exactly the groups it lists and of exactly its draw layer, it is
/// among the identifiers, and the store holds it.
pub proof fn lemma_static_registration_indexes(m: RegistryModel, obj: StaticModel)
    requires
        m.wf(),
        valid_masks(obj.masks),
        forall|g: int| 1 <= g <= 15 ==> !(#[trigger] m.mask_row(g)).contains(obj.id),
        forall|l: int| 0 <= l <= 255 ==> !(#[trigger] m.s_z_index[l]).contains(obj.id),
        !m.s_map.contains_key(obj.id),
    ensures
        forall|g: int|
            1 <= g <= 15 ==> (#[trigger] m.add_s_object(obj).mask_row(g).contains(obj.id)
                <==> obj.masks.contains(g as usize)),
        forall|l: int|
            0 <= l <= 255 ==> (#[trigger] m.add_s_object(obj).s_z_index[l].contains(obj.id) <==> l
                == obj.z_index),
        m.add_s_object(obj).s_identifiables.contains(obj.id),
        m.add_s_object(obj).s_map.contains_key(obj.id),
        m.add_s_object(obj).s_map[obj.id] == obj,
{
    let id = obj.id;
    let z = obj.z_index as int;
    lemma_append_masks(m, obj.masks, id);
    lemma_append_masks_members(m, obj.masks, id);
    let a1 = m.append_masks(obj.masks, id);
    let after = m.add_s_object(obj);
    assert forall|g: int| 1 <= g <= 15 implies (#[trigger] after.mask_row(g).contains(id)
        <==> obj.masks.contains(g as usize)) by {
        assert(after.mask_row(g) == a1.mask_row(g));
    }
    let layer = m.s_z_index[z].push(id);
    assert(layer[layer.len() - 1] == id);
    assert forall|l: int| 0 <= l <= 255 implies (#[trigger] after.s_z_index[l].contains(id) <==> l == z) by {
        if l != z {
            assert(after.s_z_index[l] == m.s_z_index[l]);
        } else {
            assert(after.s_z_index[l] == layer);
        }
    }
    let ids = m.s_identifiables.push(id);
    assert(ids[ids.len() - 1] == id);
}

/// A fully registered movable object is found in every index, and only
/// where it belongs: where its identifier was not in use before, it is a
/// member of exactly the groups it lists and of exactly its draw layer, it is
/// among the identifiers, and the store holds it.
pub proof fn lemma_animated_registration_indexes(m: RegistryModel, obj: AnimatedModel)
    requires
        m.wf(),
        valid_masks(obj.masks),
        forall|g: int| 1 <= g <= 15 ==> !(#[trigger] m.mask_row(g)).contains(obj.id),
        forall|l: int| 0 <= l <= 255 ==> !(#[trigger] m.a_z_index[l]).contains(obj.id),
        !m.a_map.contains_key(obj.id),
    ensures
        forall|g: int|
            1 <= g <= 15 ==> (#[trigger] m.add_a_object(obj).mask_row(g).contains(obj.id)
                <==> obj.masks.contains(g as usize)),
        forall|l: int|
            0 <= l <= 255 ==> (#[trigger] m.add_a_object(obj).a_z_index[l].contains(obj.id) <==> l
                == obj.z_index),
        m.add_a_object(obj).a_identifiables.contains(obj.id),
        m.add_a_object(obj).a_map.contains_key(obj.id),
        m.add_a_object(obj).a_map[obj.id] == obj,
{
    let id = obj.id;
    let z = obj.z_index as int;
    lemma_append_masks(m, obj.masks, id);
    lemma_append_masks_members(m, obj.masks, id);
    let a1 = m.append_masks(obj.masks, id);
    let after = m.add_a_object(obj);
    assert forall|g: int| 1 <= g <= 15 implies (#[trigger] after.mask_row(g).contains(id)
        <==> obj.masks.contains(g as usize)) by {
        assert(after.mask_row(g) == a1.mask_row(g));
    }
    let layer = m.a_z_index[z].push(id);
    assert(layer[layer.len() - 1] == id);
    assert forall|l: int| 0 <= l <= 255 implies (#[trigger] after.a_z_index[l].contains(id) <==> l == z) by {
        if l != z {
            assert(after.a_z_index[l] == m.a_z_index[l]);
        } else {
            assert(after.a_z_index[l] == layer);
        }
    }
    let ids = m.a_identifiables.push(id);
    assert(ids[ids.len() - 1] == id);
}

/// Registering an immovable object a second time changes nothing: the
/// registry after two registrations is the registry after one.
pub proof fn lemma_static_registration_idempotent(m: RegistryModel, obj: StaticModel)
    ensures
        m.add_s_object(obj).s_map.contains_key(obj.id),
        m.add_s_object(obj).add_s_object(obj) == m.add_s_object(obj),
{
}

/// Registering a movable object a second time changes nothing: the registry
/// after two registrations is the registry after one.
pub proof fn lemma_animated_registration_idempotent(m: RegistryModel, obj: AnimatedModel)
    ensures
        m.add_a_object(obj).a_map.contains_key(obj.id),
        m.add_a_object(obj).add_a_object(obj) == m.add_a_object(obj),
{
}

} // verus!
