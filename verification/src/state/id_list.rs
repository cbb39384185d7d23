//! Lists of identifiers, and tables whose rows are such lists.

use vstd::prelude::*;

verus! {

/// A list without every occurrence of `id`; the other entries keep their order.
pub open spec fn without(list: Seq<Seq<char>>, id: Seq<char>) -> Seq<Seq<char>> {
    list.filter(|x: Seq<char>| x != id)
}

/// Removing from a list that ends in `x` either drops `x` or keeps it last.
pub proof fn lemma_without_push(list: Seq<Seq<char>>, x: Seq<char>, id: Seq<char>)
    ensures
        without(list.push(x), id) == if x == id {
            without(list, id)
        } else {
            without(list, id).push(x)
        },
{
    reveal(Seq::filter);
    assert(list.push(x).drop_last() == list);
}

/// A list that does not hold `id` is left as it is.
pub proof fn lemma_without_absent(list: Seq<Seq<char>>, id: Seq<char>)
    requires
        !list.contains(id),
    ensures
        without(list, id) == list,
    decreases list.len(),
{
    reveal(Seq::filter);
    if list.len() > 0 {
        let front = list.drop_last();
        assert(list[list.len() - 1] == list.last());
        assert forall|x: Seq<char>| front.contains(x) implies list.contains(x) by {
            let i = choose|i: int| 0 <= i < front.len() && front[i] == x;
            assert(list[i] == x);
        }
        lemma_without_absent(front, id);
        assert(front.push(list.last()) == list);
    }
}

/// After a removal the list no longer holds `id`, and removing again changes nothing.
pub proof fn lemma_without_idempotent(list: Seq<Seq<char>>, id: Seq<char>)
    ensures
        !without(list, id).contains(id),
        without(without(list, id), id) == without(list, id),
{
    let pred = |x: Seq<char>| x != id;
    if without(list, id).contains(id) {
        list.lemma_filter_contains_rev(pred, id);
    }
    lemma_without_absent(without(list, id), id);
}

/// Copies a list of identifiers.
pub fn ids_copy(list: &Vec<String>) -> (copy: Vec<String>)
    ensures
        copy.deep_view() == list.deep_view(),
{
    let mut copy: Vec<String> = Vec::new();
    let mut i: usize = 0;
    while i < list.len()
        invariant
            i <= list.len(),
            copy.deep_view() == list.deep_view().take(i as int),
        decreases list.len() - i,
    {
        let ghost before = copy.deep_view();
        let item = list[i].clone();
        copy.push(item);
        assert(copy.deep_view() == before.push(item@));
        assert(list.deep_view().take(i + 1) == list.deep_view().take(i as int).push(list.deep_view()[i as int]));
        i += 1;
    }
    assert(list.deep_view().take(i as int) == list.deep_view());
    copy
}

/// Appends an identifier to a list.
pub fn ids_append(list: &mut Vec<String>, id: String)
    ensures
        final(list).deep_view() == old(list).deep_view().push(id@),
{
    let ghost before = list.deep_view();
    list.push(id);
    assert(list.deep_view() == before.push(id@));
}

/// Removes every occurrence of an identifier from a list.
pub fn ids_remove(list: &mut Vec<String>, id: &String)
    ensures
        final(list).deep_view() == without(old(list).deep_view(), id@),
{
    let mut kept: Vec<String> = Vec::new();
    let mut i: usize = 0;
    proof {
        reveal(Seq::filter);
        assert(kept.deep_view() == Seq::<Seq<char>>::empty());
        assert(list.deep_view().take(0) == Seq::<Seq<char>>::empty());
    }
    while i < list.len()
        invariant
            i <= list.len(),
            kept.deep_view() == without(list.deep_view().take(i as int), id@),
        decreases list.len() - i,
    {
        proof {
            let d = list.deep_view();
            assert(d.take(i + 1) == d.take(i as int).push(d[i as int]));
            lemma_without_push(d.take(i as int), d[i as int], id@);
            assert(d[i as int] == list@[i as int]@);
        }
        if list[i] != *id {
            let ghost before = kept.deep_view();
            let item = list[i].clone();
            kept.push(item);
            assert(kept.deep_view() == before.push(item@));
        }
        i += 1;
    }
    assert(list.deep_view().take(list.len() as int) == list.deep_view());
    *list = kept;
}

/// Whether a list holds an identifier.
pub fn ids_contain(list: &Vec<String>, id: &String) -> (found: bool)
    ensures
        found == list.deep_view().contains(id@),
{
    let mut i: usize = 0;
    while i < list.len()
        invariant
            i <= list.len(),
            forall|k: int| 0 <= k < i ==> list.deep_view()[k] != id@,
        decreases list.len() - i,
    {
        assert(list.deep_view()[i as int] == list@[i as int]@);
        if list[i] == *id {
            return true;
        }
        i += 1;
    }
    false
}

/// A table of `count` empty rows.
pub open spec fn empty_table(count: nat) -> Seq<Seq<Seq<char>>> {
    Seq::new(count, |i: int| Seq::<Seq<char>>::empty())
}

/// Makes a table of `count` empty rows.
pub fn rows_new(count: usize) -> (rows: Vec<Vec<String>>)
    ensures
        rows.deep_view() == empty_table(count as nat),
        rows.len() == count,
{
    let mut rows: Vec<Vec<String>> = Vec::new();
    let mut i: usize = 0;
    assert(rows.deep_view() =~= empty_table(0));
    while i < count
        invariant
            i <= count,
            rows.len() == i,
            rows.deep_view() == empty_table(i as nat),
        decreases count - i,
    {
        let ghost before = rows.deep_view();
        let row: Vec<String> = Vec::new();
        assert(row.deep_view() == Seq::<Seq<char>>::empty());
        rows.push(row);
        assert(rows.deep_view() =~= before.push(Seq::<Seq<char>>::empty()));
        assert(before.push(Seq::<Seq<char>>::empty()) =~= empty_table((i + 1) as nat));
        i += 1;
    }
    rows
}

/// Appends an identifier to one row of a table.
pub fn rows_append(rows: &mut Vec<Vec<String>>, index: usize, id: String)
    requires
        index < old(rows).len(),
    ensures
        final(rows).len() == old(rows).len(),
        final(rows).deep_view() == old(rows).deep_view().update(
            index as int,
            old(rows).deep_view()[index as int].push(id@),
        ),
{
    let ghost before = rows.deep_view();
    ids_append(&mut rows[index], id);
    assert(rows.deep_view() =~= before.update(index as int, before[index as int].push(id@)));
}

/// Removes every occurrence of an identifier from one row of a table.
pub fn rows_remove(rows: &mut Vec<Vec<String>>, index: usize, id: &String)
    requires
        index < old(rows).len(),
    ensures
        final(rows).len() == old(rows).len(),
        final(rows).deep_view() == old(rows).deep_view().update(
            index as int,
            without(old(rows).deep_view()[index as int], id@),
        ),
{
    let ghost before = rows.deep_view();
    ids_remove(&mut rows[index], id);
    assert(rows.deep_view() =~= before.update(index as int, without(before[index as int], id@)));
}

/// Copies one row of a table.
pub fn rows_copy(rows: &Vec<Vec<String>>, index: usize) -> (copy: Vec<String>)
    requires
        index < rows.len(),
    ensures
        copy.deep_view() == rows.deep_view()[index as int],
{
    ids_copy(&rows[index])
}

} // verus!
