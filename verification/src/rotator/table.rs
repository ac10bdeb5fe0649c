//! The table of priority actions, an [`OrderedHashMap`] that keeps its entries in the order in
//! which they were inserted.

use ordered_hash_map::OrderedHashMap;
use vstd::prelude::*;

use crate::rotator::action::PriorityAction;

verus! {

/// `ordered_hash_map::OrderedHashMap`, of which only its entries are spoken of.
#[verifier::external_type_specification]
#[verifier::external_body]
#[verifier::reject_recursive_types(K)]
#[verifier::reject_recursive_types(V)]
#[verifier::reject_recursive_types(S)]
pub struct ExOrderedHashMap<K, V, S>(OrderedHashMap<K, V, S>);

/// The hasher that an `OrderedHashMap` is made with where none is named.
#[verifier::external_type_specification]
#[verifier::external_body]
pub struct ExDefaultHashBuilder(ordered_hash_map::ordered_map::DefaultHashBuilder);

/// The entries of a table, in the order in which its iterators give them.
pub uninterp spec fn entries(table: OrderedHashMap<u32, PriorityAction>) -> Seq<(u32, PriorityAction)>;

/// The action stored under an id.
pub open spec fn lookup(entries: Seq<(u32, PriorityAction)>, id: u32) -> Option<PriorityAction>
    decreases entries.len(),
{
    if entries.len() == 0 {
        None
    } else if entries[0].0 == id {
        Some(entries[0].1)
    } else {
        lookup(entries.drop_first(), id)
    }
}

/// The ids of all entries, in order.
pub open spec fn ids_of(entries: Seq<(u32, PriorityAction)>) -> Seq<u32> {
    Seq::new(entries.len(), |i: int| entries[i].0)
}

/// The same entries with the action under `id` replaced where it stands.
pub open spec fn updated(entries: Seq<(u32, PriorityAction)>, id: u32, action: PriorityAction) -> Seq<
    (u32, PriorityAction),
> {
    Seq::new(
        entries.len(),
        |i: int|
            if entries[i].0 == id {
                (id, action)
            } else {
                entries[i]
            },
    )
}

/// The entries without the one under `id`.
pub open spec fn removed(entries: Seq<(u32, PriorityAction)>, id: u32) -> Seq<(u32, PriorityAction)>
    decreases entries.len(),
{
    if entries.len() == 0 {
        seq![]
    } else if entries[0].0 == id {
        removed(entries.drop_first(), id)
    } else {
        seq![entries[0]] + removed(entries.drop_first(), id)
    }
}

/// The entries after an insertion: the new entry comes last, also where there was one before.
pub open spec fn inserted(
    entries: Seq<(u32, PriorityAction)>,
    id: u32,
    action: PriorityAction,
) -> Seq<(u32, PriorityAction)> {
    removed(entries, id).push((id, action))
}

/// `OrderedHashMap::new`: a table without entries.
#[verifier::external_body]
pub(crate) fn empty_table() -> (table: OrderedHashMap<u32, PriorityAction>)
    ensures
        entries(table) == Seq::<(u32, PriorityAction)>::empty(),
{
    OrderedHashMap::new()
}

/// `OrderedHashMap::clear`: removes all entries.
#[verifier::external_body]
pub(crate) fn clear(table: &mut OrderedHashMap<u32, PriorityAction>)
    ensures
        entries(*final(table)) == Seq::<(u32, PriorityAction)>::empty(),
{
    table.clear();
}

/// `OrderedHashMap::insert`: puts the entry last; an earlier entry under the same id is gone.
#[verifier::external_body]
pub(crate) fn insert(
    table: &mut OrderedHashMap<u32, PriorityAction>,
    id: u32,
    action: PriorityAction,
)
    ensures
        entries(*final(table)) == inserted(entries(*old(table)), id, action),
{
    table.insert(id, action);
}

/// `OrderedHashMap::get`: the action under an id, if there is one.
#[verifier::external_body]
pub(crate) fn get(table: &OrderedHashMap<u32, PriorityAction>, id: u32) -> (res: Option<
    &PriorityAction,
>)
    ensures
        match res {
            Some(action) => lookup(entries(*table), id) == Some(*action),
            None => lookup(entries(*table), id) is None,
        },
{
    table.get(&id)
}

/// `OrderedHashMap::get_mut`: a reference to the action under an id, if there is one. What is
/// written through it stands in the place of the action; no other entry changes.
#[verifier::external_body]
pub(crate) fn get_mut(table: &mut OrderedHashMap<u32, PriorityAction>, id: u32) -> (res: Option<
    &mut PriorityAction,
>)
    ensures
        match res {
            Some(action) => lookup(entries(*old(table)), id) == Some(*action) && entries(
                *final(table),
            ) == updated(entries(*old(table)), id, *final(action)),
            None => lookup(entries(*old(table)), id) is None && entries(*final(table)) == entries(
                *old(table),
            ),
        },
{
    table.get_mut(&id)
}

/// `OrderedHashMap::keys`: the ids in the order of insertion, each of them once.
#[verifier::external_body]
pub(crate) fn ids(table: &OrderedHashMap<u32, PriorityAction>) -> (res: Vec<u32>)
    ensures
        res@ == ids_of(entries(*table)),
        res@.no_duplicates(),
{
    table.keys().copied().collect()
}

pub proof fn lemma_lookup(entries: Seq<(u32, PriorityAction)>, id: u32)
    ensures
        match lookup(entries, id) {
            Some(action) => exists|i: int|
                0 <= i < entries.len() && #[trigger] entries[i] == (id, action),
            None => forall|i: int| 0 <= i < entries.len() ==> #[trigger] entries[i].0 != id,
        },
    decreases entries.len(),
{
    if entries.len() > 0 && entries[0].0 != id {
        lemma_lookup(entries.drop_first(), id);
        match lookup(entries.drop_first(), id) {
            Some(action) => {
                let i = choose|i: int|
                    0 <= i < entries.drop_first().len() && #[trigger] entries.drop_first()[i] == (
                        id,
                        action,
                    );
                assert(entries[i + 1] == (id, action));
            },
            None => {
                assert forall|i: int| 0 <= i < entries.len() implies #[trigger] entries[i].0
                    != id by {
                    if i > 0 {
                        assert(entries.drop_first()[i - 1].0 != id);
                    }
                }
            },
        }
    }
}

pub proof fn lemma_removed(entries: Seq<(u32, PriorityAction)>, id: u32)
    ensures
        forall|i: int|
            0 <= i < removed(entries, id).len() ==> (#[trigger] removed(entries, id)[i]).0 != id
                && entries.contains(removed(entries, id)[i]),
    decreases entries.len(),
{
    if entries.len() > 0 {
        let rest = entries.drop_first();
        lemma_removed(rest, id);
        assert forall|i: int| 0 <= i < removed(entries, id).len() implies (#[trigger] removed(
            entries,
            id,
        )[i]).0 != id && entries.contains(removed(entries, id)[i]) by {
            let entry = removed(entries, id)[i];
            if entries[0].0 != id && i == 0 {
                assert(entries[0] == entry);
            } else {
                let at = if entries[0].0 == id {
                    i
                } else {
                    i - 1
                };
                assert(removed(rest, id)[at] == entry);
                let j = choose|j: int| 0 <= j < rest.len() && rest[j] == entry;
                assert(entries[j + 1] == entry);
            }
        }
    }
}

pub proof fn lemma_inserted_once(
    entries: Seq<(u32, PriorityAction)>,
    id: u32,
    action: PriorityAction,
)
    requires
        ids_of(entries).no_duplicates(),
    ensures
        ids_of(inserted(entries, id, action)).no_duplicates(),
{
    lemma_removed(entries, id);
    lemma_removed_once(entries, id);
    let kept = removed(entries, id);
    let ids = ids_of(inserted(entries, id, action));
    assert forall|i: int, j: int| 0 <= i < ids.len() && 0 <= j < ids.len() && i != j implies ids[i]
        != ids[j] by {
        if i < kept.len() && j < kept.len() {
            assert(ids_of(kept)[i] != ids_of(kept)[j]);
        } else if i < kept.len() {
            assert(kept[i].0 != id);
        } else {
            assert(kept[j].0 != id);
        }
    }
}

proof fn lemma_removed_once(entries: Seq<(u32, PriorityAction)>, id: u32)
    requires
        ids_of(entries).no_duplicates(),
    ensures
        ids_of(removed(entries, id)).no_duplicates(),
    decreases entries.len(),
{
    if entries.len() > 0 {
        let rest = entries.drop_first();
        assert forall|i: int, j: int| 0 <= i < rest.len() && 0 <= j < rest.len() && i
            != j implies ids_of(rest)[i] != ids_of(rest)[j] by {
            assert(ids_of(entries)[i + 1] != ids_of(entries)[j + 1]);
        }
        lemma_removed_once(rest, id);
        lemma_removed(rest, id);
        let kept = removed(rest, id);
        let ids = ids_of(removed(entries, id));
        if entries[0].0 != id {
            assert forall|k: int| 0 <= k < kept.len() implies (#[trigger] kept[k]).0
                != entries[0].0 by {
                let m = choose|m: int| 0 <= m < rest.len() && rest[m] == kept[k];
                assert(ids_of(entries)[0] != ids_of(entries)[m + 1]);
            }
            assert forall|i: int, j: int|
                0 <= i < ids.len() && 0 <= j < ids.len() && i != j implies ids[i] != ids[j] by {
                if i > 0 && j > 0 {
                    assert(ids_of(kept)[i - 1] != ids_of(kept)[j - 1]);
                } else if i > 0 {
                    assert(kept[i - 1].0 != entries[0].0);
                } else {
                    assert(kept[j - 1].0 != entries[0].0);
                }
            }
        }
    }
}

pub proof fn lemma_lookup_updated(
    entries: Seq<(u32, PriorityAction)>,
    id: u32,
    action: PriorityAction,
    other: u32,
)
    ensures
        lookup(updated(entries, id, action), other) == if other == id {
            if lookup(entries, id) is Some {
                Some(action)
            } else {
                None
            }
        } else {
            lookup(entries, other)
        },
        ids_of(updated(entries, id, action)) =~= ids_of(entries),
    decreases entries.len(),
{
    if entries.len() > 0 {
        assert(updated(entries, id, action).drop_first() =~= updated(
            entries.drop_first(),
            id,
            action,
        ));
        lemma_lookup_updated(entries.drop_first(), id, action, other);
    }
}

/// Inserting an action puts it last and leaves all others in their order; one that was there under the
/// same id is gone.
pub proof fn law_inserted_action_comes_last(
    entries: Seq<(u32, PriorityAction)>,
    id: u32,
    action: PriorityAction,
)
    ensures
        inserted(entries, id, action).last() == (id, action),
        inserted(entries, id, action).drop_last() == entries.filter(
            |entry: (u32, PriorityAction)| entry.0 != id,
        ),
{
    lemma_removed_is_filtered(entries, id);
    assert(inserted(entries, id, action).drop_last() =~= removed(entries, id));
}

proof fn lemma_removed_is_filtered(entries: Seq<(u32, PriorityAction)>, id: u32)
    ensures
        removed(entries, id) =~= entries.filter(|entry: (u32, PriorityAction)| entry.0 != id),
    decreases entries.len(),
{
    reveal(Seq::filter);
    let keep = |entry: (u32, PriorityAction)| entry.0 != id;
    if entries.len() > 0 {
        let first = seq![entries[0]];
        let rest = entries.drop_first();
        lemma_removed_is_filtered(rest, id);
        assert(entries =~= first + rest);
        Seq::filter_distributes_over_add(first, rest, keep);
        assert(first.drop_last() =~= seq![]);
        assert(first.drop_last().filter(keep) =~= seq![]);
        assert(first.last() == entries[0]);
        assert(first.filter(keep) =~= if keep(entries[0]) {
            first
        } else {
            seq![]
        });
    }
}

/// What is found under an id is what stands first under it, and nothing is found just where no entry
/// has it.
pub proof fn law_first_entry_is_found(entries: Seq<(u32, PriorityAction)>, id: u32, at: int)
    requires
        0 <= at <= entries.len(),
        forall|i: int| 0 <= i < at ==> (#[trigger] entries[i]).0 != id,
    ensures
        at < entries.len() && entries[at].0 == id ==> lookup(entries, id) == Some(entries[at].1),
        at == entries.len() ==> lookup(entries, id) is None,
    decreases entries.len(),
{
    if entries.len() > 0 && at > 0 {
        assert(entries[0].0 != id);
        let rest = entries.drop_first();
        assert forall|i: int| 0 <= i < at - 1 implies (#[trigger] rest[i]).0 != id by {
            assert(rest[i] == entries[i + 1]);
        }
        if at < entries.len() {
            assert(rest[at - 1] == entries[at]);
        }
        law_first_entry_is_found(rest, id, at - 1);
    }
}

} // verus!
