//! What the tables of the database hold, and how long it is kept there.
//!
//! The statements are executed elsewhere. Here stands what each of them does to a table, and what
//! follows from that for what is read and stored.

use vstd::prelude::*;

use crate::database::{
    delete_failure, first_or, queried, upsert_failure, upserted, DatabaseError, Executed,
};
use crate::models::stored::{Identifiable, Seeds, Settings};

verus! {

/// Whether the rows are those of a table: each of them once, in the order of their ids.
pub open spec fn reads<T: Identifiable>(table: Map<i64, T::Content>, rows: Seq<T>) -> bool {
    &&& forall|i: int|
        0 <= i < rows.len() ==> {
            &&& (#[trigger] rows[i]).row() is Some
            &&& table.contains_key(rows[i].row()->0)
            &&& rows[i].content() == table[rows[i].row()->0]
        }
    &&& forall|id: i64| #[trigger] table.contains_key(id) ==> has_row(rows, id)
    &&& forall|i: int, j: int|
        0 <= i < j < rows.len() ==> (#[trigger] rows[i]).row()->0 < (#[trigger] rows[j]).row()->0
}

/// Whether one of the rows has that id.
pub open spec fn has_row<T: Identifiable>(rows: Seq<T>, id: i64) -> bool {
    exists|i: int| 0 <= i < rows.len() && (#[trigger] rows[i]).row() == Some(id)
}

/// Whether something is kept in one of the rows.
pub open spec fn is_among<T: Identifiable>(rows: Seq<T>, data: T) -> bool {
    exists|i: int|
        0 <= i < rows.len() && (#[trigger] rows[i]).row() == data.row() && rows[i].content()
            == data.content()
}

/// What the statement that inserts or updates a row does to a table. The id of a new row is one
/// that was not there before. A statement that has not changed any row leaves the table as it is.
pub open spec fn upserts<C>(
    before: Map<i64, C>,
    row: Option<i64>,
    content: C,
    executed: Option<Executed>,
    after: Map<i64, C>,
) -> bool {
    match executed {
        Some(executed) if executed.changed > 0 => match row {
            Some(id) => after == before.insert(id, content),
            None => {
                &&& !before.contains_key(executed.last_insert_rowid)
                &&& after == before.insert(executed.last_insert_rowid, content)
            },
        },
        _ => after == before,
    }
}

/// What the statement that deletes a row does to a table: the row is gone if it was there. Nothing
/// is executed for what has no row.
pub open spec fn deletes<C>(
    before: Map<i64, C>,
    row: Option<i64>,
    executed: Option<Executed>,
    after: Map<i64, C>,
) -> bool {
    match (row, executed) {
        (Some(id), Some(executed)) => {
            &&& executed.changed > 0 <==> before.contains_key(id)
            &&& after == before.remove(id)
        },
        _ => after == before,
    }
}

/// What has been stored is read back by the next query, under an id of its own where it had none
/// before. No other row is changed by that. What could not be stored leaves the table as it is.
pub proof fn law_stored_rows_are_read_back<T: Identifiable>(
    data: T,
    stored: T,
    executed: Option<Executed>,
    before: Map<i64, T::Content>,
    after: Map<i64, T::Content>,
    rows: Seq<T>,
)
    requires
        upserted(data, stored, executed),
        upserts(before, data.row(), data.content(), executed, after),
        reads(after, rows),
    ensures
        upsert_failure(data.row(), executed) is None ==> {
            &&& stored.row() is Some
            &&& data.row() is Some ==> stored.row() == data.row()
            &&& data.row() is None ==> !before.contains_key(stored.row()->0)
            &&& after == before.insert(stored.row()->0, data.content())
            &&& is_among(rows, stored)
        },
        upsert_failure(data.row(), executed) is Some ==> after == before && stored == data,
{
    if upsert_failure(data.row(), executed) is None {
        let id = stored.row()->0;
        assert(after.contains_key(id));
        assert(has_row(rows, id));
        let i = choose|i: int| 0 <= i < rows.len() && (#[trigger] rows[i]).row() == Some(id);
        assert(rows[i].row() == stored.row());
    }
}

/// Storing something once more leaves the table as it is after the first time.
pub proof fn law_storing_again_changes_nothing<T: Identifiable>(
    data: T,
    stored: T,
    again: T,
    first: Option<Executed>,
    second: Option<Executed>,
    before: Map<i64, T::Content>,
    between: Map<i64, T::Content>,
    after: Map<i64, T::Content>,
)
    requires
        upserted(data, stored, first),
        upsert_failure(data.row(), first) is None,
        upserts(before, data.row(), data.content(), first, between),
        upserted(stored, again, second),
        upserts(between, stored.row(), stored.content(), second, after),
    ensures
        after == between,
        again.row() == stored.row(),
        again.content() == data.content(),
{
    assert(between.insert(stored.row()->0, data.content()) =~= between);
}

/// Deleting what was newly stored restores the table of before, and can be done only once.
pub proof fn law_deleting_undoes_storing<T: Identifiable>(
    data: T,
    stored: T,
    executed: Option<Executed>,
    deleted: Executed,
    deleted_again: Executed,
    before: Map<i64, T::Content>,
    between: Map<i64, T::Content>,
    after: Map<i64, T::Content>,
    end: Map<i64, T::Content>,
)
    requires
        upserted(data, stored, executed),
        upsert_failure(data.row(), executed) is None,
        upserts(before, data.row(), data.content(), executed, between),
        data.row() matches Some(id) ==> !before.contains_key(id),
        deletes(between, stored.row(), Some(deleted), after),
        deletes(after, stored.row(), Some(deleted_again), end),
    ensures
        delete_failure(stored.row(), Some(deleted)) is None,
        after == before,
        delete_failure(stored.row(), Some(deleted_again)) == Some(DatabaseError::NoRowDeleted),
        end == before,
{
    let id = stored.row()->0;
    assert(between.remove(id) =~= before);
    assert(before.remove(id) =~= before);
}

/// What was never stored cannot be deleted, and no row is.
pub proof fn law_what_is_not_stored_cannot_be_deleted<T: Identifiable>(
    data: T,
    executed: Option<Executed>,
    before: Map<i64, T::Content>,
    after: Map<i64, T::Content>,
)
    requires
        data.row() is None,
        deletes(before, data.row(), executed, after),
    ensures
        delete_failure(data.row(), executed) == Some(DatabaseError::NoRowDeleted),
        after == before,
{
}

proof fn lemma_same_first<T: Identifiable>(table: Map<i64, T::Content>, a: Seq<T>, b: Seq<T>)
    requires
        reads(table, a),
        reads(table, b),
        a.len() > 0,
    ensures
        b.len() > 0,
        b[0].row() == a[0].row(),
        b[0].content() == a[0].content(),
{
    let id = a[0].row()->0;
    assert(has_row(b, id));
    let i = choose|i: int| 0 <= i < b.len() && (#[trigger] b[i]).row() == Some(id);
    assert(b[0].row() is Some);
    let other = b[0].row()->0;
    assert(table.contains_key(other));
    assert(has_row(a, other));
    let j = choose|j: int| 0 <= j < a.len() && (#[trigger] a[j]).row() == Some(other);
    if i > 0 && j > 0 {
        assert(b[0].row()->0 < b[i].row()->0);
        assert(a[0].row()->0 < a[j].row()->0);
    }
}

proof fn lemma_only_row<T: Identifiable>(id: i64, content: T::Content, rows: Seq<T>)
    requires
        reads(Map::<i64, T::Content>::empty().insert(id, content), rows),
    ensures
        rows.len() > 0,
        rows[0].row() == Some(id),
        rows[0].content() == content,
{
    let table = Map::<i64, T::Content>::empty().insert(id, content);
    assert(table.contains_key(id));
    assert(has_row(rows, id));
    assert(rows[0].row() is Some);
}

proof fn lemma_no_rows<T: Identifiable>(table: Map<i64, T::Content>, rows: Seq<T>)
    requires
        reads(table, rows),
        rows.len() == 0,
    ensures
        table =~= Map::empty(),
{
    assert forall|id: i64| !#[trigger] table.contains_key(id) by {
        if table.contains_key(id) {
            assert(has_row(rows, id));
        }
    }
}

/// What a query that stores the default where there is no row does to a table.
pub open spec fn queries<T: Identifiable>(
    before: Map<i64, T::Content>,
    rows: Seq<T>,
    default: T,
    executed: Option<Executed>,
    after: Map<i64, T::Content>,
) -> bool {
    &&& reads(before, rows)
    &&& if rows.len() == 0 {
        &&& upsert_failure(None, executed) is None
        &&& upserts(before, None, default.content(), executed, after)
    } else {
        after == before
    }
}

/// A query that stores the default where there is no row gives something that is kept in a row: the
/// first one there is, or else the default, which is in the only row then. From then on it gives
/// the same each time, and the table does not change any more.
pub proof fn law_queried_default_is_kept<T: Identifiable>(
    first: T,
    second: T,
    rows: Seq<T>,
    rows_again: Seq<T>,
    default: T,
    default_again: T,
    executed: Option<Executed>,
    executed_again: Option<Executed>,
    before: Map<i64, T::Content>,
    between: Map<i64, T::Content>,
    after: Map<i64, T::Content>,
)
    requires
        default.row() is None,
        queries(before, rows, default, executed, between),
        queried(rows, default, executed, first),
        queries(between, rows_again, default_again, executed_again, after),
        queried(rows_again, default_again, executed_again, second),
    ensures
        first.row() is Some,
        between.contains_key(first.row()->0),
        between[first.row()->0] == first.content(),
        if before =~= Map::empty() {
            &&& first.content() == default.content()
            &&& between == Map::<i64, T::Content>::empty().insert(first.row()->0, first.content())
        } else {
            &&& rows.len() > 0
            &&& first.row() == rows[0].row()
            &&& first.content() == rows[0].content()
            &&& between == before
        },
        second.row() == first.row(),
        second.content() == first.content(),
        after == between,
{
    if rows.len() == 0 {
        lemma_no_rows(before, rows);
        assert(before =~= Map::empty());
        lemma_only_row(first.row()->0, first.content(), rows_again);
    } else {
        assert(before.contains_key(rows[0].row()->0));
        lemma_same_first(before, rows, rows_again);
    }
}

/// The settings stay the same from one query to the next, and so does the row that they are in.
pub proof fn law_queried_settings_are_kept(
    first: Settings,
    second: Settings,
    rows: Seq<Settings>,
    rows_again: Seq<Settings>,
    default: Settings,
    executed: Option<Executed>,
    executed_again: Option<Executed>,
    before: Map<i64, <Settings as Identifiable>::Content>,
    between: Map<i64, <Settings as Identifiable>::Content>,
    after: Map<i64, <Settings as Identifiable>::Content>,
)
    requires
        default.id is None,
        queries(before, rows, default, executed, between),
        queried(rows, default, executed, first),
        queries(between, rows_again, default, executed_again, after),
        queried(rows_again, default, executed_again, second),
    ensures
        first.id is Some,
        second == first,
        after == between,
{
    law_queried_default_is_kept(
        first,
        second,
        rows,
        rows_again,
        default,
        default,
        executed,
        executed_again,
        before,
        between,
        after,
    );
}

/// The seeds stay the same from one query to the next, also those that were made up for an empty
/// table, and so does the row that they are in. Where there are seeds, no row is added.
pub proof fn law_queried_seeds_are_kept(
    first: Seeds,
    second: Seeds,
    rows: Seq<Seeds>,
    rows_again: Seq<Seeds>,
    default: Seeds,
    default_again: Seeds,
    executed: Option<Executed>,
    executed_again: Option<Executed>,
    before: Map<i64, (u64, u32)>,
    between: Map<i64, (u64, u32)>,
    after: Map<i64, (u64, u32)>,
)
    requires
        default.id is None,
        reads(before, rows),
        upserted(first_or(rows, default), first, executed),
        upsert_failure(first_or(rows, default).id, executed) is None,
        upserts(
            before,
            first_or(rows, default).id,
            first_or(rows, default).content(),
            executed,
            between,
        ),
        reads(between, rows_again),
        upserted(first_or(rows_again, default_again), second, executed_again),
        upserts(
            between,
            first_or(rows_again, default_again).id,
            first_or(rows_again, default_again).content(),
            executed_again,
            after,
        ),
    ensures
        first.id is Some,
        rows.len() == 0 ==> first.content() == default.content(),
        rows.len() > 0 ==> between == before,
        second == first,
        after == between,
{
    if rows.len() == 0 {
        lemma_no_rows(before, rows);
        lemma_only_row(first.id->0, first.content(), rows_again);
    } else {
        assert(rows[0].row() is Some);
        assert(before.insert(first.id->0, first.content()) =~= before);
        lemma_same_first(before, rows, rows_again);
    }
    assert(between.insert(first.id->0, first.content()) =~= between);
}

} // verus!
