//! Laws of the lookups: foreign keys, indexes, triggers, tables and the number
//! of rows a plan visits.

use crate::ast::TriggerEvent;
use crate::plan::{JoinedTable, Operation, Table};
use crate::resolver::{Connection, Resolver};
use crate::schema::{BTreeTable, Index};
use crate::stmt_journal;
use vstd::prelude::*;

verus! {

/// With foreign keys enforced, one key that has the table as its child is
/// enough, wherever it stands in the catalog, whatever other keys there are and
/// whether or not it is resolved.
pub proof fn fk_child_has_fks(
    connection: Connection,
    resolver: Resolver,
    database_id: usize,
    table_name: Seq<char>,
    i: int,
)
    requires
        0 <= i < resolver.foreign_keys@.len(),
        resolver.foreign_keys@[i].database_id == database_id,
        resolver.foreign_keys@[i].child_table@ == table_name,
    ensures
        resolver.is_fk_child(database_id, table_name),
        connection.foreign_keys ==> stmt_journal::in_fk_relationship(
            connection,
            resolver,
            database_id,
            table_name,
        ),
{
    assert(resolver.foreign_keys@[i].has_child(database_id, table_name));
}

/// With foreign keys enforced, one resolved key that has the table as its
/// parent is enough, wherever it stands in the catalog and whatever other keys
/// there are.
pub proof fn fk_parent_has_fks(
    connection: Connection,
    resolver: Resolver,
    database_id: usize,
    table_name: Seq<char>,
    i: int,
)
    requires
        0 <= i < resolver.foreign_keys@.len(),
        resolver.foreign_keys@[i].database_id == database_id,
        resolver.foreign_keys@[i].parent_table@ == table_name,
        resolver.foreign_keys@[i].resolved,
    ensures
        resolver.is_fk_parent(database_id, table_name),
        connection.foreign_keys ==> stmt_journal::in_fk_relationship(
            connection,
            resolver,
            database_id,
            table_name,
        ),
{
    assert(resolver.foreign_keys@[i].resolves_to(database_id, table_name));
}

/// A table that no key of its database names as its child is the child of
/// none.
pub proof fn no_fk_child_is_invented(
    resolver: Resolver,
    database_id: usize,
    table_name: Seq<char>,
)
    requires
        forall|i: int|
            #![trigger resolver.foreign_keys@[i]]
            0 <= i < resolver.foreign_keys@.len() ==> resolver.foreign_keys@[i].database_id
                != database_id || resolver.foreign_keys@[i].child_table@ != table_name,
    ensures
        !resolver.is_fk_child(database_id, table_name),
{
}

/// A table that no resolved key of its database names as its parent is the
/// parent of none.
pub proof fn no_fk_parent_is_invented(
    resolver: Resolver,
    database_id: usize,
    table_name: Seq<char>,
)
    requires
        forall|i: int|
            #![trigger resolver.foreign_keys@[i]]
            0 <= i < resolver.foreign_keys@.len() ==> resolver.foreign_keys@[i].database_id
                != database_id || resolver.foreign_keys@[i].parent_table@ != table_name
                || !resolver.foreign_keys@[i].resolved,
    ensures
        !resolver.is_fk_parent(database_id, table_name),
{
}

/// A table that is neither the child of a key nor the parent of a resolved one
/// has no foreign keys, and no table has any while they are not enforced.
pub proof fn no_fks_are_invented(
    connection: Connection,
    resolver: Resolver,
    database_id: usize,
    table_name: Seq<char>,
)
    requires
        !connection.foreign_keys || forall|i: int|
            #![trigger resolver.foreign_keys@[i]]
            0 <= i < resolver.foreign_keys@.len() ==> resolver.foreign_keys@[i].database_id
                != database_id || resolver.foreign_keys@[i].child_table@ != table_name && !(
            resolver.foreign_keys@[i].parent_table@ == table_name
                && resolver.foreign_keys@[i].resolved),
    ensures
        !stmt_journal::in_fk_relationship(connection, resolver, database_id, table_name),
{
}

/// Adding foreign keys to the catalog never takes a relationship away.
pub proof fn more_fks_keep_relationships(
    connection: Connection,
    fewer: Resolver,
    more: Resolver,
    database_id: usize,
    table_name: Seq<char>,
)
    requires
        forall|i: int|
            0 <= i < fewer.foreign_keys@.len() ==> more.foreign_keys@.contains(
                #[trigger] fewer.foreign_keys@[i],
            ),
        stmt_journal::in_fk_relationship(connection, fewer, database_id, table_name),
    ensures
        stmt_journal::in_fk_relationship(connection, more, database_id, table_name),
{
    let i = choose|i: int|
        0 <= i < fewer.foreign_keys@.len() && ((#[trigger] fewer.foreign_keys@[i]).has_child(
            database_id,
            table_name,
        ) || fewer.foreign_keys@[i].resolves_to(database_id, table_name));
    let j = choose|j: int|
        0 <= j < more.foreign_keys@.len() && more.foreign_keys@[j] == fewer.foreign_keys@[i];
    assert(more.foreign_keys@[j] == fewer.foreign_keys@[i]);
}

/// A catalog without indexes has none for any table.
pub proof fn no_indexes_no_modes(resolver: Resolver, database_id: usize, table_name: Seq<char>)
    requires
        resolver.indexes@.len() == 0,
    ensures
        resolver.spec_index_modes(database_id, table_name).len() == 0,
{
    reveal(Seq::filter);
}

/// A new index of the table is listed last, with its conflict clause and its
/// uniqueness; one of another table or another database changes nothing.
pub proof fn index_modes_grow_with_the_catalog(
    before: Resolver,
    after: Resolver,
    index: Index,
    database_id: usize,
    table_name: Seq<char>,
)
    requires
        after.indexes@ == before.indexes@.push(index),
    ensures
        index.database_id == database_id && index.table_name@ == table_name
            ==> after.spec_index_modes(database_id, table_name) == before.spec_index_modes(
            database_id,
            table_name,
        ).push((index.on_conflict, index.unique)),
        index.database_id != database_id || index.table_name@ != table_name
            ==> after.spec_index_modes(database_id, table_name) == before.spec_index_modes(
            database_id,
            table_name,
        ),
{
    reveal(Seq::filter);
    assert(after.indexes@.drop_last() == before.indexes@);
    assert(after.indexes@.last() == index);
}

/// Every index of the table is listed, wherever it stands in the catalog.
pub proof fn index_of_table_is_listed(
    resolver: Resolver,
    database_id: usize,
    table_name: Seq<char>,
    i: int,
) -> (k: int)
    requires
        0 <= i < resolver.indexes@.len(),
        resolver.indexes@[i].database_id == database_id,
        resolver.indexes@[i].table_name@ == table_name,
    ensures
        0 <= k < resolver.spec_index_modes(database_id, table_name).len(),
        resolver.spec_index_modes(database_id, table_name)[k] == (
            resolver.indexes@[i].on_conflict,
            resolver.indexes@[i].unique,
        ),
{
    let on_table = |index: Index| index.is_on(database_id, table_name);
    let kept = resolver.indexes@.filter(on_table);
    assert(on_table(resolver.indexes@[i]));
    resolver.indexes@.lemma_filter_contains(on_table, i);
    let k = choose|k: int| 0 <= k < kept.len() && kept[k] == resolver.indexes@[i];
    assert(resolver.spec_index_modes(database_id, table_name)[k] == kept[k].spec_mode());
    k
}

/// Only indexes of the table are listed.
pub proof fn listed_index_is_of_table(
    resolver: Resolver,
    database_id: usize,
    table_name: Seq<char>,
    k: int,
) -> (i: int)
    requires
        0 <= k < resolver.spec_index_modes(database_id, table_name).len(),
    ensures
        0 <= i < resolver.indexes@.len(),
        resolver.indexes@[i].database_id == database_id,
        resolver.indexes@[i].table_name@ == table_name,
        resolver.spec_index_modes(database_id, table_name)[k] == (
            resolver.indexes@[i].on_conflict,
            resolver.indexes@[i].unique,
        ),
{
    let on_table = |index: Index| index.is_on(database_id, table_name);
    let kept = resolver.indexes@.filter(on_table);
    resolver.indexes@.lemma_filter_pred(on_table, k);
    kept_is_from_source(resolver.indexes@, on_table, k);
    choose|i: int| 0 <= i < resolver.indexes@.len() && resolver.indexes@[i] == kept[k]
}

/// What a filter keeps comes from the sequence it filters.
proof fn kept_is_from_source(source: Seq<Index>, pred: spec_fn(Index) -> bool, k: int)
    requires
        0 <= k < source.filter(pred).len(),
    ensures
        source.contains(source.filter(pred)[k]),
    decreases source.len(),
{
    reveal(Seq::filter);
    if source.len() > 0 {
        let rest = source.drop_last();
        if k < rest.filter(pred).len() {
            kept_is_from_source(rest, pred, k);
            let i = choose|i: int| 0 <= i < rest.len() && rest[i] == rest.filter(pred)[k];
            assert(source[i] == source.filter(pred)[k]);
        } else {
            assert(source[source.len() - 1] == source.filter(pred)[k]);
        }
    }
}

/// One UPDATE trigger on the table is enough, wherever it stands in the catalog
/// and whichever columns are assigned.
pub proof fn update_trigger_fires(
    resolver: Resolver,
    database_id: usize,
    table_name: Seq<char>,
    updated_columns: Seq<usize>,
    i: int,
)
    requires
        0 <= i < resolver.triggers@.len(),
        resolver.triggers@[i].database_id == database_id,
        resolver.triggers@[i].table_name@ == table_name,
        resolver.triggers@[i].event is Update,
    ensures
        resolver.fires_trigger(database_id, table_name, updated_columns),
{
    assert(resolver.triggers@[i].fires_on_update(database_id, table_name, updated_columns));
}

/// One UPDATE OF trigger on the table is enough if it names one of the assigned
/// columns, in whatever place on either list.
pub proof fn update_of_trigger_fires(
    resolver: Resolver,
    database_id: usize,
    table_name: Seq<char>,
    updated_columns: Seq<usize>,
    i: int,
    named: int,
    assigned: int,
)
    requires
        0 <= i < resolver.triggers@.len(),
        resolver.triggers@[i].database_id == database_id,
        resolver.triggers@[i].table_name@ == table_name,
        resolver.triggers@[i].event matches TriggerEvent::UpdateOf(columns) && 0 <= named
            < columns@.len() && 0 <= assigned < updated_columns.len() && columns@[named]
            == updated_columns[assigned],
    ensures
        resolver.fires_trigger(database_id, table_name, updated_columns),
{
    if let TriggerEvent::UpdateOf(columns) = resolver.triggers@[i].event {
        assert(updated_columns.contains(columns@[named]));
    }
    assert(resolver.triggers@[i].fires_on_update(database_id, table_name, updated_columns));
}

/// An UPDATE fires no trigger where each one watches another table, an INSERT
/// or a DELETE, or columns none of which is assigned.
pub proof fn no_trigger_is_invented(
    resolver: Resolver,
    database_id: usize,
    table_name: Seq<char>,
    updated_columns: Seq<usize>,
)
    requires
        forall|i: int|
            #![trigger resolver.triggers@[i]]
            0 <= i < resolver.triggers@.len() ==> {
                ||| resolver.triggers@[i].database_id != database_id
                ||| resolver.triggers@[i].table_name@ != table_name
                ||| resolver.triggers@[i].event is Insert
                ||| resolver.triggers@[i].event is Delete
                ||| resolver.triggers@[i].event matches TriggerEvent::UpdateOf(columns)
                    && forall|named: int, assigned: int|
                    0 <= named < columns@.len() && 0 <= assigned < updated_columns.len()
                        ==> #[trigger] columns@[named] != #[trigger] updated_columns[assigned]
            },
    ensures
        !resolver.fires_trigger(database_id, table_name, updated_columns),
{
}

/// Adding triggers to the catalog, or columns to the assigned ones, never stops
/// a trigger from firing.
pub proof fn more_triggers_keep_firing(
    fewer: Resolver,
    more: Resolver,
    database_id: usize,
    table_name: Seq<char>,
    fewer_columns: Seq<usize>,
    more_columns: Seq<usize>,
)
    requires
        forall|i: int|
            0 <= i < fewer.triggers@.len() ==> more.triggers@.contains(
                #[trigger] fewer.triggers@[i],
            ),
        forall|i: int|
            0 <= i < fewer_columns.len() ==> more_columns.contains(#[trigger] fewer_columns[i]),
        fewer.fires_trigger(database_id, table_name, fewer_columns),
    ensures
        more.fires_trigger(database_id, table_name, more_columns),
{
    let i = choose|i: int|
        0 <= i < fewer.triggers@.len() && (#[trigger] fewer.triggers@[i]).fires_on_update(
            database_id,
            table_name,
            fewer_columns,
        );
    let trigger = fewer.triggers@[i];
    if let TriggerEvent::UpdateOf(columns) = trigger.event {
        let k = choose|k: int|
            0 <= k < columns@.len() && fewer_columns.contains(#[trigger] columns@[k]);
        let m = choose|m: int|
            0 <= m < fewer_columns.len() && fewer_columns[m] == columns@[k];
        assert(more_columns.contains(fewer_columns[m]));
        assert(more_columns.contains(columns@[k]));
    }
    assert(trigger.fires_on_update(database_id, table_name, more_columns));
    let j = choose|j: int| 0 <= j < more.triggers@.len() && more.triggers@[j] == trigger;
    assert(more.triggers@[j].fires_on_update(database_id, table_name, more_columns));
}

/// A seek that leaves a column of its index free is no single-row plan, for any
/// number of columns, and neither is one on an index that is not unique.
pub proof fn open_seek_visits_many_rows(unique: bool, key_columns: usize, eq_columns: usize)
    requires
        !unique || eq_columns < key_columns,
    ensures
        !(Operation::IndexSeek { unique, key_columns, eq_columns }).is_point_lookup(),
{
}

/// A seek that fixes every column of a unique index visits at most one row.
pub proof fn full_unique_seek_visits_one_row(key_columns: usize, eq_columns: usize)
    requires
        eq_columns >= key_columns,
    ensures
        (Operation::IndexSeek { unique: true, key_columns, eq_columns }).is_point_lookup(),
{
}

/// A rowid names at most one row; a scan visits them all.
pub proof fn rowid_names_one_row()
    ensures
        Operation::RowidEq.is_point_lookup(),
        !Operation::Scan.is_point_lookup(),
{
}

/// Fixing one more column never makes a single-row seek visit more rows.
pub proof fn fixing_columns_keeps_single_row(
    unique: bool,
    key_columns: usize,
    fewer: usize,
    more: usize,
)
    requires
        fewer <= more,
        (Operation::IndexSeek { unique, key_columns, eq_columns: fewer }).is_point_lookup(),
    ensures
        (Operation::IndexSeek { unique, key_columns, eq_columns: more }).is_point_lookup(),
{
}

/// A reference to an ordinary table gives that table, and one to a virtual
/// table gives none, however the table is visited.
pub proof fn reference_gives_its_table(reference: JoinedTable, table: BTreeTable)
    ensures
        reference.table == Table::BTree(table) ==> reference.spec_btree() == Some(table),
        reference.table is Virtual ==> reference.spec_btree() is None,
{
}

} // verus!
