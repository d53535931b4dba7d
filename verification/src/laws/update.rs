//! Laws of UPDATE: what keeps the multi-write flag, and what sets may-abort.

use crate::ast::{ResolveType, TriggerEvent};
use crate::laws::catalog;
use crate::plan::{Operation, Table, UpdatePlan};
use crate::program::ProgramBuilder;
use crate::resolver::{Connection, Resolver};
use crate::schema::BTreeTable;
use crate::stmt_journal;
use vstd::prelude::*;

verus! {


/// An UPDATE of a virtual table keeps the flags as they were.
pub proof fn virtual_table_keeps_flags(
    program: ProgramBuilder,
    plan: UpdatePlan,
    resolver: Resolver,
    connection: Connection,
)
    requires
        plan.target_table.table is Virtual,
    ensures
        stmt_journal::update_flags(program, plan, resolver, connection) == program,
{
}

/// Any one UPDATE trigger on the table keeps the journal, whichever columns the
/// statement assigns and however few rows it visits.
pub proof fn update_trigger_keeps_journal(
    program: ProgramBuilder,
    plan: UpdatePlan,
    resolver: Resolver,
    connection: Connection,
    table: BTreeTable,
    i: int,
)
    requires
        plan.target_table.table == Table::BTree(table),
        0 <= i < resolver.triggers@.len(),
        resolver.triggers@[i].database_id == plan.target_table.database_id,
        resolver.triggers@[i].table_name@ == table.name@,
        resolver.triggers@[i].event is Update,
    ensures
        stmt_journal::update_flags(program, plan, resolver, connection).may_abort,
        stmt_journal::update_flags(program, plan, resolver, connection).multi_write
            == program.multi_write,
        !program.read_only && program.multi_write ==> stmt_journal::update_flags(
            program,
            plan,
            resolver,
            connection,
        ).uses_stmt_journal(),
{
    catalog::update_trigger_fires(
        resolver,
        plan.target_table.database_id,
        table.name@,
        stmt_journal::assigned_columns(plan.set_clauses@),
        i,
    );
}

/// Any one UPDATE OF trigger that names the column of any one SET clause keeps the
/// journal.
pub proof fn update_of_trigger_keeps_journal(
    program: ProgramBuilder,
    plan: UpdatePlan,
    resolver: Resolver,
    connection: Connection,
    table: BTreeTable,
    i: int,
    named: int,
    k: int,
)
    requires
        plan.target_table.table == Table::BTree(table),
        0 <= i < resolver.triggers@.len(),
        resolver.triggers@[i].database_id == plan.target_table.database_id,
        resolver.triggers@[i].table_name@ == table.name@,
        0 <= k < plan.set_clauses@.len(),
        resolver.triggers@[i].event matches TriggerEvent::UpdateOf(columns) && 0 <= named
            < columns@.len() && columns@[named] == plan.set_clauses@[k].column_index,
    ensures
        stmt_journal::update_flags(program, plan, resolver, connection).may_abort,
        stmt_journal::update_flags(program, plan, resolver, connection).multi_write
            == program.multi_write,
        !program.read_only && program.multi_write ==> stmt_journal::update_flags(
            program,
            plan,
            resolver,
            connection,
        ).uses_stmt_journal(),
{
    let assigned = stmt_journal::assigned_columns(plan.set_clauses@);
    assert(assigned[k] == plan.set_clauses@[k].column_index);
    catalog::update_of_trigger_fires(
        resolver,
        plan.target_table.database_id,
        table.name@,
        assigned,
        i,
        named,
        k,
    );
}

/// Any one enforced foreign key with the table as its child, or resolved with the
/// table as its parent, keeps the journal.
pub proof fn foreign_key_keeps_journal(
    program: ProgramBuilder,
    plan: UpdatePlan,
    resolver: Resolver,
    connection: Connection,
    table: BTreeTable,
    i: int,
)
    requires
        plan.target_table.table == Table::BTree(table),
        connection.foreign_keys,
        0 <= i < resolver.foreign_keys@.len(),
        resolver.foreign_keys@[i].database_id == plan.target_table.database_id,
        resolver.foreign_keys@[i].child_table@ == table.name@ || (
        resolver.foreign_keys@[i].parent_table@ == table.name@ && resolver.foreign_keys@[i].resolved),
    ensures
        stmt_journal::update_flags(program, plan, resolver, connection).may_abort,
        stmt_journal::update_flags(program, plan, resolver, connection).multi_write
            == program.multi_write,
        !program.read_only && program.multi_write ==> stmt_journal::update_flags(
            program,
            plan,
            resolver,
            connection,
        ).uses_stmt_journal(),
{
    if resolver.foreign_keys@[i].child_table@ == table.name@ {
        catalog::fk_child_has_fks(connection, resolver, plan.target_table.database_id, table.name@, i);
    } else {
        catalog::fk_parent_has_fks(connection, resolver, plan.target_table.database_id, table.name@, i);
    }
}

/// A RETURNING clause with at least one column keeps the journal.
pub proof fn returning_keeps_journal(
    program: ProgramBuilder,
    plan: UpdatePlan,
    resolver: Resolver,
    connection: Connection,
    table: BTreeTable,
)
    requires
        plan.target_table.table == Table::BTree(table),
        plan.returning matches Some(columns) && columns@.len() > 0,
    ensures
        stmt_journal::update_flags(program, plan, resolver, connection).may_abort,
        stmt_journal::update_flags(program, plan, resolver, connection).multi_write
            == program.multi_write,
        !program.read_only && program.multi_write ==> stmt_journal::update_flags(
            program,
            plan,
            resolver,
            connection,
        ).uses_stmt_journal(),
{
}

/// A LIMIT, an OFFSET, a scan, or a seek that is not on a unique index or leaves a
/// column of it free: each on its own keeps the multi-write flag.
pub proof fn several_rows_keep_multi_write(
    program: ProgramBuilder,
    plan: UpdatePlan,
    resolver: Resolver,
    connection: Connection,
    table: BTreeTable,
)
    requires
        plan.target_table.table == Table::BTree(table),
        plan.limit is Some || plan.offset is Some || plan.target_table.op is Scan
            || (plan.target_table.op matches Operation::IndexSeek {
            unique,
            key_columns,
            eq_columns,
        } && (!unique || eq_columns < key_columns)),
    ensures
        stmt_journal::update_flags(program, plan, resolver, connection).multi_write
            == program.multi_write,
{
}

/// `UPDATE OR REPLACE` keeps the multi-write flag, whatever the table declares.
pub proof fn or_replace_keeps_multi_write(
    program: ProgramBuilder,
    plan: UpdatePlan,
    resolver: Resolver,
    connection: Connection,
    table: BTreeTable,
)
    requires
        plan.target_table.table == Table::BTree(table),
        plan.or_conflict == Some(ResolveType::Replace),
    ensures
        stmt_journal::update_flags(program, plan, resolver, connection).multi_write
            == program.multi_write,
{
}

/// Without a mode of the statement, a primary key declared ON CONFLICT REPLACE
/// keeps the multi-write flag.
pub proof fn replacing_key_keeps_multi_write(
    program: ProgramBuilder,
    plan: UpdatePlan,
    resolver: Resolver,
    connection: Connection,
    table: BTreeTable,
)
    requires
        plan.target_table.table == Table::BTree(table),
        plan.or_conflict is None,
        table.rowid_alias_conflict_clause == Some(ResolveType::Replace),
    ensures
        stmt_journal::update_flags(program, plan, resolver, connection).multi_write
            == program.multi_write,
{
}

/// Without a mode of the statement, any one index to update that is declared ON
/// CONFLICT REPLACE keeps the multi-write flag, wherever it stands in the plan.
pub proof fn replacing_index_keeps_multi_write(
    program: ProgramBuilder,
    plan: UpdatePlan,
    resolver: Resolver,
    connection: Connection,
    table: BTreeTable,
    i: int,
)
    requires
        plan.target_table.table == Table::BTree(table),
        plan.or_conflict is None,
        0 <= i < plan.indexes_to_update@.len(),
        plan.indexes_to_update@[i].on_conflict == Some(ResolveType::Replace),
    ensures
        stmt_journal::update_flags(program, plan, resolver, connection).multi_write
            == program.multi_write,
{
    let clauses = stmt_journal::conflict_clauses(
        stmt_journal::modes_of_indexes(plan.indexes_to_update@),
    );
    assert(clauses[i] == Some(ResolveType::Replace));
}

/// A point lookup without LIMIT and OFFSET clears the multi-write flag where no
/// trigger fires, no foreign key touches the table, nothing is returned, and no
/// REPLACE stands in the statement or, where that has no mode, in the
/// declarations.
pub proof fn single_row_clears_multi_write(
    program: ProgramBuilder,
    plan: UpdatePlan,
    resolver: Resolver,
    connection: Connection,
    table: BTreeTable,
)
    requires
        plan.target_table.table == Table::BTree(table),
        plan.limit is None,
        plan.offset is None,
        plan.target_table.op is RowidEq || (plan.target_table.op matches Operation::IndexSeek {
            unique,
            key_columns,
            eq_columns,
        } && unique && eq_columns >= key_columns),
        forall|i: int|
            #![trigger resolver.triggers@[i]]
            0 <= i < resolver.triggers@.len() ==> {
                ||| resolver.triggers@[i].database_id != plan.target_table.database_id
                ||| resolver.triggers@[i].table_name@ != table.name@
                ||| resolver.triggers@[i].event is Insert
                ||| resolver.triggers@[i].event is Delete
                ||| resolver.triggers@[i].event matches TriggerEvent::UpdateOf(columns)
                    && forall|named: int, k: int|
                    0 <= named < columns@.len() && 0 <= k < plan.set_clauses@.len()
                        ==> #[trigger] columns@[named] != (
                    #[trigger] plan.set_clauses@[k]).column_index
            },
        !connection.foreign_keys || forall|i: int|
            #![trigger resolver.foreign_keys@[i]]
            0 <= i < resolver.foreign_keys@.len() ==> resolver.foreign_keys@[i].database_id
                != plan.target_table.database_id || resolver.foreign_keys@[i].child_table@
                != table.name@ && !(
            resolver.foreign_keys@[i].parent_table@ == table.name@
                && resolver.foreign_keys@[i].resolved),
        plan.returning matches Some(columns) ==> columns@.len() == 0,
        plan.or_conflict != Some(ResolveType::Replace),
        plan.or_conflict is None ==> table.rowid_alias_conflict_clause != Some(ResolveType::Replace)
            && forall|i: int|
            0 <= i < plan.indexes_to_update@.len() ==> (
            #[trigger] plan.indexes_to_update@[i]).on_conflict != Some(ResolveType::Replace),
    ensures
        !stmt_journal::update_flags(program, plan, resolver, connection).multi_write,
{
    let assigned = stmt_journal::assigned_columns(plan.set_clauses@);
    assert(forall|k: int|
        0 <= k < assigned.len() ==> #[trigger] assigned[k] == plan.set_clauses@[k].column_index);
    catalog::no_trigger_is_invented(
        resolver,
        plan.target_table.database_id,
        table.name@,
        assigned,
    );
    let clauses = stmt_journal::conflict_clauses(
        stmt_journal::modes_of_indexes(plan.indexes_to_update@),
    );
    assert(forall|i: int|
        0 <= i < clauses.len() ==> #[trigger] clauses[i]
            == plan.indexes_to_update@[i].on_conflict);
}

/// Any one assigned value that can raise an error may abort the statement.
pub proof fn fallible_value_may_abort(
    program: ProgramBuilder,
    plan: UpdatePlan,
    resolver: Resolver,
    connection: Connection,
    table: BTreeTable,
    i: int,
)
    requires
        plan.target_table.table == Table::BTree(table),
        0 <= i < plan.set_clauses@.len(),
        plan.set_clauses@[i].expr.may_fail,
    ensures
        stmt_journal::update_flags(program, plan, resolver, connection).may_abort,
{
}

/// Any one index to update whose predicate can raise an error may abort the
/// statement.
pub proof fn fallible_predicate_may_abort(
    program: ProgramBuilder,
    plan: UpdatePlan,
    resolver: Resolver,
    connection: Connection,
    table: BTreeTable,
    i: int,
)
    requires
        plan.target_table.table == Table::BTree(table),
        0 <= i < plan.indexes_to_update@.len(),
        plan.indexes_to_update@[i].where_clause matches Some(predicate) && predicate.may_fail,
    ensures
        stmt_journal::update_flags(program, plan, resolver, connection).may_abort,
{
    assert(plan.indexes_to_update@[i].has_fallible_predicate());
}

/// A CHECK constraint may abort the statement, unless it runs under `OR IGNORE`,
/// `OR FAIL` or `OR ROLLBACK`; where it visits several rows, it is journaled.
pub proof fn check_may_abort(
    program: ProgramBuilder,
    plan: UpdatePlan,
    resolver: Resolver,
    connection: Connection,
    table: BTreeTable,
)
    requires
        plan.target_table.table == Table::BTree(table),
        table.check_constraints@.len() > 0,
        plan.or_conflict == None::<ResolveType> || plan.or_conflict == Some(ResolveType::Abort)
            || plan.or_conflict == Some(ResolveType::Replace),
    ensures
        stmt_journal::update_flags(program, plan, resolver, connection).may_abort,
        plan.target_table.op is Scan && !program.read_only && program.multi_write
            ==> stmt_journal::update_flags(
            program,
            plan,
            resolver,
            connection,
        ).uses_stmt_journal(),
        (plan.target_table.op matches Operation::IndexSeek { unique, key_columns, eq_columns } && (
        !unique || eq_columns < key_columns)) && !program.read_only && program.multi_write
            ==> stmt_journal::update_flags(
            program,
            plan,
            resolver,
            connection,
        ).uses_stmt_journal(),
{
}

/// Assigning any one NOT NULL column that is not the rowid may abort the
/// statement, unless it runs under `OR IGNORE`, `OR FAIL` or `OR ROLLBACK`; where
/// it visits several rows, it is journaled.
pub proof fn notnull_may_abort(
    program: ProgramBuilder,
    plan: UpdatePlan,
    resolver: Resolver,
    connection: Connection,
    table: BTreeTable,
    i: int,
)
    requires
        plan.target_table.table == Table::BTree(table),
        0 <= i < plan.set_clauses@.len(),
        plan.set_clauses@[i].column_index < table.columns@.len(),
        table.columns@[plan.set_clauses@[i].column_index as int].notnull,
        !table.columns@[plan.set_clauses@[i].column_index as int].is_rowid_alias,
        plan.or_conflict == None::<ResolveType> || plan.or_conflict == Some(ResolveType::Abort)
            || plan.or_conflict == Some(ResolveType::Replace),
    ensures
        stmt_journal::update_flags(program, plan, resolver, connection).may_abort,
        plan.target_table.op is Scan && !program.read_only && program.multi_write
            ==> stmt_journal::update_flags(
            program,
            plan,
            resolver,
            connection,
        ).uses_stmt_journal(),
        (plan.target_table.op matches Operation::IndexSeek { unique, key_columns, eq_columns } && (
        !unique || eq_columns < key_columns)) && !program.read_only && program.multi_write
            ==> stmt_journal::update_flags(
            program,
            plan,
            resolver,
            connection,
        ).uses_stmt_journal(),
{
    assert(table.columns.len() == table.columns@.len());
    assert(plan.set_clauses@[i].sets_notnull_column(table));
}

/// A UNIQUE or PRIMARY KEY declaration of the table, or any one unique index to
/// update, may abort the statement under `OR ABORT`, and without a mode where the
/// primary key declares ABORT or nothing; where several rows are visited, it is
/// journaled.
pub proof fn uniqueness_may_abort(
    program: ProgramBuilder,
    plan: UpdatePlan,
    resolver: Resolver,
    connection: Connection,
    table: BTreeTable,
    i: int,
)
    requires
        plan.target_table.table == Table::BTree(table),
        table.unique_sets@.len() > 0 || 0 <= i < plan.indexes_to_update@.len()
            && plan.indexes_to_update@[i].unique,
        plan.or_conflict == Some(ResolveType::Abort) || plan.or_conflict == None::<ResolveType> && (
        table.rowid_alias_conflict_clause == None::<ResolveType>
            || table.rowid_alias_conflict_clause == Some(ResolveType::Abort)),
    ensures
        stmt_journal::update_flags(program, plan, resolver, connection).may_abort,
        plan.target_table.op is Scan && !program.read_only && program.multi_write
            ==> stmt_journal::update_flags(
            program,
            plan,
            resolver,
            connection,
        ).uses_stmt_journal(),
        (plan.target_table.op matches Operation::IndexSeek { unique, key_columns, eq_columns } && (
        !unique || eq_columns < key_columns)) && !program.read_only && program.multi_write
            ==> stmt_journal::update_flags(
            program,
            plan,
            resolver,
            connection,
        ).uses_stmt_journal(),
{
}

/// Without a mode of the statement, any one unique index to update that declares
/// ABORT or nothing may abort it, whatever the primary key declares; where several
/// rows are visited, it is journaled.
pub proof fn unique_index_may_abort(
    program: ProgramBuilder,
    plan: UpdatePlan,
    resolver: Resolver,
    connection: Connection,
    table: BTreeTable,
    i: int,
)
    requires
        plan.target_table.table == Table::BTree(table),
        plan.or_conflict is None,
        0 <= i < plan.indexes_to_update@.len(),
        plan.indexes_to_update@[i].unique,
        plan.indexes_to_update@[i].on_conflict == None::<ResolveType>
            || plan.indexes_to_update@[i].on_conflict == Some(ResolveType::Abort),
    ensures
        stmt_journal::update_flags(program, plan, resolver, connection).may_abort,
        plan.target_table.op is Scan && !program.read_only && program.multi_write
            ==> stmt_journal::update_flags(
            program,
            plan,
            resolver,
            connection,
        ).uses_stmt_journal(),
        (plan.target_table.op matches Operation::IndexSeek { unique, key_columns, eq_columns } && (
        !unique || eq_columns < key_columns)) && !program.read_only && program.multi_write
            ==> stmt_journal::update_flags(
            program,
            plan,
            resolver,
            connection,
        ).uses_stmt_journal(),
{
    let modes = stmt_journal::modes_of_indexes(plan.indexes_to_update@);
    assert(stmt_journal::index_aborts(
        modes[i],
        stmt_journal::update_sets_notnull(plan, table) || table.check_constraints@.len() > 0,
    ));
}

/// An UPDATE cannot abort where no trigger fires, no foreign key touches the
/// table, nothing is returned, no evaluated expression can fail, and no constraint
/// aborts: under `OR IGNORE`, `OR FAIL` and `OR ROLLBACK`; under `OR REPLACE`
/// without CHECK and assigned NOT NULL columns; under `OR ABORT` without uniqueness
/// either; and without a mode where in addition neither a unique index nor, for
/// uniqueness, the primary key aborts.
pub proof fn harmless_update_cannot_abort(
    program: ProgramBuilder,
    plan: UpdatePlan,
    resolver: Resolver,
    connection: Connection,
    table: BTreeTable,
)
    requires
        plan.target_table.table == Table::BTree(table),
        forall|i: int|
            #![trigger resolver.triggers@[i]]
            0 <= i < resolver.triggers@.len() ==> {
                ||| resolver.triggers@[i].database_id != plan.target_table.database_id
                ||| resolver.triggers@[i].table_name@ != table.name@
                ||| resolver.triggers@[i].event is Insert
                ||| resolver.triggers@[i].event is Delete
                ||| resolver.triggers@[i].event matches TriggerEvent::UpdateOf(columns)
                    && forall|named: int, k: int|
                    0 <= named < columns@.len() && 0 <= k < plan.set_clauses@.len()
                        ==> #[trigger] columns@[named] != (
                    #[trigger] plan.set_clauses@[k]).column_index
            },
        !connection.foreign_keys || forall|i: int|
            #![trigger resolver.foreign_keys@[i]]
            0 <= i < resolver.foreign_keys@.len() ==> resolver.foreign_keys@[i].database_id
                != plan.target_table.database_id || resolver.foreign_keys@[i].child_table@
                != table.name@ && !(
            resolver.foreign_keys@[i].parent_table@ == table.name@
                && resolver.foreign_keys@[i].resolved),
        plan.returning matches Some(columns) ==> columns@.len() == 0,
        forall|i: int|
            0 <= i < plan.set_clauses@.len() ==> !(#[trigger] plan.set_clauses@[i]).expr.may_fail,
        forall|i: int|
            #![trigger plan.indexes_to_update@[i]]
            0 <= i < plan.indexes_to_update@.len() ==> (
            plan.indexes_to_update@[i].where_clause matches Some(predicate) ==> !predicate.may_fail),
        plan.or_conflict == None::<ResolveType> || plan.or_conflict == Some(ResolveType::Abort)
            || plan.or_conflict == Some(ResolveType::Replace) ==> table.check_constraints@.len() == 0
            && forall|i: int|
            #![trigger plan.set_clauses@[i]]
            0 <= i < plan.set_clauses@.len() && plan.set_clauses@[i].column_index
                < table.columns@.len() ==> !table.columns@[plan.set_clauses@[i].column_index as int].notnull
                || table.columns@[plan.set_clauses@[i].column_index as int].is_rowid_alias,
        plan.or_conflict == Some(ResolveType::Abort) || plan.or_conflict == None::<ResolveType> && (
        table.rowid_alias_conflict_clause == None::<ResolveType>
            || table.rowid_alias_conflict_clause == Some(ResolveType::Abort))
            ==> table.unique_sets@.len() == 0 && forall|i: int|
            0 <= i < plan.indexes_to_update@.len() ==> !(
            #[trigger] plan.indexes_to_update@[i]).unique,
        plan.or_conflict == None::<ResolveType> ==> forall|i: int|
            #![trigger plan.indexes_to_update@[i]]
            0 <= i < plan.indexes_to_update@.len() && plan.indexes_to_update@[i].unique
                ==> plan.indexes_to_update@[i].on_conflict != None::<ResolveType>
                && plan.indexes_to_update@[i].on_conflict != Some(ResolveType::Abort),
    ensures
        !stmt_journal::update_flags(program, plan, resolver, connection).may_abort,
{
    let assigned = stmt_journal::assigned_columns(plan.set_clauses@);
    assert(forall|k: int|
        0 <= k < assigned.len() ==> #[trigger] assigned[k] == plan.set_clauses@[k].column_index);
    catalog::no_trigger_is_invented(
        resolver,
        plan.target_table.database_id,
        table.name@,
        assigned,
    );
    let modes = stmt_journal::modes_of_indexes(plan.indexes_to_update@);
    assert(forall|i: int|
        0 <= i < modes.len() ==> #[trigger] modes[i] == (
            plan.indexes_to_update@[i].on_conflict,
            plan.indexes_to_update@[i].unique,
        ));
}

} // verus!
