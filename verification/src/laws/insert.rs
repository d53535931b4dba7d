//! Laws of INSERT: what keeps the multi-write flag, and what sets may-abort.

use crate::ast::ResolveType;
use crate::laws::catalog;
use crate::program::ProgramBuilder;
use crate::resolver::Resolver;
use crate::schema::BTreeTable;
use crate::stmt_journal;
use vstd::prelude::*;

verus! {


/// Several rows, triggers, an ON CONFLICT DO UPDATE, AUTOINCREMENT or RETURNING:
/// each on its own keeps the multi-write flag.
pub proof fn several_writes_keep_multi_write(
    program: ProgramBuilder,
    resolver: Resolver,
    database_id: usize,
    table: BTreeTable,
    has_statement_conflict: bool,
    statement_conflict: ResolveType,
    inserting_multiple_rows: bool,
    has_triggers: bool,
    has_fks: bool,
    has_upsert: bool,
    has_autoincrement: bool,
    notnull_col_exists: bool,
    has_unique: bool,
    has_returning: bool,
)
    requires
        inserting_multiple_rows || has_triggers || has_upsert || has_autoincrement || has_returning,
    ensures
        stmt_journal::insert_flags(
            program,
            resolver,
            database_id,
            table,
            has_statement_conflict,
            statement_conflict,
            inserting_multiple_rows,
            has_triggers,
            has_fks,
            has_upsert,
            has_autoincrement,
            notnull_col_exists,
            has_unique,
            has_returning,
        ).multi_write == program.multi_write,
{
}

/// `INSERT OR REPLACE` keeps the multi-write flag, whatever the table declares.
pub proof fn or_replace_keeps_multi_write(
    program: ProgramBuilder,
    resolver: Resolver,
    database_id: usize,
    table: BTreeTable,
    inserting_multiple_rows: bool,
    has_triggers: bool,
    has_fks: bool,
    has_upsert: bool,
    has_autoincrement: bool,
    notnull_col_exists: bool,
    has_unique: bool,
    has_returning: bool,
)
    ensures
        stmt_journal::insert_flags(
            program,
            resolver,
            database_id,
            table,
            true,
            ResolveType::Replace,
            inserting_multiple_rows,
            has_triggers,
            has_fks,
            has_upsert,
            has_autoincrement,
            notnull_col_exists,
            has_unique,
            has_returning,
        ).multi_write == program.multi_write,
{
}

/// Without a mode of the statement, a primary key declared ON CONFLICT REPLACE
/// keeps the multi-write flag.
pub proof fn replacing_key_keeps_multi_write(
    program: ProgramBuilder,
    resolver: Resolver,
    database_id: usize,
    table: BTreeTable,
    statement_conflict: ResolveType,
    inserting_multiple_rows: bool,
    has_triggers: bool,
    has_fks: bool,
    has_upsert: bool,
    has_autoincrement: bool,
    notnull_col_exists: bool,
    has_unique: bool,
    has_returning: bool,
)
    requires
        table.rowid_alias_conflict_clause == Some(ResolveType::Replace),
    ensures
        stmt_journal::insert_flags(
            program,
            resolver,
            database_id,
            table,
            false,
            statement_conflict,
            inserting_multiple_rows,
            has_triggers,
            has_fks,
            has_upsert,
            has_autoincrement,
            notnull_col_exists,
            has_unique,
            has_returning,
        ).multi_write == program.multi_write,
{
}

/// Without a mode of the statement, any one index of the table declared ON
/// CONFLICT REPLACE keeps the multi-write flag, wherever it stands in the catalog.
pub proof fn replacing_index_keeps_multi_write(
    program: ProgramBuilder,
    resolver: Resolver,
    database_id: usize,
    table: BTreeTable,
    statement_conflict: ResolveType,
    inserting_multiple_rows: bool,
    has_triggers: bool,
    has_fks: bool,
    has_upsert: bool,
    has_autoincrement: bool,
    notnull_col_exists: bool,
    has_unique: bool,
    has_returning: bool,
    i: int,
)
    requires
        0 <= i < resolver.indexes@.len(),
        resolver.indexes@[i].database_id == database_id,
        resolver.indexes@[i].table_name@ == table.name@,
        resolver.indexes@[i].on_conflict == Some(ResolveType::Replace),
    ensures
        stmt_journal::insert_flags(
            program,
            resolver,
            database_id,
            table,
            false,
            statement_conflict,
            inserting_multiple_rows,
            has_triggers,
            has_fks,
            has_upsert,
            has_autoincrement,
            notnull_col_exists,
            has_unique,
            has_returning,
        ).multi_write == program.multi_write,
{
    let modes = resolver.spec_index_modes(database_id, table.name@);
    let k = catalog::index_of_table_is_listed(resolver, database_id, table.name@, i);
    assert(stmt_journal::conflict_clauses(modes)[k] == Some(ResolveType::Replace));
}

/// A single-row INSERT without any of these clears the flag: no trigger, no ON
/// CONFLICT DO UPDATE, no AUTOINCREMENT, no RETURNING, and no REPLACE in the
/// statement or, where that has no mode, in the table's declarations.
pub proof fn single_row_clears_multi_write(
    program: ProgramBuilder,
    resolver: Resolver,
    database_id: usize,
    table: BTreeTable,
    has_statement_conflict: bool,
    statement_conflict: ResolveType,
    has_fks: bool,
    notnull_col_exists: bool,
    has_unique: bool,
)
    requires
        has_statement_conflict ==> statement_conflict != ResolveType::Replace,
        !has_statement_conflict ==> table.rowid_alias_conflict_clause != Some(ResolveType::Replace)
            && forall|i: int|
            #![trigger resolver.indexes@[i]]
            0 <= i < resolver.indexes@.len() && resolver.indexes@[i].database_id == database_id
                && resolver.indexes@[i].table_name@ == table.name@
                ==> resolver.indexes@[i].on_conflict != Some(ResolveType::Replace),
    ensures
        stmt_journal::insert_flags(
            program,
            resolver,
            database_id,
            table,
            has_statement_conflict,
            statement_conflict,
            false,
            false,
            has_fks,
            false,
            false,
            notnull_col_exists,
            has_unique,
            false,
        ).multi_write == false,
{
    if !has_statement_conflict {
        let modes = resolver.spec_index_modes(database_id, table.name@);
        let clauses = stmt_journal::conflict_clauses(modes);
        assert forall|k: int| 0 <= k < clauses.len() implies #[trigger] clauses[k] != Some(
            ResolveType::Replace,
        ) by {
            assert(clauses[k] == modes[k].0);
            let i = catalog::listed_index_is_of_table(resolver, database_id, table.name@, k);
            assert(resolver.indexes@[i].on_conflict == modes[k].0);
        }
    }
}

/// Triggers, foreign keys or RETURNING: each on its own may abort the statement.
pub proof fn side_work_may_abort(
    program: ProgramBuilder,
    resolver: Resolver,
    database_id: usize,
    table: BTreeTable,
    has_statement_conflict: bool,
    statement_conflict: ResolveType,
    inserting_multiple_rows: bool,
    has_triggers: bool,
    has_fks: bool,
    has_upsert: bool,
    has_autoincrement: bool,
    notnull_col_exists: bool,
    has_unique: bool,
    has_returning: bool,
)
    requires
        has_triggers || has_fks || has_returning,
    ensures
        stmt_journal::insert_flags(
            program,
            resolver,
            database_id,
            table,
            has_statement_conflict,
            statement_conflict,
            inserting_multiple_rows,
            has_triggers,
            has_fks,
            has_upsert,
            has_autoincrement,
            notnull_col_exists,
            has_unique,
            has_returning,
        ).may_abort == true,
{
}

/// A NOT NULL column or a CHECK constraint may abort the statement, unless it runs
/// under `OR IGNORE`, `OR FAIL` or `OR ROLLBACK`.
pub proof fn row_checks_may_abort(
    program: ProgramBuilder,
    resolver: Resolver,
    database_id: usize,
    table: BTreeTable,
    has_statement_conflict: bool,
    statement_conflict: ResolveType,
    inserting_multiple_rows: bool,
    has_triggers: bool,
    has_fks: bool,
    has_upsert: bool,
    has_autoincrement: bool,
    notnull_col_exists: bool,
    has_unique: bool,
    has_returning: bool,
)
    requires
        notnull_col_exists || table.check_constraints@.len() > 0,
        !has_statement_conflict || statement_conflict == ResolveType::Abort || statement_conflict
            == ResolveType::Replace,
    ensures
        stmt_journal::insert_flags(
            program,
            resolver,
            database_id,
            table,
            has_statement_conflict,
            statement_conflict,
            inserting_multiple_rows,
            has_triggers,
            has_fks,
            has_upsert,
            has_autoincrement,
            notnull_col_exists,
            has_unique,
            has_returning,
        ).may_abort == true,
{
}

/// A uniqueness constraint may abort the statement under `OR ABORT`, and without a
/// mode of the statement where the primary key declares ABORT or nothing.
pub proof fn uniqueness_may_abort(
    program: ProgramBuilder,
    resolver: Resolver,
    database_id: usize,
    table: BTreeTable,
    has_statement_conflict: bool,
    statement_conflict: ResolveType,
    inserting_multiple_rows: bool,
    has_triggers: bool,
    has_fks: bool,
    has_upsert: bool,
    has_autoincrement: bool,
    notnull_col_exists: bool,
    has_returning: bool,
)
    requires
        has_statement_conflict ==> statement_conflict == ResolveType::Abort,
        !has_statement_conflict ==> table.rowid_alias_conflict_clause == None::<ResolveType>
            || table.rowid_alias_conflict_clause == Some(ResolveType::Abort),
    ensures
        stmt_journal::insert_flags(
            program,
            resolver,
            database_id,
            table,
            has_statement_conflict,
            statement_conflict,
            inserting_multiple_rows,
            has_triggers,
            has_fks,
            has_upsert,
            has_autoincrement,
            notnull_col_exists,
            true,
            has_returning,
        ).may_abort == true,
{
}

/// Without a mode of the statement, any one unique index of the table that
/// declares ABORT or nothing may abort it, wherever it stands in the catalog.
pub proof fn unique_index_may_abort(
    program: ProgramBuilder,
    resolver: Resolver,
    database_id: usize,
    table: BTreeTable,
    statement_conflict: ResolveType,
    inserting_multiple_rows: bool,
    has_triggers: bool,
    has_fks: bool,
    has_upsert: bool,
    has_autoincrement: bool,
    notnull_col_exists: bool,
    has_unique: bool,
    has_returning: bool,
    i: int,
)
    requires
        0 <= i < resolver.indexes@.len(),
        resolver.indexes@[i].database_id == database_id,
        resolver.indexes@[i].table_name@ == table.name@,
        resolver.indexes@[i].unique,
        resolver.indexes@[i].on_conflict == None::<ResolveType> || resolver.indexes@[i].on_conflict
            == Some(ResolveType::Abort),
    ensures
        stmt_journal::insert_flags(
            program,
            resolver,
            database_id,
            table,
            false,
            statement_conflict,
            inserting_multiple_rows,
            has_triggers,
            has_fks,
            has_upsert,
            has_autoincrement,
            notnull_col_exists,
            has_unique,
            has_returning,
        ).may_abort == true,
{
    let modes = resolver.spec_index_modes(database_id, table.name@);
    let k = catalog::index_of_table_is_listed(resolver, database_id, table.name@, i);
    assert(stmt_journal::index_aborts(
        modes[k],
        notnull_col_exists || table.check_constraints@.len() > 0,
    ));
}

/// An INSERT cannot abort without triggers, foreign keys and RETURNING where its
/// constraints do not abort: under `OR IGNORE`, `OR FAIL` and `OR ROLLBACK`; under
/// `OR REPLACE` without NOT NULL and CHECK; under `OR ABORT` without uniqueness
/// either; and without a mode where in addition no index of the table and, for
/// uniqueness, not the primary key aborts.
pub proof fn harmless_insert_cannot_abort(
    program: ProgramBuilder,
    resolver: Resolver,
    database_id: usize,
    table: BTreeTable,
    has_statement_conflict: bool,
    statement_conflict: ResolveType,
    inserting_multiple_rows: bool,
    has_upsert: bool,
    has_autoincrement: bool,
    notnull_col_exists: bool,
    has_unique: bool,
)
    requires
        has_statement_conflict && (statement_conflict == ResolveType::Abort || statement_conflict
            == ResolveType::Replace) || !has_statement_conflict ==> !notnull_col_exists
            && table.check_constraints@.len() == 0,
        has_statement_conflict && statement_conflict == ResolveType::Abort ==> !has_unique,
        !has_statement_conflict && has_unique ==> table.rowid_alias_conflict_clause
            != None::<ResolveType> && table.rowid_alias_conflict_clause != Some(ResolveType::Abort),
        !has_statement_conflict ==> forall|i: int|
            #![trigger resolver.indexes@[i]]
            0 <= i < resolver.indexes@.len() && resolver.indexes@[i].database_id == database_id
                && resolver.indexes@[i].table_name@ == table.name@ && resolver.indexes@[i].unique
                ==> resolver.indexes@[i].on_conflict != None::<ResolveType>
                && resolver.indexes@[i].on_conflict != Some(ResolveType::Abort),
    ensures
        stmt_journal::insert_flags(
            program,
            resolver,
            database_id,
            table,
            has_statement_conflict,
            statement_conflict,
            inserting_multiple_rows,
            false,
            false,
            has_upsert,
            has_autoincrement,
            notnull_col_exists,
            has_unique,
            false,
        ).may_abort == false,
{
    if !has_statement_conflict {
        let modes = resolver.spec_index_modes(database_id, table.name@);
        assert forall|k: int| 0 <= k < modes.len() implies !stmt_journal::index_aborts(
            #[trigger] modes[k],
            false,
        ) by {
            let i = catalog::listed_index_is_of_table(resolver, database_id, table.name@, k);
            assert(resolver.indexes@[i].unique == modes[k].1);
        }
    }
}

} // verus!
