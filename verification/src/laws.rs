//! What holds of the analysis for all statements.
//!
//! The laws here relate the parts of the analysis to each other. Those of the
//! submodules say what each fact of a plan, a table or the catalog does to a
//! result: that each one on its own is enough to cause it, and that it does not
//! come about where all of them are absent.

pub mod catalog;
pub mod delete;
pub mod insert;
pub mod rules;
pub mod update;

use crate::ast::ResolveType;
use crate::plan::{DeletePlan, UpdatePlan};
use crate::program::ProgramBuilder;
use crate::resolver::{Connection, Resolver};
use crate::schema::BTreeTable;
use crate::stmt_journal;
use vstd::prelude::*;

verus! {

/// A statement that only reads never needs a journal, whatever its flags.
pub proof fn reading_needs_no_journal(program: ProgramBuilder)
    requires
        program.read_only,
    ensures
        !program.uses_stmt_journal(),
{
}

/// A conflict mode of the statement is the only one that matters: the declared
/// modes of the primary key and of the indexes have no say.
pub proof fn statement_mode_overrides_declared_modes(
    statement_conflict: ResolveType,
    rowid_a: Option<ResolveType>,
    rowid_b: Option<ResolveType>,
    indexes_a: Seq<(Option<ResolveType>, bool)>,
    indexes_b: Seq<(Option<ResolveType>, bool)>,
    has_notnull: bool,
    has_check: bool,
    has_unique: bool,
)
    ensures
        stmt_journal::constraint_aborts(
            true,
            statement_conflict,
            rowid_a,
            indexes_a,
            has_notnull,
            has_check,
            has_unique,
        ) == stmt_journal::constraint_aborts(
            true,
            statement_conflict,
            rowid_b,
            indexes_b,
            has_notnull,
            has_check,
            has_unique,
        ),
        stmt_journal::may_replace(
            true,
            statement_conflict,
            rowid_a,
            stmt_journal::conflict_clauses(indexes_a),
        ) == stmt_journal::may_replace(
            true,
            statement_conflict,
            rowid_b,
            stmt_journal::conflict_clauses(indexes_b),
        ),
{
}

/// Under `OR IGNORE`, `OR FAIL` and `OR ROLLBACK` no constraint aborts the
/// statement.
pub proof fn other_modes_never_abort(
    statement_conflict: ResolveType,
    rowid_alias_conflict: Option<ResolveType>,
    indexes: Seq<(Option<ResolveType>, bool)>,
    has_notnull: bool,
    has_check: bool,
    has_unique: bool,
)
    requires
        statement_conflict != ResolveType::Abort,
        statement_conflict != ResolveType::Replace,
    ensures
        !stmt_journal::constraint_aborts(
            true,
            statement_conflict,
            rowid_alias_conflict,
            indexes,
            has_notnull,
            has_check,
            has_unique,
        ),
{
}

/// `OR REPLACE` falls back to ABORT exactly where the table has a NOT NULL or
/// CHECK constraint; uniqueness conflicts are replaced, not aborted.
pub proof fn replace_aborts_only_on_row_checks(
    rowid_alias_conflict: Option<ResolveType>,
    indexes: Seq<(Option<ResolveType>, bool)>,
    has_notnull: bool,
    has_check: bool,
    has_unique: bool,
)
    ensures
        stmt_journal::constraint_aborts(
            true,
            ResolveType::Replace,
            rowid_alias_conflict,
            indexes,
            has_notnull,
            has_check,
            has_unique,
        ) <==> has_notnull || has_check,
{
}

/// Without a conflict mode of the statement, NOT NULL and CHECK always abort,
/// whatever modes the keys and indexes declare.
pub proof fn row_checks_abort_by_default(
    statement_conflict: ResolveType,
    rowid_alias_conflict: Option<ResolveType>,
    indexes: Seq<(Option<ResolveType>, bool)>,
    has_notnull: bool,
    has_check: bool,
    has_unique: bool,
)
    requires
        has_notnull || has_check,
    ensures
        stmt_journal::constraint_aborts(
            false,
            statement_conflict,
            rowid_alias_conflict,
            indexes,
            has_notnull,
            has_check,
            has_unique,
        ),
{
}

/// A table without any constraint aborts nothing: no NOT NULL, no CHECK, no
/// uniqueness constraint and no unique index, under any mode.
pub proof fn no_constraint_no_abort(
    has_statement_conflict: bool,
    statement_conflict: ResolveType,
    rowid_alias_conflict: Option<ResolveType>,
    indexes: Seq<(Option<ResolveType>, bool)>,
)
    requires
        forall|i: int| 0 <= i < indexes.len() ==> !(#[trigger] indexes[i]).1,
    ensures
        !stmt_journal::constraint_aborts(
            has_statement_conflict,
            statement_conflict,
            rowid_alias_conflict,
            indexes,
            false,
            false,
            false,
        ),
{
}

/// Adding a constraint or an index never makes a statement safe that was not.
pub proof fn constraints_only_add_aborts(
    has_statement_conflict: bool,
    statement_conflict: ResolveType,
    rowid_alias_conflict: Option<ResolveType>,
    indexes: Seq<(Option<ResolveType>, bool)>,
    more_indexes: Seq<(Option<ResolveType>, bool)>,
    has_notnull: bool,
    has_check: bool,
    has_unique: bool,
    adds_notnull: bool,
    adds_check: bool,
    adds_unique: bool,
)
    requires
        stmt_journal::constraint_aborts(
            has_statement_conflict,
            statement_conflict,
            rowid_alias_conflict,
            indexes,
            has_notnull,
            has_check,
            has_unique,
        ),
    ensures
        stmt_journal::constraint_aborts(
            has_statement_conflict,
            statement_conflict,
            rowid_alias_conflict,
            indexes + more_indexes,
            has_notnull || adds_notnull,
            has_check || adds_check,
            has_unique || adds_unique,
        ),
{
    let row_checks = has_notnull || has_check;
    if !has_statement_conflict && exists|i: int|
        0 <= i < indexes.len() && stmt_journal::index_aborts(#[trigger] indexes[i], row_checks) {
        let i = choose|i: int|
            0 <= i < indexes.len() && stmt_journal::index_aborts(
                #[trigger] indexes[i],
                row_checks,
            );
        assert((indexes + more_indexes)[i] == indexes[i]);
    }
}

/// With foreign keys switched off no table is in a foreign key relationship.
pub proof fn disabled_fks_do_not_count(
    connection: Connection,
    resolver: Resolver,
    database_id: usize,
    table_name: Seq<char>,
)
    requires
        !connection.foreign_keys,
    ensures
        !stmt_journal::in_fk_relationship(connection, resolver, database_id, table_name),
{
}

/// The analysis of an INSERT never sets a cleared multi-write flag, never
/// touches what the statement is, and gives the same flags when repeated.
pub proof fn insert_analysis_only_lowers(
    program: ProgramBuilder,
    resolver: Resolver,
    database_id: usize,
    table: BTreeTable,
    has_statement_conflict: bool,
    statement_conflict: ResolveType,
    inserting_multiple_rows: bool,
    has_triggers: bool,
    has_fks: bool,
    has_upsert: bool,
    has_autoincrement: bool,
    notnull_col_exists: bool,
    has_unique: bool,
    has_returning: bool,
)
    ensures
        ({
            let analyse = |p: ProgramBuilder|
                stmt_journal::insert_flags(
                    p,
                    resolver,
                    database_id,
                    table,
                    has_statement_conflict,
                    statement_conflict,
                    inserting_multiple_rows,
                    has_triggers,
                    has_fks,
                    has_upsert,
                    has_autoincrement,
                    notnull_col_exists,
                    has_unique,
                    has_returning,
                );
            let once = analyse(program);
            &&& once.multi_write ==> program.multi_write
            &&& once.read_only == program.read_only
            &&& analyse(once) == once
        }),
{
}

/// The analysis of an UPDATE never sets a cleared multi-write flag, never
/// touches what the statement is, and gives the same flags when repeated.
pub proof fn update_analysis_only_lowers(
    program: ProgramBuilder,
    plan: UpdatePlan,
    resolver: Resolver,
    connection: Connection,
)
    ensures
        ({
            let once = stmt_journal::update_flags(program, plan, resolver, connection);
            &&& once.multi_write ==> program.multi_write
            &&& once.read_only == program.read_only
            &&& stmt_journal::update_flags(once, plan, resolver, connection) == once
        }),
{
}

/// The analysis of a DELETE never sets a cleared flag, never touches what the
/// statement is, and gives the same flags when repeated.
pub proof fn delete_analysis_only_lowers(
    program: ProgramBuilder,
    plan: DeletePlan,
    resolver: Resolver,
    connection: Connection,
    database_id: usize,
)
    requires
        plan.table_references.joined_tables@.len() > 0,
    ensures
        ({
            let once = stmt_journal::delete_flags(program, plan, resolver, connection, database_id);
            &&& once.multi_write ==> program.multi_write
            &&& once.may_abort ==> program.may_abort
            &&& once.read_only == program.read_only
            &&& stmt_journal::delete_flags(once, plan, resolver, connection, database_id) == once
        }),
{
}

/// A write to a virtual table keeps the conservative defaults.
pub proof fn virtual_tables_keep_flags(
    program: ProgramBuilder,
    update: UpdatePlan,
    delete: DeletePlan,
    resolver: Resolver,
    connection: Connection,
    database_id: usize,
)
    requires
        update.target_table.spec_btree() is None,
        delete.table_references.joined_tables@.len() > 0,
        delete.table_references.joined_tables@[0].spec_btree() is None,
    ensures
        stmt_journal::update_flags(program, update, resolver, connection) == program,
        stmt_journal::delete_flags(program, delete, resolver, connection, database_id) == program,
{
}

/// An INSERT that fires triggers or has a RETURNING clause keeps its journal,
/// even if it inserts a single row.
pub proof fn insert_with_trigger_or_returning_keeps_journal(
    program: ProgramBuilder,
    resolver: Resolver,
    database_id: usize,
    table: BTreeTable,
    has_statement_conflict: bool,
    statement_conflict: ResolveType,
    inserting_multiple_rows: bool,
    has_triggers: bool,
    has_fks: bool,
    has_upsert: bool,
    has_autoincrement: bool,
    notnull_col_exists: bool,
    has_unique: bool,
    has_returning: bool,
)
    requires
        !program.read_only,
        program.multi_write,
        has_triggers || has_returning,
    ensures
        stmt_journal::insert_flags(
            program,
            resolver,
            database_id,
            table,
            has_statement_conflict,
            statement_conflict,
            inserting_multiple_rows,
            has_triggers,
            has_fks,
            has_upsert,
            has_autoincrement,
            notnull_col_exists,
            has_unique,
            has_returning,
        ).uses_stmt_journal(),
{
}

/// An UPDATE that fires a trigger, touches a foreign key relationship or has a
/// RETURNING clause keeps its journal, even if it updates a single row.
pub proof fn update_with_side_work_keeps_journal(
    program: ProgramBuilder,
    plan: UpdatePlan,
    resolver: Resolver,
    connection: Connection,
    table: BTreeTable,
)
    requires
        !program.read_only,
        program.multi_write,
        plan.target_table.spec_btree() == Some(table),
        stmt_journal::update_fires_trigger(plan, resolver, table)
            || stmt_journal::in_fk_relationship(
            connection,
            resolver,
            plan.target_table.database_id,
            table.name@,
        ) || stmt_journal::update_returns(plan),
    ensures
        stmt_journal::update_flags(program, plan, resolver, connection).uses_stmt_journal(),
{
}

/// A DELETE keeps its journal if it fires a trigger, touches a foreign key
/// relationship or has a RETURNING clause, even if it deletes a single row; and
/// it has no journal otherwise, however many rows it deletes and whatever
/// constraints the table has.
pub proof fn delete_journal_is_for_side_work(
    program: ProgramBuilder,
    plan: DeletePlan,
    resolver: Resolver,
    connection: Connection,
    database_id: usize,
    table: BTreeTable,
)
    requires
        !program.read_only,
        program.multi_write,
        program.may_abort,
        plan.table_references.joined_tables@.len() > 0,
        plan.table_references.joined_tables@[0].spec_btree() == Some(table),
    ensures
        stmt_journal::delete_flags(
            program,
            plan,
            resolver,
            connection,
            database_id,
        ).uses_stmt_journal() <==> stmt_journal::delete_fires_trigger(plan)
            || stmt_journal::in_fk_relationship(connection, resolver, database_id, table.name@)
            || plan.result_columns@.len() > 0,
{
}

/// A plain single-row INSERT needs no journal, whatever constraints and
/// foreign keys its table has: they are checked before the row is written.
pub proof fn plain_single_row_insert_needs_no_journal(
    program: ProgramBuilder,
    resolver: Resolver,
    database_id: usize,
    table: BTreeTable,
    has_statement_conflict: bool,
    statement_conflict: ResolveType,
    has_fks: bool,
    notnull_col_exists: bool,
    has_unique: bool,
)
    requires
        !stmt_journal::may_replace(
            has_statement_conflict,
            statement_conflict,
            table.rowid_alias_conflict_clause,
            stmt_journal::conflict_clauses(resolver.spec_index_modes(database_id, table.name@)),
        ),
    ensures
        !stmt_journal::insert_flags(
            program,
            resolver,
            database_id,
            table,
            has_statement_conflict,
            statement_conflict,
            false,
            false,
            has_fks,
            false,
            false,
            notnull_col_exists,
            has_unique,
            false,
        ).uses_stmt_journal(),
{
}

/// An INSERT that may replace rows, inserts several rows, updates a
/// conflicting row or uses AUTOINCREMENT is multi-write.
pub proof fn insert_of_several_writes_stays_multi_write(
    program: ProgramBuilder,
    resolver: Resolver,
    database_id: usize,
    table: BTreeTable,
    has_statement_conflict: bool,
    statement_conflict: ResolveType,
    inserting_multiple_rows: bool,
    has_triggers: bool,
    has_fks: bool,
    has_upsert: bool,
    has_autoincrement: bool,
    notnull_col_exists: bool,
    has_unique: bool,
    has_returning: bool,
)
    requires
        inserting_multiple_rows || has_upsert || has_autoincrement || stmt_journal::may_replace(
            has_statement_conflict,
            statement_conflict,
            table.rowid_alias_conflict_clause,
            stmt_journal::conflict_clauses(resolver.spec_index_modes(database_id, table.name@)),
        ),
    ensures
        stmt_journal::insert_flags(
            program,
            resolver,
            database_id,
            table,
            has_statement_conflict,
            statement_conflict,
            inserting_multiple_rows,
            has_triggers,
            has_fks,
            has_upsert,
            has_autoincrement,
            notnull_col_exists,
            has_unique,
            has_returning,
        ).multi_write == program.multi_write,
{
}

/// An UPDATE that may replace rows, has a LIMIT or OFFSET, or does not look up
/// a single row stays multi-write.
pub proof fn update_of_several_rows_stays_multi_write(
    program: ProgramBuilder,
    plan: UpdatePlan,
    resolver: Resolver,
    connection: Connection,
    table: BTreeTable,
)
    requires
        plan.target_table.spec_btree() == Some(table),
        plan.limit is Some || plan.offset is Some || !plan.target_table.op.is_point_lookup()
            || stmt_journal::update_may_replace(plan, table),
    ensures
        stmt_journal::update_flags(program, plan, resolver, connection).multi_write
            == program.multi_write,
{
}

/// An UPDATE of several rows whose assigned values or partial index predicates
/// can raise an error keeps its journal.
pub proof fn fallible_update_of_several_rows_keeps_journal(
    program: ProgramBuilder,
    plan: UpdatePlan,
    resolver: Resolver,
    connection: Connection,
    table: BTreeTable,
)
    requires
        !program.read_only,
        program.multi_write,
        plan.target_table.spec_btree() == Some(table),
        !plan.target_table.op.is_point_lookup(),
        stmt_journal::update_evaluates_fallible(plan),
    ensures
        stmt_journal::update_flags(program, plan, resolver, connection).uses_stmt_journal(),
{
}

/// The journal of an INSERT is skipped exactly where that is safe: the statement
/// writes one row and nothing else, or nothing can abort it.
pub proof fn insert_skips_journal_exactly_when_safe(
    program: ProgramBuilder,
    resolver: Resolver,
    database_id: usize,
    table: BTreeTable,
    has_statement_conflict: bool,
    statement_conflict: ResolveType,
    inserting_multiple_rows: bool,
    has_triggers: bool,
    has_fks: bool,
    has_upsert: bool,
    has_autoincrement: bool,
    notnull_col_exists: bool,
    has_unique: bool,
    has_returning: bool,
)
    requires
        !program.read_only,
        program.multi_write,
    ensures
        ({
            let modes = resolver.spec_index_modes(database_id, table.name@);
            let skipped = !stmt_journal::insert_flags(
                program,
                resolver,
                database_id,
                table,
                has_statement_conflict,
                statement_conflict,
                inserting_multiple_rows,
                has_triggers,
                has_fks,
                has_upsert,
                has_autoincrement,
                notnull_col_exists,
                has_unique,
                has_returning,
            ).uses_stmt_journal();
            let one_write = {
                &&& !inserting_multiple_rows
                &&& !has_triggers
                &&& !has_upsert
                &&& !has_autoincrement
                &&& !has_returning
                &&& !stmt_journal::may_replace(
                    has_statement_conflict,
                    statement_conflict,
                    table.rowid_alias_conflict_clause,
                    stmt_journal::conflict_clauses(modes),
                )
            };
            let cannot_abort = {
                &&& !has_triggers
                &&& !has_fks
                &&& !has_returning
                &&& !stmt_journal::constraint_aborts(
                    has_statement_conflict,
                    statement_conflict,
                    table.rowid_alias_conflict_clause,
                    modes,
                    notnull_col_exists,
                    table.check_constraints@.len() > 0,
                    has_unique,
                )
            };
            skipped <==> one_write || cannot_abort
        }),
{
}

/// The journal of an UPDATE is skipped exactly where that is safe: the statement
/// writes at most one row and nothing else, or nothing can abort it.
pub proof fn update_skips_journal_exactly_when_safe(
    program: ProgramBuilder,
    plan: UpdatePlan,
    resolver: Resolver,
    connection: Connection,
    table: BTreeTable,
)
    requires
        !program.read_only,
        program.multi_write,
        plan.target_table.spec_btree() == Some(table),
    ensures
        ({
            let skipped = !stmt_journal::update_flags(
                program,
                plan,
                resolver,
                connection,
            ).uses_stmt_journal();
            let side_work = {
                ||| stmt_journal::update_fires_trigger(plan, resolver, table)
                ||| stmt_journal::in_fk_relationship(
                    connection,
                    resolver,
                    plan.target_table.database_id,
                    table.name@,
                )
                ||| stmt_journal::update_returns(plan)
            };
            let one_row = stmt_journal::visits_single_row(
                plan.limit,
                plan.offset,
                plan.target_table,
            ) && !stmt_journal::update_may_replace(plan, table);
            let cannot_abort = !stmt_journal::update_evaluates_fallible(plan)
                && !stmt_journal::update_constraint_aborts(plan, table);
            skipped <==> !side_work && (one_row || cannot_abort)
        }),
{
}

} // verus!
