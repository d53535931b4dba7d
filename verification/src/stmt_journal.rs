//! Statement journal flag analysis.
//!
//! A statement needs a journal when it may write more than one row and may
//! abort. Each analysis here looks at one kind of statement, clears the
//! multi-write flag where the statement touches at most one row, and settles
//! the may-abort flag.
//!
//! - A single-row write is atomic by itself. It stops being one when a trigger
//!   fires, when REPLACE deletes the rows in the way, or when RETURNING is
//!   evaluated after the write.
//! - A statement may abort because of a constraint, a foreign key, a trigger
//!   (`RAISE(ABORT)`), RETURNING, or an expression that raises an error while
//!   rows are being rewritten.

use crate::ast::{Expr, ResolveType};
use crate::error::TranslateError;
use crate::plan::{DeletePlan, DmlSafetyReason, JoinedTable, SetClause, UpdatePlan};
use crate::program::ProgramBuilder;
use crate::resolver::{Connection, Resolver};
use crate::schema::{BTreeTable, Index, ROWID_SENTINEL};
use vstd::prelude::*;

verus! {

/// The conflict mode that applies to a constraint: that of the statement if it
/// has one, else that of the constraint's declaration, else ABORT.
pub open spec fn effective_mode(
    has_statement_conflict: bool,
    statement_conflict: ResolveType,
    declared: Option<ResolveType>,
) -> ResolveType {
    if has_statement_conflict {
        statement_conflict
    } else {
        match declared {
            Some(mode) => mode,
            None => ResolveType::Abort,
        }
    }
}

/// The primary key or an index was declared ON CONFLICT REPLACE.
pub open spec fn declares_replace(
    rowid_alias_conflict: Option<ResolveType>,
    indexes: Seq<Option<ResolveType>>,
) -> bool {
    rowid_alias_conflict == Some(ResolveType::Replace) || indexes.contains(
        Some(ResolveType::Replace),
    )
}

/// A conflict may be resolved by deleting rows.
pub open spec fn may_replace(
    has_statement_conflict: bool,
    statement_conflict: ResolveType,
    rowid_alias_conflict: Option<ResolveType>,
    indexes: Seq<Option<ResolveType>>,
) -> bool {
    if has_statement_conflict {
        statement_conflict == ResolveType::Replace
    } else {
        declares_replace(rowid_alias_conflict, indexes)
    }
}

/// An index aborts by its declared mode: under ABORT if it is unique, and under
/// REPLACE if the table has a NOT NULL or CHECK constraint (`row_checks`).
pub open spec fn index_aborts(index: (Option<ResolveType>, bool), row_checks: bool) -> bool {
    match effective_mode(false, ResolveType::Abort, index.0) {
        ResolveType::Abort => index.1,
        ResolveType::Replace => row_checks,
        _ => false,
    }
}

/// A NOT NULL or CHECK constraint exists and its violation aborts: under ABORT,
/// and under REPLACE, which has no row to replace for these.
pub open spec fn row_check_aborts(
    has_statement_conflict: bool,
    statement_conflict: ResolveType,
    has_notnull: bool,
    has_check: bool,
) -> bool {
    let mode = effective_mode(has_statement_conflict, statement_conflict, None);
    (has_notnull || has_check) && (mode == ResolveType::Abort || mode == ResolveType::Replace)
}

/// A constraint of the table may abort the statement: a NOT NULL or CHECK
/// constraint, a uniqueness constraint that the primary key's mode aborts on,
/// or, where the statement has no mode of its own, an index.
pub open spec fn constraint_aborts(
    has_statement_conflict: bool,
    statement_conflict: ResolveType,
    rowid_alias_conflict: Option<ResolveType>,
    indexes: Seq<(Option<ResolveType>, bool)>,
    has_notnull: bool,
    has_check: bool,
    has_unique: bool,
) -> bool {
    ||| row_check_aborts(has_statement_conflict, statement_conflict, has_notnull, has_check)
    ||| has_unique && effective_mode(
        has_statement_conflict,
        statement_conflict,
        rowid_alias_conflict,
    ) == ResolveType::Abort
    ||| !has_statement_conflict && exists|i: int|
        0 <= i < indexes.len() && index_aborts(#[trigger] indexes[i], has_notnull || has_check)
}

/// The conflict clauses of a list of indexes.
pub open spec fn conflict_clauses(
    indexes: Seq<(Option<ResolveType>, bool)>,
) -> Seq<Option<ResolveType>> {
    indexes.map_values(|index: (Option<ResolveType>, bool)| index.0)
}

/// Foreign keys are enforced and the table is the child or the parent of one.
pub open spec fn in_fk_relationship(
    connection: Connection,
    resolver: Resolver,
    database_id: usize,
    table_name: Seq<char>,
) -> bool {
    connection.foreign_keys && (resolver.is_fk_child(database_id, table_name)
        || resolver.is_fk_parent(database_id, table_name))
}

/// Check whether any declared constraint (primary key or index) uses REPLACE.
pub fn any_index_or_ipk_has_replace(
    rowid_alias_conflict: Option<ResolveType>,
    indexes: &[Option<ResolveType>],
) -> (found: bool)
    ensures
        found == declares_replace(rowid_alias_conflict, indexes@),
{
    if let Some(ResolveType::Replace) = rowid_alias_conflict {
        return true;
    }
    for i in 0..indexes.len()
        invariant
            forall|j: int| 0 <= j < i ==> indexes@[j] != Some(ResolveType::Replace),
    {
        if let Some(ResolveType::Replace) = indexes[i] {
            assert(indexes@[i as int] == Some(ResolveType::Replace));
            return true;
        }
    }
    false
}

/// Check whether any constraint's effective resolution is REPLACE.
///
/// A conflict mode of the statement is the only one that matters. Without one,
/// the declared modes of the primary key and of each index are checked.
pub fn any_effective_replace(
    has_statement_conflict: bool,
    statement_conflict: ResolveType,
    rowid_alias_conflict: Option<ResolveType>,
    indexes: &[Option<ResolveType>],
) -> (found: bool)
    ensures
        found == may_replace(
            has_statement_conflict,
            statement_conflict,
            rowid_alias_conflict,
            indexes@,
        ),
{
    if has_statement_conflict {
        match statement_conflict {
            ResolveType::Replace => true,
            _ => false,
        }
    } else {
        any_index_or_ipk_has_replace(rowid_alias_conflict, indexes)
    }
}

/// Check whether a table has any foreign key relationship, on the child or on
/// the parent side, that is enforced.
pub fn table_has_fks(
    connection: &Connection,
    resolver: &Resolver,
    database_id: usize,
    table_name: &str,
) -> (found: bool)
    ensures
        found == in_fk_relationship(*connection, *resolver, database_id, table_name@),
{
    connection.foreign_keys_enabled() && (resolver.has_child_fks(database_id, table_name)
        || resolver.any_resolved_fks_referencing(database_id, table_name))
}

/// Determine whether a constraint can make the statement abort.
///
/// Each constraint has an effective mode: that of the statement, or else its
/// declared one, ABORT by default. ABORT can abort on any constraint. REPLACE
/// aborts only on NOT NULL and CHECK, where there is no row to replace. The
/// other modes never abort a statement.
///
/// Each index is given as its ON CONFLICT clause and whether it is unique.
pub fn constraint_may_abort(
    has_statement_conflict: bool,
    statement_conflict: ResolveType,
    rowid_alias_conflict: Option<ResolveType>,
    indexes: &[(Option<ResolveType>, bool)],
    has_notnull: bool,
    has_check: bool,
    has_unique: bool,
) -> (aborts: bool)
    ensures
        aborts == constraint_aborts(
            has_statement_conflict,
            statement_conflict,
            rowid_alias_conflict,
            indexes@,
            has_notnull,
            has_check,
            has_unique,
        ),
{
    if has_statement_conflict {
        return match statement_conflict {
            ResolveType::Abort => has_notnull || has_check || has_unique,
            ResolveType::Replace => has_notnull || has_check,
            _ => false,
        };
    }
    let pk_aborts = match rowid_alias_conflict {
        None | Some(ResolveType::Abort) => has_unique,
        _ => false,
    };
    let default_aborts = has_notnull || has_check;
    pk_aborts || default_aborts || any_index_aborts(indexes, default_aborts)
}

/// Whether some index aborts by its declared mode.
fn any_index_aborts(indexes: &[(Option<ResolveType>, bool)], row_checks: bool) -> (found: bool)
    ensures
        found == exists|i: int|
            0 <= i < indexes@.len() && index_aborts(#[trigger] indexes@[i], row_checks),
{
    for i in 0..indexes.len()
        invariant
            forall|j: int| 0 <= j < i ==> !index_aborts(#[trigger] indexes@[j], row_checks),
    {
        let (on_conflict, unique) = indexes[i];
        let aborts = match on_conflict {
            None | Some(ResolveType::Abort) => unique,
            Some(ResolveType::Replace) => row_checks,
            _ => false,
        };
        if aborts {
            assert(index_aborts(indexes@[i as int], row_checks));
            return true;
        }
    }
    false
}

/// The conflict clauses of a list of indexes.
fn clauses_of(modes: &[(Option<ResolveType>, bool)]) -> (clauses: Vec<Option<ResolveType>>)
    ensures
        clauses@ == conflict_clauses(modes@),
{
    let mut clauses: Vec<Option<ResolveType>> = Vec::new();
    for i in 0..modes.len()
        invariant
            clauses@ == conflict_clauses(modes@.take(i as int)),
    {
        clauses.push(modes[i].0);
    }
    assert(modes@.take(modes@.len() as int) == modes@);
    clauses
}

/// The program after the analysis of an INSERT.
///
/// The statement stays multi-write if it inserts several rows, fires triggers,
/// may replace rows, has an ON CONFLICT DO UPDATE (which modifies an existing
/// row), uses AUTOINCREMENT (which updates its sequence table before the
/// constraints are checked) or has a RETURNING clause.
pub open spec fn insert_flags(
    program: ProgramBuilder,
    resolver: Resolver,
    database_id: usize,
    table: BTreeTable,
    has_statement_conflict: bool,
    statement_conflict: ResolveType,
    inserting_multiple_rows: bool,
    has_triggers: bool,
    has_fks: bool,
    has_upsert: bool,
    has_autoincrement: bool,
    notnull_col_exists: bool,
    has_unique: bool,
    has_returning: bool,
) -> ProgramBuilder {
    let modes = resolver.spec_index_modes(database_id, table.name@);
    let rowid_mode = table.rowid_alias_conflict_clause;
    let several_writes = {
        ||| inserting_multiple_rows
        ||| has_triggers
        ||| may_replace(
            has_statement_conflict,
            statement_conflict,
            rowid_mode,
            conflict_clauses(modes),
        )
        ||| has_upsert
        ||| has_autoincrement
        ||| has_returning
    };
    let may_abort = {
        ||| has_triggers
        ||| has_fks
        ||| has_returning
        ||| constraint_aborts(
            has_statement_conflict,
            statement_conflict,
            rowid_mode,
            modes,
            notnull_col_exists,
            table.check_constraints@.len() > 0,
            has_unique,
        )
    };
    ProgramBuilder {
        multi_write: program.multi_write && several_writes,
        may_abort,
        read_only: program.read_only,
    }
}

/// Set the flags of an INSERT statement.
///
/// The conflict modes come from the table and from its indexes in the
/// catalog; what depends on the form of the INSERT comes from the caller.
pub fn set_insert_stmt_journal_flags(
    program: &mut ProgramBuilder,
    resolver: &Resolver,
    database_id: usize,
    table: &BTreeTable,
    has_statement_conflict: bool,
    statement_conflict: ResolveType,
    inserting_multiple_rows: bool,
    has_triggers: bool,
    has_fks: bool,
    has_upsert: bool,
    has_autoincrement: bool,
    notnull_col_exists: bool,
    has_unique: bool,
    has_returning: bool,
)
    ensures
        *final(program) == insert_flags(
            *old(program),
            *resolver,
            database_id,
            *table,
            has_statement_conflict,
            statement_conflict,
            inserting_multiple_rows,
            has_triggers,
            has_fks,
            has_upsert,
            has_autoincrement,
            notnull_col_exists,
            has_unique,
            has_returning,
        ),
{
    let index_modes = resolver.index_modes(database_id, table.name.as_str());
    let clauses = clauses_of(index_modes.as_slice());
    let any_replace = any_effective_replace(
        has_statement_conflict,
        statement_conflict,
        table.rowid_alias_conflict_clause,
        clauses.as_slice(),
    );
    let has_check = table.check_constraints.len() > 0;
    let may_abort = has_triggers || has_fks || has_returning || constraint_may_abort(
        has_statement_conflict,
        statement_conflict,
        table.rowid_alias_conflict_clause,
        index_modes.as_slice(),
        notnull_col_exists,
        has_check,
        has_unique,
    );

    if !inserting_multiple_rows && !has_triggers && !any_replace && !has_upsert
        && !has_autoincrement && !has_returning {
        program.set_multi_write(false);
    }
    program.set_may_abort(may_abort);
}

/// The conflict clause and uniqueness of each index.
pub open spec fn modes_of_indexes(indexes: Seq<Index>) -> Seq<(Option<ResolveType>, bool)> {
    indexes.map_values(|index: Index| index.spec_mode())
}

/// The conflict clause and uniqueness of each index.
fn modes_of(indexes: &[Index]) -> (modes: Vec<(Option<ResolveType>, bool)>)
    ensures
        modes@ == modes_of_indexes(indexes@),
{
    let mut modes: Vec<(Option<ResolveType>, bool)> = Vec::new();
    for i in 0..indexes.len()
        invariant
            modes@ == modes_of_indexes(indexes@.take(i as int)),
    {
        modes.push((indexes[i].on_conflict, indexes[i].unique));
    }
    assert(indexes@.take(indexes@.len() as int) == indexes@);
    modes
}

/// The columns that a SET clause assigns.
pub open spec fn assigned_columns(set_clauses: Seq<SetClause>) -> Seq<usize> {
    set_clauses.map_values(|set_clause: SetClause| set_clause.column_index)
}

/// The columns that a SET clause assigns.
fn updated_columns(set_clauses: &[SetClause]) -> (columns: Vec<usize>)
    ensures
        columns@ == assigned_columns(set_clauses@),
{
    let mut columns: Vec<usize> = Vec::new();
    for i in 0..set_clauses.len()
        invariant
            columns@ == assigned_columns(set_clauses@.take(i as int)),
    {
        columns.push(set_clauses[i].column_index);
    }
    assert(set_clauses@.take(set_clauses@.len() as int) == set_clauses@);
    columns
}

/// The plan visits at most one row of its table: a point lookup, without a
/// LIMIT or OFFSET.
pub open spec fn visits_single_row(
    limit: Option<Expr>,
    offset: Option<Expr>,
    table: JoinedTable,
) -> bool {
    limit is None && offset is None && table.op.is_point_lookup()
}

/// The UPDATE returns rows.
pub open spec fn update_returns(plan: UpdatePlan) -> bool {
    plan.returning matches Some(columns) && columns@.len() > 0
}

/// The UPDATE can violate a NOT NULL constraint.
pub open spec fn update_sets_notnull(plan: UpdatePlan, table: BTreeTable) -> bool {
    exists|i: int|
        0 <= i < plan.set_clauses@.len() && (
        #[trigger] plan.set_clauses@[i]).sets_notnull_column(table)
}

/// The UPDATE can violate a uniqueness constraint.
pub open spec fn update_meets_unique(plan: UpdatePlan, table: BTreeTable) -> bool {
    table.unique_sets@.len() > 0 || exists|i: int|
        0 <= i < plan.indexes_to_update@.len() && (#[trigger] plan.indexes_to_update@[i]).unique
}

/// Rewriting a row evaluates an expression that can raise an error: an assigned
/// value, or the predicate of a partial index.
pub open spec fn update_evaluates_fallible(plan: UpdatePlan) -> bool {
    ||| exists|i: int|
        0 <= i < plan.set_clauses@.len() && (#[trigger] plan.set_clauses@[i]).expr.may_fail
    ||| exists|i: int|
        0 <= i < plan.indexes_to_update@.len() && (
        #[trigger] plan.indexes_to_update@[i]).has_fallible_predicate()
}

/// The UPDATE fires a trigger of its table.
pub open spec fn update_fires_trigger(
    plan: UpdatePlan,
    resolver: Resolver,
    table: BTreeTable,
) -> bool {
    resolver.fires_trigger(
        plan.target_table.database_id,
        table.name@,
        assigned_columns(plan.set_clauses@),
    )
}

/// The UPDATE may delete rows that are in its way.
pub open spec fn update_may_replace(plan: UpdatePlan, table: BTreeTable) -> bool {
    may_replace(
        plan.or_conflict is Some,
        effective_mode(false, ResolveType::Abort, plan.or_conflict),
        table.rowid_alias_conflict_clause,
        conflict_clauses(modes_of_indexes(plan.indexes_to_update@)),
    )
}

/// A constraint may abort the UPDATE.
pub open spec fn update_constraint_aborts(plan: UpdatePlan, table: BTreeTable) -> bool {
    constraint_aborts(
        plan.or_conflict is Some,
        effective_mode(false, ResolveType::Abort, plan.or_conflict),
        table.rowid_alias_conflict_clause,
        modes_of_indexes(plan.indexes_to_update@),
        update_sets_notnull(plan, table),
        table.check_constraints@.len() > 0,
        update_meets_unique(plan, table),
    )
}

/// The UPDATE of an ordinary table may write more than one row or table.
pub open spec fn update_several_writes(
    plan: UpdatePlan,
    resolver: Resolver,
    connection: Connection,
    table: BTreeTable,
) -> bool {
    ||| !visits_single_row(plan.limit, plan.offset, plan.target_table)
    ||| update_fires_trigger(plan, resolver, table)
    ||| update_may_replace(plan, table)
    ||| in_fk_relationship(connection, resolver, plan.target_table.database_id, table.name@)
    ||| update_returns(plan)
}

/// The UPDATE of an ordinary table may abort.
pub open spec fn update_may_abort(
    plan: UpdatePlan,
    resolver: Resolver,
    connection: Connection,
    table: BTreeTable,
) -> bool {
    ||| update_fires_trigger(plan, resolver, table)
    ||| in_fk_relationship(connection, resolver, plan.target_table.database_id, table.name@)
    ||| update_returns(plan)
    ||| update_evaluates_fallible(plan)
    ||| update_constraint_aborts(plan, table)
}

/// The program after the analysis of an UPDATE. A virtual table leaves it as
/// it was.
pub open spec fn update_flags(
    program: ProgramBuilder,
    plan: UpdatePlan,
    resolver: Resolver,
    connection: Connection,
) -> ProgramBuilder {
    match plan.target_table.spec_btree() {
        None => program,
        Some(table) => ProgramBuilder {
            multi_write: program.multi_write && update_several_writes(
                plan,
                resolver,
                connection,
                table,
            ),
            may_abort: update_may_abort(plan, resolver, connection, table),
            read_only: program.read_only,
        },
    }
}

/// Whether a SET clause assigns a NOT NULL column other than the rowid.
fn sets_notnull_column(plan: &UpdatePlan, table: &BTreeTable) -> (found: bool)
    ensures
        found == update_sets_notnull(*plan, *table),
{
    for i in 0..plan.set_clauses.len()
        invariant
            forall|j: int|
                0 <= j < i ==> !(#[trigger] plan.set_clauses@[j]).sets_notnull_column(*table),
    {
        let column_index = plan.set_clauses[i].column_index;
        if column_index != ROWID_SENTINEL && column_index < table.columns.len() {
            let column = &table.columns[column_index];
            if column.notnull && !column.is_rowid_alias {
                assert(plan.set_clauses@[i as int].sets_notnull_column(*table));
                return true;
            }
        }
    }
    false
}

/// Whether some index is unique.
fn any_unique(indexes: &Vec<Index>) -> (found: bool)
    ensures
        found == exists|i: int| 0 <= i < indexes@.len() && (#[trigger] indexes@[i]).unique,
{
    for i in 0..indexes.len()
        invariant
            forall|j: int| 0 <= j < i ==> !(#[trigger] indexes@[j]).unique,
    {
        if indexes[i].unique {
            return true;
        }
    }
    false
}

/// Whether rewriting a row can raise an error.
fn evaluates_fallible(plan: &UpdatePlan) -> (found: bool)
    ensures
        found == update_evaluates_fallible(*plan),
{
    for i in 0..plan.set_clauses.len()
        invariant
            forall|j: int| 0 <= j < i ==> !(#[trigger] plan.set_clauses@[j]).expr.may_fail,
    {
        if plan.set_clauses[i].expr.may_fail {
            return true;
        }
    }
    for i in 0..plan.indexes_to_update.len()
        invariant
            forall|j: int|
                0 <= j < i ==> !(#[trigger] plan.indexes_to_update@[j]).has_fallible_predicate(),
    {
        if let Some(predicate) = &plan.indexes_to_update[i].where_clause {
            if predicate.may_fail {
                assert(plan.indexes_to_update@[i as int].has_fallible_predicate());
                return true;
            }
        }
    }
    false
}

/// Set the flags of an UPDATE statement.
///
/// A plan that collects its rows in an ephemeral table first scans that table,
/// so it counts as one that visits many rows.
pub fn set_update_stmt_journal_flags(
    program: &mut ProgramBuilder,
    plan: &UpdatePlan,
    resolver: &Resolver,
    connection: &Connection,
) -> (result: Result<(), TranslateError>)
    ensures
        result is Ok,
        *final(program) == update_flags(*old(program), *plan, *resolver, *connection),
{
    let target_table = &plan.target_table;
    let btree_table = match target_table.btree() {
        Some(table) => table,
        None => {
            return Ok(());
        },
    };
    let database_id = target_table.database_id;

    let updated_cols = updated_columns(plan.set_clauses.as_slice());
    let has_triggers = resolver.has_triggers_including_temp(
        database_id,
        updated_cols.as_slice(),
        btree_table.name.as_str(),
    );
    let has_fks = table_has_fks(connection, resolver, database_id, btree_table.name.as_str());

    let (has_statement_conflict, or_conflict) = match plan.or_conflict {
        Some(mode) => (true, mode),
        None => (false, ResolveType::Abort),
    };

    let index_modes = modes_of(plan.indexes_to_update.as_slice());
    let clauses = clauses_of(index_modes.as_slice());
    let any_replace = any_effective_replace(
        has_statement_conflict,
        or_conflict,
        btree_table.rowid_alias_conflict_clause,
        clauses.as_slice(),
    );

    let is_single_row = plan.limit.is_none() && plan.offset.is_none()
        && target_table.op.affects_max_1_row();
    let has_returning = match &plan.returning {
        Some(columns) => columns.len() > 0,
        None => false,
    };
    if is_single_row && !has_triggers && !any_replace && !has_fks && !has_returning {
        program.set_multi_write(false);
    }
    let has_notnull_cols = sets_notnull_column(plan, btree_table);
    let has_check = btree_table.check_constraints.len() > 0;
    let has_unique = btree_table.unique_sets.len() > 0 || any_unique(&plan.indexes_to_update);

    let may_abort = has_triggers || has_fks || has_returning || evaluates_fallible(plan)
        || constraint_may_abort(
        has_statement_conflict,
        or_conflict,
        btree_table.rowid_alias_conflict_clause,
        index_modes.as_slice(),
        has_notnull_cols,
        has_check,
        has_unique,
    );
    program.set_may_abort(may_abort);
    Ok(())
}

/// The DELETE fires triggers: that is a reason to collect its rows first.
pub open spec fn delete_fires_trigger(plan: DeletePlan) -> bool {
    plan.safety.reasons@.contains(DmlSafetyReason::Trigger)
}

/// A trigger, a foreign key or RETURNING makes more of the DELETE than the
/// removal of its rows.
pub open spec fn delete_has_side_work(
    plan: DeletePlan,
    resolver: Resolver,
    connection: Connection,
    database_id: usize,
    table: BTreeTable,
) -> bool {
    ||| delete_fires_trigger(plan)
    ||| in_fk_relationship(connection, resolver, database_id, table.name@)
    ||| plan.result_columns@.len() > 0
}

/// The program after the analysis of a DELETE that has a target table. A
/// virtual table leaves it as it was. A DELETE has no conflict clause and
/// violates no constraint of its own table, so only the side work can abort it.
pub open spec fn delete_flags(
    program: ProgramBuilder,
    plan: DeletePlan,
    resolver: Resolver,
    connection: Connection,
    database_id: usize,
) -> ProgramBuilder
    recommends
        plan.table_references.joined_tables@.len() > 0,
{
    let target = plan.table_references.joined_tables@[0];
    match target.spec_btree() {
        None => program,
        Some(table) => {
            let side_work = delete_has_side_work(plan, resolver, connection, database_id, table);
            ProgramBuilder {
                multi_write: program.multi_write && (side_work || !visits_single_row(
                    plan.limit,
                    plan.offset,
                    target,
                )),
                may_abort: program.may_abort && side_work,
                read_only: program.read_only,
            }
        },
    }
}

/// Whether a trigger is among the reasons.
fn names_trigger(reasons: &Vec<DmlSafetyReason>) -> (found: bool)
    ensures
        found == reasons@.contains(DmlSafetyReason::Trigger),
{
    for i in 0..reasons.len()
        invariant
            forall|j: int| 0 <= j < i ==> reasons@[j] != DmlSafetyReason::Trigger,
    {
        if reasons[i] == DmlSafetyReason::Trigger {
            return true;
        }
    }
    false
}

/// Set the flags of a DELETE statement. Fails, with the program unchanged, if
/// and only if the plan has no target table.
pub fn set_delete_stmt_journal_flags(
    program: &mut ProgramBuilder,
    plan: &DeletePlan,
    resolver: &Resolver,
    connection: &Connection,
    database_id: usize,
) -> (result: Result<(), TranslateError>)
    ensures
        match result {
            Ok(()) => {
                &&& plan.table_references.joined_tables@.len() > 0
                &&& *final(program) == delete_flags(
                    *old(program),
                    *plan,
                    *resolver,
                    *connection,
                    database_id,
                )
            },
            Err(TranslateError::ParseError(message)) => {
                &&& plan.table_references.joined_tables@.len() == 0
                &&& message@ == "DELETE should have one target table"@
                &&& *final(program) == *old(program)
            },
        },
{
    if plan.table_references.joined_tables.len() == 0 {
        return Err(
            TranslateError::ParseError("DELETE should have one target table".to_owned()),
        );
    }
    let target_table = &plan.table_references.joined_tables[0];
    let btree_table = match target_table.btree() {
        Some(table) => table,
        None => {
            return Ok(());
        },
    };
    let has_triggers = names_trigger(&plan.safety.reasons);
    let has_fks = table_has_fks(connection, resolver, database_id, btree_table.name.as_str());

    let is_single_row = plan.limit.is_none() && plan.offset.is_none()
        && target_table.op.affects_max_1_row();
    let has_returning = plan.result_columns.len() > 0;
    if is_single_row && !has_triggers && !has_fks && !has_returning {
        program.set_multi_write(false);
    }
    if !has_triggers && !has_fks && !has_returning {
        program.set_may_abort(false);
    }
    Ok(())
}

} // verus!
