//! Laws of DELETE: what keeps the two flags.

use crate::laws::catalog;
use crate::plan::{DeletePlan, DmlSafetyReason, Operation, Table};
use crate::program::ProgramBuilder;
use crate::resolver::{Connection, Resolver};
use crate::schema::BTreeTable;
use crate::stmt_journal;
use vstd::prelude::*;

verus! {


/// A DELETE from a virtual table keeps the flags as they were.
pub proof fn virtual_table_keeps_flags(
    program: ProgramBuilder,
    plan: DeletePlan,
    resolver: Resolver,
    connection: Connection,
    database_id: usize,
)
    requires
        plan.table_references.joined_tables@.len() > 0,
        plan.table_references.joined_tables@[0].table is Virtual,
    ensures
        stmt_journal::delete_flags(program, plan, resolver, connection, database_id) == program,
{
}

/// A trigger among the reasons to collect rows first keeps both flags, in whatever
/// place and whether or not other reasons stand beside it.
pub proof fn trigger_keeps_journal(
    program: ProgramBuilder,
    plan: DeletePlan,
    resolver: Resolver,
    connection: Connection,
    database_id: usize,
    table: BTreeTable,
    i: int,
)
    requires
        plan.table_references.joined_tables@.len() > 0,
        plan.table_references.joined_tables@[0].table == Table::BTree(table),
        0 <= i < plan.safety.reasons@.len(),
        plan.safety.reasons@[i] == DmlSafetyReason::Trigger,
    ensures
        stmt_journal::delete_flags(program, plan, resolver, connection, database_id).multi_write
            == program.multi_write,
        stmt_journal::delete_flags(program, plan, resolver, connection, database_id).may_abort
            == program.may_abort,
        !program.read_only && program.multi_write && program.may_abort ==> stmt_journal::delete_flags(
            program,
            plan,
            resolver,
            connection,
            database_id,
        ).uses_stmt_journal(),
{
}

/// Any one enforced foreign key with the table as its child, or resolved with the
/// table as its parent, keeps both flags.
pub proof fn foreign_key_keeps_journal(
    program: ProgramBuilder,
    plan: DeletePlan,
    resolver: Resolver,
    connection: Connection,
    database_id: usize,
    table: BTreeTable,
    i: int,
)
    requires
        plan.table_references.joined_tables@.len() > 0,
        plan.table_references.joined_tables@[0].table == Table::BTree(table),
        connection.foreign_keys,
        0 <= i < resolver.foreign_keys@.len(),
        resolver.foreign_keys@[i].database_id == database_id,
        resolver.foreign_keys@[i].child_table@ == table.name@ || (
        resolver.foreign_keys@[i].parent_table@ == table.name@ && resolver.foreign_keys@[i].resolved),
    ensures
        stmt_journal::delete_flags(program, plan, resolver, connection, database_id).multi_write
            == program.multi_write,
        stmt_journal::delete_flags(program, plan, resolver, connection, database_id).may_abort
            == program.may_abort,
        !program.read_only && program.multi_write && program.may_abort ==> stmt_journal::delete_flags(
            program,
            plan,
            resolver,
            connection,
            database_id,
        ).uses_stmt_journal(),
{
    if resolver.foreign_keys@[i].child_table@ == table.name@ {
        catalog::fk_child_has_fks(connection, resolver, database_id, table.name@, i);
    } else {
        catalog::fk_parent_has_fks(connection, resolver, database_id, table.name@, i);
    }
}

/// A RETURNING clause keeps both flags.
pub proof fn returning_keeps_journal(
    program: ProgramBuilder,
    plan: DeletePlan,
    resolver: Resolver,
    connection: Connection,
    database_id: usize,
    table: BTreeTable,
)
    requires
        plan.table_references.joined_tables@.len() > 0,
        plan.table_references.joined_tables@[0].table == Table::BTree(table),
        plan.result_columns@.len() > 0,
    ensures
        stmt_journal::delete_flags(program, plan, resolver, connection, database_id).multi_write
            == program.multi_write,
        stmt_journal::delete_flags(program, plan, resolver, connection, database_id).may_abort
            == program.may_abort,
        !program.read_only && program.multi_write && program.may_abort ==> stmt_journal::delete_flags(
            program,
            plan,
            resolver,
            connection,
            database_id,
        ).uses_stmt_journal(),
{
}

/// A LIMIT, an OFFSET, a scan, or a seek that is not on a unique index or leaves a
/// column of it free: each on its own keeps the multi-write flag.
pub proof fn several_rows_keep_multi_write(
    program: ProgramBuilder,
    plan: DeletePlan,
    resolver: Resolver,
    connection: Connection,
    database_id: usize,
    table: BTreeTable,
)
    requires
        plan.table_references.joined_tables@.len() > 0,
        plan.table_references.joined_tables@[0].table == Table::BTree(table),
        plan.limit is Some || plan.offset is Some || plan.table_references.joined_tables@[0].op is Scan
            || (plan.table_references.joined_tables@[0].op matches Operation::IndexSeek {
            unique,
            key_columns,
            eq_columns,
        } && (!unique || eq_columns < key_columns)),
    ensures
        stmt_journal::delete_flags(program, plan, resolver, connection, database_id).multi_write
            == program.multi_write,
{
}

/// Without a trigger, a foreign key on the table and RETURNING a DELETE cannot
/// abort, and needs no journal however many rows it deletes.
pub proof fn plain_delete_cannot_abort(
    program: ProgramBuilder,
    plan: DeletePlan,
    resolver: Resolver,
    connection: Connection,
    database_id: usize,
    table: BTreeTable,
)
    requires
        plan.table_references.joined_tables@.len() > 0,
        plan.table_references.joined_tables@[0].table == Table::BTree(table),
        !connection.foreign_keys || forall|i: int|
            #![trigger resolver.foreign_keys@[i]]
            0 <= i < resolver.foreign_keys@.len() ==> resolver.foreign_keys@[i].database_id
                != database_id || resolver.foreign_keys@[i].child_table@ != table.name@ && !(
            resolver.foreign_keys@[i].parent_table@ == table.name@
                && resolver.foreign_keys@[i].resolved),
        forall|i: int|
            0 <= i < plan.safety.reasons@.len() ==> #[trigger] plan.safety.reasons@[i]
                != DmlSafetyReason::Trigger,
        plan.result_columns@.len() == 0,
    ensures
        !stmt_journal::delete_flags(program, plan, resolver, connection, database_id).may_abort,
        !stmt_journal::delete_flags(
            program,
            plan,
            resolver,
            connection,
            database_id,
        ).uses_stmt_journal(),
{
}

/// A point lookup without LIMIT and OFFSET clears the multi-write flag where no
/// trigger fires, no foreign key touches the table and nothing is returned.
pub proof fn single_row_clears_multi_write(
    program: ProgramBuilder,
    plan: DeletePlan,
    resolver: Resolver,
    connection: Connection,
    database_id: usize,
    table: BTreeTable,
)
    requires
        plan.table_references.joined_tables@.len() > 0,
        plan.table_references.joined_tables@[0].table == Table::BTree(table),
        plan.limit is None,
        plan.offset is None,
        plan.table_references.joined_tables@[0].op is RowidEq || (
        plan.table_references.joined_tables@[0].op matches Operation::IndexSeek {
            unique,
            key_columns,
            eq_columns,
        } && unique && eq_columns >= key_columns),
        !connection.foreign_keys || forall|i: int|
            #![trigger resolver.foreign_keys@[i]]
            0 <= i < resolver.foreign_keys@.len() ==> resolver.foreign_keys@[i].database_id
                != database_id || resolver.foreign_keys@[i].child_table@ != table.name@ && !(
            resolver.foreign_keys@[i].parent_table@ == table.name@
                && resolver.foreign_keys@[i].resolved),
        forall|i: int|
            0 <= i < plan.safety.reasons@.len() ==> #[trigger] plan.safety.reasons@[i]
                != DmlSafetyReason::Trigger,
        plan.result_columns@.len() == 0,
    ensures
        !stmt_journal::delete_flags(program, plan, resolver, connection, database_id).multi_write,
{
}

} // verus!
