//! Which statements need a statement journal, by the SQL they stand for.

use stmt_journal::ast::{Expr, ResolveType, TriggerEvent};
use stmt_journal::error::TranslateError;
use stmt_journal::plan::{
    DeletePlan, DmlSafety, DmlSafetyReason, JoinedTable, Operation, SetClause, Table,
    TableReferences, UpdatePlan,
};
use stmt_journal::program::ProgramBuilder;
use stmt_journal::resolver::{Connection, Resolver};
use stmt_journal::schema::{BTreeTable, Column, ForeignKey, Index, Trigger, ROWID_SENTINEL};
use stmt_journal::stmt_journal::{
    any_effective_replace, any_index_or_ipk_has_replace, constraint_may_abort,
    set_delete_stmt_journal_flags, set_insert_stmt_journal_flags, set_update_stmt_journal_flags,
    table_has_fks,
};

const FKS_OFF: Connection = Connection { foreign_keys: false };
const FKS_ON: Connection = Connection { foreign_keys: true };

fn expr(sql: &str) -> Expr {
    Expr { sql: sql.to_string(), may_fail: false }
}

fn fallible(sql: &str) -> Expr {
    Expr { sql: sql.to_string(), may_fail: true }
}

fn col() -> Column {
    Column { notnull: false, is_rowid_alias: false }
}

fn notnull() -> Column {
    Column { notnull: true, is_rowid_alias: false }
}

fn rowid_alias() -> Column {
    Column { notnull: false, is_rowid_alias: true }
}

fn table(name: &str, columns: Vec<Column>) -> BTreeTable {
    BTreeTable {
        name: name.to_string(),
        columns,
        rowid_alias_conflict_clause: None,
        check_constraints: vec![],
        unique_sets: vec![],
    }
}

fn with_unique(mut table: BTreeTable, column: usize) -> BTreeTable {
    table.unique_sets.push(vec![column]);
    table
}

fn index(table_name: &str, unique: bool) -> Index {
    Index {
        database_id: 0,
        table_name: table_name.to_string(),
        unique,
        on_conflict: None,
        where_clause: None,
    }
}

fn empty() -> Resolver {
    Resolver { foreign_keys: vec![], indexes: vec![], triggers: vec![] }
}

fn with_indexes(indexes: Vec<Index>) -> Resolver {
    Resolver { foreign_keys: vec![], indexes, triggers: vec![] }
}

fn with_fk(child: &str, parent: &str) -> Resolver {
    Resolver {
        foreign_keys: vec![ForeignKey {
            database_id: 0,
            child_table: child.to_string(),
            parent_table: parent.to_string(),
            resolved: true,
        }],
        indexes: vec![],
        triggers: vec![],
    }
}

fn with_trigger(table_name: &str, event: TriggerEvent) -> Resolver {
    Resolver {
        foreign_keys: vec![],
        indexes: vec![],
        triggers: vec![Trigger { database_id: 0, table_name: table_name.to_string(), event }],
    }
}

/// What the caller knows of an INSERT.
#[derive(Clone, Copy)]
struct Insert {
    conflict: Option<ResolveType>,
    multiple_rows: bool,
    triggers: bool,
    fks: bool,
    upsert: bool,
    autoincrement: bool,
    notnull: bool,
    unique: bool,
    returning: bool,
}

const PLAIN: Insert = Insert {
    conflict: None,
    multiple_rows: false,
    triggers: false,
    fks: false,
    upsert: false,
    autoincrement: false,
    notnull: false,
    unique: false,
    returning: false,
};

fn insert_flags(resolver: &Resolver, table: &BTreeTable, insert: Insert) -> ProgramBuilder {
    let mut program = ProgramBuilder::new(false);
    set_insert_stmt_journal_flags(
        &mut program,
        resolver,
        0,
        table,
        insert.conflict.is_some(),
        insert.conflict.unwrap_or(ResolveType::Abort),
        insert.multiple_rows,
        insert.triggers,
        insert.fks,
        insert.upsert,
        insert.autoincrement,
        insert.notnull,
        insert.unique,
        insert.returning,
    );
    program
}

fn insert_needs(resolver: &Resolver, table: &BTreeTable, insert: Insert) -> bool {
    insert_flags(resolver, table, insert).needs_stmt_subtransactions()
}

fn update(table: BTreeTable, op: Operation, columns: &[usize]) -> UpdatePlan {
    UpdatePlan {
        target_table: JoinedTable { table: Table::BTree(table), op, database_id: 0 },
        set_clauses: columns
            .iter()
            .map(|c| SetClause { column_index: *c, expr: expr("1") })
            .collect(),
        or_conflict: None,
        indexes_to_update: vec![],
        limit: None,
        offset: None,
        returning: None,
    }
}

fn update_flags(plan: &UpdatePlan, resolver: &Resolver, connection: &Connection) -> ProgramBuilder {
    let mut program = ProgramBuilder::new(false);
    assert!(set_update_stmt_journal_flags(&mut program, plan, resolver, connection).is_ok());
    program
}

fn update_needs(plan: &UpdatePlan, resolver: &Resolver, connection: &Connection) -> bool {
    update_flags(plan, resolver, connection).needs_stmt_subtransactions()
}

fn delete(table: BTreeTable, op: Operation) -> DeletePlan {
    DeletePlan {
        table_references: TableReferences {
            joined_tables: vec![JoinedTable { table: Table::BTree(table), op, database_id: 0 }],
        },
        safety: DmlSafety { reasons: vec![] },
        limit: None,
        offset: None,
        result_columns: vec![],
    }
}

fn delete_flags(plan: &DeletePlan, resolver: &Resolver, connection: &Connection) -> ProgramBuilder {
    let mut program = ProgramBuilder::new(false);
    assert!(set_delete_stmt_journal_flags(&mut program, plan, resolver, connection, 0).is_ok());
    program
}

fn delete_needs(plan: &DeletePlan, resolver: &Resolver, connection: &Connection) -> bool {
    delete_flags(plan, resolver, connection).needs_stmt_subtransactions()
}

const UNIQUE_SEEK: Operation = Operation::IndexSeek { unique: true, key_columns: 1, eq_columns: 1 };

// INSERT

/// CREATE TABLE t (a, b, c); INSERT INTO t VALUES (1, 2, 3)
#[test]
fn insert_single_row_no_constraints() {
    let t = table("t", vec![col(), col(), col()]);
    assert!(!insert_needs(&empty(), &t, PLAIN));
}

/// CREATE TABLE t (a, b, c); INSERT INTO t VALUES (1,2,3),(4,5,6)
#[test]
fn insert_multi_row_no_constraints() {
    let t = table("t", vec![col(), col(), col()]);
    assert!(!insert_needs(&empty(), &t, Insert { multiple_rows: true, ..PLAIN }));
}

/// CREATE TABLE t (a NOT NULL, b); INSERT INTO t VALUES (1, 2)
#[test]
fn insert_single_row_notnull() {
    let t = table("t", vec![notnull(), col()]);
    assert!(!insert_needs(&empty(), &t, Insert { notnull: true, ..PLAIN }));
}

/// CREATE TABLE t (a NOT NULL, b); INSERT INTO t VALUES (1, 2), (3, 4)
#[test]
fn insert_multi_row_notnull() {
    let t = table("t", vec![notnull(), col()]);
    assert!(insert_needs(
        &empty(),
        &t,
        Insert { multiple_rows: true, notnull: true, ..PLAIN }
    ));
}

/// CREATE TABLE t (a UNIQUE, b); INSERT INTO t VALUES (1, 2), (3, 4)
#[test]
fn insert_multi_row_unique() {
    let t = with_unique(table("t", vec![col(), col()]), 0);
    assert!(insert_needs(
        &with_indexes(vec![index("t", true)]),
        &t,
        Insert { multiple_rows: true, unique: true, ..PLAIN }
    ));
}

/// CREATE TABLE t (a UNIQUE, b); INSERT OR IGNORE INTO t VALUES (1, 2), (3, 4)
#[test]
fn insert_or_ignore_multi_row_unique() {
    let t = with_unique(table("t", vec![col(), col()]), 0);
    assert!(!insert_needs(
        &with_indexes(vec![index("t", true)]),
        &t,
        Insert {
            conflict: Some(ResolveType::Ignore),
            multiple_rows: true,
            unique: true,
            ..PLAIN
        }
    ));
}

/// CREATE TABLE t (a UNIQUE, b); INSERT OR REPLACE INTO t VALUES (1, 2)
#[test]
fn insert_or_replace_single_row() {
    let t = with_unique(table("t", vec![col(), col()]), 0);
    let insert = Insert { conflict: Some(ResolveType::Replace), unique: true, ..PLAIN };
    let program = insert_flags(&with_indexes(vec![index("t", true)]), &t, insert);
    assert!(!program.needs_stmt_subtransactions());
    assert!(program.multi_write);
    assert!(!program.may_abort);
}

/// CREATE TABLE t (id INTEGER PRIMARY KEY AUTOINCREMENT, v);
/// INSERT INTO t (v) VALUES (1)
#[test]
fn insert_autoincrement_single_row() {
    let t = table("t", vec![rowid_alias(), col()]);
    let program = insert_flags(&empty(), &t, Insert { autoincrement: true, ..PLAIN });
    assert!(!program.needs_stmt_subtransactions());
    assert!(program.multi_write);
}

/// CREATE TABLE t (id INTEGER PRIMARY KEY AUTOINCREMENT, v NOT NULL);
/// INSERT INTO t (v) VALUES (1)
#[test]
fn insert_autoincrement_notnull() {
    let t = table("t", vec![rowid_alias(), notnull()]);
    assert!(insert_needs(
        &empty(),
        &t,
        Insert { autoincrement: true, notnull: true, ..PLAIN }
    ));
}

/// CREATE TABLE t (a NOT NULL); CREATE TABLE s (x); INSERT INTO t SELECT x FROM s
#[test]
fn insert_select_source() {
    let t = table("t", vec![notnull()]);
    assert!(insert_needs(
        &empty(),
        &t,
        Insert { multiple_rows: true, notnull: true, ..PLAIN }
    ));
}

/// CREATE TABLE child (id UNIQUE, pid INT, FOREIGN KEY(pid) REFERENCES parent(id));
/// INSERT INTO child VALUES (1, 1)
#[test]
fn insert_single_row_with_immediate_fk() {
    let child = with_unique(table("child", vec![col(), col()]), 0);
    let mut resolver = with_fk("child", "parent");
    resolver.indexes.push(index("child", true));
    let fks = table_has_fks(&FKS_ON, &resolver, 0, "child");
    assert!(fks);
    assert!(!insert_needs(&resolver, &child, Insert { fks, unique: true, ..PLAIN }));
}

/// CREATE TABLE t(id INTEGER PRIMARY KEY, a TEXT UNIQUE, b TEXT NOT NULL);
/// INSERT OR REPLACE INTO t VALUES(2, 'x', NULL)
#[test]
fn insert_or_replace_notnull_falls_back_to_abort() {
    let t = with_unique(table("t", vec![rowid_alias(), col(), notnull()]), 1);
    assert!(insert_needs(
        &with_indexes(vec![index("t", true)]),
        &t,
        Insert {
            conflict: Some(ResolveType::Replace),
            notnull: true,
            unique: true,
            ..PLAIN
        }
    ));
}

#[test]
fn insert_upsert_is_multi_write() {
    let t = with_unique(table("t", vec![col()]), 0);
    let resolver = with_indexes(vec![index("t", true)]);
    assert!(insert_needs(&resolver, &t, Insert { upsert: true, unique: true, ..PLAIN }));
}

#[test]
fn insert_check_constraint_may_abort() {
    let mut t = table("t", vec![col()]);
    t.check_constraints.push(expr("a > 0"));
    assert!(insert_flags(&empty(), &t, PLAIN).may_abort);
    assert!(!insert_needs(&empty(), &t, PLAIN));
    assert!(insert_needs(&empty(), &t, Insert { multiple_rows: true, ..PLAIN }));
}

#[test]
fn insert_reads_the_indexes_of_its_own_table_only() {
    let t = table("t", vec![col()]);
    let many = Insert { multiple_rows: true, ..PLAIN };
    assert!(insert_needs(&with_indexes(vec![index("t", true)]), &t, many));
    assert!(!insert_needs(&with_indexes(vec![index("u", true)]), &t, many));
    assert!(!insert_needs(
        &with_indexes(vec![Index { database_id: 2, ..index("t", true) }]),
        &t,
        many
    ));
    let replacing = Index { on_conflict: Some(ResolveType::Replace), ..index("t", true) };
    let other = Index { on_conflict: Some(ResolveType::Replace), ..index("u", true) };
    assert!(insert_flags(&with_indexes(vec![replacing]), &t, PLAIN).multi_write);
    assert!(!insert_flags(&with_indexes(vec![other]), &t, PLAIN).multi_write);
}

#[test]
fn insert_ipk_on_conflict_replace_is_multi_write() {
    let mut t = table("t", vec![rowid_alias()]);
    t.rowid_alias_conflict_clause = Some(ResolveType::Replace);
    let program = insert_flags(&empty(), &t, Insert { unique: true, ..PLAIN });
    assert!(program.multi_write);
    assert!(!program.may_abort);
}

// UPDATE

/// CREATE TABLE t (a, b); UPDATE t SET a = 1
#[test]
fn update_no_where() {
    let plan = update(table("t", vec![col(), col()]), Operation::Scan, &[0]);
    assert!(!update_needs(&plan, &empty(), &FKS_OFF));
}

/// CREATE TABLE t(id INTEGER PRIMARY KEY, x INT);
/// UPDATE t SET x = CASE WHEN id=1 THEN 11
///   ELSE (char(120) LIKE char(120) ESCAPE (char(121)||char(121))) END
#[test]
fn update_fallible_set_expr_needs_stmt_journal() {
    let mut plan = update(table("t", vec![rowid_alias(), col()]), Operation::Scan, &[1]);
    assert!(!update_needs(&plan, &empty(), &FKS_OFF));
    plan.set_clauses[0].expr = fallible(
        "CASE WHEN id=1 THEN 11 ELSE (char(120) LIKE char(120) ESCAPE (char(121)||char(121))) END",
    );
    assert!(update_needs(&plan, &empty(), &FKS_OFF));
}

/// CREATE TABLE t (a NOT NULL, b); UPDATE t SET a = 1
#[test]
fn update_no_where_notnull() {
    let plan = update(table("t", vec![notnull(), col()]), Operation::Scan, &[0]);
    assert!(update_needs(&plan, &empty(), &FKS_OFF));
}

/// CREATE TABLE t (a NOT NULL, b); UPDATE t SET a = 1 WHERE rowid = 5
#[test]
fn update_by_rowid() {
    let plan = update(table("t", vec![notnull(), col()]), Operation::RowidEq, &[0]);
    let program = update_flags(&plan, &empty(), &FKS_OFF);
    assert!(!program.needs_stmt_subtransactions());
    assert!(program.may_abort);
}

/// CREATE TABLE t (id INTEGER PRIMARY KEY, a NOT NULL, b); UPDATE t SET a = 1 WHERE id = 5
#[test]
fn update_by_rowid_alias() {
    let t = table("t", vec![rowid_alias(), notnull(), col()]);
    let plan = update(t, Operation::RowidEq, &[1]);
    assert!(!update_needs(&plan, &empty(), &FKS_OFF));
}

/// CREATE TABLE t (a NOT NULL, b UNIQUE); UPDATE t SET a = 1 WHERE b = 5
#[test]
fn update_by_unique_index() {
    let t = with_unique(table("t", vec![notnull(), col()]), 1);
    assert!(!update_needs(&update(t, UNIQUE_SEEK, &[0]), &empty(), &FKS_OFF));
}

/// CREATE TABLE t (a NOT NULL, b); CREATE INDEX idx_b ON t(b);
/// UPDATE t SET a = 1 WHERE b = 5
#[test]
fn update_by_non_unique_index() {
    let seek = Operation::IndexSeek { unique: false, key_columns: 1, eq_columns: 1 };
    let plan = update(table("t", vec![notnull(), col()]), seek, &[0]);
    assert!(update_needs(&plan, &empty(), &FKS_OFF));
}

/// CREATE TABLE t (a NOT NULL, b); UPDATE t SET a = 1 WHERE b = 5
#[test]
fn update_unindexed_where() {
    let plan = update(table("t", vec![notnull(), col()]), Operation::Scan, &[0]);
    assert!(update_needs(&plan, &empty(), &FKS_OFF));
}

/// CREATE TABLE t (id INTEGER PRIMARY KEY, a UNIQUE);
/// UPDATE OR REPLACE t SET a = 1 WHERE id = 5
#[test]
fn update_or_replace_by_rowid() {
    let t = with_unique(table("t", vec![rowid_alias(), col()]), 1);
    let mut plan = update(t, Operation::RowidEq, &[1]);
    plan.or_conflict = Some(ResolveType::Replace);
    plan.indexes_to_update.push(index("t", true));
    let program = update_flags(&plan, &empty(), &FKS_OFF);
    assert!(!program.needs_stmt_subtransactions());
    assert!(program.multi_write);
    assert!(!program.may_abort);
}

/// CREATE TABLE t (a NOT NULL, b, c); CREATE UNIQUE INDEX idx_bc ON t(b, c);
/// UPDATE t SET a = 1 WHERE b = 1 AND c = 2
#[test]
fn update_composite_unique_all_cols() {
    let seek = Operation::IndexSeek { unique: true, key_columns: 2, eq_columns: 2 };
    let plan = update(table("t", vec![notnull(), col(), col()]), seek, &[0]);
    assert!(!update_needs(&plan, &empty(), &FKS_OFF));
}

/// CREATE TABLE t (a NOT NULL, b, c); CREATE UNIQUE INDEX idx_bc ON t(b, c);
/// UPDATE t SET a = 1 WHERE b = 1
#[test]
fn update_composite_unique_partial_cols() {
    let seek = Operation::IndexSeek { unique: true, key_columns: 2, eq_columns: 1 };
    let plan = update(table("t", vec![notnull(), col(), col()]), seek, &[0]);
    assert!(update_needs(&plan, &empty(), &FKS_OFF));
}

/// CREATE TABLE p (id INTEGER PRIMARY KEY, val TEXT);
/// CREATE TABLE c (id INTEGER PRIMARY KEY, pid INT, FOREIGN KEY(pid) REFERENCES p(id) ...);
/// UPDATE p SET id = 99 WHERE id = 1, which collects its rows first
#[test]
fn update_fk_parent_key_mutation_ephemeral() {
    let plan = update(table("p", vec![rowid_alias(), col()]), Operation::Scan, &[0]);
    assert!(update_needs(&plan, &with_fk("c", "p"), &FKS_ON));
}

/// As above, with UPDATE c SET id = 99 WHERE id = 1
#[test]
fn update_fk_child_key_mutation_ephemeral() {
    let plan = update(table("c", vec![rowid_alias(), col()]), Operation::Scan, &[0]);
    assert!(update_needs(&plan, &with_fk("c", "p"), &FKS_ON));
}

/// CREATE UNIQUE INDEX idx_c ON t(c) WHERE c IS NOT NULL; CREATE UNIQUE INDEX idx_b ON t(b);
/// UPDATE t SET b=40, c=200 WHERE a=1
#[test]
fn update_single_row_with_partial_unique_index() {
    let t = table("t", vec![rowid_alias(), col(), col()]);
    let mut plan = update(t, Operation::RowidEq, &[1, 2]);
    plan.indexes_to_update.push(Index {
        where_clause: Some(expr("c IS NOT NULL")),
        ..index("t", true)
    });
    plan.indexes_to_update.push(index("t", true));
    let program = update_flags(&plan, &empty(), &FKS_OFF);
    assert!(!program.needs_stmt_subtransactions());
    assert!(program.may_abort);
}

/// CREATE TABLE t(id INTEGER PRIMARY KEY, a INT, b INT);
/// CREATE INDEX idx ON t(a) WHERE CASE WHEN b=2 THEN 'x' LIKE 'x' ESCAPE 'yy' ELSE 1 END;
/// UPDATE t SET b=CASE WHEN id=2 THEN 2 ELSE b+10 END
#[test]
fn update_fallible_partial_index_expr_needs_stmt_journal() {
    let t = table("t", vec![rowid_alias(), col(), col()]);
    let mut plan = update(t, Operation::Scan, &[2]);
    plan.set_clauses[0].expr = expr("CASE WHEN id=2 THEN 2 ELSE b+10 END");
    plan.indexes_to_update.push(Index {
        where_clause: Some(fallible("CASE WHEN b=2 THEN 'x' LIKE 'x' ESCAPE 'yy' ELSE 1 END")),
        ..index("t", false)
    });
    assert!(update_needs(&plan, &empty(), &FKS_OFF));
}

#[test]
fn update_of_rowid_is_no_notnull_assignment() {
    let plan = update(table("t", vec![notnull()]), Operation::Scan, &[ROWID_SENTINEL, 7]);
    assert!(!update_flags(&plan, &empty(), &FKS_OFF).may_abort);
    let alias = Column { notnull: true, is_rowid_alias: true };
    let plan = update(table("t", vec![alias]), Operation::Scan, &[0]);
    assert!(!update_flags(&plan, &empty(), &FKS_OFF).may_abort);
}

#[test]
fn update_with_limit_or_offset_is_multi_write() {
    let mut plan = update(table("t", vec![notnull()]), Operation::RowidEq, &[0]);
    plan.limit = Some(expr("1"));
    assert!(update_needs(&plan, &empty(), &FKS_OFF));
    plan.limit = None;
    plan.offset = Some(expr("0"));
    assert!(update_needs(&plan, &empty(), &FKS_OFF));
}

#[test]
fn update_triggers_by_column_and_table() {
    let plan = || update(table("t", vec![col(), col()]), Operation::RowidEq, &[0]);
    let needs = |resolver: Resolver| update_needs(&plan(), &resolver, &FKS_OFF);
    assert!(needs(with_trigger("t", TriggerEvent::Update)));
    assert!(needs(with_trigger("t", TriggerEvent::UpdateOf(vec![1, 0]))));
    assert!(!needs(with_trigger("t", TriggerEvent::UpdateOf(vec![1]))));
    assert!(!needs(with_trigger("t", TriggerEvent::Insert)));
    assert!(!needs(with_trigger("t", TriggerEvent::Delete)));
    assert!(!needs(with_trigger("u", TriggerEvent::Update)));
}

#[test]
fn update_of_virtual_table_keeps_defaults() {
    let mut plan = update(table("t", vec![]), Operation::RowidEq, &[]);
    plan.target_table.table = Table::Virtual;
    assert_eq!(update_flags(&plan, &empty(), &FKS_OFF), ProgramBuilder::new(false));
}

// DELETE

/// CREATE TABLE t (a, b); DELETE FROM t
#[test]
fn delete_no_where() {
    let plan = delete(table("t", vec![col(), col()]), Operation::Scan);
    let program = delete_flags(&plan, &empty(), &FKS_OFF);
    assert!(!program.needs_stmt_subtransactions());
    assert!(program.multi_write);
}

/// CREATE TABLE t (a, b); DELETE FROM t WHERE rowid = 5
#[test]
fn delete_by_rowid() {
    let plan = delete(table("t", vec![col(), col()]), Operation::RowidEq);
    assert!(!delete_needs(&plan, &empty(), &FKS_OFF));
    assert!(!delete_flags(&plan, &empty(), &FKS_OFF).multi_write);
}

/// CREATE TABLE t (a, b UNIQUE); DELETE FROM t WHERE b = 5
#[test]
fn delete_by_unique_index() {
    let plan = delete(with_unique(table("t", vec![col(), col()]), 1), UNIQUE_SEEK);
    assert!(!delete_needs(&plan, &empty(), &FKS_OFF));
}

/// CREATE TABLE parent (id INTEGER PRIMARY KEY); CREATE TABLE child (pid REFERENCES parent(id));
/// DELETE FROM parent
#[test]
fn delete_with_fk() {
    let plan = delete(table("parent", vec![rowid_alias()]), Operation::Scan);
    assert!(delete_needs(&plan, &with_fk("child", "parent"), &FKS_ON));
}

/// As above, with DELETE FROM parent WHERE id = 5
#[test]
fn delete_by_rowid_with_fk() {
    let plan = delete(table("parent", vec![rowid_alias()]), Operation::RowidEq);
    assert!(delete_needs(&plan, &with_fk("child", "parent"), &FKS_ON));
    assert!(!delete_needs(&plan, &with_fk("child", "parent"), &FKS_OFF));
}

#[test]
fn delete_with_trigger_or_returning() {
    let mut plan = delete(table("t", vec![col()]), Operation::RowidEq);
    plan.safety.reasons.push(DmlSafetyReason::KeyMutation);
    assert!(!delete_needs(&plan, &empty(), &FKS_OFF));
    plan.safety.reasons.push(DmlSafetyReason::Trigger);
    assert!(delete_needs(&plan, &empty(), &FKS_OFF));
    let mut plan = delete(table("t", vec![col()]), Operation::RowidEq);
    plan.result_columns.push(expr("a"));
    assert!(delete_needs(&plan, &empty(), &FKS_OFF));
}

#[test]
fn delete_without_target_table_is_an_error() {
    let mut plan = delete(table("t", vec![]), Operation::Scan);
    plan.table_references.joined_tables.clear();
    let mut program = ProgramBuilder::new(false);
    let result = set_delete_stmt_journal_flags(&mut program, &plan, &empty(), &FKS_ON, 0);
    match result {
        Err(TranslateError::ParseError(message)) => {
            assert_eq!(message, "DELETE should have one target table")
        }
        Ok(()) => panic!("accepted"),
    }
    assert_eq!(program, ProgramBuilder::new(false));
}

// SELECT

/// SELECT * FROM t; SELECT * FROM t WHERE a = 1
#[test]
fn select_never_needs_stmt_journal() {
    assert!(!ProgramBuilder::new(true).needs_stmt_subtransactions());
    assert!(ProgramBuilder::new(false).needs_stmt_subtransactions());
}

// The rules by themselves

#[test]
fn replace_in_declarations() {
    let replace = Some(ResolveType::Replace);
    assert!(any_index_or_ipk_has_replace(replace, &[]));
    assert!(any_index_or_ipk_has_replace(None, &[None, replace]));
    assert!(!any_index_or_ipk_has_replace(Some(ResolveType::Abort), &[None]));
    assert!(any_effective_replace(false, ResolveType::Abort, None, &[replace]));
    assert!(!any_effective_replace(true, ResolveType::Abort, replace, &[replace]));
    assert!(any_effective_replace(true, ResolveType::Replace, None, &[]));
    assert!(!any_effective_replace(false, ResolveType::Replace, None, &[]));
}

#[test]
fn constraint_aborts_by_mode() {
    let abort = |mode, notnull, check, unique| {
        constraint_may_abort(true, mode, None, &[(None, true)], notnull, check, unique)
    };
    assert!(abort(ResolveType::Abort, true, false, false));
    assert!(abort(ResolveType::Abort, false, true, false));
    assert!(abort(ResolveType::Abort, false, false, true));
    assert!(!abort(ResolveType::Abort, false, false, false));
    assert!(abort(ResolveType::Replace, true, false, true));
    assert!(abort(ResolveType::Replace, false, true, true));
    assert!(!abort(ResolveType::Replace, false, false, true));
    assert!(!abort(ResolveType::Ignore, true, true, true));
    assert!(!abort(ResolveType::Fail, true, true, true));
    assert!(!abort(ResolveType::Rollback, true, true, true));
}

#[test]
fn constraint_aborts_by_declaration() {
    let abort = |rowid, indexes: &[(Option<ResolveType>, bool)], notnull, unique| {
        constraint_may_abort(false, ResolveType::Ignore, rowid, indexes, notnull, false, unique)
    };
    assert!(abort(None, &[], false, true));
    assert!(abort(Some(ResolveType::Abort), &[], false, true));
    assert!(!abort(Some(ResolveType::Replace), &[], false, true));
    assert!(!abort(Some(ResolveType::Ignore), &[], false, true));
    assert!(abort(Some(ResolveType::Ignore), &[], true, false));
    assert!(abort(Some(ResolveType::Ignore), &[(None, true)], false, true));
    assert!(!abort(Some(ResolveType::Ignore), &[(None, false)], false, true));
    assert!(!abort(Some(ResolveType::Ignore), &[(Some(ResolveType::Fail), true)], false, true));
    assert!(!abort(None, &[(Some(ResolveType::Replace), true)], false, false));
}

#[test]
fn fks_count_on_both_sides_once_resolved() {
    let mut resolver = with_fk("child", "parent");
    assert!(table_has_fks(&FKS_ON, &resolver, 0, "child"));
    assert!(table_has_fks(&FKS_ON, &resolver, 0, "parent"));
    assert!(!table_has_fks(&FKS_ON, &resolver, 0, "other"));
    assert!(!table_has_fks(&FKS_ON, &resolver, 1, "child"));
    assert!(!table_has_fks(&FKS_OFF, &resolver, 0, "child"));
    resolver.foreign_keys[0].resolved = false;
    assert!(table_has_fks(&FKS_ON, &resolver, 0, "child"));
    assert!(!table_has_fks(&FKS_ON, &resolver, 0, "parent"));
}

// The laws, each on one value

#[test]
fn returning_keeps_the_journal_of_a_single_row() {
    let t = table("t", vec![col()]);
    assert!(insert_needs(&empty(), &t, Insert { returning: true, ..PLAIN }));
    let mut plan = update(table("t", vec![col()]), Operation::RowidEq, &[0]);
    plan.returning = Some(vec![]);
    assert!(!update_needs(&plan, &empty(), &FKS_OFF));
    plan.returning = Some(vec![expr("a")]);
    assert!(update_needs(&plan, &empty(), &FKS_OFF));
}

#[test]
fn triggers_keep_the_journal_of_a_single_row_insert() {
    let t = table("t", vec![col()]);
    assert!(insert_needs(&empty(), &t, Insert { triggers: true, ..PLAIN }));
}

#[test]
fn adding_constraints_keeps_the_abort() {
    let unique = [(None, true)];
    let more = [(None, true), (Some(ResolveType::Ignore), true)];
    let ignore = Some(ResolveType::Ignore);
    assert!(constraint_may_abort(false, ResolveType::Abort, ignore, &unique, false, false, false));
    assert!(constraint_may_abort(false, ResolveType::Abort, ignore, &more, true, true, true));
}

#[test]
fn repeating_the_analysis_changes_nothing() {
    let plan = update(table("t", vec![notnull()]), Operation::RowidEq, &[0]);
    let mut program = update_flags(&plan, &empty(), &FKS_OFF);
    let once = program;
    assert!(set_update_stmt_journal_flags(&mut program, &plan, &empty(), &FKS_OFF).is_ok());
    assert_eq!(program, once);

    let plan = delete(table("t", vec![]), Operation::Scan);
    let mut program = delete_flags(&plan, &empty(), &FKS_OFF);
    let once = program;
    assert!(set_delete_stmt_journal_flags(&mut program, &plan, &empty(), &FKS_OFF, 0).is_ok());
    assert_eq!(program, once);
}

#[test]
fn a_cleared_flag_stays_cleared() {
    let plan = update(table("t", vec![notnull()]), Operation::Scan, &[0]);
    let mut program = ProgramBuilder::new(false);
    program.set_multi_write(false);
    assert!(set_update_stmt_journal_flags(&mut program, &plan, &empty(), &FKS_OFF).is_ok());
    assert!(!program.multi_write);
    assert!(program.may_abort);
}

#[test]
fn delete_of_virtual_table_keeps_defaults() {
    let mut plan = delete(table("t", vec![]), Operation::RowidEq);
    plan.table_references.joined_tables[0].table = Table::Virtual;
    assert_eq!(delete_flags(&plan, &empty(), &FKS_OFF), ProgramBuilder::new(false));
}

#[test]
fn repeating_the_insert_analysis_changes_nothing() {
    let t = table("t", vec![notnull()]);
    let mut program = insert_flags(&empty(), &t, Insert { notnull: true, ..PLAIN });
    let once = program;
    assert_eq!(once, ProgramBuilder { read_only: false, multi_write: false, may_abort: true });
    set_insert_stmt_journal_flags(
        &mut program,
        &empty(),
        0,
        &t,
        false,
        ResolveType::Abort,
        false,
        false,
        false,
        false,
        false,
        true,
        false,
        false,
    );
    assert_eq!(program, once);
}

#[test]
fn statement_mode_overrides_declarations() {
    let ignore = Some(ResolveType::Ignore);
    for (rowid, indexes) in [(None, [(None, true)]), (ignore, [(ignore, true)])] {
        let aborts = |mode| constraint_may_abort(true, mode, rowid, &indexes, false, false, true);
        assert!(aborts(ResolveType::Abort));
        assert!(!aborts(ResolveType::Ignore));
    }
}
