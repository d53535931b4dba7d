//! Plans of UPDATE and DELETE statements.

use crate::ast::{Expr, ResolveType};
use crate::schema::{BTreeTable, Index, ROWID_SENTINEL};
use vstd::prelude::*;

verus! {

/// How the rows of a table are visited.
#[derive(Clone, Copy, Debug, PartialEq, Eq, Structural)]
pub enum Operation {
    /// Every row, of the table or of an ephemeral table of collected rows.
    Scan,
    /// The row with one given rowid.
    RowidEq,
    /// The rows whose leading `eq_columns` columns of an index of `key_columns`
    /// columns equal given values.
    IndexSeek { unique: bool, key_columns: usize, eq_columns: usize },
}

impl Operation {
    /// A point lookup: by rowid, or by every column of a unique index.
    pub open spec fn is_point_lookup(self) -> bool {
        match self {
            Operation::Scan => false,
            Operation::RowidEq => true,
            Operation::IndexSeek { unique, key_columns, eq_columns } => unique && eq_columns
                >= key_columns,
        }
    }

    /// Whether the operation visits at most one row.
    pub fn affects_max_1_row(&self) -> (single: bool)
        ensures
            single == self.is_point_lookup(),
    {
        match self {
            Operation::Scan => false,
            Operation::RowidEq => true,
            Operation::IndexSeek { unique, key_columns, eq_columns } => *unique && *eq_columns
                >= *key_columns,
        }
    }
}

/// What a table reference refers to.
#[derive(Debug)]
pub enum Table {
    BTree(BTreeTable),
    Virtual,
}

/// A table reference of a statement.
#[derive(Debug)]
pub struct JoinedTable {
    pub table: Table,
    pub op: Operation,
    pub database_id: usize,
}

impl JoinedTable {
    /// The ordinary table behind the reference, if it is one.
    pub open spec fn spec_btree(self) -> Option<BTreeTable> {
        match self.table {
            Table::BTree(table) => Some(table),
            Table::Virtual => None,
        }
    }

    /// The ordinary table behind the reference, if it is one.
    pub fn btree(&self) -> (table: Option<&BTreeTable>)
        ensures
            match table {
                Some(t) => self.spec_btree() == Some(*t),
                None => self.spec_btree() is None,
            },
    {
        match &self.table {
            Table::BTree(table) => Some(table),
            Table::Virtual => None,
        }
    }
}

/// One assignment of a SET clause.
#[derive(Debug)]
pub struct SetClause {
    /// The column assigned, or [`ROWID_SENTINEL`] for the rowid.
    pub column_index: usize,
    pub expr: Expr,
}

impl SetClause {
    /// The assignment can violate a NOT NULL constraint of the table.
    pub open spec fn sets_notnull_column(self, table: BTreeTable) -> bool {
        &&& self.column_index != ROWID_SENTINEL
        &&& self.column_index < table.columns@.len()
        &&& table.columns@[self.column_index as int].rejects_null()
    }
}

/// The plan of an UPDATE statement.
#[derive(Debug)]
pub struct UpdatePlan {
    pub target_table: JoinedTable,
    pub set_clauses: Vec<SetClause>,
    /// The conflict mode of `UPDATE OR ...`.
    pub or_conflict: Option<ResolveType>,
    /// The indexes whose entries the assignments can change.
    pub indexes_to_update: Vec<Index>,
    pub limit: Option<Expr>,
    pub offset: Option<Expr>,
    pub returning: Option<Vec<Expr>>,
}

/// Why the rows of a DELETE are collected before the first one is deleted.
#[derive(Clone, Copy, Debug, PartialEq, Eq, Structural)]
pub enum DmlSafetyReason {
    Trigger,
    KeyMutation,
}

/// The reasons that apply to a statement.
#[derive(Debug)]
pub struct DmlSafety {
    pub reasons: Vec<DmlSafetyReason>,
}

/// The tables a statement refers to.
#[derive(Debug)]
pub struct TableReferences {
    pub joined_tables: Vec<JoinedTable>,
}

/// The plan of a DELETE statement.
#[derive(Debug)]
pub struct DeletePlan {
    /// The first of these is the target.
    pub table_references: TableReferences,
    pub safety: DmlSafety,
    pub limit: Option<Expr>,
    pub offset: Option<Expr>,
    /// The RETURNING columns.
    pub result_columns: Vec<Expr>,
}

} // verus!
