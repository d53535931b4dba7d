//! Tables, indexes, foreign keys and triggers.

use crate::ast::{Expr, ResolveType, TriggerEvent};
use vstd::prelude::*;

verus! {

/// The column index that stands for the rowid in a SET clause.
pub const ROWID_SENTINEL: usize = usize::MAX;

/// A column of a table.
#[derive(Clone, Copy, Debug, PartialEq, Eq, Structural)]
pub struct Column {
    /// Declared NOT NULL.
    pub notnull: bool,
    /// Another name for the rowid (INTEGER PRIMARY KEY).
    pub is_rowid_alias: bool,
}

impl Column {
    /// Whether assigning NULL to the column is a constraint violation.
    pub open spec fn rejects_null(self) -> bool {
        self.notnull && !self.is_rowid_alias
    }
}

/// An ordinary table.
#[derive(Debug)]
pub struct BTreeTable {
    pub name: String,
    pub columns: Vec<Column>,
    /// The ON CONFLICT clause of the INTEGER PRIMARY KEY, where it has one.
    pub rowid_alias_conflict_clause: Option<ResolveType>,
    pub check_constraints: Vec<Expr>,
    /// The column sets declared UNIQUE or PRIMARY KEY.
    pub unique_sets: Vec<Vec<usize>>,
}

/// An index on a table.
#[derive(Debug)]
pub struct Index {
    pub database_id: usize,
    pub table_name: String,
    pub unique: bool,
    /// The ON CONFLICT clause of the constraint behind the index, if any.
    pub on_conflict: Option<ResolveType>,
    /// The predicate of a partial index.
    pub where_clause: Option<Expr>,
}

impl Index {
    /// The index covers the table `table_name` of the database `database_id`.
    pub open spec fn is_on(self, database_id: usize, table_name: Seq<char>) -> bool {
        self.database_id == database_id && self.table_name@ == table_name
    }

    /// The ON CONFLICT clause and the uniqueness of the index.
    pub open spec fn spec_mode(self) -> (Option<ResolveType>, bool) {
        (self.on_conflict, self.unique)
    }

    /// Deciding whether a row belongs in the index can raise an error.
    pub open spec fn has_fallible_predicate(self) -> bool {
        self.where_clause matches Some(predicate) && predicate.may_fail
    }
}

/// A foreign key of a child table.
#[derive(Debug)]
pub struct ForeignKey {
    pub database_id: usize,
    pub child_table: String,
    pub parent_table: String,
    /// The parent table and the parent columns exist.
    pub resolved: bool,
}

impl ForeignKey {
    /// The table is the child of this key.
    pub open spec fn has_child(self, database_id: usize, table_name: Seq<char>) -> bool {
        self.database_id == database_id && self.child_table@ == table_name
    }

    /// The key resolves to the table as its parent.
    pub open spec fn resolves_to(self, database_id: usize, table_name: Seq<char>) -> bool {
        self.database_id == database_id && self.parent_table@ == table_name && self.resolved
    }
}

/// A trigger, wherever it was created (in the temp database, for one).
#[derive(Debug)]
pub struct Trigger {
    /// The database of the table that the trigger watches.
    pub database_id: usize,
    pub table_name: String,
    pub event: TriggerEvent,
}

impl Trigger {
    /// An UPDATE that assigns `updated_columns` of the table fires the trigger.
    pub open spec fn fires_on_update(
        self,
        database_id: usize,
        table_name: Seq<char>,
        updated_columns: Seq<usize>,
    ) -> bool {
        &&& self.database_id == database_id
        &&& self.table_name@ == table_name
        &&& match self.event {
            TriggerEvent::Update => true,
            TriggerEvent::UpdateOf(columns) => exists|i: int|
                0 <= i < columns@.len() && updated_columns.contains(#[trigger] columns@[i]),
            TriggerEvent::Insert | TriggerEvent::Delete => false,
        }
    }
}

} // verus!
