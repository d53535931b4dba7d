//! What a connection knows of its databases.

use crate::ast::{ResolveType, TriggerEvent};
use crate::schema::{ForeignKey, Index, Trigger};
use vstd::prelude::*;

verus! {

/// The settings of a connection that the analysis reads.
#[derive(Clone, Copy, Debug, PartialEq, Eq, Structural)]
pub struct Connection {
    /// `PRAGMA foreign_keys`.
    pub foreign_keys: bool,
}

impl Connection {
    /// Whether foreign keys are enforced.
    pub fn foreign_keys_enabled(&self) -> (enabled: bool)
        ensures
            enabled == self.foreign_keys,
    {
        self.foreign_keys
    }
}

/// The catalog of all databases of a connection.
#[derive(Debug)]
pub struct Resolver {
    pub foreign_keys: Vec<ForeignKey>,
    pub indexes: Vec<Index>,
    pub triggers: Vec<Trigger>,
}

impl Resolver {
    /// Some foreign key has the table as its child.
    pub open spec fn is_fk_child(self, database_id: usize, table_name: Seq<char>) -> bool {
        exists|i: int|
            0 <= i < self.foreign_keys@.len() && (#[trigger] self.foreign_keys@[i]).has_child(
                database_id,
                table_name,
            )
    }

    /// Some resolved foreign key has the table as its parent.
    pub open spec fn is_fk_parent(self, database_id: usize, table_name: Seq<char>) -> bool {
        exists|i: int|
            0 <= i < self.foreign_keys@.len() && (#[trigger] self.foreign_keys@[i]).resolves_to(
                database_id,
                table_name,
            )
    }

    /// The conflict clause and uniqueness of each index of the table, in
    /// catalog order.
    pub open spec fn spec_index_modes(
        self,
        database_id: usize,
        table_name: Seq<char>,
    ) -> Seq<(Option<ResolveType>, bool)> {
        self.indexes@.filter(|index: Index| index.is_on(database_id, table_name)).map_values(
            |index: Index| index.spec_mode(),
        )
    }

    /// An UPDATE that assigns `updated_columns` of the table fires a trigger.
    pub open spec fn fires_trigger(
        self,
        database_id: usize,
        table_name: Seq<char>,
        updated_columns: Seq<usize>,
    ) -> bool {
        exists|i: int|
            0 <= i < self.triggers@.len() && (#[trigger] self.triggers@[i]).fires_on_update(
                database_id,
                table_name,
                updated_columns,
            )
    }

    /// Whether the table is the child of a foreign key.
    pub fn has_child_fks(&self, database_id: usize, table_name: &str) -> (found: bool)
        ensures
            found == self.is_fk_child(database_id, table_name@),
    {
        let name = table_name.to_owned();
        for i in 0..self.foreign_keys.len()
            invariant
                name@ == table_name@,
                forall|j: int|
                    0 <= j < i ==> !(#[trigger] self.foreign_keys@[j]).has_child(
                        database_id,
                        table_name@,
                    ),
        {
            let fk = &self.foreign_keys[i];
            if fk.database_id == database_id && fk.child_table == name {
                return true;
            }
        }
        false
    }

    /// Whether the table is the parent of a resolved foreign key.
    pub fn any_resolved_fks_referencing(&self, database_id: usize, table_name: &str) -> (found:
        bool)
        ensures
            found == self.is_fk_parent(database_id, table_name@),
    {
        let name = table_name.to_owned();
        for i in 0..self.foreign_keys.len()
            invariant
                name@ == table_name@,
                forall|j: int|
                    0 <= j < i ==> !(#[trigger] self.foreign_keys@[j]).resolves_to(
                        database_id,
                        table_name@,
                    ),
        {
            let fk = &self.foreign_keys[i];
            if fk.database_id == database_id && fk.parent_table == name && fk.resolved {
                return true;
            }
        }
        false
    }

    /// The conflict clause and uniqueness of each index of the table.
    pub fn index_modes(&self, database_id: usize, table_name: &str) -> (modes: Vec<
        (Option<ResolveType>, bool),
    >)
        ensures
            modes@ == self.spec_index_modes(database_id, table_name@),
    {
        let name = table_name.to_owned();
        let ghost on_table = |index: Index| index.is_on(database_id, table_name@);
        let ghost mode = |index: Index| index.spec_mode();
        let mut modes: Vec<(Option<ResolveType>, bool)> = Vec::new();
        for i in 0..self.indexes.len()
            invariant
                name@ == table_name@,
                on_table == (|index: Index| index.is_on(database_id, table_name@)),
                mode == (|index: Index| index.spec_mode()),
                modes@ == self.indexes@.take(i as int).filter(on_table).map_values(mode),
        {
            let index = &self.indexes[i];
            if index.database_id == database_id && index.table_name == name {
                modes.push((index.on_conflict, index.unique));
            }
            proof {
                let seen = self.indexes@.take(i + 1);
                assert(seen.drop_last() == self.indexes@.take(i as int));
                assert(seen.last() == *index);
                reveal_with_fuel(Seq::filter, 1);
                assert(modes@ == seen.filter(on_table).map_values(mode));
            }
        }
        assert(self.indexes@.take(self.indexes@.len() as int) == self.indexes@);
        modes
    }

    /// Whether an UPDATE that assigns `updated_columns` fires a trigger of the
    /// table, triggers created in the temp database included.
    pub fn has_triggers_including_temp(
        &self,
        database_id: usize,
        updated_columns: &[usize],
        table_name: &str,
    ) -> (found: bool)
        ensures
            found == self.fires_trigger(database_id, table_name@, updated_columns@),
    {
        let name = table_name.to_owned();
        for i in 0..self.triggers.len()
            invariant
                name@ == table_name@,
                forall|j: int|
                    0 <= j < i ==> !(#[trigger] self.triggers@[j]).fires_on_update(
                        database_id,
                        table_name@,
                        updated_columns@,
                    ),
        {
            let trigger = &self.triggers[i];
            if trigger.database_id == database_id && trigger.table_name == name {
                let fires = match &trigger.event {
                    TriggerEvent::Update => true,
                    TriggerEvent::UpdateOf(columns) => shares_column(columns, updated_columns),
                    TriggerEvent::Insert => false,
                    TriggerEvent::Delete => false,
                };
                if fires {
                    return true;
                }
            }
        }
        false
    }
}

/// Whether one of `columns` is among `updated`.
fn shares_column(columns: &Vec<usize>, updated: &[usize]) -> (shares: bool)
    ensures
        shares == exists|i: int|
            0 <= i < columns@.len() && updated@.contains(#[trigger] columns@[i]),
{
    for i in 0..columns.len()
        invariant
            forall|k: int| 0 <= k < i ==> !updated@.contains(#[trigger] columns@[k]),
    {
        for j in 0..updated.len()
            invariant
                0 <= i < columns@.len(),
                forall|k: int| 0 <= k < j ==> updated@[k] != columns@[i as int],
        {
            if updated[j] == columns[i] {
                assert(updated@.contains(columns@[i as int]));
                return true;
            }
        }
    }
    false
}

} // verus!
