//! Laws of the conflict modes and of the flags themselves.

use crate::ast::ResolveType;
use crate::program::ProgramBuilder;
use crate::stmt_journal;
use vstd::prelude::*;

verus! {

/// A journal takes all three: a statement that writes, more than one write, and
/// a way to abort. Each of them missing is enough to do without.
pub proof fn journal_takes_both_flags_and_a_write(program: ProgramBuilder)
    ensures
        program.read_only ==> !program.uses_stmt_journal(),
        !program.multi_write ==> !program.uses_stmt_journal(),
        !program.may_abort ==> !program.uses_stmt_journal(),
        !program.read_only && program.multi_write && program.may_abort
            ==> program.uses_stmt_journal(),
{
}

/// A primary key declared ON CONFLICT REPLACE is enough, whatever the indexes.
pub proof fn replacing_key_is_found(indexes: Seq<Option<ResolveType>>)
    ensures
        stmt_journal::declares_replace(Some(ResolveType::Replace), indexes),
{
}

/// One index declared ON CONFLICT REPLACE is enough, wherever it stands in the
/// list and whatever the primary key declares.
pub proof fn replacing_index_is_found(
    rowid_alias_conflict: Option<ResolveType>,
    indexes: Seq<Option<ResolveType>>,
    i: int,
)
    requires
        0 <= i < indexes.len(),
        indexes[i] == Some(ResolveType::Replace),
    ensures
        stmt_journal::declares_replace(rowid_alias_conflict, indexes),
{
}

/// Where neither the primary key nor any index is declared ON CONFLICT REPLACE,
/// none is found.
pub proof fn no_replace_is_invented(
    rowid_alias_conflict: Option<ResolveType>,
    indexes: Seq<Option<ResolveType>>,
)
    requires
        rowid_alias_conflict != Some(ResolveType::Replace),
        forall|i: int| 0 <= i < indexes.len() ==> indexes[i] != Some(ResolveType::Replace),
    ensures
        !stmt_journal::declares_replace(rowid_alias_conflict, indexes),
{
}

/// A list of indexes declares REPLACE if and only if one of its two parts does,
/// at whatever place it is cut; so adding an index on either side never takes
/// a REPLACE away.
pub proof fn replace_of_joined_lists(
    rowid_alias_conflict: Option<ResolveType>,
    left: Seq<Option<ResolveType>>,
    right: Seq<Option<ResolveType>>,
)
    ensures
        stmt_journal::declares_replace(rowid_alias_conflict, left + right) <==> {
            ||| stmt_journal::declares_replace(rowid_alias_conflict, left)
            ||| stmt_journal::declares_replace(rowid_alias_conflict, right)
        },
{
    let joined = left + right;
    let replace = Some(ResolveType::Replace);
    if left.contains(replace) {
        let i = choose|i: int| 0 <= i < left.len() && left[i] == replace;
        assert(joined[i] == replace);
    }
    if right.contains(replace) {
        let i = choose|i: int| 0 <= i < right.len() && right[i] == replace;
        assert(joined[left.len() + i] == replace);
    }
    if joined.contains(replace) {
        let i = choose|i: int| 0 <= i < joined.len() && joined[i] == replace;
        if i < left.len() {
            assert(left[i] == replace);
        } else {
            assert(right[i - left.len()] == replace);
        }
    }
}

/// With a mode of the statement, rows may be replaced under `OR REPLACE` and
/// under no other mode.
pub proof fn statement_replaces_only_under_replace(
    statement_conflict: ResolveType,
    rowid_alias_conflict: Option<ResolveType>,
    indexes: Seq<Option<ResolveType>>,
)
    ensures
        stmt_journal::may_replace(true, statement_conflict, rowid_alias_conflict, indexes)
            <==> statement_conflict == ResolveType::Replace,
{
}

/// Without a mode of the statement, rows may be replaced where the primary key
/// says so, or an index does, and nowhere else. The unused mode does not count.
pub proof fn declarations_replace_without_statement_mode(
    unused: ResolveType,
    rowid_alias_conflict: Option<ResolveType>,
    indexes: Seq<Option<ResolveType>>,
)
    ensures
        rowid_alias_conflict == Some(ResolveType::Replace) ==> stmt_journal::may_replace(
            false,
            unused,
            rowid_alias_conflict,
            indexes,
        ),
        forall|i: int|
            0 <= i < indexes.len() && #[trigger] indexes[i] == Some(ResolveType::Replace)
                ==> stmt_journal::may_replace(false, unused, rowid_alias_conflict, indexes),
        rowid_alias_conflict != Some(ResolveType::Replace) && (forall|i: int|
            0 <= i < indexes.len() ==> #[trigger] indexes[i] != Some(ResolveType::Replace))
            ==> !stmt_journal::may_replace(false, unused, rowid_alias_conflict, indexes),
{
}

/// Under `OR ABORT` any one kind of constraint aborts the statement, and a
/// table with none of them does not.
pub proof fn statement_abort_counts_every_constraint(
    rowid_alias_conflict: Option<ResolveType>,
    indexes: Seq<(Option<ResolveType>, bool)>,
    has_notnull: bool,
    has_check: bool,
    has_unique: bool,
)
    ensures
        stmt_journal::constraint_aborts(
            true,
            ResolveType::Abort,
            rowid_alias_conflict,
            indexes,
            has_notnull,
            has_check,
            has_unique,
        ) <==> has_notnull || has_check || has_unique,
{
}

/// Without a mode of the statement, a uniqueness constraint aborts where the
/// primary key declares ABORT or nothing.
pub proof fn unique_key_aborts_by_default(
    unused: ResolveType,
    rowid_alias_conflict: Option<ResolveType>,
    indexes: Seq<(Option<ResolveType>, bool)>,
    has_notnull: bool,
    has_check: bool,
)
    requires
        rowid_alias_conflict == None::<ResolveType> || rowid_alias_conflict == Some(
            ResolveType::Abort,
        ),
    ensures
        stmt_journal::constraint_aborts(
            false,
            unused,
            rowid_alias_conflict,
            indexes,
            has_notnull,
            has_check,
            true,
        ),
{
}

/// Without a mode of the statement, one unique index that declares ABORT or
/// nothing is enough to abort, wherever it stands in the list and whatever the
/// primary key and the other indexes declare.
pub proof fn unique_index_aborts_by_default(
    unused: ResolveType,
    rowid_alias_conflict: Option<ResolveType>,
    indexes: Seq<(Option<ResolveType>, bool)>,
    has_notnull: bool,
    has_check: bool,
    has_unique: bool,
    i: int,
)
    requires
        0 <= i < indexes.len(),
        indexes[i].1,
        indexes[i].0 == None::<ResolveType> || indexes[i].0 == Some(ResolveType::Abort),
    ensures
        stmt_journal::constraint_aborts(
            false,
            unused,
            rowid_alias_conflict,
            indexes,
            has_notnull,
            has_check,
            has_unique,
        ),
{
    assert(stmt_journal::index_aborts(indexes[i], has_notnull || has_check));
}

/// Without a mode of the statement nothing aborts a table that has no NOT NULL
/// and no CHECK constraint, no uniqueness constraint under a primary key that
/// aborts, and no unique index that declares ABORT or nothing.
pub proof fn declarations_that_never_abort(
    unused: ResolveType,
    rowid_alias_conflict: Option<ResolveType>,
    indexes: Seq<(Option<ResolveType>, bool)>,
    has_unique: bool,
)
    requires
        has_unique ==> rowid_alias_conflict != None::<ResolveType> && rowid_alias_conflict != Some(
            ResolveType::Abort,
        ),
        forall|i: int|
            0 <= i < indexes.len() && (#[trigger] indexes[i]).1 ==> indexes[i].0
                != None::<ResolveType> && indexes[i].0 != Some(ResolveType::Abort),
    ensures
        !stmt_journal::constraint_aborts(
            false,
            unused,
            rowid_alias_conflict,
            indexes,
            false,
            false,
            has_unique,
        ),
{
}

/// A constraint of a joined list of indexes aborts if and only if it does with
/// one of the two parts, at whatever place the list is cut.
pub proof fn aborts_of_joined_lists(
    has_statement_conflict: bool,
    statement_conflict: ResolveType,
    rowid_alias_conflict: Option<ResolveType>,
    left: Seq<(Option<ResolveType>, bool)>,
    right: Seq<(Option<ResolveType>, bool)>,
    has_notnull: bool,
    has_check: bool,
    has_unique: bool,
)
    ensures
        ({
            let aborts = |indexes: Seq<(Option<ResolveType>, bool)>|
                stmt_journal::constraint_aborts(
                    has_statement_conflict,
                    statement_conflict,
                    rowid_alias_conflict,
                    indexes,
                    has_notnull,
                    has_check,
                    has_unique,
                );
            aborts(left + right) <==> aborts(left) || aborts(right)
        }),
{
    let checks = has_notnull || has_check;
    let joined = left + right;
    if exists|i: int| 0 <= i < left.len() && stmt_journal::index_aborts(left[i], checks) {
        let i = choose|i: int| 0 <= i < left.len() && stmt_journal::index_aborts(left[i], checks);
        assert(joined[i] == left[i]);
    }
    if exists|i: int| 0 <= i < right.len() && stmt_journal::index_aborts(right[i], checks) {
        let i = choose|i: int| 0 <= i < right.len() && stmt_journal::index_aborts(right[i], checks);
        assert(joined[left.len() + i] == right[i]);
    }
    if exists|i: int| 0 <= i < joined.len() && stmt_journal::index_aborts(joined[i], checks) {
        let i = choose|i: int|
            0 <= i < joined.len() && stmt_journal::index_aborts(joined[i], checks);
        if i < left.len() {
            assert(joined[i] == left[i]);
        } else {
            assert(joined[i] == right[i - left.len()]);
        }
    }
}

} // verus!
