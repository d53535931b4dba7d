//! The parts of a parsed statement that the analysis reads.

use vstd::prelude::*;

verus! {

/// How a constraint conflict is resolved (`ON CONFLICT ...`, `INSERT OR ...`,
/// `UPDATE OR ...`).
#[derive(Clone, Copy, Debug, PartialEq, Eq, Structural)]
pub enum ResolveType {
    /// Roll back the whole transaction.
    Rollback,
    /// Undo the statement and keep the transaction. The default.
    Abort,
    /// Stop, and keep what the statement wrote so far.
    Fail,
    /// Skip the offending row.
    Ignore,
    /// Delete the rows in the way.
    Replace,
}

/// The event a trigger watches.
#[derive(Debug)]
pub enum TriggerEvent {
    Delete,
    Insert,
    Update,
    /// `UPDATE OF`: only when one of these columns is assigned.
    UpdateOf(Vec<usize>),
}

/// A scalar expression.
#[derive(Debug)]
pub struct Expr {
    /// The expression as written.
    pub sql: String,
    /// Whether evaluating it can raise an error, as `x LIKE y ESCAPE 'zz'` does.
    pub may_fail: bool,
}

} // verus!
