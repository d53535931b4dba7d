//! The flags of the program under construction.

use vstd::prelude::*;

verus! {

/// The statement journal flags of the program a statement compiles to.
#[derive(Clone, Copy, Debug, PartialEq, Eq, Structural)]
pub struct ProgramBuilder {
    /// The statement only reads.
    pub read_only: bool,
    /// The statement may modify more than one row, or more than one table.
    pub multi_write: bool,
    /// The statement may fail with an ABORT after it has started to write.
    pub may_abort: bool,
}

impl ProgramBuilder {
    /// Both flags are set and the statement writes.
    pub open spec fn uses_stmt_journal(self) -> bool {
        !self.read_only && self.multi_write && self.may_abort
    }

    /// A builder for a statement that writes, or that only reads. Both flags
    /// start out set: without an analysis the journal is kept.
    pub fn new(read_only: bool) -> (program: ProgramBuilder)
        ensures
            program == (ProgramBuilder { read_only, multi_write: true, may_abort: true }),
    {
        ProgramBuilder { read_only, multi_write: true, may_abort: true }
    }

    /// Records whether the statement may modify more than one row.
    pub fn set_multi_write(&mut self, multi_write: bool)
        ensures
            *final(self) == (ProgramBuilder { multi_write, ..*old(self) }),
    {
        self.multi_write = multi_write;
    }

    /// Records whether the statement may abort half way.
    pub fn set_may_abort(&mut self, may_abort: bool)
        ensures
            *final(self) == (ProgramBuilder { may_abort, ..*old(self) }),
    {
        self.may_abort = may_abort;
    }

    /// Whether the statement must run in a subtransaction of its own when it is
    /// part of an explicit transaction.
    pub fn needs_stmt_subtransactions(&self) -> (needed: bool)
        ensures
            needed == self.uses_stmt_journal(),
    {
        !self.read_only && self.multi_write && self.may_abort
    }
}

} // verus!
