//! Decides when a SQL write statement needs a statement journal.
//!
//! Inside an explicit transaction a statement that fails half way must undo its
//! own writes without discarding the transaction. A statement journal makes
//! that possible and costs time, so it is taken only where it can matter: where
//! the statement may write more than one row *and* may abort. The analysis in
//! [`stmt_journal`] reads a statement plan and lowers the two flags of a
//! [`program::ProgramBuilder`] when that is safe; [`laws`] states what holds of
//! it for all plans.
#![allow(unused_imports)]

pub mod ast;
pub mod error;
pub mod laws;
pub mod plan;
pub mod program;
pub mod resolver;
pub mod schema;
pub mod stmt_journal;
