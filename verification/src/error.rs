//! Errors of the analysis.

use vstd::prelude::*;

verus! {

/// Why a statement could not be analysed.
#[derive(Debug)]
pub enum TranslateError {
    /// The statement does not have the shape its kind requires.
    ParseError(String),
}

} // verus!
