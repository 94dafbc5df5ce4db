use vstd::prelude::*;

verus! {

/// A place at which parsing resumes after a construct could not be read.
#[derive(Debug, Clone, Copy, PartialEq, Eq, Structural)]
pub enum SyncPoint {
    /// Resume at the next `{` or `class`.
    ClassBody,
    MethodBody,
    Statement,
    Expression,
}

} // verus!
