//! The command pattern shared by the crate's entry points.

use vstd::prelude::*;

verus! {

/// A command that consumes itself when executed.
///
/// The consuming `self` parameter ensures each command instance runs at most
/// once, which suits one-shot commands that produce side effects.
pub trait OnceCommand {
    /// The type returned on successful execution.
    type Output;

    /// The error type returned on failure.
    type Error;

    /// Executes the command, consuming self.
    fn execute(self) -> Result<Self::Output, Self::Error>;
}

} // verus!
