//! The error type shared by every component of the crate.

use vstd::prelude::*;

verus! {

use crate::name::NameErrorKind;

/// A closed tagged union of every failure the generator can report.
///
/// Validation errors carry the classified naming violation; conflict errors
/// carry the offending path; collaborator failures (version control, template
/// engine, filesystem) carry the collaborator's message as plain text.
#[derive(Debug, PartialEq, Eq)]
pub enum Error {
    /// The plugin name broke one of the naming rules.
    InvalidName { kind: NameErrorKind },
    /// A directory-creation or file-write step found its target already
    /// present and overwriting was not enabled.
    TargetExists { path: String },
    /// Version-control initialization failed.
    GitInit { message: String },
    /// The template engine rejected a template or its rendering failed.
    Template { message: String },
    /// A filesystem operation failed.
    Io { message: String },
    /// Several failures had to be reported at once.
    Multiple { sources: Vec<Error> },
    /// A collaborator failure with no dedicated kind.
    Unknown { message: String },
}

} // verus!
