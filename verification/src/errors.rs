//! Typed validation errors. The coordinator validates every command before
//! any mutating operation, so a rejected command has no side effects.

use vstd::prelude::*;

verus! {

/// Why a command was rejected by validation.
#[derive(Clone, Copy, Debug, PartialEq, Eq, Structural)]
pub enum ValidationError {
    /// The command token is not one of `info`, `list`, `add`, `set`, `remove`.
    UnknownCommand,
    /// The command got the wrong number of version arguments.
    UsageError,
    /// `set` or `remove` named a version with no version directory on disk.
    VersionNotInstalled,
}

impl ValidationError {
    /// A human-readable message for the shell to print before exiting.
    pub fn message(&self) -> (r: &'static str)
        ensures
            (*self is UnknownCommand) ==> r@ == "USAGE: <INFO | ADD | SET | LIST | REMOVE>"@,
            (*self is UsageError) ==> r@ == "Please supply 1 and only 1 version"@,
            (*self is VersionNotInstalled) ==> r@ == "Node version does not exist"@,
    {
        match self {
            ValidationError::UnknownCommand => "USAGE: <INFO | ADD | SET | LIST | REMOVE>",
            ValidationError::UsageError => "Please supply 1 and only 1 version",
            ValidationError::VersionNotInstalled => "Node version does not exist",
        }
    }
}

} // verus!
