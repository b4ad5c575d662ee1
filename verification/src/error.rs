//! The failures that the registry reports to its callers.

use vstd::prelude::*;

verus! {

/// Why an operation of the registry did not succeed.
#[derive(Clone, Copy, Debug, PartialEq, Eq, Structural)]
pub enum RegistryError {
    /// The database file could not be opened.
    ConnectionFailure,
    /// The table of executables could not be created.
    SchemaFailure,
    /// An insert, delete or select statement could not be executed.
    QueryFailure,
    /// The path of a program to launch does not exist.
    InvalidPath,
    /// The operating system did not start the program.
    LaunchFailure,
}

impl RegistryError {
    /// The sentence shown to the user for this failure.
    pub open spec fn text(self) -> Seq<char> {
        match self {
            RegistryError::ConnectionFailure => "The database could not be opened."@,
            RegistryError::SchemaFailure => "The table of executables could not be created."@,
            RegistryError::QueryFailure => "The database statement could not be executed."@,
            RegistryError::InvalidPath => "The path is not valid."@,
            RegistryError::LaunchFailure => "The executable could not be started."@,
        }
    }

    /// Renders the failure for display.
    pub fn message(&self) -> (rendered: String)
        ensures
            rendered@ == self.text(),
    {
        match self {
            RegistryError::ConnectionFailure => "The database could not be opened.".to_owned(),
            RegistryError::SchemaFailure => "The table of executables could not be created.".to_owned(),
            RegistryError::QueryFailure => "The database statement could not be executed.".to_owned(),
            RegistryError::InvalidPath => "The path is not valid.".to_owned(),
            RegistryError::LaunchFailure => "The executable could not be started.".to_owned(),
        }
    }
}

} // verus!
