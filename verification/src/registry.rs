//! The registry as its callers use it: every operation opens the database at
//! the configured location, makes sure that the table exists, does its one
//! piece of work and closes the database again.

use vstd::prelude::*;
use crate::engine::bindable;
use crate::error::RegistryError;
use crate::launch::check_for_valid_path;
use crate::record::Executable;
use crate::store::Integration;

verus! {

/// The name of the database file where the registry is kept in the user's
/// document directory.
pub const DATABASE_FILE: &'static str = "exedb.db";

/// Where the registry is kept and whether a path is checked before it is
/// added.
#[derive(Debug)]
pub struct Registry {
    location: String,
    checks_paths: bool,
}

/// Decides whether a record may be added, from the policy and the outcome of
/// the path check: only a registry that checks paths refuses a path, and only
/// one that was not found.
pub fn admit_addition(checks_paths: bool, valid: bool) -> (decision: Result<(), RegistryError>)
    ensures
        decision == if checks_paths && !valid {
            Err::<(), RegistryError>(RegistryError::InvalidPath)
        } else {
            Ok::<(), RegistryError>(())
        },
{
    if checks_paths && !valid {
        Err(RegistryError::InvalidPath)
    } else {
        Ok(())
    }
}

impl Registry {
    /// The location of the database file.
    pub closed spec fn location_view(&self) -> Seq<char> {
        self.location@
    }

    /// Whether the path of a record is checked before the record is added.
    pub closed spec fn checks_paths_view(&self) -> bool {
        self.checks_paths
    }

    /// A registry kept in the database file at `location`. It adds records
    /// without checking their paths.
    pub fn new(location: String) -> (registry: Registry)
        ensures
            registry.location_view() == location@,
            !registry.checks_paths_view(),
    {
        Registry { location, checks_paths: false }
    }

    /// The same registry with the path check before an addition switched on
    /// or off.
    pub fn checking_paths(self, enabled: bool) -> (registry: Registry)
        ensures
            registry.location_view() == self.location_view(),
            registry.checks_paths_view() == enabled,
    {
        Registry { location: self.location, checks_paths: enabled }
    }

    /// The location of the database file.
    pub fn location(&self) -> (location: &str)
        ensures
            location@ == self.location_view(),
    {
        self.location.as_str()
    }

    /// Whether the path of a record is checked before the record is added.
    pub fn checks_paths(&self) -> (enabled: bool)
        ensures
            enabled == self.checks_paths_view(),
    {
        self.checks_paths
    }

    /// Opens the database and makes sure that the table exists.
    fn open(&self) -> (opened: Result<Integration, RegistryError>)
        ensures
            self.location_view().contains('\0') ==> opened is Err && opened->Err_0
                == RegistryError::ConnectionFailure,
            opened matches Err(failure) ==> failure == RegistryError::ConnectionFailure || failure
                == RegistryError::SchemaFailure,
    {
        let store = Integration::new(self.location.clone())?;
        store.create_table()?;
        Ok(store)
    }

    /// Lists every record of the registry, each with its identifier.
    ///
    /// The failure tells how far the operation came: the database could not
    /// be opened, which is certain for a location with a NUL character; the
    /// table could not be created; or the records could not be read.
    pub fn get_executables(&self) -> (listed: Result<Vec<Executable>, RegistryError>)
        ensures
            self.location_view().contains('\0') ==> listed is Err && listed->Err_0
                == RegistryError::ConnectionFailure,
            listed matches Ok(records) ==> forall|i: int|
                0 <= i < records.len() ==> (#[trigger] records[i])@.listed(),
            listed matches Err(failure) ==> failure == RegistryError::ConnectionFailure || failure
                == RegistryError::SchemaFailure || failure == RegistryError::QueryFailure,
    {
        let store = self.open()?;
        store.list_all()
    }

    /// Adds a record with this name and path.
    ///
    /// A registry that checks paths refuses a path that does not exist with
    /// [`RegistryError::InvalidPath`] before it opens the database; no other
    /// registry reports that failure. After that the failure tells how far
    /// the operation came, as for [`Registry::get_executables`]; a name or
    /// path too long to be bound cannot be inserted.
    pub fn add_executable(&self, name: String, path: String) -> (added: Result<(), RegistryError>)
        ensures
            !self.checks_paths_view() && self.location_view().contains('\0') ==> added is Err
                && added->Err_0 == RegistryError::ConnectionFailure,
            !bindable(name@) || !bindable(path@) ==> added is Err,
            added matches Err(failure) ==> failure == RegistryError::ConnectionFailure || failure
                == RegistryError::SchemaFailure || failure == RegistryError::QueryFailure || (
            self.checks_paths_view() && failure == RegistryError::InvalidPath),
    {
        let valid = !self.checks_paths || check_for_valid_path(path.as_str());
        admit_addition(self.checks_paths, valid)?;
        let store = self.open()?;
        store.add_exe(Executable::unsaved(name, path))
    }

    /// Deletes the record whose identifier is `id`; where there is none,
    /// nothing is deleted and the operation succeeds all the same.
    ///
    /// The failure tells how far the operation came, as for
    /// [`Registry::get_executables`]; an identifier too long to be bound
    /// cannot be looked for.
    pub fn delete_executable(&self, id: String) -> (deleted: Result<(), RegistryError>)
        ensures
            self.location_view().contains('\0') ==> deleted is Err && deleted->Err_0
                == RegistryError::ConnectionFailure,
            !bindable(id@) ==> deleted is Err,
            deleted matches Err(failure) ==> failure == RegistryError::ConnectionFailure || failure
                == RegistryError::SchemaFailure || failure == RegistryError::QueryFailure,
    {
        let store = self.open()?;
        store.delete_exe(id)
    }
}

} // verus!
