//! A registry of executable programs kept in a local SQLite database.
//!
//! A record holds a display name and the path of a program. Records are
//! inserted, listed and deleted through an [`Integration`], which owns one
//! database connection, or through a [`Registry`], which opens the database at
//! a configured location anew for every operation. Launching a program is
//! decided here and carried out by the caller.

pub mod command;
pub mod engine;
pub mod error;
pub mod host;
pub mod launch;
pub mod record;
pub mod registry;
pub mod store;

pub use crate::command::Command;
pub use crate::error::RegistryError;
pub use crate::launch::{
    admit_launch, check_for_valid_path, launch_outcome, plan_launch, run_executable, LaunchPlan,
};
pub use crate::record::Executable;
pub use crate::registry::{admit_addition, Registry};
pub use crate::store::{classify, column_text, Integration};
