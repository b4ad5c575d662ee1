//! Deciding whether a program may be launched, and reporting how the launch
//! went. Starting the process itself is left to the caller.

use vstd::prelude::*;
use crate::error::RegistryError;
use crate::host::path_exists;

verus! {

/// Checks whether the provided path exists in the file system.
pub fn check_for_valid_path(path: &str) -> (valid: bool) {
    path_exists(path)
}

/// The permission to start the program at `path`: it is only given for a
/// path that was found valid.
#[derive(Debug)]
pub struct LaunchPlan {
    path: String,
}

impl LaunchPlan {
    /// The path of the program to start.
    pub closed spec fn target(&self) -> Seq<char> {
        self.path@
    }

    /// The path of the program to start.
    pub fn path(&self) -> (path: &str)
        ensures
            path@ == self.target(),
    {
        self.path.as_str()
    }
}

/// Decides on a launch from the outcome of the path check: a valid path is
/// admitted unchanged, and any other is refused with
/// [`RegistryError::InvalidPath`], so that nothing is started for it.
pub fn admit_launch(path: String, valid: bool) -> (decision: Result<LaunchPlan, RegistryError>)
    ensures
        valid ==> decision is Ok && decision->Ok_0.target() == path@,
        !valid ==> decision == Err::<LaunchPlan, RegistryError>(RegistryError::InvalidPath),
{
    if valid {
        Ok(LaunchPlan { path })
    } else {
        Err(RegistryError::InvalidPath)
    }
}

/// Checks `path` and decides on the launch of the program there.
pub fn plan_launch(path: String) -> (decision: Result<LaunchPlan, RegistryError>)
    ensures
        decision matches Ok(plan) ==> plan.target() == path@,
        decision matches Err(failure) ==> failure == RegistryError::InvalidPath,
{
    let valid = check_for_valid_path(path.as_str());
    admit_launch(path, valid)
}

/// Reports a launch: the identifier of the process that was started, or
/// [`RegistryError::LaunchFailure`] when the operating system started none.
pub fn launch_outcome(started: Option<u32>) -> (outcome: Result<u32, RegistryError>)
    ensures
        outcome == match started {
            Some(process_id) => Ok::<u32, RegistryError>(process_id),
            None => Err::<u32, RegistryError>(RegistryError::LaunchFailure),
        },
{
    match started {
        Some(process_id) => Ok(process_id),
        None => Err(RegistryError::LaunchFailure),
    }
}

/// True when `start` was given the path `path` and answered `answer`.
pub open spec fn answered<F: FnOnce(&str) -> Option<u32>>(
    start: F,
    path: Seq<char>,
    answer: Option<u32>,
) -> bool {
    exists|program: &str| program@ == path && #[trigger] start.ensures((program,), answer)
}

/// Runs the program at `path` through `start`, which starts a process for a
/// path and gives its identifier, or `None` where the operating system
/// refused. A path that does not exist is answered with
/// [`RegistryError::InvalidPath`] and never handed to `start`; a path that
/// exists is handed to `start` unchanged, and its answer is reported.
pub fn run_executable<F: FnOnce(&str) -> Option<u32>>(path: String, start: F) -> (outcome: Result<
    u32,
    RegistryError,
>)
    requires
        forall|program: &str| program@ == path@ ==> #[trigger] start.requires((program,)),
    ensures
        outcome matches Ok(process_id) ==> answered(start, path@, Some(process_id)),
        outcome matches Err(failure) ==> failure == RegistryError::InvalidPath || (failure
            == RegistryError::LaunchFailure && answered(start, path@, None)),
{
    let plan = plan_launch(path)?;
    let program = plan.path();
    let started = start(program);
    assert(answered(start, path@, started)) by {
        assert(program@ == path@ && start.ensures((program,), started));
    }
    launch_outcome(started)
}

} // verus!
