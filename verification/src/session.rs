//! Running one Project: which Project is asked for.

use vstd::prelude::*;

use crate::config::load::{resolution_request, ResolutionRequest};

#[allow(unused_imports)]
use crate::config::load::{requested, RequestView};
#[allow(unused_imports)]
use crate::config::resolve::borrowed;

verus! {

/// Whether an outcome is one that `run` gives for a request.
pub open spec fn ran_as<F: FnOnce(ResolutionRequest) -> Result<(), String>>(
    run: F,
    request: RequestView,
    outcome: Result<(), String>,
) -> bool {
    exists|asked: ResolutionRequest|
        asked@ == request && #[trigger] run.ensures((asked,), outcome)
}

/// Load the explicit Project, start enabled autostart Processes, and
/// supervise them interactively until the user quits with a controlled
/// Project shutdown.
pub fn run_project<F: FnOnce(ResolutionRequest) -> Result<(), String>>(
    config_path: &str,
    run: F,
) -> (r: Result<(), String>)
    requires
        forall|request: ResolutionRequest| #[trigger] run.requires((request,)),
    ensures
        ran_as(run, requested(Some(config_path@), None), r),
{
    run_project_with_profile(config_path, None, run)
}

/// Load the explicit Project with one selected profile, then run it
/// interactively.
pub fn run_project_with_profile<F: FnOnce(ResolutionRequest) -> Result<(), String>>(
    config_path: &str,
    profile: Option<&str>,
    run: F,
) -> (r: Result<(), String>)
    requires
        forall|request: ResolutionRequest| #[trigger] run.requires((request,)),
    ensures
        ran_as(run, requested(Some(config_path@), borrowed(profile)), r),
{
    run(resolution_request(Some(config_path), profile))
}

/// Discover the nearest base Project, then run it interactively.
pub fn run_discovered_project<F: FnOnce(ResolutionRequest) -> Result<(), String>>(run: F) -> (r:
    Result<(), String>)
    requires
        forall|request: ResolutionRequest| #[trigger] run.requires((request,)),
    ensures
        ran_as(run, requested(None, None), r),
{
    run_discovered_project_with_profile(None, run)
}

/// Discover the nearest base Project with one selected profile, then run it
/// interactively.
pub fn run_discovered_project_with_profile<
    F: FnOnce(ResolutionRequest) -> Result<(), String>,
>(profile: Option<&str>, run: F) -> (r: Result<(), String>)
    requires
        forall|request: ResolutionRequest| #[trigger] run.requires((request,)),
    ensures
        ran_as(run, requested(None, borrowed(profile)), r),
{
    run(resolution_request(None, profile))
}

} // verus!
