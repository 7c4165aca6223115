//! What the proofs look for in a Project snapshot.

use vstd::prelude::*;

use crate::scan::{contains, starts_with};
use crate::snapshot::{
    CheckKind, CheckState, CheckStatus, FailureKind, Lifecycle, ProcessSnapshot, ProjectSnapshot,
    RunExit,
};
use crate::text::same_text;

#[allow(unused_imports)]
use crate::scan::{begins, holds};

verus! {

/// The outcome of a check.
#[derive(Clone, Debug, PartialEq, Eq)]
pub enum Verdict {
    Met,
    /// The proof failed, and why.
    Failed(String),
    /// The fixture itself is not what the proof relies on, and how.
    Broken(String),
}

/// The outcome of a check as mathematical values.
pub enum VerdictView {
    Met,
    Failed(Seq<char>),
    Broken(Seq<char>),
}

impl View for Verdict {
    type V = VerdictView;

    open spec fn view(&self) -> VerdictView {
        match *self {
            Verdict::Met => VerdictView::Met,
            Verdict::Failed(message) => VerdictView::Failed(message@),
            Verdict::Broken(message) => VerdictView::Broken(message@),
        }
    }
}

impl Verdict {
    /// A check that failed.
    pub fn failed(message: &str) -> (r: Self)
        ensures
            r@ == VerdictView::Failed(message@),
    {
        Verdict::Failed(message.to_owned())
    }

    /// A check that could not be made.
    pub fn broken(message: &str) -> (r: Self)
        ensures
            r@ == VerdictView::Broken(message@),
    {
        Verdict::Broken(message.to_owned())
    }
}

/// Whether a Process has a Run that runs.
pub open spec fn is_running(process: ProcessSnapshot) -> bool {
    process.lifecycle == Lifecycle::Running && process.current_run is Some
}

/// Whether a check passes.
pub open spec fn is_passing(status: Option<CheckStatus>) -> bool {
    status matches Some(status) && status.state == CheckState::Passing
}

/// Whether a check fails.
pub open spec fn is_failing(status: Option<CheckStatus>) -> bool {
    status matches Some(status) && status.state == CheckState::Failing
}

/// Whether a Process failed in a way.
pub open spec fn failed_with(process: ProcessSnapshot, kind: FailureKind) -> bool {
    process.failure matches Some(failure) && failure.kind == kind
}

/// Whether a Process waits for an automatic restart for a reason.
pub open spec fn backs_off(process: ProcessSnapshot, reason: Seq<char>) -> bool {
    &&& process.lifecycle == Lifecycle::RestartBackoff
    &&& process.current_run is None
    &&& process.restart_backoff matches Some(backoff) && backoff.reason@ == reason
}

/// Whether a Process runs.
pub open spec fn runs(snapshot: ProjectSnapshot, name: Seq<char>) -> bool {
    snapshot.find(name) matches Some(process) && is_running(process)
}

/// Whether a Process waits.
pub open spec fn waits(snapshot: ProjectSnapshot, name: Seq<char>) -> bool {
    snapshot.find(name) matches Some(process) && process.lifecycle == Lifecycle::Waiting
}

/// Whether a Service runs and passes its readiness checks of a kind.
pub open spec fn is_ready(snapshot: ProjectSnapshot, name: Seq<char>, kind: CheckKind) -> bool {
    &&& runs(snapshot, name)
    &&& snapshot.find(name) matches Some(process) && process.readiness matches Some(readiness)
        && readiness.kind == kind && readiness.state == CheckState::Passing
}

/// Whether a Process runs and its liveness check passes.
pub open spec fn is_live(snapshot: ProjectSnapshot, name: Seq<char>) -> bool {
    &&& runs(snapshot, name)
    &&& snapshot.find(name) matches Some(process) && is_passing(process.liveness)
}

/// Whether a One-shot is done, and its latest Run ended well with a code.
pub open spec fn is_completed(
    snapshot: ProjectSnapshot,
    name: Seq<char>,
    code: Option<i32>,
) -> bool {
    snapshot.find(name) matches Some(process) && process.lifecycle == Lifecycle::Done
        && process.current_run is None && process.recent_runs@.len() > 0
        && process.recent_runs@[0].exit == RunExit::Success && process.recent_runs@[0].exit_code
        == code
}

/// Whether a Process stopped because its latest Run failed with a code.
pub open spec fn has_failed_exit(
    snapshot: ProjectSnapshot,
    name: Seq<char>,
    code: Option<i32>,
) -> bool {
    snapshot.find(name) matches Some(process) && process.lifecycle == Lifecycle::Stopped
        && process.current_run is None && failed_with(process, FailureKind::ProcessExit)
        && process.recent_runs@.len() > 0 && process.recent_runs@[0].exit == (RunExit::Failed {
        code,
    })
}

/// Whether a Process stopped because it did not get ready in time.
pub open spec fn has_startup_timeout(snapshot: ProjectSnapshot, name: Seq<char>) -> bool {
    snapshot.find(name) matches Some(process) && process.lifecycle == Lifecycle::Stopped
        && process.current_run is None && failed_with(process, FailureKind::Readiness) && holds(
        process.failure->0.detail@,
        "startup timeout"@,
    )
}

/// Whether a Process runs.
pub fn running(snapshot: &ProjectSnapshot, name: &str) -> (r: bool)
    ensures
        r == runs(*snapshot, name@),
{
    match snapshot.named(name) {
        Some(process) => process.lifecycle == Lifecycle::Running && process.current_run.is_some(),
        None => false,
    }
}

/// Whether a Process waits.
pub fn waiting(snapshot: &ProjectSnapshot, name: &str) -> (r: bool)
    ensures
        r == waits(*snapshot, name@),
{
    match snapshot.named(name) {
        Some(process) => process.lifecycle == Lifecycle::Waiting,
        None => false,
    }
}

/// Whether a Process runs and its readiness check of a form passes.
pub fn ready(snapshot: &ProjectSnapshot, name: &str, kind: CheckKind) -> (r: bool)
    ensures
        r == is_ready(*snapshot, name@, kind),
{
    running(snapshot, name) && match snapshot.named(name) {
        Some(process) => match &process.readiness {
            Some(readiness) => readiness.kind == kind && readiness.state == CheckState::Passing,
            None => false,
        },
        None => false,
    }
}

/// Whether a policy is in a state.
pub fn in_state(status: &Option<CheckStatus>, state: CheckState) -> (r: bool)
    ensures
        r == (status matches Some(status) && status.state == state),
{
    match status {
        Some(status) => status.state == state,
        None => false,
    }
}

/// Whether a Process runs and its liveness check passes.
pub fn liveness_passing(snapshot: &ProjectSnapshot, name: &str) -> (r: bool)
    ensures
        r == is_live(*snapshot, name@),
{
    running(snapshot, name) && match snapshot.named(name) {
        Some(process) => in_state(&process.liveness, CheckState::Passing),
        None => false,
    }
}

/// Whether a One-shot completed with an exit code.
pub fn completed(snapshot: &ProjectSnapshot, name: &str, code: Option<i32>) -> (r: bool)
    ensures
        r == is_completed(*snapshot, name@, code),
{
    match snapshot.named(name) {
        Some(process) => process.lifecycle == Lifecycle::Done && process.current_run.is_none()
            && process.recent_runs.len() > 0 && process.recent_runs[0].exit == RunExit::Success
            && process.recent_runs[0].exit_code == code,
        None => false,
    }
}

/// Whether a Process failed in a way.
pub fn has_failure(process: &ProcessSnapshot, kind: FailureKind) -> (r: bool)
    ensures
        r == failed_with(*process, kind),
{
    match &process.failure {
        Some(failure) => failure.kind == kind,
        None => false,
    }
}

/// Whether a Process failed with an exit code.
pub fn failed_exit(snapshot: &ProjectSnapshot, name: &str, code: Option<i32>) -> (r: bool)
    ensures
        r == has_failed_exit(*snapshot, name@, code),
{
    match snapshot.named(name) {
        Some(process) => process.lifecycle == Lifecycle::Stopped && process.current_run.is_none()
            && has_failure(process, FailureKind::ProcessExit) && process.recent_runs.len() > 0
            && process.recent_runs[0].exit == (RunExit::Failed { code }),
        None => false,
    }
}

/// Whether the startup deadline of a Process passed.
pub fn startup_timed_out(snapshot: &ProjectSnapshot, name: &str) -> (r: bool)
    ensures
        r == has_startup_timeout(*snapshot, name@),
{
    match snapshot.named(name) {
        Some(process) => {
            if process.lifecycle != Lifecycle::Stopped || process.current_run.is_some() {
                return false;
            }
            match &process.failure {
                Some(failure) => failure.kind == FailureKind::Readiness && contains(
                    failure.detail.as_str(),
                    "startup timeout",
                ),
                None => false,
            }
        },
        None => false,
    }
}

/// Whether a Process waits for an automatic restart for a reason.
pub fn backing_off(process: &ProcessSnapshot, reason: &str) -> (r: bool)
    ensures
        r == backs_off(*process, reason@),
{
    process.lifecycle == Lifecycle::RestartBackoff && process.current_run.is_none()
        && match &process.restart_backoff {
        Some(backoff) => same_text(backoff.reason.as_str(), reason),
        None => false,
    }
}

/// Whether an optional text is exactly a text.
pub fn says(text: &Option<String>, expected: &str) -> (r: bool)
    ensures
        r == (text matches Some(text) && text@ == expected@),
{
    match text {
        Some(text) => same_text(text.as_str(), expected),
        None => false,
    }
}

/// Whether an optional text begins with a text.
pub fn says_first(text: &Option<String>, expected: &str) -> (r: bool)
    ensures
        r == (text matches Some(text) && begins(text@, expected@)),
{
    match text {
        Some(text) => starts_with(text.as_str(), expected),
        None => false,
    }
}

/// Whether an optional text holds a text.
pub fn mentions(text: &Option<String>, expected: &str) -> (r: bool)
    ensures
        r == (text matches Some(text) && holds(text@, expected@)),
{
    match text {
        Some(text) => contains(text.as_str(), expected),
        None => false,
    }
}

} // verus!
