//! Projection of Supervisor snapshots into compact user-visible rows and
//! headers.

use vstd::prelude::*;

use crate::input::Rect;
use crate::snapshot::{
    CheckState, Lifecycle, ProcessSnapshot, ProjectShutdownSnapshot, ProjectSnapshot,
};
use crate::text::{decimal, decimal_u64, decimal_usize, join, same_text};

#[allow(unused_imports)]
use crate::model::optional_text;
#[allow(unused_imports)]
use crate::snapshot::ProcessShutdownFailure;
#[allow(unused_imports)]
use crate::text::{decimal_text, joined, texts};

verus! {

/// The color class of a Process status.
#[derive(Clone, Copy, Debug, PartialEq, Eq, Structural)]
pub enum LifecycleTone {
    Muted,
    Info,
    Success,
    Warning,
    Error,
}

/// One row of the Process list.
#[derive(Clone, Debug, PartialEq, Eq)]
pub struct ProcessRowView {
    pub name: String,
    pub status: String,
    pub lifecycle_tone: LifecycleTone,
    pub profile: Option<String>,
    pub cpu: Option<String>,
    pub memory: Option<String>,
    pub selected: bool,
}

/// One line of the Process list: a group heading or a Process.
#[derive(Clone, Debug, PartialEq, Eq)]
pub enum ProcessListRow {
    Heading(String),
    Process(usize),
}

/// One line of the Process list, as mathematical values.
pub enum ListLine {
    Heading(Seq<char>),
    Process(int),
}

impl View for ProcessListRow {
    type V = ListLine;

    open spec fn view(&self) -> ListLine {
        match *self {
            ProcessListRow::Heading(name) => ListLine::Heading(name@),
            ProcessListRow::Process(index) => ListLine::Process(index as int),
        }
    }
}

/// The most characters of a reason in a row.
pub const REASON_LENGTH: usize = 40;

/// A bounded reason: at most `REASON_LENGTH` characters, with a mark where
/// something was cut off.
pub open spec fn short_text(detail: Seq<char>) -> Seq<char> {
    if detail.len() > REASON_LENGTH {
        detail.take(REASON_LENGTH as int) + "…"@
    } else {
        detail
    }
}

/// Whether a Process shows as disabled.
pub open spec fn shows_disabled(process: ProcessSnapshot) -> bool {
    !process.enabled && process.current_run is None
}

/// Whether an active Run fails its health check.
pub open spec fn shows_unhealthy(process: ProcessSnapshot) -> bool {
    process.lifecycle == Lifecycle::Running && process.liveness is Some
        && process.liveness->0.state == CheckState::Failing
}

/// Whether a failure is what the row shows.
pub open spec fn shows_failure(process: ProcessSnapshot) -> bool {
    process.lifecycle != Lifecycle::Stopping && process.lifecycle != Lifecycle::RestartBackoff
        && process.failure is Some
}

/// A state with a reason in brackets, where there is one.
pub open spec fn with_reason(state: Seq<char>, reason: Option<Seq<char>>) -> Seq<char> {
    match reason {
        Some(reason) => state + " ("@ + short_text(reason) + ")"@,
        None => state,
    }
}

/// The concise status of a Process.
pub open spec fn status_text(process: ProcessSnapshot) -> Seq<char> {
    if shows_disabled(process) {
        "Disabled"@
    } else if process.lifecycle == Lifecycle::Done {
        "Done"@
    } else if shows_unhealthy(process) {
        "Unhealthy"@
    } else if shows_failure(process) {
        with_reason("Failed"@, Some(process.failure->0.detail@))
    } else {
        match process.lifecycle {
            Lifecycle::Done | Lifecycle::Idle | Lifecycle::Stopped => "Stopped"@,
            Lifecycle::Starting => "Starting"@,
            Lifecycle::Running => "Ready"@,
            Lifecycle::Waiting => with_reason(
                "Waiting"@,
                optional_text(process.blocked_reason),
            ),
            Lifecycle::Stopping => with_reason(
                "Stopping"@,
                match process.failure {
                    Some(failure) => Some(failure.detail@),
                    None => None,
                },
            ),
            Lifecycle::RestartBackoff => with_reason(
                "Restarting"@,
                match process.restart_backoff {
                    Some(backoff) => Some(backoff.reason@),
                    None => None,
                },
            ),
        }
    }
}

/// The color class of a Process status.
pub open spec fn tone_of(process: ProcessSnapshot) -> LifecycleTone {
    if shows_disabled(process) {
        LifecycleTone::Muted
    } else if process.lifecycle == Lifecycle::Done {
        LifecycleTone::Success
    } else if shows_unhealthy(process) || shows_failure(process) {
        LifecycleTone::Error
    } else {
        match process.lifecycle {
            Lifecycle::Idle | Lifecycle::Stopped => LifecycleTone::Muted,
            Lifecycle::Starting => LifecycleTone::Info,
            Lifecycle::Running | Lifecycle::Done => LifecycleTone::Success,
            Lifecycle::Waiting | Lifecycle::Stopping | Lifecycle::RestartBackoff => {
                LifecycleTone::Warning
            },
        }
    }
}

/// Tenths of a quotient, rounded to the nearest; a tie goes to the even tenth.
pub open spec fn nearest_tenths(value: nat, unit: nat) -> nat {
    let scaled = value * 10;
    let whole = scaled / unit;
    let twice = 2 * (scaled % unit);
    if twice > unit || (twice == unit && whole % 2 == 1) {
        whole + 1
    } else {
        whole
    }
}

/// Resident memory in powers of 1024.
pub open spec fn memory_text(kib: nat) -> Seq<char> {
    if kib == 0 {
        "0"@
    } else if kib < 1024 {
        decimal_text(kib) + "K"@
    } else if kib < 1_048_576 {
        decimal_text(kib / 1024) + "M"@
    } else {
        let tenths = nearest_tenths(kib, 1_048_576);
        decimal_text(tenths / 10) + "."@ + decimal_text(tenths % 10) + "G"@
    }
}

/// A sampled value; an incomplete sample is marked as approximate.
pub open spec fn precision_text(value: Seq<char>, best_effort: bool) -> Seq<char> {
    if best_effort {
        "~"@ + value
    } else {
        value
    }
}

/// A Run age: seconds under a minute, then minutes and seconds.
pub open spec fn age_text(age_ms: nat) -> Seq<char> {
    let seconds = age_ms / 1000;
    if seconds < 60 {
        decimal_text(seconds) + "s"@
    } else {
        decimal_text(seconds / 60) + "m"@ + decimal_text(seconds % 60) + "s"@
    }
}

/// A reason for one row.
pub fn short_reason(detail: &str) -> (r: String)
    ensures
        r@ == short_text(detail@),
{
    if detail.unicode_len() > REASON_LENGTH {
        let mut cut = detail.substring_char(0, REASON_LENGTH).to_owned();
        proof {
            assert(cut@ =~= detail@.take(REASON_LENGTH as int));
        }
        cut.append("…");
        cut
    } else {
        detail.to_owned()
    }
}

fn state_with_reason(state: &str, reason: Option<&str>) -> (r: String)
    ensures
        r@ == with_reason(
            state@,
            match reason {
                Some(reason) => Some(reason@),
                None => None,
            },
        ),
{
    let mut text = state.to_owned();
    if let Some(reason) = reason {
        text.append(" (");
        text.append(short_reason(reason).as_str());
        text.append(")");
    }
    text
}

fn is_unhealthy(process: &ProcessSnapshot) -> (r: bool)
    ensures
        r == shows_unhealthy(*process),
{
    match &process.liveness {
        Some(liveness) => process.lifecycle == Lifecycle::Running && liveness.state
            == CheckState::Failing,
        None => false,
    }
}

/// Project structured lifecycle state into the concise row label. The label
/// is a projection; the snapshot remains the authority.
pub fn status_label(process: &ProcessSnapshot) -> (r: String)
    ensures
        r@ == status_text(*process),
{
    if !process.enabled && process.current_run.is_none() {
        return "Disabled".to_owned();
    }
    if process.lifecycle == Lifecycle::Done {
        return "Done".to_owned();
    }
    // A liveness failure is a health result while the Run remains active.
    // Controlled recovery uses Stopping or RestartBackoff instead.
    if is_unhealthy(process) {
        return "Unhealthy".to_owned();
    }
    // A failure stays visible while the Process is not mid-shutdown or
    // waiting through an automatic restart delay. Those states project their
    // own reason into the label.
    if process.lifecycle != Lifecycle::Stopping && process.lifecycle != Lifecycle::RestartBackoff {
        if let Some(failure) = &process.failure {
            return state_with_reason("Failed", Some(failure.detail.as_str()));
        }
    }
    match process.lifecycle {
        Lifecycle::Done => "Stopped".to_owned(),
        Lifecycle::Idle => "Stopped".to_owned(),
        Lifecycle::Stopped => "Stopped".to_owned(),
        Lifecycle::Starting => "Starting".to_owned(),
        Lifecycle::Running => "Ready".to_owned(),
        Lifecycle::Waiting => state_with_reason(
            "Waiting",
            match &process.blocked_reason {
                Some(reason) => Some(reason.as_str()),
                None => None,
            },
        ),
        Lifecycle::Stopping => state_with_reason(
            "Stopping",
            match &process.failure {
                Some(failure) => Some(failure.detail.as_str()),
                None => None,
            },
        ),
        Lifecycle::RestartBackoff => state_with_reason(
            "Restarting",
            match &process.restart_backoff {
                Some(backoff) => Some(backoff.reason.as_str()),
                None => None,
            },
        ),
    }
}

/// The color class of the row label.
pub fn lifecycle_tone(process: &ProcessSnapshot) -> (r: LifecycleTone)
    ensures
        r == tone_of(*process),
{
    if !process.enabled && process.current_run.is_none() {
        return LifecycleTone::Muted;
    }
    if process.lifecycle == Lifecycle::Done {
        return LifecycleTone::Success;
    }
    if is_unhealthy(process) {
        return LifecycleTone::Error;
    }
    if process.lifecycle != Lifecycle::Stopping && process.lifecycle != Lifecycle::RestartBackoff
        && process.failure.is_some() {
        return LifecycleTone::Error;
    }
    match process.lifecycle {
        Lifecycle::Idle => LifecycleTone::Muted,
        Lifecycle::Stopped => LifecycleTone::Muted,
        Lifecycle::Starting => LifecycleTone::Info,
        Lifecycle::Running => LifecycleTone::Success,
        Lifecycle::Done => LifecycleTone::Success,
        Lifecycle::Waiting => LifecycleTone::Warning,
        Lifecycle::Stopping => LifecycleTone::Warning,
        Lifecycle::RestartBackoff => LifecycleTone::Warning,
    }
}

/// Mark a value of an incomplete sample as approximate.
pub fn metric_precision(value: &str, best_effort: bool) -> (r: String)
    ensures
        r@ == precision_text(value@, best_effort),
{
    if best_effort {
        let mut text = String::from_str("~");
        text.append(value);
        text
    } else {
        value.to_owned()
    }
}

/// A compact resident-memory column in powers of 1024.
pub fn format_rss(kib: u64) -> (r: String)
    ensures
        r@ == memory_text(kib as nat),
{
    if kib == 0 {
        return "0".to_owned();
    }
    if kib < 1024 {
        let mut text = decimal_u64(kib);
        text.append("K");
        return text;
    }
    if kib < 1_048_576 {
        let mut text = decimal_u64(kib / 1024);
        text.append("M");
        return text;
    }
    let scaled: u128 = kib as u128 * 10;
    let whole: u128 = scaled / 1_048_576;
    let twice: u128 = 2 * (scaled % 1_048_576);
    let tenths: u128 = if twice > 1_048_576 || (twice == 1_048_576 && whole % 2 == 1) {
        whole + 1
    } else {
        whole
    };
    let mut text = decimal(tenths / 10);
    text.append(".");
    text.append(decimal(tenths % 10).as_str());
    text.append("G");
    text
}

/// A compact Run age: seconds under a minute, then whole minutes.
pub fn format_age(age_ms: u64) -> (r: String)
    ensures
        r@ == age_text(age_ms as nat),
{
    let seconds: u64 = age_ms / 1000;
    if seconds < 60 {
        let mut text = decimal_u64(seconds);
        text.append("s");
        text
    } else {
        let mut text = decimal_u64(seconds / 60);
        text.append("m");
        text.append(decimal_u64(seconds % 60).as_str());
        text.append("s");
        text
    }
}

/// Whether two optional texts are the same.
pub fn same_optional(a: &Option<String>, b: &Option<String>) -> (r: bool)
    ensures
        r == (optional_text(*a) == optional_text(*b)),
{
    match (a, b) {
        (Some(a), Some(b)) => same_text(a.as_str(), b.as_str()),
        (None, None) => true,
        _ => false,
    }
}

/// Whether an active Run still uses another profile than the next one.
pub open spec fn profile_pending(process: ProcessSnapshot) -> bool {
    process.current_run is Some && optional_text(process.current_profile) != optional_text(
        process.next_profile,
    )
}

/// Whether a row must name the profile of its Process.
pub open spec fn needs_profile(process: ProcessSnapshot, selected: Option<Seq<char>>) -> bool {
    ||| process.current_profile is Some && optional_text(process.current_profile) != optional_text(
        process.next_profile,
    )
    ||| process.current_run is Some && process.current_profile is None
        && process.next_profile is Some
    ||| optional_text(process.next_profile) != selected
}

/// A profile name, or the name of base.
pub open spec fn profile_or(profile: Option<String>, base: Seq<char>) -> Seq<char> {
    match profile {
        Some(name) => name@,
        None => base,
    }
}

/// The profile column of a Process: the profile of the next Run and, while an
/// active Run uses another one, that one first.
pub open spec fn profile_text(process: ProcessSnapshot, base: Seq<char>) -> Seq<char> {
    let current = profile_or(process.current_profile, base);
    let next = profile_or(process.next_profile, base);
    if process.current_run is Some && current != next {
        current + " → "@ + next
    } else {
        next
    }
}

fn name_or<'a>(profile: &'a Option<String>, base: &'a str) -> (r: &'a str)
    ensures
        r@ == profile_or(*profile, base@),
{
    match profile {
        Some(name) => name.as_str(),
        None => base,
    }
}

/// The profile column of a Process.
pub fn profile_label(process: &ProcessSnapshot, base_profile_name: &str) -> (r: String)
    ensures
        r@ == profile_text(*process, base_profile_name@),
{
    let next = name_or(&process.next_profile, base_profile_name);
    let current = name_or(&process.current_profile, base_profile_name);
    if process.current_run.is_some() && !same_text(current, next) {
        let mut text = current.to_owned();
        text.append(" → ");
        text.append(next);
        text
    } else {
        next.to_owned()
    }
}

/// How many Processes wait for a profile change, up to a position.
pub open spec fn pending_count(processes: Seq<ProcessSnapshot>) -> nat
    decreases processes.len(),
{
    if processes.len() == 0 {
        0
    } else {
        pending_count(processes.drop_last()) + (if profile_pending(processes.last()) {
            1nat
        } else {
            0
        })
    }
}

fn is_pending(process: &ProcessSnapshot) -> (r: bool)
    ensures
        r == profile_pending(*process),
{
    process.current_run.is_some() && !same_optional(
        &process.current_profile,
        &process.next_profile,
    )
}

fn count_pending(processes: &Vec<ProcessSnapshot>) -> (r: usize)
    ensures
        r == pending_count(processes@),
{
    let mut count: usize = 0;
    let mut index: usize = 0;
    while index < processes.len()
        invariant
            index <= processes.len(),
            count <= index,
            count == pending_count(processes@.take(index as int)),
        decreases processes.len() - index,
    {
        if is_pending(&processes[index]) {
            count = count + 1;
        }
        index = index + 1;
        proof {
            assert(processes@.take(index as int).drop_last() =~= processes@.take(index - 1));
        }
    }
    proof {
        assert(processes@.take(index as int) =~= processes@);
    }
    count
}

proof fn pending_exists(processes: Seq<ProcessSnapshot>)
    ensures
        pending_count(processes) > 0 <==> exists|i: int|
            0 <= i < processes.len() && profile_pending(#[trigger] processes[i]),
    decreases processes.len(),
{
    if processes.len() > 0 {
        let fewer = processes.drop_last();
        pending_exists(fewer);
        if exists|i: int| 0 <= i < processes.len() && profile_pending(#[trigger] processes[i]) {
            let i = choose|i: int|
                0 <= i < processes.len() && profile_pending(#[trigger] processes[i]);
            if i < fewer.len() {
                assert(profile_pending(fewer[i]));
            }
        }
        if exists|i: int| 0 <= i < fewer.len() && profile_pending(#[trigger] fewer[i]) {
            let i = choose|i: int| 0 <= i < fewer.len() && profile_pending(#[trigger] fewer[i]);
            assert(profile_pending(processes[i]));
        }
        if profile_pending(processes.last()) {
            assert(profile_pending(processes[processes.len() - 1]));
        }
    }
}

/// Whether any active Run still uses another profile than the next one.
pub open spec fn changes_pending(processes: Seq<ProcessSnapshot>) -> bool {
    exists|i: int| 0 <= i < processes.len() && profile_pending(#[trigger] processes[i])
}

/// Whether any active Run still uses another profile than the next one.
pub fn profile_changes_pending(snapshot: &ProjectSnapshot) -> (r: bool)
    ensures
        r == changes_pending(snapshot.processes@),
{
    proof {
        pending_exists(snapshot.processes@);
    }
    count_pending(&snapshot.processes) > 0
}

/// The title of the Process list.
pub open spec fn list_title(snapshot: ProjectSnapshot) -> Seq<char> {
    let pending = pending_count(snapshot.processes@);
    if snapshot.available_profiles@.len() == 0 {
        "Processes"@
    } else {
        let titled = "Processes · Profile: "@ + profile_or(
            snapshot.selected_profile,
            snapshot.base_profile_name@,
        ) + " ▾"@;
        if pending == 0 {
            titled
        } else {
            titled + " · "@ + decimal_text(pending) + " pending"@
        }
    }
}

/// The title of the Process list: the selected profile, and how many Processes
/// wait for a profile change.
pub fn process_list_title(snapshot: &ProjectSnapshot) -> (r: String)
    ensures
        r@ == list_title(*snapshot),
{
    if snapshot.available_profiles.len() == 0 {
        return "Processes".to_owned();
    }
    let mut title = String::from_str("Processes · Profile: ");
    title.append(name_or(&snapshot.selected_profile, snapshot.base_profile_name.as_str()));
    title.append(" ▾");
    let pending: usize = count_pending(&snapshot.processes);
    if pending > 0 {
        title.append(" · ");
        title.append(decimal_usize(pending).as_str());
        title.append(" pending");
    }
    title
}

/// Whether the profile column is shown at all.
pub open spec fn shows_profiles(snapshot: ProjectSnapshot) -> bool {
    exists|i: int|
        0 <= i < snapshot.processes@.len() && needs_profile(
            #[trigger] snapshot.processes@[i],
            optional_text(snapshot.selected_profile),
        )
}

fn row_needs_profile(process: &ProcessSnapshot, selected: &Option<String>) -> (r: bool)
    ensures
        r == needs_profile(*process, optional_text(*selected)),
{
    (process.current_profile.is_some() && !same_optional(
        &process.current_profile,
        &process.next_profile,
    )) || (process.current_run.is_some() && process.current_profile.is_none()
        && process.next_profile.is_some()) || !same_optional(&process.next_profile, selected)
}

/// One row of the Process list.
pub open spec fn is_row(
    row: ProcessRowView,
    snapshot: ProjectSnapshot,
    index: int,
    selected: int,
) -> bool {
    let process = snapshot.processes@[index];
    &&& row.name@ == process.name@
    &&& row.status@ == status_text(process)
    &&& row.lifecycle_tone == tone_of(process)
    &&& optional_text(row.profile) == (if shows_profiles(snapshot) {
        Some(profile_text(process, snapshot.base_profile_name@))
    } else {
        None
    })
    &&& optional_text(row.cpu) == (match process.metrics {
        Some(metrics) => Some(precision_text(metrics.cpu@, metrics.best_effort)),
        None => None,
    })
    &&& optional_text(row.memory) == (match process.metrics {
        Some(metrics) => Some(
            precision_text(memory_text(metrics.rss_kib as nat), metrics.best_effort),
        ),
        None => None,
    })
    &&& row.selected == (index == selected)
}

/// The rows of the Process list, one for each Process.
pub fn process_rows(snapshot: &ProjectSnapshot, selected: usize) -> (r: Vec<ProcessRowView>)
    ensures
        r.len() == snapshot.processes.len(),
        forall|i: int|
            0 <= i < r.len() ==> is_row(#[trigger] r@[i], *snapshot, i, selected as int),
{
    let mut show_profiles = false;
    let mut checked: usize = 0;
    while checked < snapshot.processes.len()
        invariant
            checked <= snapshot.processes.len(),
            show_profiles == exists|i: int|
                0 <= i < checked && needs_profile(
                    #[trigger] snapshot.processes@[i],
                    optional_text(snapshot.selected_profile),
                ),
        decreases snapshot.processes.len() - checked,
    {
        if row_needs_profile(&snapshot.processes[checked], &snapshot.selected_profile) {
            proof {
                assert(needs_profile(
                    snapshot.processes@[checked as int],
                    optional_text(snapshot.selected_profile),
                ));
            }
            show_profiles = true;
        }
        checked = checked + 1;
    }
    let mut rows: Vec<ProcessRowView> = Vec::new();
    let mut index: usize = 0;
    while index < snapshot.processes.len()
        invariant
            index <= snapshot.processes.len(),
            rows.len() == index,
            show_profiles == shows_profiles(*snapshot),
            forall|i: int|
                0 <= i < index ==> is_row(#[trigger] rows@[i], *snapshot, i, selected as int),
        decreases snapshot.processes.len() - index,
    {
        let process = &snapshot.processes[index];
        let profile = if show_profiles {
            Some(profile_label(process, snapshot.base_profile_name.as_str()))
        } else {
            None
        };
        let (cpu, memory) = match &process.metrics {
            Some(metrics) => (
                Some(metric_precision(metrics.cpu.as_str(), metrics.best_effort)),
                Some(metric_precision(format_rss(metrics.rss_kib).as_str(), metrics.best_effort)),
            ),
            None => (None, None),
        };
        rows.push(
            ProcessRowView {
                name: process.name.clone(),
                status: status_label(process),
                lifecycle_tone: lifecycle_tone(process),
                profile,
                cpu,
                memory,
                selected: index == selected,
            },
        );
        index = index + 1;
    }
    rows
}

/// The Run identity of a header.
pub open spec fn run_part(process: ProcessSnapshot) -> Seq<char> {
    match process.current_run {
        Some(run) => " · run "@ + decimal_text(run as nat),
        None => Seq::empty(),
    }
}

/// The process identity of a header.
pub open spec fn pid_part(process: ProcessSnapshot) -> Seq<char> {
    match process.root_pid {
        Some(pid) => " · PID "@ + decimal_text(pid as nat),
        None => Seq::empty(),
    }
}

/// The used retries of a header, once there are any.
pub open spec fn retry_part(process: ProcessSnapshot) -> Seq<char> {
    let budget = process.automatic_restart_budget;
    if budget.automatic_retries_used > 0 || budget.exhausted {
        " · automatic retries "@ + decimal_text(budget.automatic_retries_used as nat) + "/"@
            + decimal_text(budget.max_restarts as nat)
    } else {
        Seq::empty()
    }
}

/// The Run age of a header.
pub open spec fn age_part(process: ProcessSnapshot, now_ms: u64) -> Seq<char> {
    match process.run_started_at_ms {
        Some(started) => " · "@ + age_text(
            if now_ms >= started {
                (now_ms - started) as nat
            } else {
                0
            },
        ),
        None => Seq::empty(),
    }
}

/// The sampled resource use of a header.
pub open spec fn metrics_part(process: ProcessSnapshot) -> Seq<char> {
    match process.metrics {
        Some(metrics) => " · "@ + precision_text(
            memory_text(metrics.rss_kib as nat),
            metrics.best_effort,
        ) + " · "@ + precision_text(metrics.cpu@, metrics.best_effort) + " CPU"@,
        None => Seq::empty(),
    }
}

/// The diagnostic of a header: what blocks the Process, when it restarts, why
/// it is not ready, or why it failed.
pub open spec fn diagnostic_part(process: ProcessSnapshot) -> Seq<char> {
    if process.lifecycle == Lifecycle::Waiting {
        match process.blocked_reason {
            Some(reason) => " · "@ + reason@,
            None => Seq::empty(),
        }
    } else if process.lifecycle == Lifecycle::RestartBackoff {
        match process.restart_backoff {
            Some(backoff) => " · "@ + backoff.reason@ + " · next restart at "@ + decimal_text(
                backoff.next_attempt_at_ms as nat,
            ) + "ms"@,
            None => Seq::empty(),
        }
    } else if process.readiness is Some {
        match process.readiness->0.last_error {
            Some(error) => " · readiness attempt "@ + decimal_text(
                process.readiness->0.attempts as nat,
            ) + ": "@ + short_text(error@),
            None => Seq::empty(),
        }
    } else if process.lifecycle != Lifecycle::Stopping && process.failure is Some {
        " · "@ + short_text(process.failure->0.detail@)
    } else {
        Seq::empty()
    }
}

/// The header of the selected Process.
pub open spec fn header_text(process: ProcessSnapshot, now_ms: u64) -> Seq<char> {
    process.name@ + run_part(process) + pid_part(process) + " · "@ + status_text(process)
        + retry_part(process) + age_part(process, now_ms) + metrics_part(process)
        + diagnostic_part(process)
}

fn metrics_label(process: &ProcessSnapshot) -> (r: String)
    ensures
        r@ == metrics_part(*process),
{
    match &process.metrics {
        Some(metrics) => {
            let mut text = String::from_str(" · ");
            text.append(
                metric_precision(
                    format_rss(metrics.rss_kib).as_str(),
                    metrics.best_effort,
                ).as_str(),
            );
            text.append(" · ");
            text.append(metric_precision(metrics.cpu.as_str(), metrics.best_effort).as_str());
            text.append(" CPU");
            text
        },
        None => String::new(),
    }
}

fn diagnostic_label(process: &ProcessSnapshot) -> (r: String)
    ensures
        r@ == diagnostic_part(*process),
{
    let mut text = String::new();
    if process.lifecycle == Lifecycle::Waiting {
        if let Some(reason) = &process.blocked_reason {
            text = String::from_str(" · ");
            text.append(reason.as_str());
        }
    } else if process.lifecycle == Lifecycle::RestartBackoff {
        if let Some(backoff) = &process.restart_backoff {
            text = String::from_str(" · ");
            text.append(backoff.reason.as_str());
            text.append(" · next restart at ");
            text.append(decimal_u64(backoff.next_attempt_at_ms).as_str());
            text.append("ms");
        }
    } else if let Some(readiness) = &process.readiness {
        if let Some(error) = &readiness.last_error {
            text = String::from_str(" · readiness attempt ");
            text.append(decimal_u64(readiness.attempts).as_str());
            text.append(": ");
            text.append(short_reason(error.as_str()).as_str());
        }
    } else if process.lifecycle != Lifecycle::Stopping {
        if let Some(failure) = &process.failure {
            text = String::from_str(" · ");
            text.append(short_reason(failure.detail.as_str()).as_str());
        }
    }
    text
}

fn run_label(process: &ProcessSnapshot) -> (r: String)
    ensures
        r@ == run_part(*process),
{
    match process.current_run {
        Some(run) => {
            let mut text = String::from_str(" · run ");
            text.append(decimal_u64(run).as_str());
            text
        },
        None => String::new(),
    }
}

fn pid_label(process: &ProcessSnapshot) -> (r: String)
    ensures
        r@ == pid_part(*process),
{
    match process.root_pid {
        Some(pid) => {
            let mut text = String::from_str(" · PID ");
            text.append(decimal(pid as u128).as_str());
            text
        },
        None => String::new(),
    }
}

fn retry_label(process: &ProcessSnapshot) -> (r: String)
    ensures
        r@ == retry_part(*process),
{
    let budget = &process.automatic_restart_budget;
    if budget.automatic_retries_used > 0 || budget.exhausted {
        let mut text = String::from_str(" · automatic retries ");
        text.append(decimal(budget.automatic_retries_used as u128).as_str());
        text.append("/");
        text.append(decimal(budget.max_restarts as u128).as_str());
        text
    } else {
        String::new()
    }
}

fn age_label(process: &ProcessSnapshot, now_ms: u64) -> (r: String)
    ensures
        r@ == age_part(*process, now_ms),
{
    match process.run_started_at_ms {
        Some(started) => {
            let mut text = String::from_str(" · ");
            text.append(format_age(now_ms.saturating_sub(started)).as_str());
            text
        },
        None => String::new(),
    }
}

/// Project the selected Process into the console pane's header: name, the
/// live Run identity and PID when one exists, the concise status label,
/// the Run's age and compact metrics when sampled, and the bounded
/// diagnostic (a blocked reason or failure detail) when one is present.
/// The header is a projection of the immutable Supervisor snapshot.
pub fn selected_header(process: &ProcessSnapshot, now_ms: u64) -> (r: String)
    ensures
        r@ == header_text(*process, now_ms),
{
    let mut header = process.name.clone();
    header.append(run_label(process).as_str());
    header.append(pid_label(process).as_str());
    header.append(" · ");
    header.append(status_label(process).as_str());
    header.append(retry_label(process).as_str());
    header.append(age_label(process, now_ms).as_str());
    header.append(metrics_label(process).as_str());
    header.append(diagnostic_label(process).as_str());
    header
}

/// The heading of a Process Group.
pub open spec fn heading_of(group: Option<Seq<char>>) -> Seq<char> {
    match group {
        Some(name) => name,
        None => "Other"@,
    }
}

/// Whether any Process is in a group.
pub open spec fn has_groups(processes: Seq<ProcessSnapshot>) -> bool {
    exists|i: int| 0 <= i < processes.len() && (#[trigger] processes[i]).group is Some
}

/// The lines of the first `count` Processes: with groups, a heading stands
/// before the first Process and wherever the group changes.
pub open spec fn list_lines(
    processes: Seq<ProcessSnapshot>,
    grouped: bool,
    count: int,
) -> Seq<ListLine>
    decreases count,
{
    if count <= 0 || count > processes.len() {
        Seq::empty()
    } else {
        let before = list_lines(processes, grouped, count - 1);
        let group = optional_text(processes[count - 1].group);
        let headed = if grouped && (count == 1 || optional_text(processes[count - 2].group)
            != group) {
            before.push(ListLine::Heading(heading_of(group)))
        } else {
            before
        };
        headed.push(ListLine::Process(count - 1))
    }
}

/// Lines of the Process list, as mathematical values.
pub open spec fn line_views(rows: Seq<ProcessListRow>) -> Seq<ListLine> {
    rows.map_values(|row: ProcessListRow| row@)
}

proof fn line_views_push(rows: Seq<ProcessListRow>, row: ProcessListRow)
    ensures
        line_views(rows.push(row)) == line_views(rows).push(row@),
{
    assert(line_views(rows.push(row)) =~= line_views(rows).push(row@));
}

/// The lines of the Process list, with group headings where there are groups.
pub fn process_list_rows(snapshot: &ProjectSnapshot) -> (r: Vec<ProcessListRow>)
    ensures
        line_views(r@) == list_lines(
            snapshot.processes@,
            has_groups(snapshot.processes@),
            snapshot.processes@.len() as int,
        ),
{
    let processes = &snapshot.processes;
    let mut grouped = false;
    let mut checked: usize = 0;
    while checked < processes.len()
        invariant
            checked <= processes.len(),
            grouped == exists|i: int|
                0 <= i < checked && (#[trigger] processes@[i]).group is Some,
        decreases processes.len() - checked,
    {
        if processes[checked].group.is_some() {
            proof {
                assert(processes@[checked as int].group is Some);
            }
            grouped = true;
        }
        checked = checked + 1;
    }
    let mut rows: Vec<ProcessListRow> = Vec::new();
    let mut index: usize = 0;
    while index < processes.len()
        invariant
            index <= processes.len(),
            line_views(rows@) == list_lines(processes@, grouped, index as int),
        decreases processes.len() - index,
    {
        let group = &processes[index].group;
        if grouped && (index == 0 || !same_optional(&processes[index - 1].group, group)) {
            let heading = match group {
                Some(name) => name.clone(),
                None => "Other".to_owned(),
            };
            proof {
                line_views_push(rows@, ProcessListRow::Heading(heading));
            }
            rows.push(ProcessListRow::Heading(heading));
        }
        proof {
            line_views_push(rows@, ProcessListRow::Process(index));
        }
        rows.push(ProcessListRow::Process(index));
        index = index + 1;
    }
    proof {
        assert(line_views(Seq::<ProcessListRow>::empty()) =~= Seq::<ListLine>::empty());
    }
    rows
}

/// The Process under a pointer row of the Process list. The top border, the
/// column header, the bottom border and group headings hold no Process.
pub open spec fn process_under(
    list: Rect,
    row: u16,
    rows: Seq<ListLine>,
    offset: int,
) -> Option<int> {
    let index = row - list.y - 2 + offset;
    if row < list.y + 2 || row + 1 >= list.bottom_edge() || index >= rows.len() {
        None
    } else {
        match rows[index] {
            ListLine::Process(process) => Some(process),
            ListLine::Heading(name) => None,
        }
    }
}

/// The Process under a pointer row of the Process list, which shows its lines
/// from `offset` on.
pub fn process_row_at(
    list: Rect,
    row: u16,
    rows: &Vec<ProcessListRow>,
    offset: usize,
) -> (r: Option<usize>)
    ensures
        (match r {
            Some(index) => Some(index as int),
            None => None,
        }) == process_under(list, row, line_views(rows@), offset as int),
{
    if (row as u32) < list.y as u32 + 2 || row as u32 + 1 >= list.bottom() as u32 {
        return None;
    }
    let shown: usize = (row - list.y - 2) as usize;
    let count: usize = rows.len();
    match shown.checked_add(offset) {
        None => None,
        Some(index) => {
            if index >= count {
                return None;
            }
            proof {
                assert(line_views(rows@)[index as int] == rows@[index as int]@);
            }
            match &rows[index] {
                ProcessListRow::Process(process) => Some(*process),
                ProcessListRow::Heading(_) => None,
            }
        },
    }
}

/// Numbers in brackets, separated by commas.
pub open spec fn number_list(numbers: Seq<u32>) -> Seq<char> {
    "["@ + joined(numbers.map_values(|number: u32| decimal_text(number as nat)), ", "@) + "]"@
}

/// The words for one Process that could not be stopped cleanly.
pub open spec fn failure_text(failure: ProcessShutdownFailure) -> Seq<char> {
    let base = failure.process@ + ": "@ + failure.detail@;
    if failure.remaining_pids@.len() == 0 {
        base
    } else {
        base + " (remaining PIDs: "@ + number_list(failure.remaining_pids@) + ")"@
    }
}

fn number_list_label(numbers: &Vec<u32>) -> (r: String)
    ensures
        r@ == number_list(numbers@),
{
    let mut parts: Vec<String> = Vec::new();
    let mut index: usize = 0;
    while index < numbers.len()
        invariant
            index <= numbers.len(),
            parts.len() == index,
            forall|i: int|
                0 <= i < index ==> (#[trigger] parts@[i])@ == decimal_text(numbers@[i] as nat),
        decreases numbers.len() - index,
    {
        parts.push(decimal(numbers[index] as u128));
        index = index + 1;
    }
    proof {
        assert(texts(parts@) =~= numbers@.map_values(|number: u32| decimal_text(number as nat)));
    }
    let mut text = String::from_str("[");
    text.append(join(&parts, ", ").as_str());
    text.append("]");
    text
}

/// The failure message of a finished Project shutdown; a clean one has none.
pub fn report_shutdown_result(result: &ProjectShutdownSnapshot) -> (r: Result<(), String>)
    ensures
        r is Ok <==> result.failures@.len() == 0,
        r is Err ==> r->Err_0@ == "Project shutdown did not finish cleanly: "@ + joined(
            result.failures@.map_values(|failure: ProcessShutdownFailure| failure_text(failure)),
            "; "@,
        ),
{
    if result.failures.len() == 0 {
        return Ok(());
    }
    let mut parts: Vec<String> = Vec::new();
    let mut index: usize = 0;
    while index < result.failures.len()
        invariant
            index <= result.failures.len(),
            parts.len() == index,
            forall|i: int|
                0 <= i < index ==> (#[trigger] parts@[i])@ == failure_text(result.failures@[i]),
        decreases result.failures.len() - index,
    {
        let failure = &result.failures[index];
        let mut part = failure.process.clone();
        part.append(": ");
        part.append(failure.detail.as_str());
        if failure.remaining_pids.len() > 0 {
            part.append(" (remaining PIDs: ");
            part.append(number_list_label(&failure.remaining_pids).as_str());
            part.append(")");
        }
        parts.push(part);
        index = index + 1;
    }
    proof {
        assert(texts(parts@) =~= result.failures@.map_values(
            |failure: ProcessShutdownFailure| failure_text(failure),
        ));
    }
    let mut message = String::from_str("Project shutdown did not finish cleanly: ");
    message.append(join(&parts, "; ").as_str());
    Err(message)
}

/// A row is colored as an error exactly when it says that its Process failed or
/// is unhealthy.
pub proof fn errors_are_colored_as_errors(process: ProcessSnapshot)
    ensures
        tone_of(process) == LifecycleTone::Error <==> !shows_disabled(process) && process.lifecycle
            != Lifecycle::Done && (shows_unhealthy(process) || shows_failure(process)),
        shows_unhealthy(process) && !shows_disabled(process) ==> status_text(process)
            == "Unhealthy"@ && tone_of(process) == LifecycleTone::Error,
{
}

/// A row reason never takes more than its characters and the mark.
pub proof fn reasons_stay_short(detail: Seq<char>)
    ensures
        short_text(detail).len() <= REASON_LENGTH + 1,
{
    reveal_strlit("…");
}

/// Every Process has exactly one line in the list, in Process order, and
/// headings come only with groups.
pub proof fn every_process_has_one_line(processes: Seq<ProcessSnapshot>, grouped: bool, count: int)
    requires
        0 <= count <= processes.len(),
    ensures
        process_lines(list_lines(processes, grouped, count)) == Seq::new(
            count as nat,
            |i: int| i,
        ),
        !grouped ==> list_lines(processes, grouped, count).len() == count,
    decreases count,
{
    if count > 0 {
        every_process_has_one_line(processes, grouped, count - 1);
        let before = list_lines(processes, grouped, count - 1);
        let all = list_lines(processes, grouped, count);
        let headed = all.drop_last();
        assert(all.last() == ListLine::Process(count - 1));
        if headed.len() > before.len() {
            assert(headed.drop_last() =~= before);
        } else {
            assert(headed =~= before);
        }
        assert(process_lines(headed) == process_lines(before));
        assert(process_lines(all) == process_lines(headed).push(count - 1));
        assert(process_lines(all) =~= Seq::new(count as nat, |i: int| i));
    } else {
        assert(process_lines(list_lines(processes, grouped, count)) =~= Seq::new(
            0,
            |i: int| i,
        ));
    }
}

/// The Processes among the lines of a list.
pub open spec fn process_lines(lines: Seq<ListLine>) -> Seq<int>
    decreases lines.len(),
{
    if lines.len() == 0 {
        Seq::empty()
    } else {
        match lines.last() {
            ListLine::Process(index) => process_lines(lines.drop_last()).push(index),
            ListLine::Heading(name) => process_lines(lines.drop_last()),
        }
    }
}

} // verus!
