//! What the Process list and the header of a console tell of a Process.

use vstd::prelude::*;

#[allow(unused_imports)]
use crate::model::optional_text;
#[allow(unused_imports)]
use crate::snapshot::{
    CheckState, CheckStatus, Lifecycle, Metrics, ProcessShutdownFailure, ProcessSnapshot,
    ProjectSnapshot,
};
#[allow(unused_imports)]
use crate::text::{decimal_text, joined};
#[allow(unused_imports)]
use crate::view_model::{
    age_text, changes_pending, diagnostic_part, failure_text, has_groups, header_text, is_row, list_lines, list_title,
    memory_text, needs_profile, pending_count, pid_part, precision_text, profile_text, run_part, short_text, shows_profiles, status_text, tone_of,
    with_reason, LifecycleTone, ListLine, ProcessRowView,
};

verus! {

/// Whether the liveness check of a Process fails.
pub open spec fn liveness_fails(process: ProcessSnapshot) -> bool {
    process.liveness matches Some(check) && check.state == CheckState::Failing
}

/// Whether nothing is wrong with a Process: it may run, nothing failed, and no
/// liveness check fails.
pub open spec fn untroubled(process: ProcessSnapshot) -> bool {
    &&& process.enabled || process.current_run is Some
    &&& process.failure is None
    &&& !liveness_fails(process)
}

/// Whether a text begins with another.
pub open spec fn leads(text: Seq<char>, start: Seq<char>) -> bool {
    text.len() >= start.len() && text.take(start.len() as int) == start
}

proof fn reason_follows(state: Seq<char>, reason: Option<Seq<char>>)
    ensures
        leads(with_reason(state, reason), state),
{
    assert(with_reason(state, reason).take(state.len() as int) =~= state);
}

proof fn words_differ()
    ensures
        "Ready"@.len() == 5 && "Ready"@[0] == 'R' && "Ready"@[2] == 'a',
        "Restarting"@.len() == 10 && "Restarting"@[0] == 'R' && "Restarting"@[2] == 's',
        "Starting"@.len() == 8 && "Starting"@[0] == 'S' && "Starting"@[2] == 'a',
        "Stopped"@.len() == 7 && "Stopped"@[0] == 'S' && "Stopped"@[2] == 'o' && "Stopped"@[5]
            == 'e',
        "Stopping"@.len() == 8 && "Stopping"@[0] == 'S' && "Stopping"@[2] == 'o' && "Stopping"@[5]
            == 'i',
        "Done"@.len() == 4 && "Done"@[0] == 'D' && "Done"@[1] == 'o',
        "Disabled"@.len() == 8 && "Disabled"@[0] == 'D' && "Disabled"@[1] == 'i',
        "Waiting"@.len() == 7 && "Waiting"@[0] == 'W',
        "Unhealthy"@.len() == 9 && "Unhealthy"@[0] == 'U',
        "Failed"@.len() == 6 && "Failed"@[0] == 'F',
{
    reveal_strlit("Ready");
    reveal_strlit("Restarting");
    reveal_strlit("Starting");
    reveal_strlit("Stopped");
    reveal_strlit("Stopping");
    reveal_strlit("Done");
    reveal_strlit("Disabled");
    reveal_strlit("Waiting");
    reveal_strlit("Unhealthy");
    reveal_strlit("Failed");
}

/// The word for the lifecycle of a Process with which nothing is wrong.
pub open spec fn word_for(lifecycle: Lifecycle) -> Seq<char> {
    match lifecycle {
        Lifecycle::Idle | Lifecycle::Stopped => "Stopped"@,
        Lifecycle::Starting => "Starting"@,
        Lifecycle::Running => "Ready"@,
        Lifecycle::Done => "Done"@,
        Lifecycle::Waiting => "Waiting"@,
        Lifecycle::Stopping => "Stopping"@,
        Lifecycle::RestartBackoff => "Restarting"@,
    }
}

/// A Process with which nothing is wrong is Ready exactly when it runs, and
/// every other state of its lifecycle has its own word too. Only a state that
/// waits for something may add a reason behind its word.
pub proof fn untroubled_states_are_named(process: ProcessSnapshot)
    requires
        untroubled(process),
    ensures
        status_text(process) == "Ready"@ <==> process.lifecycle == Lifecycle::Running,
        status_text(process) == "Starting"@ <==> process.lifecycle == Lifecycle::Starting,
        status_text(process) == "Stopped"@ <==> process.lifecycle == Lifecycle::Idle
            || process.lifecycle == Lifecycle::Stopped,
        status_text(process) == "Done"@ <==> process.lifecycle == Lifecycle::Done,
        leads(status_text(process), word_for(process.lifecycle)),
        leads(status_text(process), "Waiting"@) <==> process.lifecycle == Lifecycle::Waiting,
        leads(status_text(process), "Stopping"@) <==> process.lifecycle == Lifecycle::Stopping,
        leads(status_text(process), "Restarting"@) <==> process.lifecycle
            == Lifecycle::RestartBackoff,
{
    words_differ();
    let text = status_text(process);
    let word = word_for(process.lifecycle);
    reason_follows("Waiting"@, optional_text(process.blocked_reason));
    reason_follows("Stopping"@, None);
    reason_follows(
        "Restarting"@,
        match process.restart_backoff {
            Some(backoff) => Some(backoff.reason@),
            None => None,
        },
    );
    assert(word.take(word.len() as int) =~= word);
    assert(leads(text, word));
    assert(text.take(word.len() as int)[0] == text[0]);
    assert(text.take(word.len() as int)[1] == text[1]);
    assert(text.take(word.len() as int)[2] == text[2]);
    if word.len() > 5 {
        assert(text.take(word.len() as int)[5] == text[5]);
    }
    if leads(text, "Waiting"@) {
        assert(text.take(7)[0] == text[0]);
    }
    if leads(text, "Stopping"@) {
        assert(text.take(8)[0] == text[0]);
        assert(text.take(8)[2] == text[2]);
        assert(text.take(8)[5] == text[5]);
    }
    if leads(text, "Restarting"@) {
        assert(text.take(10)[0] == text[0]);
        assert(text.take(10)[2] == text[2]);
    }
}

/// The reason for which a Process waits, stops or restarts follows the word in
/// brackets, and a short one whole.
pub proof fn reasons_follow_the_word(process: ProcessSnapshot, reason: Seq<char>)
    requires
        process.enabled || process.current_run is Some,
        !liveness_fails(process),
        reason.len() <= 40,
    ensures
        process.lifecycle == Lifecycle::Waiting && process.failure is None && (
        process.blocked_reason matches Some(text) && text@ == reason) ==> status_text(process)
            == "Waiting"@ + " ("@ + reason + ")"@,
        process.lifecycle == Lifecycle::Stopping && (process.failure matches Some(failure)
            && failure.detail@ == reason) ==> status_text(process) == "Stopping"@ + " ("@ + reason
            + ")"@,
        process.lifecycle == Lifecycle::RestartBackoff && (process.restart_backoff matches Some(
            backoff,
        ) && backoff.reason@ == reason) ==> status_text(process) == "Restarting"@ + " ("@ + reason
            + ")"@,
{
}

/// A Process that may not run, and has no Run left, is Disabled whatever else
/// holds of it, and none else is.
pub proof fn only_disabled_processes_are_disabled(process: ProcessSnapshot)
    ensures
        status_text(process) == "Disabled"@ <==> !process.enabled && process.current_run is None,
{
    words_differ();
    let text = status_text(process);
    if process.enabled || process.current_run is Some {
        reason_follows("Waiting"@, optional_text(process.blocked_reason));
        reason_follows(
            "Stopping"@,
            match process.failure {
                Some(failure) => Some(failure.detail@),
                None => None,
            },
        );
        reason_follows(
            "Restarting"@,
            match process.restart_backoff {
                Some(backoff) => Some(backoff.reason@),
                None => None,
            },
        );
        if let Some(failure) = process.failure {
            reason_follows("Failed"@, Some(failure.detail@));
            if leads(text, "Failed"@) {
                assert(text.take(6)[0] == text[0]);
            }
        }
        if leads(text, "Waiting"@) {
            assert(text.take(7)[0] == text[0]);
        }
        if leads(text, "Stopping"@) {
            assert(text.take(8)[0] == text[0]);
        }
        if leads(text, "Restarting"@) {
            assert(text.take(10)[0] == text[0]);
        }
    }
}

/// A Process that runs with a failing liveness check is Unhealthy, and one that
/// failed says so with the reason, unless it already stops or restarts.
pub proof fn troubles_are_named(process: ProcessSnapshot, detail: Seq<char>)
    requires
        process.enabled || process.current_run is Some,
    ensures
        process.lifecycle == Lifecycle::Running && liveness_fails(process) ==> status_text(process)
            == "Unhealthy"@,
        (process.failure matches Some(failure) && failure.detail@ == detail) && detail.len() <= 40
            && process.lifecycle != Lifecycle::Done && process.lifecycle != Lifecycle::Stopping
            && process.lifecycle != Lifecycle::RestartBackoff && !(process.lifecycle
            == Lifecycle::Running && liveness_fails(process)) ==> status_text(process)
            == "Failed"@ + " ("@ + detail + ")"@,
        process.lifecycle == Lifecycle::Done ==> status_text(process) == "Done"@,
{
}

/// A reason is cut behind forty characters, with a mark, and never otherwise.
pub proof fn reasons_are_cut_when_long(detail: Seq<char>)
    ensures
        detail.len() <= 40 ==> short_text(detail) == detail,
        detail.len() > 40 ==> short_text(detail) == detail.take(40) + "…"@,
{
}

/// The color of a Process: muted where it rests, blue while it starts, green
/// where it runs or is done, yellow while it waits, stops or restarts, and red
/// where something is wrong.
pub proof fn colors_follow_the_state(process: ProcessSnapshot)
    ensures
        !process.enabled && process.current_run is None ==> tone_of(process)
            == LifecycleTone::Muted,
        untroubled(process) ==> tone_of(process) == (match process.lifecycle {
            Lifecycle::Idle | Lifecycle::Stopped => LifecycleTone::Muted,
            Lifecycle::Starting => LifecycleTone::Info,
            Lifecycle::Running | Lifecycle::Done => LifecycleTone::Success,
            _ => LifecycleTone::Warning,
        }),
        (process.enabled || process.current_run is Some) && process.failure is Some && (
        process.lifecycle == Lifecycle::Running || process.lifecycle == Lifecycle::Stopped
            || process.lifecycle == Lifecycle::Idle || process.lifecycle == Lifecycle::Starting
            || process.lifecycle == Lifecycle::Waiting) ==> tone_of(process)
            == LifecycleTone::Error,
        (process.enabled || process.current_run is Some) && process.lifecycle == Lifecycle::Running
            && liveness_fails(process) ==> tone_of(process) == LifecycleTone::Error,
{
}

/// A row shows its own Process, and exactly the selected row is marked.
pub proof fn rows_show_their_process(
    row: ProcessRowView,
    snapshot: ProjectSnapshot,
    index: int,
    selected: int,
)
    requires
        is_row(row, snapshot, index, selected),
    ensures
        row.name@ == snapshot.processes@[index].name@,
        row.selected <==> index == selected,
        untroubled(snapshot.processes@[index]) ==> (row.status@ == "Ready"@
            <==> snapshot.processes@[index].lifecycle == Lifecycle::Running),
        row.memory is Some <==> snapshot.processes@[index].metrics is Some,
        row.cpu is Some <==> snapshot.processes@[index].metrics is Some,
        snapshot.processes@[index].metrics matches Some(metrics) ==> (!metrics.best_effort
            ==> row.cpu->0@ == metrics.cpu@),
{
    if untroubled(snapshot.processes@[index]) {
        untroubled_states_are_named(snapshot.processes@[index]);
    }
}

/// Memory is told in KiB, then in whole MiB, then in GiB with one digit.
pub proof fn memory_has_its_unit(kib: nat, mib: nat, gib: nat)
    requires
        1 <= kib < 1024,
        1 <= mib < 1024,
        1 <= gib,
    ensures
        memory_text(0) == "0"@,
        memory_text(kib) == decimal_text(kib) + "K"@,
        memory_text(mib * 1024) == decimal_text(mib) + "M"@,
        memory_text(gib * 1_048_576) == decimal_text(gib) + "."@ + decimal_text(0) + "G"@,
{
    assert((mib * 1024) / 1024 == mib);
    let tenths = gib * 1_048_576 * 10;
    assert(tenths / 1_048_576 == gib * 10);
    assert(tenths % 1_048_576 == 0);
    assert((gib * 10) / 10 == gib);
    assert((gib * 10) % 10 == 0);
}

/// A measured value that is not exact is marked, and an exact one is not.
pub proof fn inexact_values_are_marked(value: Seq<char>)
    ensures
        precision_text(value, true) == "~"@ + value,
        precision_text(value, false) == value,
{
}

/// The age of a Run is told in seconds, and from a minute on in minutes and
/// seconds.
pub proof fn ages_are_told(minutes: nat, seconds: nat, millis: nat)
    requires
        seconds < 60,
        millis < 1000,
    ensures
        age_text(((minutes * 60 + seconds) * 1000 + millis) as nat) == (if minutes == 0 {
            decimal_text(seconds) + "s"@
        } else {
            decimal_text(minutes) + "m"@ + decimal_text(seconds) + "s"@
        }),
{
    let whole = (minutes * 60 + seconds) as nat;
    assert((whole * 1000 + millis) / 1000 == whole);
    assert(whole / 60 == minutes);
    assert(whole % 60 == seconds);
}

/// A running Process that changes its profile shows both, the current one
/// first; otherwise the profile of its next Run is shown.
pub proof fn profile_changes_are_shown(process: ProcessSnapshot, base: Seq<char>)
    ensures
        ({
            let current = match process.current_profile {
                Some(name) => name@,
                None => base,
            };
            let next = match process.next_profile {
                Some(name) => name@,
                None => base,
            };
            &&& process.current_run is Some && current != next ==> profile_text(process, base)
                == current + " → "@ + next
            &&& process.current_run is None || current == next ==> profile_text(process, base)
                == next
        }),
{
}

/// Profile changes are pending exactly where a Process runs with another
/// profile than its next Run will have.
pub proof fn pending_profiles_are_counted(processes: Seq<ProcessSnapshot>)
    ensures
        changes_pending(processes) <==> pending_count(processes) > 0,
        changes_pending(processes) <==> exists|i: int|
            0 <= i < processes.len() && (#[trigger] processes[i]).current_run is Some
                && optional_text(processes[i].current_profile) != optional_text(
                processes[i].next_profile,
            ),
        pending_count(processes) <= processes.len(),
    decreases processes.len(),
{
    if processes.len() > 0 {
        let before = processes.drop_last();
        pending_profiles_are_counted(before);
        if changes_pending(before) {
            let i = choose|i: int|
                0 <= i < before.len() && crate::view_model::profile_pending(#[trigger] before[i]);
            assert(processes[i] == before[i]);
        }
        if changes_pending(processes) && !changes_pending(before) {
            let i = choose|i: int|
                0 <= i < processes.len() && crate::view_model::profile_pending(
                    #[trigger] processes[i],
                );
            if i < before.len() {
                assert(before[i] == processes[i]);
            }
        }
        if crate::view_model::profile_pending(processes.last()) {
            assert(processes[processes.len() - 1] == processes.last());
        }
    }
    assert forall|i: int|
        0 <= i < processes.len() && (#[trigger] processes[i]).current_run is Some && optional_text(
            processes[i].current_profile,
        ) != optional_text(processes[i].next_profile) implies changes_pending(processes) by {
        assert(crate::view_model::profile_pending(processes[i]));
    }
}

/// The title of the list names the selected profile, and how many Processes
/// still have to change to it; a Project without profiles has a plain title.
pub proof fn titles_name_the_profile(snapshot: ProjectSnapshot)
    ensures
        snapshot.available_profiles@.len() == 0 ==> list_title(snapshot) == "Processes"@,
        snapshot.available_profiles@.len() > 0 && !changes_pending(snapshot.processes@)
            ==> list_title(snapshot) == "Processes · Profile: "@ + (match snapshot.selected_profile {
            Some(name) => name@,
            None => snapshot.base_profile_name@,
        }) + " ▾"@,
{
    pending_profiles_are_counted(snapshot.processes@);
}

/// A heading stands over a Process exactly where its group begins: over the
/// first Process and over each whose group is not that of the one before. It
/// names the group, and `Other` stands for none.
pub proof fn headings_stand_over_their_group(
    processes: Seq<ProcessSnapshot>,
    count: int,
)
    requires
        0 < count <= processes.len(),
    ensures
        ({
            let before = list_lines(processes, true, count - 1);
            let group = optional_text(processes[count - 1].group);
            let begins = count == 1 || optional_text(processes[count - 2].group) != group;
            let name = match processes[count - 1].group {
                Some(name) => name@,
                None => "Other"@,
            };
            list_lines(processes, true, count) == (if begins {
                before + seq![ListLine::Heading(name), ListLine::Process(count - 1)]
            } else {
                before + seq![ListLine::Process(count - 1)]
            })
        }),
{
    let before = list_lines(processes, true, count - 1);
    let group = optional_text(processes[count - 1].group);
    let begins = count == 1 || optional_text(processes[count - 2].group) != group;
    let name = match processes[count - 1].group {
        Some(name) => name@,
        None => "Other"@,
    };
    if begins {
        assert(list_lines(processes, true, count) =~= before + seq![
            ListLine::Heading(name),
            ListLine::Process(count - 1),
        ]);
    } else {
        assert(list_lines(processes, true, count) =~= before + seq![ListLine::Process(count - 1)]);
    }
}

/// A list has headings exactly where some Process is in a group.
pub proof fn groups_are_noticed(processes: Seq<ProcessSnapshot>)
    ensures
        has_groups(processes) <==> !(forall|i: int|
            0 <= i < processes.len() ==> (#[trigger] processes[i]).group is None),
{
}

/// A header begins with the name of its Process, its Run and its process
/// identity, and goes on with the status.
pub proof fn headers_name_their_run(process: ProcessSnapshot, now_ms: u64, run: u64, pid: u32)
    requires
        process.current_run == Some(run),
        process.root_pid == Some(pid),
    ensures
        leads(
            header_text(process, now_ms),
            process.name@ + " · run "@ + decimal_text(run as nat) + " · PID "@ + decimal_text(
                pid as nat,
            ) + " · "@ + status_text(process),
        ),
{
    let start = process.name@ + " · run "@ + decimal_text(run as nat) + " · PID "@ + decimal_text(
        pid as nat,
    ) + " · "@ + status_text(process);
    assert(header_text(process, now_ms).take(start.len() as int) =~= start);
}

/// A running Process that retried shows its retries of those it may make, its
/// age, its memory, its share of the processor and the last readiness error
/// with the number of attempts.
pub proof fn headers_tell_of_the_run(
    process: ProcessSnapshot,
    now_ms: u64,
    started: u64,
    metrics: Metrics,
    readiness: CheckStatus,
    error: String,
)
    requires
        process.lifecycle == Lifecycle::Running,
        process.automatic_restart_budget.automatic_retries_used > 0,
        process.run_started_at_ms == Some(started),
        started <= now_ms,
        process.metrics == Some(metrics),
        process.readiness == Some(readiness),
        readiness.last_error == Some(error),
    ensures
        closes(
            header_text(process, now_ms),
            status_text(process) + " · automatic retries "@ + decimal_text(
                process.automatic_restart_budget.automatic_retries_used as nat,
            ) + "/"@ + decimal_text(process.automatic_restart_budget.max_restarts as nat) + " · "@
                + age_text((now_ms - started) as nat) + " · "@ + precision_text(
                memory_text(metrics.rss_kib as nat),
                metrics.best_effort,
            ) + " · "@ + precision_text(metrics.cpu@, metrics.best_effort) + " CPU"@
                + " · readiness attempt "@ + decimal_text(readiness.attempts as nat) + ": "@
                + short_text(error@),
        ),
{
    let end = status_text(process) + " · automatic retries "@ + decimal_text(
        process.automatic_restart_budget.automatic_retries_used as nat,
    ) + "/"@ + decimal_text(process.automatic_restart_budget.max_restarts as nat) + " · "@
        + age_text((now_ms - started) as nat) + " · "@ + precision_text(
        memory_text(metrics.rss_kib as nat),
        metrics.best_effort,
    ) + " · "@ + precision_text(metrics.cpu@, metrics.best_effort) + " CPU"@
        + " · readiness attempt "@ + decimal_text(readiness.attempts as nat) + ": "@ + short_text(
        error@,
    );
    let header = header_text(process, now_ms);
    let start = process.name@ + run_part(process) + pid_part(process) + " · "@;
    assert(header =~= start + end);
    assert(header.skip(start.len() as int) =~= end);
}

/// Whether a text ends with another.
pub open spec fn closes(text: Seq<char>, end: Seq<char>) -> bool {
    text.len() >= end.len() && text.skip(text.len() - end.len()) == end
}

/// A Process that waits or failed shows the reason, and one that restarts also
/// when.
pub proof fn headers_tell_what_is_wrong(process: ProcessSnapshot, now_ms: u64)
    ensures
        process.lifecycle == Lifecycle::Waiting ==> (process.blocked_reason matches Some(reason)
            ==> closes(header_text(process, now_ms), " · "@ + reason@)),
        process.lifecycle == Lifecycle::RestartBackoff ==> (process.restart_backoff matches Some(
            backoff,
        ) ==> closes(
            header_text(process, now_ms),
            " · "@ + backoff.reason@ + " · next restart at "@ + decimal_text(
                backoff.next_attempt_at_ms as nat,
            ) + "ms"@,
        )),
        process.lifecycle == Lifecycle::Stopped && process.readiness is None ==> (
        process.failure matches Some(failure) ==> closes(
            header_text(process, now_ms),
            " · "@ + short_text(failure.detail@),
        )),
{
    let header = header_text(process, now_ms);
    let end = diagnostic_part(process);
    assert(header.skip(header.len() - end.len()) =~= end);
}

/// A Process that never retried, is not exhausted and has no Run shows neither
/// retries nor an age nor a Run.
pub proof fn headers_tell_nothing_else(process: ProcessSnapshot, now_ms: u64)
    requires
        process.current_run is None,
        process.root_pid is None,
        process.automatic_restart_budget.automatic_retries_used == 0,
        !process.automatic_restart_budget.exhausted,
        process.run_started_at_ms is None,
        process.metrics is None,
        process.readiness is None,
        process.failure is None,
        process.lifecycle != Lifecycle::Waiting,
        process.lifecycle != Lifecycle::RestartBackoff,
    ensures
        header_text(process, now_ms) == process.name@ + " · "@ + status_text(process),
{
    assert(header_text(process, now_ms) =~= process.name@ + " · "@ + status_text(process));
}

/// A Process that could not be stopped is named with the detail, and with the
/// process identities that remain, separated by commas.
pub proof fn shutdown_failures_name_what_remains(failure: ProcessShutdownFailure)
    ensures
        failure.remaining_pids@.len() == 0 ==> failure_text(failure) == failure.process@ + ": "@
            + failure.detail@,
        failure.remaining_pids@.len() == 1 ==> failure_text(failure) == failure.process@ + ": "@
            + failure.detail@ + " (remaining PIDs: ["@ + decimal_text(
            failure.remaining_pids@[0] as nat,
        ) + "])"@,
        failure.remaining_pids@.len() == 2 ==> failure_text(failure) == failure.process@ + ": "@
            + failure.detail@ + " (remaining PIDs: ["@ + decimal_text(
            failure.remaining_pids@[0] as nat,
        ) + ", "@ + decimal_text(failure.remaining_pids@[1] as nat) + "])"@,
{
    reveal_with_fuel(joined, 3);
    reveal_strlit(" (remaining PIDs: ");
    reveal_strlit(" (remaining PIDs: [");
    reveal_strlit("[");
    reveal_strlit("]");
    reveal_strlit(")");
    reveal_strlit("])");
    let pids = failure.remaining_pids@;
    let parts = pids.map_values(|number: u32| decimal_text(number as nat));
    assert(" (remaining PIDs: "@ + "["@ =~= " (remaining PIDs: ["@);
    assert("]"@ + ")"@ =~= "])"@);
    let base = failure.process@ + ": "@ + failure.detail@;
    if pids.len() > 0 {
        let inner = joined(parts, ", "@);
        assert(base + " (remaining PIDs: "@ + ("["@ + inner + "]"@) + ")"@ =~= base + (
        " (remaining PIDs: "@ + "["@) + inner + ("]"@ + ")"@));
    }
    if pids.len() == 2 {
        assert(parts.drop_last() =~= seq![parts[0]]);
        assert(joined(parts, ", "@) == parts[0] + ", "@ + parts[1]);
        assert(base + " (remaining PIDs: ["@ + (parts[0] + ", "@ + parts[1]) + "])"@ =~= base
            + " (remaining PIDs: ["@ + parts[0] + ", "@ + parts[1] + "])"@);
    }
}

/// Profiles are shown once any Process is to use another than the selected one,
/// or still runs under another than the one it is to use; else they are not.
pub proof fn profiles_are_shown_when_they_differ(snapshot: ProjectSnapshot, at: int)
    requires
        0 <= at < snapshot.processes@.len(),
    ensures
        optional_text(snapshot.processes@[at].next_profile) != optional_text(
            snapshot.selected_profile,
        ) ==> shows_profiles(snapshot),
        snapshot.processes@[at].current_run is Some && optional_text(
            snapshot.processes@[at].current_profile,
        ) != optional_text(snapshot.processes@[at].next_profile) ==> shows_profiles(snapshot),
        (forall|i: int|
            #![trigger snapshot.processes@[i]]
            0 <= i < snapshot.processes@.len() ==> optional_text(
                snapshot.processes@[i].next_profile,
            ) == optional_text(snapshot.selected_profile) && optional_text(
                snapshot.processes@[i].current_profile,
            ) == optional_text(snapshot.processes@[i].next_profile)) ==> !shows_profiles(snapshot),
{
    let process = snapshot.processes@[at];
    let selected = optional_text(snapshot.selected_profile);
    if optional_text(process.next_profile) != selected || (process.current_run is Some
        && optional_text(process.current_profile) != optional_text(process.next_profile)) {
        assert(needs_profile(snapshot.processes@[at], selected));
    }
    if shows_profiles(snapshot) {
        let i = choose|i: int|
            0 <= i < snapshot.processes@.len() && needs_profile(
                #[trigger] snapshot.processes@[i],
                selected,
            );
        assert(needs_profile(snapshot.processes@[i], selected));
    }
}

} // verus!
