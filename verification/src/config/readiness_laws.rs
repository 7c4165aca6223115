//! What a readiness or liveness block says is what is checked.

use vstd::prelude::*;

#[allow(unused_imports)]
use super::command::{
    arguments_reading, codes_fault, command_reading, exit_codes_reading, is_digit, resolved_command,
};
#[allow(unused_imports)]
use super::file::ReadinessFile;
#[allow(unused_imports)]
use super::paths::{program_reading, resolved, FileFacts};
#[allow(unused_imports)]
use super::readiness::{
    checks_reading, children_reading, duration_reading, leaf_probe, leaf_reading, leaf_schedule,
    liveness_reading, readiness_reading, url_reading, PlaceView,
};
#[allow(unused_imports)]
use super::show::{decimal_is_read_back, suffix_is_taken_off};
#[allow(unused_imports)]
use crate::duration::Duration;
#[allow(unused_imports)]
use crate::model::{CheckView, CommandView, ProbeView, ReadinessView};
#[allow(unused_imports)]
use crate::scan::trimmed;
#[allow(unused_imports)]
use crate::text::{decimal_text, pairs};
#[allow(unused_imports)]
use crate::yaml::Tree;

verus! {

/// A whole number with the suffix `ms`, `s`, `m` or `h` is that many
/// milliseconds, seconds, minutes or hours.
pub proof fn durations_have_their_unit(number: nat)
    requires
        number * 3600 <= u64::MAX,
    ensures
        duration_reading(decimal_text(number) + "ms"@) matches Ok(span) && span.wf()
            && span.total_nanos() == number * 1_000_000,
        duration_reading(decimal_text(number) + "s"@) matches Ok(span) && span.wf()
            && span.total_nanos() == number * 1_000_000_000,
        duration_reading(decimal_text(number) + "m"@) matches Ok(span) && span.wf()
            && span.total_nanos() == number * 60 * 1_000_000_000,
        duration_reading(decimal_text(number) + "h"@) matches Ok(span) && span.wf()
            && span.total_nanos() == number * 3600 * 1_000_000_000,
{
    decimal_is_read_back(number);
    suffix_is_taken_off(number);
    let millis = number * 1_000_000;
    assert(millis / 1_000_000_000 <= u64::MAX);
    assert(number * 1_000_000_000 / 1_000_000_000 == number);
    assert(number * 60_000_000_000 / 1_000_000_000 == number * 60);
    assert(number * 3_600_000_000_000 / 1_000_000_000 == number * 3600);
    assert(millis == (millis / 1_000_000_000) * 1_000_000_000 + millis % 1_000_000_000);
}

/// Whether a span of time is the given one, or the default without one.
pub open spec fn lasts_as_given(span: Duration, given: Option<String>, default: Duration) -> bool {
    match given {
        Some(text) => duration_reading(text@) == Ok::<Duration, Seq<char>>(span),
        None => span == default,
    }
}

/// Whether a threshold is the given one, or one without one, and never zero.
pub open spec fn counts_as_given(threshold: u32, given: Option<u32>) -> bool {
    &&& threshold > 0
    &&& match given {
        Some(count) => threshold == count,
        None => threshold == 1,
    }
}

/// Whether a check runs as its block says: no delay, every second, for two
/// seconds at most, and one result to decide, where the block says nothing.
pub open spec fn scheduled_as_given(check: CheckView, file: ReadinessFile) -> bool {
    &&& lasts_as_given(check.initial_delay, file.initial_delay, Duration { seconds: 0, nanos: 0 })
    &&& lasts_as_given(check.interval, file.interval, Duration { seconds: 1, nanos: 0 })
    &&& lasts_as_given(check.timeout, file.timeout, Duration { seconds: 2, nanos: 0 })
    &&& check.interval.total_nanos() > 0
    &&& check.timeout.total_nanos() > 0
    &&& counts_as_given(check.success_threshold, file.success_threshold)
    &&& counts_as_given(check.failure_threshold, file.failure_threshold)
}

/// Whether a probe is the one that its block gives.
pub open spec fn probes_as_given(probe: ProbeView, file: ReadinessFile) -> bool {
    &&& probe is Tcp <==> file.tcp is Some
    &&& probe is Http <==> file.http is Some
    &&& probe is Exec <==> file.exec_check is Some
    &&& probe is Log <==> file.log is Some
    &&& match probe {
        ProbeView::Tcp { host, port } => host == file.tcp->0.host@ && port == file.tcp->0.port
            && port > 0 && host.len() > 0,
        ProbeView::Http { host, port, path } => url_reading(file.http->0.url@) == Ok::<
            (Seq<char>, u16, Seq<char>),
            Seq<char>,
        >((host, port, path)),
        ProbeView::Exec { command, working_dir, env, success_exit_codes } => {
            let given = file.exec_check->0;
            &&& env == pairs(given.environment@)
            &&& working_dir is Some <==> given.cwd is Some
            &&& given.shell matches Some(text) ==> command == (CommandView::Shell { text: text@ })
            &&& given.shell is None ==> given.command is Some && command is Direct
            &&& success_exit_codes == (match given.success_exit_codes {
                Some(codes) => codes@,
                None => seq![0i32],
            })
        },
        ProbeView::Log { contains } => contains == file.log->0.contains@ && contains.len() > 0,
    }
}

/// Whether a check is the one that its block gives.
pub open spec fn checks_as_given(check: CheckView, file: ReadinessFile) -> bool {
    scheduled_as_given(check, file) && probes_as_given(check.probe, file)
}

/// An accepted single check probes and runs as its block says, and its block
/// has exactly one probe.
pub proof fn single_checks_are_as_given(
    place: PlaceView,
    file: ReadinessFile,
    base: Seq<char>,
    facts: FileFacts,
)
    ensures
        leaf_reading(place, file, base, facts) matches Ok(check) ==> checks_as_given(check, file),
{
}

proof fn read_children_are_as_given(
    place: PlaceView,
    children: Seq<ReadinessFile>,
    count: int,
    base: Seq<char>,
    facts: FileFacts,
)
    requires
        0 <= count <= children.len(),
    ensures
        children_reading(place, children, count, base, facts) matches Ok(checks) ==> {
            &&& checks.len() == count
            &&& forall|i: int| 0 <= i < count ==> checks_as_given(#[trigger] checks[i], children[i])
        },
    decreases count,
{
    if count > 0 {
        read_children_are_as_given(place, children, count - 1, base, facts);
        single_checks_are_as_given(
            PlaceView { child: Some(count as usize), ..place },
            children[count - 1],
            base,
            facts,
        );
    }
}

/// Whether a list of checks is what a block gives: its one check, or all of the
/// children of `all` in order, of which there are at least two.
pub open spec fn all_as_given(checks: Seq<CheckView>, file: ReadinessFile) -> bool {
    match file.all {
        None => checks.len() == 1 && checks_as_given(checks[0], file),
        Some(children) => {
            &&& checks.len() == children@.len()
            &&& checks.len() >= 2
            &&& forall|i: int|
                0 <= i < checks.len() ==> checks_as_given(#[trigger] checks[i], children@[i])
        },
    }
}

proof fn read_checks_are_as_given(
    place: PlaceView,
    file: ReadinessFile,
    base: Seq<char>,
    facts: FileFacts,
)
    ensures
        checks_reading(place, file, base, facts) matches Ok(checks) ==> all_as_given(checks, file),
{
    match file.all {
        None => single_checks_are_as_given(place, file, base, facts),
        Some(children) => read_children_are_as_given(
            place,
            children@,
            children@.len() as int,
            base,
            facts,
        ),
    }
}

/// Accepted readiness has the checks that its block gives, and a startup
/// deadline exactly where the block has one.
pub proof fn readiness_is_as_given(
    place: PlaceView,
    file: ReadinessFile,
    base: Seq<char>,
    facts: FileFacts,
)
    ensures
        readiness_reading(place, file, base, facts) matches Ok(readiness) ==> {
            &&& all_as_given(readiness.checks, file)
            &&& match readiness.startup_timeout {
                Some(timeout) => file.startup_timeout matches Some(text) && duration_reading(text@)
                    == Ok::<Duration, Seq<char>>(timeout) && timeout.total_nanos() > 0,
                None => file.startup_timeout is None,
            }
            &&& !file.any
        },
{
    read_checks_are_as_given(place, file, base, facts);
}

/// Accepted liveness has the checks that its block gives, and no deadline.
pub proof fn liveness_is_as_given(
    place: PlaceView,
    file: ReadinessFile,
    base: Seq<char>,
    facts: FileFacts,
)
    ensures
        liveness_reading(place, file, base, facts) matches Ok(checks) ==> all_as_given(checks, file)
            && file.startup_timeout is None && !file.any,
{
    read_checks_are_as_given(place, file, base, facts);
}

proof fn read_arguments_are_as_given(items: Seq<Tree>, from: int)
    requires
        0 <= from <= items.len(),
    ensures
        arguments_reading(items, from) matches Ok(args) ==> {
            &&& args.len() == items.len() - from
            &&& forall|i: int|
                0 <= i < args.len() ==> items[from + i].as_text() == Some(#[trigger] args[i])
        },
    decreases items.len() - from,
{
    if from < items.len() {
        read_arguments_are_as_given(items, from + 1);
        if let Ok(args) = arguments_reading(items, from) {
            let rest = arguments_reading(items, from + 1)->Ok_0;
            assert forall|i: int| 0 <= i < args.len() implies items[from + i].as_text() == Some(
                #[trigger] args[i],
            ) by {
                if i > 0 {
                    assert(args[i] == rest[i - 1]);
                    assert(items[from + 1 + (i - 1)].as_text() == Some(rest[i - 1]));
                }
            }
        }
    }
}

/// A command is the program and the arguments of its list, in order, or its
/// shell expression as it stands; it has exactly one of the two.
pub proof fn commands_are_as_given(command: Option<Seq<Tree>>, shell: Option<Seq<char>>)
    ensures
        command_reading(command, shell) is Ok ==> (command is Some <==> shell is None),
        match command_reading(command, shell) {
            Ok(CommandView::Direct { program, args }) => {
                &&& command matches Some(items)
                &&& items.len() == args.len() + 1
                &&& items[0].as_text() == Some(program)
                &&& program.len() > 0
                &&& forall|i: int|
                    0 <= i < args.len() ==> items[i + 1].as_text() == Some(#[trigger] args[i])
            },
            Ok(CommandView::Shell { text }) => shell == Some(text) && text.len() > 0,
            Err(_) => true,
        },
{
    if let Some(items) = command {
        if items.len() > 0 {
            read_arguments_are_as_given(items, 1);
            if let Ok(CommandView::Direct { program, args }) = command_reading(command, shell) {
                assert forall|i: int| 0 <= i < args.len() implies items[i + 1].as_text() == Some(
                    #[trigger] args[i],
                ) by {
                    assert(items[1 + i].as_text() == Some(args[i]));
                }
            }
        }
    }
    if let Some(text) = shell {
        if text.len() == 0 {
            assert(trimmed(text, crate::scan::Blank::White).len() == 0);
        }
    }
}

/// Resolving a command changes nothing but the program of a direct command, and
/// that only where it is a path.
pub proof fn resolved_commands_keep_their_words(
    command: CommandView,
    base: Seq<char>,
    context: Seq<char>,
    facts: FileFacts,
)
    ensures
        match (command, resolved_command(command, base, context, facts)) {
            (
                CommandView::Direct { program, args },
                Ok(CommandView::Direct { program: found, args: kept }),
            ) => {
                &&& kept == args
                &&& !program.contains('/') ==> found == program
                &&& program.contains('/') ==> found == resolved(base, program)
                    && facts.known_file(found)
            },
            (CommandView::Shell { .. }, Ok(same)) => same == command,
            (CommandView::Direct { program, .. }, Err(_)) => program.contains('/')
                && !facts.known_file(resolved(base, program)),
            _ => false,
        },
{
    if let CommandView::Direct { program, .. } = command {
        reveal_strlit("/");
        assert("/"@ =~= seq!['/']);
        if program.contains('/') {
            let at = choose|i: int| 0 <= i < program.len() && program[i] == '/';
            assert(program.subrange(at, at + 1) =~= "/"@);
            assert(crate::text::word_at(program, "/"@, at));
        } else if crate::scan::holds(program, "/"@) {
            let at = choose|at: int| crate::text::word_at(program, "/"@, at);
            assert(program.subrange(at, at + 1)[0] == program[at]);
            assert(program.contains(program[at]));
        }
    }
}

proof fn codes_are_sound_from(codes: Seq<i32>, from: int)
    requires
        0 <= from <= codes.len(),
    ensures
        codes_fault(codes, from) is None <==> forall|i: int|
            from <= i < codes.len() ==> 0 <= #[trigger] codes[i] <= 255 && !codes.take(i).contains(
                codes[i],
            ),
    decreases codes.len() - from,
{
    if from < codes.len() {
        codes_are_sound_from(codes, from + 1);
    }
}

/// Exit codes that mean success are the given ones, each once and between 0 and
/// 255, and just 0 without them; anything else is refused.
pub proof fn exit_codes_are_as_given(codes: Seq<i32>)
    ensures
        exit_codes_reading(None) == Ok::<Seq<i32>, Seq<char>>(seq![0i32]),
        exit_codes_reading(Some(codes)) matches Ok(kept) ==> kept == codes,
        exit_codes_reading(Some(codes)) is Ok <==> codes.len() > 0 && codes.no_duplicates()
            && forall|i: int| 0 <= i < codes.len() ==> 0 <= #[trigger] codes[i] <= 255,
{
    codes_are_sound_from(codes, 0);
    if codes_fault(codes, 0) is None {
        assert forall|i: int, j: int| 0 <= i < codes.len() && 0 <= j < codes.len() && i != j implies codes[i]
            != codes[j] by {
            let (early, late) = if i < j {
                (i, j)
            } else {
                (j, i)
            };
            assert(codes.take(late)[early] == codes[early]);
            assert(!codes.take(late).contains(codes[late]));
        }
    } else if codes.no_duplicates() {
        assert forall|i: int| 0 <= i < codes.len() implies !codes.take(i).contains(
            #[trigger] codes[i],
        ) by {
            if codes.take(i).contains(codes[i]) {
                let k = choose|k: int| 0 <= k < i && codes.take(i)[k] == codes[i];
                assert(codes[k] == codes[i]);
            }
        }
    }
}

} // verus!
