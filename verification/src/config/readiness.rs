//! Readiness and liveness: one `ready` or `liveness` block becomes one
//! validated policy or a clear per-Process failure. The block carries exactly
//! one leaf check or an `all` list with child scheduling fields.

use vstd::prelude::*;

use super::command::{
    build_command_form, build_success_exit_codes, resolve_direct_program,
};
use super::error::ConfigError;
use super::file::{ExecFile, ReadinessFile};
use super::paths::{resolve, FileFacts};
use crate::duration::Duration;
use crate::model::{
    duplicate_pairs, LivenessConfig, ReadinessCheck, ReadinessConfig, ReadinessProbe,
};
use crate::scan::{contains, rsplit_once, split_once, starts_with, strip_prefix, strip_suffix};
use crate::text::{characters, concat2, concat3, concat4, decimal_usize};

#[allow(unused_imports)]
use super::command::{
    all_digits, codes_option, command_reading, digits_value, exit_codes_reading, is_digit,
    items_option, resolved_command,
};
#[allow(unused_imports)]
use super::paths::resolved;
#[allow(unused_imports)]
use crate::model::{check_views, CheckView, ProbeView, ReadinessView};
#[allow(unused_imports)]
use crate::scan::{after_prefix, before_suffix, begins, holds, option_view, split_first, split_last};
#[allow(unused_imports)]
use crate::text::{decimal_text, pairs};

verus! {

/// The amount and the nanoseconds of the unit that a duration is written in.
pub open spec fn duration_parts(text: Seq<char>) -> Option<(Seq<char>, nat)> {
    match before_suffix(text, "ms"@) {
        Some(digits) => Some((digits, 1_000_000)),
        None => match before_suffix(text, "s"@) {
            Some(digits) => Some((digits, 1_000_000_000)),
            None => match before_suffix(text, "m"@) {
                Some(digits) => Some((digits, 60_000_000_000)),
                None => match before_suffix(text, "h"@) {
                    Some(digits) => Some((digits, 3_600_000_000_000)),
                    None => None,
                },
            },
        },
    }
}

/// What is said of a text that is no duration.
pub open spec fn format_fault() -> Seq<char> {
    "use a nonnegative whole number with an ms, s, m, or h suffix"@
}

/// A nonnegative whole-number duration with one supported suffix.
pub open spec fn duration_reading(text: Seq<char>) -> Result<Duration, Seq<char>> {
    match duration_parts(text) {
        None => Err(format_fault()),
        Some((digits, unit)) => {
            let nanos = digits_value(digits) * unit;
            if !all_digits(digits) {
                Err(format_fault())
            } else if nanos / 1_000_000_000 > u64::MAX {
                Err("the duration overflows the supported range"@)
            } else {
                Ok(
                    Duration {
                        seconds: (nanos / 1_000_000_000) as u64,
                        nanos: (nanos % 1_000_000_000) as u32,
                    },
                )
            }
        },
    }
}

/// A duration or a failure as mathematical values.
pub open spec fn duration_result(result: Result<Duration, String>) -> Result<Duration, Seq<char>> {
    match result {
        Ok(duration) => Ok(duration),
        Err(detail) => Err(detail@),
    }
}

proof fn digits_grow(text: Seq<char>, count: int)
    requires
        0 <= count <= text.len(),
    ensures
        digits_value(text.take(count)) <= digits_value(text),
    decreases text.len(),
{
    if count < text.len() {
        digits_grow(text.drop_last(), count);
        assert(text.drop_last().take(count) =~= text.take(count));
    } else {
        assert(text.take(count) =~= text);
    }
}

/// Whether characters are decimal digits, at least one.
pub fn only_digits(letters: &Vec<char>) -> (r: bool)
    ensures
        r == all_digits(letters@),
{
    let mut index: usize = 0;
    while index < letters.len()
        invariant
            index <= letters.len(),
            forall|i: int| 0 <= i < index ==> is_digit(#[trigger] letters@[i]),
        decreases letters.len() - index,
    {
        if letters[index] < '0' || letters[index] > '9' {
            proof {
                assert(!is_digit(letters@[index as int]));
            }
            return false;
        }
        index = index + 1;
    }
    letters.len() > 0
}

/// The number that decimal digits write, where it fits.
pub fn number_of(letters: &Vec<char>) -> (r: Option<u128>)
    requires
        all_digits(letters@),
    ensures
        match r {
            Some(number) => number == digits_value(letters@),
            None => digits_value(letters@) > u128::MAX,
        },
{
    let mut value: u128 = 0;
    let mut index: usize = 0;
    proof {
        assert(letters@.take(0) =~= Seq::<char>::empty());
    }
    while index < letters.len()
        invariant
            index <= letters.len(),
            all_digits(letters@),
            value == digits_value(letters@.take(index as int)),
        decreases letters.len() - index,
    {
        let ghost next = letters@.take(index + 1);
        proof {
            assert(is_digit(letters@[index as int]));
            assert(next.drop_last() =~= letters@.take(index as int));
            assert(next.last() == letters@[index as int]);
            digits_grow(letters@, index + 1);
        }
        let digit: u128 = (letters[index] as u32 - '0' as u32) as u128;
        if value > (u128::MAX - digit) / 10 {
            return None;
        }
        value = value * 10 + digit;
        index = index + 1;
    }
    proof {
        assert(letters@.take(index as int) =~= letters@);
    }
    Some(value)
}

/// Parse a nonnegative whole-number duration with one supported suffix.
pub fn parse_duration(value: &str) -> (r: Result<Duration, String>)
    ensures
        duration_result(r) == duration_reading(value@),
{
    let (digits, unit): (String, u128) = if let Some(digits) = strip_suffix(value, "ms") {
        (digits, 1_000_000)
    } else if let Some(digits) = strip_suffix(value, "s") {
        (digits, 1_000_000_000)
    } else if let Some(digits) = strip_suffix(value, "m") {
        (digits, 60_000_000_000)
    } else if let Some(digits) = strip_suffix(value, "h") {
        (digits, 3_600_000_000_000)
    } else {
        return Err(
            "use a nonnegative whole number with an ms, s, m, or h suffix".to_owned(),
        );
    };
    let letters = characters(digits.as_str());
    if !only_digits(&letters) {
        return Err(
            "use a nonnegative whole number with an ms, s, m, or h suffix".to_owned(),
        );
    }
    let ghost amount = digits_value(digits@);
    let limit: u128 = 18_446_744_073_709_551_616_000_000_000;
    match number_of(&letters) {
        None => {
            proof {
                assert(amount * unit >= amount * 1_000_000) by (nonlinear_arith)
                    requires
                        unit >= 1_000_000,
                        amount >= 0,
                ;
                assert(u128::MAX == 340_282_366_920_938_463_463_374_607_431_768_211_455);
            }
            Err("the duration overflows the supported range".to_owned())
        },
        Some(number) => {
            if number > (limit - 1) / unit {
                proof {
                    assert(number * unit >= limit) by (nonlinear_arith)
                        requires
                            number > (limit - 1) / (unit as int),
                            unit >= 1_000_000,
                            limit >= 1,
                    ;
                    assert((number * unit) / 1_000_000_000 > u64::MAX);
                }
                return Err("the duration overflows the supported range".to_owned());
            }
            proof {
                assert(number * unit < limit) by (nonlinear_arith)
                    requires
                        number <= (limit - 1) / (unit as int),
                        unit >= 1_000_000,
                        limit >= 1,
                ;
                assert((number * unit) / 1_000_000_000 <= u64::MAX);
            }
            let nanos: u128 = number * unit;
            Ok(
                Duration {
                    seconds: (nanos / 1_000_000_000) as u64,
                    nanos: (nanos % 1_000_000_000) as u32,
                },
            )
        },
    }
}

/// A port in digits, which a plus sign may precede.
pub open spec fn port_reading(text: Seq<char>) -> Option<u16> {
    let digits = if text.len() > 0 && text[0] == '+' {
        text.skip(1)
    } else {
        text
    };
    if all_digits(digits) && digits_value(digits) <= u16::MAX {
        Some(digits_value(digits) as u16)
    } else {
        None
    }
}

fn parse_port(text: &str) -> (r: Option<u16>)
    ensures
        r == port_reading(text@),
{
    let digits = match strip_prefix(text, "+") {
        Some(digits) => {
            proof {
                reveal_strlit("+");
                assert(text@.subrange(0, 1)[0] == "+"@[0]);
            }
            digits
        },
        None => {
            proof {
                reveal_strlit("+");
                if text@.len() > 0 && text@[0] == '+' {
                    assert(text@.subrange(0, 1) =~= "+"@);
                }
            }
            text.to_owned()
        },
    };
    let letters = characters(digits.as_str());
    if !only_digits(&letters) {
        return None;
    }
    match number_of(&letters) {
        Some(number) => {
            if number <= u16::MAX as u128 {
                Some(number as u16)
            } else {
                None
            }
        },
        None => None,
    }
}

/// The failure of an URL.
pub open spec fn url_fault(url: Seq<char>, detail: Seq<char>) -> Seq<char> {
    "invalid http URL '"@ + url + "': "@ + detail
}

/// The authority and the request path of an URL without its scheme.
pub open spec fn url_parts(rest: Seq<char>) -> (Seq<char>, Seq<char>) {
    match split_first(rest, "/"@) {
        Some((authority, path)) => (authority, "/"@ + path),
        None => (rest, "/"@),
    }
}

/// The host, the port and the request path of a plain `http` URL.
pub open spec fn url_reading(url: Seq<char>) -> Result<(Seq<char>, u16, Seq<char>), Seq<char>> {
    match after_prefix(url, "http://"@) {
        None => if begins(url, "https://"@) {
            Err("https URLs are not supported for readiness probes; use a plain http URL"@)
        } else {
            Err(url_fault(url, "it must start with 'http://'"@))
        },
        Some(rest) => {
            let (authority, path) = url_parts(rest);
            if authority.len() == 0 || begins(authority, "["@) || holds(authority, "@"@) {
                Err(url_fault(url, "the host is missing or unsupported"@))
            } else {
                match split_last(authority, ':') {
                    None => Ok((authority, 80u16, path)),
                    Some((host, port_text)) => match port_reading(port_text) {
                        None => Err(url_fault(url, "the port must be between 1 and 65535"@)),
                        Some(port) => if port == 0 {
                            Err(url_fault(url, "the port must be between 1 and 65535"@))
                        } else if host.len() == 0 {
                            Err(url_fault(url, "the host is empty"@))
                        } else {
                            Ok((host, port, path))
                        },
                    },
                }
            }
        },
    }
}

fn url_error(url: &str, detail: &str) -> (r: String)
    ensures
        r@ == url_fault(url@, detail@),
{
    concat4("invalid http URL '", url, "': ", detail)
}

/// Parse one plain-`http` readiness URL into its connect target: host, port
/// (defaulting to 80), and request path (defaulting to `/`). Only what a raw
/// HTTP/1.0 GET can reach is accepted; anything else fails with one clear
/// reason.
pub fn parse_http_url(url: &str) -> (r: Result<(String, u16, String), String>)
    ensures
        (match r {
            Ok((host, port, path)) => Ok((host@, port, path@)),
            Err(detail) => Err(detail@),
        }) == url_reading(url@),
{
    let rest = match strip_prefix(url, "http://") {
        Some(rest) => rest,
        None => {
            return Err(
                if starts_with(url, "https://") {
                    "https URLs are not supported for readiness probes; use a plain http URL".to_owned()
                } else {
                    url_error(url, "it must start with 'http://'")
                },
            );
        },
    };
    let (authority, path) = match split_once(rest.as_str(), "/") {
        Some((authority, path)) => (authority, concat2("/", path.as_str())),
        None => (rest, "/".to_owned()),
    };
    if authority.as_str().unicode_len() == 0 || starts_with(authority.as_str(), "[") || contains(
        authority.as_str(),
        "@",
    ) {
        return Err(url_error(url, "the host is missing or unsupported"));
    }
    match rsplit_once(authority.as_str(), ':') {
        None => Ok((authority, 80, path)),
        Some((host, port_text)) => match parse_port(port_text.as_str()) {
            None => Err(url_error(url, "the port must be between 1 and 65535")),
            Some(port) => {
                if port == 0 {
                    return Err(url_error(url, "the port must be between 1 and 65535"));
                }
                if host.as_str().unicode_len() == 0 {
                    return Err(url_error(url, "the host is empty"));
                }
                Ok((host, port, path))
            },
        },
    }
}

/// Where a check stands: its Process, its block, and its place in an `all`
/// list.
#[derive(Clone, Copy)]
pub struct CheckPlace<'a> {
    pub process: &'a str,
    /// `ready` or `liveness`.
    pub block: &'a str,
    /// The place in an `all` list, counted from 1.
    pub child: Option<usize>,
}

/// Where a check stands, as mathematical values.
pub struct PlaceView {
    pub process: Seq<char>,
    pub block: Seq<char>,
    pub child: Option<usize>,
}

impl<'a> View for CheckPlace<'a> {
    type V = PlaceView;

    open spec fn view(&self) -> PlaceView {
        PlaceView { process: self.process@, block: self.block@, child: self.child }
    }
}

impl PlaceView {
    /// The failure of the whole block.
    pub open spec fn block_fault(self, detail: Seq<char>) -> Seq<char> {
        "Process '"@ + self.process + "': "@ + self.block + ": "@ + detail
    }

    /// The failure of the check.
    pub open spec fn fault(self, detail: Seq<char>) -> Seq<char> {
        self.block_fault(
            match self.child {
                Some(index) => "all child "@ + decimal_text(index as nat) + ": "@ + detail,
                None => detail,
            },
        )
    }
}

impl<'a> CheckPlace<'a> {
    fn block_error(&self, detail: &str) -> (r: ConfigError)
        ensures
            r.message@ == self@.block_fault(detail@),
    {
        ConfigError {
            message: crate::text::concat6(
                "Process '",
                self.process,
                "': ",
                self.block,
                ": ",
                detail,
            ),
        }
    }

    fn error(&self, detail: &str) -> (r: ConfigError)
        ensures
            r.message@ == self@.fault(detail@),
    {
        match self.child {
            Some(index) => {
                let shown = decimal_usize(index);
                let whole = concat4("all child ", shown.as_str(), ": ", detail);
                self.block_error(whole.as_str())
            },
            None => self.block_error(detail),
        }
    }
}

/// A duration of a block, or its default.
pub open spec fn scheduled_reading(
    place: PlaceView,
    field: Seq<char>,
    value: Option<Seq<char>>,
    default: Duration,
) -> Result<Duration, Seq<char>> {
    match value {
        None => Ok(default),
        Some(text) => match duration_reading(text) {
            Ok(duration) => Ok(duration),
            Err(detail) => Err(place.block_fault(field + ": "@ + detail)),
        },
    }
}

/// A duration of a block that is longer than nothing.
pub open spec fn positive_reading(
    place: PlaceView,
    field: Seq<char>,
    value: Option<Seq<char>>,
    default: Duration,
) -> Result<Duration, Seq<char>> {
    match scheduled_reading(place, field, value, default) {
        Err(message) => Err(message),
        Ok(duration) => if duration.seconds == 0 && duration.nanos == 0 {
            Err(place.block_fault(field + " must be greater than zero"@))
        } else {
            Ok(duration)
        },
    }
}

/// A threshold of a block.
pub open spec fn threshold_reading(
    place: PlaceView,
    field: Seq<char>,
    value: Option<u32>,
) -> Result<u32, Seq<char>> {
    let threshold = match value {
        Some(threshold) => threshold,
        None => 1u32,
    };
    if threshold == 0 {
        Err(place.block_fault(field + " must be a positive whole number"@))
    } else {
        Ok(threshold)
    }
}

/// A value or a failure as mathematical values.
pub open spec fn plain_result<T>(result: Result<T, ConfigError>) -> Result<T, Seq<char>> {
    match result {
        Ok(value) => Ok(value),
        Err(error) => Err(error.message@),
    }
}

fn duration_or_default(
    place: CheckPlace,
    field: &str,
    value: &Option<String>,
    default: Duration,
) -> (r: Result<Duration, ConfigError>)
    ensures
        plain_result(r) == scheduled_reading(place@, field@, option_view(*value), default),
{
    match value {
        None => Ok(default),
        Some(text) => match parse_duration(text.as_str()) {
            Ok(duration) => Ok(duration),
            Err(detail) => {
                let whole = concat3(field, ": ", detail.as_str());
                Err(place.block_error(whole.as_str()))
            },
        },
    }
}

fn positive_duration(
    place: CheckPlace,
    field: &str,
    value: &Option<String>,
    default: Duration,
) -> (r: Result<Duration, ConfigError>)
    ensures
        plain_result(r) == positive_reading(place@, field@, option_view(*value), default),
{
    match duration_or_default(place, field, value, default) {
        Err(error) => Err(error),
        Ok(duration) => {
            if duration.is_zero() {
                let whole = concat2(field, " must be greater than zero");
                return Err(place.block_error(whole.as_str()));
            }
            Ok(duration)
        },
    }
}

fn configured_threshold(place: CheckPlace, field: &str, value: Option<u32>) -> (r: Result<
    u32,
    ConfigError,
>)
    ensures
        plain_result(r) == threshold_reading(place@, field@, value),
{
    let threshold: u32 = match value {
        Some(threshold) => threshold,
        None => 1,
    };
    if threshold == 0 {
        let whole = concat2(field, " must be a positive whole number");
        return Err(place.block_error(whole.as_str()));
    }
    Ok(threshold)
}

/// The working directory of an exec check.
pub open spec fn exec_directory(
    place: PlaceView,
    cwd: Option<Seq<char>>,
    base: Seq<char>,
    facts: FileFacts,
) -> Result<Option<Seq<char>>, Seq<char>> {
    match cwd {
        None => Ok(None),
        Some(directory) => {
            let path = resolved(base, directory);
            if facts.known_directory(path) {
                Ok(Some(path))
            } else {
                Err(place.fault("exec working directory '"@ + path + "' does not exist"@))
            }
        },
    }
}

/// The probe of an exec check.
pub open spec fn exec_reading(
    place: PlaceView,
    file: ExecFile,
    base: Seq<char>,
    facts: FileFacts,
) -> Result<ProbeView, Seq<char>> {
    if file.command is None && file.shell is None {
        Err(place.fault("exec requires a 'command' mapping"@))
    } else {
        match command_reading(items_option(file.command), option_view(file.shell)) {
            Err(detail) => Err(place.fault(detail)),
            Ok(command) => match resolved_command(command, base, "exec"@, facts) {
                Err(detail) => Err(place.fault(detail)),
                Ok(command) => match exec_directory(place, option_view(file.cwd), base, facts) {
                    Err(message) => Err(message),
                    Ok(working_dir) => match exit_codes_reading(
                        codes_option(file.success_exit_codes),
                    ) {
                        Err(detail) => Err(place.fault(detail)),
                        Ok(success_exit_codes) => Ok(
                            ProbeView::Exec {
                                command,
                                working_dir,
                                env: pairs(file.environment@),
                                success_exit_codes,
                            },
                        ),
                    },
                },
            },
        }
    }
}

/// A probe or a failure as mathematical values.
pub open spec fn probe_result(result: Result<ReadinessProbe, ConfigError>) -> Result<
    ProbeView,
    Seq<char>,
> {
    match result {
        Ok(probe) => Ok(probe@),
        Err(error) => Err(error.message@),
    }
}

fn build_exec_probe(place: CheckPlace, file: &ExecFile, base_dir: &str, facts: &FileFacts) -> (r:
    Result<ReadinessProbe, ConfigError>)
    ensures
        probe_result(r) == exec_reading(place@, *file, base_dir@, *facts),
{
    if file.command.is_none() && file.shell.is_none() {
        return Err(place.error("exec requires a 'command' mapping"));
    }
    let command = match build_command_form(&file.command, &file.shell) {
        Ok(command) => command,
        Err(detail) => {
            return Err(place.error(detail.as_str()));
        },
    };
    let command = match resolve_direct_program(command, base_dir, "exec", facts) {
        Ok(command) => command,
        Err(detail) => {
            return Err(place.error(detail.as_str()));
        },
    };
    let working_dir = match &file.cwd {
        None => None,
        Some(directory) => {
            let path = resolve(base_dir, directory.as_str());
            if !facts.is_dir(path.as_str()) {
                let whole = concat3(
                    "exec working directory '",
                    path.as_str(),
                    "' does not exist",
                );
                return Err(place.error(whole.as_str()));
            }
            Some(path)
        },
    };
    let success_exit_codes = match build_success_exit_codes(&file.success_exit_codes) {
        Ok(codes) => codes,
        Err(detail) => {
            return Err(place.error(detail.as_str()));
        },
    };
    Ok(
        ReadinessProbe::Exec {
            command,
            working_dir,
            env: duplicate_pairs(&file.environment),
            success_exit_codes,
        },
    )
}

/// The probe of a leaf check.
pub open spec fn leaf_probe(
    place: PlaceView,
    file: ReadinessFile,
    base: Seq<char>,
    facts: FileFacts,
) -> Result<ProbeView, Seq<char>> {
    match (file.tcp, file.http, file.exec_check, file.log) {
        (Some(tcp), None, None, None) => if tcp.host@.len() == 0 {
            Err(place.fault("tcp host must not be empty"@))
        } else if tcp.port == 0 {
            Err(place.fault("tcp port must be between 1 and 65535"@))
        } else {
            Ok(ProbeView::Tcp { host: tcp.host@, port: tcp.port })
        },
        (None, Some(http), None, None) => match url_reading(http.url@) {
            Ok((host, port, path)) => Ok(ProbeView::Http { host, port, path }),
            Err(detail) => Err(place.fault(detail)),
        },
        (None, None, Some(exec_check), None) => exec_reading(place, exec_check, base, facts),
        (None, None, None, Some(log)) => if log.contains@.len() == 0 {
            Err(place.fault("log contains must not be empty"@))
        } else {
            Ok(ProbeView::Log { contains: log.contains@ })
        },
        _ => Err(place.fault("define exactly one of 'tcp', 'http', 'exec', or 'log'"@)),
    }
}

fn build_probe(place: CheckPlace, file: &ReadinessFile, base_dir: &str, facts: &FileFacts) -> (r:
    Result<ReadinessProbe, ConfigError>)
    ensures
        probe_result(r) == leaf_probe(place@, *file, base_dir@, *facts),
{
    match (&file.tcp, &file.http, &file.exec_check, &file.log) {
        (Some(tcp), None, None, None) => {
            if tcp.host.as_str().unicode_len() == 0 {
                return Err(place.error("tcp host must not be empty"));
            }
            if tcp.port == 0 {
                return Err(place.error("tcp port must be between 1 and 65535"));
            }
            Ok(ReadinessProbe::Tcp { host: tcp.host.clone(), port: tcp.port })
        },
        (None, Some(http), None, None) => match parse_http_url(http.url.as_str()) {
            Ok((host, port, path)) => Ok(ReadinessProbe::Http { host, port, path }),
            Err(detail) => Err(place.error(detail.as_str())),
        },
        (None, None, Some(exec_check), None) => build_exec_probe(
            place,
            exec_check,
            base_dir,
            facts,
        ),
        (None, None, None, Some(log)) => {
            if log.contains.as_str().unicode_len() == 0 {
                return Err(place.error("log contains must not be empty"));
            }
            Ok(ReadinessProbe::Log { contains: log.contains.clone() })
        },
        _ => Err(place.error("define exactly one of 'tcp', 'http', 'exec', or 'log'")),
    }
}

/// Why a block cannot be a leaf check.
pub open spec fn leaf_form_fault(place: PlaceView, file: ReadinessFile) -> Option<Seq<char>> {
    if file.all is Some {
        Some(place.fault("nested 'all' readiness checks are not supported"@))
    } else if file.any {
        Some(place.fault("the 'any' readiness form is not supported"@))
    } else if place.child is Some && file.startup_timeout is Some {
        Some(place.fault("startup_timeout is valid only on the parent 'ready' block"@))
    } else {
        None
    }
}

/// The schedule of a leaf check around its probe.
pub open spec fn leaf_schedule(place: PlaceView, file: ReadinessFile, probe: ProbeView) -> Result<
    CheckView,
    Seq<char>,
> {
    let second = Duration { seconds: 1, nanos: 0 };
    let two_seconds = Duration { seconds: 2, nanos: 0 };
    let none = Duration { seconds: 0, nanos: 0 };
    match scheduled_reading(place, "initial_delay"@, option_view(file.initial_delay), none) {
        Err(message) => Err(message),
        Ok(initial_delay) => match positive_reading(
            place,
            "interval"@,
            option_view(file.interval),
            second,
        ) {
            Err(message) => Err(message),
            Ok(interval) => match positive_reading(
                place,
                "timeout"@,
                option_view(file.timeout),
                two_seconds,
            ) {
                Err(message) => Err(message),
                Ok(timeout) => match threshold_reading(
                    place,
                    "success_threshold"@,
                    file.success_threshold,
                ) {
                    Err(message) => Err(message),
                    Ok(success_threshold) => match threshold_reading(
                        place,
                        "failure_threshold"@,
                        file.failure_threshold,
                    ) {
                        Err(message) => Err(message),
                        Ok(failure_threshold) => Ok(
                            CheckView {
                                probe,
                                initial_delay,
                                interval,
                                timeout,
                                success_threshold,
                                failure_threshold,
                            },
                        ),
                    },
                },
            },
        },
    }
}

/// One leaf check.
pub open spec fn leaf_reading(
    place: PlaceView,
    file: ReadinessFile,
    base: Seq<char>,
    facts: FileFacts,
) -> Result<CheckView, Seq<char>> {
    match leaf_form_fault(place, file) {
        Some(message) => Err(message),
        None => match leaf_probe(place, file, base, facts) {
            Err(message) => Err(message),
            Ok(probe) => leaf_schedule(place, file, probe),
        },
    }
}

/// A check or a failure as mathematical values.
pub open spec fn check_result(result: Result<ReadinessCheck, ConfigError>) -> Result<
    CheckView,
    Seq<char>,
> {
    match result {
        Ok(check) => Ok(check@),
        Err(error) => Err(error.message@),
    }
}

/// One leaf check.
pub fn build_leaf(place: CheckPlace, file: &ReadinessFile, base_dir: &str, facts: &FileFacts) -> (r:
    Result<ReadinessCheck, ConfigError>)
    ensures
        check_result(r) == leaf_reading(place@, *file, base_dir@, *facts),
{
    if file.all.is_some() {
        return Err(place.error("nested 'all' readiness checks are not supported"));
    }
    if file.any {
        return Err(place.error("the 'any' readiness form is not supported"));
    }
    if place.child.is_some() && file.startup_timeout.is_some() {
        return Err(place.error("startup_timeout is valid only on the parent 'ready' block"));
    }
    let probe = match build_probe(place, file, base_dir, facts) {
        Ok(probe) => probe,
        Err(error) => {
            return Err(error);
        },
    };
    let initial_delay = match duration_or_default(
        place,
        "initial_delay",
        &file.initial_delay,
        Duration { seconds: 0, nanos: 0 },
    ) {
        Ok(duration) => duration,
        Err(error) => {
            return Err(error);
        },
    };
    let interval = match positive_duration(
        place,
        "interval",
        &file.interval,
        Duration { seconds: 1, nanos: 0 },
    ) {
        Ok(duration) => duration,
        Err(error) => {
            return Err(error);
        },
    };
    let timeout = match positive_duration(
        place,
        "timeout",
        &file.timeout,
        Duration { seconds: 2, nanos: 0 },
    ) {
        Ok(duration) => duration,
        Err(error) => {
            return Err(error);
        },
    };
    let success_threshold: u32 = match configured_threshold(
        place,
        "success_threshold",
        file.success_threshold,
    ) {
        Ok(threshold) => threshold,
        Err(error) => {
            return Err(error);
        },
    };
    let failure_threshold: u32 = match configured_threshold(
        place,
        "failure_threshold",
        file.failure_threshold,
    ) {
        Ok(threshold) => threshold,
        Err(error) => {
            return Err(error);
        },
    };
    Ok(
        ReadinessCheck {
            probe,
            initial_delay,
            interval,
            timeout,
            success_threshold,
            failure_threshold,
        },
    )
}

/// The children of an `all` list from `from` on.
pub open spec fn children_reading(
    place: PlaceView,
    children: Seq<ReadinessFile>,
    from: int,
    base: Seq<char>,
    facts: FileFacts,
) -> Result<Seq<CheckView>, Seq<char>>
    decreases from,
{
    if from <= 0 || from > children.len() {
        Ok(Seq::empty())
    } else {
        match children_reading(place, children, from - 1, base, facts) {
            Err(message) => Err(message),
            Ok(before) => match leaf_reading(
                PlaceView { child: Some(from as usize), ..place },
                children[from - 1],
                base,
                facts,
            ) {
                Err(message) => Err(message),
                Ok(check) => Ok(before.push(check)),
            },
        }
    }
}

/// Whether a block has scheduling fields.
pub open spec fn has_schedule(file: ReadinessFile) -> bool {
    file.initial_delay is Some || file.interval is Some || file.timeout is Some
        || file.success_threshold is Some || file.failure_threshold is Some
}

/// Whether a block has a check of its own.
pub open spec fn has_probe(file: ReadinessFile) -> bool {
    file.tcp is Some || file.http is Some || file.exec_check is Some || file.log is Some
}

/// The checks of a block.
pub open spec fn checks_reading(
    place: PlaceView,
    file: ReadinessFile,
    base: Seq<char>,
    facts: FileFacts,
) -> Result<Seq<CheckView>, Seq<char>> {
    match file.all {
        None => match leaf_reading(place, file, base, facts) {
            Err(message) => Err(message),
            Ok(check) => Ok(seq![check]),
        },
        Some(children) => if has_probe(file) {
            Err(
                place.block_fault(
                    "define exactly one of 'tcp', 'http', 'exec', 'log', or 'all'"@,
                ),
            )
        } else if has_schedule(file) {
            Err(
                place.block_fault(
                    "an 'all' readiness check sets scheduling fields on each child, not on the parent"@,
                ),
            )
        } else if children@.len() < 2 {
            Err(place.block_fault("'all' must contain at least two child checks"@))
        } else {
            children_reading(place, children@, children@.len() as int, base, facts)
        },
    }
}

/// Checks or a failure as mathematical values.
pub open spec fn checks_result(result: Result<Vec<ReadinessCheck>, ConfigError>) -> Result<
    Seq<CheckView>,
    Seq<char>,
> {
    match result {
        Ok(checks) => Ok(check_views(checks@)),
        Err(error) => Err(error.message@),
    }
}

/// A failure among the first children is the failure of the list.
proof fn early_failure(
    place: PlaceView,
    children: Seq<ReadinessFile>,
    at: int,
    end: int,
    base: Seq<char>,
    facts: FileFacts,
)
    requires
        0 < at <= end <= children.len(),
        children_reading(place, children, at, base, facts) is Err,
    ensures
        children_reading(place, children, end, base, facts) == children_reading(
            place,
            children,
            at,
            base,
            facts,
        ),
    decreases end - at,
{
    if at < end {
        early_failure(place, children, at, end - 1, base, facts);
    }
}

fn build_children(
    place: CheckPlace,
    children: &Vec<ReadinessFile>,
    base_dir: &str,
    facts: &FileFacts,
) -> (r: Result<Vec<ReadinessCheck>, ConfigError>)
    ensures
        checks_result(r) == children_reading(
            place@,
            children@,
            children@.len() as int,
            base_dir@,
            *facts,
        ),
{
    let mut checks: Vec<ReadinessCheck> = Vec::new();
    let mut index: usize = 0;
    proof {
        assert(check_views(checks@) =~= Seq::<CheckView>::empty());
    }
    while index < children.len()
        invariant
            index <= children.len(),
            children_reading(place@, children@, index as int, base_dir@, *facts) == Ok::<
                Seq<CheckView>,
                Seq<char>,
            >(check_views(checks@)),
        decreases children.len() - index,
    {
        let ghost before = check_views(checks@);
        let here = CheckPlace {
            process: place.process,
            block: place.block,
            child: Some(index + 1),
        };
        match build_leaf(here, &children[index], base_dir, facts) {
            Ok(check) => {
                let ghost view = check@;
                checks.push(check);
                proof {
                    assert(check_views(checks@) =~= before.push(view));
                }
            },
            Err(error) => {
                proof {
                    early_failure(
                        place@,
                        children@,
                        index + 1,
                        children@.len() as int,
                        base_dir@,
                        *facts,
                    );
                }
                return Err(error);
            },
        }
        index = index + 1;
    }
    Ok(checks)
}

fn build_checks(place: CheckPlace, file: &ReadinessFile, base_dir: &str, facts: &FileFacts) -> (r:
    Result<Vec<ReadinessCheck>, ConfigError>)
    ensures
        checks_result(r) == checks_reading(place@, *file, base_dir@, *facts),
{
    match &file.all {
        None => match build_leaf(place, file, base_dir, facts) {
            Ok(check) => {
                let ghost view = check@;
                let mut checks: Vec<ReadinessCheck> = Vec::new();
                checks.push(check);
                proof {
                    assert(check_views(checks@) =~= seq![view]);
                }
                Ok(checks)
            },
            Err(error) => Err(error),
        },
        Some(children) => {
            if file.tcp.is_some() || file.http.is_some() || file.exec_check.is_some()
                || file.log.is_some() {
                return Err(
                    place.block_error(
                        "define exactly one of 'tcp', 'http', 'exec', 'log', or 'all'",
                    ),
                );
            }
            if file.initial_delay.is_some() || file.interval.is_some() || file.timeout.is_some()
                || file.success_threshold.is_some() || file.failure_threshold.is_some() {
                return Err(
                    place.block_error(
                        "an 'all' readiness check sets scheduling fields on each child, not on the parent",
                    ),
                );
            }
            if children.len() < 2 {
                return Err(place.block_error("'all' must contain at least two child checks"));
            }
            build_children(place, children, base_dir, facts)
        },
    }
}

/// The readiness policy of a Process.
pub open spec fn readiness_reading(
    place: PlaceView,
    file: ReadinessFile,
    base: Seq<char>,
    facts: FileFacts,
) -> Result<ReadinessView, Seq<char>> {
    if file.any {
        Err(
            place.block_fault(
                "the 'any' readiness form is not supported; use 'all' or one leaf check"@,
            ),
        )
    } else {
        match positive_reading(
            place,
            "startup_timeout"@,
            option_view(file.startup_timeout),
            Duration { seconds: 1, nanos: 0 },
        ) {
            Err(message) => Err(message),
            Ok(timeout) => match checks_reading(place, file, base, facts) {
                Err(message) => Err(message),
                Ok(checks) => Ok(
                    ReadinessView {
                        checks,
                        startup_timeout: if file.startup_timeout is Some {
                            Some(timeout)
                        } else {
                            None
                        },
                    },
                ),
            },
        }
    }
}

/// One `ready` block: one leaf check or an `all` list with independent
/// scheduling for every child.
pub fn build_readiness(process_name: &str, file: &ReadinessFile, base_dir: &str, facts: &FileFacts)
    -> (r: Result<ReadinessConfig, ConfigError>)
    ensures
        (match r {
            Ok(readiness) => Ok(readiness@),
            Err(error) => Err(error.message@),
        }) == readiness_reading(
            (PlaceView { process: process_name@, block: "ready"@, child: None }),
            *file,
            base_dir@,
            *facts,
        ),
{
    let place = CheckPlace { process: process_name, block: "ready", child: None };
    if file.any {
        return Err(
            place.block_error(
                "the 'any' readiness form is not supported; use 'all' or one leaf check",
            ),
        );
    }
    let timeout = match positive_duration(
        place,
        "startup_timeout",
        &file.startup_timeout,
        Duration { seconds: 1, nanos: 0 },
    ) {
        Ok(timeout) => timeout,
        Err(error) => {
            return Err(error);
        },
    };
    let checks = match build_checks(place, file, base_dir, facts) {
        Ok(checks) => checks,
        Err(error) => {
            return Err(error);
        },
    };
    let startup_timeout = if file.startup_timeout.is_some() {
        Some(timeout)
    } else {
        None
    };
    Ok(ReadinessConfig { checks, startup_timeout })
}

/// The liveness policy of a Process.
pub open spec fn liveness_reading(
    place: PlaceView,
    file: ReadinessFile,
    base: Seq<char>,
    facts: FileFacts,
) -> Result<Seq<CheckView>, Seq<char>> {
    if file.any {
        Err(
            place.block_fault(
                "the 'any' readiness form is not supported; use 'all' or one leaf check"@,
            ),
        )
    } else if file.startup_timeout is Some {
        Err(place.block_fault("startup_timeout is valid only on the parent 'ready' block"@))
    } else {
        checks_reading(place, file, base, facts)
    }
}

/// One `liveness` block. It has the checks of a `ready` block and no startup
/// deadline.
pub fn build_liveness(process_name: &str, file: &ReadinessFile, base_dir: &str, facts: &FileFacts)
    -> (r: Result<LivenessConfig, ConfigError>)
    ensures
        (match r {
            Ok(liveness) => Ok(liveness@),
            Err(error) => Err(error.message@),
        }) == liveness_reading(
            (PlaceView { process: process_name@, block: "liveness"@, child: None }),
            *file,
            base_dir@,
            *facts,
        ),
{
    let place = CheckPlace { process: process_name, block: "liveness", child: None };
    if file.any {
        return Err(
            place.block_error(
                "the 'any' readiness form is not supported; use 'all' or one leaf check",
            ),
        );
    }
    if file.startup_timeout.is_some() {
        return Err(
            place.block_error("startup_timeout is valid only on the parent 'ready' block"),
        );
    }
    match build_checks(place, file, base_dir, facts) {
        Ok(checks) => Ok(LivenessConfig { checks }),
        Err(error) => Err(error),
    }
}

} // verus!
