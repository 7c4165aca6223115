//! Diagnostics for documents that do not fit the schema.

use vstd::prelude::*;

use super::error::ConfigError;
use crate::scan::{contains, ends_with, split_once, starts_with, strip_prefix};
use crate::text::{concat3, concat4, decimal_usize};

#[allow(unused_imports)]
use crate::scan::{after_prefix, begins, ends, holds, option_view, split_first};
#[allow(unused_imports)]
use crate::text::decimal_text;

verus! {

/// What a YAML reader says of a document that it refuses.
#[derive(Clone, Debug, PartialEq, Eq)]
pub struct YamlFault {
    pub message: String,
    /// The line and the column, where they are known.
    pub location: Option<(usize, usize)>,
}

/// What a YAML reader says of a document, as mathematical values.
pub struct FaultView {
    pub message: Seq<char>,
    pub location: Option<(usize, usize)>,
}

impl View for YamlFault {
    type V = FaultView;

    open spec fn view(&self) -> FaultView {
        FaultView { message: self.message@, location: self.location }
    }
}

/// A failure with the configuration layer that produced it.
pub open spec fn sourced(message: Seq<char>, source: Seq<char>) -> Seq<char> {
    message + " (source: "@ + source + ")"@
}

/// Add the configuration layer that produced a later validation failure.
pub fn with_source(error: ConfigError, source: &str) -> (r: ConfigError)
    ensures
        r.message@ == sourced(error.message@, source@),
{
    ConfigError { message: concat4(error.message.as_str(), " (source: ", source, ")") }
}

/// What a Process name that occurs twice is called.
pub open spec fn duplicate_hint(detail: Seq<char>) -> Option<Seq<char>> {
    if !holds(detail, "duplicate entry with key"@) || !(begins(detail, "processes:"@) || holds(
        detail,
        ".overrides:"@,
    )) {
        None
    } else {
        match split_first(detail, "key \""@) {
            None => None,
            Some((_, rest)) => match split_first(rest, "\""@) {
                None => None,
                Some((name, _)) => Some("duplicate Process name '"@ + name + "'"@),
            },
        }
    }
}

/// The place that an unknown field was found at.
pub open spec fn field_place(detail: Seq<char>) -> Seq<char> {
    match split_first(detail, ": unknown field"@) {
        Some((place, _)) => place,
        None => ""@,
    }
}

/// Whether a place is one Process.
pub open spec fn process_place(place: Seq<char>) -> bool {
    match after_prefix(place, "processes."@) {
        Some(name) => !holds(name, "."@),
        None => false,
    }
}

/// Whether a place is one exec check.
pub open spec fn exec_place(place: Seq<char>) -> bool {
    ends(place, ".ready.exec"@) || ends(place, ".liveness.exec"@)
}

/// What to write in place of a field that is not part of the schema.
pub open spec fn replacement_hint(detail: Seq<char>) -> Option<Seq<char>> {
    let process = process_place(field_place(detail));
    let exec = exec_place(field_place(detail));
    if holds(detail, "unknown field `readiness`"@) {
        Some("use `ready` instead"@)
    } else if holds(detail, "unknown field `interval_ms`"@) {
        Some("use `interval` instead"@)
    } else if holds(detail, "unknown field `timeout_ms`"@) {
        Some("use `timeout` instead"@)
    } else if holds(detail, "unknown field `working_dir`"@) && (process || exec) {
        Some("use `cwd` instead"@)
    } else if holds(detail, "unknown field `env`"@) && (process || exec) {
        Some("use `environment` instead"@)
    } else if holds(detail, "unknown field `input`"@) && process {
        Some("put `input` under the `terminal` mapping instead"@)
    } else if holds(detail, "unknown field `name`"@) && process {
        Some("put the Process name in the `processes` map key instead"@)
    } else {
        None
    }
}

/// What a reader said, in the words of the schema.
pub open spec fn hinted(message: Seq<char>) -> Seq<char> {
    let detail = match duplicate_hint(message) {
        Some(hint) => hint,
        None => message,
    };
    match replacement_hint(detail) {
        Some(hint) => detail + "; "@ + hint,
        None => detail,
    }
}

/// A refused document, with the place where it is known.
pub open spec fn fault_text(source: Seq<char>, fault: FaultView, located: bool) -> Seq<char> {
    match (located, fault.location) {
        (true, Some((line, column))) => source + " at line "@ + decimal_text(line as nat)
            + ", column "@ + decimal_text(column as nat) + ": "@ + hinted(fault.message),
        _ => source + ": "@ + hinted(fault.message),
    }
}

/// The text for a refused base document.
pub open spec fn base_fault(path: Seq<char>, fault: FaultView) -> Seq<char> {
    fault_text("invalid configuration '"@ + path + "'"@, fault, true)
}

/// The text for a refused document after layers were merged.
pub open spec fn merged_fault(path: Seq<char>, layer: Seq<char>, fault: FaultView) -> Seq<char> {
    fault_text(
        "invalid merged Project after "@ + layer + " (base Project '"@ + path + "')"@,
        fault,
        false,
    )
}

/// The text for a refused local override.
pub open spec fn local_fault(path: Seq<char>, fault: FaultView) -> Seq<char> {
    fault_text("invalid local override '"@ + path + "'"@, fault, true)
}

/// The message for a Project file that cannot be read.
pub fn format_yaml_error(path: &str, fault: &YamlFault) -> (r: String)
    ensures
        r@ == base_fault(path@, fault@),
{
    let source = concat3("invalid configuration '", path, "'");
    format_yaml_error_for_source(fault, source.as_str(), true)
}

/// The message for a Project that cannot be read once a layer was merged.
pub fn format_merged_yaml_error(path: &str, layer: &str, fault: &YamlFault) -> (r: String)
    ensures
        r@ == merged_fault(path@, layer@, fault@),
{
    let source = crate::text::concat5(
        "invalid merged Project after ",
        layer,
        " (base Project '",
        path,
        "')",
    );
    format_yaml_error_for_source(fault, source.as_str(), false)
}

/// The message for a local override that cannot be read.
pub fn format_local_yaml_error(path: &str, fault: &YamlFault) -> (r: String)
    ensures
        r@ == local_fault(path@, fault@),
{
    let source = concat3("invalid local override '", path, "'");
    format_yaml_error_for_source(fault, source.as_str(), true)
}

fn format_yaml_error_for_source(fault: &YamlFault, source: &str, located: bool) -> (r: String)
    ensures
        r@ == fault_text(source@, fault@, located),
{
    let detail = match yaml_duplicate_hint(fault.message.as_str()) {
        Some(hint) => hint,
        None => fault.message.clone(),
    };
    let detail = match yaml_replacement_hint(detail.as_str()) {
        Some(hint) => concat3(detail.as_str(), "; ", hint),
        None => detail,
    };
    if located {
        if let Some((line, column)) = fault.location {
            let line_text = decimal_usize(line);
            let column_text = decimal_usize(column);
            return crate::text::concat7(
                source,
                " at line ",
                line_text.as_str(),
                ", column ",
                column_text.as_str(),
                ": ",
                detail.as_str(),
            );
        }
    }
    concat3(source, ": ", detail.as_str())
}

/// What a Process name that occurs twice is called.
pub fn yaml_duplicate_hint(detail: &str) -> (r: Option<String>)
    ensures
        option_view(r) == duplicate_hint(detail@),
{
    if !contains(detail, "duplicate entry with key") || !(starts_with(detail, "processes:")
        || contains(detail, ".overrides:")) {
        return None;
    }
    match split_once(detail, "key \"") {
        None => None,
        Some((_, rest)) => match split_once(rest.as_str(), "\"") {
            None => None,
            Some((name, _)) => Some(concat3("duplicate Process name '", name.as_str(), "'")),
        },
    }
}

/// What to write in place of a field that is not part of the schema.
pub fn yaml_replacement_hint(detail: &str) -> (r: Option<&'static str>)
    ensures
        (match r {
            Some(hint) => Some(hint@),
            None => None,
        }) == replacement_hint(detail@),
{
    let place = match split_once(detail, ": unknown field") {
        Some((place, _)) => place,
        None => "".to_owned(),
    };
    let process_fields = match strip_prefix(place.as_str(), "processes.") {
        Some(name) => !contains(name.as_str(), "."),
        None => false,
    };
    let exec_fields = ends_with(place.as_str(), ".ready.exec") || ends_with(
        place.as_str(),
        ".liveness.exec",
    );
    if contains(detail, "unknown field `readiness`") {
        Some("use `ready` instead")
    } else if contains(detail, "unknown field `interval_ms`") {
        Some("use `interval` instead")
    } else if contains(detail, "unknown field `timeout_ms`") {
        Some("use `timeout` instead")
    } else if contains(detail, "unknown field `working_dir`") && (process_fields || exec_fields) {
        Some("use `cwd` instead")
    } else if contains(detail, "unknown field `env`") && (process_fields || exec_fields) {
        Some("use `environment` instead")
    } else if contains(detail, "unknown field `input`") && process_fields {
        Some("put `input` under the `terminal` mapping instead")
    } else if contains(detail, "unknown field `name`") && process_fields {
        Some("put the Process name in the `processes` map key instead")
    } else {
        None
    }
}

} // verus!
