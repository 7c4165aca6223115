//! The configuration layers of one Project: the base file and, where there is
//! one, the local override beside it.

use vstd::prelude::*;

use super::diagnostics::{
    format_local_yaml_error, format_merged_yaml_error, format_yaml_error, with_source, YamlFault,
};
use super::document::{parse_yaml, read_unsigned, write_yaml};
use super::error::ConfigError;
use super::profile::apply_local_override;
use super::shapes::{validate_process_overrides, validate_shapes};
use crate::text::{concat2, concat3, concat4, decimal_u64};
use crate::yaml::Yaml;

#[allow(unused_imports)]
use super::diagnostics::{base_fault, local_fault, merged_fault, sourced, FaultView};
#[allow(unused_imports)]
use super::document::{parsed_yaml, unsigned_reading, written_yaml};
#[allow(unused_imports)]
use super::profile::overridden;
#[allow(unused_imports)]
use super::shapes::{overrides_fault, shapes_fault};
#[allow(unused_imports)]
use crate::text::decimal_text;
#[allow(unused_imports)]
use crate::yaml::Tree;

verus! {

/// The document of a Project once its layers were laid over each other.
#[derive(Debug)]
pub struct Document {
    /// The path of the base file.
    pub path: String,
    /// The text to read into typed form.
    pub text: String,
    pub tree: Yaml,
    /// The last layer, as diagnostics call it.
    pub layer: String,
    /// Whether a local override was applied.
    pub merged: bool,
}

/// A document as mathematical values.
pub struct DocumentView {
    pub path: Seq<char>,
    pub text: Seq<char>,
    pub tree: Tree,
    pub layer: Seq<char>,
    pub merged: bool,
}

impl View for Document {
    type V = DocumentView;

    open spec fn view(&self) -> DocumentView {
        DocumentView {
            path: self.path@,
            text: self.text@,
            tree: self.tree@,
            layer: self.layer@,
            merged: self.merged,
        }
    }
}

/// What diagnostics call the base file.
pub open spec fn base_layer(path: Seq<char>) -> Seq<char> {
    "base Project '"@ + path + "'"@
}

/// What diagnostics call a local override.
pub open spec fn local_layer(path: Seq<char>) -> Seq<char> {
    "local override '"@ + path + "'"@
}

/// The schema version of a document.
pub open spec fn version_reading(document: Tree) -> Result<u64, Seq<char>> {
    if document.as_mapping() is None {
        Err("configuration must be a mapping"@)
    } else {
        match document.field("version"@) {
            None => Err("configuration must define a numeric version"@),
            Some(version) => match unsigned_reading(version) {
                Ok(number) => Ok(number),
                Err(detail) => Err(
                    "configuration version must be an unsigned integer: "@ + detail,
                ),
            },
        }
    }
}

/// Why a parsed base document cannot be used.
pub open spec fn base_document_fault(document: Tree, layer: Seq<char>) -> Option<Seq<char>> {
    match version_reading(document) {
        Err(detail) => Some(sourced(detail, layer)),
        Ok(version) => if version != 1 {
            Some(
                sourced(
                    "unsupported schema version "@ + decimal_text(version as nat)
                        + ": this Stackhand reads version 1"@,
                    layer,
                ),
            )
        } else {
            shapes_fault(document, layer)
        },
    }
}

/// The tree of a base document.
pub open spec fn base_reading(path: Seq<char>, text: Seq<char>) -> Result<Tree, Seq<char>> {
    match parsed_yaml(text) {
        Err(fault) => Err(base_fault(path, fault)),
        Ok(document) => match base_document_fault(document, base_layer(path)) {
            Some(message) => Err(message),
            None => Ok(document),
        },
    }
}

/// The schema version of a document.
pub fn read_version(document: &Yaml) -> (r: Result<u64, ConfigError>)
    ensures
        super::readiness::plain_result(r) == version_reading(document@),
{
    if document.as_mapping().is_none() {
        return Err(ConfigError { message: "configuration must be a mapping".to_owned() });
    }
    match document.field("version") {
        None => Err(
            ConfigError { message: "configuration must define a numeric version".to_owned() },
        ),
        Some(version) => match read_unsigned(version) {
            Ok(number) => Ok(number),
            Err(detail) => Err(
                ConfigError {
                    message: concat2(
                        "configuration version must be an unsigned integer: ",
                        detail.as_str(),
                    ),
                },
            ),
        },
    }
}

/// Check a parsed base document.
pub fn check_base(document: &Yaml, layer: &str) -> (r: Result<(), ConfigError>)
    ensures
        super::shapes::fault_of(r) == base_document_fault(document@, layer@),
{
    let version: u64 = match read_version(document) {
        Ok(version) => version,
        Err(error) => {
            return Err(with_source(error, layer));
        },
    };
    if version != 1 {
        let shown = decimal_u64(version);
        let error = ConfigError {
            message: concat3(
                "unsupported schema version ",
                shown.as_str(),
                ": this Stackhand reads version 1",
            ),
        };
        return Err(with_source(error, layer));
    }
    validate_shapes(document, layer)
}

/// Read the base file of a Project.
pub fn read_base(path: &str, text: &str) -> (r: Result<Document, ConfigError>)
    ensures
        match r {
            Ok(document) => {
                &&& base_reading(path@, text@) == Ok::<Tree, Seq<char>>(document.tree@)
                &&& document.path@ == path@
                &&& document.text@ == text@
                &&& document.layer@ == base_layer(path@)
                &&& !document.merged
            },
            Err(error) => base_reading(path@, text@) == Err::<Tree, Seq<char>>(error.message@),
        },
{
    let layer = concat3("base Project '", path, "'");
    let tree = match parse_yaml(text) {
        Ok(tree) => tree,
        Err(fault) => {
            return Err(ConfigError { message: format_yaml_error(path, &fault) });
        },
    };
    if let Err(error) = check_base(&tree, layer.as_str()) {
        return Err(error);
    }
    Ok(
        Document {
            path: path.to_owned(),
            text: text.to_owned(),
            tree,
            layer,
            merged: false,
        },
    )
}

/// The tree of a document once a parsed local override was laid over it.
pub open spec fn local_document(base: Tree, local: Tree, layer: Seq<char>) -> Result<
    Tree,
    Seq<char>,
> {
    let overrides = match local.field("processes"@) {
        Some(processes) => overrides_fault(processes, layer),
        None => None,
    };
    match overrides {
        Some(message) => Err(message),
        None => match super::profile::local_fault(local) {
            Some(detail) => Err(sourced(detail, layer)),
            None => match shapes_fault(overridden(base, local), layer) {
                Some(message) => Err(message),
                None => Ok(overridden(base, local)),
            },
        },
    }
}

/// The tree and the text of a document once a local override was laid over it.
pub open spec fn local_reading(base: Tree, path: Seq<char>, text: Seq<char>) -> Result<
    (Tree, Seq<char>),
    Seq<char>,
> {
    match parsed_yaml(text) {
        Err(fault) => Err(local_fault(path, fault)),
        Ok(local) => match local_document(base, local, local_layer(path)) {
            Err(message) => Err(message),
            Ok(tree) => match written_yaml(tree) {
                Ok(written) => Ok((tree, written)),
                Err(detail) => Err(
                    sourced("could not serialize effective YAML: "@ + detail, local_layer(path)),
                ),
            },
        },
    }
}

/// Lay a parsed local override over a document.
pub fn merge_local(base: &Yaml, local: &Yaml, layer: &str) -> (r: Result<Yaml, ConfigError>)
    ensures
        (match r {
            Ok(tree) => Ok(tree@),
            Err(error) => Err(error.message@),
        }) == local_document(base@, local@, layer@),
{
    if let Some(processes) = local.field("processes") {
        if let Err(error) = validate_process_overrides(processes, layer) {
            return Err(error);
        }
    }
    let tree = match apply_local_override(base, local) {
        Ok(tree) => tree,
        Err(error) => {
            return Err(with_source(error, layer));
        },
    };
    if let Err(error) = validate_shapes(&tree, layer) {
        return Err(error);
    }
    Ok(tree)
}

/// Lay the local override beside the base file over it.
pub fn apply_local(document: Document, local_path: &str, local_text: &str) -> (r: Result<
    Document,
    ConfigError,
>)
    ensures
        match r {
            Ok(merged) => {
                &&& local_reading(document.tree@, local_path@, local_text@) == Ok::<
                    (Tree, Seq<char>),
                    Seq<char>,
                >((merged.tree@, merged.text@))
                &&& merged.path@ == document.path@
                &&& merged.layer@ == local_layer(local_path@)
                &&& merged.merged
            },
            Err(error) => local_reading(document.tree@, local_path@, local_text@) == Err::<
                (Tree, Seq<char>),
                Seq<char>,
            >(error.message@),
        },
{
    let layer = concat3("local override '", local_path, "'");
    let local = match parse_yaml(local_text) {
        Ok(local) => local,
        Err(fault) => {
            return Err(ConfigError { message: format_local_yaml_error(local_path, &fault) });
        },
    };
    let tree = match merge_local(&document.tree, &local, layer.as_str()) {
        Ok(tree) => tree,
        Err(error) => {
            return Err(error);
        },
    };
    match write_yaml(&tree) {
        Ok(text) => Ok(
            Document { path: document.path, text, tree, layer, merged: true },
        ),
        Err(detail) => {
            let error = ConfigError {
                message: concat2("could not serialize effective YAML: ", detail.as_str()),
            };
            Err(with_source(error, layer.as_str()))
        },
    }
}

/// The failure of a document that does not fit the schema.
pub open spec fn typed_fault(
    path: Seq<char>,
    layer: Seq<char>,
    merged: bool,
    fault: FaultView,
) -> Seq<char> {
    if merged {
        merged_fault(path, layer, fault)
    } else {
        base_fault(path, fault)
    }
}

/// The failure of a document that does not fit the schema.
pub fn typed_error(document: &Document, fault: &YamlFault) -> (r: ConfigError)
    ensures
        r.message@ == typed_fault(document.path@, document.layer@, document.merged, fault@),
{
    if document.merged {
        ConfigError {
            message: format_merged_yaml_error(
                document.path.as_str(),
                document.layer.as_str(),
                fault,
            ),
        }
    } else {
        ConfigError { message: format_yaml_error(document.path.as_str(), fault) }
    }
}

/// The failure of a base file that cannot be read.
pub fn unreadable_base(path: &str, detail: &str) -> (r: ConfigError)
    ensures
        r.message@ == "could not read "@ + path@ + ": "@ + detail@,
{
    ConfigError { message: concat4("could not read ", path, ": ", detail) }
}

/// The failure of a local override that cannot be read.
pub fn unreadable_local(path: &str, detail: &str) -> (r: ConfigError)
    ensures
        r.message@ == "could not read "@ + local_layer(path@) + ": "@ + detail@,
{
    let layer = concat3("local override '", path, "'");
    ConfigError { message: concat4("could not read ", layer.as_str(), ": ", detail) }
}

/// One Process entry of a document; null where there is none.
pub open spec fn raw_process(document: Tree, name: Seq<char>) -> Tree {
    match document.field("processes"@) {
        None => Tree::Null,
        Some(processes) => match processes.field(name) {
            Some(process) => process,
            None => Tree::Null,
        },
    }
}

/// One Process entry of a document; null where there is none.
pub fn process_entry(document: &Yaml, name: &str) -> (r: Yaml)
    ensures
        r@ == raw_process(document@, name@),
{
    match document.field("processes") {
        None => Yaml::Null,
        Some(processes) => match processes.field(name) {
            Some(process) => process.duplicate(),
            None => Yaml::Null,
        },
    }
}

/// A parsed document with schema version 1 and readable environments is taken
/// as it is.
pub proof fn version_one_is_accepted(document: Tree, layer: Seq<char>)
    requires
        document.as_mapping() is Some,
        document.field("version"@) matches Some(version) && unsigned_reading(version) == Ok::<
            u64,
            Seq<char>,
        >(1),
        shapes_fault(document, layer) is None,
    ensures
        base_document_fault(document, layer) is None,
{
}

/// A local override that names another schema version is refused, whatever
/// else it holds.
pub proof fn local_version_cannot_change(base: Tree, local: Tree, layer: Seq<char>)
    requires
        local.as_mapping() is Some,
        local.field("version"@) matches Some(version) && unsigned_reading(version) matches Ok(number)
            && number != 1,
    ensures
        local_document(base, local, layer) is Err,
{
}

} // verus!
