//! From a request to a resolved Project: which files are read, and what their
//! layers give together.

use vstd::prelude::*;

use super::diagnostics::YamlFault;
use super::error::ConfigError;
use super::file::{ConfigFile, ProcessFile};
use super::layers::{
    apply_local, process_entry, read_base, typed_error, unreadable_base, unreadable_local, Document,
};
use super::paths::{
    absolute, absolute_normalized, assemble, components, join_path, normalize, parent, FileFacts,
};
use super::profiled::{type_process, TypedProcess};
use super::resolve::resolve_project;
use super::show::render;
use crate::project::EffectiveProject;
use crate::text::concat5;
use crate::yaml::Yaml;

#[allow(unused_imports)]
use super::diagnostics::sourced;
#[allow(unused_imports)]
use super::layers::{
    base_layer, base_reading, local_layer, local_reading, raw_process, typed_fault, DocumentView,
};
#[allow(unused_imports)]
use super::paths::{
    is_absolute, joined_path, normalized, parent_of, path_names, path_of, resolved,
};
#[allow(unused_imports)]
use super::presentable::project_fits;
#[allow(unused_imports)]
use super::profiled::typed_from;
#[allow(unused_imports)]
use super::resolve::{borrowed, project_reading, project_view, Surroundings};
#[allow(unused_imports)]
use super::show::{project_values_do_not_show, projects_alike, rendering};
#[allow(unused_imports)]
use crate::scan::option_view;
#[allow(unused_imports)]
use crate::text::texts;
#[allow(unused_imports)]
use crate::yaml::Tree;

verus! {

/// The name of a Project file.
pub const BASE_FILE_NAME: &'static str = "stackhand.yaml";

/// The name of a local override.
pub const LOCAL_FILE_NAME: &'static str = "stackhand.local.yaml";

/// One request to resolve a Project before the Supervisor starts.
#[derive(Clone, Debug)]
pub enum ResolutionRequest {
    /// Use exactly this Project path. No base-file discovery is performed.
    Explicit { path: String, profile: Option<String> },
    /// Search for the nearest base file. `None` starts at the current
    /// directory; `Some` is useful for deterministic callers and tests.
    Discover { start_dir: Option<String>, profile: Option<String> },
}

/// A request as mathematical values.
pub enum RequestView {
    Explicit { path: Seq<char>, profile: Option<Seq<char>> },
    Discover { start_dir: Option<Seq<char>>, profile: Option<Seq<char>> },
}

impl View for ResolutionRequest {
    type V = RequestView;

    open spec fn view(&self) -> RequestView {
        match *self {
            ResolutionRequest::Explicit { path, profile } => RequestView::Explicit {
                path: path@,
                profile: option_view(profile),
            },
            ResolutionRequest::Discover { start_dir, profile } => RequestView::Discover {
                start_dir: option_view(start_dir),
                profile: option_view(profile),
            },
        }
    }
}

impl ResolutionRequest {
    /// A request for one Project file.
    pub fn explicit(path: &str) -> (r: Self)
        ensures
            r@ == (RequestView::Explicit { path: path@, profile: None }),
    {
        ResolutionRequest::Explicit { path: path.to_owned(), profile: None }
    }

    /// A request for one Project file with a profile.
    pub fn explicit_with_profile(path: &str, profile: Option<String>) -> (r: Self)
        ensures
            r@ == (RequestView::Explicit { path: path@, profile: option_view(profile) }),
    {
        ResolutionRequest::Explicit { path: path.to_owned(), profile }
    }

    /// A request to search from the current directory, with a profile.
    pub fn discover_with_profile(profile: Option<String>) -> (r: Self)
        ensures
            r@ == (RequestView::Discover { start_dir: None, profile: option_view(profile) }),
    {
        ResolutionRequest::Discover { start_dir: None, profile }
    }

    /// A request to search from a directory.
    pub fn discover_from(path: &str) -> (r: Self)
        ensures
            r@ == (RequestView::Discover { start_dir: Some(path@), profile: None }),
    {
        ResolutionRequest::Discover { start_dir: Some(path.to_owned()), profile: None }
    }
}

/// The source information selected during one Project resolution.
#[derive(Clone, Debug, PartialEq, Eq)]
pub struct ResolutionSources {
    pub base: String,
    pub profile: Option<String>,
    pub local: Option<String>,
}

/// Sources as mathematical values.
pub struct SourcesView {
    pub base: Seq<char>,
    pub profile: Option<Seq<char>>,
    pub local: Option<Seq<char>>,
}

impl View for ResolutionSources {
    type V = SourcesView;

    open spec fn view(&self) -> SourcesView {
        SourcesView {
            base: self.base@,
            profile: option_view(self.profile),
            local: option_view(self.local),
        }
    }
}

/// One validated Project and the source summary that produced it.
#[derive(Debug)]
pub struct ProjectResolution {
    pub project: EffectiveProject,
    pub sources: ResolutionSources,
}

impl ProjectResolution {
    /// The Project is valid.
    pub open spec fn wf(&self) -> bool {
        self.project.wf()
    }

    /// The resolved Project.
    pub fn project(&self) -> (r: &EffectiveProject)
        ensures
            *r == self.project,
    {
        &self.project
    }

    /// The resolved Project, taken out.
    pub fn into_project(self) -> (r: EffectiveProject)
        ensures
            r == self.project,
    {
        self.project
    }
}

/// The nearest base file among the directories with the given names.
pub open spec fn nearest_base(absolute: bool, names: Seq<Seq<char>>, facts: FileFacts) -> Option<
    Seq<char>,
>
    decreases names.len(),
{
    let candidate = joined_path(path_of(absolute, names), BASE_FILE_NAME@);
    if facts.known_file(candidate) {
        Some(candidate)
    } else if names.len() == 0 {
        None
    } else {
        nearest_base(absolute, names.drop_last(), facts)
    }
}

/// The directory in which discovery starts.
pub open spec fn starting_directory(
    start_dir: Option<Seq<char>>,
    current_dir: Seq<char>,
) -> Seq<char> {
    match start_dir {
        Some(path) => resolved(current_dir, path),
        None => normalized(current_dir),
    }
}

/// The base file that discovery finds, or why there is none.
pub open spec fn discovery(
    start_dir: Option<Seq<char>>,
    current_dir: Seq<char>,
    facts: FileFacts,
) -> Result<Seq<char>, Seq<char>> {
    let start = starting_directory(start_dir, current_dir);
    match nearest_base(is_absolute(start), path_names(start), facts) {
        Some(path) => Ok(path),
        None => Err(
            "could not find "@ + BASE_FILE_NAME@ + " from starting directory '"@ + start
                + "'; checked that directory and each parent"@,
        ),
    }
}

/// The nearest base file from a directory upward.
pub fn discover_base(start_dir: Option<&str>, current_dir: &str, facts: &FileFacts) -> (r: Result<
    String,
    ConfigError,
>)
    ensures
        (match r {
            Ok(path) => Ok(path@),
            Err(error) => Err(error.message@),
        }) == discovery(borrowed(start_dir), current_dir@, *facts),
{
    let start = match start_dir {
        Some(path) => absolute_normalized(current_dir, path),
        None => normalize(current_dir),
    };
    let from_root = absolute(start.as_str());
    let mut names = components(start.as_str());
    let ghost found = nearest_base(from_root, texts(names@), *facts);
    loop
        invariant
            found == nearest_base(from_root, texts(names@), *facts),
            found == nearest_base(is_absolute(start@), path_names(start@), *facts),
            start@ == starting_directory(borrowed(start_dir), current_dir@),
        decreases names.len(),
    {
        let directory = assemble(from_root, &names);
        let candidate = join_path(directory.as_str(), BASE_FILE_NAME);
        if facts.is_file(candidate.as_str()) {
            return Ok(candidate);
        }
        if names.len() == 0 {
            return Err(
                ConfigError {
                    message: concat5(
                        "could not find ",
                        BASE_FILE_NAME,
                        " from starting directory '",
                        start.as_str(),
                        "'; checked that directory and each parent",
                    ),
                },
            );
        }
        let ghost before = texts(names@);
        names.pop();
        proof {
            assert(texts(names@) =~= before.drop_last());
        }
    }
}

/// The local override beside a base file, where there is one.
pub open spec fn local_beside(base: Seq<char>, facts: FileFacts) -> Option<Seq<char>> {
    match parent_of(base) {
        Some(directory) => {
            let candidate = joined_path(directory, LOCAL_FILE_NAME@);
            if facts.known_file(candidate) {
                Some(candidate)
            } else {
                None
            }
        },
        None => None,
    }
}

/// The local override beside a base file, where there is one.
pub fn discover_local_override(base: &str, facts: &FileFacts) -> (r: Option<String>)
    ensures
        option_view(r) == local_beside(base@, *facts),
{
    let directory = match parent(base) {
        Some(directory) => directory,
        None => {
            return None;
        },
    };
    let candidate = join_path(directory.as_str(), LOCAL_FILE_NAME);
    if facts.is_file(candidate.as_str()) {
        Some(candidate)
    } else {
        None
    }
}

/// The sources that a request selects, or why there are none.
pub open spec fn located(request: RequestView, current_dir: Seq<char>, facts: FileFacts) -> Result<
    SourcesView,
    Seq<char>,
> {
    match request {
        RequestView::Explicit { path, profile } => Ok(
            SourcesView { base: resolved(current_dir, path), profile, local: None },
        ),
        RequestView::Discover { start_dir, profile } => match discovery(
            start_dir,
            current_dir,
            facts,
        ) {
            Err(message) => Err(message),
            Ok(base) => Ok(
                SourcesView {
                    base,
                    profile,
                    local: local_beside(base, facts),
                },
            ),
        },
    }
}

/// The sources that a request selects.
pub fn locate(request: ResolutionRequest, current_dir: &str, facts: &FileFacts) -> (r: Result<
    ResolutionSources,
    ConfigError,
>)
    ensures
        (match r {
            Ok(sources) => Ok(sources@),
            Err(error) => Err(error.message@),
        }) == located(request@, current_dir@, *facts),
{
    match request {
        ResolutionRequest::Explicit { path, profile } => Ok(
            ResolutionSources {
                base: absolute_normalized(current_dir, path.as_str()),
                profile,
                local: None,
            },
        ),
        ResolutionRequest::Discover { start_dir, profile } => {
            let start = match &start_dir {
                Some(path) => Some(path.as_str()),
                None => None,
            };
            match discover_base(start, current_dir, facts) {
                Err(error) => Err(error),
                Ok(base) => {
                    let local = discover_local_override(base.as_str(), facts);
                    Ok(ResolutionSources { base, profile, local })
                },
            }
        },
    }
}

/// A configuration in typed form, with what the resolver asks about the files
/// that it names.
pub struct TypedDocument {
    pub file: ConfigFile,
    /// The Processes of the file, in its order.
    pub processes: Vec<TypedProcess>,
    pub facts: FileFacts,
}

impl TypedDocument {
    /// Every Process of the file is there, with all of its profiles.
    pub open spec fn wf(&self) -> bool {
        &&& self.processes@.len() == self.file.processes@.len()
        &&& forall|i: int| 0 <= i < self.processes@.len() ==> (#[trigger] self.processes@[i]).wf()
    }

    /// Whether every Process of the file is there, with all of its profiles.
    pub fn is_complete(&self) -> (r: bool)
        ensures
            r == self.wf(),
    {
        if self.processes.len() != self.file.processes.len() {
            return false;
        }
        let mut index: usize = 0;
        while index < self.processes.len()
            invariant
                index <= self.processes.len(),
                forall|i: int| 0 <= i < index ==> (#[trigger] self.processes@[i]).wf(),
            decreases self.processes.len() - index,
        {
            if let Ok(entry) = &self.processes[index].entry {
                if self.processes[index].patched.len() != entry.profiles.len() {
                    proof {
                        assert(!self.processes@[index as int].wf());
                    }
                    return false;
                }
            }
            index = index + 1;
        }
        true
    }
}

/// A configuration file in typed form, before its Processes are, with what the
/// resolver asks about the files that it names.
pub struct TypedFile {
    pub file: ConfigFile,
    pub facts: FileFacts,
}

/// Whether a configuration in typed form is what `read` gives of the Process
/// entries of a document, for a file that was read from that document.
pub open spec fn document_from<R: Fn(&Yaml) -> Result<ProcessFile, String>>(
    read: R,
    tree: Tree,
    read_file: TypedFile,
    typed: TypedDocument,
) -> bool {
    &&& typed.wf()
    &&& typed.file == read_file.file
    &&& typed.facts == read_file.facts
    &&& forall|i: int|
        0 <= i < typed.processes@.len() ==> typed_from(
            read,
            typed.file.processes@[i].0@,
            raw_process(tree, typed.file.processes@[i].0@),
            #[trigger] typed.processes@[i],
        )
}

/// Read every Process of a file into typed form. `read` reads one document.
pub fn type_document<R: Fn(&Yaml) -> Result<ProcessFile, String>>(
    document: &Document,
    typed: TypedFile,
    read: R,
) -> (r: TypedDocument)
    requires
        forall|tree: &Yaml| #[trigger] read.requires((tree,)),
    ensures
        document_from(read, document@.tree, typed, r),
{
    let mut processes: Vec<TypedProcess> = Vec::new();
    let mut index: usize = 0;
    while index < typed.file.processes.len()
        invariant
            forall|tree: &Yaml| #[trigger] read.requires((tree,)),
            index <= typed.file.processes.len(),
            processes.len() == index,
            forall|i: int|
                0 <= i < index ==> typed_from(
                    read,
                    typed.file.processes@[i].0@,
                    raw_process(document@.tree, typed.file.processes@[i].0@),
                    #[trigger] processes@[i],
                ),
        decreases typed.file.processes.len() - index,
    {
        let name = typed.file.processes[index].0.as_str();
        let raw = process_entry(&document.tree, name);
        processes.push(type_process(name, &raw, &read));
        index = index + 1;
    }
    TypedDocument { file: typed.file, processes, facts: typed.facts }
}

/// What came of reading a text, as mathematical values.
pub open spec fn reading_view(reading: Result<String, String>) -> Result<Seq<char>, Seq<char>> {
    match reading {
        Ok(text) => Ok(text@),
        Err(detail) => Err(detail@),
    }
}

/// The document that the layers give together, or why there is none.
pub open spec fn opened(
    path: Seq<char>,
    base: Result<Seq<char>, Seq<char>>,
    local: Option<(Seq<char>, Result<Seq<char>, Seq<char>>)>,
) -> Result<DocumentView, Seq<char>> {
    match base {
        Err(detail) => Err("could not read "@ + path + ": "@ + detail),
        Ok(text) => match base_reading(path, text) {
            Err(message) => Err(message),
            Ok(tree) => match local {
                None => Ok(
                    DocumentView { path, text, tree, layer: base_layer(path), merged: false },
                ),
                Some((local_path, reading)) => match reading {
                    Err(detail) => Err(
                        "could not read "@ + local_layer(local_path) + ": "@ + detail,
                    ),
                    Ok(local_text) => match local_reading(tree, local_path, local_text) {
                        Err(message) => Err(message),
                        Ok((merged, written)) => Ok(
                            DocumentView {
                                path,
                                text: written,
                                tree: merged,
                                layer: local_layer(local_path),
                                merged: true,
                            },
                        ),
                    },
                },
            },
        },
    }
}

/// A local override and what came of reading it.
pub struct LocalLayer {
    pub path: String,
    pub reading: Result<String, String>,
}

/// An optional local override as mathematical values.
pub open spec fn layer_view(local: Option<LocalLayer>) -> Option<
    (Seq<char>, Result<Seq<char>, Seq<char>>),
> {
    match local {
        Some(layer) => Some((layer.path@, reading_view(layer.reading))),
        None => None,
    }
}

/// The document that the layers give together.
pub fn open_document(path: &str, base: Result<String, String>, local: Option<LocalLayer>) -> (r:
    Result<Document, ConfigError>)
    ensures
        (match r {
            Ok(document) => Ok(document@),
            Err(error) => Err(error.message@),
        }) == opened(path@, reading_view(base), layer_view(local)),
{
    let text = match base {
        Ok(text) => text,
        Err(detail) => {
            return Err(unreadable_base(path, detail.as_str()));
        },
    };
    let document = match read_base(path, text.as_str()) {
        Ok(document) => document,
        Err(error) => {
            return Err(error);
        },
    };
    match local {
        None => Ok(document),
        Some(layer) => match layer.reading {
            Err(detail) => Err(unreadable_local(layer.path.as_str(), detail.as_str())),
            Ok(local_text) => apply_local(document, layer.path.as_str(), local_text.as_str()),
        },
    }
}

/// The directory of a Project file.
pub open spec fn project_directory(path: Seq<char>) -> Seq<char> {
    match parent_of(path) {
        Some(directory) => directory,
        None => "."@,
    }
}

/// Whether a result is what a document and its typed form give.
pub open spec fn finished(
    document: DocumentView,
    typed: Result<TypedDocument, YamlFault>,
    profile: Option<Seq<char>>,
    result: Result<EffectiveProject, ConfigError>,
) -> bool {
    match typed {
        Err(fault) => result matches Err(error) && error.message@ == typed_fault(
            document.path,
            document.layer,
            document.merged,
            fault@,
        ),
        Ok(typed) => match project_reading(
            typed.file,
            typed.processes@,
            profile,
            Surroundings {
                document: document.tree,
                base: project_directory(document.path),
                facts: typed.facts,
            },
        ) {
            Ok(view) => result matches Ok(project) && project.wf() && project_view(project) == view,
            Err(message) => result matches Err(error) && error.message@ == sourced(
                message,
                document.layer,
            ),
        },
    }
}

/// The Project of a document, once it was read into typed form.
pub fn finish(
    document: &Document,
    typed: Result<TypedDocument, YamlFault>,
    profile: Option<&str>,
) -> (r: Result<EffectiveProject, ConfigError>)
    requires
        typed matches Ok(typed) ==> typed.wf(),
    ensures
        finished(document@, typed, borrowed(profile), r),
{
    let typed = match typed {
        Ok(typed) => typed,
        Err(fault) => {
            return Err(typed_error(document, &fault));
        },
    };
    let base_dir = match parent(document.path.as_str()) {
        Some(directory) => directory,
        None => ".".to_owned(),
    };
    resolve_project(
        document,
        &typed.file,
        &typed.processes,
        profile,
        base_dir.as_str(),
        &typed.facts,
    )
}

/// Whether a result is what a document gives, once its file was read.
pub open spec fn completes<R: Fn(&Yaml) -> Result<ProcessFile, String>>(
    document: DocumentView,
    reading: Result<TypedFile, YamlFault>,
    read_process: R,
    profile: Option<Seq<char>>,
    result: Result<EffectiveProject, ConfigError>,
) -> bool {
    match reading {
        Err(fault) => finished(document, Err(fault), profile, result),
        Ok(file) => exists|typed: TypedDocument| #[trigger]
            document_from(read_process, document.tree, file, typed) && finished(
                document,
                Ok(typed),
                profile,
                result,
            ),
    }
}

/// Whether a result is what the layers of a Project give, once `read_file` and
/// `read_process` have read their document into typed form.
pub open spec fn loads<
    F: FnOnce(&Document) -> Result<TypedFile, YamlFault>,
    R: Fn(&Yaml) -> Result<ProcessFile, String>,
>(
    path: Seq<char>,
    profile: Option<Seq<char>>,
    base: Result<Seq<char>, Seq<char>>,
    local: Option<(Seq<char>, Result<Seq<char>, Seq<char>>)>,
    read_file: F,
    read_process: R,
    result: Result<EffectiveProject, ConfigError>,
) -> bool {
    match opened(path, base, local) {
        Err(message) => result matches Err(error) && error.message@ == message,
        Ok(view) => exists|document: &Document, reading: Result<TypedFile, YamlFault>|
            {
                &&& document@ == view
                &&& #[trigger] read_file.ensures((document,), reading)
                &&& completes(view, reading, read_process, profile, result)
            },
    }
}

/// Load one Project from its layers. `read_file` reads the file of a document
/// into typed form, and `read_process` one Process of it.
pub fn load_file_with_local<
    F: FnOnce(&Document) -> Result<TypedFile, YamlFault>,
    R: Fn(&Yaml) -> Result<ProcessFile, String>,
>(
    path: &str,
    profile: Option<&str>,
    base: Result<String, String>,
    local: Option<LocalLayer>,
    read_file: F,
    read_process: R,
) -> (r: Result<EffectiveProject, ConfigError>)
    requires
        forall|document: &Document| #[trigger] read_file.requires((document,)),
        forall|tree: &Yaml| #[trigger] read_process.requires((tree,)),
    ensures
        loads(
            path@,
            borrowed(profile),
            reading_view(base),
            layer_view(local),
            read_file,
            read_process,
            r,
        ),
        r matches Ok(project) ==> project.wf(),
{
    let document = match open_document(path, base, local) {
        Ok(document) => document,
        Err(error) => {
            return Err(error);
        },
    };
    let reading = read_file(&document);
    match reading {
        Ok(file) => {
            let typed = type_document(&document, file, read_process);
            finish(&document, Ok(typed), profile)
        },
        Err(fault) => finish(&document, Err(fault), profile),
    }
}

/// Whether a reading is one that `read` gives of a path.
pub open spec fn read_as<R: Fn(&str) -> Result<String, String>>(
    read: R,
    path: Seq<char>,
    reading: Result<String, String>,
) -> bool {
    exists|asked: &str| asked@ == path && #[trigger] read.ensures((asked,), reading)
}

/// Whether a result is what selected sources give, once their files are read.
pub open spec fn resolves<
    R: Fn(&str) -> Result<String, String>,
    F: FnOnce(&Document) -> Result<TypedFile, YamlFault>,
    P: Fn(&Yaml) -> Result<ProcessFile, String>,
>(
    sources: SourcesView,
    read: R,
    read_file: F,
    read_process: P,
    result: Result<EffectiveProject, ConfigError>,
) -> bool {
    exists|base: Result<String, String>, local: Option<LocalLayer>|
        {
            &&& #[trigger] read_as(read, sources.base, base)
            &&& match sources.local {
                None => local is None,
                Some(path) => local matches Some(layer) && layer.path@ == path && read_as(
                    read,
                    path,
                    layer.reading,
                ),
            }
            &&& loads(
                sources.base,
                sources.profile,
                reading_view(base),
                #[trigger] layer_view(local),
                read_file,
                read_process,
                result,
            )
        }
}

/// Resolve and validate one Project before any Process starts. `read` reads a
/// file as text, `read_file` the file of a document into typed form, and
/// `read_process` one Process of it.
pub fn resolve<
    R: Fn(&str) -> Result<String, String>,
    F: FnOnce(&Document) -> Result<TypedFile, YamlFault>,
    P: Fn(&Yaml) -> Result<ProcessFile, String>,
>(
    request: ResolutionRequest,
    current_dir: &str,
    facts: &FileFacts,
    read: R,
    read_file: F,
    read_process: P,
) -> (r: Result<ProjectResolution, ConfigError>)
    requires
        forall|path: &str| #[trigger] read.requires((path,)),
        forall|document: &Document| #[trigger] read_file.requires((document,)),
        forall|tree: &Yaml| #[trigger] read_process.requires((tree,)),
    ensures
        match located(request@, current_dir@, *facts) {
            Err(message) => r matches Err(error) && error.message@ == message,
            Ok(sources) => match r {
                Ok(resolution) => {
                    &&& resolution.wf()
                    &&& resolution.sources@ == sources
                    &&& resolves(sources, read, read_file, read_process, Ok(resolution.project))
                },
                Err(error) => resolves(sources, read, read_file, read_process, Err(error)),
            },
        },
{
    let sources = match locate(request, current_dir, facts) {
        Ok(sources) => sources,
        Err(error) => {
            return Err(error);
        },
    };
    let base = read(sources.base.as_str());
    let local = match &sources.local {
        Some(path) => {
            let reading = read(path.as_str());
            Some(LocalLayer { path: path.clone(), reading })
        },
        None => None,
    };
    let profile = match &sources.profile {
        Some(name) => Some(name.as_str()),
        None => None,
    };
    proof {
        assert(read_as(read, sources@.base, base));
        assert(borrowed(profile) == sources@.profile);
    }
    let ghost local_view = layer_view(local);
    match load_file_with_local(
        sources.base.as_str(),
        profile,
        base,
        local,
        read_file,
        read_process,
    ) {
        Ok(project) => Ok(ProjectResolution { project, sources }),
        Err(error) => Err(error),
    }
}

/// The request for a Project path, or for the nearest Project.
pub open spec fn requested(explicit_path: Option<Seq<char>>, profile: Option<Seq<char>>) -> RequestView {
    match explicit_path {
        Some(path) => RequestView::Explicit { path, profile },
        None => RequestView::Discover { start_dir: None, profile },
    }
}

/// The request for a Project path, or for the nearest Project.
pub fn resolution_request(explicit_path: Option<&str>, profile: Option<&str>) -> (r:
    ResolutionRequest)
    ensures
        r@ == requested(borrowed(explicit_path), borrowed(profile)),
{
    let selected = match profile {
        Some(name) => Some(name.to_owned()),
        None => None,
    };
    match explicit_path {
        Some(path) => ResolutionRequest::explicit_with_profile(path, selected),
        None => ResolutionRequest::discover_with_profile(selected),
    }
}

/// Whether a resolution is one that `resolve` gives for a request.
pub open spec fn resolved_as<
    F: FnOnce(ResolutionRequest) -> Result<ProjectResolution, ConfigError>,
>(
    resolve: F,
    request: RequestView,
    resolution: Result<ProjectResolution, ConfigError>,
) -> bool {
    exists|asked: ResolutionRequest|
        asked@ == request && #[trigger] resolve.ensures((asked,), resolution)
}

/// Load and validate the Project at a path through the shared resolver.
/// Relative working directories resolve from the directory of the file.
pub fn load<F: FnOnce(ResolutionRequest) -> Result<ProjectResolution, ConfigError>>(
    path: &str,
    resolve: F,
) -> (r: Result<EffectiveProject, ConfigError>)
    requires
        forall|request: ResolutionRequest| #[trigger] resolve.requires((request,)),
    ensures
        exists|resolution: Result<ProjectResolution, ConfigError>|
            {
                &&& #[trigger] resolved_as(
                    resolve,
                    RequestView::Explicit { path: path@, profile: None },
                    resolution,
                )
                &&& match resolution {
                    Ok(resolution) => r == Ok::<EffectiveProject, ConfigError>(resolution.project),
                    Err(error) => r == Err::<EffectiveProject, ConfigError>(error),
                }
            },
{
    let request = ResolutionRequest::explicit(path);
    let resolution = resolve(request);
    proof {
        assert(resolved_as(resolve, request@, resolution));
    }
    match resolution {
        Ok(resolution) => Ok(resolution.into_project()),
        Err(error) => Err(error),
    }
}

/// Resolve and validate a Project without starting the Supervisor. When no
/// path is provided, use the nearest discovered base file.
pub fn validate_project<
    F: FnOnce(ResolutionRequest) -> Result<ProjectResolution, ConfigError>,
>(explicit_path: Option<&str>, resolve: F) -> (r: Result<String, ConfigError>)
    requires
        forall|request: ResolutionRequest| #[trigger] resolve.requires((request,)),
    ensures
        exists|resolution: Result<ProjectResolution, ConfigError>|
            {
                &&& #[trigger] resolved_as(
                    resolve,
                    requested(borrowed(explicit_path), None),
                    resolution,
                )
                &&& match resolution {
                    Ok(resolution) => r == Ok::<String, ConfigError>(resolution.sources.base),
                    Err(error) => r == Err::<String, ConfigError>(error),
                }
            },
{
    validate_project_with_profile(explicit_path, None, resolve)
}

/// Resolve and validate a Project with one explicitly selected profile.
pub fn validate_project_with_profile<
    F: FnOnce(ResolutionRequest) -> Result<ProjectResolution, ConfigError>,
>(explicit_path: Option<&str>, profile: Option<&str>, resolve: F) -> (r: Result<
    String,
    ConfigError,
>)
    requires
        forall|request: ResolutionRequest| #[trigger] resolve.requires((request,)),
    ensures
        exists|resolution: Result<ProjectResolution, ConfigError>|
            {
                &&& #[trigger] resolved_as(
                    resolve,
                    requested(borrowed(explicit_path), borrowed(profile)),
                    resolution,
                )
                &&& match resolution {
                    Ok(resolution) => r == Ok::<String, ConfigError>(resolution.sources.base),
                    Err(error) => r == Err::<String, ConfigError>(error),
                }
            },
{
    match validate_project_sources(explicit_path, profile, resolve) {
        Ok(sources) => Ok(sources.base),
        Err(error) => Err(error),
    }
}

/// Resolve and validate a Project, returning its selected sources.
pub fn validate_project_sources<
    F: FnOnce(ResolutionRequest) -> Result<ProjectResolution, ConfigError>,
>(explicit_path: Option<&str>, profile: Option<&str>, resolve: F) -> (r: Result<
    ResolutionSources,
    ConfigError,
>)
    requires
        forall|request: ResolutionRequest| #[trigger] resolve.requires((request,)),
    ensures
        exists|resolution: Result<ProjectResolution, ConfigError>|
            {
                &&& #[trigger] resolved_as(
                    resolve,
                    requested(borrowed(explicit_path), borrowed(profile)),
                    resolution,
                )
                &&& match resolution {
                    Ok(resolution) => r == Ok::<ResolutionSources, ConfigError>(
                        resolution.sources,
                    ),
                    Err(error) => r == Err::<ResolutionSources, ConfigError>(error),
                }
            },
{
    let request = resolution_request(explicit_path, profile);
    let resolution = resolve(request);
    proof {
        assert(resolved_as(resolve, request@, resolution));
    }
    match resolution {
        Ok(resolution) => Ok(resolution.sources),
        Err(error) => Err(error),
    }
}

/// The source summary and redacted normalized YAML for one resolved Project.
#[derive(Debug)]
pub struct EffectiveProjectView {
    pub sources: ResolutionSources,
    pub yaml: String,
}

/// Whether a view, or a failure, is what is shown of a resolution. A resolved
/// Project whose texts are short enough is always shown.
pub open spec fn shown_as(
    resolution: Result<ProjectResolution, ConfigError>,
    shown: Result<EffectiveProjectView, ConfigError>,
) -> bool {
    match resolution {
        Ok(resolution) => {
            &&& match rendering(resolution.project) {
                Ok(yaml) => shown matches Ok(view) && view.sources == resolution.sources
                    && view.yaml@ == yaml,
                Err(message) => shown matches Err(error) && error.message@ == message,
            }
            &&& project_fits(resolution.project) ==> shown is Ok
        },
        Err(error) => shown matches Err(failure) && failure == error,
    }
}

/// Two resolved Projects that differ only in the values of the environments of
/// their Processes and probes are shown with the same YAML. Both are shown, as
/// long as the texts of one are short enough.
pub proof fn shown_yaml_hides_environment_values(
    a: ProjectResolution,
    b: ProjectResolution,
    first: Result<EffectiveProjectView, ConfigError>,
    second: Result<EffectiveProjectView, ConfigError>,
)
    requires
        projects_alike(a.project, b.project),
        shown_as(Ok(a), first),
        shown_as(Ok(b), second),
    ensures
        first is Ok <==> second is Ok,
        project_fits(a.project) ==> first is Ok && second is Ok,
        first is Ok ==> first->Ok_0.yaml@ == second->Ok_0.yaml@,
        first is Err ==> first->Err_0.message@ == second->Err_0.message@,
{
    project_values_do_not_show(a.project, b.project);
}

/// Resolve one Project and render the effective canonical configuration
/// without starting the Supervisor or any Process.
pub fn show_project<F: FnOnce(ResolutionRequest) -> Result<ProjectResolution, ConfigError>>(
    explicit_path: Option<&str>,
    profile: Option<&str>,
    resolve: F,
) -> (r: Result<EffectiveProjectView, ConfigError>)
    requires
        forall|request: ResolutionRequest| #[trigger] resolve.requires((request,)),
        forall|request: ResolutionRequest, resolution: Result<ProjectResolution, ConfigError>|
            #[trigger] resolve.ensures((request,), resolution) && resolution is Ok
                ==> resolution->Ok_0.wf(),
    ensures
        exists|resolution: Result<ProjectResolution, ConfigError>|
            {
                &&& #[trigger] resolved_as(
                    resolve,
                    requested(borrowed(explicit_path), borrowed(profile)),
                    resolution,
                )
                &&& shown_as(resolution, r)
            },
{
    let request = resolution_request(explicit_path, profile);
    let resolution = resolve(request);
    proof {
        assert(resolved_as(resolve, request@, resolution));
    }
    match resolution {
        Ok(resolution) => match render(&resolution.project) {
            Ok(yaml) => Ok(EffectiveProjectView { sources: resolution.sources, yaml }),
            Err(error) => Err(error),
        },
        Err(error) => Err(error),
    }
}

/// An explicit request never selects a local override, and its base file is
/// the path itself.
pub proof fn explicit_path_stands_alone(
    path: Seq<char>,
    profile: Option<Seq<char>>,
    current_dir: Seq<char>,
    facts: FileFacts,
)
    ensures
        located(RequestView::Explicit { path, profile }, current_dir, facts) == Ok::<
            SourcesView,
            Seq<char>,
        >(SourcesView { base: resolved(current_dir, path), profile, local: None }),
{
}

/// A directory's base file.
pub open spec fn base_in(absolute: bool, names: Seq<Seq<char>>, count: int) -> Seq<char> {
    joined_path(path_of(absolute, names.take(count)), BASE_FILE_NAME@)
}

/// Discovery gives the base file of the nearest directory that has one, and
/// none exactly where no directory upward has one.
pub proof fn discovery_finds_the_nearest(
    absolute: bool,
    names: Seq<Seq<char>>,
    facts: FileFacts,
)
    ensures
        match nearest_base(absolute, names, facts) {
            Some(path) => exists|count: int|
                {
                    &&& 0 <= count <= names.len()
                    &&& path == #[trigger] base_in(absolute, names, count)
                    &&& facts.known_file(path)
                    &&& forall|deeper: int|
                        count < deeper <= names.len() ==> !facts.known_file(
                            #[trigger] base_in(absolute, names, deeper),
                        )
                },
            None => forall|count: int|
                0 <= count <= names.len() ==> !facts.known_file(
                    #[trigger] base_in(absolute, names, count),
                ),
        },
    decreases names.len(),
{
    let last = names.len() as int;
    assert(names.take(last) =~= names);
    if facts.known_file(base_in(absolute, names, last)) {
    } else if names.len() > 0 {
        let shorter = names.drop_last();
        discovery_finds_the_nearest(absolute, shorter, facts);
        assert forall|count: int| 0 <= count <= shorter.len() implies #[trigger] base_in(
            absolute,
            names,
            count,
        ) == base_in(absolute, shorter, count) by {
            assert(names.take(count) =~= shorter.take(count));
        }
        if let Some(path) = nearest_base(absolute, names, facts) {
            let count = choose|count: int|
                {
                    &&& 0 <= count <= shorter.len()
                    &&& path == #[trigger] base_in(absolute, shorter, count)
                    &&& facts.known_file(path)
                    &&& forall|deeper: int|
                        count < deeper <= shorter.len() ==> !facts.known_file(
                            #[trigger] base_in(absolute, shorter, deeper),
                        )
                };
            assert(path == base_in(absolute, names, count));
            assert forall|deeper: int| count < deeper <= names.len() implies !facts.known_file(
                #[trigger] base_in(absolute, names, deeper),
            ) by {
                if deeper <= shorter.len() {
                    assert(base_in(absolute, names, deeper) == base_in(absolute, shorter, deeper));
                }
            }
        }
    }
}

} // verus!
