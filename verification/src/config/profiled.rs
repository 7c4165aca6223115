//! Process Profiles: named partial patches of one Process.

use vstd::prelude::*;

use super::error::ConfigError;
use super::file::ProcessFile;
use super::paths::FileFacts;
use super::process::build_spec;
use super::profile::{merge_process_profile, remove_field};
use super::shapes::validate_process_overrides;
use crate::model::ProcessSpec;
use crate::project::find_variant;
use crate::text::{concat3, concat4, concat5, same_text};
use crate::yaml::Yaml;

#[allow(unused_imports)]
use super::env::Entries;
#[allow(unused_imports)]
use super::process::{process_message, spec_reading, spec_result};
#[allow(unused_imports)]
use super::profile::{profiled, without_field};
#[allow(unused_imports)]
use super::shapes::overrides_fault;
#[allow(unused_imports)]
use crate::model::ProcessView;
#[allow(unused_imports)]
use crate::project::{variant_names, variant_views};
#[allow(unused_imports)]
use crate::scan::option_view;
#[allow(unused_imports)]
use crate::text::pairs;
#[allow(unused_imports)]
use crate::yaml::{mapping_tree, tree_entries, Tree};

verus! {

/// One Process entry in typed form. The documents are those that
/// `base_document` and `merge_process_profile` give; each was read into typed
/// form, or the reader said why it could not be.
#[derive(Debug)]
pub struct TypedProcess {
    pub name: String,
    /// The entry as it stands.
    pub entry: Result<ProcessFile, String>,
    /// The entry without its profiles.
    pub base: Result<ProcessFile, String>,
    /// The entry with each of its profiles laid over it, in the order of the
    /// profiles.
    pub patched: Vec<Result<ProcessFile, String>>,
}

impl TypedProcess {
    /// There is one patched document for each profile.
    pub open spec fn wf(&self) -> bool {
        self.entry matches Ok(file) ==> self.patched@.len() == file.profiles@.len()
    }
}

/// A Process entry without its profiles; `None` where it is no mapping.
pub open spec fn bare_document(raw: Tree) -> Option<Tree> {
    let start = if raw.is_null() {
        Tree::Mapping(Seq::empty())
    } else {
        raw
    };
    if start.as_mapping() is None {
        None
    } else {
        Some(without_field(without_field(start, "profile"@), "profiles"@))
    }
}

/// A Process entry without its profiles; `None` where it is no mapping.
pub fn base_document(raw: &Yaml) -> (r: Option<Yaml>)
    ensures
        (match r {
            Some(document) => Some(document@),
            None => None,
        }) == bare_document(raw@),
{
    if raw.is_null() {
        let empty: Vec<(Yaml, Yaml)> = Vec::new();
        proof {
            mapping_tree(empty);
            assert(tree_entries(empty@) =~= Seq::<(Tree, Tree)>::empty());
        }
        let start = Yaml::Mapping(empty);
        let bare = remove_field(&start, "profile");
        return Some(remove_field(&bare, "profiles"));
    }
    if raw.as_mapping().is_none() {
        return None;
    }
    let bare = remove_field(raw, "profile");
    Some(remove_field(&bare, "profiles"))
}

/// Whether a typed form is one that `read` gives of a document.
pub open spec fn read_from<R: Fn(&Yaml) -> Result<ProcessFile, String>>(
    read: R,
    tree: Tree,
    file: Result<ProcessFile, String>,
) -> bool {
    exists|asked: &Yaml| asked@ == tree && #[trigger] read.ensures((asked,), file)
}

/// Whether a Process entry in typed form is what `read` gives of its raw
/// entry: of the entry as it stands, of the entry without its profiles, and of
/// that with each profile laid over it.
pub open spec fn typed_from<R: Fn(&Yaml) -> Result<ProcessFile, String>>(
    read: R,
    name: Seq<char>,
    raw: Tree,
    typed: TypedProcess,
) -> bool {
    &&& typed.wf()
    &&& typed.name@ == name
    &&& read_from(read, raw, typed.entry)
    &&& bare_document(raw) matches Some(bare) ==> {
        &&& read_from(read, bare, typed.base)
        &&& typed.entry matches Ok(entry) ==> forall|i: int|
            0 <= i < entry.profiles@.len() ==> read_from(
                read,
                profiled(bare, entry.profiles@[i].1@),
                #[trigger] typed.patched@[i],
            )
    }
}

/// Read one Process entry into typed form. `read` reads one document.
pub fn type_process<R: Fn(&Yaml) -> Result<ProcessFile, String>>(
    name: &str,
    raw: &Yaml,
    read: R,
) -> (r: TypedProcess)
    requires
        forall|tree: &Yaml| #[trigger] read.requires((tree,)),
    ensures
        typed_from(read, name@, raw@, r),
{
    let entry = read(raw);
    proof {
        assert(read_from(read, raw@, entry));
    }
    let bare = match base_document(raw) {
        Some(document) => document,
        None => Yaml::Null,
    };
    let base = read(&bare);
    proof {
        assert(read_from(read, bare@, base));
    }
    let mut patched: Vec<Result<ProcessFile, String>> = Vec::new();
    if let Ok(file) = &entry {
        let mut index: usize = 0;
        while index < file.profiles.len()
            invariant
                forall|tree: &Yaml| #[trigger] read.requires((tree,)),
                index <= file.profiles.len(),
                patched.len() == index,
                forall|i: int|
                    0 <= i < index ==> read_from(
                        read,
                        profiled(bare@, file.profiles@[i].1@),
                        #[trigger] patched@[i],
                    ),
            decreases file.profiles.len() - index,
        {
            let document = merge_process_profile(&bare, &file.profiles[index].1);
            let reading = read(&document);
            proof {
                assert(read_from(read, document@, reading));
            }
            patched.push(reading);
            index = index + 1;
        }
    }
    TypedProcess { name: name.to_owned(), entry, base, patched }
}

/// Whether a Process Profile can change a field.
pub open spec fn profile_field(field: Seq<char>) -> bool {
    field == "command"@ || field == "shell"@ || field == "cwd"@ || field == "env_files"@ || field
        == "environment"@ || field == "enabled"@ || field == "depends_on"@
}

fn is_profile_field(field: &str) -> (r: bool)
    ensures
        r == profile_field(field@),
{
    same_text(field, "command") || same_text(field, "shell") || same_text(field, "cwd")
        || same_text(field, "env_files") || same_text(field, "environment") || same_text(
        field,
        "enabled",
    ) || same_text(field, "depends_on")
}

/// What a Process Profile is called in diagnostics.
pub open spec fn profile_owner(name: Seq<char>, profile: Seq<char>) -> Seq<char> {
    "Process '"@ + name + "' profile '"@ + profile + "'"@
}

/// Why fields from `from` on cannot stand in a Process Profile.
pub open spec fn fields_fault(
    name: Seq<char>,
    profile: Seq<char>,
    entries: Seq<(Tree, Tree)>,
    from: int,
) -> Option<Seq<char>>
    decreases entries.len() - from,
{
    if from < 0 || from >= entries.len() {
        None
    } else {
        match entries[from].0.as_text() {
            None => Some(profile_owner(name, profile) + " must use string field names"@),
            Some(field) => if !profile_field(field) {
                Some(
                    profile_owner(name, profile) + " cannot change field '"@ + field
                        + "'; Process Profiles can change only command, shell, cwd, env_files, environment, enabled, and depends_on"@,
                )
            } else {
                fields_fault(name, profile, entries, from + 1)
            },
        }
    }
}

/// Why a patch cannot be a Process Profile.
pub open spec fn patch_fault(name: Seq<char>, profile: Seq<char>, patch: Tree) -> Option<Seq<char>> {
    if profile == "base"@ {
        Some(
            process_message(
                name,
                "Process Profile name 'base' is reserved for the base specification"@,
            ),
        )
    } else {
        match patch.as_mapping() {
            None => Some(profile_owner(name, profile) + " must be a partial mapping"@),
            Some(entries) => match fields_fault(name, profile, entries, 0) {
                Some(fault) => Some(fault),
                None => overrides_fault(
                    Tree::Mapping(seq![(Tree::Text(name), patch)]),
                    profile_owner(name, profile),
                ),
            },
        }
    }
}

/// The specification of one Process Profile.
pub open spec fn variant_reading(
    name: Seq<char>,
    profile: Seq<char>,
    patch: Tree,
    typed: Result<ProcessFile, String>,
    base: Seq<char>,
    project: Entries,
    facts: FileFacts,
) -> Result<ProcessView, Seq<char>> {
    match patch_fault(name, profile, patch) {
        Some(message) => Err(message),
        None => match typed {
            Err(detail) => Err(profile_owner(name, profile) + ": "@ + detail@),
            Ok(file) => match spec_reading(file, name, base, project, facts) {
                Err(message) => Err(profile_owner(name, profile) + ": "@ + message),
                Ok(spec) => Ok(spec),
            },
        },
    }
}

/// The specifications of the first `count` Process Profiles.
pub open spec fn variants_reading(
    name: Seq<char>,
    profiles: Seq<(String, Yaml)>,
    patched: Seq<Result<ProcessFile, String>>,
    count: int,
    base: Seq<char>,
    project: Entries,
    facts: FileFacts,
) -> Result<Seq<(Seq<char>, ProcessView)>, Seq<char>>
    decreases count,
{
    if count <= 0 || count > profiles.len() {
        Ok(Seq::empty())
    } else {
        match variants_reading(name, profiles, patched, count - 1, base, project, facts) {
            Err(message) => Err(message),
            Ok(before) => match variant_reading(
                name,
                profiles[count - 1].0@,
                profiles[count - 1].1@,
                patched[count - 1],
                base,
                project,
                facts,
            ) {
                Err(message) => Err(message),
                Ok(spec) => Ok(before.push((profiles[count - 1].0@, spec))),
            },
        }
    }
}

/// One Process with its Process Profiles.
pub struct ProfiledProcess {
    pub base: ProcessSpec,
    pub profiles: Vec<(String, ProcessSpec)>,
    pub profile_override: Option<String>,
}

/// One Process with its Process Profiles, as mathematical values.
pub struct ProfiledView {
    pub base: ProcessView,
    pub profiles: Seq<(Seq<char>, ProcessView)>,
    pub profile_override: Option<Seq<char>>,
}

impl View for ProfiledProcess {
    type V = ProfiledView;

    open spec fn view(&self) -> ProfiledView {
        ProfiledView {
            base: self.base@,
            profiles: variant_views(self.profiles@),
            profile_override: option_view(self.profile_override),
        }
    }
}

/// Why a fixed Process Profile cannot be used.
pub open spec fn override_fault(
    name: Seq<char>,
    profile_override: Option<Seq<char>>,
    variants: Seq<(Seq<char>, ProcessView)>,
) -> Option<Seq<char>> {
    match profile_override {
        None => None,
        Some(profile) => if profile != "base"@ && !variant_names(variants).contains(profile) {
            Some(
                process_message(
                    name,
                    "profile override '"@ + profile
                        + "' does not match a named Process Profile"@,
                ),
            )
        } else {
            None
        },
    }
}

/// One Process with its Process Profiles.
#[verifier::opaque]
pub open spec fn profiled_reading(
    typed: TypedProcess,
    raw: Tree,
    base: Seq<char>,
    project: Entries,
    facts: FileFacts,
) -> Result<ProfiledView, Seq<char>> {
    let name = typed.name@;
    match typed.entry {
        Err(detail) => Err(process_message(name, detail@)),
        Ok(entry) => if bare_document(raw) is None {
            Err("Process '"@ + name + "' must define a mapping"@)
        } else {
            match typed.base {
                Err(detail) => Err(process_message(name, "invalid base definition: "@ + detail@)),
                Ok(base_file) => match spec_reading(
                    base_file,
                    name,
                    base,
                    project,
                    facts,
                ) {
                    Err(message) => Err(message),
                    Ok(base_spec) => match variants_reading(
                        name,
                        entry.profiles@,
                        typed.patched@,
                        entry.profiles@.len() as int,
                        base,
                        project,
                        facts,
                    ) {
                        Err(message) => Err(message),
                        Ok(profiles) => match override_fault(
                            name,
                            option_view(entry.profile),
                            profiles,
                        ) {
                            Some(message) => Err(message),
                            None => Ok(
                                ProfiledView {
                                    base: base_spec,
                                    profiles,
                                    profile_override: option_view(entry.profile),
                                },
                            ),
                        },
                    },
                },
            }
        },
    }
}

fn owner_text(name: &str, profile: &str) -> (r: String)
    ensures
        r@ == profile_owner(name@, profile@),
{
    concat5("Process '", name, "' profile '", profile, "'")
}

fn check_fields(name: &str, profile: &str, entries: &Vec<(Yaml, Yaml)>) -> (r: Result<
    (),
    ConfigError,
>)
    ensures
        super::shapes::fault_of(r) == fields_fault(name@, profile@, tree_entries(entries@), 0),
{
    let ghost all = tree_entries(entries@);
    let mut index: usize = 0;
    while index < entries.len()
        invariant
            all == tree_entries(entries@),
            index <= entries.len(),
            fields_fault(name@, profile@, all, 0) == fields_fault(
                name@,
                profile@,
                all,
                index as int,
            ),
        decreases entries.len() - index,
    {
        proof {
            assert(all[index as int] == (entries@[index as int].0@, entries@[index as int].1@));
        }
        let owner = owner_text(name, profile);
        match entries[index].0.as_text() {
            None => {
                return Err(
                    ConfigError {
                        message: crate::text::concat2(
                            owner.as_str(),
                            " must use string field names",
                        ),
                    },
                );
            },
            Some(field) => {
                if !is_profile_field(field.as_str()) {
                    return Err(
                        ConfigError {
                            message: concat4(
                                owner.as_str(),
                                " cannot change field '",
                                field.as_str(),
                                "'; Process Profiles can change only command, shell, cwd, env_files, environment, enabled, and depends_on",
                            ),
                        },
                    );
                }
            },
        }
        index = index + 1;
    }
    Ok(())
}

fn check_patch(name: &str, profile: &str, patch: &Yaml) -> (r: Result<(), ConfigError>)
    ensures
        super::shapes::fault_of(r) == patch_fault(name@, profile@, patch@),
{
    if same_text(profile, "base") {
        return Err(
            ConfigError {
                message: concat4(
                    "Process '",
                    name,
                    "': ",
                    "Process Profile name 'base' is reserved for the base specification",
                ),
            },
        );
    }
    let owner = owner_text(name, profile);
    let entries = match patch.as_mapping() {
        Some(entries) => entries,
        None => {
            return Err(
                ConfigError {
                    message: crate::text::concat2(owner.as_str(), " must be a partial mapping"),
                },
            );
        },
    };
    if let Err(error) = check_fields(name, profile, entries) {
        return Err(error);
    }
    let mut named: Vec<(Yaml, Yaml)> = Vec::new();
    named.push((Yaml::Text(name.to_owned()), patch.duplicate()));
    proof {
        mapping_tree(named);
        assert(tree_entries(named@) =~= seq![(Tree::Text(name@), patch@)]);
    }
    let environment_check = Yaml::Mapping(named);
    validate_process_overrides(&environment_check, owner.as_str())
}

fn build_variant(
    name: &str,
    profile: &str,
    patch: &Yaml,
    typed: &Result<ProcessFile, String>,
    base_dir: &str,
    project_environment: &Vec<(String, String)>,
    facts: &FileFacts,
) -> (r: Result<ProcessSpec, ConfigError>)
    ensures
        spec_result(r) == variant_reading(
            name@,
            profile@,
            patch@,
            *typed,
            base_dir@,
            pairs(project_environment@),
            *facts,
        ),
{
    if let Err(error) = check_patch(name, profile, patch) {
        return Err(error);
    }
    let owner = owner_text(name, profile);
    let file = match typed {
        Ok(file) => file,
        Err(detail) => {
            return Err(
                ConfigError { message: concat3(owner.as_str(), ": ", detail.as_str()) },
            );
        },
    };
    match build_spec(file, name, base_dir, project_environment, facts) {
        Ok(spec) => Ok(spec),
        Err(error) => Err(
            ConfigError { message: concat3(owner.as_str(), ": ", error.message.as_str()) },
        ),
    }
}

proof fn early_variant_failure(
    name: Seq<char>,
    profiles: Seq<(String, Yaml)>,
    patched: Seq<Result<ProcessFile, String>>,
    at: int,
    end: int,
    base: Seq<char>,
    project: Entries,
    facts: FileFacts,
)
    requires
        0 < at <= end <= profiles.len(),
        variants_reading(name, profiles, patched, at, base, project, facts) is Err,
    ensures
        variants_reading(name, profiles, patched, end, base, project, facts) == variants_reading(
            name,
            profiles,
            patched,
            at,
            base,
            project,
            facts,
        ),
    decreases end - at,
{
    if at < end {
        early_variant_failure(name, profiles, patched, at, end - 1, base, project, facts);
    }
}

fn build_variants(
    name: &str,
    profiles: &Vec<(String, Yaml)>,
    patched: &Vec<Result<ProcessFile, String>>,
    base_dir: &str,
    project_environment: &Vec<(String, String)>,
    facts: &FileFacts,
) -> (r: Result<Vec<(String, ProcessSpec)>, ConfigError>)
    requires
        patched@.len() == profiles@.len(),
    ensures
        (match r {
            Ok(variants) => Ok(variant_views(variants@)),
            Err(error) => Err(error.message@),
        }) == variants_reading(
            name@,
            profiles@,
            patched@,
            profiles@.len() as int,
            base_dir@,
            pairs(project_environment@),
            *facts,
        ),
{
    let mut variants: Vec<(String, ProcessSpec)> = Vec::new();
    let ghost project = pairs(project_environment@);
    let mut index: usize = 0;
    proof {
        assert(variant_views(variants@) =~= Seq::<(Seq<char>, ProcessView)>::empty());
    }
    while index < profiles.len()
        invariant
            index <= profiles.len(),
            patched@.len() == profiles@.len(),
            project == pairs(project_environment@),
            variants_reading(
                name@,
                profiles@,
                patched@,
                index as int,
                base_dir@,
                project,
                *facts,
            ) == Ok::<Seq<(Seq<char>, ProcessView)>, Seq<char>>(variant_views(variants@)),
        decreases profiles.len() - index,
    {
        let ghost before = variant_views(variants@);
        match build_variant(
            name,
            profiles[index].0.as_str(),
            &profiles[index].1,
            &patched[index],
            base_dir,
            project_environment,
            facts,
        ) {
            Ok(spec) => {
                let ghost view = (profiles@[index as int].0@, spec@);
                variants.push((profiles[index].0.clone(), spec));
                proof {
                    assert(variant_views(variants@) =~= before.push(view));
                }
            },
            Err(error) => {
                proof {
                    early_variant_failure(
                        name@,
                        profiles@,
                        patched@,
                        index + 1,
                        profiles@.len() as int,
                        base_dir@,
                        project,
                        *facts,
                    );
                }
                return Err(error);
            },
        }
        index = index + 1;
    }
    Ok(variants)
}

/// One Process with its Process Profiles.
pub fn build_profiled_process(
    typed: &TypedProcess,
    raw: &Yaml,
    base_dir: &str,
    project_environment: &Vec<(String, String)>,
    facts: &FileFacts,
) -> (r: Result<ProfiledProcess, ConfigError>)
    requires
        typed.wf(),
    ensures
        (match r {
            Ok(profiled) => Ok(profiled@),
            Err(error) => Err(error.message@),
        }) == profiled_reading(
            *typed,
            raw@,
            base_dir@,
            pairs(project_environment@),
            *facts,
        ),
{
    proof {
        reveal(profiled_reading);
    }
    let name = typed.name.as_str();
    let entry = match &typed.entry {
        Ok(entry) => entry,
        Err(detail) => {
            return Err(
                ConfigError { message: concat4("Process '", name, "': ", detail.as_str()) },
            );
        },
    };
    if base_document(raw).is_none() {
        return Err(
            ConfigError { message: concat3("Process '", name, "' must define a mapping") },
        );
    }
    let base_file = match &typed.base {
        Ok(file) => file,
        Err(detail) => {
            let whole = crate::text::concat2("invalid base definition: ", detail.as_str());
            return Err(
                ConfigError { message: concat4("Process '", name, "': ", whole.as_str()) },
            );
        },
    };
    let base = match build_spec(base_file, name, base_dir, project_environment, facts) {
        Ok(spec) => spec,
        Err(error) => {
            return Err(error);
        },
    };
    let profiles = match build_variants(
        name,
        &entry.profiles,
        &typed.patched,
        base_dir,
        project_environment,
        facts,
    ) {
        Ok(profiles) => profiles,
        Err(error) => {
            return Err(error);
        },
    };
    if let Some(profile) = &entry.profile {
        if !same_text(profile.as_str(), "base") && find_variant(
            &profiles,
            profile.as_str(),
        ).is_none() {
            let whole = concat3(
                "profile override '",
                profile.as_str(),
                "' does not match a named Process Profile",
            );
            return Err(
                ConfigError { message: concat4("Process '", name, "': ", whole.as_str()) },
            );
        }
    }
    Ok(ProfiledProcess { base, profiles, profile_override: entry.profile.clone() })
}

proof fn variants_are_readings(
    name: Seq<char>,
    profiles: Seq<(String, Yaml)>,
    patched: Seq<Result<ProcessFile, String>>,
    count: int,
    base: Seq<char>,
    project: Entries,
    facts: FileFacts,
    at: int,
)
    requires
        0 <= at < count <= profiles.len(),
        variants_reading(name, profiles, patched, count, base, project, facts) is Ok,
    ensures
        ({
            let variants = variants_reading(
                name,
                profiles,
                patched,
                count,
                base,
                project,
                facts,
            )->Ok_0;
            &&& variants.len() == count
            &&& variants[at].0 == profiles[at].0@
            &&& patched[at] matches Ok(file) && spec_reading(file, name, base, project, facts)
                == Ok::<ProcessView, Seq<char>>(variants[at].1)
        }),
    decreases count,
{
    if at < count - 1 {
        variants_are_readings(name, profiles, patched, count - 1, base, project, facts, at);
    } else if count > 1 {
        variants_are_readings(name, profiles, patched, count - 1, base, project, facts, 0);
    }
}

/// The specification of a Process is built from its entry without profiles,
/// and the specification under a Process Profile from that document with the
/// patch of this profile laid over it.
pub proof fn profiles_are_laid_over_the_base<R: Fn(&Yaml) -> Result<ProcessFile, String>>(
    read: R,
    typed: TypedProcess,
    raw: Tree,
    base: Seq<char>,
    project: Entries,
    facts: FileFacts,
    at: int,
)
    requires
        typed_from(read, typed.name@, raw, typed),
        profiled_reading(typed, raw, base, project, facts) is Ok,
    ensures
        ({
            let reading = profiled_reading(typed, raw, base, project, facts)->Ok_0;
            let bare = bare_document(raw)->0;
            let name = typed.name@;
            &&& typed.entry is Ok
            &&& bare_document(raw) is Some
            &&& exists|file: ProcessFile|
                read_from(read, bare, Ok(file)) && #[trigger] spec_reading(
                    file,
                    name,
                    base,
                    project,
                    facts,
                ) == Ok::<ProcessView, Seq<char>>(reading.base)
            &&& reading.profiles.len() == typed.entry->Ok_0.profiles@.len()
            &&& 0 <= at < reading.profiles.len() ==> {
                let profile = typed.entry->Ok_0.profiles@[at];
                &&& reading.profiles[at].0 == profile.0@
                &&& exists|file: ProcessFile|
                    read_from(read, profiled(bare, profile.1@), Ok(file))
                        && #[trigger] spec_reading(file, name, base, project, facts) == Ok::<
                        ProcessView,
                        Seq<char>,
                    >(reading.profiles[at].1)
            }
        }),
{
    reveal(profiled_reading);
    let entry = typed.entry->Ok_0;
    let count = entry.profiles@.len() as int;
    if 0 <= at < count {
        variants_are_readings(
            typed.name@,
            entry.profiles@,
            typed.patched@,
            count,
            base,
            project,
            facts,
            at,
        );
        assert(read_from(
            read,
            profiled(bare_document(raw)->0, entry.profiles@[at].1@),
            typed.patched@[at],
        ));
    } else if count > 0 {
        variants_are_readings(
            typed.name@,
            entry.profiles@,
            typed.patched@,
            count,
            base,
            project,
            facts,
            0,
        );
    }
}

} // verus!
