use std::cell::RefCell;
use std::collections::BTreeMap;
use std::fmt;
use std::marker::PhantomData;

use serde::de::{Error as DeError, IgnoredAny, MapAccess, SeqAccess, Visitor};
use serde::{Deserialize, Deserializer};
use serde_yaml::Value;
use stackhand::config::diagnostics::YamlFault;
use stackhand::config::document::{parse_yaml, tree_from_value, value_from_tree, write_yaml};
use stackhand::config::env::{build_process_environment, load_files};
use stackhand::config::error::ConfigError;
use stackhand::config::file::{
    ConfigFile, ExecFile, HttpProbeFile, LogProbeFile, ProcessFile, ProjectProfileFile,
    ReadinessFile, RestartFile, SettingsFile, ShellFile, TcpProbeFile, TerminalSettings,
};
use stackhand::config::layers::Document;
use stackhand::config::load::{
    load, load_file_with_local, resolve, show_project, type_document, validate_project,
    validate_project_sources, validate_project_with_profile, ProjectResolution, ResolutionRequest, TypedFile,
    BASE_FILE_NAME, LOCAL_FILE_NAME,
};
use stackhand::config::paths::{FileContent, FileFacts};
use stackhand::config::profiled::type_process;
use stackhand::config::readiness::parse_http_url;
use stackhand::config::show::{dependencies, duration, render};
use stackhand::duration::Duration;
use stackhand::model::{
    Autostart, CommandForm, DependencyCondition, DependencySpec, Enabled, InputPolicy, ProcessKind,
    ProcessSpec, ReadinessProbe, RestartPolicy, TerminalMode,
};
use stackhand::project::EffectiveProject;
use stackhand::yaml::Yaml;

/// How one record of the schema is read, field by field.
trait Record: Sized {
    const EXPECTING: &'static str;
    const FIELDS: &'static [&'static str];
    const REQUIRED: &'static [&'static str];

    fn blank() -> Self;

    fn read<'de, A: MapAccess<'de>>(&mut self, field: &str, map: &mut A) -> Result<(), A::Error>;
}

struct Read<T>(T);

struct RecordVisitor<T>(PhantomData<T>);

impl<'de, T: Record> Visitor<'de> for RecordVisitor<T> {
    type Value = T;

    fn expecting(&self, formatter: &mut fmt::Formatter<'_>) -> fmt::Result {
        formatter.write_str(T::EXPECTING)
    }

    fn visit_map<A: MapAccess<'de>>(self, mut map: A) -> Result<T, A::Error> {
        let mut record = T::blank();
        let mut seen: Vec<String> = Vec::new();
        while let Some(field) = map.next_key::<String>()? {
            if !T::FIELDS.contains(&field.as_str()) {
                return Err(DeError::unknown_field(&field, T::FIELDS));
            }
            record.read(&field, &mut map)?;
            seen.push(field);
        }
        for field in T::REQUIRED {
            if !seen.iter().any(|name| name == field) {
                return Err(DeError::missing_field(field));
            }
        }
        Ok(record)
    }
}

impl<'de, T: Record> Deserialize<'de> for Read<T> {
    fn deserialize<D: Deserializer<'de>>(deserializer: D) -> Result<Self, D::Error> {
        deserializer
            .deserialize_struct("record", T::FIELDS, RecordVisitor(PhantomData))
            .map(Read)
    }
}

fn plain<T>(value: Option<Read<T>>) -> Option<T> {
    value.map(|value| value.0)
}

struct OrderedVisitor<T> {
    expecting: &'static str,
    sequence_hint: &'static str,
    subject: &'static str,
    marker: PhantomData<T>,
}

impl<'de, T: Deserialize<'de>> Visitor<'de> for OrderedVisitor<T> {
    type Value = Vec<(String, T)>;

    fn expecting(&self, formatter: &mut fmt::Formatter<'_>) -> fmt::Result {
        formatter.write_str(self.expecting)
    }

    fn visit_seq<A: SeqAccess<'de>>(self, _sequence: A) -> Result<Self::Value, A::Error> {
        Err(DeError::custom(self.sequence_hint))
    }

    fn visit_map<A: MapAccess<'de>>(self, mut map: A) -> Result<Self::Value, A::Error> {
        let mut entries: Vec<(String, T)> = Vec::new();
        while let Some(name) = map.next_key::<String>()? {
            if entries.iter().any(|(known, _)| *known == name) {
                return Err(DeError::custom(format!("duplicate {} name '{name}'", self.subject)));
            }
            let value = map.next_value::<T>()?;
            entries.push((name, value));
        }
        Ok(entries)
    }
}

struct Groups(Vec<(String, Vec<String>)>);

impl<'de> Deserialize<'de> for Groups {
    fn deserialize<D: Deserializer<'de>>(deserializer: D) -> Result<Self, D::Error> {
        deserializer
            .deserialize_any(OrderedVisitor {
                expecting: "a name-keyed mapping of Process Groups",
                sequence_hint: "groups must be a name-keyed mapping; use 'groups: {Group name: [process-name]}'",
                subject: "Process Group",
                marker: PhantomData,
            })
            .map(Groups)
    }
}

struct Processes(Vec<(String, Read<ProcessFile>)>);

impl<'de> Deserialize<'de> for Processes {
    fn deserialize<D: Deserializer<'de>>(deserializer: D) -> Result<Self, D::Error> {
        deserializer
            .deserialize_any(OrderedVisitor {
                expecting: "a name-keyed mapping of Processes",
                sequence_hint: "processes must be a name-keyed mapping; use 'processes: {name: {...}}'",
                subject: "Process",
                marker: PhantomData,
            })
            .map(Processes)
    }
}

struct Dependencies(Vec<(String, Option<Value>)>);

impl<'de> Deserialize<'de> for Dependencies {
    fn deserialize<D: Deserializer<'de>>(deserializer: D) -> Result<Self, D::Error> {
        deserializer
            .deserialize_any(OrderedVisitor {
                expecting: "a name-keyed mapping of Dependencies",
                sequence_hint: "depends_on must be a name-keyed mapping; use 'depends_on: {process-name: condition}'",
                subject: "Dependency",
                marker: PhantomData,
            })
            .map(Dependencies)
    }
}

struct Command(Vec<Value>);

impl<'de> Deserialize<'de> for Command {
    fn deserialize<D: Deserializer<'de>>(deserializer: D) -> Result<Self, D::Error> {
        match Value::deserialize(deserializer)? {
            Value::Sequence(values) => Ok(Command(values)),
            _ => Err(DeError::custom(
                "command must be a sequence of the program and arguments; use 'command: [program, arg1, ...]' (use a sibling 'shell:' field for shell expressions)",
            )),
        }
    }
}

struct Terminal(TerminalSettings);

impl<'de> Deserialize<'de> for Terminal {
    fn deserialize<D: Deserializer<'de>>(deserializer: D) -> Result<Self, D::Error> {
        match Value::deserialize(deserializer)? {
            Value::Mapping(map) => {
                let settings: Read<TerminalSettings> =
                    serde_yaml::from_value(Value::Mapping(map)).map_err(DeError::custom)?;
                Ok(Terminal(settings.0))
            }
            _ => Err(DeError::custom(
                "terminal must be a mapping with 'mode' and optional 'input'; use 'terminal: {mode: pipe|pty, input: disabled|focused}'",
            )),
        }
    }
}

fn trees(values: Vec<Value>) -> Vec<Yaml> {
    values.into_iter().map(tree_from_value).collect()
}

impl Record for ConfigFile {
    const EXPECTING: &'static str = "struct ConfigFile";
    const FIELDS: &'static [&'static str] = &[
        "version", "base_profile_name", "env_files", "profiles", "groups", "processes", "settings",
    ];
    const REQUIRED: &'static [&'static str] = &["version"];

    fn blank() -> Self {
        ConfigFile {
            base_profile_name: None,
            env_files: None,
            profiles: Vec::new(),
            groups: Vec::new(),
            processes: Vec::new(),
            settings: None,
        }
    }

    fn read<'de, A: MapAccess<'de>>(&mut self, field: &str, map: &mut A) -> Result<(), A::Error> {
        match field {
            "version" => {
                map.next_value::<u64>()?;
            }
            "base_profile_name" => self.base_profile_name = map.next_value()?,
            "env_files" => self.env_files = map.next_value()?,
            "profiles" => {
                let profiles: Option<BTreeMap<String, Read<ProjectProfileFile>>> =
                    map.next_value()?;
                self.profiles = profiles
                    .unwrap_or_default()
                    .into_iter()
                    .map(|(name, profile)| (name, profile.0))
                    .collect();
            }
            "groups" => self.groups = map.next_value::<Groups>()?.0,
            "processes" => {
                self.processes = map
                    .next_value::<Processes>()?
                    .0
                    .into_iter()
                    .map(|(name, process)| (name, process.0))
                    .collect();
            }
            _ => self.settings = plain(map.next_value()?),
        }
        Ok(())
    }
}

impl Record for ProjectProfileFile {
    const EXPECTING: &'static str = "struct ProjectProfileFile";
    const FIELDS: &'static [&'static str] = &["env_files"];
    const REQUIRED: &'static [&'static str] = &[];

    fn blank() -> Self {
        ProjectProfileFile { env_files: None }
    }

    fn read<'de, A: MapAccess<'de>>(&mut self, _field: &str, map: &mut A) -> Result<(), A::Error> {
        self.env_files = map.next_value()?;
        Ok(())
    }
}

impl Record for SettingsFile {
    const EXPECTING: &'static str = "struct SettingsFile";
    const FIELDS: &'static [&'static str] = &["shell", "port_discovery"];
    const REQUIRED: &'static [&'static str] = &[];

    fn blank() -> Self {
        SettingsFile { shell: None, port_discovery: None }
    }

    fn read<'de, A: MapAccess<'de>>(&mut self, field: &str, map: &mut A) -> Result<(), A::Error> {
        match field {
            "shell" => self.shell = plain(map.next_value()?),
            _ => self.port_discovery = map.next_value()?,
        }
        Ok(())
    }
}

impl Record for ShellFile {
    const EXPECTING: &'static str = "struct ShellFile";
    const FIELDS: &'static [&'static str] = &["program", "args"];
    const REQUIRED: &'static [&'static str] = &[];

    fn blank() -> Self {
        ShellFile { program: None, args: None }
    }

    fn read<'de, A: MapAccess<'de>>(&mut self, field: &str, map: &mut A) -> Result<(), A::Error> {
        match field {
            "program" => self.program = map.next_value()?,
            _ => self.args = map.next_value()?,
        }
        Ok(())
    }
}

impl Record for ProcessFile {
    const EXPECTING: &'static str = "struct ProcessFile";
    const FIELDS: &'static [&'static str] = &[
        "profile",
        "profiles",
        "kind",
        "enabled",
        "autostart",
        "cwd",
        "env_files",
        "environment",
        "terminal",
        "success_exit_codes",
        "depends_on",
        "ready",
        "liveness",
        "restart",
        "command",
        "shell",
    ];
    const REQUIRED: &'static [&'static str] = &[];

    fn blank() -> Self {
        ProcessFile {
            profile: None,
            profiles: Vec::new(),
            kind: None,
            enabled: None,
            autostart: None,
            cwd: None,
            env_files: Vec::new(),
            environment: Vec::new(),
            terminal: None,
            success_exit_codes: None,
            depends_on: Vec::new(),
            ready: None,
            liveness: None,
            restart: None,
            command: None,
            shell: None,
        }
    }

    fn read<'de, A: MapAccess<'de>>(&mut self, field: &str, map: &mut A) -> Result<(), A::Error> {
        match field {
            "profile" => self.profile = map.next_value()?,
            "profiles" => {
                let profiles: Option<BTreeMap<String, Value>> = map.next_value()?;
                self.profiles = profiles
                    .unwrap_or_default()
                    .into_iter()
                    .map(|(name, patch)| (name, tree_from_value(patch)))
                    .collect();
            }
            "kind" => self.kind = map.next_value()?,
            "enabled" => self.enabled = map.next_value()?,
            "autostart" => self.autostart = map.next_value()?,
            "cwd" => self.cwd = map.next_value()?,
            "env_files" => {
                self.env_files = map.next_value::<Option<Vec<String>>>()?.unwrap_or_default();
            }
            "environment" => {
                let entries: Option<BTreeMap<String, Option<String>>> = map.next_value()?;
                self.environment = entries.unwrap_or_default().into_iter().collect();
            }
            "terminal" => {
                self.terminal = map.next_value::<Option<Terminal>>()?.map(|value| value.0);
            }
            "success_exit_codes" => self.success_exit_codes = map.next_value()?,
            "depends_on" => {
                let entries: Option<Dependencies> = map.next_value()?;
                self.depends_on = entries
                    .map(|entries| entries.0)
                    .unwrap_or_default()
                    .into_iter()
                    .map(|(name, value)| (name, value.map(tree_from_value)))
                    .collect();
            }
            "ready" => self.ready = plain(map.next_value()?),
            "liveness" => self.liveness = plain(map.next_value()?),
            "restart" => self.restart = plain(map.next_value()?),
            "command" => {
                self.command = map.next_value::<Option<Command>>()?.map(|value| trees(value.0));
            }
            _ => self.shell = map.next_value()?,
        }
        Ok(())
    }
}

impl Record for RestartFile {
    const EXPECTING: &'static str = "struct RestartFile";
    const FIELDS: &'static [&'static str] = &["policy", "backoff", "max_restarts", "on_unhealthy"];
    const REQUIRED: &'static [&'static str] = &[];

    fn blank() -> Self {
        RestartFile { policy: None, backoff: None, max_restarts: None, on_unhealthy: None }
    }

    fn read<'de, A: MapAccess<'de>>(&mut self, field: &str, map: &mut A) -> Result<(), A::Error> {
        match field {
            "policy" => self.policy = map.next_value()?,
            "backoff" => self.backoff = map.next_value()?,
            "max_restarts" => self.max_restarts = map.next_value()?,
            _ => self.on_unhealthy = map.next_value()?,
        }
        Ok(())
    }
}

impl Record for TerminalSettings {
    const EXPECTING: &'static str = "struct TerminalSettings";
    const FIELDS: &'static [&'static str] = &["mode", "input"];
    const REQUIRED: &'static [&'static str] = &[];

    fn blank() -> Self {
        TerminalSettings { mode: None, input: None }
    }

    fn read<'de, A: MapAccess<'de>>(&mut self, field: &str, map: &mut A) -> Result<(), A::Error> {
        match field {
            "mode" => self.mode = map.next_value()?,
            _ => self.input = map.next_value()?,
        }
        Ok(())
    }
}

impl Record for ReadinessFile {
    const EXPECTING: &'static str = "struct ReadinessFile";
    const FIELDS: &'static [&'static str] = &[
        "tcp",
        "http",
        "exec",
        "log",
        "all",
        "any",
        "initial_delay",
        "interval",
        "timeout",
        "success_threshold",
        "failure_threshold",
        "startup_timeout",
    ];
    const REQUIRED: &'static [&'static str] = &[];

    fn blank() -> Self {
        ReadinessFile {
            tcp: None,
            http: None,
            exec_check: None,
            log: None,
            all: None,
            any: false,
            initial_delay: None,
            interval: None,
            timeout: None,
            success_threshold: None,
            failure_threshold: None,
            startup_timeout: None,
        }
    }

    fn read<'de, A: MapAccess<'de>>(&mut self, field: &str, map: &mut A) -> Result<(), A::Error> {
        match field {
            "tcp" => self.tcp = plain(map.next_value()?),
            "http" => self.http = plain(map.next_value()?),
            "exec" => self.exec_check = plain(map.next_value()?),
            "log" => self.log = plain(map.next_value()?),
            "all" => {
                self.all = map
                    .next_value::<Option<Vec<Read<ReadinessFile>>>>()?
                    .map(|checks| checks.into_iter().map(|check| check.0).collect());
            }
            "any" => self.any = map.next_value::<Option<IgnoredAny>>()?.is_some(),
            "initial_delay" => self.initial_delay = map.next_value()?,
            "interval" => self.interval = map.next_value()?,
            "timeout" => self.timeout = map.next_value()?,
            "success_threshold" => self.success_threshold = map.next_value()?,
            "failure_threshold" => self.failure_threshold = map.next_value()?,
            _ => self.startup_timeout = map.next_value()?,
        }
        Ok(())
    }
}

impl Record for TcpProbeFile {
    const EXPECTING: &'static str = "struct TcpProbeFile";
    const FIELDS: &'static [&'static str] = &["host", "port"];
    const REQUIRED: &'static [&'static str] = &["host", "port"];

    fn blank() -> Self {
        TcpProbeFile { host: String::new(), port: 0 }
    }

    fn read<'de, A: MapAccess<'de>>(&mut self, field: &str, map: &mut A) -> Result<(), A::Error> {
        match field {
            "host" => self.host = map.next_value()?,
            _ => self.port = map.next_value()?,
        }
        Ok(())
    }
}

impl Record for HttpProbeFile {
    const EXPECTING: &'static str = "struct HttpProbeFile";
    const FIELDS: &'static [&'static str] = &["url"];
    const REQUIRED: &'static [&'static str] = &["url"];

    fn blank() -> Self {
        HttpProbeFile { url: String::new() }
    }

    fn read<'de, A: MapAccess<'de>>(&mut self, _field: &str, map: &mut A) -> Result<(), A::Error> {
        self.url = map.next_value()?;
        Ok(())
    }
}

impl Record for LogProbeFile {
    const EXPECTING: &'static str = "struct LogProbeFile";
    const FIELDS: &'static [&'static str] = &["contains"];
    const REQUIRED: &'static [&'static str] = &["contains"];

    fn blank() -> Self {
        LogProbeFile { contains: String::new() }
    }

    fn read<'de, A: MapAccess<'de>>(&mut self, _field: &str, map: &mut A) -> Result<(), A::Error> {
        self.contains = map.next_value()?;
        Ok(())
    }
}

impl Record for ExecFile {
    const EXPECTING: &'static str = "struct ExecFile";
    const FIELDS: &'static [&'static str] =
        &["command", "shell", "cwd", "environment", "success_exit_codes"];
    const REQUIRED: &'static [&'static str] = &[];

    fn blank() -> Self {
        ExecFile {
            command: None,
            shell: None,
            cwd: None,
            environment: Vec::new(),
            success_exit_codes: None,
        }
    }

    fn read<'de, A: MapAccess<'de>>(&mut self, field: &str, map: &mut A) -> Result<(), A::Error> {
        match field {
            "command" => {
                self.command = map.next_value::<Option<Command>>()?.map(|value| trees(value.0));
            }
            "shell" => self.shell = map.next_value()?,
            "cwd" => self.cwd = map.next_value()?,
            "environment" => {
                let entries: Option<BTreeMap<String, String>> = map.next_value()?;
                self.environment = entries.unwrap_or_default().into_iter().collect();
            }
            _ => self.success_exit_codes = map.next_value()?,
        }
        Ok(())
    }
}

fn typed_process(tree: &Yaml) -> Result<ProcessFile, String> {
    let text = if tree.is_null() { "{}".to_string() } else { write_yaml(tree)? };
    let read: Result<Read<ProcessFile>, serde_yaml::Error> = serde_yaml::from_str(&text);
    read.map(|process| process.0).map_err(|error| error.to_string())
}

/// Read the file of a document into typed form.
fn typed_file(document: &Document, facts: &FileFacts) -> Result<TypedFile, YamlFault> {
    let read: Result<Read<ConfigFile>, serde_yaml::Error> = serde_yaml::from_str(&document.text);
    let file = read.map_err(|error| YamlFault {
        message: error.to_string(),
        location: error.location().map(|place| (place.line(), place.column())),
    })?;
    Ok(TypedFile { file: file.0, facts: facts.clone() })
}

const PROGRAMS: [&str; 8] = [
    "/bin/true",
    "/usr/bin/true",
    "/bin/sleep",
    "/bin/echo",
    "/bin/sh",
    "/bin/bash",
    "/usr/bin/printf",
    "/usr/bin/test",
];

/// Files and directories as a Project finds them.
struct Disk {
    files: Vec<(String, Vec<u8>)>,
    directories: Vec<String>,
}

impl Disk {
    fn new() -> Self {
        let mut disk = Disk { files: Vec::new(), directories: Vec::new() };
        disk.directory("/");
        disk.directory("/tmp");
        disk.directory("/project");
        disk
    }

    fn directory(&mut self, path: &str) {
        self.directories.push(path.to_string());
    }

    fn file(&mut self, path: &str, text: &str) {
        self.files.push((path.to_string(), text.as_bytes().to_vec()));
    }

    fn facts(&self) -> FileFacts {
        let mut files: Vec<String> = PROGRAMS.iter().map(|path| path.to_string()).collect();
        let mut contents: Vec<(String, FileContent)> = Vec::new();
        for (path, bytes) in &self.files {
            files.push(path.clone());
            contents.push((path.clone(), FileContent::Bytes(bytes.clone())));
        }
        FileFacts { files, directories: self.directories.clone(), contents }
    }

    fn read(&self, path: &str) -> Result<String, String> {
        for (known, bytes) in &self.files {
            if known == path {
                return Ok(String::from_utf8(bytes.clone()).expect("the file is text"));
            }
        }
        Err("No such file or directory (os error 2)".to_string())
    }

    fn load(&self, path: &str, profile: Option<&str>) -> Result<EffectiveProject, ConfigError> {
        load_file_with_local(
            path,
            profile,
            self.read(path),
            None,
            |document: &Document| typed_file(document, &self.facts()),
            typed_process,
        )
    }

    fn resolve(&self, request: ResolutionRequest) -> Result<ProjectResolution, ConfigError> {
        resolve(
            request,
            "/",
            &self.facts(),
            |path: &str| self.read(path),
            |document: &Document| typed_file(document, &self.facts()),
            typed_process,
        )
    }
}

fn write_and_load(_label: &str, yaml: &str) -> Result<EffectiveProject, ConfigError> {
    load_with_profile(_label, yaml, None)
}

fn load_with_profile(
    _label: &str,
    yaml: &str,
    profile: Option<&str>,
) -> Result<EffectiveProject, ConfigError> {
    let mut disk = Disk::new();
    disk.file("/project/stackhand.yaml", yaml);
    disk.load("/project/stackhand.yaml", profile)
}

fn direct_args(process: &ProcessSpec) -> Vec<&str> {
    let CommandForm::Direct { args, .. } = &process.command else {
        panic!("the test Process uses a direct command");
    };
    args.iter().map(|arg| arg.as_str()).collect()
}

fn discover(directory: &str, profile: Option<&str>) -> ResolutionRequest {
    ResolutionRequest::Discover {
        start_dir: Some(directory.to_string()),
        profile: profile.map(|name| name.to_string()),
    }
}

#[test]
fn removed_yaml_forms_name_their_canonical_replacements() {
    let cases = [
        (
            "process-list",
            "version: 1\nprocesses:\n  - name: web\n    command: [/bin/true]\n",
            "processes must be a name-keyed mapping",
            "use 'processes: {name: {...}}'",
        ),
        (
            "dependency-list",
            "version: 1\nprocesses:\n  web:\n    depends_on: [db]\n    command: [/bin/true]\n  db:\n    command: [/bin/true]\n",
            "depends_on must be a name-keyed mapping",
            "use 'depends_on: {process-name: condition}'",
        ),
        (
            "group-list",
            "version: 1\ngroups: [web]\nprocesses:\n  web:\n    command: [/bin/true]\n",
            "groups must be a name-keyed mapping",
            "use 'groups: {Group name: [process-name]}'",
        ),
        (
            "command-map",
            "version: 1\nprocesses:\n  web:\n    command: {program: /bin/true}\n",
            "command must be a sequence",
            "use 'command: [program, arg1, ...]'",
        ),
        (
            "working-directory",
            "version: 1\nprocesses:\n  web:\n    working_dir: .\n    command: [/bin/true]\n",
            "unknown field `working_dir`",
            "use `cwd` instead",
        ),
        (
            "environment",
            "version: 1\nprocesses:\n  web:\n    env: {MODE: test}\n    command: [/bin/true]\n",
            "unknown field `env`",
            "use `environment` instead",
        ),
        (
            "input",
            "version: 1\nprocesses:\n  web:\n    input: focused\n    command: [/bin/true]\n",
            "unknown field `input`",
            "put `input` under the `terminal` mapping instead",
        ),
        (
            "terminal-scalar",
            "version: 1\nprocesses:\n  web:\n    terminal: pty\n    command: [/bin/true]\n",
            "terminal must be a mapping",
            "use 'terminal: {mode: pipe|pty, input: disabled|focused}'",
        ),
    ];

    for (label, yaml, old_form, replacement) in cases {
        let error = write_and_load(label, yaml).expect_err("the temporary form must fail");
        assert!(error.message.contains(old_form), "{label}: {error:?}");
        assert!(error.message.contains(replacement), "{label}: {error:?}");
    }
}

#[test]
fn tests_one_direct_command_service_loads_with_defaults() {
    let project = write_and_load(
        "ok",
        "version: 1\nprocesses:\n  web:\n    command: [/bin/sleep, \"1\"]\n",
    )
    .expect("valid config");
    assert_eq!(project.processes().len(), 1);
    let web = &project.processes()[0];
    assert_eq!(web.name, "web");
    assert_eq!(web.kind, ProcessKind::Service);
    assert_eq!(web.enabled, Enabled::Yes);
    assert_eq!(web.autostart, Autostart::Yes);
    assert_eq!(web.success_exit_codes, vec![0]);
    assert_eq!(web.restart.policy, RestartPolicy::Never);
    assert_eq!(web.restart.backoff, Duration::from_secs(2));
    assert_eq!(web.restart.max_restarts, 5);
    assert_eq!(web.terminal_mode, TerminalMode::Pty);
    assert_eq!(web.input_policy, InputPolicy::Focused);
}

#[test]
fn pipe_mode_disables_input_by_default() {
    let project = write_and_load(
        "explicit-pipe",
        "version: 1\nprocesses:\n  web:\n    terminal: {mode: pipe}\n    command: [/bin/sleep, \"1\"]\n",
    )
    .expect("explicit pipe config is valid");
    let web = &project.processes()[0];

    assert_eq!(web.terminal_mode, TerminalMode::Pipe);
    assert_eq!(web.input_policy, InputPolicy::Disabled);
}

#[test]
fn pty_input_can_be_disabled_explicitly() {
    let project = write_and_load(
        "disabled-pty-input",
        "version: 1\nprocesses:\n  web:\n    terminal: {mode: pty, input: disabled}\n    command: [/bin/sleep, \"1\"]\n",
    )
    .expect("explicitly disabled PTY input is valid");
    let web = &project.processes()[0];

    assert_eq!(web.terminal_mode, TerminalMode::Pty);
    assert_eq!(web.input_policy, InputPolicy::Disabled);
}

#[test]
fn restart_policy_and_backoff_load_with_explicit_values() {
    for (policy, expected) in [
        ("never", RestartPolicy::Never),
        ("on_failure", RestartPolicy::OnFailure),
        ("always", RestartPolicy::Always),
    ] {
        let project = write_and_load(
                policy,
                &format!(
                    "version: 1\nprocesses:\n  web:\n    restart: {{policy: {policy}, backoff: 1500ms, max_restarts: 3}}\n    command: [/bin/sleep, \"1\"]\n"
                ),
            )
            .expect("valid restart settings");
        assert_eq!(project.processes()[0].restart.policy, expected);
        assert_eq!(
            project.processes()[0].restart.backoff,
            Duration::from_millis(1500)
        );
        assert_eq!(project.processes()[0].restart.max_restarts, 3);
    }
}

#[test]
fn restart_budget_defaults_to_five_and_accepts_zero_or_more_retries() {
    let omitted = write_and_load(
        "restart-budget-default",
        "version: 1\nprocesses:\n  web:\n    restart: {policy: on_failure}\n    command: [/usr/bin/true]\n",
    )
    .expect("an automatic policy may omit its budget");
    assert_eq!(omitted.processes()[0].restart.max_restarts, 5);

    for max_restarts in [0, 1, 12] {
        let project = write_and_load(
            &format!("restart-budget-{max_restarts}"),
            &format!(
                "version: 1\nprocesses:\n  web:\n    restart: {{policy: on_failure, max_restarts: {max_restarts}}}\n    command: [/usr/bin/true]\n"
            ),
        )
        .expect("a nonnegative whole-number budget is valid");
        assert_eq!(project.processes()[0].restart.max_restarts, max_restarts);
    }
}

#[test]
fn invalid_restart_settings_are_rejected() {
    let policy = write_and_load(
            "restart-policy-invalid",
            "version: 1\nprocesses:\n  web:\n    restart: {policy: sometimes}\n    command: [/usr/bin/true]\n",
        )
        .expect_err("an unknown restart policy must fail");
    assert!(policy.message.contains("restart.policy"));

    let backoff = write_and_load(
        "restart-backoff-zero",
        "version: 1\nprocesses:\n  web:\n    restart: {backoff: 0s}\n    command: [/usr/bin/true]\n",
    )
    .expect_err("a zero restart backoff must fail");
    assert!(
        backoff
            .message
            .contains("backoff must be greater than zero")
    );

    for (label, value) in [
        ("restart-budget-negative", "-1"),
        ("restart-budget-float", "1.5"),
    ] {
        let error = write_and_load(
            label,
            &format!(
                "version: 1\nprocesses:\n  web:\n    restart: {{max_restarts: {value}}}\n    command: [/usr/bin/true]\n"
            ),
        )
        .expect_err("the restart budget must be a nonnegative whole number");
        assert!(error.message.contains("max_restarts"), "{}", error.message);
    }
}

#[test]
fn always_restart_is_rejected_for_one_shots() {
    let error = write_and_load(
            "restart-one-shot-always",
            "version: 1\nprocesses:\n  setup:\n    kind: one-shot\n    restart: {policy: always}\n    command: [/usr/bin/true]\n",
        )
        .expect_err("always is invalid for a One-shot");
    assert!(
        error.message.contains("restart.policy 'always'")
            && error.message.contains("valid only for Services"),
        "{}",
        error.message
    );
}

#[test]
fn project_shell_defaults_to_sh_without_login_flags() {
    let project = write_and_load(
        "shell-default",
        "version: 1\nprocesses:\n  web:\n    shell: 'printf shell-ok'\n",
    )
    .expect("the default shell is valid");
    assert_eq!(project.shell().program, "/bin/sh");
    assert_eq!(project.shell().args, ["-c"]);
}

#[test]
fn port_discovery_is_project_wide_and_defaults_off() {
    let disabled = write_and_load(
        "port-discovery-default",
        "version: 1\nprocesses:\n  web:\n    command: [/usr/bin/true]\n",
    )
    .expect("the default Project is valid");
    assert!(!disabled.port_discovery());

    let enabled = write_and_load(
        "port-discovery-enabled",
        "version: 1\nsettings:\n  port_discovery: true\nprocesses:\n  web:\n    command: [/usr/bin/true]\n",
    )
    .expect("the enabled Project is valid");
    assert!(enabled.port_discovery());
}

#[test]
fn project_shell_accepts_an_explicit_launcher_and_argument_list() {
    let project = write_and_load(
            "shell-explicit",
            "version: 1\nsettings:\n  shell:\n    program: /bin/bash\n    args: [-c]\nprocesses:\n  web:\n    shell: 'printf shell-ok'\n",
        )
        .expect("the explicit shell is valid");
    assert_eq!(
        project.shell().program,
        "/bin/bash"
    );
    assert_eq!(project.shell().args, ["-c"]);
}

#[test]
fn unusable_project_shell_settings_are_rejected() {
    let empty_program = write_and_load(
        "shell-empty-program",
        "version: 1\nsettings:\n  shell:\n    program: ''\n    args: [-c]\nprocesses: {}\n",
    )
    .expect_err("an empty shell program must fail");
    assert!(empty_program.message.contains("program must not be empty"));

    let empty_args = write_and_load(
        "shell-empty-args",
        "version: 1\nsettings:\n  shell:\n    program: /bin/sh\n    args: []\nprocesses: {}\n",
    )
    .expect_err("empty shell args must fail");
    assert!(empty_args.message.contains("args must contain"));
}

#[test]
fn tests_missing_working_directories_are_rejected_with_the_process_name() {
    let error = write_and_load(
        "missing-cwd",
        "version: 1\nprocesses:\n  web:\n    cwd: ./nope\n    command: [/usr/bin/true]\n",
    )
    .expect_err("a missing working directory must fail");
    assert!(
        error.message.contains("Process 'web'") && error.message.contains("working directory"),
        "{}",
        error.message
    );
}

#[test]
fn tests_unsupported_versions_are_rejected() {
    let error =
        write_and_load("version", "version: 2\nprocesses: {}\n").expect_err("version 2 must fail");
    assert!(error.message.contains("unsupported schema version 2"));
}

#[test]
fn tests_unknown_fields_are_rejected() {
    let error = write_and_load(
        "unknown",
        "version: 1\nprocesses:\n  web:\n    comand:\n      program: /usr/bin/true\n",
    )
    .expect_err("unknown field must fail");
    assert!(error.message.contains("unknown field"), "{}", error.message);
}

#[test]
fn tests_multiple_unique_processes_load_with_their_flags() {
    let project = write_and_load(
        "multi",
        "version: 1
processes:
  web:
    command: [/bin/sleep, \"1\"]
  worker:
    autostart: false
    command: [/bin/sleep, \"1\"]
  debug:
    enabled: false
    command: [/bin/sleep, \"1\"]
",
    )
    .expect("valid config");

    let names: Vec<_> = project
        .processes()
        .iter()
        .map(|p| p.name.as_str())
        .collect();
    assert_eq!(names, ["web", "worker", "debug"]);
    // Unset flags default to true; explicit flags surface as set.
    assert_eq!(project.processes()[0].enabled, Enabled::Yes);
    assert_eq!(project.processes()[0].autostart, Autostart::Yes);
    assert_eq!(project.processes()[1].autostart, Autostart::No);
    assert_eq!(project.processes()[2].enabled, Enabled::No);
}

#[test]
fn keyed_processes_and_dependencies_preserve_order_and_conditions() {
    let project = write_and_load(
        "keyed",
        "version: 1
processes:
  web:
    kind: service
    depends_on:
      started-service: started
      ready-service: ready
      exited-source: exited
      completed-source: completed_successfully
    command: [/usr/bin/true]
  started-service:
    command: [/usr/bin/true]
  ready-service:
    command: [/usr/bin/true]
  exited-source:
    kind: one-shot
    command: [/usr/bin/true]
  completed-source:
    kind: one-shot
    command: [/usr/bin/true]
",
    )
    .expect("keyed configuration is valid");

    let names: Vec<_> = project
        .processes()
        .iter()
        .map(|process| process.name.as_str())
        .collect();
    assert_eq!(
        names,
        [
            "web",
            "started-service",
            "ready-service",
            "exited-source",
            "completed-source"
        ]
    );
    assert_eq!(
        project.processes()[0].dependencies,
        vec![
            DependencySpec {
                name: "started-service".to_string(),
                condition: DependencyCondition::Started,
            },
            DependencySpec {
                name: "ready-service".to_string(),
                condition: DependencyCondition::Ready,
            },
            DependencySpec {
                name: "exited-source".to_string(),
                condition: DependencyCondition::Exited,
            },
            DependencySpec {
                name: "completed-source".to_string(),
                condition: DependencyCondition::CompletedSuccessfully,
            },
        ]
    );
}

#[test]
fn keyed_process_map_owns_the_process_name() {
    let project = write_and_load(
        "keyed-name",
        "version: 1
processes:
  web:
    command: [/usr/bin/true]
",
    )
    .expect("a keyed Process does not need a nested name");
    assert_eq!(project.processes()[0].name, "web");
}

#[test]
fn temporary_nested_process_names_name_the_canonical_map_key() {
    let error = write_and_load(
        "temporary-process-name",
        "version: 1
processes:
  web:
    name: api
    command: [/usr/bin/true]
",
    )
    .expect_err("a Process name must not be nested in a keyed Process");
    assert!(
        error.message.contains("unknown field `name`")
            && error
                .message
                .contains("put the Process name in the `processes` map key instead"),
        "{}",
        error.message
    );
}

#[test]
fn temporary_nested_dependency_names_name_the_canonical_map_value() {
    let error = write_and_load(
        "temporary-dependency-name",
        "version: 1
processes:
  web:
    depends_on:
      db:
        name: cache
        condition: started
    command: [/usr/bin/true]
  db:
    command: [/usr/bin/true]
",
    )
    .expect_err("a Dependency condition must be a string");
    assert!(
        error
            .message
            .contains("condition for Dependency 'db' must be a string")
            && error.message.contains("use 'dependency-name: condition'"),
        "{}",
        error.message
    );
}

#[test]
fn keyed_dependency_conditions_use_canonical_validation() {
    let error = write_and_load(
        "keyed-dependency-condition",
        "version: 1
processes:
  web:
    depends_on:
      db: waiting
    command: [/usr/bin/true]
  db:
    command: [/usr/bin/true]
",
    )
    .expect_err("an unsupported keyed Dependency condition must fail");
    assert!(
        error.message.contains("unsupported condition 'waiting'"),
        "{}",
        error.message
    );
}

#[test]
fn duplicate_keyed_process_names_are_rejected() {
    let error = write_and_load(
        "keyed-dup",
        "version: 1
processes:
  web:
    command: [/usr/bin/true]
  web:
    command: [/usr/bin/true]
",
    )
    .expect_err("duplicate keyed names must fail");
    assert!(
        error.message.contains("duplicate Process name 'web'"),
        "{}",
        error.message
    );
}

#[test]
fn tests_duplicate_names_are_rejected() {
    let error = write_and_load(
            "dup",
            "version: 1\nprocesses:\n  web:\n    command: [/usr/bin/true]\n  web:\n    command: [/usr/bin/true]\n",
        )
        .expect_err("duplicates must fail");
    assert!(error.message.contains("duplicate Process name 'web'"));
}

#[test]
fn tests_command_forms_are_mutually_exclusive_and_required() {
    let both = write_and_load(
        "both",
        "version: 1\nprocesses:\n  web:\n    command: [/usr/bin/true]\n    shell: echo hi\n",
    )
    .expect_err("both forms must fail");
    assert!(both.message.contains("exactly one"), "{}", both.message);

    let neither = write_and_load("neither", "version: 1\nprocesses:\n  web:\n")
        .expect_err("no form must fail");
    assert!(neither.message.contains("'command' or 'shell'"));
}

#[test]
fn tests_depends_on_accepts_plain_names_and_condition_mappings() {
    let project = write_and_load(
        "deps-ok",
        "version: 1
processes:
  web:
    depends_on: {db: started, cache: started}
    command: [/bin/sleep, \"1\"]
  db:
    command: [/bin/sleep, \"1\"]
  cache:
    command: [/bin/sleep, \"1\"]
",
    )
    .expect("valid dependencies");
    let web = &project.processes()[0];
    assert_eq!(web.dependencies.len(), 2);
    assert_eq!(web.dependencies[0].name, "db");
    assert_eq!(
        web.dependencies[0].condition,
        DependencyCondition::Started
    );
    assert_eq!(web.dependencies[1].name, "cache");
    assert_eq!(project.processes()[1].dependencies, Vec::new());
}

#[test]
fn tests_unknown_dependency_references_are_rejected() {
    let error = write_and_load(
        "deps-missing",
        "version: 1
processes:
  web:
    depends_on: {db: started}
    command: [/usr/bin/true]
",
    )
    .expect_err("a missing reference must fail");
    assert!(
        error.message.contains("Process 'web'") && error.message.contains("'db'"),
        "{}",
        error.message
    );
}

#[test]
fn tests_dependency_cycles_are_rejected_before_startup() {
    let error = write_and_load(
        "deps-cycle",
        "version: 1
processes:
  web:
    depends_on: {worker: started}
    command: [/usr/bin/true]
  worker:
    depends_on: {web: started}
    command: [/usr/bin/true]
",
    )
    .expect_err("a cycle must fail");
    assert!(
        error.message.contains("dependency cycle")
            && error.message.contains("web -> worker -> web"),
        "{}",
        error.message
    );
}

#[test]
fn completed_successfully_is_valid_only_on_one_shot_dependencies() {
    let accepted = write_and_load(
        "deps-completed-ok",
        "version: 1
processes:
  web:
    kind: one-shot
    depends_on: {setup: completed_successfully}
    command: [/usr/bin/true]
  setup:
    kind: one-shot
    command: [/usr/bin/true]
",
    )
    .expect("a One-shot dependency accepts completed_successfully");
    assert_eq!(
        accepted.processes()[0].dependencies[0].condition,
        DependencyCondition::CompletedSuccessfully
    );

    let error = write_and_load(
        "deps-completed-service",
        "version: 1
processes:
  web:
    depends_on: {db: completed_successfully}
    command: [/usr/bin/true]
  db:
    command: [/usr/bin/true]
",
    )
    .expect_err("a Service dependency must reject completed_successfully");
    assert!(
        error.message.contains("'web'")
            && error.message.contains("'db'")
            && error.message.contains("completed_successfully"),
        "{}",
        error.message
    );
}

#[test]
fn ready_condition_is_valid_only_on_service_dependencies() {
    let accepted = write_and_load(
            "deps-ready-ok",
            "version: 1\nprocesses:\n  web:\n    depends_on: {db: ready}\n    command: [/usr/bin/true]\n  db:\n    command: [/usr/bin/true]\n",
        )
        .expect("a Service dependency accepts ready");
    assert_eq!(
        accepted.processes()[0].dependencies[0].condition,
        DependencyCondition::Ready
    );

    let error = write_and_load(
            "deps-ready-one-shot",
            "version: 1\nprocesses:\n  web:\n    depends_on: {setup: ready}\n    command: [/usr/bin/true]\n  setup:\n    kind: one-shot\n    command: [/usr/bin/true]\n",
        )
        .expect_err("a One-shot dependency must reject ready");
    assert!(error.message.contains("'ready'"), "{}", error.message);
}

#[test]
fn temporary_dependency_collections_name_the_canonical_mapping() {
    let error = write_and_load(
        "temporary-dependency-list",
        "version: 1
processes:
  web:
    depends_on:
      - db
    command: [/usr/bin/true]
  db:
    command: [/usr/bin/true]
",
    )
    .expect_err("a Dependency collection must be keyed");
    assert!(
        error
            .message
            .contains("depends_on must be a name-keyed mapping")
            && error
                .message
                .contains("use 'depends_on: {process-name: condition}'"),
        "{}",
        error.message
    );
}

#[test]
fn canonical_shell_uses_the_project_shell_configuration() {
    let project = write_and_load(
        "canonical-shell",
        "version: 1
settings:
  shell:
    program: /bin/bash
    args: [-lc]
processes:
  web:
    shell: printf canonical-shell
",
    )
    .expect("canonical shell fields are valid");
    assert_eq!(
        project.processes()[0].command,
        CommandForm::Shell {
            text: "printf canonical-shell".to_string()
        }
    );
    assert_eq!(
        project.shell().program,
        "/bin/bash"
    );
    assert_eq!(project.shell().args, ["-lc"]);
}

#[test]
fn canonical_command_and_shell_are_mutually_exclusive() {
    let error = write_and_load(
        "canonical-command-shell",
        "version: 1
processes:
  web:
    command: [/usr/bin/true]
    shell: echo conflict
",
    )
    .expect_err("a Process must select one command form");
    assert!(
        error.message.contains("Process 'web'")
            && error.message.contains("exactly one")
            && error.message.contains("command")
            && error.message.contains("shell"),
        "{}",
        error.message
    );
}

#[test]
fn invalid_canonical_command_is_rejected_before_startup() {
    let error = write_and_load(
        "canonical-command-empty",
        "version: 1
processes:
  web:
    command: []
",
    )
    .expect_err("a canonical command needs a program");
    assert!(
        error.message.contains("Process 'web'") && error.message.contains("command must contain"),
        "{}",
        error.message
    );
}

#[test]
fn tests_invalid_kinds_terminal_modes_and_input_policies_are_rejected() {
    for (label, fields) in [
        ("kind", "kind: cron"),
        ("terminal", "terminal: {mode: serial}"),
        ("input", "terminal: {mode: pipe, input: always}"),
    ] {
        let error = write_and_load(
            label,
            &format!(
                "version: 1\nprocesses:\n  web:\n    {fields}\n    command: [/usr/bin/true]\n"
            ),
        )
        .expect_err("invalid value must fail");
        assert!(
            error.message.contains("invalid"),
            "{fields}: {}",
            error.message
        );
    }
}

#[test]
fn process_groups_define_visual_order_and_leave_unlisted_processes_for_other() {
    let project = write_and_load(
        "groups",
        "version: 1
groups:
  Infrastructure: [database, cache]
  Application: [api]
processes:
  api: {command: [/usr/bin/true]}
  database: {command: [/usr/bin/true]}
  worker: {command: [/usr/bin/true]}
  cache: {command: [/usr/bin/true]}
",
    )
    .expect("valid Process Groups load");

    let names = project
        .processes()
        .iter()
        .map(|process| process.name.as_str())
        .collect::<Vec<_>>();
    assert_eq!(names, ["database", "cache", "api", "worker"]);
    let groups = (0..project.processes().len())
        .map(|index| project.process_group(index))
        .collect::<Vec<_>>();
    assert_eq!(
        groups,
        [
            Some("Infrastructure"),
            Some("Infrastructure"),
            Some("Application"),
            None,
        ]
    );
}

#[test]
fn invalid_process_group_membership_is_rejected() {
    for (label, groups, expected) in [
        ("unknown", "Infrastructure: [missing]", "is not configured"),
        (
            "duplicate",
            "Infrastructure: [web]\n  Application: [web]",
            "more than one Process Group",
        ),
        (
            "empty",
            "Infrastructure: []",
            "must contain at least one Process",
        ),
        ("other", "Other: [web]", "reserved for ungrouped Processes"),
        (
            "padded-other",
            "' Other ': [web]",
            "reserved for ungrouped Processes",
        ),
    ] {
        let error = write_and_load(
            &format!("group-{label}"),
            &format!(
                "version: 1\ngroups:\n  {groups}\nprocesses:\n  web: {{command: [/usr/bin/true]}}\n"
            ),
        )
        .expect_err("invalid Process Group membership must fail");
        assert!(error.message.contains(expected), "{label}: {error:?}");
    }
}

#[test]
fn success_exit_codes_are_unique_and_in_the_operating_system_range() {
    let accepted = write_and_load(
        "success-codes-ok",
        "version: 1\nprocesses:\n  setup:\n    kind: one-shot\n    success_exit_codes: [0, 2, 130]\n    command: [/bin/true]\n",
    )
    .expect("valid success exit codes");
    assert_eq!(accepted.processes()[0].success_exit_codes, vec![0, 2, 130]);

    for (label, codes, expected) in [
        ("success-codes-duplicate", "[0, 2, 0]", "unique"),
        ("success-codes-negative", "[-1]", "0 through 255"),
        ("success-codes-too-large", "[256]", "0 through 255"),
        ("success-codes-empty", "[]", "at least one"),
    ] {
        let error = write_and_load(
            label,
            &format!(
                "version: 1\nprocesses:\n  setup:\n    kind: one-shot\n    success_exit_codes: {codes}\n    command: [/bin/true]\n"
            ),
        )
        .expect_err("invalid success exit codes must fail");
        assert!(error.message.contains(expected), "{label}: {error:?}");
    }
}

#[test]
fn exited_condition_is_valid_only_on_one_shot_dependencies() {
    let accepted = write_and_load(
        "deps-exited-ok",
        "version: 1\nprocesses:\n  web:\n    depends_on: {setup: exited}\n    command: [/bin/true]\n  setup:\n    kind: one-shot\n    command: [/bin/true]\n",
    )
    .expect("a One-shot dependency accepts exited");
    assert_eq!(
        accepted.processes()[0].dependencies[0].condition,
        DependencyCondition::Exited
    );

    let error = write_and_load(
        "deps-exited-service",
        "version: 1\nprocesses:\n  web:\n    depends_on: {db: exited}\n    command: [/bin/true]\n  db:\n    command: [/bin/true]\n",
    )
    .expect_err("a Service dependency must reject exited");
    assert!(error.message.contains("'exited'"), "{error:?}");
}

#[test]
fn one_process_profile_is_selected_and_missing_names_fall_back_to_base() {
    let mut project = load_with_profile(
        "process-profile-selection",
        "version: 1
processes:
  api:
    command: [/bin/echo, base-api]
    profiles:
      local:
        command: [/bin/echo, local-api]
      cloud:
        command: [/bin/echo, cloud-api]
  worker:
    command: [/bin/echo, base-worker]
    profiles:
      local:
        command: [/bin/echo, local-worker]
",
        Some("cloud"),
    )
    .expect("all Process Profiles are valid");

    assert_eq!(*project.process_profile_names(), ["cloud", "local"]);
    assert_eq!(project.selected_process_profile(), Some("cloud"));
    assert_eq!(project.process_profile(0), Some("cloud"));
    assert_eq!(project.process_profile(1), None);
    assert_eq!(direct_args(&project.processes()[0]), ["cloud-api"]);
    assert_eq!(direct_args(&project.processes()[1]), ["base-worker"]);

    assert!(project.select_process_profile(Some("local")));
    assert_eq!(project.process_profile(0), Some("local"));
    assert_eq!(project.process_profile(1), Some("local"));
    assert_eq!(direct_args(&project.processes()[0]), ["local-api"]);
    assert_eq!(direct_args(&project.processes()[1]), ["local-worker"]);

    assert!(!project.select_process_profile(Some("missing")));
    assert_eq!(project.selected_process_profile(), Some("local"));
}

#[test]
fn a_process_profile_override_wins_and_base_is_reserved_for_the_base_spec() {
    let mut project = load_with_profile(
        "process-profile-overrides",
        "version: 1
processes:
  pinned:
    profile: local
    command: [/bin/echo, base-pinned]
    profiles:
      local:
        command: [/bin/echo, local-pinned]
      cloud:
        command: [/bin/echo, cloud-pinned]
  base-pinned:
    profile: base
    command: [/bin/echo, base-fixed]
    profiles:
      local:
        command: [/bin/echo, local-fixed]
",
        Some("cloud"),
    )
    .expect("Process Profile overrides are valid");

    assert_eq!(project.process_profile(0), Some("local"));
    assert_eq!(project.process_profile(1), None);
    assert_eq!(direct_args(&project.processes()[0]), ["local-pinned"]);
    assert_eq!(direct_args(&project.processes()[1]), ["base-fixed"]);

    assert!(project.select_process_profile(None));
    assert_eq!(project.process_profile(0), Some("local"));
    assert_eq!(project.process_profile(1), None);
}

#[test]
fn enabled_defaults_to_true_and_a_process_profile_can_disable_a_process() {
    let project = load_with_profile(
        "process-profile-enabled",
        "version: 1
processes:
  api:
    command: [/usr/bin/true]
    profiles:
      cloud:
        environment:
          MODE: cloud
  local-storage:
    command: [/usr/bin/true]
    profiles:
      cloud:
        enabled: false
",
        Some("cloud"),
    )
    .expect("enabled is an allowed Process Profile field");

    assert_eq!(project.processes()[0].enabled, Enabled::Yes);
    assert_eq!(project.processes()[1].enabled, Enabled::No);
}

#[test]
fn a_process_profile_replaces_the_complete_dependency_mapping() {
    let mut project = load_with_profile(
        "process-profile-dependencies",
        "version: 1
processes:
  api:
    depends_on:
      local-db: ready
    command: [/usr/bin/true]
    profiles:
      cloud:
        depends_on:
          cloud-login: completed_successfully
  local-db:
    kind: service
    command: [/usr/bin/true]
  cloud-login:
    kind: one-shot
    command: [/usr/bin/true]
",
        None,
    )
    .expect("every selectable Dependency graph is valid");

    let base_dependencies = project
        .resolved_dependencies(0)
        .into_iter()
        .map(|(_, dependency)| dependency.name.as_str())
        .collect::<Vec<_>>();
    assert_eq!(base_dependencies, ["local-db"]);

    assert!(project.select_process_profile(Some("cloud")));
    let cloud_dependencies = project
        .resolved_dependencies(0)
        .into_iter()
        .map(|(_, dependency)| dependency.name.as_str())
        .collect::<Vec<_>>();
    assert_eq!(cloud_dependencies, ["cloud-login"]);
}

#[test]
fn every_selectable_profile_dependency_graph_is_validated() {
    let error = load_with_profile(
        "process-profile-dependency-cycle",
        "version: 1
processes:
  api:
    command: [/usr/bin/true]
    profiles:
      cloud:
        depends_on: {worker: started}
  worker:
    command: [/usr/bin/true]
    profiles:
      cloud:
        depends_on: {api: started}
",
        None,
    )
    .expect_err("an invalid unselected profile must fail before startup");

    assert!(
        error
            .message
            .contains("Process Profile 'cloud' produces an invalid Project")
            && error.message.contains("api -> worker -> api"),
        "{error:?}"
    );
}

#[test]
fn process_profiles_reject_reserved_names_forbidden_fields_and_invalid_specs() {
    for (label, profile, expected) in [
        (
            "base-name",
            "base:\n        command: [/usr/bin/true]",
            "reserved",
        ),
        (
            "topology",
            "local:\n        autostart: false",
            "cannot change field 'autostart'",
        ),
        (
            "invalid-command",
            "local:\n        command: []",
            "command must contain",
        ),
    ] {
        let error = load_with_profile(
            &format!("process-profile-{label}"),
            &format!(
                "version: 1\nprocesses:\n  api:\n    command: [/usr/bin/true]\n    profiles:\n      {profile}\n"
            ),
            None,
        )
        .expect_err("every invalid Process Profile must fail before startup");
        assert!(error.message.contains(expected), "{label}: {error:?}");
    }
}

#[test]
fn an_unknown_selected_process_profile_is_rejected() {
    let error = load_with_profile(
        "unknown-process-profile",
        "version: 1
processes:
  api:
    command: [/usr/bin/true]
    profiles:
      local: {}
",
        Some("missing"),
    )
    .expect_err("the selected Process Profile must exist on at least one Process");

    assert!(
        error.message.contains("unknown Process Profile 'missing'"),
        "{error:?}"
    );
}

#[test]
fn http_readiness_parses_the_url_into_its_connect_target() {
    let project = write_and_load(
        "readiness-http-ok",
        "version: 1\nprocesses:\n  web:\n    command: [/bin/sleep, \"1\"]\n    ready:\n      http:\n        url: \"http://localhost:8080/healthz?probe=1\"\n",
    )
    .expect("valid http readiness");
    let readiness = project.processes()[0]
        .readiness
        .clone()
        .expect("readiness parses");
    let check = &readiness.checks[0];
    assert_eq!(
        check.probe,
        ReadinessProbe::Http {
            host: "localhost".into(),
            port: 8080,
            path: "/healthz?probe=1".into(),
        }
    );
    assert_eq!(check.interval, Duration::from_millis(1_000));
    assert_eq!(check.timeout, Duration::from_millis(2_000));

    // The default port and path come from the URL.
    let bare = write_and_load(
        "readiness-http-bare",
        "version: 1\nprocesses:\n  web:\n    command: [/bin/true]\n    ready:\n      http: {url: \"http://example.test\"}\n",
    )
    .expect("a bare http URL is valid");
    let readiness = bare.processes()[0].readiness.clone().expect("parses");
    assert_eq!(
        readiness.checks[0].probe,
        ReadinessProbe::Http {
            host: "example.test".into(),
            port: 80,
            path: "/".into(),
        }
    );
}

#[test]
fn invalid_http_readiness_urls_are_rejected_clearly() {
    let base = "version: 1\nprocesses:\n  web:\n    command: [/bin/true]\n    ready:\n      http: {url: \"";
    let cases = [
        ("https", "https://example.test/\"}"),
        ("no scheme", "example.test/healthz\"}"),
        ("no host", "http:///healthz\"}"),
        ("bad port", "http://example.test:0/\"}"),
        ("non-numeric port", "http://example.test:none/\"}"),
        ("userinfo", "http://user@example.test/\"}"),
        ("ipv6 literal", "http://[::1]:8080/\"}"),
    ];
    for (label, tail) in cases {
        let error =
            write_and_load(label, &format!("{base}{tail}")).expect_err("an invalid URL must fail");
        assert!(
            error.message.contains("invalid http URL") || error.message.contains("not supported"),
            "{label}: {}",
            error.message
        );
    }
}

#[test]
fn tcp_readiness_parses_with_bounded_defaults() {
    let project = write_and_load(
        "readiness-tcp-ok",
        "version: 1\nprocesses:\n  db:\n    command: [/bin/sleep, \"1\"]\n    ready:\n      tcp:\n        host: 127.0.0.1\n        port: 5432\n",
    )
    .expect("valid tcp readiness");
    let readiness = project.processes()[0]
        .readiness
        .clone()
        .expect("readiness parses");
    let check = &readiness.checks[0];
    assert_eq!(
        check.probe,
        ReadinessProbe::Tcp {
            host: "127.0.0.1".into(),
            port: 5432
        }
    );
    assert_eq!(check.interval, Duration::from_millis(1_000));
    assert_eq!(check.timeout, Duration::from_millis(2_000));
}

#[test]
fn tcp_readiness_accepts_common_fields_and_every_duration_unit() {
    let project = write_and_load(
        "readiness-tcp-fields",
        "version: 1\nprocesses:\n  db:\n    command: [/bin/sleep, \"1\"]\n    ready:\n      tcp: {host: localhost, port: 1}\n      initial_delay: 250ms\n      interval: 2s\n      timeout: 3m\n      success_threshold: 2\n      failure_threshold: 3\n      startup_timeout: 4h\n",
    )
    .expect("valid common readiness fields");
    let readiness = project.processes()[0]
        .readiness
        .clone()
        .expect("readiness parses");
    let check = &readiness.checks[0];
    assert_eq!(check.initial_delay, Duration::from_millis(250));
    assert_eq!(check.interval, Duration::from_secs(2));
    assert_eq!(check.timeout, Duration::from_secs(3 * 60));
    assert_eq!(check.success_threshold, 2);
    assert_eq!(check.failure_threshold, 3);
    assert_eq!(
        readiness.startup_timeout,
        Some(Duration::from_secs(4 * 60 * 60))
    );
}

#[test]
fn initial_delay_may_be_zero() {
    let project = write_and_load(
        "readiness-zero-delay",
        "version: 1\nprocesses:\n  db:\n    command: [/bin/true]\n    ready:\n      tcp: {host: h, port: 1}\n      initial_delay: 0s\n",
    )
    .expect("zero initial delay is valid");
    assert_eq!(
        project.processes()[0]
            .readiness
            .as_ref()
            .expect("readiness parses")
            .checks[0]
            .initial_delay,
        Duration::from_millis(0)
    );
}

#[test]
fn invalid_readiness_values_are_rejected_clearly() {
    let base = "version: 1\nprocesses:\n  db:\n    command: [/bin/true]\n    ready:\n      tcp: {host: h, port: 1}\n";
    let cases = [
        ("zero interval", "      interval: 0s\n", "interval"),
        ("zero timeout", "      timeout: 0s\n", "timeout"),
        (
            "zero startup timeout",
            "      startup_timeout: 0s\n",
            "startup_timeout",
        ),
        (
            "zero success threshold",
            "      success_threshold: 0\n",
            "success_threshold",
        ),
        (
            "zero failure threshold",
            "      failure_threshold: 0\n",
            "failure_threshold",
        ),
        ("duration without suffix", "      interval: 1\n", "suffix"),
        ("negative duration", "      timeout: '-1s'\n", "nonnegative"),
        (
            "fractional duration",
            "      timeout: 1.5s\n",
            "whole number",
        ),
        (
            "unknown scheduling field",
            "      attempts: 1\n",
            "unknown field",
        ),
        (
            "unknown check field",
            "      http: {url: 'http://h/', mode: fast}\n",
            "unknown field",
        ),
        (
            "both forms",
            "      http: {url: 'http://h/'}\n",
            "exactly one",
        ),
    ];
    for (label, block, expected) in cases {
        let error = write_and_load(label, &format!("{base}{block}"))
            .expect_err("an invalid readiness block must fail");
        assert!(
            error.message.contains(expected),
            "{label}: {}",
            error.message
        );
    }
    for (label, block, expected) in [
        ("port zero", "      tcp: {host: h, port: 0}\n", "port"),
        ("empty host", "      tcp: {host: '', port: 1}\n", "host"),
        ("no form", "      tcp: null\n", "exactly one"),
    ] {
        let yaml = format!(
            "version: 1\nprocesses:\n  db:\n    command: [/bin/true]\n    ready:\n{block}"
        );
        let error = write_and_load(label, &yaml).expect_err("the block must fail");
        assert!(error.message.contains(expected), "{label}: {error:?}");
    }
}

#[test]
fn duration_overflow_is_rejected() {
    let error = write_and_load(
        "readiness-duration-overflow",
        "version: 1\nprocesses:\n  db:\n    command: [/bin/true]\n    ready:\n      tcp: {host: h, port: 1}\n      startup_timeout: 18446744073709551616h\n",
    )
    .expect_err("an overflowing duration must fail");
    assert!(error.message.contains("overflows"), "{error:?}");
}

#[test]
fn removed_readiness_spellings_name_the_replacements() {
    let old_block = write_and_load(
        "removed-readiness-block",
        "version: 1\nprocesses:\n  db:\n    command: [/bin/true]\n    readiness:\n      tcp: {host: h, port: 1}\n",
    )
    .expect_err("the temporary block name must be rejected");
    assert!(
        old_block.message.contains("unknown field `readiness`"),
        "{old_block:?}"
    );
    assert!(
        old_block.message.contains("use `ready` instead"),
        "{old_block:?}"
    );

    let old_interval = write_and_load(
        "removed-interval-field",
        "version: 1\nprocesses:\n  db:\n    command: [/bin/true]\n    ready:\n      tcp: {host: h, port: 1}\n      interval_ms: 1s\n",
    )
    .expect_err("interval_ms must be rejected");
    assert!(
        old_interval.message.contains("unknown field `interval_ms`"),
        "{old_interval:?}"
    );
    assert!(
        old_interval.message.contains("use `interval` instead"),
        "{old_interval:?}"
    );

    let old_timeout = write_and_load(
        "removed-timeout-field",
        "version: 1\nprocesses:\n  db:\n    command: [/bin/true]\n    ready:\n      tcp: {host: h, port: 1}\n      timeout_ms: 1s\n",
    )
    .expect_err("timeout_ms must be rejected");
    assert!(
        old_timeout.message.contains("unknown field `timeout_ms`"),
        "{old_timeout:?}"
    );
    assert!(
        old_timeout.message.contains("use `timeout` instead"),
        "{old_timeout:?}"
    );
}

#[test]
fn all_readiness_parses_independent_children_and_one_parent_deadline() {
    let project = write_and_load(
        "readiness-all-ok",
        "version: 1\nprocesses:\n  api:\n    command: [/bin/sleep, \"1\"]\n    ready:\n      all:\n        - tcp: {host: localhost, port: 1}\n          initial_delay: 250ms\n          interval: 2s\n          timeout: 3s\n          success_threshold: 2\n          failure_threshold: 3\n        - http: {url: \"http://example.test/health\"}\n          initial_delay: 4ms\n          interval: 5s\n          timeout: 6s\n          success_threshold: 3\n          failure_threshold: 4\n      startup_timeout: 1m\n",
    )
    .expect("valid all readiness");
    let readiness = project.processes()[0]
        .readiness
        .as_ref()
        .expect("readiness parses");
    assert_eq!(readiness.checks.len(), 2);
    assert_eq!(readiness.startup_timeout, Some(Duration::from_secs(60)));
    assert_eq!(
        readiness.checks[0].initial_delay,
        Duration::from_millis(250)
    );
    assert_eq!(readiness.checks[0].interval, Duration::from_secs(2));
    assert_eq!(readiness.checks[0].timeout, Duration::from_secs(3));
    assert_eq!(readiness.checks[0].success_threshold, 2);
    assert_eq!(readiness.checks[0].failure_threshold, 3);
    assert_eq!(
        readiness.checks[1].probe,
        ReadinessProbe::Http {
            host: "example.test".into(),
            port: 80,
            path: "/health".into(),
        }
    );
    assert_eq!(readiness.checks[1].initial_delay, Duration::from_millis(4));
    assert_eq!(readiness.checks[1].interval, Duration::from_secs(5));
    assert_eq!(readiness.checks[1].timeout, Duration::from_secs(6));
}

#[test]
fn all_readiness_rejects_invalid_composite_forms_clearly() {
    let base =
        "version: 1\nprocesses:\n  api:\n    command: [/bin/true]\n    ready:\n";
    let cases = [
        ("empty", "      all: []\n", "at least two child checks"),
        (
            "one child",
            "      all:\n        - tcp: {host: h, port: 1}\n",
            "at least two child checks",
        ),
        (
            "nested",
            "      all:\n        - all:\n            - tcp: {host: h, port: 1}\n            - tcp: {host: h, port: 2}\n        - tcp: {host: h, port: 3}\n",
            "nested 'all'",
        ),
        (
            "any",
            "      any:\n        - tcp: {host: h, port: 1}\n        - tcp: {host: h, port: 2}\n",
            "'any' readiness form is not supported",
        ),
        (
            "parent scheduling",
            "      all:\n        - tcp: {host: h, port: 1}\n        - tcp: {host: h, port: 2}\n      interval: 1s\n",
            "on each child",
        ),
    ];
    for (label, block, expected) in cases {
        let error = write_and_load(label, &format!("{base}{block}"))
            .expect_err("an invalid all readiness block must fail");
        assert!(error.message.contains(expected), "{label}: {error:?}");
    }
}

#[test]
fn all_readiness_rejects_child_startup_deadlines() {
    let error = write_and_load(
        "readiness-all-child-timeout",
        "version: 1\nprocesses:\n  api:\n    command: [/bin/true]\n    ready:\n      all:\n        - tcp: {host: h, port: 1}\n          startup_timeout: 1s\n        - tcp: {host: h, port: 2}\n",
    )
    .expect_err("a child cannot own the composite startup deadline");
    assert!(error.message.contains("parent 'ready' block"), "{error:?}");
}

#[test]
fn exec_readiness_parses_direct_and_shell_commands_with_overrides() {
    let direct = write_and_load(
        "exec-direct",
        "version: 1\nprocesses:\n  web:\n    cwd: /tmp\n    environment: {BASE: process}\n    command: [/bin/sleep, \"1\"]\n    ready:\n      exec:\n        command: [/usr/bin/test, \"-f\", \"ready\"]\n        cwd: /tmp\n        environment: {CHECK: probe}\n        success_exit_codes: [0, 2]\n",
    )
    .expect("valid direct exec readiness");
    let probe = &direct.processes()[0]
        .readiness
        .as_ref()
        .expect("readiness parses")
        .checks[0]
        .probe;
    assert_eq!(
        probe,
        &ReadinessProbe::Exec {
            command: CommandForm::Direct {
                program: "/usr/bin/test".into(),
                args: vec!["-f".into(), "ready".into()],
            },
            working_dir: Some("/tmp".to_string()),
            env: vec![("CHECK".into(), "probe".into())],
            success_exit_codes: vec![0, 2],
        }
    );

    let shell = write_and_load(
        "exec-shell",
        "version: 1\nprocesses:\n  web:\n    command: [/bin/sleep, \"1\"]\n    ready:\n      exec:\n        shell: \"test \\\"$CHECK\\\" = probe\"\n        environment: {CHECK: probe}\n",
    )
    .expect("valid shell exec readiness");
    let probe = &shell.processes()[0]
        .readiness
        .as_ref()
        .expect("readiness parses")
        .checks[0]
        .probe;
    assert_eq!(
        probe,
        &ReadinessProbe::Exec {
            command: CommandForm::Shell {
                text: "test \"$CHECK\" = probe".to_string(),
            },
            working_dir: None,
            env: vec![("CHECK".into(), "probe".into())],
            success_exit_codes: vec![0],
        }
    );
}

#[test]
fn exec_readiness_rejects_missing_invalid_and_unusable_configuration() {
    let base = "version: 1\nprocesses:\n  web:\n    command: [/bin/true]\n    ready:\n      exec:\n";
    let cases = [
        ("missing-command", "        cwd: /tmp\n", "requires"),
        (
            "both-command-forms",
            "        command: [/bin/true]\n        shell: 'true'\n",
            "exactly one",
        ),
        (
            "zero-success-codes",
            "        command: [/bin/true]\n        success_exit_codes: []\n",
            "at least one",
        ),
        (
            "duplicate-success-codes",
            "        command: [/bin/true]\n        success_exit_codes: [0, 0]\n",
            "repeated",
        ),
        (
            "out-of-range-success-code",
            "        command: [/bin/true]\n        success_exit_codes: [256]\n",
            "0 through 255",
        ),
        (
            "missing-working-directory",
            "        command: [/bin/true]\n        cwd: /path/that/does/not/exist\n",
            "working directory",
        ),
    ];
    for (label, block, expected) in cases {
        let error = write_and_load(label, &format!("{base}{block}"))
            .expect_err("invalid exec readiness must fail");
        assert!(error.message.contains(expected), "{label}: {error:?}");
    }
}

#[test]
fn all_readiness_accepts_exec_as_one_independent_child() {
    let project = write_and_load(
        "readiness-all-exec",
        "version: 1\nprocesses:\n  api:\n    command: [/bin/sleep, \"1\"]\n    ready:\n      all:\n        - exec:\n            command: [/bin/true]\n        - tcp: {host: localhost, port: 1}\n",
    )
    .expect("exec can be an all child");
    let checks = &project.processes()[0]
        .readiness
        .as_ref()
        .expect("readiness parses")
        .checks;
    assert_eq!(checks.len(), 2);
    assert!(matches!(checks[0].probe, ReadinessProbe::Exec { .. }));
}

#[test]
fn log_readiness_accepts_one_nonempty_literal() {
    let project = write_and_load(
        "readiness-log-ok",
        "version: 1\nprocesses:\n  web:\n    command: [/bin/sleep, \"1\"]\n    ready:\n      log:\n        contains: \"Listening on :8080\"\n",
    )
    .expect("valid log readiness");
    let check = &project.processes()[0]
        .readiness
        .as_ref()
        .expect("readiness parses")
        .checks[0];
    assert_eq!(
        check.probe,
        ReadinessProbe::Log {
            contains: "Listening on :8080".into(),
        }
    );
    assert_eq!(check.initial_delay, Duration::from_millis(0));
    assert_eq!(check.interval, Duration::from_secs(1));
}

#[test]
fn log_readiness_rejects_empty_literals_and_regex_options() {
    let empty = write_and_load(
        "readiness-log-empty",
        "version: 1\nprocesses:\n  web:\n    command: [/bin/true]\n    ready:\n      log: {contains: \"\"}\n",
    )
    .expect_err("an empty log literal must fail");
    assert!(
        empty.message.contains("log contains must not be empty"),
        "{empty:?}"
    );

    let regex = write_and_load(
        "readiness-log-regex",
        "version: 1\nprocesses:\n  web:\n    command: [/bin/true]\n    ready:\n      log: {contains: ready, regex: true}\n",
    )
    .expect_err("regex log configuration must fail");
    assert!(regex.message.contains("unknown field `regex`"), "{regex:?}");
}

#[test]
fn all_readiness_accepts_log_as_one_independent_child() {
    let project = write_and_load(
        "readiness-all-log",
        "version: 1\nprocesses:\n  web:\n    command: [/bin/sleep, \"1\"]\n    ready:\n      all:\n        - log: {contains: ready}\n        - tcp: {host: localhost, port: 1}\n",
    )
    .expect("log can be an all child");
    let checks = &project.processes()[0]
        .readiness
        .as_ref()
        .expect("readiness parses")
        .checks;
    assert_eq!(checks.len(), 2);
    assert_eq!(
        checks[0].probe,
        ReadinessProbe::Log {
            contains: "ready".into()
        }
    );
    assert_eq!(
        checks[1].probe,
        ReadinessProbe::Tcp {
            host: "localhost".into(),
            port: 1
        }
    );
}

#[test]
fn readiness_on_a_one_shot_is_rejected() {
    let error = write_and_load(
        "readiness-one-shot",
        "version: 1\nprocesses:\n  setup:\n    kind: one-shot\n    command: [/bin/true]\n    ready:\n      tcp: {host: 127.0.0.1, port: 1}\n",
    )
    .expect_err("a One-shot must reject readiness");
    assert!(error.message.contains("Services"), "{}", error.message);
}

#[test]
fn explicit_resolution_returns_the_selected_base_source() {
    let mut disk = Disk::new();
    disk.file(
        "/project/stackhand.yaml",
        "version: 1\nprocesses:\n  web:\n    command: [/usr/bin/true]\n",
    );
    let resolution =
        disk.resolve(ResolutionRequest::explicit("/project/stackhand.yaml")).expect("resolution succeeds");
    assert_eq!(resolution.sources.base, "/project/stackhand.yaml");
    assert_eq!(resolution.project().processes().len(), 1);
}

#[test]
fn discovery_uses_the_nearest_base_file_without_git_state() {
    let config = "version: 1\nprocesses:\n  web:\n    command: [/usr/bin/true]\n";
    let mut disk = Disk::new();
    disk.directory("/root/nested/deep");
    disk.file("/root/stackhand.yaml", config);
    disk.file("/root/nested/deep/stackhand.yaml", config);
    let resolution = disk
        .resolve(ResolutionRequest::discover_from("/root/nested/deep"))
        .expect("discovery succeeds");
    assert_eq!(resolution.sources.base, "/root/nested/deep/stackhand.yaml");

    let error = disk
        .resolve(ResolutionRequest::discover_from("/missing/nested"))
        .expect_err("missing base config must fail");
    assert!(error.message.contains(BASE_FILE_NAME), "{error:?}");
    assert!(error.message.contains("/missing/nested"), "{error:?}");
}

#[test]
fn tests_relative_working_directories_resolve_from_the_config_directory() {
    let mut disk = Disk::new();
    disk.directory("/project/web");
    disk.file(
        "/project/stackhand.yaml",
        "version: 1\nprocesses:\n  web:\n    cwd: ./web\n    command: [/usr/bin/true]\n",
    );
    let project = disk.load("/project/stackhand.yaml", None).expect("valid config");
    assert_eq!(project.processes()[0].working_dir, "/project/web");
}

#[test]
fn canonical_process_fields_lower_into_the_effective_process() {
    let project = write_and_load(
        "canonical-process",
        "version: 1
processes:
  web:
    kind: service
    cwd: .
    environment:
      PORT: \"4000\"
    terminal:
      mode: pty
      input: focused
    command: [/usr/bin/printf, \"hello world\", \"%s\\n\"]
",
    )
    .expect("canonical Process fields are valid");
    let web = &project.processes()[0];
    assert_eq!(web.working_dir, "/project");
    assert_eq!(web.env, vec![("PORT".to_string(), "4000".to_string())]);
    assert_eq!(web.terminal_mode, TerminalMode::Pty);
    assert_eq!(web.input_policy, InputPolicy::Focused);
    assert_eq!(
        web.command,
        CommandForm::Direct {
            program: "/usr/bin/printf".into(),
            args: vec!["hello world".into(), "%s\n".into()],
        }
    );
}

#[test]
fn duration_uses_the_smallest_canonical_whole_unit() {
    assert_eq!(duration(Duration::from_millis(0)), Yaml::Text("0ms".to_string()));
    assert_eq!(duration(Duration::from_millis(1_500)), Yaml::Text("1500ms".to_string()));
    assert_eq!(duration(Duration::from_secs(60)), Yaml::Text("1m".to_string()));
    assert_eq!(duration(Duration::from_secs(60 * 60)), Yaml::Text("1h".to_string()));
}

#[test]
fn dependency_condition_labels_are_canonical() {
    let value = dependencies(&vec![DependencySpec {
        name: "database".to_string(),
        condition: DependencyCondition::Ready,
    }]);
    assert_eq!(value.field("database"), Some(&Yaml::Text("ready".to_string())));
}

fn base_project(command: &str) -> String {
    format!(
        "version: 1\nprocesses:\n  web:\n    command: [/bin/echo, {command}]\n    profiles:\n      profile:\n        command: [/bin/echo, profile]\n"
    )
}

fn echo(argument: &str) -> CommandForm {
    CommandForm::Direct { program: "/bin/echo".to_string(), args: vec![argument.to_string()] }
}

#[test]
fn discovered_resolution_uses_only_an_existing_same_directory_override() {
    let mut disk = Disk::new();
    disk.file("/project/stackhand.yaml", &base_project("base"));

    let without_local =
        disk.resolve(discover("/project/nested", None)).expect("discovery without a local override succeeds");
    assert_eq!(without_local.sources.base, "/project/stackhand.yaml");
    assert_eq!(without_local.sources.local, None);
    assert_eq!(without_local.project().processes()[0].command, echo("base"));

    let local = format!("/project/{LOCAL_FILE_NAME}");
    disk.file(&local, "processes:\n  web:\n    command: [/bin/echo, local]\n");
    let with_local =
        disk.resolve(discover("/project/nested", None)).expect("discovery with a local override succeeds");
    assert_eq!(with_local.sources.base, "/project/stackhand.yaml");
    assert_eq!(with_local.sources.local, Some(local));
    assert_eq!(with_local.project().processes()[0].command, echo("local"));
}

#[test]
fn local_override_can_define_project_profile_environment_files() {
    let mut disk = Disk::new();
    disk.file("/project/base.env", "REMOVE_ME=base\n");
    let base = base_project("base").replace("version: 1\n", "version: 1\nenv_files: [base.env]\n");
    disk.file("/project/stackhand.yaml", &base);
    disk.file(
        "/project/stackhand.local.yaml",
        "profiles:\n  clean:\n    env_files: []\n",
    );
    let resolution = disk
        .resolve(discover("/project", Some("clean")))
        .expect("the local Project Profile resolves");
    assert!(resolution.project().processes()[0].env.is_empty());

    let unselected = disk.resolve(discover("/project", None)).expect("the base resolves");
    assert_eq!(
        unselected.project().processes()[0].env,
        vec![("REMOVE_ME".to_string(), "base".to_string())]
    );
}

#[test]
fn explicit_resolution_never_loads_a_local_override() {
    let mut disk = Disk::new();
    disk.file("/project/stackhand.yaml", &base_project("base"));
    disk.file(
        "/project/stackhand.local.yaml",
        "processes:\n  web:\n    command: [/bin/echo, local]\n",
    );
    let resolution = disk
        .resolve(ResolutionRequest::explicit_with_profile(
            "/project/stackhand.yaml",
            Some("profile".to_string()),
        ))
        .expect("explicit resolution succeeds");
    assert_eq!(resolution.sources.local, None);
    assert_eq!(resolution.project().processes()[0].command, echo("profile"));
}

#[test]
fn child_and_parent_local_files_are_not_searched() {
    let mut disk = Disk::new();
    disk.directory("/outside/project");
    disk.directory("/outside/project/child");
    disk.file("/outside/project/stackhand.yaml", &base_project("base"));
    disk.file(
        "/outside/project/child/stackhand.local.yaml",
        "processes:\n  web:\n    command: [/bin/echo, child]\n",
    );
    disk.file(
        "/outside/stackhand.local.yaml",
        "processes:\n  web:\n    command: [/bin/echo, parent]\n",
    );
    let resolution =
        disk.resolve(discover("/outside/project/child", None)).expect("discovery succeeds");
    assert_eq!(resolution.sources.base, "/outside/project/stackhand.yaml");
    assert_eq!(resolution.sources.local, None);
    assert_eq!(resolution.project().processes()[0].command, echo("base"));
}

#[test]
fn local_override_has_schema_version_and_process_guards() {
    for (label, local, expected) in [
        ("version", "version: 2\n", "local override cannot change schema version"),
        ("processes-null", "processes:\n", "local override processes cannot be null"),
        ("process-null", "processes:\n  web:\n", "must define a complete Process"),
    ] {
        let mut disk = Disk::new();
        disk.file("/project/stackhand.yaml", &base_project("base"));
        disk.file("/project/stackhand.local.yaml", local);
        let error =
            disk.resolve(discover("/project", None)).expect_err("invalid local override must fail");
        assert!(error.message.contains(expected), "{label}: {error:?}");
    }
}

#[test]
fn invalid_local_content_rejects_the_complete_project() {
    let mut disk = Disk::new();
    disk.file("/project/stackhand.yaml", &base_project("base"));
    disk.file(
        "/project/stackhand.local.yaml",
        "processes:\n  web:\n    unknown_field: true\n",
    );
    let error =
        disk.resolve(discover("/project", None)).expect_err("invalid local content must fail");
    assert!(error.message.contains("unknown field"), "{error:?}");
}

#[test]
fn local_null_values_remove_base_environment_values() {
    let mut disk = Disk::new();
    disk.file(
        "/project/stackhand.yaml",
        "version: 1
processes:
  web:
    command: [/usr/bin/true]
    environment:
      KEEP: keep
      REMOVE: remove
",
    );
    disk.file(
        "/project/stackhand.local.yaml",
        "processes:
  web:
    environment:
      REMOVE: null
      LOCAL: local
",
    );
    let resolution =
        disk.resolve(discover("/project", None)).expect("local null values merge successfully");
    assert_eq!(
        resolution.project().processes()[0].env,
        [
            ("KEEP".to_string(), "keep".to_string()),
            ("LOCAL".to_string(), "local".to_string()),
        ]
    );
}

fn environment_files(
    disk: &Disk,
    file_names: &[&str],
) -> Result<BTreeMap<String, String>, ConfigError> {
    let names: Vec<String> = file_names.iter().map(|name| name.to_string()).collect();
    load_files("/project", &names, "Project", &disk.facts(), Vec::new())
        .map(|entries| entries.into_iter().collect())
}

#[test]
fn loads_the_documented_literal_environment_grammar() {
    let contents = format!(
        r#"# a comment

PLAIN=literal value
export EXPORTED=exported
EMPTY=
EMPTY_SINGLE=''
EMPTY_DOUBLE=""
SINGLE='$HOME; $(echo never); *; # stays literal'
DOUBLE="line\n\t\"$HOME; *\\\r"
TRIMMED=   padded value   {horizontal}
REPEATED=old
REPEATED=new
"#,
        horizontal = "\t",
    );
    let mut disk = Disk::new();
    disk.file("/project/values.env", &contents);
    let values = environment_files(&disk, &["values.env"]).expect("grammar is valid");
    assert_eq!(values.get("PLAIN"), Some(&"literal value".to_string()));
    assert_eq!(values.get("EXPORTED"), Some(&"exported".to_string()));
    assert_eq!(values.get("EMPTY"), Some(&String::new()));
    assert_eq!(values.get("EMPTY_SINGLE"), Some(&String::new()));
    assert_eq!(values.get("EMPTY_DOUBLE"), Some(&String::new()));
    assert_eq!(
        values.get("SINGLE"),
        Some(&"$HOME; $(echo never); *; # stays literal".to_string())
    );
    assert_eq!(values.get("DOUBLE"), Some(&"line\n\t\"$HOME; *\\\r".to_string()));
    assert_eq!(values.get("TRIMMED"), Some(&"padded value".to_string()));
    assert_eq!(values.get("REPEATED"), Some(&"new".to_string()));
}

#[test]
fn later_environment_files_replace_earlier_values() {
    let mut disk = Disk::new();
    disk.file("/project/first.env", "SHARED=first\nFIRST=first\n");
    disk.file("/project/second.env", "SHARED=second\nSECOND=second\n");
    let values = environment_files(&disk, &["first.env", "second.env"])
        .expect("ordered environment files load");
    assert_eq!(values.get("SHARED"), Some(&"second".to_string()));
    assert_eq!(values.get("FIRST"), Some(&"first".to_string()));
    assert_eq!(values.get("SECOND"), Some(&"second".to_string()));
}

#[test]
fn invalid_keys_and_quotes_identify_the_file_and_line() {
    let cases = [
        ("BAD-KEY=value\n", "invalid environment key"),
        ("NO_EQUALS\n", "expected KEY=VALUE"),
        ("BROKEN='value\n", "unterminated quoted value"),
        ("BROKEN=value\"with-quote\n", "quotes must surround"),
        ("BROKEN=\"value\\q\"\n", "unsupported escape"),
        ("BROKEN=\"value\" trailing\n", "must end at the closing quote"),
    ];
    for (content, detail) in cases {
        let mut disk = Disk::new();
        disk.file("/project/invalid.env", &format!("# header\n{content}"));
        let error = environment_files(&disk, &["invalid.env"])
            .expect_err("invalid environment syntax must fail");
        assert!(error.message.contains("/project/invalid.env"), "{error:?}");
        assert!(error.message.contains("line 2"), "{error:?}");
        assert!(error.message.contains(detail), "{error:?}");
    }
}

#[test]
fn missing_and_invalid_utf8_files_are_rejected_with_their_paths() {
    let mut disk = Disk::new();
    let missing = environment_files(&disk, &["missing.env"])
        .expect_err("a missing environment file must fail");
    assert!(missing.message.contains("/project/missing.env"));
    assert!(missing.message.contains("could not read"));

    disk.files.push(("/project/invalid.env".to_string(), vec![0xff, 0xfe, 0xfd]));
    let invalid =
        environment_files(&disk, &["invalid.env"]).expect_err("invalid UTF-8 must fail");
    assert!(invalid.message.contains("/project/invalid.env"));
    assert!(invalid.message.contains("invalid UTF-8"));
    assert!(invalid.message.contains("at byte 0"), "{invalid:?}");

    disk.files.push(("/project/late.env".to_string(), vec![b'A', b'=', 0xc3, 0xa9, 0xff]));
    let late = environment_files(&disk, &["late.env"]).expect_err("invalid UTF-8 must fail");
    assert!(late.message.contains("at byte 4"), "{late:?}");
}

#[test]
fn profile_and_local_nulls_remove_environment_file_values() {
    let mut disk = Disk::new();
    disk.file("/project/project.env", "FROM_FILE=project\nLOCAL_FILE=project\n");
    disk.file(
        "/project/stackhand.yaml",
        "version: 1
env_files: [project.env]
processes:
  child:
    command: [/bin/true]
    profiles:
      profile:
        environment:
          FROM_FILE: null
",
    );
    disk.file(
        "/project/stackhand.local.yaml",
        "processes:\n  child:\n    environment:\n      LOCAL_FILE: null\n",
    );
    let resolution = disk
        .resolve(discover("/project", Some("profile")))
        .expect("profile and local nulls are valid");
    assert!(resolution.project().processes()[0].env.is_empty());
    assert_eq!(
        resolution.project().processes()[0].env_remove,
        vec!["FROM_FILE".to_string(), "LOCAL_FILE".to_string()]
    );
}

#[test]
fn environment_layers_are_sorted_and_the_last_layer_wins() {
    let mut disk = Disk::new();
    disk.directory("/project/config");
    disk.file(
        "/project/project-one.env",
        "SHARED=project-one\nPROJECT_ONLY=project\nDOLLAR=$HOME\nSUBSTITUTION=$(touch /project/marker)\nGLOB=*.txt\nMETA=semi;echo never\n",
    );
    disk.file("/project/config/project-two.env", "SHARED=project-two\n");
    disk.file("/project/config/process-one.env", "SHARED=process-one\nPROCESS_ONLY=process\n");
    disk.file("/project/config/process-two.env", "SHARED=process-two\n");
    disk.file(
        "/project/config/stackhand.yaml",
        "version: 1
env_files:
  - ../project-one.env
  - project-two.env
processes:
  child:
    env_files:
      - process-one.env
      - process-two.env
    environment:
      INLINE: inline
    command: [/bin/sh, -c, 'true']
",
    );
    let project = disk
        .load("/project/config/stackhand.yaml", None)
        .expect("environment files load through configuration");
    let expected = [
        ("DOLLAR", "$HOME"),
        ("GLOB", "*.txt"),
        ("INLINE", "inline"),
        ("META", "semi;echo never"),
        ("PROCESS_ONLY", "process"),
        ("PROJECT_ONLY", "project"),
        ("SHARED", "process-two"),
        ("SUBSTITUTION", "$(touch /project/marker)"),
    ];
    let env: Vec<(&str, &str)> = project.processes()[0]
        .env
        .iter()
        .map(|(key, value)| (key.as_str(), value.as_str()))
        .collect();
    assert_eq!(env, expected);
}

#[test]
fn relative_program_and_probe_paths_use_the_base_project_directory() {
    let mut disk = Disk::new();
    disk.directory("/project/process-cwd");
    disk.directory("/project/probe-cwd");
    disk.file("/project/bin/process", "#!/bin/sh\n");
    disk.file("/project/checks/probe", "#!/bin/sh\n");
    disk.file(
        "/project/stackhand.yaml",
        "version: 1\nprocesses:\n  web:\n    cwd: process-cwd\n    command: [./bin/process]\n    ready:\n      exec:\n        command: [./checks/probe]\n        cwd: probe-cwd\n",
    );
    let project = disk.load("/project/stackhand.yaml", None).expect("relative paths resolve");
    let process = &project.processes()[0];
    assert_eq!(process.working_dir, "/project/process-cwd");
    assert_eq!(
        process.command,
        CommandForm::Direct { program: "/project/bin/process".to_string(), args: Vec::new() }
    );
    let probe = &process.readiness.as_ref().expect("readiness parses").checks[0].probe;
    let ReadinessProbe::Exec { command, working_dir, .. } = probe else {
        panic!("the Process has an exec readiness probe");
    };
    assert_eq!(
        command,
        &CommandForm::Direct { program: "/project/checks/probe".to_string(), args: Vec::new() }
    );
    assert_eq!(working_dir, &Some("/project/probe-cwd".to_string()));
}

#[test]
fn process_profiles_and_local_overrides_keep_the_base_path_anchor() {
    let mut disk = Disk::new();
    disk.directory("/project/profile-cwd");
    disk.directory("/project/local-cwd");
    disk.file("/project/bin/profile", "#!/bin/sh\n");
    disk.file("/project/bin/local", "#!/bin/sh\n");
    disk.file(
        "/project/stackhand.yaml",
        "version: 1\nprocesses:\n  web:\n    command: [/usr/bin/true]\n    profiles:\n      profile:\n        cwd: profile-cwd\n        command: [./bin/profile]\n",
    );
    disk.file(
        "/project/stackhand.local.yaml",
        "processes:\n  web:\n    profiles:\n      profile:\n        cwd: local-cwd\n        command: [./bin/local]\n",
    );
    let resolution = disk
        .resolve(discover("/project/nested", Some("profile")))
        .expect("profile and local paths resolve");
    let process = &resolution.project().processes()[0];
    assert_eq!(process.working_dir, "/project/local-cwd");
    assert_eq!(
        process.command,
        CommandForm::Direct { program: "/project/bin/local".to_string(), args: Vec::new() }
    );
}

#[test]
fn missing_relative_programs_fail_before_startup() {
    let error = write_and_load(
        "missing",
        "version: 1\nprocesses:\n  web:\n    command: [./bin/missing]\n",
    )
    .expect_err("a missing relative program must fail");
    assert!(error.message.contains("Process 'web'"), "{error:?}");
    assert!(error.message.contains("./bin/missing"), "{error:?}");
    assert!(error.message.contains("/project/bin/missing"), "{error:?}");
}

#[test]
fn missing_relative_probe_programs_fail_before_startup() {
    let error = write_and_load(
        "missing-probe",
        "version: 1\nprocesses:\n  web:\n    command: [/usr/bin/true]\n    ready:\n      exec:\n        command: [./checks/missing]\n",
    )
    .expect_err("a missing relative probe program must fail");
    assert!(error.message.contains("Process 'web': ready: exec"), "{error:?}");
    assert!(error.message.contains("./checks/missing"), "{error:?}");
    assert!(error.message.contains("/project/checks/missing"), "{error:?}");
}

#[test]
fn bare_program_names_remain_available_to_path_lookup() {
    let project = write_and_load(
        "bare",
        "version: 1\nprocesses:\n  web:\n    command: [sh, -c, 'exit 0']\n",
    )
    .expect("bare program names do not need a local file");
    assert_eq!(
        project.processes()[0].command,
        CommandForm::Direct {
            program: "sh".to_string(),
            args: vec!["-c".to_string(), "exit 0".to_string()],
        }
    );
}

#[test]
fn config_unsupported_versions_are_rejected() {
    let error = write_and_load("version", "version: 2\nprocesses: []\n")
        .expect_err("version 2 must fail");
    assert!(error.message.contains("unsupported schema version 2"));
}

#[test]
fn unreadable_files_and_documents_without_a_version_are_rejected() {
    let disk = Disk::new();
    let missing = disk
        .load("/project/stackhand.yaml", None)
        .expect_err("a missing file must fail");
    assert_eq!(
        missing.message,
        "could not read /project/stackhand.yaml: No such file or directory (os error 2)"
    );
    let list = write_and_load("list", "- web\n").expect_err("a list is no configuration");
    assert!(list.message.contains("configuration must be a mapping"), "{list:?}");
    let bare = write_and_load("bare", "processes: {}\n").expect_err("the version is required");
    assert!(bare.message.contains("configuration must define a numeric version"), "{bare:?}");
    let word = write_and_load("word", "version: one\n").expect_err("the version is a number");
    assert!(
        word.message.contains("configuration version must be an unsigned integer"),
        "{word:?}"
    );
    let broken = write_and_load("broken", "version: [1\n").expect_err("the text is no YAML");
    assert!(broken.message.contains("/project/stackhand.yaml"), "{broken:?}");
    assert!(broken.message.contains("line"), "{broken:?}");
}

#[test]
fn environment_shapes_are_checked_without_their_values() {
    let error = write_and_load(
        "shape",
        "version: 1\nprocesses:\n  web:\n    command: [/bin/true]\n    environment: {TOKEN: [hidden]}\n",
    )
    .expect_err("an environment value must be a string or null");
    assert_eq!(
        error.message,
        "Process 'web': base Project '/project/stackhand.yaml' environment variable 'TOKEN' must be a string or null"
    );
}

#[test]
fn shown_projects_hide_environment_values() {
    let project = write_and_load(
        "shown",
        "version: 1
processes:
  web:
    command: [/bin/sleep, \"1\"]
    environment: {TOKEN: hidden-value}
    ready:
      exec:
        shell: check
        environment: {PROBE: hidden-probe}
      startup_timeout: 90s
",
    )
    .expect("valid config");
    let shown = render(&project).expect("the Project renders");
    assert!(shown.contains("TOKEN: <redacted>"), "{shown}");
    assert!(shown.contains("PROBE: <redacted>"), "{shown}");
    assert!(shown.contains("startup_timeout: 90s"), "{shown}");
    assert!(!shown.contains("hidden"), "{shown}");
}

#[test]
fn requests_reach_the_resolver_as_they_were_made() {
    let mut disk = Disk::new();
    disk.file("/project/stackhand.yaml", &base_project("base"));
    let explicit = validate_project(Some("/project/stackhand.yaml"), |request| {
        disk.resolve(request)
    });
    assert!(explicit.is_ok());
    let nearest = validate_project(None, |request| disk.resolve(request));
    let nearest = nearest.expect_err("there is no Project at the root");
    assert!(nearest.message.contains("starting directory '/'"), "{nearest:?}");
    let profiled = validate_project_with_profile(
        Some("/project/stackhand.yaml"),
        Some("missing"),
        |request| disk.resolve(request),
    );
    let profiled = profiled.expect_err("the profile does not exist");
    assert!(profiled.message.contains("unknown Process Profile 'missing'"), "{profiled:?}");
    let sources = validate_project_sources(
        Some("/project/stackhand.yaml"),
        Some("profile"),
        |request| disk.resolve(request),
    )
    .expect("the sources resolve");
    assert_eq!(sources.base, "/project/stackhand.yaml");
    assert_eq!(sources.profile, Some("profile".to_string()));
    let view = show_project(Some("/project/stackhand.yaml"), Some("profile"), |request| {
        disk.resolve(request)
    })
    .expect("the Project shows");
    assert!(view.yaml.contains("- profile"), "{}", view.yaml);
    assert_eq!(view.sources.base, "/project/stackhand.yaml");
}

#[test]
fn documents_survive_writing_and_reading() {
    let text = "name: web\nport: 80\noffset: -3\nratio: 1.5\nflags: [true, null]\ntag: !custom value\n";
    let tree = parse_yaml(text).expect("the document reads");
    assert_eq!(tree.field("port"), Some(&Yaml::Unsigned(80)));
    assert_eq!(tree.field("offset"), Some(&Yaml::Negative(-3)));
    assert_eq!(tree.field("ratio"), Some(&Yaml::Float("1.5".to_string())));
    let written = write_yaml(&tree).expect("the tree writes");
    assert_eq!(parse_yaml(&written).expect("the text reads again"), tree);
    assert_eq!(tree_from_value(value_from_tree(&tree)), tree);
    let fault = parse_yaml("a: 1\na: 2\n").expect_err("a key occurs twice");
    assert!(fault.message.contains("duplicate entry"), "{fault:?}");
}

#[test]
fn a_shown_http_url_names_the_same_target() {
    let first = parse_http_url("http://example.test/live?deep=1").expect("a valid URL");
    assert_eq!(
        first,
        ("example.test".to_owned(), 80, "/live?deep=1".to_owned())
    );
    let shown = format!("http://{}:{}{}", first.0, first.1, first.2);
    assert_eq!(shown, "http://example.test:80/live?deep=1");
    assert_eq!(parse_http_url(&shown).expect("the shown URL is valid"), first);
}

#[test]
fn inline_variables_replace_file_values_and_null_removes_them() {
    let facts = FileFacts {
        files: vec!["/p/.env".to_owned()],
        directories: vec!["/p".to_owned()],
        contents: vec![(
            "/p/.env".to_owned(),
            FileContent::Bytes(b"A=file\nB=file\nC=file\n".to_vec()),
        )],
    };
    let inline = vec![
        ("B".to_owned(), Some("inline".to_owned())),
        ("C".to_owned(), None),
    ];
    let environment = build_process_environment(
        &vec![".env".to_owned()],
        &inline,
        "api",
        "/p",
        &Vec::new(),
        &facts,
    )
    .expect("a readable environment");
    assert_eq!(
        environment.values,
        [
            ("A".to_owned(), "file".to_owned()),
            ("B".to_owned(), "inline".to_owned()),
        ]
    );
    assert_eq!(environment.removals, ["C".to_owned()]);
}

#[test]
fn a_shown_project_is_the_same_for_other_environment_values() {
    let shown = |value: &str| {
        let yaml = format!(
            "version: 1
processes:
  web:
    command: [/bin/sleep, \"1\"]
    environment: {{TOKEN: {value}, OLD: null}}
    ready:
      all:
        - exec: {{shell: check, environment: {{FIRST: {value}}}}}
        - exec: {{shell: check, environment: {{SECOND: {value}}}}}
    liveness:
      exec: {{shell: check, environment: {{THIRD: {value}}}}}
"
        );
        let mut disk = Disk::new();
        disk.file("/project/stackhand.yaml", &yaml);
        show_project(Some("/project/stackhand.yaml"), None, |request| disk.resolve(request))
            .expect("a valid Project is shown")
            .yaml
    };
    let first = shown("first-secret");
    assert_eq!(first, shown("second-secret"));
    for key in ["TOKEN", "FIRST", "SECOND", "THIRD"] {
        assert!(first.contains(&format!("{key}: <redacted>")), "{first}");
    }
    assert!(first.contains("OLD: null"), "{first}");
}

#[test]
fn a_project_is_loaded_from_its_path() {
    let mut disk = Disk::new();
    disk.file("/project/stackhand.yaml", &base_project("base"));
    let project = load("/project/stackhand.yaml", |request| {
        assert!(matches!(
            &request,
            ResolutionRequest::Explicit { path, profile: None } if path == "/project/stackhand.yaml"
        ));
        disk.resolve(request)
    })
    .expect("a valid Project");
    assert_eq!(project.processes().len(), 1);
    let missing = load("/project/other.yaml", |request| disk.resolve(request));
    assert!(missing.is_err());
}

#[test]
fn each_profile_is_read_from_the_base_with_its_patch_laid_over_it() {
    let raw = parse_yaml(
        "command: [base]
cwd: /tmp
depends_on: {db: started}
profile: first
profiles:
  first: {command: [patched], depends_on: {cache: started}}
  second: {cwd: /srv}
",
    )
    .expect("a valid entry");
    let asked: RefCell<Vec<Yaml>> = RefCell::new(Vec::new());
    let typed = type_process("web", &raw, |tree: &Yaml| {
        asked.borrow_mut().push(tree.duplicate());
        typed_process(tree)
    });
    assert_eq!(typed.name, "web");
    assert_eq!(typed.patched.len(), 2);
    assert_eq!(typed.entry.expect("the entry is read").profiles.len(), 2);
    let base = "command: [base]\ncwd: /tmp\ndepends_on: {db: started}\n";
    let first = "command: [patched]\ncwd: /tmp\ndepends_on: {cache: started}\n";
    let second = "command: [base]\ncwd: /srv\ndepends_on: {db: started}\n";
    let value = |tree: &Yaml| value_from_tree(tree);
    let asked: Vec<Value> = asked.borrow().iter().map(value).collect();
    assert_eq!(asked[0], value(&raw));
    for (at, text) in [(1, base), (2, first), (3, second)] {
        assert_eq!(asked[at], value(&parse_yaml(text).expect("a valid document")), "{text}");
    }
    assert_eq!(asked.len(), 4);
}

#[test]
fn a_document_is_typed_with_every_process_of_its_file() {
    let text = base_project("base");
    let document = Document {
        path: "/project/stackhand.yaml".to_string(),
        text: text.clone(),
        tree: parse_yaml(&text).expect("a valid document"),
        layer: "base".to_string(),
        merged: false,
    };
    let file = typed_file(&document, &Disk::new().facts()).expect("a valid file");
    let typed = type_document(&document, file, typed_process);
    assert!(typed.is_complete());
    assert_eq!(typed.processes.len(), typed.file.processes.len());
    assert!(typed.processes[0].base.is_ok());
}

#[test]
fn a_value_with_text_keys_and_no_tags_is_always_written() {
    let text = |text: &str| Yaml::Text(text.to_string());
    for odd in ["", "!", "!tag", "a\nb\n", "\u{0}", "\u{85}", "- x", "null", "1", " é ", "x: y"] {
        let inner = Yaml::Mapping(vec![(text(odd), text(odd))]);
        let tree = Yaml::Mapping(vec![(
            text(odd),
            Yaml::Sequence(vec![
                inner,
                Yaml::Mapping(Vec::new()),
                Yaml::Sequence(Vec::new()),
                Yaml::Null,
                Yaml::Bool(true),
                Yaml::Unsigned(u64::MAX),
                Yaml::Negative(i64::MIN),
                text(odd),
            ]),
        )]);
        assert!(write_yaml(&tree).is_ok(), "{odd:?}");
        assert!(write_yaml(&text(odd)).is_ok(), "{odd:?}");
    }
}
