//! The single canonical version 1 shape of a configuration file, once it was
//! read into typed form. The resolver lowers it into the validated Project
//! model.

use vstd::prelude::*;

use crate::yaml::Yaml;

verus! {

/// One configuration file.
#[derive(Debug)]
pub struct ConfigFile {
    pub base_profile_name: Option<String>,
    pub env_files: Option<Vec<String>>,
    /// Project Profiles by name, in the order of their names.
    pub profiles: Vec<(String, ProjectProfileFile)>,
    /// Process Groups by name, in the order of the file.
    pub groups: Vec<(String, Vec<String>)>,
    /// Processes by name, in the order of the file.
    pub processes: Vec<(String, ProcessFile)>,
    pub settings: Option<SettingsFile>,
}

/// One Project Profile.
#[derive(Debug)]
pub struct ProjectProfileFile {
    pub env_files: Option<Vec<String>>,
}

/// Project-wide settings.
#[derive(Debug)]
pub struct SettingsFile {
    pub shell: Option<ShellFile>,
    pub port_discovery: Option<bool>,
}

/// The launcher of shell expressions.
#[derive(Debug)]
pub struct ShellFile {
    pub program: Option<String>,
    pub args: Option<Vec<String>>,
}

/// One Process.
#[derive(Debug)]
pub struct ProcessFile {
    /// A fixed Process Profile name, or the reserved `base` label.
    pub profile: Option<String>,
    /// Named partial Process patches, in the order of their names.
    pub profiles: Vec<(String, Yaml)>,
    pub kind: Option<String>,
    pub enabled: Option<bool>,
    pub autostart: Option<bool>,
    pub cwd: Option<String>,
    pub env_files: Vec<String>,
    /// Variables by name, in the order of their names; null removes one.
    pub environment: Vec<(String, Option<String>)>,
    pub terminal: Option<TerminalSettings>,
    pub success_exit_codes: Option<Vec<i32>>,
    /// Dependencies by name, in the order of the file.
    pub depends_on: Vec<(String, Option<Yaml>)>,
    pub ready: Option<ReadinessFile>,
    pub liveness: Option<ReadinessFile>,
    pub restart: Option<RestartFile>,
    /// The program and its arguments.
    pub command: Option<Vec<Yaml>>,
    pub shell: Option<String>,
}

/// A restart policy.
#[derive(Debug)]
pub struct RestartFile {
    pub policy: Option<String>,
    pub backoff: Option<String>,
    pub max_restarts: Option<u32>,
    pub on_unhealthy: Option<bool>,
}

/// Terminal settings.
#[derive(Debug)]
pub struct TerminalSettings {
    pub mode: Option<String>,
    pub input: Option<String>,
}

/// One readiness or liveness block.
#[derive(Debug)]
pub struct ReadinessFile {
    pub tcp: Option<TcpProbeFile>,
    pub http: Option<HttpProbeFile>,
    pub exec_check: Option<ExecFile>,
    pub log: Option<LogProbeFile>,
    pub all: Option<Vec<ReadinessFile>>,
    /// Whether the unsupported `any` form is there.
    pub any: bool,
    pub initial_delay: Option<String>,
    pub interval: Option<String>,
    pub timeout: Option<String>,
    pub success_threshold: Option<u32>,
    pub failure_threshold: Option<u32>,
    pub startup_timeout: Option<String>,
}

/// A TCP check.
#[derive(Debug)]
pub struct TcpProbeFile {
    pub host: String,
    pub port: u16,
}

/// An HTTP check.
#[derive(Debug)]
pub struct HttpProbeFile {
    pub url: String,
}

/// A log check.
#[derive(Debug)]
pub struct LogProbeFile {
    pub contains: String,
}

/// An exec check.
#[derive(Debug)]
pub struct ExecFile {
    pub command: Option<Vec<Yaml>>,
    pub shell: Option<String>,
    pub cwd: Option<String>,
    /// Variables by name, in the order of their names.
    pub environment: Vec<(String, String)>,
    pub success_exit_codes: Option<Vec<i32>>,
}

} // verus!
