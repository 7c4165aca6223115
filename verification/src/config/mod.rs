//! Configuration: one YAML version 1 file becomes one validated Project or a
//! structured error before any Process starts.

pub mod accept_laws;
pub mod command;
pub mod diagnostics;
pub mod document;
pub mod env;
pub mod env_laws;
pub mod error;
pub mod file;
pub mod groups;
pub mod layers;
pub mod load;
pub mod merge_laws;
pub mod order;
pub mod paths;
pub mod presentable;
pub mod process;
pub mod process_laws;
pub mod profile;
pub mod profiled;
pub mod readiness;
pub mod readiness_laws;
pub mod resolve;
pub mod resolve_laws;
pub mod shapes;
pub mod show;
pub mod show_laws;
