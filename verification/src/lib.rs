//! The logic of a terminal console that runs and supervises the commands of a
//! local development Project.
//!
//! - `config` reads Project files, merges profiles and local overrides, and
//!   validates the result; `project`, `model` and `graph` hold what it gives.
//! - `output`, `log_view`, `process_logs`, `pipe_scroll` and `scrollbar` keep,
//!   search, select and scroll the retained output of a Process.
//! - `console`, `interaction`, `input_queue`, `input_batch` and `event_loop`
//!   route keyboard, mouse and paste events.
//! - `view_model`, `columns` and `geometry` decide what a frame shows.
//! - `fixtures` and the modules named after a fixture hold the scripts and the
//!   verdicts of the end-to-end fixtures.
//! - The modules whose names end in `laws` state what all of this is for, over
//!   all inputs: what is shown, asked for, accepted and kept.
//!
//! Reading files, drawing, and starting Processes are left to the program
//! around the library.

pub mod byte_budget;
pub mod cli;
pub mod cli_laws;
pub mod columns;
pub mod config;
pub mod console;
pub mod duration;
pub mod event_loop;
pub mod fixtures;
pub mod geometry;
pub mod graph;
pub mod input;
pub mod input_batch;
pub mod input_queue;
pub mod interaction;
pub mod interaction_fixture;
pub mod key_laws;
pub mod lifecycle;
pub mod lifecycle_fixture;
pub mod log_laws;
pub mod log_view;
pub mod loop_laws;
pub mod model;
pub mod mouse_laws;
pub mod output;
pub mod output_pressure;
pub mod pipe_scroll;
pub mod process_logs;
pub mod project;
pub mod project_fixture;
pub mod project_laws;
pub mod resize;
pub mod scan;
pub mod scroll_laws;
pub mod scrollbar;
pub mod select_laws;
pub mod session;
pub mod snapshot;
pub mod terminal_fixture;
pub mod terminal_script;
pub mod text;
pub mod view_laws;
pub mod view_model;
pub mod yaml;
