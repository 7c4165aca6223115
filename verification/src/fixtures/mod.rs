//! Headless proofs of the whole user path. Each proof is a script: what is
//! waited for, what is then checked, and what is done next. The scripts stand
//! here; the drivers that poll a Supervisor and a terminal stand outside.

pub mod checks;
pub mod laws;
pub mod retained;
pub mod script_laws;
