//! Configuration failures.

use vstd::prelude::*;

verus! {

/// One bounded, user-facing configuration failure.
#[derive(Clone, Debug, PartialEq, Eq)]
pub struct ConfigError {
    pub message: String,
}

impl ConfigError {
    /// An error with a message.
    pub fn new(message: String) -> (r: Self)
        ensures
            r.message@ == message@,
    {
        ConfigError { message }
    }
}

} // verus!
