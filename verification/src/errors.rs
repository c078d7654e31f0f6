//! The errors of the agent and of its configuration.
use vstd::prelude::*;

verus! {

/// An error while the agent runs.
pub struct AgentError(pub String);

/// An error in the configuration.
pub struct ConfigError(pub String);

impl AgentError {
    /// The text the error is shown with.
    pub fn message(&self) -> (r: String)
        ensures
            r@ == self.0@,
    {
        self.0.clone()
    }
}

impl ConfigError {
    /// The text the error is shown with.
    pub fn message(&self) -> (r: String)
        ensures
            r@ == self.0@,
    {
        self.0.clone()
    }
}

} // verus!
