//! Errors of configuration and of the lifecycle.
use vstd::prelude::*;

verus! {

/// Why configuring or starting an instance failed.
#[derive(PartialEq, Eq, Debug)]
pub enum ConfigError {
    /// A callback slot that may be set once was already set.
    AlreadyConfigured,
    /// The state was already supplied: the instance has started.
    AlreadyStarted,
    /// The host could not compile a shader; its diagnostic.
    ShaderCompile(String),
    /// The host could not link the program; its diagnostic.
    ProgramLink(String),
    /// The host refused to subscribe an event listener; its diagnostic.
    ListenerRegistration(String),
}

} // verus!
