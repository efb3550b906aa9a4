//! Plugins: the states a plugin goes through.
use vstd::prelude::*;

verus! {

/// Plugin states.
#[derive(Debug, Clone)]
pub enum PluginState {
    /// Loaded but not initialised
    Loaded,
    /// Initialised and ready
    Initialized,
    /// Running
    Running,
    /// Paused
    Paused,
    /// Stopped
    Stopped,
    /// Failed, with the error
    Error(String),
}

} // verus!
