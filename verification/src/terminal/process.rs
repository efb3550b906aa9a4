//! Process groups and the options a process is started with.
use std::collections::HashMap;
use vstd::prelude::*;

verus! {

/// A process group.
#[derive(Debug, Clone)]
pub struct ProcessGroup {
    /// Process group id
    pub pgid: u32,
    /// Leader's process id
    pub leader_pid: u32,
    /// Members' process ids
    pub member_pids: Vec<u32>,
    /// Group state
    pub state: GroupState,
}

/// Process group states.
#[derive(Debug, Clone, Copy, PartialEq, Eq, Structural)]
pub enum GroupState {
    /// Running
    Running,
    /// Stopped
    Stopped,
    /// Terminated
    Terminated,
}

/// Options a process is started with.
#[derive(Debug, Clone)]
pub struct ProcessOptions {
    /// Command
    pub command: String,
    /// Arguments
    pub args: Vec<String>,
    /// Environment
    pub environment: HashMap<String, String>,
    /// Working directory
    pub working_directory: Option<String>,
    /// Process group to join
    pub pgid: Option<u32>,
    /// Run in the foreground
    pub foreground: bool,
}

impl Default for ProcessOptions {
    /// No command, arguments or environment, in the foreground.
    fn default() -> (o: Self)
        ensures
            o.command@ == Seq::<char>::empty(),
            o.args@.len() == 0,
            o.environment@ == Map::<String, String>::empty(),
            o.working_directory is None,
            o.pgid is None,
            o.foreground,
    {
        ProcessOptions {
            command: String::new(),
            args: Vec::new(),
            environment: HashMap::new(),
            working_directory: None,
            pgid: None,
            foreground: true,
        }
    }
}

} // verus!
