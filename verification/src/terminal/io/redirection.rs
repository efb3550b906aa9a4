//! Redirection settings: where a process reads and writes.
use vstd::prelude::*;

verus! {

/// Where a process's standard streams go.
#[derive(Debug, Clone)]
pub struct IoRedirectOptions {
    /// File standard input reads from
    pub stdin_redirect: Option<String>,
    /// File standard output writes to
    pub stdout_redirect: Option<String>,
    /// File standard error writes to
    pub stderr_redirect: Option<String>,
    /// Append to the output file
    pub append_output: bool,
    /// Append to the error file
    pub append_error: bool,
    /// Pipeline input
    pub pipeline_input: Option<String>,
    /// Pipeline output
    pub pipeline_output: Option<String>,
}

/// Sets redirections up.
#[derive(Debug, Clone)]
pub struct RedirectionManager;

impl Default for IoRedirectOptions {
    /// No redirection and no pipeline.
    fn default() -> (o: Self)
        ensures
            o.stdin_redirect is None,
            o.stdout_redirect is None,
            o.stderr_redirect is None,
            !o.append_output,
            !o.append_error,
            o.pipeline_input is None,
            o.pipeline_output is None,
    {
        IoRedirectOptions {
            stdin_redirect: None,
            stdout_redirect: None,
            stderr_redirect: None,
            append_output: false,
            append_error: false,
            pipeline_input: None,
            pipeline_output: None,
        }
    }
}

} // verus!
