//! Pseudo-terminal sessions: their options and the environment a shell is
//! started with.
use crate::text::{dec_seq, decimal_chars, string_of};
use vstd::prelude::*;

verus! {

/// Options a pseudo-terminal is opened with.
#[derive(Debug)]
pub struct PtyOptions {
    /// Size as (columns, rows)
    pub size: (u16, u16),
    /// Terminal type
    pub term_type: String,
    /// Extra environment variables
    pub environment: Vec<(String, String)>,
    /// Working directory
    pub working_directory: Option<String>,
    /// Command to run in place of the shell
    pub command: Option<String>,
}

impl Clone for PtyOptions {
    fn clone(&self) -> (c: Self)
        ensures
            c.size == self.size,
            c.term_type@ == self.term_type@,
            c.working_directory == self.working_directory,
            c.command == self.command,
    {
        PtyOptions {
            size: self.size,
            term_type: self.term_type.clone(),
            environment: self.environment.clone(),
            working_directory: self.working_directory.clone(),
            command: self.command.clone(),
        }
    }
}

/// Pseudo-terminal helpers.
#[derive(Debug, Clone)]
pub struct PtyUtils;

/// An environment as plain sequences.
pub open spec fn environment_view(env: Seq<(String, String)>) -> Seq<(Seq<char>, Seq<char>)> {
    env.map_values(|e: (String, String)| (e.0@, e.1@))
}

impl PtyUtils {
    /// The environment a session of terminal type `term_type` and size
    /// `size` (columns, rows) is started with: `TERM`, `COLUMNS`, `LINES`,
    /// `TERM_PROGRAM` and `TERM_PROGRAM_VERSION`, in that order.
    pub fn create_environment(term_type: &str, size: (u16, u16)) -> (env: Vec<(String, String)>)
        ensures
            environment_view(env@) == seq![
                ("TERM"@, term_type@),
                ("COLUMNS"@, dec_seq(size.0 as nat)),
                ("LINES"@, dec_seq(size.1 as nat)),
                ("TERM_PROGRAM"@, "sare"@),
                ("TERM_PROGRAM_VERSION"@, "0.1.0"@),
            ],
    {
        let mut env: Vec<(String, String)> = Vec::new();
        env.push(("TERM".to_string(), term_type.to_string()));
        let cols = decimal_chars(size.0 as u64);
        env.push(("COLUMNS".to_string(), string_of(&cols)));
        let lines = decimal_chars(size.1 as u64);
        env.push(("LINES".to_string(), string_of(&lines)));
        env.push(("TERM_PROGRAM".to_string(), "sare".to_string()));
        env.push(("TERM_PROGRAM_VERSION".to_string(), "0.1.0".to_string()));
        assert(environment_view(env@) =~= seq![
            ("TERM"@, term_type@),
            ("COLUMNS"@, dec_seq(size.0 as nat)),
            ("LINES"@, dec_seq(size.1 as nat)),
            ("TERM_PROGRAM"@, "sare"@),
            ("TERM_PROGRAM_VERSION"@, "0.1.0"@),
        ]);
        env
    }
}

impl Default for PtyOptions {
    /// An 80 by 24 `xterm-256color` terminal running the shell.
    fn default() -> (o: Self)
        ensures
            o.size == (80u16, 24u16),
            o.term_type@ == "xterm-256color"@,
            o.environment@.len() == 0,
            o.working_directory is None,
            o.command is None,
    {
        PtyOptions {
            size: (80, 24),
            term_type: "xterm-256color".to_string(),
            environment: Vec::new(),
            working_directory: None,
            command: None,
        }
    }
}

} // verus!
