//! The simple terminal window: its built-in commands, its help text, and
//! how the output of a command it runs through the shell is shown.
use crate::text::{chars_of, eq_chars, string_of, trim_chars, trim_seq};
use vstd::prelude::*;

verus! {

/// What a command line of the simple terminal asks for.
#[derive(Debug, Clone, Copy, PartialEq, Eq, Structural)]
pub enum SimpleCommand {
    /// Show the help text
    Help,
    /// Show the working directory
    Pwd,
    /// List the files of the working directory
    Ls,
    /// Clear the output
    Clear,
    /// Leave the terminal
    Exit,
    /// Only white space
    Empty,
    /// Run the line with `sh -c`
    Shell,
}

/// The kind of a command line, by its text without surrounding white space.
pub open spec fn simple_command_of(command: Seq<char>) -> SimpleCommand {
    let t = trim_seq(command);
    if t == "help"@ {
        SimpleCommand::Help
    } else if t == "pwd"@ {
        SimpleCommand::Pwd
    } else if t == "ls"@ {
        SimpleCommand::Ls
    } else if t == "clear"@ {
        SimpleCommand::Clear
    } else if t == "exit"@ {
        SimpleCommand::Exit
    } else if t.len() == 0 {
        SimpleCommand::Empty
    } else {
        SimpleCommand::Shell
    }
}

/// The kind of a command line.
pub fn classify(command: &str) -> (k: SimpleCommand)
    ensures
        k == simple_command_of(command@),
{
    let t = trim_chars(&chars_of(command));
    if eq_chars(&t, &chars_of("help")) {
        SimpleCommand::Help
    } else if eq_chars(&t, &chars_of("pwd")) {
        SimpleCommand::Pwd
    } else if eq_chars(&t, &chars_of("ls")) {
        SimpleCommand::Ls
    } else if eq_chars(&t, &chars_of("clear")) {
        SimpleCommand::Clear
    } else if eq_chars(&t, &chars_of("exit")) {
        SimpleCommand::Exit
    } else if t.len() == 0 {
        SimpleCommand::Empty
    } else {
        SimpleCommand::Shell
    }
}

/// The help text.
pub fn help_text() -> (s: String)
    ensures
        s@ == "Available commands:\n• help - Show this help\n• pwd - Show current directory\n• ls - List files\n• clear - Clear screen\n• exit - Exit terminal"@,
{
    "Available commands:\n• help - Show this help\n• pwd - Show current directory\n• ls - List files\n• clear - Clear screen\n• exit - Exit terminal".to_string()
}

/// How a shell run is shown: its standard output, then, after a newline
/// when both are there, its standard error; a note of success when it
/// wrote nothing.
pub open spec fn shell_output(stdout: Seq<char>, stderr: Seq<char>) -> Seq<char> {
    if stdout.len() == 0 && stderr.len() == 0 {
        "Command executed successfully"@
    } else if stdout.len() > 0 && stderr.len() > 0 {
        stdout + seq!['\n'] + stderr
    } else {
        stdout + stderr
    }
}

/// How a shell run is shown (see `shell_output`).
pub fn combine_shell_output(stdout: &str, stderr: &str) -> (r: String)
    ensures
        r@ == shell_output(stdout@, stderr@),
{
    let mut v = chars_of(stdout);
    let e = chars_of(stderr);
    if v.len() == 0 && e.len() == 0 {
        return "Command executed successfully".to_string();
    }
    if v.len() > 0 && e.len() > 0 {
        v.push('\n');
    }
    let ghost head = v@;
    let mut i: usize = 0;
    while i < e.len()
        invariant
            i <= e.len(),
            e@ == stderr@,
            v@ == head + e@.take(i as int),
        decreases e.len() - i,
    {
        v.push(e[i]);
        i = i + 1;
        assert(v@ =~= head + e@.take(i as int));
    }
    assert(e@.take(i as int) =~= e@);
    string_of(&v)
}

} // verus!
