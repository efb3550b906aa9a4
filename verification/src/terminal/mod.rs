//! The terminal: escape sequence parsing, screen rendering, and the
//! settings and records of terminal sessions and their processes.
use vstd::prelude::*;

pub mod io;
pub mod process;
pub mod protocol;
pub mod pty;
pub mod renderer;

verus! {

/// Terminal emulator configuration.
#[derive(Debug)]
pub struct TerminalConfig {
    /// Default shell
    pub default_shell: String,
    /// Terminal type
    pub term_type: String,
    /// Size as (columns, rows)
    pub size: (u16, u16),
    /// Colour support
    pub color_support: bool,
    /// Mouse support
    pub mouse_support: bool,
    /// Bracketed paste
    pub bracketed_paste: bool,
}

impl Clone for TerminalConfig {
    fn clone(&self) -> (c: Self)
        ensures
            c.default_shell@ == self.default_shell@,
            c.term_type@ == self.term_type@,
            c.size == self.size,
            c.color_support == self.color_support,
            c.mouse_support == self.mouse_support,
            c.bracketed_paste == self.bracketed_paste,
    {
        TerminalConfig {
            default_shell: self.default_shell.clone(),
            term_type: self.term_type.clone(),
            size: self.size,
            color_support: self.color_support,
            mouse_support: self.mouse_support,
            bracketed_paste: self.bracketed_paste,
        }
    }
}

/// A pseudo-terminal session.
#[derive(Debug)]
pub struct PtySession {
    /// Master file descriptor
    pub master_fd: i32,
    /// Slave file descriptor
    pub slave_fd: i32,
    /// Path of the pseudo-terminal
    pub pty_path: String,
    /// Size as (columns, rows)
    pub size: (u16, u16),
}

impl Clone for PtySession {
    fn clone(&self) -> (c: Self)
        ensures
            c.master_fd == self.master_fd,
            c.slave_fd == self.slave_fd,
            c.pty_path@ == self.pty_path@,
            c.size == self.size,
    {
        PtySession {
            master_fd: self.master_fd,
            slave_fd: self.slave_fd,
            pty_path: self.pty_path.clone(),
            size: self.size,
        }
    }
}

/// A process run in the terminal.
#[derive(Debug, Clone)]
pub struct ProcessInfo {
    /// Process id
    pub pid: u32,
    /// Name
    pub name: String,
    /// Command line
    pub command: String,
    /// Status
    pub status: ProcessStatus,
}

/// Process states.
#[derive(Debug, Clone, Copy, PartialEq, Eq, Structural)]
pub enum ProcessStatus {
    /// Running
    Running,
    /// Stopped
    Stopped,
    /// Terminated by a signal
    Terminated(i32),
    /// Suspended
    Suspended,
    /// Exited with a code
    Exited(i32),
    /// Killed by a signal
    Killed(i32),
}

/// The terminal's display state.
#[derive(Debug, Clone, Copy)]
pub struct TerminalState {
    /// Cursor position
    pub cursor_pos: (u16, u16),
    /// Size as (columns, rows)
    pub size: (u16, u16),
    /// Scroll position
    pub scroll_pos: u32,
    /// Start of the selection
    pub selection_start: Option<(u16, u16)>,
    /// End of the selection
    pub selection_end: Option<(u16, u16)>,
    /// Mode flags
    pub mode_flags: TerminalMode,
}

/// Terminal mode flags.
#[derive(Debug, Clone, Copy, PartialEq, Eq, Structural)]
pub struct TerminalMode {
    /// Insert mode
    pub insert_mode: bool,
    /// Application cursor keys
    pub app_cursor_keys: bool,
    /// Application keypad
    pub app_keypad: bool,
    /// Mouse tracking
    pub mouse_tracking: bool,
    /// Bracketed paste
    pub bracketed_paste: bool,
}

impl Default for TerminalConfig {
    /// Bash in an 80 by 24 `xterm-256color` terminal with colour, mouse and
    /// bracketed paste support.
    fn default() -> (c: Self)
        ensures
            c.default_shell@ == "/bin/bash"@,
            c.term_type@ == "xterm-256color"@,
            c.size == (80u16, 24u16),
            c.color_support,
            c.mouse_support,
            c.bracketed_paste,
    {
        TerminalConfig {
            default_shell: "/bin/bash".to_string(),
            term_type: "xterm-256color".to_string(),
            size: (80, 24),
            color_support: true,
            mouse_support: true,
            bracketed_paste: true,
        }
    }
}

impl Default for TerminalMode {
    /// Every mode off.
    fn default() -> (m: Self)
        ensures
            m == (TerminalMode {
                insert_mode: false,
                app_cursor_keys: false,
                app_keypad: false,
                mouse_tracking: false,
                bracketed_paste: false,
            }),
    {
        TerminalMode {
            insert_mode: false,
            app_cursor_keys: false,
            app_keypad: false,
            mouse_tracking: false,
            bracketed_paste: false,
        }
    }
}

} // verus!
