//! Shell-input helpers of the terminal front end: here-documents, command
//! substitution, key handling and the renderer placeholder.
pub mod heredoc;
pub mod renderer;
pub mod substitution;
pub mod terminal;
