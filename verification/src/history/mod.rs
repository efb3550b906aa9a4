//! Command history: the commands entered, oldest first, and navigation
//! through them.
use vstd::prelude::*;

pub mod navigation;

verus! {

/// One command of the history.
#[derive(Debug, Clone)]
pub struct HistoryEntry {
    /// The command line as entered
    pub command: String,
    /// Its exit code, where it is known
    pub exit_code: Option<i32>,
}

/// An entry as plain values.
pub open spec fn entry_view(e: HistoryEntry) -> (Seq<char>, Option<i32>) {
    (e.command@, e.exit_code)
}

/// The command history, oldest first.
pub struct HistoryManager {
    entries: Vec<HistoryEntry>,
}

impl HistoryManager {
    /// The entries, oldest first, as plain values.
    pub closed spec fn entries(self) -> Seq<(Seq<char>, Option<i32>)> {
        self.entries@.map_values(|e: HistoryEntry| entry_view(e))
    }

    /// The commands, oldest first.
    pub open spec fn commands(self) -> Seq<Seq<char>> {
        self.entries().map_values(|e: (Seq<char>, Option<i32>)| e.0)
    }

    /// An empty history.
    pub fn new() -> (h: Self)
        ensures
            h.entries() == Seq::<(Seq<char>, Option<i32>)>::empty(),
    {
        let h = HistoryManager { entries: Vec::new() };
        assert(h.entries() =~= Seq::<(Seq<char>, Option<i32>)>::empty());
        h
    }

    /// The entries, oldest first.
    pub fn get_history(&self) -> (r: &Vec<HistoryEntry>)
        ensures
            r@.map_values(|e: HistoryEntry| entry_view(e)) == self.entries(),
    {
        &self.entries
    }

    /// Appends a command with its exit code.
    pub fn add_command(&mut self, command: String, exit_code: Option<i32>)
        ensures
            final(self).entries() == old(self).entries().push((command@, exit_code)),
    {
        let ghost c = command@;
        self.entries.push(HistoryEntry { command, exit_code });
        assert(self.entries() =~= old(self).entries().push((c, exit_code)));
    }
}

} // verus!
