//! The terminal window's keyboard handling: which key does what.
//!
//! The window keeps panes, history and multi-line input; what is decided
//! here is, for each key press, the action it asks for.
use crate::text::{chars_of, eq_chars, push_char, string_of, trim_chars, trim_seq};
use vstd::prelude::*;

verus! {

/// The keys the terminal window tells apart.
#[derive(Debug, Clone, Copy, PartialEq, Eq, Structural)]
pub enum TerminalKey {
    /// The A key
    A,
    /// The B key
    B,
    /// The C key
    C,
    /// The D key
    D,
    /// The E key
    E,
    /// The F key
    F,
    /// The G key
    G,
    /// The H key
    H,
    /// The I key
    I,
    /// The J key
    J,
    /// The K key
    K,
    /// The L key
    L,
    /// The M key
    M,
    /// The N key
    N,
    /// The O key
    O,
    /// The P key
    P,
    /// The Q key
    Q,
    /// The R key
    R,
    /// The S key
    S,
    /// The T key
    T,
    /// The U key
    U,
    /// The V key
    V,
    /// The W key
    W,
    /// The X key
    X,
    /// The Y key
    Y,
    /// The Z key
    Z,
    /// The space bar
    Space,
    /// Arrow up
    ArrowUp,
    /// Arrow down
    ArrowDown,
    /// Tab
    Tab,
    /// Escape
    Escape,
    /// Enter
    Enter,
    /// Any other key
    Other,
}

/// How a new pane is split off.
#[derive(Debug, Clone, Copy, PartialEq, Eq, Structural)]
pub enum PaneSplit {
    /// The new pane below
    Horizontal,
    /// The new pane to the right
    Vertical,
}

/// What a key press asks the terminal window to do.
#[derive(Debug, Clone, Copy, PartialEq, Eq, Structural)]
pub enum KeyEventAction {
    /// Show the next older command
    HistoryUp,
    /// Show the next newer command
    HistoryDown,
    /// Complete the input
    Complete,
    /// Close the focused pane
    ClosePane,
    /// Split the focused pane
    SplitPane(PaneSplit),
    /// Start a reverse history search
    StartReverseSearch,
    /// Leave the history search
    ExitSearch,
    /// Submit the input line
    Submit,
    /// Add a character to the search query and search again
    SearchChar(char),
    /// Type a character into the input
    InsertChar(char),
    /// Nothing
    Ignore,
}

/// The position in the alphabet of a letter key.
pub open spec fn letter_index(k: TerminalKey) -> Option<nat> {
    match k {
        TerminalKey::A => Some(0nat),
        TerminalKey::B => Some(1nat),
        TerminalKey::C => Some(2nat),
        TerminalKey::D => Some(3nat),
        TerminalKey::E => Some(4nat),
        TerminalKey::F => Some(5nat),
        TerminalKey::G => Some(6nat),
        TerminalKey::H => Some(7nat),
        TerminalKey::I => Some(8nat),
        TerminalKey::J => Some(9nat),
        TerminalKey::K => Some(10nat),
        TerminalKey::L => Some(11nat),
        TerminalKey::M => Some(12nat),
        TerminalKey::N => Some(13nat),
        TerminalKey::O => Some(14nat),
        TerminalKey::P => Some(15nat),
        TerminalKey::Q => Some(16nat),
        TerminalKey::R => Some(17nat),
        TerminalKey::S => Some(18nat),
        TerminalKey::T => Some(19nat),
        TerminalKey::U => Some(20nat),
        TerminalKey::V => Some(21nat),
        TerminalKey::W => Some(22nat),
        TerminalKey::X => Some(23nat),
        TerminalKey::Y => Some(24nat),
        TerminalKey::Z => Some(25nat),
        _ => None,
    }
}

/// The character a key types: a letter key its small letter, the space
/// bar a space, no other key anything.
pub open spec fn typed_char(k: TerminalKey) -> Option<char> {
    if k == TerminalKey::Space {
        Some(' ')
    } else {
        match letter_index(k) {
            Some(i) => Some((('a' as u32) + i) as char),
            None => None,
        }
    }
}

/// What a key press asks for, with Control held or not, and with a history
/// search under way or not. Arrow keys walk the history; Tab completes;
/// Control with D, N, H or R closes the pane, splits it below, splits it to
/// the right, or starts a search, and those four letters type nothing
/// without Control; Escape leaves a search; Enter submits; any other key
/// that types a character adds it to the search or to the input.
pub open spec fn key_event_action(k: TerminalKey, ctrl: bool, searching: bool) -> KeyEventAction {
    match k {
        TerminalKey::ArrowUp => KeyEventAction::HistoryUp,
        TerminalKey::ArrowDown => KeyEventAction::HistoryDown,
        TerminalKey::Tab => KeyEventAction::Complete,
        TerminalKey::D => if ctrl { KeyEventAction::ClosePane } else { KeyEventAction::Ignore },
        TerminalKey::N => if ctrl {
            KeyEventAction::SplitPane(PaneSplit::Horizontal)
        } else {
            KeyEventAction::Ignore
        },
        TerminalKey::H => if ctrl {
            KeyEventAction::SplitPane(PaneSplit::Vertical)
        } else {
            KeyEventAction::Ignore
        },
        TerminalKey::R => if ctrl { KeyEventAction::StartReverseSearch } else { KeyEventAction::Ignore },
        TerminalKey::Escape => if searching { KeyEventAction::ExitSearch } else { KeyEventAction::Ignore },
        TerminalKey::Enter => KeyEventAction::Submit,
        _ => match typed_char(k) {
            Some(c) => if searching { KeyEventAction::SearchChar(c) } else { KeyEventAction::InsertChar(c) },
            None => KeyEventAction::Ignore,
        },
    }
}

/// The character a key types, if any.
pub fn key_to_char(key: TerminalKey) -> (c: Option<char>)
    ensures
        c == typed_char(key),
{
    match key {
            TerminalKey::A => Some('a'),
            TerminalKey::B => Some('b'),
            TerminalKey::C => Some('c'),
            TerminalKey::D => Some('d'),
            TerminalKey::E => Some('e'),
            TerminalKey::F => Some('f'),
            TerminalKey::G => Some('g'),
            TerminalKey::H => Some('h'),
            TerminalKey::I => Some('i'),
            TerminalKey::J => Some('j'),
            TerminalKey::K => Some('k'),
            TerminalKey::L => Some('l'),
            TerminalKey::M => Some('m'),
            TerminalKey::N => Some('n'),
            TerminalKey::O => Some('o'),
            TerminalKey::P => Some('p'),
            TerminalKey::Q => Some('q'),
            TerminalKey::R => Some('r'),
            TerminalKey::S => Some('s'),
            TerminalKey::T => Some('t'),
            TerminalKey::U => Some('u'),
            TerminalKey::V => Some('v'),
            TerminalKey::W => Some('w'),
            TerminalKey::X => Some('x'),
            TerminalKey::Y => Some('y'),
            TerminalKey::Z => Some('z'),
            TerminalKey::Space => Some(' '),
            _ => None,
        }
}

/// What a key press asks for (see `key_event_action`).
pub fn key_action(key: TerminalKey, ctrl: bool, searching: bool) -> (a: KeyEventAction)
    ensures
        a == key_event_action(key, ctrl, searching),
{
    match key {
        TerminalKey::ArrowUp => KeyEventAction::HistoryUp,
        TerminalKey::ArrowDown => KeyEventAction::HistoryDown,
        TerminalKey::Tab => KeyEventAction::Complete,
        TerminalKey::D => if ctrl { KeyEventAction::ClosePane } else { KeyEventAction::Ignore },
        TerminalKey::N => if ctrl {
            KeyEventAction::SplitPane(PaneSplit::Horizontal)
        } else {
            KeyEventAction::Ignore
        },
        TerminalKey::H => if ctrl {
            KeyEventAction::SplitPane(PaneSplit::Vertical)
        } else {
            KeyEventAction::Ignore
        },
        TerminalKey::R => if ctrl { KeyEventAction::StartReverseSearch } else { KeyEventAction::Ignore },
        TerminalKey::Escape => if searching { KeyEventAction::ExitSearch } else { KeyEventAction::Ignore },
        TerminalKey::Enter => KeyEventAction::Submit,
        _ => match key_to_char(key) {
            Some(c) => if searching { KeyEventAction::SearchChar(c) } else { KeyEventAction::InsertChar(c) },
            None => KeyEventAction::Ignore,
        },
    }
}

/// What a command line asks of the terminal: nothing, one of the built-in
/// commands, or a program to run.
#[derive(Debug, Clone, Copy, PartialEq, Eq, Structural)]
pub enum ShellCommand {
    /// Only white space
    Empty,
    /// Clear the output of every pane
    Clear,
    /// Show the working directory
    Pwd,
    /// Show the history
    History,
    /// Run the program the first word names
    External,
}

/// The kind of a command line, by its text without surrounding white space.
pub open spec fn shell_command_of(command: Seq<char>) -> ShellCommand {
    let t = trim_seq(command);
    if t.len() == 0 {
        ShellCommand::Empty
    } else if t == "clear"@ {
        ShellCommand::Clear
    } else if t == "pwd"@ {
        ShellCommand::Pwd
    } else if t == "history"@ {
        ShellCommand::History
    } else {
        ShellCommand::External
    }
}

/// The kind of a command line.
pub fn classify_command(command: &str) -> (k: ShellCommand)
    ensures
        k == shell_command_of(command@),
{
    let t = trim_chars(&chars_of(command));
    if t.len() == 0 {
        ShellCommand::Empty
    } else if eq_chars(&t, &chars_of("clear")) {
        ShellCommand::Clear
    } else if eq_chars(&t, &chars_of("pwd")) {
        ShellCommand::Pwd
    } else if eq_chars(&t, &chars_of("history")) {
        ShellCommand::History
    } else {
        ShellCommand::External
    }
}

/// What a program's run shows: its standard output, then its standard
/// error; a lone newline when it wrote nothing.
pub open spec fn program_output(stdout: Seq<char>, stderr: Seq<char>) -> Seq<char> {
    if stdout.len() + stderr.len() == 0 {
        seq!['\n']
    } else {
        stdout + stderr
    }
}

/// What a program's run shows (see `program_output`).
pub fn combine_output(stdout: &str, stderr: &str) -> (r: String)
    ensures
        r@ == program_output(stdout@, stderr@),
{
    let mut v = chars_of(stdout);
    let e = chars_of(stderr);
    let mut i: usize = 0;
    while i < e.len()
        invariant
            i <= e.len(),
            e@ == stderr@,
            v@ == stdout@ + e@.take(i as int),
        decreases e.len() - i,
    {
        v.push(e[i]);
        i = i + 1;
        assert(v@ =~= stdout@ + e@.take(i as int));
    }
    assert(e@.take(i as int) =~= e@);
    if v.len() == 0 {
        v.push('\n');
        assert(v@ =~= seq!['\n']);
    }
    string_of(&v)
}

/// The line state of the terminal window: the focused pane's input line
/// and cursor, the history position, the input saved when a history search
/// began, and the search itself.
pub struct KeyInputState {
    /// The input line
    pub input: String,
    /// The cursor's position in the input line
    pub cursor_pos: usize,
    /// The history entry shown, if any
    pub history_index: Option<usize>,
    /// The input saved when the search began
    pub original_input: String,
    /// Whether a reverse history search is on
    pub search_mode: bool,
    /// The search query
    pub search_query: String,
}

/// What a key press leaves to the window once the line state is updated:
/// nothing, a character to type into the focused pane, the input line to
/// submit, or a pane to close or split.
#[derive(Debug, Clone, Copy, PartialEq, Eq, Structural)]
pub enum KeyEffect {
    /// Nothing more
    Done,
    /// Type the character into the focused pane
    Type(char),
    /// Submit the input line
    Submit,
    /// Close the focused pane
    ClosePane,
    /// Split the focused pane
    SplitPane(PaneSplit),
}

/// One key press on the line state: starting a reverse search saves the
/// input and clears the query and the history position; leaving it puts the
/// saved input back and clears the query, the position and the saved input;
/// a character typed while searching joins the query. The history moves and
/// completion change nothing; typing, submitting and the pane commands are
/// handed back to the window with the state unchanged (a submitted line is
/// then taken by `submit_line`, or by `enter_line` while a here-document is
/// open).
pub fn key_input_step(st: KeyInputState, action: KeyEventAction) -> (r: (KeyInputState, KeyEffect))
    ensures
        match action {
            KeyEventAction::StartReverseSearch => {
                &&& r.0.search_mode && r.0.search_query@.len() == 0 && r.0.history_index is None
                &&& r.0.original_input@ == st.input@ && r.0.input@ == st.input@ && r.0.cursor_pos == st.cursor_pos
                &&& r.1 == KeyEffect::Done
            },
            KeyEventAction::ExitSearch => {
                &&& !r.0.search_mode && r.0.search_query@.len() == 0 && r.0.history_index is None
                &&& r.0.input@ == st.original_input@ && r.0.original_input@.len() == 0 && r.0.cursor_pos == st.cursor_pos
                &&& r.1 == KeyEffect::Done
            },
            KeyEventAction::SearchChar(c) => {
                &&& r.0.search_query@ == st.search_query@.push(c)
                &&& r.0.search_mode == st.search_mode && r.0.input@ == st.input@ && r.0.cursor_pos == st.cursor_pos
                &&& r.0.history_index == st.history_index && r.0.original_input@ == st.original_input@
                &&& r.1 == KeyEffect::Done
            },
            _ => {
                &&& r.0 == st
                &&& r.1 == match action {
                    KeyEventAction::InsertChar(c) => KeyEffect::Type(c),
                    KeyEventAction::Submit => KeyEffect::Submit,
                    KeyEventAction::ClosePane => KeyEffect::ClosePane,
                    KeyEventAction::SplitPane(d) => KeyEffect::SplitPane(d),
                    _ => KeyEffect::Done,
                }
            },
        },
{
    match action {
        KeyEventAction::StartReverseSearch => {
            let saved = st.input.clone();
            (KeyInputState {
                input: st.input,
                cursor_pos: st.cursor_pos,
                history_index: None,
                original_input: saved,
                search_mode: true,
                search_query: String::new(),
            }, KeyEffect::Done)
        },
        KeyEventAction::ExitSearch => {
            (KeyInputState {
                input: st.original_input,
                cursor_pos: st.cursor_pos,
                history_index: None,
                original_input: String::new(),
                search_mode: false,
                search_query: String::new(),
            }, KeyEffect::Done)
        },
        KeyEventAction::SearchChar(c) => {
            let mut q = st.search_query;
            push_char(&mut q, c);
            (KeyInputState {
                input: st.input,
                cursor_pos: st.cursor_pos,
                history_index: st.history_index,
                original_input: st.original_input,
                search_mode: st.search_mode,
                search_query: q,
            }, KeyEffect::Done)
        },
        KeyEventAction::InsertChar(c) => (st, KeyEffect::Type(c)),
        KeyEventAction::Submit => (st, KeyEffect::Submit),
        KeyEventAction::ClosePane => (st, KeyEffect::ClosePane),
        KeyEventAction::SplitPane(d) => (st, KeyEffect::SplitPane(d)),
        _ => (st, KeyEffect::Done),
    }
}

/// A submitted line when no multi-line input is open: a line of white
/// space only does nothing; any other line is handed back once to be run,
/// and the input line, cursor, history position and saved input are
/// cleared (the search state is left as it is).
pub fn submit_line(st: KeyInputState) -> (r: (KeyInputState, Option<String>))
    ensures
        trim_seq(st.input@).len() == 0 ==> r.0 == st && r.1 is None,
        trim_seq(st.input@).len() > 0 ==> {
            &&& r.1 matches Some(cmd) && cmd@ == st.input@
            &&& r.0.input@.len() == 0 && r.0.cursor_pos == 0
            &&& r.0.history_index is None && r.0.original_input@.len() == 0
            &&& r.0.search_mode == st.search_mode && r.0.search_query == st.search_query
        },
{
    let t = trim_chars(&chars_of(st.input.as_str()));
    if t.len() == 0 {
        (st, None)
    } else {
        let KeyInputState { input, cursor_pos: _, history_index: _, original_input: _, search_mode, search_query } = st;
        (KeyInputState {
            input: String::new(),
            cursor_pos: 0,
            history_index: None,
            original_input: String::new(),
            search_mode,
            search_query,
        }, Some(input))
    }
}

/// Each letter key types its own small letter (the key named `W` types
/// `'w'`), the space bar a space, and no two keys type the same character.
pub proof fn lemma_keys_type_their_letters()
    ensures
        typed_char(TerminalKey::A) == Some('a') && typed_char(TerminalKey::B) == Some('b'),
        typed_char(TerminalKey::C) == Some('c') && typed_char(TerminalKey::D) == Some('d'),
        typed_char(TerminalKey::E) == Some('e') && typed_char(TerminalKey::F) == Some('f'),
        typed_char(TerminalKey::G) == Some('g') && typed_char(TerminalKey::H) == Some('h'),
        typed_char(TerminalKey::I) == Some('i') && typed_char(TerminalKey::J) == Some('j'),
        typed_char(TerminalKey::K) == Some('k') && typed_char(TerminalKey::L) == Some('l'),
        typed_char(TerminalKey::M) == Some('m') && typed_char(TerminalKey::N) == Some('n'),
        typed_char(TerminalKey::O) == Some('o') && typed_char(TerminalKey::P) == Some('p'),
        typed_char(TerminalKey::Q) == Some('q') && typed_char(TerminalKey::R) == Some('r'),
        typed_char(TerminalKey::S) == Some('s') && typed_char(TerminalKey::T) == Some('t'),
        typed_char(TerminalKey::U) == Some('u') && typed_char(TerminalKey::V) == Some('v'),
        typed_char(TerminalKey::W) == Some('w') && typed_char(TerminalKey::X) == Some('x'),
        typed_char(TerminalKey::Y) == Some('y') && typed_char(TerminalKey::Z) == Some('z'),
        typed_char(TerminalKey::Space) == Some(' '),
        forall|k1: TerminalKey, k2: TerminalKey|
            #![trigger typed_char(k1), typed_char(k2)]
            typed_char(k1) is Some && typed_char(k1) == typed_char(k2) ==> k1 == k2,
{
    assert forall|k1: TerminalKey, k2: TerminalKey|
        #![trigger typed_char(k1), typed_char(k2)]
        typed_char(k1) is Some && typed_char(k1) == typed_char(k2) implies k1 == k2 by {
        if k1 != TerminalKey::Space && k2 != TerminalKey::Space {
            let i = letter_index(k1)->0;
            let j = letter_index(k2)->0;
            assert(i == j);
        }
    }
}

/// A letter key pressed without Control types its small letter into the
/// input, or during a search adds it to the query; only D, N, H and R,
/// which act with Control, type nothing without it.
pub proof fn lemma_letter_key_inserts_its_letter(k: TerminalKey, c: char, searching: bool)
    requires
        typed_char(k) == Some(c),
    ensures
        key_event_action(k, false, searching) == (if searching { KeyEventAction::SearchChar(c) } else { KeyEventAction::InsertChar(c) })
            || (k == TerminalKey::D || k == TerminalKey::N || k == TerminalKey::H || k == TerminalKey::R),
{
}

} // verus!
