//! Key bindings: key combinations written as `Ctrl+Shift+T`, the actions
//! they trigger, and the bindings kept by identifier and category.
use crate::text::{
    chars_of, chars_of_string, eq_chars, lemma_split_cons, lemma_split_nonempty,
    lemma_split_single, lower_chars, lower_char, lower_seq, split_chars, split_seq, string_of,
};
use std::collections::HashMap;
use vstd::prelude::*;
use vstd::std_specs::hash::obeys_key_model;
use vstd::string::StringExecFns;

verus! {

/// Modifier keys.
#[derive(Debug, Clone, Copy, PartialEq, Eq, Hash, Structural)]
pub enum KeyModifier {
    /// Control key
    Ctrl,
    /// Alt key
    Alt,
    /// Shift key
    Shift,
    /// Super key (Windows key, Command key)
    Super,
    /// Meta key
    Meta,
}

/// Key states.
#[derive(Debug, Clone, Copy, PartialEq, Eq, Hash, Structural)]
pub enum KeyState {
    /// Key is pressed
    Pressed,
    /// Key is released
    Released,
    /// Key is held down
    Held,
}

/// A key combination: a key and the modifiers held with it.
#[derive(Debug, Clone, PartialEq, Eq, Hash)]
pub struct KeyCombination {
    /// Primary key
    pub key: String,
    /// Modifier keys
    pub modifiers: Vec<KeyModifier>,
    /// Key state
    pub state: KeyState,
}

/// Why a key combination could not be read.
#[derive(Debug, Clone, PartialEq, Eq)]
pub enum KeyCombinationError {
    /// A part before the key names no modifier; it is given as written.
    UnknownModifier(String),
}

/// The modifier a part names, compared ignoring ASCII case.
pub open spec fn modifier_named(p: Seq<char>) -> Option<KeyModifier> {
    let l = lower_seq(p);
    if l == "ctrl"@ || l == "control"@ {
        Some(KeyModifier::Ctrl)
    } else if l == "alt"@ {
        Some(KeyModifier::Alt)
    } else if l == "shift"@ {
        Some(KeyModifier::Shift)
    } else if l == "super"@ || l == "cmd"@ || l == "command"@ {
        Some(KeyModifier::Super)
    } else if l == "meta"@ {
        Some(KeyModifier::Meta)
    } else {
        None
    }
}

/// The modifiers the parts name, in order, or the first part that names
/// none.
pub open spec fn modifiers_named(ps: Seq<Seq<char>>) -> Result<Seq<KeyModifier>, Seq<char>>
    decreases ps.len(),
{
    if ps.len() == 0 {
        Ok(seq![])
    } else {
        match modifier_named(ps[0]) {
            None => Err(ps[0]),
            Some(m) => match modifiers_named(ps.drop_first()) {
                Ok(ms) => Ok(seq![m] + ms),
                Err(e) => Err(e),
            },
        }
    }
}

/// A combination as the key written and its modifiers in order.
pub open spec fn combination_view(c: KeyCombination) -> (Seq<char>, Seq<KeyModifier>, KeyState) {
    (c.key@, c.modifiers@, c.state)
}

/// What `key_str` reads as: the parts between `+` signs, the last the key
/// and those before it modifiers, the combination pressed; or the first
/// part before the key that names no modifier.
pub open spec fn parse_combination(key_str: Seq<char>) -> Result<
    (Seq<char>, Seq<KeyModifier>, KeyState),
    Seq<char>,
> {
    let parts = split_seq(key_str, '+');
    match modifiers_named(parts.drop_last()) {
        Ok(ms) => Ok((parts.last(), ms, KeyState::Pressed)),
        Err(p) => Err(p),
    }
}

/// The error names `p` as the unknown modifier.
pub open spec fn names_part(e: KeyCombinationError, p: Seq<char>) -> bool {
    match e {
        KeyCombinationError::UnknownModifier(q) => q@ == p,
    }
}

/// The name a modifier is written with.
pub open spec fn modifier_name(m: KeyModifier) -> Seq<char> {
    match m {
        KeyModifier::Ctrl => "Ctrl"@,
        KeyModifier::Alt => "Alt"@,
        KeyModifier::Shift => "Shift"@,
        KeyModifier::Super => "Super"@,
        KeyModifier::Meta => "Meta"@,
    }
}

/// The modifiers written out, each followed by `+`.
pub open spec fn modifiers_written(ms: Seq<KeyModifier>) -> Seq<char>
    decreases ms.len(),
{
    if ms.len() == 0 {
        seq![]
    } else {
        modifiers_written(ms.drop_last()) + modifier_name(ms.last()) + seq!['+']
    }
}

/// The modifier `lowered` names, given as its lowered text.
fn modifier_of(lowered: &Vec<char>) -> (r: Option<KeyModifier>)
    ensures
        forall|p: Seq<char>| lower_seq(p) == lowered@ ==> r == modifier_named(p),
{
    if eq_chars(lowered, &chars_of("ctrl")) || eq_chars(lowered, &chars_of("control")) {
        Some(KeyModifier::Ctrl)
    } else if eq_chars(lowered, &chars_of("alt")) {
        Some(KeyModifier::Alt)
    } else if eq_chars(lowered, &chars_of("shift")) {
        Some(KeyModifier::Shift)
    } else if eq_chars(lowered, &chars_of("super")) || eq_chars(lowered, &chars_of("cmd"))
        || eq_chars(lowered, &chars_of("command")) {
        Some(KeyModifier::Super)
    } else if eq_chars(lowered, &chars_of("meta")) {
        Some(KeyModifier::Meta)
    } else {
        None
    }
}

/// Written from the front: the first modifier's name and `+`, then the rest.
proof fn lemma_written_cons(m: KeyModifier, ms: Seq<KeyModifier>)
    ensures
        modifiers_written(seq![m] + ms) == modifier_name(m) + seq!['+'] + modifiers_written(ms),
    decreases ms.len(),
{
    let t = seq![m] + ms;
    assert(modifiers_written(t) == modifiers_written(t.drop_last()) + modifier_name(t.last())
        + seq!['+']);
    if ms.len() == 0 {
        assert(t.drop_last() =~= Seq::<KeyModifier>::empty());
        assert(t.last() == m);
        assert(modifiers_written(Seq::<KeyModifier>::empty()) == Seq::<char>::empty());
        assert(modifiers_written(ms) == Seq::<char>::empty());
        assert(Seq::<char>::empty() + modifier_name(m) + seq!['+'] =~= modifier_name(m) + seq!['+']
            + Seq::<char>::empty());
    } else {
        assert(t.drop_last() =~= seq![m] + ms.drop_last());
        assert(t.last() == ms.last());
        lemma_written_cons(m, ms.drop_last());
        assert(modifiers_written(ms) == modifiers_written(ms.drop_last()) + modifier_name(ms.last())
            + seq!['+']);
        assert(modifier_name(m) + seq!['+'] + modifiers_written(ms.drop_last()) + modifier_name(
            ms.last(),
        ) + seq!['+'] =~= modifier_name(m) + seq!['+'] + (modifiers_written(ms.drop_last())
            + modifier_name(ms.last()) + seq!['+']));
    }
}

/// A modifier's name holds no `+` and reads back as that modifier.
proof fn lemma_name_reads_back(m: KeyModifier)
    ensures
        modifier_named(modifier_name(m)) == Some(m),
        !modifier_name(m).contains('+'),
{
    reveal_strlit("Ctrl");
    reveal_strlit("Alt");
    reveal_strlit("Shift");
    reveal_strlit("Super");
    reveal_strlit("Meta");
    reveal_strlit("ctrl");
    reveal_strlit("alt");
    reveal_strlit("shift");
    reveal_strlit("super");
    reveal_strlit("meta");
    reveal_strlit("control");
    reveal_strlit("cmd");
    reveal_strlit("command");
    let n = modifier_name(m);
    assert(lower_seq(n).len() == n.len());
    match m {
        KeyModifier::Ctrl => {
            assert(lower_char('C') == 'c');
            assert(lower_seq(n) =~= "ctrl"@);
        },
        KeyModifier::Alt => {
            assert(lower_char('A') == 'a');
            assert(lower_seq(n) =~= "alt"@);
        },
        KeyModifier::Shift => {
            assert(lower_char('S') == 's');
            assert(lower_seq(n) =~= "shift"@);
        },
        KeyModifier::Super => {
            assert(lower_char('S') == 's');
            assert(lower_seq(n) =~= "super"@);
            assert(lower_seq(n)[1] != "shift"@[1]);
        },
        KeyModifier::Meta => {
            assert(lower_char('M') == 'm');
            assert(lower_seq(n) =~= "meta"@);
            assert(lower_seq(n)[0] != "ctrl"@[0]);
        },
    }
    assert forall|k: int| 0 <= k < n.len() implies n[k] != '+' by {}
}

/// The pieces of written modifiers and a key: the names, then the key.
proof fn lemma_split_written(ms: Seq<KeyModifier>, key: Seq<char>)
    requires
        !key.contains('+'),
    ensures
        split_seq(modifiers_written(ms) + key, '+') == ms.map_values(|m: KeyModifier| modifier_name(m))
            + seq![key],
    decreases ms.len(),
{
    let names = ms.map_values(|m: KeyModifier| modifier_name(m));
    if ms.len() == 0 {
        assert(modifiers_written(ms) + key =~= key);
        lemma_split_single(key, '+');
        assert(names + seq![key] =~= seq![key]);
    } else {
        let m = ms[0];
        let rest = ms.drop_first();
        assert(ms =~= seq![m] + rest);
        lemma_written_cons(m, rest);
        lemma_name_reads_back(m);
        lemma_split_written(rest, key);
        assert(modifiers_written(ms) + key =~= modifier_name(m) + seq!['+'] + (modifiers_written(rest)
            + key));
        lemma_split_cons(modifier_name(m), modifiers_written(rest) + key, '+');
        assert(names =~= seq![modifier_name(m)] + rest.map_values(|m: KeyModifier| modifier_name(m)));
        assert(names + seq![key] =~= seq![modifier_name(m)] + (rest.map_values(
            |m: KeyModifier| modifier_name(m),
        ) + seq![key]));
    }
}

/// The names of modifiers read back as those modifiers.
proof fn lemma_names_read_back(ms: Seq<KeyModifier>)
    ensures
        modifiers_named(ms.map_values(|m: KeyModifier| modifier_name(m))) == Ok::<
            Seq<KeyModifier>,
            Seq<char>,
        >(ms),
    decreases ms.len(),
{
    let names = ms.map_values(|m: KeyModifier| modifier_name(m));
    if ms.len() > 0 {
        lemma_name_reads_back(ms[0]);
        lemma_names_read_back(ms.drop_first());
        assert(names.drop_first() =~= ms.drop_first().map_values(|m: KeyModifier| modifier_name(m)));
        assert(seq![ms[0]] + ms.drop_first() =~= ms);
    } else {
        assert(ms =~= Seq::<KeyModifier>::empty());
    }
}

/// Writing a combination out and reading it back gives the same key and
/// modifiers, pressed, whenever the key holds no `+`.
pub proof fn lemma_combination_round_trip(ms: Seq<KeyModifier>, key: Seq<char>)
    requires
        !key.contains('+'),
    ensures
        parse_combination(modifiers_written(ms) + key) == Ok::<
            (Seq<char>, Seq<KeyModifier>, KeyState),
            Seq<char>,
        >((key, ms, KeyState::Pressed)),
{
    let names = ms.map_values(|m: KeyModifier| modifier_name(m));
    lemma_split_written(ms, key);
    lemma_names_read_back(ms);
    let parts = split_seq(modifiers_written(ms) + key, '+');
    assert(parts.drop_last() =~= names);
    assert(parts.last() == key);
}

impl KeyCombination {
    /// The combination of `key` with `modifiers`, pressed.
    pub fn new(key: &str, modifiers: Vec<KeyModifier>) -> (c: Self)
        ensures
            c.key@ == key@,
            c.modifiers@ == modifiers@,
            c.state == KeyState::Pressed,
    {
        KeyCombination { key: key.to_string(), modifiers, state: KeyState::Pressed }
    }

    /// Reads a combination written as modifiers and a key joined by `+`,
    /// such as `Ctrl+Shift+T`. Modifier names are compared ignoring ASCII
    /// case: `ctrl` or `control`, `alt`, `shift`, `super`, `cmd` or
    /// `command`, and `meta`.
    pub fn from_string(key_str: &str) -> (r: Result<Self, KeyCombinationError>)
        ensures
            match parse_combination(key_str@) {
                Ok(v) => r is Ok && combination_view(r->Ok_0) == v,
                Err(p) => r is Err && names_part(r->Err_0, p),
            },
    {
        let s = chars_of(key_str);
        let parts = split_chars(&s, '+');
        let ghost ps = parts@.map_values(|w: Vec<char>| w@);
        proof {
            lemma_split_nonempty(key_str@, '+', 0, seq![]);
        }
        assert(ps.len() == parts.len());
        let last = parts.len() - 1;
        let ghost mods = ps.drop_last();
        let mut modifiers: Vec<KeyModifier> = Vec::new();
        let mut i: usize = 0;
        proof {
            assert(mods.skip(0) =~= mods);
            match modifiers_named(mods) {
                Ok(ms) => {
                    assert(modifiers@ + ms =~= ms);
                },
                Err(e) => {},
            }
        }
        while i < last
            invariant
                last == parts.len() - 1,
                i <= last,
                ps == parts@.map_values(|w: Vec<char>| w@),
                ps == split_seq(key_str@, '+'),
                mods == ps.drop_last(),
                modifiers_named(mods) == (match modifiers_named(mods.skip(i as int)) {
                    Ok(ms) => Ok(modifiers@ + ms),
                    Err(e) => Err(e),
                }),
            decreases last - i,
        {
            assert(mods.skip(i as int)[0] == parts@[i as int]@);
            assert(mods.skip(i as int).drop_first() =~= mods.skip(i + 1));
            let lowered = lower_chars(&parts[i]);
            match modifier_of(&lowered) {
                Some(m) => {
                    let ghost before = modifiers@;
                    modifiers.push(m);
                    proof {
                        match modifiers_named(mods.skip(i + 1)) {
                            Ok(ms) => {
                                assert(before + (seq![m] + ms) =~= modifiers@ + ms);
                            },
                            Err(e) => {},
                        }
                    }
                },
                None => {
                    return Err(KeyCombinationError::UnknownModifier(string_of(&parts[i])));
                },
            }
            i = i + 1;
        }
        assert(mods.skip(i as int) =~= Seq::<Seq<char>>::empty());
        assert(modifiers@ + Seq::<KeyModifier>::empty() =~= modifiers@);
        let key = string_of(&parts[last]);
        Ok(KeyCombination { key, modifiers, state: KeyState::Pressed })
    }

    /// The combination written out: each modifier's name, then the key,
    /// joined by `+`.
    pub fn to_string(&self) -> (r: String)
        ensures
            r@ == modifiers_written(self.modifiers@) + self.key@,
    {
        let mut out: Vec<char> = Vec::new();
        let mut i: usize = 0;
        while i < self.modifiers.len()
            invariant
                i <= self.modifiers.len(),
                out@ == modifiers_written(self.modifiers@.take(i as int)),
            decreases self.modifiers.len() - i,
        {
            let name = match self.modifiers[i] {
                KeyModifier::Ctrl => chars_of("Ctrl"),
                KeyModifier::Alt => chars_of("Alt"),
                KeyModifier::Shift => chars_of("Shift"),
                KeyModifier::Super => chars_of("Super"),
                KeyModifier::Meta => chars_of("Meta"),
            };
            assert(name@ == modifier_name(self.modifiers@[i as int]));
            let ghost before = out@;
            let mut k: usize = 0;
            while k < name.len()
                invariant
                    k <= name.len(),
                    out@ == before + name@.take(k as int),
                decreases name.len() - k,
            {
                out.push(name[k]);
                k = k + 1;
                assert(out@ =~= before + name@.take(k as int));
            }
            assert(name@.take(k as int) =~= name@);
            out.push('+');
            assert(self.modifiers@.take(i + 1).drop_last() =~= self.modifiers@.take(i as int));
            i = i + 1;
        }
        assert(self.modifiers@.take(i as int) =~= self.modifiers@);
        let key = chars_of_string(&self.key);
        let ghost before = out@;
        let mut k: usize = 0;
        while k < key.len()
            invariant
                k <= key.len(),
                out@ == before + key@.take(k as int),
            decreases key.len() - k,
        {
            out.push(key[k]);
            k = k + 1;
            assert(out@ =~= before + key@.take(k as int));
        }
        assert(key@.take(k as int) =~= key@);
        string_of(&out)
    }
}


/// Actions a key binding can trigger.
#[derive(Debug, Clone)]
pub enum KeyAction {
    /// Nothing
    NoAction,
    /// Run a command
    Command {
        /// The command
        command: String,
        /// Its arguments
        args: Vec<String>,
    },
    /// Switch theme
    SwitchTheme {
        /// The theme, or `next` or `prev`
        theme: String,
    },
    /// Create a new tab
    NewTab,
    /// Close the current tab
    CloseTab,
    /// Switch to the next tab
    NextTab,
    /// Switch to the previous tab
    PreviousTab,
    /// Split the pane horizontally
    SplitHorizontal,
    /// Split the pane vertically
    SplitVertical,
    /// Close the current pane
    ClosePane,
    /// Focus the next pane
    FocusNext,
    /// Focus the previous pane
    FocusPrevious,
    /// Zoom in
    ZoomIn,
    /// Zoom out
    ZoomOut,
    /// Reset the zoom
    ZoomReset,
    /// Copy the selection
    Copy,
    /// Paste
    Paste,
    /// Clear the screen
    ClearScreen,
    /// Show help
    ShowHelp,
    /// Quit the application
    Quit,
    /// An action of the user's, with its data as JSON text
    Custom {
        /// The action's name
        action: String,
        /// Its data, as JSON text
        data: String,
    },
}

/// A key binding.
#[derive(Debug, Clone)]
pub struct KeyBinding {
    /// Key combination
    pub combination: KeyCombination,
    /// Action to perform
    pub action: KeyAction,
    /// Description
    pub description: String,
    /// Whether the binding is enabled
    pub enabled: bool,
    /// Binding category
    pub category: String,
    /// Binding priority
    pub priority: u32,
}

impl KeyBinding {
    /// An enabled binding of priority 0 in the `general` category.
    pub fn new(combination: KeyCombination, action: KeyAction, description: &str) -> (b: Self)
        ensures
            b.combination == combination,
            b.action == action,
            b.description@ == description@,
            b.enabled,
            b.category@ == "general"@,
            b.priority == 0,
    {
        KeyBinding {
            combination,
            action,
            description: description.to_string(),
            enabled: true,
            category: "general".to_string(),
            priority: 0,
        }
    }
}

/// What `{:?}` writes for a list of strings.
pub uninterp spec fn debug_list_text(items: Seq<Seq<char>>) -> Seq<char>;

/// `format!("{:?}", items)`: the list as Rust's `Debug` writes it. Its exact
/// text is left to the name `debug_list_text` of the items, since std does not
/// promise a stable `Debug` format; the contract claims only that it is a
/// function of the items.
#[verifier::external_body]
fn debug_list(items: &Vec<String>) -> (s: String)
    ensures
        s@ == debug_list_text(items.deep_view()),
{
    format!("{:?}", items)
}

/// The line announced when a binding with action `a` is executed; none for
/// `NoAction`.
pub open spec fn execution_message_spec(a: KeyAction) -> Option<Seq<char>> {
    match a {
        KeyAction::NoAction => None,
        KeyAction::Command { command, args } => Some(
            "🚀 Executing command: "@ + command@ + " "@ + debug_list_text(args.deep_view()),
        ),
        KeyAction::SwitchTheme { theme } => Some("🎨 Switching theme: "@ + theme@),
        KeyAction::NewTab => Some("📑 Creating new tab"@),
        KeyAction::CloseTab => Some("📑 Closing current tab"@),
        KeyAction::NextTab => Some("📑 Switching to next tab"@),
        KeyAction::PreviousTab => Some("📑 Switching to previous tab"@),
        KeyAction::SplitHorizontal => Some("📐 Splitting pane horizontally"@),
        KeyAction::SplitVertical => Some("📐 Splitting pane vertically"@),
        KeyAction::ClosePane => Some("📐 Closing current pane"@),
        KeyAction::FocusNext => Some("🎯 Focusing next pane"@),
        KeyAction::FocusPrevious => Some("🎯 Focusing previous pane"@),
        KeyAction::ZoomIn => Some("🔍 Zooming in"@),
        KeyAction::ZoomOut => Some("🔍 Zooming out"@),
        KeyAction::ZoomReset => Some("🔍 Resetting zoom"@),
        KeyAction::Copy => Some("📋 Copying selection"@),
        KeyAction::Paste => Some("📋 Pasting"@),
        KeyAction::ClearScreen => Some("🧹 Clearing screen"@),
        KeyAction::ShowHelp => Some("❓ Showing help"@),
        KeyAction::Quit => Some("👋 Quitting application"@),
        KeyAction::Custom { action, data } => Some(
            "⚙️ Custom action: "@ + action@ + " with data: "@ + data@,
        ),
    }
}

impl KeyAction {
    /// The line announced when a binding with this action is executed, or
    /// `None` for `NoAction`, which does nothing.
    pub fn execution_message(&self) -> (m: Option<String>)
        ensures
            match m {
                Some(s) => execution_message_spec(*self) == Some(s@),
                None => execution_message_spec(*self) is None,
            },
    {
        match self {
            KeyAction::NoAction => None,
            KeyAction::Command { command, args } => {
                let mut s = String::from_str("🚀 Executing command: ");
                s.append(command.as_str());
                s.append(" ");
                let listed = debug_list(args);
                s.append(listed.as_str());
                Some(s)
            },
            KeyAction::SwitchTheme { theme } => {
                let mut s = String::from_str("🎨 Switching theme: ");
                s.append(theme.as_str());
                Some(s)
            },
            KeyAction::NewTab => Some("📑 Creating new tab".to_string()),
            KeyAction::CloseTab => Some("📑 Closing current tab".to_string()),
            KeyAction::NextTab => Some("📑 Switching to next tab".to_string()),
            KeyAction::PreviousTab => Some("📑 Switching to previous tab".to_string()),
            KeyAction::SplitHorizontal => Some("📐 Splitting pane horizontally".to_string()),
            KeyAction::SplitVertical => Some("📐 Splitting pane vertically".to_string()),
            KeyAction::ClosePane => Some("📐 Closing current pane".to_string()),
            KeyAction::FocusNext => Some("🎯 Focusing next pane".to_string()),
            KeyAction::FocusPrevious => Some("🎯 Focusing previous pane".to_string()),
            KeyAction::ZoomIn => Some("🔍 Zooming in".to_string()),
            KeyAction::ZoomOut => Some("🔍 Zooming out".to_string()),
            KeyAction::ZoomReset => Some("🔍 Resetting zoom".to_string()),
            KeyAction::Copy => Some("📋 Copying selection".to_string()),
            KeyAction::Paste => Some("📋 Pasting".to_string()),
            KeyAction::ClearScreen => Some("🧹 Clearing screen".to_string()),
            KeyAction::ShowHelp => Some("❓ Showing help".to_string()),
            KeyAction::Quit => Some("👋 Quitting application".to_string()),
            KeyAction::Custom { action, data } => {
                let mut s = String::from_str("⚙️ Custom action: ");
                s.append(action.as_str());
                s.append(" with data: ");
                s.append(data.as_str());
                Some(s)
            },
        }
    }
}

/// The index of the first name of `ns` equal to `n`.
pub open spec fn first_index(ns: Seq<Seq<char>>, n: Seq<char>) -> Option<int>
    decreases ns.len(),
{
    if ns.len() == 0 {
        None
    } else if ns[0] == n {
        Some(0)
    } else {
        match first_index(ns.drop_first(), n) {
            Some(i) => Some(i + 1),
            None => None,
        }
    }
}

/// What `first_index` finds: an index holding `n` with none before it, or
/// no index at all holding `n`.
pub proof fn lemma_first_index(ns: Seq<Seq<char>>, n: Seq<char>)
    ensures
        match first_index(ns, n) {
            Some(i) => 0 <= i < ns.len() && ns[i] == n && forall|j: int| 0 <= j < i ==> ns[j] != n,
            None => forall|j: int| 0 <= j < ns.len() ==> ns[j] != n,
        },
    decreases ns.len(),
{
    if ns.len() > 0 && ns[0] != n {
        lemma_first_index(ns.drop_first(), n);
        assert forall|j: int| 1 <= j < ns.len() implies ns[j] == ns.drop_first()[j - 1] by {}
    }
}

/// The binding is enabled and bound to the combination `c`.
pub open spec fn binds(b: KeyBinding, c: (Seq<char>, Seq<KeyModifier>, KeyState)) -> bool {
    b.enabled && combination_view(b.combination) == c
}

/// The binding of `c` that a search finds: of the enabled bindings of `c`,
/// one of highest priority (the last such in the order kept).
pub open spec fn best_binding(vals: Seq<KeyBinding>, c: (Seq<char>, Seq<KeyModifier>, KeyState)) -> Option<int>
    decreases vals.len(),
{
    if vals.len() == 0 {
        None
    } else {
        let prev = best_binding(vals.drop_last(), c);
        let l = vals.len() - 1;
        if binds(vals[l], c) && (match prev {
            Some(p) => vals[p].priority <= vals[l].priority,
            None => true,
        }) {
            Some(l)
        } else {
            prev
        }
    }
}

/// A search finds a binding of the combination whenever there is one, and
/// none of the others has a higher priority.
pub proof fn lemma_best_binding(vals: Seq<KeyBinding>, c: (Seq<char>, Seq<KeyModifier>, KeyState))
    ensures
        match best_binding(vals, c) {
            Some(i) => 0 <= i < vals.len() && binds(vals[i], c) && forall|k: int|
                0 <= k < vals.len() && binds(#[trigger] vals[k], c) ==> vals[k].priority <= vals[i].priority,
            None => forall|k: int| 0 <= k < vals.len() ==> !binds(#[trigger] vals[k], c),
        },
    decreases vals.len(),
{
    if vals.len() > 0 {
        let d = vals.drop_last();
        let l = vals.len() - 1;
        lemma_best_binding(d, c);
        let prev = best_binding(d, c);
        match best_binding(vals, c) {
            Some(i) => {
                assert forall|k: int| 0 <= k < vals.len() && binds(#[trigger] vals[k], c) implies vals[k].priority
                    <= vals[i].priority by {
                    if k < l {
                        assert(d[k] == vals[k]);
                        assert(binds(d[k], c));
                        if i < l {
                            assert(d[i] == vals[i]);
                        } else {
                            match prev {
                                Some(p) => {
                                    assert(d[p] == vals[p]);
                                },
                                None => {},
                            }
                        }
                    }
                }
                if i < l {
                    assert(d[i] == vals[i]);
                }
            },
            None => {
                assert forall|k: int| 0 <= k < vals.len() implies !binds(#[trigger] vals[k], c) by {
                    if k < l {
                        assert(d[k] == vals[k]);
                    }
                }
            },
        }
    }
}

/// The bindings that the members `ms` of a category name, in order; a
/// member with no binding is passed over.
pub open spec fn bound_members(ms: Seq<Seq<char>>, ids: Seq<Seq<char>>, vals: Seq<KeyBinding>) -> Seq<KeyBinding>
    decreases ms.len(),
{
    if ms.len() == 0 {
        seq![]
    } else {
        bound_members(ms.drop_last(), ids, vals) + match first_index(ids, ms.last()) {
            Some(k) => seq![vals[k]],
            None => seq![],
        }
    }
}

/// `ms` without the members equal to `id`.
pub open spec fn without_member(ms: Seq<Seq<char>>, id: Seq<char>) -> Seq<Seq<char>>
    decreases ms.len(),
{
    if ms.len() == 0 {
        seq![]
    } else {
        without_member(ms.drop_last(), id) + (if ms.last() == id {
            seq![]
        } else {
            seq![ms.last()]
        })
    }
}

/// Default binding `i`, as `KeyBindingManager::new` sets it up.
pub open spec fn default_binding_ok(i: int, b: KeyBinding) -> bool {
    if i == 0 {
        combination_view(b.combination) == ("T"@, seq![KeyModifier::Ctrl], KeyState::Pressed)
            && b.action is NewTab && b.description@ == "Create new tab"@ && b.enabled && b.category@ == "terminal"@
            && b.priority == 0
    } else if i == 1 {
        combination_view(b.combination) == ("W"@, seq![KeyModifier::Ctrl], KeyState::Pressed)
            && b.action is CloseTab && b.description@ == "Close current tab"@ && b.enabled && b.category@ == "terminal"@
            && b.priority == 0
    } else if i == 2 {
        combination_view(b.combination) == ("Tab"@, seq![KeyModifier::Ctrl], KeyState::Pressed)
            && b.action is NextTab && b.description@ == "Switch to next tab"@ && b.enabled && b.category@ == "terminal"@
            && b.priority == 0
    } else if i == 3 {
        combination_view(b.combination) == ("Tab"@, seq![KeyModifier::Ctrl, KeyModifier::Shift], KeyState::Pressed)
            && b.action is PreviousTab && b.description@ == "Switch to previous tab"@ && b.enabled && b.category@ == "terminal"@
            && b.priority == 0
    } else if i == 4 {
        combination_view(b.combination) == ("T"@, seq![KeyModifier::Ctrl, KeyModifier::Shift], KeyState::Pressed)
            && (b.action matches KeyAction::SwitchTheme { theme } && theme@ == "next"@) && b.description@ == "Switch to next theme"@ && b.enabled && b.category@ == "theme"@
            && b.priority == 0
    } else if i == 5 {
        combination_view(b.combination) == ("R"@, seq![KeyModifier::Ctrl, KeyModifier::Shift], KeyState::Pressed)
            && (b.action matches KeyAction::SwitchTheme { theme } && theme@ == "prev"@) && b.description@ == "Switch to previous theme"@ && b.enabled && b.category@ == "theme"@
            && b.priority == 0
    } else if i == 6 {
        combination_view(b.combination) == ("E"@, seq![KeyModifier::Ctrl, KeyModifier::Shift], KeyState::Pressed)
            && b.action is SplitHorizontal && b.description@ == "Split pane horizontally"@ && b.enabled && b.category@ == "pane"@
            && b.priority == 0
    } else if i == 7 {
        combination_view(b.combination) == ("O"@, seq![KeyModifier::Ctrl, KeyModifier::Shift], KeyState::Pressed)
            && b.action is SplitVertical && b.description@ == "Split pane vertically"@ && b.enabled && b.category@ == "pane"@
            && b.priority == 0
    } else if i == 8 {
        combination_view(b.combination) == ("W"@, seq![KeyModifier::Ctrl, KeyModifier::Shift], KeyState::Pressed)
            && b.action is ClosePane && b.description@ == "Close current pane"@ && b.enabled && b.category@ == "pane"@
            && b.priority == 0
    } else if i == 9 {
        combination_view(b.combination) == ("Arrow"@, seq![KeyModifier::Ctrl, KeyModifier::Shift], KeyState::Pressed)
            && b.action is FocusNext && b.description@ == "Focus next pane"@ && b.enabled && b.category@ == "pane"@
            && b.priority == 0
    } else if i == 10 {
        combination_view(b.combination) == ("Arrow"@, seq![KeyModifier::Ctrl, KeyModifier::Shift], KeyState::Pressed)
            && b.action is FocusPrevious && b.description@ == "Focus previous pane"@ && b.enabled && b.category@ == "pane"@
            && b.priority == 0
    } else if i == 11 {
        combination_view(b.combination) == ("Plus"@, seq![KeyModifier::Ctrl], KeyState::Pressed)
            && b.action is ZoomIn && b.description@ == "Zoom in"@ && b.enabled && b.category@ == "view"@
            && b.priority == 0
    } else if i == 12 {
        combination_view(b.combination) == ("Minus"@, seq![KeyModifier::Ctrl], KeyState::Pressed)
            && b.action is ZoomOut && b.description@ == "Zoom out"@ && b.enabled && b.category@ == "view"@
            && b.priority == 0
    } else if i == 13 {
        combination_view(b.combination) == ("0"@, seq![KeyModifier::Ctrl], KeyState::Pressed)
            && b.action is ZoomReset && b.description@ == "Reset zoom"@ && b.enabled && b.category@ == "view"@
            && b.priority == 0
    } else if i == 14 {
        combination_view(b.combination) == ("C"@, seq![KeyModifier::Ctrl], KeyState::Pressed)
            && b.action is Copy && b.description@ == "Copy selection"@ && b.enabled && b.category@ == "clipboard"@
            && b.priority == 0
    } else if i == 15 {
        combination_view(b.combination) == ("V"@, seq![KeyModifier::Ctrl], KeyState::Pressed)
            && b.action is Paste && b.description@ == "Paste"@ && b.enabled && b.category@ == "clipboard"@
            && b.priority == 0
    } else if i == 16 {
        combination_view(b.combination) == ("L"@, seq![KeyModifier::Ctrl], KeyState::Pressed)
            && b.action is ClearScreen && b.description@ == "Clear screen"@ && b.enabled && b.category@ == "terminal"@
            && b.priority == 0
    } else if i == 17 {
        combination_view(b.combination) == ("F1"@, Seq::<KeyModifier>::empty(), KeyState::Pressed)
            && b.action is ShowHelp && b.description@ == "Show help"@ && b.enabled && b.category@ == "help"@
            && b.priority == 0
    } else if i == 18 {
        combination_view(b.combination) == ("Q"@, seq![KeyModifier::Ctrl], KeyState::Pressed)
            && b.action is Quit && b.description@ == "Quit application"@ && b.enabled && b.category@ == "application"@
            && b.priority == 0
    } else {
        false
    }
}

/// `key_str` is written as one modifier and `key`.
proof fn lemma_default_parses_1(m: KeyModifier, key_str: Seq<char>, key: Seq<char>)
    requires
        key_str == modifier_name(m) + seq!['+'] + key,
        forall|j: int| 0 <= j < key.len() ==> key[j] != '+',
    ensures
        parse_combination(key_str) == Ok::<(Seq<char>, Seq<KeyModifier>, KeyState), Seq<char>>((key, seq![m], KeyState::Pressed)),
{
    reveal_strlit("Ctrl");
    reveal_strlit("Shift");
    assert(!key.contains('+'));
    let ms = seq![m];
    assert(ms.drop_last() =~= Seq::<KeyModifier>::empty());
    assert(modifiers_written(ms) == modifiers_written(ms.drop_last()) + modifier_name(m) + seq!['+']);
    assert(modifiers_written(ms) + key =~= key_str);
    lemma_combination_round_trip(ms, key);
}

/// `key_str` is written as two modifiers and `key`.
proof fn lemma_default_parses_2(m1: KeyModifier, m2: KeyModifier, key_str: Seq<char>, key: Seq<char>)
    requires
        key_str == modifier_name(m1) + seq!['+'] + modifier_name(m2) + seq!['+'] + key,
        forall|j: int| 0 <= j < key.len() ==> key[j] != '+',
    ensures
        parse_combination(key_str) == Ok::<(Seq<char>, Seq<KeyModifier>, KeyState), Seq<char>>((key, seq![m1, m2], KeyState::Pressed)),
{
    assert(!key.contains('+'));
    let ms = seq![m1, m2];
    assert(ms.drop_last() =~= seq![m1]);
    assert(seq![m1].drop_last() =~= Seq::<KeyModifier>::empty());
    assert(modifiers_written(seq![m1]) == modifiers_written(seq![m1].drop_last()) + modifier_name(m1) + seq!['+']);
    assert(modifiers_written(ms) == modifiers_written(ms.drop_last()) + modifier_name(m2) + seq!['+']);
    assert(modifiers_written(ms) + key =~= key_str);
    lemma_combination_round_trip(ms, key);
}

/// `key_str` is a key alone.
proof fn lemma_default_parses_0(key_str: Seq<char>, key: Seq<char>)
    requires
        key_str == key,
        forall|j: int| 0 <= j < key.len() ==> key[j] != '+',
    ensures
        parse_combination(key_str) == Ok::<(Seq<char>, Seq<KeyModifier>, KeyState), Seq<char>>((key, seq![], KeyState::Pressed)),
{
    assert(!key.contains('+'));
    let ms = Seq::<KeyModifier>::empty();
    assert(modifiers_written(ms) + key =~= key_str);
    lemma_combination_round_trip(ms, key);
}

/// Key bindings by identifier, and the identifiers of each category.
pub struct KeyBindingManager {
    bindings: Vec<(String, KeyBinding)>,
    categories: Vec<(String, Vec<String>)>,
}

impl KeyBindingManager {
    /// The identifiers of the bindings, in the order kept.
    pub closed spec fn ids(self) -> Seq<Seq<char>> {
        self.bindings@.map_values(|e: (String, KeyBinding)| e.0@)
    }

    /// The bindings, in the same order as their identifiers.
    pub closed spec fn values(self) -> Seq<KeyBinding> {
        self.bindings@.map_values(|e: (String, KeyBinding)| e.1)
    }

    /// The names of the categories, in the order kept.
    pub closed spec fn category_names(self) -> Seq<Seq<char>> {
        self.categories@.map_values(|e: (String, Vec<String>)| e.0@)
    }

    /// The identifiers listed under each category, in the same order as the
    /// names.
    pub closed spec fn category_members(self) -> Seq<Seq<Seq<char>>> {
        self.categories@.map_values(|e: (String, Vec<String>)| e.1@.map_values(|s: String| s@))
    }

    /// The default bindings, each listed under its category.
    pub fn new() -> (m: Self)
        ensures
            m.ids() == seq!["new-tab"@, "close-tab"@, "next-tab"@, "prev-tab"@, "next-theme"@, "prev-theme"@, "split-horizontal"@, "split-vertical"@, "close-pane"@, "focus-next"@, "focus-prev"@, "zoom-in"@, "zoom-out"@, "zoom-reset"@, "copy"@, "paste"@, "clear-screen"@, "show-help"@, "quit"@],
            forall|i: int| 0 <= i < m.values().len() ==> default_binding_ok(i, #[trigger] m.values()[i]),
            m.values().len() == m.ids().len(),
            m.category_names() == seq!["terminal"@, "theme"@, "pane"@, "view"@, "clipboard"@, "help"@, "application"@],
            m.category_members() == seq![seq!["new-tab"@, "close-tab"@, "next-tab"@, "prev-tab"@, "clear-screen"@], seq!["next-theme"@, "prev-theme"@], seq!["split-horizontal"@, "split-vertical"@, "close-pane"@, "focus-next"@, "focus-prev"@], seq!["zoom-in"@, "zoom-out"@, "zoom-reset"@], seq!["copy"@, "paste"@], seq!["show-help"@], seq!["quit"@]],
    {
        let mut bindings: Vec<(String, KeyBinding)> = Vec::new();
        let mut in_terminal: Vec<String> = Vec::new();
        let mut in_theme: Vec<String> = Vec::new();
        let mut in_pane: Vec<String> = Vec::new();
        let mut in_view: Vec<String> = Vec::new();
        let mut in_clipboard: Vec<String> = Vec::new();
        let mut in_help: Vec<String> = Vec::new();
        let mut in_application: Vec<String> = Vec::new();
        proof {
            reveal_strlit("Ctrl+T");
            reveal_strlit("T");
            reveal_strlit("Ctrl");
            reveal_strlit("Shift");
            assert("Ctrl+T"@ =~= modifier_name(KeyModifier::Ctrl) + seq!['+'] + "T"@);
            lemma_default_parses_1(KeyModifier::Ctrl, "Ctrl+T"@, "T"@);
        }
        match KeyCombination::from_string("Ctrl+T") {
            Ok(combination) => {
                bindings.push(("new-tab".to_string(), KeyBinding {
                    combination,
                    action: KeyAction::NewTab,
                    description: "Create new tab".to_string(),
                    enabled: true,
                    category: "terminal".to_string(),
                    priority: 0,
                }));
                in_terminal.push("new-tab".to_string());
            },
            Err(_) => {},
        }
        proof {
            reveal_strlit("Ctrl+W");
            reveal_strlit("W");
            reveal_strlit("Ctrl");
            reveal_strlit("Shift");
            assert("Ctrl+W"@ =~= modifier_name(KeyModifier::Ctrl) + seq!['+'] + "W"@);
            lemma_default_parses_1(KeyModifier::Ctrl, "Ctrl+W"@, "W"@);
        }
        match KeyCombination::from_string("Ctrl+W") {
            Ok(combination) => {
                bindings.push(("close-tab".to_string(), KeyBinding {
                    combination,
                    action: KeyAction::CloseTab,
                    description: "Close current tab".to_string(),
                    enabled: true,
                    category: "terminal".to_string(),
                    priority: 0,
                }));
                in_terminal.push("close-tab".to_string());
            },
            Err(_) => {},
        }
        proof {
            reveal_strlit("Ctrl+Tab");
            reveal_strlit("Tab");
            reveal_strlit("Ctrl");
            reveal_strlit("Shift");
            assert("Ctrl+Tab"@ =~= modifier_name(KeyModifier::Ctrl) + seq!['+'] + "Tab"@);
            lemma_default_parses_1(KeyModifier::Ctrl, "Ctrl+Tab"@, "Tab"@);
        }
        match KeyCombination::from_string("Ctrl+Tab") {
            Ok(combination) => {
                bindings.push(("next-tab".to_string(), KeyBinding {
                    combination,
                    action: KeyAction::NextTab,
                    description: "Switch to next tab".to_string(),
                    enabled: true,
                    category: "terminal".to_string(),
                    priority: 0,
                }));
                in_terminal.push("next-tab".to_string());
            },
            Err(_) => {},
        }
        proof {
            reveal_strlit("Ctrl+Shift+Tab");
            reveal_strlit("Tab");
            reveal_strlit("Ctrl");
            reveal_strlit("Shift");
            assert("Ctrl+Shift+Tab"@ =~= modifier_name(KeyModifier::Ctrl) + seq!['+'] + modifier_name(KeyModifier::Shift) + seq!['+'] + "Tab"@);
            lemma_default_parses_2(KeyModifier::Ctrl, KeyModifier::Shift, "Ctrl+Shift+Tab"@, "Tab"@);
        }
        match KeyCombination::from_string("Ctrl+Shift+Tab") {
            Ok(combination) => {
                bindings.push(("prev-tab".to_string(), KeyBinding {
                    combination,
                    action: KeyAction::PreviousTab,
                    description: "Switch to previous tab".to_string(),
                    enabled: true,
                    category: "terminal".to_string(),
                    priority: 0,
                }));
                in_terminal.push("prev-tab".to_string());
            },
            Err(_) => {},
        }
        proof {
            reveal_strlit("Ctrl+Shift+T");
            reveal_strlit("T");
            reveal_strlit("Ctrl");
            reveal_strlit("Shift");
            assert("Ctrl+Shift+T"@ =~= modifier_name(KeyModifier::Ctrl) + seq!['+'] + modifier_name(KeyModifier::Shift) + seq!['+'] + "T"@);
            lemma_default_parses_2(KeyModifier::Ctrl, KeyModifier::Shift, "Ctrl+Shift+T"@, "T"@);
        }
        match KeyCombination::from_string("Ctrl+Shift+T") {
            Ok(combination) => {
                bindings.push(("next-theme".to_string(), KeyBinding {
                    combination,
                    action: KeyAction::SwitchTheme { theme: "next".to_string() },
                    description: "Switch to next theme".to_string(),
                    enabled: true,
                    category: "theme".to_string(),
                    priority: 0,
                }));
                in_theme.push("next-theme".to_string());
            },
            Err(_) => {},
        }
        proof {
            reveal_strlit("Ctrl+Shift+R");
            reveal_strlit("R");
            reveal_strlit("Ctrl");
            reveal_strlit("Shift");
            assert("Ctrl+Shift+R"@ =~= modifier_name(KeyModifier::Ctrl) + seq!['+'] + modifier_name(KeyModifier::Shift) + seq!['+'] + "R"@);
            lemma_default_parses_2(KeyModifier::Ctrl, KeyModifier::Shift, "Ctrl+Shift+R"@, "R"@);
        }
        match KeyCombination::from_string("Ctrl+Shift+R") {
            Ok(combination) => {
                bindings.push(("prev-theme".to_string(), KeyBinding {
                    combination,
                    action: KeyAction::SwitchTheme { theme: "prev".to_string() },
                    description: "Switch to previous theme".to_string(),
                    enabled: true,
                    category: "theme".to_string(),
                    priority: 0,
                }));
                in_theme.push("prev-theme".to_string());
            },
            Err(_) => {},
        }
        proof {
            reveal_strlit("Ctrl+Shift+E");
            reveal_strlit("E");
            reveal_strlit("Ctrl");
            reveal_strlit("Shift");
            assert("Ctrl+Shift+E"@ =~= modifier_name(KeyModifier::Ctrl) + seq!['+'] + modifier_name(KeyModifier::Shift) + seq!['+'] + "E"@);
            lemma_default_parses_2(KeyModifier::Ctrl, KeyModifier::Shift, "Ctrl+Shift+E"@, "E"@);
        }
        match KeyCombination::from_string("Ctrl+Shift+E") {
            Ok(combination) => {
                bindings.push(("split-horizontal".to_string(), KeyBinding {
                    combination,
                    action: KeyAction::SplitHorizontal,
                    description: "Split pane horizontally".to_string(),
                    enabled: true,
                    category: "pane".to_string(),
                    priority: 0,
                }));
                in_pane.push("split-horizontal".to_string());
            },
            Err(_) => {},
        }
        proof {
            reveal_strlit("Ctrl+Shift+O");
            reveal_strlit("O");
            reveal_strlit("Ctrl");
            reveal_strlit("Shift");
            assert("Ctrl+Shift+O"@ =~= modifier_name(KeyModifier::Ctrl) + seq!['+'] + modifier_name(KeyModifier::Shift) + seq!['+'] + "O"@);
            lemma_default_parses_2(KeyModifier::Ctrl, KeyModifier::Shift, "Ctrl+Shift+O"@, "O"@);
        }
        match KeyCombination::from_string("Ctrl+Shift+O") {
            Ok(combination) => {
                bindings.push(("split-vertical".to_string(), KeyBinding {
                    combination,
                    action: KeyAction::SplitVertical,
                    description: "Split pane vertically".to_string(),
                    enabled: true,
                    category: "pane".to_string(),
                    priority: 0,
                }));
                in_pane.push("split-vertical".to_string());
            },
            Err(_) => {},
        }
        proof {
            reveal_strlit("Ctrl+Shift+W");
            reveal_strlit("W");
            reveal_strlit("Ctrl");
            reveal_strlit("Shift");
            assert("Ctrl+Shift+W"@ =~= modifier_name(KeyModifier::Ctrl) + seq!['+'] + modifier_name(KeyModifier::Shift) + seq!['+'] + "W"@);
            lemma_default_parses_2(KeyModifier::Ctrl, KeyModifier::Shift, "Ctrl+Shift+W"@, "W"@);
        }
        match KeyCombination::from_string("Ctrl+Shift+W") {
            Ok(combination) => {
                bindings.push(("close-pane".to_string(), KeyBinding {
                    combination,
                    action: KeyAction::ClosePane,
                    description: "Close current pane".to_string(),
                    enabled: true,
                    category: "pane".to_string(),
                    priority: 0,
                }));
                in_pane.push("close-pane".to_string());
            },
            Err(_) => {},
        }
        proof {
            reveal_strlit("Ctrl+Shift+Arrow");
            reveal_strlit("Arrow");
            reveal_strlit("Ctrl");
            reveal_strlit("Shift");
            assert("Ctrl+Shift+Arrow"@ =~= modifier_name(KeyModifier::Ctrl) + seq!['+'] + modifier_name(KeyModifier::Shift) + seq!['+'] + "Arrow"@);
            lemma_default_parses_2(KeyModifier::Ctrl, KeyModifier::Shift, "Ctrl+Shift+Arrow"@, "Arrow"@);
        }
        match KeyCombination::from_string("Ctrl+Shift+Arrow") {
            Ok(combination) => {
                bindings.push(("focus-next".to_string(), KeyBinding {
                    combination,
                    action: KeyAction::FocusNext,
                    description: "Focus next pane".to_string(),
                    enabled: true,
                    category: "pane".to_string(),
                    priority: 0,
                }));
                in_pane.push("focus-next".to_string());
            },
            Err(_) => {},
        }
        proof {
            reveal_strlit("Ctrl+Shift+Arrow");
            reveal_strlit("Arrow");
            reveal_strlit("Ctrl");
            reveal_strlit("Shift");
            assert("Ctrl+Shift+Arrow"@ =~= modifier_name(KeyModifier::Ctrl) + seq!['+'] + modifier_name(KeyModifier::Shift) + seq!['+'] + "Arrow"@);
            lemma_default_parses_2(KeyModifier::Ctrl, KeyModifier::Shift, "Ctrl+Shift+Arrow"@, "Arrow"@);
        }
        match KeyCombination::from_string("Ctrl+Shift+Arrow") {
            Ok(combination) => {
                bindings.push(("focus-prev".to_string(), KeyBinding {
                    combination,
                    action: KeyAction::FocusPrevious,
                    description: "Focus previous pane".to_string(),
                    enabled: true,
                    category: "pane".to_string(),
                    priority: 0,
                }));
                in_pane.push("focus-prev".to_string());
            },
            Err(_) => {},
        }
        proof {
            reveal_strlit("Ctrl+Plus");
            reveal_strlit("Plus");
            reveal_strlit("Ctrl");
            reveal_strlit("Shift");
            assert("Ctrl+Plus"@ =~= modifier_name(KeyModifier::Ctrl) + seq!['+'] + "Plus"@);
            lemma_default_parses_1(KeyModifier::Ctrl, "Ctrl+Plus"@, "Plus"@);
        }
        match KeyCombination::from_string("Ctrl+Plus") {
            Ok(combination) => {
                bindings.push(("zoom-in".to_string(), KeyBinding {
                    combination,
                    action: KeyAction::ZoomIn,
                    description: "Zoom in".to_string(),
                    enabled: true,
                    category: "view".to_string(),
                    priority: 0,
                }));
                in_view.push("zoom-in".to_string());
            },
            Err(_) => {},
        }
        proof {
            reveal_strlit("Ctrl+Minus");
            reveal_strlit("Minus");
            reveal_strlit("Ctrl");
            reveal_strlit("Shift");
            assert("Ctrl+Minus"@ =~= modifier_name(KeyModifier::Ctrl) + seq!['+'] + "Minus"@);
            lemma_default_parses_1(KeyModifier::Ctrl, "Ctrl+Minus"@, "Minus"@);
        }
        match KeyCombination::from_string("Ctrl+Minus") {
            Ok(combination) => {
                bindings.push(("zoom-out".to_string(), KeyBinding {
                    combination,
                    action: KeyAction::ZoomOut,
                    description: "Zoom out".to_string(),
                    enabled: true,
                    category: "view".to_string(),
                    priority: 0,
                }));
                in_view.push("zoom-out".to_string());
            },
            Err(_) => {},
        }
        proof {
            reveal_strlit("Ctrl+0");
            reveal_strlit("0");
            reveal_strlit("Ctrl");
            reveal_strlit("Shift");
            assert("Ctrl+0"@ =~= modifier_name(KeyModifier::Ctrl) + seq!['+'] + "0"@);
            lemma_default_parses_1(KeyModifier::Ctrl, "Ctrl+0"@, "0"@);
        }
        match KeyCombination::from_string("Ctrl+0") {
            Ok(combination) => {
                bindings.push(("zoom-reset".to_string(), KeyBinding {
                    combination,
                    action: KeyAction::ZoomReset,
                    description: "Reset zoom".to_string(),
                    enabled: true,
                    category: "view".to_string(),
                    priority: 0,
                }));
                in_view.push("zoom-reset".to_string());
            },
            Err(_) => {},
        }
        proof {
            reveal_strlit("Ctrl+C");
            reveal_strlit("C");
            reveal_strlit("Ctrl");
            reveal_strlit("Shift");
            assert("Ctrl+C"@ =~= modifier_name(KeyModifier::Ctrl) + seq!['+'] + "C"@);
            lemma_default_parses_1(KeyModifier::Ctrl, "Ctrl+C"@, "C"@);
        }
        match KeyCombination::from_string("Ctrl+C") {
            Ok(combination) => {
                bindings.push(("copy".to_string(), KeyBinding {
                    combination,
                    action: KeyAction::Copy,
                    description: "Copy selection".to_string(),
                    enabled: true,
                    category: "clipboard".to_string(),
                    priority: 0,
                }));
                in_clipboard.push("copy".to_string());
            },
            Err(_) => {},
        }
        proof {
            reveal_strlit("Ctrl+V");
            reveal_strlit("V");
            reveal_strlit("Ctrl");
            reveal_strlit("Shift");
            assert("Ctrl+V"@ =~= modifier_name(KeyModifier::Ctrl) + seq!['+'] + "V"@);
            lemma_default_parses_1(KeyModifier::Ctrl, "Ctrl+V"@, "V"@);
        }
        match KeyCombination::from_string("Ctrl+V") {
            Ok(combination) => {
                bindings.push(("paste".to_string(), KeyBinding {
                    combination,
                    action: KeyAction::Paste,
                    description: "Paste".to_string(),
                    enabled: true,
                    category: "clipboard".to_string(),
                    priority: 0,
                }));
                in_clipboard.push("paste".to_string());
            },
            Err(_) => {},
        }
        proof {
            reveal_strlit("Ctrl+L");
            reveal_strlit("L");
            reveal_strlit("Ctrl");
            reveal_strlit("Shift");
            assert("Ctrl+L"@ =~= modifier_name(KeyModifier::Ctrl) + seq!['+'] + "L"@);
            lemma_default_parses_1(KeyModifier::Ctrl, "Ctrl+L"@, "L"@);
        }
        match KeyCombination::from_string("Ctrl+L") {
            Ok(combination) => {
                bindings.push(("clear-screen".to_string(), KeyBinding {
                    combination,
                    action: KeyAction::ClearScreen,
                    description: "Clear screen".to_string(),
                    enabled: true,
                    category: "terminal".to_string(),
                    priority: 0,
                }));
                in_terminal.push("clear-screen".to_string());
            },
            Err(_) => {},
        }
        proof {
            reveal_strlit("F1");
            reveal_strlit("F1");
            reveal_strlit("Ctrl");
            reveal_strlit("Shift");
            assert("F1"@ =~= "F1"@);
            lemma_default_parses_0("F1"@, "F1"@);
        }
        match KeyCombination::from_string("F1") {
            Ok(combination) => {
                bindings.push(("show-help".to_string(), KeyBinding {
                    combination,
                    action: KeyAction::ShowHelp,
                    description: "Show help".to_string(),
                    enabled: true,
                    category: "help".to_string(),
                    priority: 0,
                }));
                in_help.push("show-help".to_string());
            },
            Err(_) => {},
        }
        proof {
            reveal_strlit("Ctrl+Q");
            reveal_strlit("Q");
            reveal_strlit("Ctrl");
            reveal_strlit("Shift");
            assert("Ctrl+Q"@ =~= modifier_name(KeyModifier::Ctrl) + seq!['+'] + "Q"@);
            lemma_default_parses_1(KeyModifier::Ctrl, "Ctrl+Q"@, "Q"@);
        }
        match KeyCombination::from_string("Ctrl+Q") {
            Ok(combination) => {
                bindings.push(("quit".to_string(), KeyBinding {
                    combination,
                    action: KeyAction::Quit,
                    description: "Quit application".to_string(),
                    enabled: true,
                    category: "application".to_string(),
                    priority: 0,
                }));
                in_application.push("quit".to_string());
            },
            Err(_) => {},
        }
        assert(in_terminal@.map_values(|s: String| s@) =~= seq!["new-tab"@, "close-tab"@, "next-tab"@, "prev-tab"@, "clear-screen"@]);
        assert(in_theme@.map_values(|s: String| s@) =~= seq!["next-theme"@, "prev-theme"@]);
        assert(in_pane@.map_values(|s: String| s@) =~= seq!["split-horizontal"@, "split-vertical"@, "close-pane"@, "focus-next"@, "focus-prev"@]);
        assert(in_view@.map_values(|s: String| s@) =~= seq!["zoom-in"@, "zoom-out"@, "zoom-reset"@]);
        assert(in_clipboard@.map_values(|s: String| s@) =~= seq!["copy"@, "paste"@]);
        assert(in_help@.map_values(|s: String| s@) =~= seq!["show-help"@]);
        assert(in_application@.map_values(|s: String| s@) =~= seq!["quit"@]);
        let mut categories: Vec<(String, Vec<String>)> = Vec::new();
        categories.push(("terminal".to_string(), in_terminal));
        categories.push(("theme".to_string(), in_theme));
        categories.push(("pane".to_string(), in_pane));
        categories.push(("view".to_string(), in_view));
        categories.push(("clipboard".to_string(), in_clipboard));
        categories.push(("help".to_string(), in_help));
        categories.push(("application".to_string(), in_application));
        let m = KeyBindingManager { bindings, categories };
        assert(m.ids() =~= seq!["new-tab"@, "close-tab"@, "next-tab"@, "prev-tab"@, "next-theme"@, "prev-theme"@, "split-horizontal"@, "split-vertical"@, "close-pane"@, "focus-next"@, "focus-prev"@, "zoom-in"@, "zoom-out"@, "zoom-reset"@, "copy"@, "paste"@, "clear-screen"@, "show-help"@, "quit"@]);
        assert(m.category_names() =~= seq!["terminal"@, "theme"@, "pane"@, "view"@, "clipboard"@, "help"@, "application"@]);
        assert(m.category_members() =~= seq![seq!["new-tab"@, "close-tab"@, "next-tab"@, "prev-tab"@, "clear-screen"@], seq!["next-theme"@, "prev-theme"@], seq!["split-horizontal"@, "split-vertical"@, "close-pane"@, "focus-next"@, "focus-prev"@], seq!["zoom-in"@, "zoom-out"@, "zoom-reset"@], seq!["copy"@, "paste"@], seq!["show-help"@], seq!["quit"@]]);
        m
    }

    /// The index of the binding `id`, as `first_index` finds it.
    fn binding_index(&self, id: &Vec<char>) -> (r: Option<usize>)
        ensures
            match r {
                Some(i) => first_index(self.ids(), id@) == Some(i as int) && i < self.bindings.len()
                    && self.ids()[i as int] == id@,
                None => first_index(self.ids(), id@) is None,
            },
    {
        let mut i: usize = 0;
        while i < self.bindings.len()
            invariant
                i <= self.bindings.len(),
                self.ids().len() == self.bindings.len(),
                forall|j: int| 0 <= j < i ==> self.ids()[j] != id@,
            decreases self.bindings.len() - i,
        {
            let k = chars_of_string(&self.bindings[i].0);
            assert(self.ids()[i as int] == k@);
            if eq_chars(&k, id) {
                proof {
                    lemma_first_index(self.ids(), id@);
                }
                return Some(i);
            }
            i = i + 1;
        }
        proof {
            lemma_first_index(self.ids(), id@);
        }
        None
    }

    /// The index of the category `name`, as `first_index` finds it.
    fn category_index(&self, name: &Vec<char>) -> (r: Option<usize>)
        ensures
            match r {
                Some(i) => first_index(self.category_names(), name@) == Some(i as int) && i < self.categories.len()
                    && self.category_names()[i as int] == name@,
                None => first_index(self.category_names(), name@) is None,
            },
    {
        let mut i: usize = 0;
        while i < self.categories.len()
            invariant
                i <= self.categories.len(),
                self.category_names().len() == self.categories.len(),
                forall|j: int| 0 <= j < i ==> self.category_names()[j] != name@,
            decreases self.categories.len() - i,
        {
            let k = chars_of_string(&self.categories[i].0);
            assert(self.category_names()[i as int] == k@);
            if eq_chars(&k, name) {
                proof {
                    lemma_first_index(self.category_names(), name@);
                }
                return Some(i);
            }
            i = i + 1;
        }
        proof {
            lemma_first_index(self.category_names(), name@);
        }
        None
    }

    /// Sets the binding `id`: in place when there is one, else added last.
    fn put_binding(&mut self, id: &str, binding: KeyBinding)
        ensures
            match first_index(old(self).ids(), id@) {
                Some(i) => final(self).ids() == old(self).ids() && final(self).values() == old(
                    self,
                ).values().update(i, binding),
                None => final(self).ids() == old(self).ids().push(id@) && final(self).values() == old(
                    self,
                ).values().push(binding),
            },
            final(self).categories == old(self).categories,
    {
        let key = chars_of(id);
        match self.binding_index(&key) {
            Some(i) => {
                let ghost b = binding;
                self.bindings.set(i, (id.to_string(), binding));
                assert(self.ids() =~= old(self).ids());
                assert(self.values() =~= old(self).values().update(i as int, b));
            },
            None => {
                let ghost b = binding;
                self.bindings.push((id.to_string(), binding));
                assert(self.ids() =~= old(self).ids().push(id@));
                assert(self.values() =~= old(self).values().push(b));
            },
        }
    }

    /// Adds the binding `id`, replacing one of the same identifier, and
    /// lists `id` under the binding's category (the category is created
    /// when it is new).
    pub fn add_binding(&mut self, id: &str, binding: KeyBinding)
        ensures
            match first_index(old(self).ids(), id@) {
                Some(i) => final(self).ids() == old(self).ids() && final(self).values() == old(
                    self,
                ).values().update(i, binding),
                None => final(self).ids() == old(self).ids().push(id@) && final(self).values() == old(
                    self,
                ).values().push(binding),
            },
            match first_index(old(self).category_names(), binding.category@) {
                Some(j) => final(self).category_names() == old(self).category_names()
                    && final(self).category_members() == old(self).category_members().update(
                    j,
                    old(self).category_members()[j].push(id@),
                ),
                None => final(self).category_names() == old(self).category_names().push(
                    binding.category@,
                ) && final(self).category_members() == old(self).category_members().push(
                    seq![id@],
                ),
            },
    {
        let cat = chars_of_string(&binding.category);
        self.put_binding(id, binding);
        let ghost mid_names = self.category_names();
        let ghost mid_members = self.category_members();
        assert(mid_names == old(self).category_names());
        assert(mid_members == old(self).category_members());
        match self.category_index(&cat) {
            Some(j) => {
                let name = self.categories[j].0.clone();
                let mut members: Vec<String> = Vec::new();
                let mut k: usize = 0;
                while k < self.categories[j].1.len()
                    invariant
                        j < self.categories.len(),
                        k <= self.categories[j as int].1.len(),
                        members@.map_values(|s: String| s@) == self.categories[j as int].1@.map_values(
                            |s: String| s@,
                        ).take(k as int),
                    decreases self.categories[j as int].1.len() - k,
                {
                    let s = self.categories[j].1[k].clone();
                    let ghost src = self.categories[j as int].1@.map_values(|s: String| s@);
                    assert(src[k as int] == s@);
                    assert(src.take(k + 1) =~= src.take(k as int).push(s@));
                    let ghost before = members@;
                    members.push(s);
                    assert(members@.map_values(|s: String| s@) =~= before.map_values(|s: String| s@).push(s@));
                    k = k + 1;
                }
                let ghost kept = members@.map_values(|s: String| s@);
                assert(kept =~= mid_members[j as int]);
                members.push(id.to_string());
                assert(members@.map_values(|s: String| s@) =~= mid_members[j as int].push(id@));
                self.categories.set(j, (name, members));
                assert(self.category_names() =~= mid_names);
                assert(self.category_members() =~= mid_members.update(j as int, mid_members[j as int].push(id@)));
            },
            None => {
                let mut members: Vec<String> = Vec::new();
                members.push(id.to_string());
                assert(members@.map_values(|s: String| s@) =~= seq![id@]);
                self.categories.push((string_of(&cat), members));
                assert(self.category_names() =~= mid_names.push(cat@));
                assert(self.category_members() =~= mid_members.push(seq![id@]));
            },
        }
    }

    /// Removes the binding `id`, if there is one, and its listing under its
    /// category.
    pub fn remove_binding(&mut self, id: &str)
        ensures
            match first_index(old(self).ids(), id@) {
                None => final(self).ids() == old(self).ids() && final(self).values() == old(self).values()
                    && final(self).category_names() == old(self).category_names()
                    && final(self).category_members() == old(self).category_members(),
                Some(i) => {
                    &&& final(self).ids() == old(self).ids().remove(i)
                    &&& final(self).values() == old(self).values().remove(i)
                    &&& final(self).category_names() == old(self).category_names()
                    &&& match first_index(old(self).category_names(), old(self).values()[i].category@) {
                        Some(j) => final(self).category_members() == old(self).category_members().update(
                            j,
                            without_member(old(self).category_members()[j], id@),
                        ),
                        None => final(self).category_members() == old(self).category_members(),
                    }
                },
            },
    {
        let key = chars_of(id);
        match self.binding_index(&key) {
            None => {},
            Some(i) => {
                let cat = chars_of_string(&self.bindings[i].1.category);
                assert(cat@ == old(self).values()[i as int].category@);
                self.bindings.remove(i);
                assert(self.ids() =~= old(self).ids().remove(i as int));
                assert(self.values() =~= old(self).values().remove(i as int));
                let ghost names = self.category_names();
                let ghost mems = self.category_members();
                match self.category_index(&cat) {
                    None => {},
                    Some(j) => {
                        let name = self.categories[j].0.clone();
                        let mut members: Vec<String> = Vec::new();
                        let mut k: usize = 0;
                        while k < self.categories[j].1.len()
                            invariant
                                j < self.categories.len(),
                                k <= self.categories[j as int].1.len(),
                                mems == self.category_members(),
                                key@ == id@,
                                members@.map_values(|s: String| s@) == without_member(
                                    mems[j as int].take(k as int),
                                    id@,
                                ),
                            decreases self.categories[j as int].1.len() - k,
                        {
                            let s = self.categories[j].1[k].clone();
                            let sc = chars_of_string(&s);
                            assert(mems[j as int][k as int] == sc@);
                            let ghost t = mems[j as int].take(k + 1);
                            assert(t.drop_last() =~= mems[j as int].take(k as int));
                            assert(t.last() == sc@);
                            assert(without_member(t, id@) == without_member(t.drop_last(), id@) + (if t.last()
                                == id@ {
                                Seq::<Seq<char>>::empty()
                            } else {
                                seq![t.last()]
                            }));
                            let ghost before = members@;
                            if !eq_chars(&sc, &key) {
                                members.push(s);
                                assert(members@.map_values(|s: String| s@) =~= before.map_values(|s: String| s@).push(sc@));
                            } else {
                                assert(before.map_values(|s: String| s@) + Seq::<Seq<char>>::empty() =~= before.map_values(|s: String| s@));
                            }
                            k = k + 1;
                        }
                        assert(mems[j as int].take(k as int) =~= mems[j as int]);
                        self.categories.set(j, (name, members));
                        assert(self.category_names() =~= names);
                        assert(self.category_members() =~= mems.update(j as int, without_member(mems[j as int], id@)));
                    },
                }
            },
        }
    }

    /// Sets the binding `id` (in place when there is one, else added last),
    /// leaving the categories as they are.
    pub fn update_binding(&mut self, id: &str, binding: KeyBinding)
        ensures
            match first_index(old(self).ids(), id@) {
                Some(i) => final(self).ids() == old(self).ids() && final(self).values() == old(
                    self,
                ).values().update(i, binding),
                None => final(self).ids() == old(self).ids().push(id@) && final(self).values() == old(
                    self,
                ).values().push(binding),
            },
            final(self).category_names() == old(self).category_names(),
            final(self).category_members() == old(self).category_members(),
    {
        self.put_binding(id, binding);
    }

    /// The binding `id`, if there is one.
    pub fn get_binding(&self, id: &str) -> (r: Option<&KeyBinding>)
        ensures
            match first_index(self.ids(), id@) {
                Some(i) => r is Some && *r->0 == self.values()[i],
                None => r is None,
            },
    {
        let key = chars_of(id);
        match self.binding_index(&key) {
            Some(i) => {
                assert(self.values()[i as int] == self.bindings@[i as int].1);
                Some(&self.bindings[i].1)
            },
            None => None,
        }
    }

    /// All bindings with their identifiers.
    pub fn get_all_bindings(&self) -> (r: &Vec<(String, KeyBinding)>)
        ensures
            r@.map_values(|e: (String, KeyBinding)| e.0@) == self.ids(),
            r@.map_values(|e: (String, KeyBinding)| e.1) == self.values(),
    {
        &self.bindings
    }

    /// The bindings listed under `category`, in the order listed; a listed
    /// identifier with no binding is passed over.
    pub fn get_bindings_by_category(&self, category: &str) -> (r: Vec<&KeyBinding>)
        ensures
            r@.map_values(|b: &KeyBinding| *b) == (match first_index(self.category_names(), category@) {
                Some(j) => bound_members(self.category_members()[j], self.ids(), self.values()),
                None => Seq::<KeyBinding>::empty(),
            }),
    {
        let cat = chars_of(category);
        let mut r: Vec<&KeyBinding> = Vec::new();
        match self.category_index(&cat) {
            None => {
                assert(r@.map_values(|b: &KeyBinding| *b) =~= Seq::<KeyBinding>::empty());
            },
            Some(j) => {
                let ghost ms = self.category_members()[j as int];
                let mut k: usize = 0;
                while k < self.categories[j].1.len()
                    invariant
                        j < self.categories.len(),
                        k <= self.categories[j as int].1.len(),
                        ms == self.category_members()[j as int],
                        ms.len() == self.categories[j as int].1.len(),
                        r@.map_values(|b: &KeyBinding| *b) == bound_members(ms.take(k as int), self.ids(), self.values()),
                    decreases self.categories[j as int].1.len() - k,
                {
                    let mid = chars_of_string(&self.categories[j].1[k]);
                    assert(ms[k as int] == mid@);
                    assert(ms.take(k + 1).drop_last() =~= ms.take(k as int));
                    assert(ms.take(k + 1).last() == mid@);
                    let ghost before = r@.map_values(|b: &KeyBinding| *b);
                    match self.binding_index(&mid) {
                        Some(i) => {
                            assert(self.values()[i as int] == self.bindings@[i as int].1);
                            r.push(&self.bindings[i].1);
                            assert(r@.map_values(|b: &KeyBinding| *b) =~= before + seq![self.values()[i as int]]);
                        },
                        None => {
                            assert(before + Seq::<KeyBinding>::empty() =~= before);
                        },
                    }
                    k = k + 1;
                }
                assert(ms.take(k as int) =~= ms);
            },
        }
        r
    }

    /// The binding of `c` found among the enabled ones: one of highest
    /// priority, the last such in the order kept.
    fn best_of(&self, key: &Vec<char>, modifiers: &Vec<KeyModifier>, state: KeyState) -> (r: Option<usize>)
        ensures
            match r {
                Some(i) => best_binding(self.values(), (key@, modifiers@, state)) == Some(i as int)
                    && i < self.bindings.len(),
                None => best_binding(self.values(), (key@, modifiers@, state)) is None,
            },
    {
        let ghost c = (key@, modifiers@, state);
        let ghost vals = self.values();
        let mut best: Option<usize> = None;
        let mut i: usize = 0;
        while i < self.bindings.len()
            invariant
                i <= self.bindings.len(),
                vals == self.values(),
                vals.len() == self.bindings.len(),
                c == (key@, modifiers@, state),
                match best {
                    Some(b) => best_binding(vals.take(i as int), c) == Some(b as int) && b < i,
                    None => best_binding(vals.take(i as int), c) is None,
                },
            decreases self.bindings.len() - i,
        {
            let b = &self.bindings[i].1;
            assert(vals[i as int] == *b);
            assert(vals.take(i + 1).drop_last() =~= vals.take(i as int));
            assert(vals.take(i + 1)[i as int] == *b);
            let hit = b.enabled && same_combination(&b.combination, key, modifiers, state);
            assert(hit == binds(vals[i as int], c));
            let better = match best {
                Some(p) => {
                    assert(vals.take(i + 1)[p as int] == vals[p as int]);
                    assert(vals[p as int] == self.bindings@[p as int].1);
                    self.bindings[p].1.priority <= b.priority
                },
                None => true,
            };
            assert(best_binding(vals.take(i + 1), c) == (if binds(vals[i as int], c) && (match best_binding(
                vals.take(i as int),
                c,
            ) {
                Some(p) => vals.take(i as int)[p].priority <= vals[i as int].priority,
                None => true,
            }) {
                Some(i as int)
            } else {
                best_binding(vals.take(i as int), c)
            }));
            if hit && better {
                best = Some(i);
            }
            i = i + 1;
        }
        assert(vals.take(i as int) =~= vals);
        proof {
            lemma_best_binding(vals, c);
        }
        best
    }

    /// The binding of `combination` found among the enabled ones: one of
    /// highest priority.
    pub fn find_binding(&self, combination: &KeyCombination) -> (r: Option<&KeyBinding>)
        ensures
            match best_binding(self.values(), combination_view(*combination)) {
                Some(i) => r is Some && *r->0 == self.values()[i],
                None => r is None,
            },
    {
        let key = chars_of_string(&combination.key);
        let mods = copy_modifiers(combination.modifiers.as_slice());
        match self.best_of(&key, &mods, combination.state) {
            Some(i) => {
                assert(self.values()[i as int] == self.bindings@[i as int].1);
                Some(&self.bindings[i].1)
            },
            None => None,
        }
    }

    /// The binding a key press with `modifiers` held triggers, if any: the
    /// binding found for the pressed combination.
    pub fn handle_key_press(&self, key: &str, modifiers: &[KeyModifier]) -> (r: Option<&KeyBinding>)
        ensures
            match best_binding(self.values(), (key@, modifiers@, KeyState::Pressed)) {
                Some(i) => r is Some && *r->0 == self.values()[i],
                None => r is None,
            },
    {
        let k = chars_of(key);
        let mods = copy_modifiers(modifiers);
        match self.best_of(&k, &mods, KeyState::Pressed) {
            Some(i) => {
                assert(self.values()[i as int] == self.bindings@[i as int].1);
                Some(&self.bindings[i].1)
            },
            None => None,
        }
    }

    /// How many bindings there are in each category: each category that
    /// some binding has, once, with the number of bindings that have it, in
    /// the order the categories first occur.
    pub fn binding_stats(&self) -> (r: Vec<(String, usize)>)
        ensures
            forall|i: int, j: int| 0 <= i < j < r.len() ==> (#[trigger] r@[i]).0@ != (#[trigger] r@[j]).0@,
            forall|i: int| 0 <= i < r.len() ==> (#[trigger] r@[i]).1 == category_count(self.values(), r@[i].0@),
            forall|c: Seq<char>| #[trigger] category_count(self.values(), c) > 0 <==> exists|i: int| 0 <= i < r.len() && (#[trigger] r@[i]).0@ == c,
    {
        let ghost vals = self.values();
        let mut r: Vec<(String, usize)> = Vec::new();
        let mut k: usize = 0;
        while k < self.bindings.len()
            invariant
                k <= self.bindings.len(),
                vals == self.values(),
                vals.len() == self.bindings.len(),
                forall|i: int, j: int| 0 <= i < j < r.len() ==> (#[trigger] r@[i]).0@ != (#[trigger] r@[j]).0@,
                forall|i: int| 0 <= i < r.len() ==> (#[trigger] r@[i]).1 == category_count(vals.take(k as int), r@[i].0@),
                forall|i: int| 0 <= i < r.len() ==> (#[trigger] r@[i]).1 > 0,
                forall|c: Seq<char>| #[trigger] category_count(vals.take(k as int), c) > 0 ==> exists|i: int| 0 <= i < r.len() && (#[trigger] r@[i]).0@ == c,
            decreases self.bindings.len() - k,
        {
            let ghost before = r@;
            let ghost vt = vals.take(k as int);
            let ghost vt1 = vals.take(k + 1);
            assert(vt1.drop_last() =~= vt);
            assert(vt1.last() == self.bindings@[k as int].1);
            let cat = chars_of_string(&self.bindings[k].1.category);
            let ghost c1 = cat@;
            proof {
                assert forall|c: Seq<char>| #[trigger] category_count(vt1, c) == category_count(vt, c) + if c == c1 { 1int } else { 0int } by {}
                lemma_category_count_bound(vt, c1);
            }
            let mut j: usize = 0;
            let mut found = false;
            while !found && j < r.len()
                invariant
                    j <= r.len(),
                    r@ == before,
                    cat@ == c1,
                    !found ==> forall|q: int| 0 <= q < j ==> (#[trigger] r@[q]).0@ != c1,
                    found ==> j < r.len() && r@[j as int].0@ == c1,
                decreases r.len() - j + if found { 0int } else { 1int },
            {
                let name = chars_of_string(&r[j].0);
                if eq_chars(&name, &cat) {
                    found = true;
                } else {
                    j = j + 1;
                }
            }
            if found {
                let old_count = r[j].1;
                let name = r[j].0.clone();
                proof {
                    assert(old_count == category_count(vt, c1));
                }
                r.set(j, (name, old_count + 1));
                proof {
                    assert forall|i: int| 0 <= i < r.len() implies (#[trigger] r@[i]).1 == category_count(vt1, r@[i].0@) by {
                        if i != j {
                            assert(r@[i] == before[i]);
                            if before[i].0@ == c1 {
                                if i < j {
                                    assert(before[i].0@ != before[j as int].0@);
                                } else {
                                    assert(before[j as int].0@ != before[i].0@);
                                }
                            }
                        }
                    }
                    assert forall|c: Seq<char>| #[trigger] category_count(vt1, c) > 0 implies exists|i: int| 0 <= i < r.len() && (#[trigger] r@[i]).0@ == c by {
                        if c == c1 {
                            assert(r@[j as int].0@ == c);
                        } else {
                            assert(category_count(vt, c) > 0);
                            let i = choose|i: int| 0 <= i < before.len() && (#[trigger] before[i]).0@ == c;
                            assert(r@[i].0@ == c);
                        }
                    }
                    assert forall|a: int, b: int| 0 <= a < b < r.len() implies (#[trigger] r@[a]).0@ != (#[trigger] r@[b]).0@ by {
                        assert(before[a].0@ != before[b].0@);
                    }
                }
            } else {
                proof {
                    if category_count(vt, c1) > 0 {
                        let i = choose|i: int| 0 <= i < before.len() && (#[trigger] before[i]).0@ == c1;
                        assert(before[i].0@ != c1);
                    }
                }
                r.push((string_of(&cat), 1));
                proof {
                    assert forall|i: int| 0 <= i < r.len() implies (#[trigger] r@[i]).1 == category_count(vt1, r@[i].0@) by {
                        if i < before.len() {
                            assert(r@[i] == before[i]);
                        }
                    }
                    assert forall|c: Seq<char>| #[trigger] category_count(vt1, c) > 0 implies exists|i: int| 0 <= i < r.len() && (#[trigger] r@[i]).0@ == c by {
                        if c == c1 {
                            assert(r@[before.len() as int].0@ == c);
                        } else {
                            assert(category_count(vt, c) > 0);
                            let i = choose|i: int| 0 <= i < before.len() && (#[trigger] before[i]).0@ == c;
                            assert(r@[i].0@ == c);
                        }
                    }
                    assert forall|a: int, b: int| 0 <= a < b < r.len() implies (#[trigger] r@[a]).0@ != (#[trigger] r@[b]).0@ by {
                        if b < before.len() {
                            assert(before[a].0@ != before[b].0@);
                        } else {
                            assert(r@[a] == before[a]);
                        }
                    }
                }
            }
            k = k + 1;
        }
        proof {
            assert(vals.take(k as int) =~= vals);
        }
        r
    }

    /// How many bindings there are in each category, by category name: the
    /// pairs of `binding_stats` put in a map. Where the key type follows the
    /// hash-table key model, each key is a category that some binding has,
    /// mapped to the number of bindings in it, and every such category is a
    /// key.
    pub fn get_binding_stats(&self) -> (m: HashMap<String, usize>)
        ensures
            obeys_key_model::<String>() ==> forall|s: String| #[trigger] m@.contains_key(s)
                ==> category_count(self.values(), s@) > 0 && m@[s] == category_count(self.values(), s@),
            obeys_key_model::<String>() ==> forall|c: Seq<char>| #[trigger] category_count(self.values(), c) > 0
                ==> exists|s: String| s@ == c && #[trigger] m@.contains_key(s),
    {
        broadcast use vstd::std_specs::hash::group_hash_axioms;
        let pairs = self.binding_stats();
        let mut stats: HashMap<String, usize> = HashMap::new();
        let mut k: usize = 0;
        while k < pairs.len()
            invariant
                k <= pairs.len(),
                forall|i: int, j: int| 0 <= i < j < pairs.len() ==> (#[trigger] pairs@[i]).0@ != (#[trigger] pairs@[j]).0@,
                obeys_key_model::<String>() ==> forall|s: String| #[trigger] stats@.contains_key(s)
                    ==> exists|i: int| 0 <= i < k && (#[trigger] pairs@[i]).0 == s && stats@[s] == pairs@[i].1,
                obeys_key_model::<String>() ==> forall|i: int| 0 <= i < k
                    ==> stats@.contains_key((#[trigger] pairs@[i]).0) && stats@[pairs@[i].0] == pairs@[i].1,
            decreases pairs.len() - k,
        {
            let ghost before = stats@;
            let key = pairs[k].0.clone();
            stats.insert(key, pairs[k].1);
            proof {
                if obeys_key_model::<String>() {
                    assert forall|s: String| #[trigger] stats@.contains_key(s)
                        implies exists|i: int| 0 <= i < k + 1 && (#[trigger] pairs@[i]).0 == s && stats@[s] == pairs@[i].1 by {
                        if s == pairs@[k as int].0 {
                            assert(pairs@[k as int].0 == s);
                        } else {
                            assert(before.contains_key(s));
                        }
                    }
                    assert forall|i: int| 0 <= i < k + 1
                        implies stats@.contains_key((#[trigger] pairs@[i]).0) && stats@[pairs@[i].0] == pairs@[i].1 by {
                        if i < k {
                            assert(pairs@[i].0@ != pairs@[k as int].0@);
                        }
                    }
                }
            }
            k = k + 1;
        }
        proof {
            if obeys_key_model::<String>() {
                assert forall|c: Seq<char>| #[trigger] category_count(self.values(), c) > 0
                    implies exists|s: String| s@ == c && #[trigger] stats@.contains_key(s) by {
                    let i = choose|i: int| 0 <= i < pairs.len() && (#[trigger] pairs@[i]).0@ == c;
                    assert(stats@.contains_key(pairs@[i].0));
                }
            }
        }
        stats
    }
}

/// How many of `vals` have category `c`.
pub open spec fn category_count(vals: Seq<KeyBinding>, c: Seq<char>) -> nat
    decreases vals.len(),
{
    if vals.len() == 0 {
        0
    } else {
        category_count(vals.drop_last(), c) + if vals.last().category@ == c {
            1nat
        } else {
            0nat
        }
    }
}

/// No category counts more bindings than there are.
proof fn lemma_category_count_bound(vals: Seq<KeyBinding>, c: Seq<char>)
    ensures
        category_count(vals, c) <= vals.len(),
    decreases vals.len(),
{
    if vals.len() > 0 {
        lemma_category_count_bound(vals.drop_last(), c);
    }
}

/// The modifiers of a slice, in a vector.
fn copy_modifiers(m: &[KeyModifier]) -> (v: Vec<KeyModifier>)
    ensures
        v@ == m@,
{
    let mut v: Vec<KeyModifier> = Vec::new();
    let mut i: usize = 0;
    while i < m.len()
        invariant
            i <= m@.len(),
            v@ == m@.take(i as int),
        decreases m@.len() - i,
    {
        v.push(m[i]);
        i = i + 1;
        assert(v@ =~= m@.take(i as int));
    }
    assert(m@.take(i as int) =~= m@);
    v
}

/// Whether `c` is the combination (`key`, `modifiers`, `state`).
fn same_combination(c: &KeyCombination, key: &Vec<char>, modifiers: &Vec<KeyModifier>, state: KeyState) -> (r: bool)
    ensures
        r == (combination_view(*c) == (key@, modifiers@, state)),
{
    let k = chars_of_string(&c.key);
    if !eq_chars(&k, key) || c.state != state || c.modifiers.len() != modifiers.len() {
        return false;
    }
    let mut i: usize = 0;
    while i < modifiers.len()
        invariant
            i <= modifiers.len(),
            c.modifiers.len() == modifiers.len(),
            forall|j: int| 0 <= j < i ==> c.modifiers@[j] == modifiers@[j],
        decreases modifiers.len() - i,
    {
        if c.modifiers[i] != modifiers[i] {
            return false;
        }
        i = i + 1;
    }
    assert(c.modifiers@ =~= modifiers@);
    true
}

} // verus!
