//! Configuration: terminal settings and the default key bindings.
use vstd::prelude::*;

pub mod config_files;
pub mod hot_reload;
pub mod key_binding_system;
pub mod plugin_system;
pub mod theme_engine;

verus! {

/// A key binding as configured: a key combination written out, the action
/// it triggers and a description.
#[derive(Debug, Clone)]
pub struct KeyBinding {
    /// Key combination (e.g., "Ctrl+C", "Alt+F4")
    pub key: String,
    /// Action to perform
    pub action: String,
    /// Description of the action
    pub description: String,
    /// Whether the binding is enabled
    pub enabled: bool,
}

/// Terminal settings.
#[derive(Debug, Clone)]
pub struct TerminalConfig {
    /// Default shell
    pub default_shell: String,
    /// Scrollback buffer size
    pub scrollback_size: usize,
    /// Enable bell sound
    pub bell_enabled: bool,
    /// Bell sound file
    pub bell_sound: String,
    /// Cursor blink rate
    pub cursor_blink_rate: u32,
    /// Cursor shape
    pub cursor_shape: String,
    /// Enable mouse support
    pub mouse_enabled: bool,
    /// Enable bracketed paste
    pub bracketed_paste: bool,
    /// Enable focus reporting
    pub focus_reporting: bool,
}

impl Default for TerminalConfig {
    fn default() -> (c: Self)
        ensures
            c.default_shell@ == "/bin/bash"@,
            c.scrollback_size == 10000,
            c.bell_enabled,
            c.bell_sound@ == "/usr/share/sounds/freedesktop/stereo/complete.oga"@,
            c.cursor_blink_rate == 530,
            c.cursor_shape@ == "block"@,
            c.mouse_enabled,
            c.bracketed_paste,
            c.focus_reporting,
    {
        TerminalConfig {
            default_shell: "/bin/bash".to_string(),
            scrollback_size: 10000,
            bell_enabled: true,
            bell_sound: "/usr/share/sounds/freedesktop/stereo/complete.oga".to_string(),
            cursor_blink_rate: 530,
            cursor_shape: "block".to_string(),
            mouse_enabled: true,
            bracketed_paste: true,
            focus_reporting: true,
        }
    }
}

/// The default bindings as (identifier, key combination, description);
/// each binding's action is its identifier.
pub open spec fn default_binding_table() -> Seq<(Seq<char>, Seq<char>, Seq<char>)> {
    seq![
        ("new-tab"@, "Ctrl+T"@, "Create new tab"@),
        ("close-tab"@, "Ctrl+W"@, "Close current tab"@),
        ("next-tab"@, "Ctrl+Tab"@, "Switch to next tab"@),
        ("prev-tab"@, "Ctrl+Shift+Tab"@, "Switch to previous tab"@),
        ("next-theme"@, "Ctrl+Shift+T"@, "Switch to next theme"@),
        ("prev-theme"@, "Ctrl+Shift+R"@, "Switch to previous theme"@),
        ("split-horizontal"@, "Ctrl+Shift+E"@, "Split pane horizontally"@),
        ("split-vertical"@, "Ctrl+Shift+O"@, "Split pane vertically"@),
        ("close-pane"@, "Ctrl+Shift+W"@, "Close current pane"@),
        ("focus-next"@, "Ctrl+Shift+Arrow"@, "Focus next pane"@),
        ("focus-prev"@, "Ctrl+Shift+Arrow"@, "Focus previous pane"@),
        ("zoom-in"@, "Ctrl+Plus"@, "Zoom in"@),
        ("zoom-out"@, "Ctrl+Minus"@, "Zoom out"@),
        ("zoom-reset"@, "Ctrl+0"@, "Reset zoom"@)
    ]
}

/// A configured binding as (identifier, key, action, description, enabled).
pub open spec fn binding_entry_view(e: (String, KeyBinding)) -> (Seq<char>, Seq<char>, Seq<char>, Seq<char>, bool) {
    (e.0@, e.1.key@, e.1.action@, e.1.description@, e.1.enabled)
}

/// The table row a configured binding should hold: enabled, its action
/// its identifier.
pub open spec fn table_entry(t: (Seq<char>, Seq<char>, Seq<char>)) -> (Seq<char>, Seq<char>, Seq<char>, Seq<char>, bool) {
    (t.0, t.1, t.0, t.2, true)
}

/// Appends the enabled binding `id` on `key` with `description`; its
/// action is `id`.
fn push_binding(v: &mut Vec<(String, KeyBinding)>, id: &str, key: &str, description: &str)
    ensures
        final(v)@.map_values(|e: (String, KeyBinding)| binding_entry_view(e)) == old(v)@.map_values(
            |e: (String, KeyBinding)| binding_entry_view(e),
        ).push((id@, key@, id@, description@, true)),
{
    let b = KeyBinding {
        key: key.to_string(),
        action: id.to_string(),
        description: description.to_string(),
        enabled: true,
    };
    let ghost before = v@;
    v.push((id.to_string(), b));
    assert(v@.map_values(|e: (String, KeyBinding)| binding_entry_view(e)) =~= before.map_values(
        |e: (String, KeyBinding)| binding_entry_view(e),
    ).push((id@, key@, id@, description@, true)));
}

/// The default key bindings, by identifier, in the order of
/// `default_binding_table`.
pub fn default_key_bindings() -> (r: Vec<(String, KeyBinding)>)
    ensures
        r@.map_values(|e: (String, KeyBinding)| binding_entry_view(e)) == default_binding_table().map_values(
            |t: (Seq<char>, Seq<char>, Seq<char>)| table_entry(t),
        ),
{
    let mut v: Vec<(String, KeyBinding)> = Vec::new();
    push_binding(&mut v, "new-tab", "Ctrl+T", "Create new tab");
    push_binding(&mut v, "close-tab", "Ctrl+W", "Close current tab");
    push_binding(&mut v, "next-tab", "Ctrl+Tab", "Switch to next tab");
    push_binding(&mut v, "prev-tab", "Ctrl+Shift+Tab", "Switch to previous tab");
    push_binding(&mut v, "next-theme", "Ctrl+Shift+T", "Switch to next theme");
    push_binding(&mut v, "prev-theme", "Ctrl+Shift+R", "Switch to previous theme");
    push_binding(&mut v, "split-horizontal", "Ctrl+Shift+E", "Split pane horizontally");
    push_binding(&mut v, "split-vertical", "Ctrl+Shift+O", "Split pane vertically");
    push_binding(&mut v, "close-pane", "Ctrl+Shift+W", "Close current pane");
    push_binding(&mut v, "focus-next", "Ctrl+Shift+Arrow", "Focus next pane");
    push_binding(&mut v, "focus-prev", "Ctrl+Shift+Arrow", "Focus previous pane");
    push_binding(&mut v, "zoom-in", "Ctrl+Plus", "Zoom in");
    push_binding(&mut v, "zoom-out", "Ctrl+Minus", "Zoom out");
    push_binding(&mut v, "zoom-reset", "Ctrl+0", "Reset zoom");
    assert(v@.map_values(|e: (String, KeyBinding)| binding_entry_view(e)) =~= default_binding_table().map_values(
        |t: (Seq<char>, Seq<char>, Seq<char>)| table_entry(t),
    ));
    v
}

} // verus!
