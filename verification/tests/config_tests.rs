use sare_terminal::config::config_files::{ConfigFormat, ValidationSeverity};
use sare_terminal::config::key_binding_system::{
    KeyCombination, KeyCombinationError, KeyModifier, KeyState,
};
use sare_terminal::config::theme_engine::ColorScheme;
use sare_terminal::config::{default_key_bindings, TerminalConfig};

#[test]
fn parses_modifiers_and_key() {
    let c = KeyCombination::from_string("Ctrl+Shift+T").unwrap();
    assert_eq!(c.key, "T");
    assert_eq!(c.modifiers, vec![KeyModifier::Ctrl, KeyModifier::Shift]);
    assert_eq!(c.state, KeyState::Pressed);
}

#[test]
fn modifier_names_ignore_case_and_have_aliases() {
    let c = KeyCombination::from_string("control+CMD+command+META+alt+x").unwrap();
    assert_eq!(
        c.modifiers,
        vec![
            KeyModifier::Ctrl,
            KeyModifier::Super,
            KeyModifier::Super,
            KeyModifier::Meta,
            KeyModifier::Alt
        ]
    );
    assert_eq!(c.key, "x");
}

#[test]
fn a_bare_key_has_no_modifiers() {
    let c = KeyCombination::from_string("F1").unwrap();
    assert_eq!(c.key, "F1");
    assert!(c.modifiers.is_empty());
    let empty = KeyCombination::from_string("").unwrap();
    assert_eq!(empty.key, "");
}

#[test]
fn unknown_modifier_is_reported_as_written() {
    assert_eq!(
        KeyCombination::from_string("Hyper+Ctrl+K"),
        Err(KeyCombinationError::UnknownModifier("Hyper".to_string()))
    );
    assert_eq!(
        KeyCombination::from_string("Ctrl++"),
        Err(KeyCombinationError::UnknownModifier("".to_string()))
    );
}

#[test]
fn to_string_joins_with_plus() {
    let c = KeyCombination::new("Tab", vec![KeyModifier::Ctrl, KeyModifier::Super, KeyModifier::Meta]);
    assert_eq!(c.to_string(), "Ctrl+Super+Meta+Tab");
    assert_eq!(KeyCombination::new("q", Vec::new()).to_string(), "q");
}

#[test]
fn written_combination_reads_back() {
    let c = KeyCombination::new("Arrow", vec![KeyModifier::Alt, KeyModifier::Shift]);
    assert_eq!(KeyCombination::from_string(&c.to_string()).unwrap(), c);
}

#[test]
fn config_format_extensions() {
    assert_eq!(ConfigFormat::Json.extension(), "json");
    assert_eq!(ConfigFormat::Toml.extension(), "toml");
    assert_eq!(ConfigFormat::Yaml.extension(), "yaml");
    assert_eq!(ConfigFormat::from_extension("YML"), Some(ConfigFormat::Yaml));
    assert_eq!(ConfigFormat::from_extension("Json"), Some(ConfigFormat::Json));
    assert_eq!(ConfigFormat::from_extension("ini"), None);
    for f in [ConfigFormat::Json, ConfigFormat::Toml, ConfigFormat::Yaml] {
        assert_eq!(ConfigFormat::from_extension(f.extension()), Some(f));
    }
    assert_ne!(ValidationSeverity::Warning, ValidationSeverity::Fatal);
}

#[test]
fn terminal_config_defaults() {
    let c = TerminalConfig::default();
    assert_eq!(c.default_shell, "/bin/bash");
    assert_eq!(c.scrollback_size, 10000);
    assert_eq!(c.cursor_blink_rate, 530);
    assert_eq!(c.cursor_shape, "block");
    assert!(c.bell_enabled && c.mouse_enabled && c.bracketed_paste && c.focus_reporting);
}

#[test]
fn default_key_bindings_table() {
    let b = default_key_bindings();
    assert_eq!(b.len(), 14);
    assert_eq!(b[0].0, "new-tab");
    assert_eq!(b[0].1.key, "Ctrl+T");
    assert_eq!(b[0].1.action, "new-tab");
    assert_eq!(b[13].0, "zoom-reset");
    assert_eq!(b[13].1.key, "Ctrl+0");
    assert_eq!(b[13].1.description, "Reset zoom");
    assert!(b.iter().all(|(id, kb)| kb.enabled && kb.action == *id));
    assert_eq!(b[9].1.key, b[10].1.key);
}

#[test]
fn default_colour_scheme() {
    let c = ColorScheme::default();
    assert_eq!(c.background, 0xFF1E1E1E);
    assert_eq!(c.palette[1], 0xFFCD3131);
    assert_eq!(c.bright_palette[7], 0xFFFFFFFF);
    assert_eq!(c.dim_palette[2], 0xFF006400);
    assert_eq!(&c.palette[8..], &c.bright_palette[..]);
}

#[test]
fn theme_colour_schemes() {
    let d = ColorScheme::dracula();
    assert_eq!(d.background, 0xFF282A36);
    assert_eq!(d.palette[1], 0xFFFF5555);
    assert_eq!(d.dim_palette[7], 0xFF8B8B8B);
    let n = ColorScheme::nord();
    assert_ne!(n.background, d.background);
    let l = ColorScheme::default_light();
    assert_ne!(l.background, ColorScheme::default().background);
    let _ = (ColorScheme::solarized_dark(), ColorScheme::solarized_light(), ColorScheme::gruvbox_dark());
}

use sare_terminal::config::key_binding_system::{KeyAction, KeyBinding, KeyBindingManager};

#[test]
fn manager_starts_with_the_default_bindings() {
    let m = KeyBindingManager::new();
    assert_eq!(m.get_all_bindings().len(), 19);
    let b = m.get_binding("prev-tab").unwrap();
    assert_eq!(b.combination.key, "Tab");
    assert_eq!(b.combination.modifiers, vec![KeyModifier::Ctrl, KeyModifier::Shift]);
    assert_eq!(b.category, "terminal");
    assert!(matches!(b.action, KeyAction::PreviousTab));
    match &m.get_binding("next-theme").unwrap().action {
        KeyAction::SwitchTheme { theme } => assert_eq!(theme, "next"),
        other => panic!("unexpected {:?}", other),
    }
    assert!(m.get_binding("nope").is_none());
    let terminal: Vec<&str> = m
        .get_bindings_by_category("terminal")
        .iter()
        .map(|b| b.description.as_str())
        .collect();
    assert_eq!(
        terminal,
        vec!["Create new tab", "Close current tab", "Switch to next tab", "Switch to previous tab", "Clear screen"]
    );
    assert!(m.get_bindings_by_category("none").is_empty());
    assert_eq!(m.get_binding_stats().len(), 7);
}

#[test]
fn key_press_finds_the_binding() {
    let m = KeyBindingManager::new();
    let b = m.handle_key_press("Q", &[KeyModifier::Ctrl]).unwrap();
    assert!(matches!(b.action, KeyAction::Quit));
    assert!(m.handle_key_press("Q", &[]).is_none());
    let c = KeyCombination::from_string("Ctrl+Shift+Arrow").unwrap();
    let f = m.find_binding(&c).unwrap();
    assert!(matches!(f.action, KeyAction::FocusPrevious));
}

#[test]
fn highest_priority_enabled_binding_wins() {
    let mut m = KeyBindingManager::new();
    let c = KeyCombination::new("K", vec![KeyModifier::Alt]);
    let mut low = KeyBinding::new(c.clone(), KeyAction::ZoomIn, "low");
    low.priority = 1;
    let mut high = KeyBinding::new(c.clone(), KeyAction::ZoomOut, "high");
    high.priority = 5;
    let mut off = KeyBinding::new(c.clone(), KeyAction::Quit, "off");
    off.priority = 9;
    off.enabled = false;
    m.add_binding("high", high);
    m.add_binding("low", low);
    m.add_binding("off", off);
    assert_eq!(m.find_binding(&c).unwrap().description, "high");
    assert_eq!(m.get_bindings_by_category("general").len(), 3);
}

#[test]
fn adding_replaces_and_removing_unlists() {
    let mut m = KeyBindingManager::new();
    let c = KeyCombination::new("X", vec![]);
    m.add_binding("copy", KeyBinding::new(c.clone(), KeyAction::Paste, "replaced"));
    assert_eq!(m.get_all_bindings().len(), 19);
    assert_eq!(m.get_binding("copy").unwrap().description, "replaced");
    assert_eq!(m.get_bindings_by_category("general").len(), 1);
    m.remove_binding("copy");
    assert!(m.get_binding("copy").is_none());
    assert!(m.get_bindings_by_category("general").is_empty());
    let clipboard: Vec<&str> = m.get_bindings_by_category("clipboard").iter().map(|b| b.description.as_str()).collect();
    assert_eq!(clipboard, vec!["Paste"]);
    m.remove_binding("not-there");
    assert_eq!(m.get_all_bindings().len(), 18);
    m.update_binding("paste", KeyBinding::new(c, KeyAction::Copy, "updated"));
    assert_eq!(m.get_binding("paste").unwrap().description, "updated");
}

#[test]
fn executing_a_command_binding_announces_command_and_arguments() {
    let a = KeyAction::Command { command: "ls".to_string(), args: vec!["-la".to_string(), "/tmp".to_string()] };
    assert_eq!(a.execution_message().unwrap(), "🚀 Executing command: ls [\"-la\", \"/tmp\"]");
}

#[test]
fn executing_fixed_and_custom_bindings() {
    assert_eq!(KeyAction::NoAction.execution_message(), None);
    assert_eq!(KeyAction::NewTab.execution_message().unwrap(), "📑 Creating new tab");
    assert_eq!(KeyAction::Quit.execution_message().unwrap(), "👋 Quitting application");
    let t = KeyAction::SwitchTheme { theme: "next".to_string() };
    assert_eq!(t.execution_message().unwrap(), "🎨 Switching theme: next");
    let c = KeyAction::Custom { action: "split".to_string(), data: "{\"n\":2}".to_string() };
    assert_eq!(c.execution_message().unwrap(), "⚙️ Custom action: split with data: {\"n\":2}");
}

#[test]
fn binding_stats_count_each_category() {
    let m = KeyBindingManager::new();
    let stats = m.get_binding_stats();
    assert_eq!(stats.len(), 7);
    assert_eq!(stats["pane"], 5);
    assert_eq!(stats["terminal"], 5);
    assert_eq!(stats["view"], 3);
    assert_eq!(stats["clipboard"], 2);
    assert_eq!(stats["theme"], 2);
    assert_eq!(stats["help"], 1);
    assert_eq!(stats["application"], 1);
    let pairs = m.binding_stats();
    assert_eq!(pairs.iter().map(|p| p.1).sum::<usize>(), 19);
}
