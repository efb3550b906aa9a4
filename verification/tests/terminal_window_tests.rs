use sare_terminal::gui::terminal::{
    classify_command, combine_output, key_action, key_to_char, KeyEventAction, PaneSplit,
    ShellCommand, TerminalKey,
};
use sare_terminal::simple_terminal::{classify, combine_shell_output, help_text, SimpleCommand};

#[test]
fn letters_and_space_type_characters() {
    assert_eq!(key_to_char(TerminalKey::A), Some('a'));
    assert_eq!(key_to_char(TerminalKey::Z), Some('z'));
    assert_eq!(key_to_char(TerminalKey::Space), Some(' '));
    assert_eq!(key_to_char(TerminalKey::Enter), None);
}

#[test]
fn control_letters_act_on_panes_and_history() {
    assert_eq!(key_action(TerminalKey::D, true, false), KeyEventAction::ClosePane);
    assert_eq!(key_action(TerminalKey::N, true, false), KeyEventAction::SplitPane(PaneSplit::Horizontal));
    assert_eq!(key_action(TerminalKey::H, true, true), KeyEventAction::SplitPane(PaneSplit::Vertical));
    assert_eq!(key_action(TerminalKey::R, true, false), KeyEventAction::StartReverseSearch);
}

#[test]
fn the_four_control_letters_type_nothing_alone() {
    for k in [TerminalKey::D, TerminalKey::N, TerminalKey::H, TerminalKey::R] {
        assert_eq!(key_action(k, false, false), KeyEventAction::Ignore);
    }
    assert_eq!(key_action(TerminalKey::E, false, false), KeyEventAction::InsertChar('e'));
    assert_eq!(key_action(TerminalKey::E, true, false), KeyEventAction::InsertChar('e'));
}

#[test]
fn search_mode_takes_typed_characters_and_escape() {
    assert_eq!(key_action(TerminalKey::G, false, true), KeyEventAction::SearchChar('g'));
    assert_eq!(key_action(TerminalKey::Escape, false, true), KeyEventAction::ExitSearch);
    assert_eq!(key_action(TerminalKey::Escape, false, false), KeyEventAction::Ignore);
    assert_eq!(key_action(TerminalKey::ArrowUp, true, true), KeyEventAction::HistoryUp);
    assert_eq!(key_action(TerminalKey::ArrowDown, false, false), KeyEventAction::HistoryDown);
    assert_eq!(key_action(TerminalKey::Tab, false, false), KeyEventAction::Complete);
    assert_eq!(key_action(TerminalKey::Enter, false, true), KeyEventAction::Submit);
    assert_eq!(key_action(TerminalKey::Other, false, false), KeyEventAction::Ignore);
}

#[test]
fn terminal_commands_are_classified_by_trimmed_text() {
    assert_eq!(classify_command("  clear "), ShellCommand::Clear);
    assert_eq!(classify_command("pwd"), ShellCommand::Pwd);
    assert_eq!(classify_command("history\n"), ShellCommand::History);
    assert_eq!(classify_command(" \t"), ShellCommand::Empty);
    assert_eq!(classify_command("ls -l"), ShellCommand::External);
    assert_eq!(classify_command("pwd -P"), ShellCommand::External);
}

#[test]
fn program_output_joins_streams() {
    assert_eq!(combine_output("out\n", "err\n"), "out\nerr\n");
    assert_eq!(combine_output("", ""), "\n");
    assert_eq!(combine_output("", "e"), "e");
}

#[test]
fn simple_terminal_commands() {
    assert_eq!(classify(" help "), SimpleCommand::Help);
    assert_eq!(classify("ls"), SimpleCommand::Ls);
    assert_eq!(classify("exit"), SimpleCommand::Exit);
    assert_eq!(classify("clear"), SimpleCommand::Clear);
    assert_eq!(classify("pwd"), SimpleCommand::Pwd);
    assert_eq!(classify(""), SimpleCommand::Empty);
    assert_eq!(classify("echo hi"), SimpleCommand::Shell);
    assert!(help_text().starts_with("Available commands:\n• help - Show this help\n"));
    assert!(help_text().ends_with("• exit - Exit terminal"));
}

#[test]
fn simple_terminal_shell_output() {
    assert_eq!(combine_shell_output("a", "b"), "a\nb");
    assert_eq!(combine_shell_output("a", ""), "a");
    assert_eq!(combine_shell_output("", "b"), "b");
    assert_eq!(combine_shell_output("", ""), "Command executed successfully");
}
