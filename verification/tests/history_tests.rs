use sare_terminal::history::navigation::HistoryNavigator;
use sare_terminal::history::HistoryManager;

fn navigator(cmds: &[&str]) -> HistoryNavigator {
    let mut h = HistoryManager::new();
    for c in cmds {
        h.add_command(c.to_string(), Some(0));
    }
    HistoryNavigator::new(h)
}

#[test]
fn up_walks_to_older_commands_and_stops_at_the_oldest() {
    let mut n = navigator(&["ls", "cd /", "pwd"]);
    assert_eq!(n.navigate_up("typing"), Some("pwd".to_string()));
    assert_eq!(n.navigate_up("ignored"), Some("cd /".to_string()));
    assert_eq!(n.navigate_up(""), Some("ls".to_string()));
    assert_eq!(n.navigate_up(""), None);
    assert_eq!(n.state().history_index, Some(0));
    assert_eq!(n.state().original_input, "typing");
}

#[test]
fn down_past_the_newest_gives_back_the_input() {
    let mut n = navigator(&["ls", "pwd"]);
    n.navigate_up("draft");
    n.navigate_up("draft");
    assert_eq!(n.navigate_down(), Some("pwd".to_string()));
    assert_eq!(n.navigate_down(), Some("draft".to_string()));
    assert_eq!(n.state().history_index, None);
    assert_eq!(n.state().original_input, "");
}

#[test]
fn empty_history_navigates_nowhere() {
    let mut n = navigator(&[]);
    assert_eq!(n.navigate_up("x"), None);
    assert_eq!(n.navigate_down(), None);
    assert_eq!(n.state().original_input, "");
}

#[test]
fn reverse_search_finds_the_newest_match() {
    let mut n = navigator(&["git status", "ls", "git push"]);
    n.start_reverse_search("draft");
    assert!(n.state().search_mode);
    assert_eq!(n.perform_reverse_search("git"), Some("git push".to_string()));
    assert_eq!(n.state().history_index, Some(2));
    assert_eq!(n.perform_reverse_search(" s"), Some("git status".to_string()));
    assert_eq!(n.state().history_index, Some(0));
    assert_eq!(n.state().search_query, "git s");
    assert_eq!(n.perform_reverse_search("zzz"), None);
    assert_eq!(n.state().history_index, Some(0));
    assert_eq!(n.exit_search(), "draft");
    assert!(!n.state().search_mode);
    assert_eq!(n.state().search_query, "");
}

#[test]
fn empty_query_finds_nothing() {
    let mut n = navigator(&["ls"]);
    n.start_reverse_search("");
    assert_eq!(n.perform_reverse_search(""), None);
    assert_eq!(n.state().history_index, None);
}

#[test]
fn adding_a_command_resets_navigation() {
    let mut n = navigator(&["ls"]);
    n.navigate_up("x");
    n.add_command("echo hi".to_string(), None);
    assert_eq!(n.state().history_index, None);
    assert_eq!(n.state().original_input, "");
    assert_eq!(n.history_manager().get_history().len(), 2);
    assert_eq!(n.history_manager().get_history()[1].command, "echo hi");
    assert_eq!(n.history_manager().get_history()[1].exit_code, None);
}

#[test]
fn history_display_numbers_each_line() {
    let n = navigator(&["ls", "pwd"]);
    assert_eq!(n.get_history_display(), "   1  ls\n   2  pwd\n");
    let mut many = HistoryManager::new();
    for i in 0..10000 {
        many.add_command(format!("c{}", i), None);
    }
    let d = HistoryNavigator::new(many).get_history_display();
    assert!(d.ends_with("9999  c9998\n10000  c9999\n"));
}

#[test]
fn reset_clears_everything() {
    let mut n = navigator(&["a"]);
    n.start_reverse_search("in");
    n.perform_reverse_search("a");
    n.reset_navigation();
    assert_eq!(n.state().history_index, None);
    assert!(!n.state().search_mode);
    assert_eq!(n.state().search_query, "");
    assert_eq!(n.state().original_input, "");
}

#[test]
fn up_k_times_then_down_k_times_gives_back_the_input() {
    for k in 1..=3 {
        let mut n = navigator(&["a", "b", "c"]);
        for _ in 0..k {
            n.navigate_up("editing");
        }
        for _ in 0..k - 1 {
            assert!(n.navigate_down().is_some());
        }
        assert_eq!(n.navigate_down(), Some("editing".to_string()));
        assert_eq!(n.state().history_index, None);
        assert_eq!(n.state().original_input, "");
    }
}
