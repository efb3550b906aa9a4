use sare_terminal::debug::error_recovery::{
    default_recovery_strategies, determine_recovery_strategy, retry_succeeds, ErrorContext,
    ErrorSeverity, RecoveryAction,
};
use sare_terminal::debug::logger::LogLevel;
use sare_terminal::session::WindowGeometry;
use sare_terminal::startup::StartupOptimizer;
use sare_terminal::terminal::pty::PtyUtils;
use std::collections::HashMap;
use std::time::{Duration, Instant};

fn context(message: &str, module: &str, severity: ErrorSeverity) -> ErrorContext {
    ErrorContext {
        timestamp: Instant::now(),
        module: module.to_string(),
        function: "f".to_string(),
        line: 1,
        severity,
        message: message.to_string(),
        backtrace: None,
        context_data: HashMap::new(),
    }
}

#[test]
fn strategy_named_in_the_message_wins() {
    let s = default_recovery_strategies();
    let r = determine_recovery_strategy(&s, &context("a network_error here", "net", ErrorSeverity::Fatal));
    assert!(matches!(r, RecoveryAction::Retry { max_attempts: 3, delay_ms: 1000 }));
    let r = determine_recovery_strategy(&s, &context("render_error", "gpu", ErrorSeverity::Low));
    match r {
        RecoveryAction::Fallback { alternative } => assert_eq!(alternative, "cpu_renderer"),
        other => panic!("unexpected {:?}", other),
    }
}

#[test]
fn otherwise_severity_decides() {
    let s = default_recovery_strategies();
    assert!(matches!(
        determine_recovery_strategy(&s, &context("x", "m", ErrorSeverity::Low)),
        RecoveryAction::Retry { max_attempts: 1, delay_ms: 100 }
    ));
    assert!(matches!(
        determine_recovery_strategy(&s, &context("x", "m", ErrorSeverity::Medium)),
        RecoveryAction::Retry { max_attempts: 3, delay_ms: 1000 }
    ));
    match determine_recovery_strategy(&s, &context("x", "parser", ErrorSeverity::High)) {
        RecoveryAction::Restart { component } => assert_eq!(component, "parser"),
        other => panic!("unexpected {:?}", other),
    }
    match determine_recovery_strategy(&s, &context("x", "m", ErrorSeverity::Critical)) {
        RecoveryAction::Fallback { alternative } => assert_eq!(alternative, "safe_mode"),
        other => panic!("unexpected {:?}", other),
    }
    assert!(matches!(
        determine_recovery_strategy(&s, &context("x", "m", ErrorSeverity::Fatal)),
        RecoveryAction::Terminate
    ));
}

#[test]
fn retries_succeed_on_the_second_attempt() {
    assert!(!retry_succeeds(0));
    assert!(!retry_succeeds(1));
    assert!(retry_succeeds(2));
    assert!(retry_succeeds(u32::MAX));
}

#[test]
fn severities_and_levels_are_ordered() {
    assert!(ErrorSeverity::Low < ErrorSeverity::Fatal);
    assert!(LogLevel::Debug < LogLevel::Error);
}

#[test]
fn pty_environment() {
    let env = PtyUtils::create_environment("xterm-256color", (120, 40));
    let expected: Vec<(String, String)> = vec![
        ("TERM", "xterm-256color"),
        ("COLUMNS", "120"),
        ("LINES", "40"),
        ("TERM_PROGRAM", "sare"),
        ("TERM_PROGRAM_VERSION", "0.1.0"),
    ]
    .into_iter()
    .map(|(a, b)| (a.to_string(), b.to_string()))
    .collect();
    assert_eq!(env, expected);
    let edge = PtyUtils::create_environment("", (0, 65535));
    assert_eq!(edge[1].1, "0");
    assert_eq!(edge[2].1, "65535");
}

#[test]
fn startup_statistics_follow_the_records() {
    let mut o = StartupOptimizer::new();
    o.record_init("terminal", Duration::from_millis(5));
    o.record_init("gui", Duration::from_millis(7));
    let s = o.get_stats();
    assert_eq!(s.module_count, 2);
    assert_eq!(s.module_times[0].0, "terminal");
    assert_eq!(s.module_times[1].1, Duration::from_millis(7));
    assert_eq!(o.initialized_modules, vec!["terminal".to_string(), "gui".to_string()]);
}

#[test]
fn default_window_geometry() {
    let g = WindowGeometry::default();
    assert_eq!((g.x, g.y, g.width, g.height), (0, 0, 800, 600));
}

use sare_terminal::debug::error_recovery::ErrorRecoveryConfig;
use sare_terminal::debug::logger::LogRotationConfig;
use sare_terminal::debug::profiler::{ProfilerConfig, ProfilerOutputFormat};
use sare_terminal::debug::testing::{TestConfig, TestOutputFormat};
use sare_terminal::debug::{add_breakpoint, remove_breakpoint, DebugConfig, DebugDestination, DebugLevel};
use sare_terminal::terminal::io::redirection::IoRedirectOptions;
use sare_terminal::terminal::process::ProcessOptions;
use sare_terminal::terminal::pty::PtyOptions;
use sare_terminal::terminal::{TerminalConfig, TerminalMode};

#[test]
fn names_of_severities_and_levels() {
    assert_eq!(ErrorSeverity::Critical.to_string(), "CRITICAL");
    assert_eq!(ErrorSeverity::Low.to_string(), "LOW");
    assert_eq!(LogLevel::Warn.to_string(), "WARN");
    assert_eq!(LogLevel::Trace.to_string(), "TRACE");
}

#[test]
fn default_settings() {
    let r = ErrorRecoveryConfig::default();
    assert!(r.enable_recovery && r.enable_crash_recovery);
    assert_eq!((r.max_retry_attempts, r.retry_delay_ms, r.recovery_timeout), (3, 1000, 30));
    let l = LogRotationConfig::default();
    assert_eq!((l.max_file_size, l.max_backup_files, l.rotation_interval), (10485760, 5, 86400));
    let d = DebugConfig::default();
    assert!(!d.debug_mode && d.enable_error_recovery);
    assert_eq!(d.debug_level, DebugLevel::Info);
    assert_eq!(d.debug_destination, DebugDestination::Stderr);
    let p = ProfilerConfig::default();
    assert!(!p.enable_profiling && p.enable_cpu_profiling);
    assert_eq!(p.output_format, ProfilerOutputFormat::Text);
    let t = TestConfig::default();
    assert_eq!(t.default_timeout, 30);
    assert_eq!(t.output_format, TestOutputFormat::Text);
    assert!(!t.enable_coverage);
    let io = IoRedirectOptions::default();
    assert!(io.stdin_redirect.is_none() && !io.append_output);
    let po = ProcessOptions::default();
    assert!(po.command.is_empty() && po.environment.is_empty() && po.foreground);
    let pty = PtyOptions::default();
    assert_eq!(pty.size, (80, 24));
    assert_eq!(pty.term_type, "xterm-256color");
    let tc = TerminalConfig::default();
    assert_eq!(tc.default_shell, "/bin/bash");
    assert_eq!(tc.size, (80, 24));
    let tm = TerminalMode::default();
    assert!(!tm.insert_mode && !tm.bracketed_paste);
}

use sare_terminal::session::tab_manager::{TabDocument, TabError, TabManager, TabMetadata};
use sare_terminal::session::TabType;
use sare_terminal::stamps::time_order;
use sare_terminal::session::window_manager::{adjust_parent_geometry, calculate_split_geometry, SplitType};

#[test]
fn splitting_a_window_halves_it() {
    let parent = WindowGeometry { x: 10, y: 20, width: 801, height: 600 };
    let right = calculate_split_geometry(&parent, SplitType::Vertical);
    let left = adjust_parent_geometry(&parent, SplitType::Vertical);
    assert_eq!((right.x, right.y, right.width, right.height), (410, 20, 400, 600));
    assert_eq!((left.x, left.y, left.width, left.height), (10, 20, 400, 600));
    assert_eq!(left.x + left.width as i32, right.x);
    let below = calculate_split_geometry(&parent, SplitType::Horizontal);
    let above = adjust_parent_geometry(&parent, SplitType::Horizontal);
    assert_eq!((below.x, below.y, below.width, below.height), (10, 320, 801, 300));
    assert_eq!((above.x, above.y, above.width, above.height), (10, 20, 801, 300));
    let huge = WindowGeometry { x: 0, y: 0, width: 800, height: u32::MAX };
    assert_eq!(calculate_split_geometry(&huge, SplitType::Horizontal).y, 0);
}

#[test]
fn tabs_go_round() {
    let mut m = TabManager::new();
    let s = uuid::Uuid::new_v4();
    let t7 = m.create_tab("7".to_string(), TabType::Normal, s).id;
    let t3 = m.create_tab("3".to_string(), TabType::Normal, s).id;
    let t9 = m.create_tab("9".to_string(), TabType::Normal, s).id;
    assert_eq!(m.get_next_tab(s, t7).unwrap().id, t3);
    assert_eq!(m.get_next_tab(s, t9).unwrap().id, t7);
    assert_eq!(m.get_previous_tab(s, t7).unwrap().id, t9);
    assert_eq!(m.get_previous_tab(s, t3).unwrap().id, t7);
    assert!(m.get_next_tab(s, uuid::Uuid::nil()).is_none());
    let n = m.get_next_tab(s, t3).unwrap().id;
    assert_eq!(m.get_previous_tab(s, n).unwrap().id, t3);
}

fn order_from(m: &TabManager, s: uuid::Uuid, first: uuid::Uuid, n: usize) -> Vec<uuid::Uuid> {
    let mut order = vec![first];
    while order.len() < n {
        let next = m.get_next_tab(s, *order.last().unwrap()).unwrap().id;
        order.push(next);
    }
    order
}

#[test]
fn moving_a_tab() {
    let mut m = TabManager::new();
    let s = uuid::Uuid::new_v4();
    let t: Vec<uuid::Uuid> = (1..=4).map(|i| m.create_tab(i.to_string(), TabType::Normal, s).id).collect();
    assert_eq!(m.move_tab(t[0], 2), Ok(()));
    assert_eq!(order_from(&m, s, t[1], 4), vec![t[1], t[2], t[0], t[3]]);
    assert_eq!(m.move_tab(t[3], 99), Ok(()));
    assert_eq!(order_from(&m, s, t[1], 4), vec![t[1], t[2], t[0], t[3]]);
    assert_eq!(m.move_tab(t[3], 0), Ok(()));
    assert_eq!(order_from(&m, s, t[3], 4), vec![t[3], t[1], t[2], t[0]]);
    assert_eq!(m.get_previous_tab(s, t[3]).unwrap().id, t[0]);
    assert_eq!(m.move_tab(uuid::Uuid::nil(), 1), Err(TabError::TabNotFound));
}

#[test]
fn breakpoints_are_added_and_removed_by_identifier() {
    let mut bps = Vec::new();
    let a = add_breakpoint(&mut bps, "x > 1".to_string());
    let b = add_breakpoint(&mut bps, "y == 0".to_string());
    assert_eq!(a.len(), 11);
    assert!(a.starts_with("bp_"));
    assert!(a[3..].chars().all(|c| c.is_ascii_hexdigit() && !c.is_ascii_uppercase()));
    assert_ne!(a, b);
    assert_eq!(bps.len(), 2);
    assert_eq!(bps[0].condition, "x > 1");
    assert!(bps[0].enabled);
    assert_eq!(bps[0].hit_count, 0);
    assert!(remove_breakpoint(&mut bps, &a));
    assert!(!remove_breakpoint(&mut bps, &a));
    assert_eq!(bps.len(), 1);
    assert_eq!(bps[0].id, b);
}

#[test]
fn tab_manager_tracks_order_and_active_tab() {
    let mut m = TabManager::new();
    let s = uuid::Uuid::new_v4();
    let other = uuid::Uuid::new_v4();
    let a = m.create_tab("a".to_string(), TabType::Normal, s);
    let b = m.create_tab("b".to_string(), TabType::Normal, s);
    let c = m.create_tab("c".to_string(), TabType::System, s);
    let x = m.create_tab("x".to_string(), TabType::Shared, other);
    assert_eq!(m.get_tab_count(), 4);
    assert_eq!(m.get_session_tab_count(s), 3);
    assert_eq!(m.get_active_tab(s).unwrap().id, a.id);
    assert_eq!(m.get_next_tab(s, a.id).unwrap().id, b.id);
    assert_eq!(m.get_next_tab(s, c.id).unwrap().id, a.id);
    assert_eq!(m.get_previous_tab(s, a.id).unwrap().id, c.id);
    assert!(m.get_next_tab(s, x.id).is_none());
    assert_eq!(m.set_active_tab(s, x.id), Err(TabError::NotInSession));
    assert_eq!(m.set_active_tab(uuid::Uuid::new_v4(), a.id), Err(TabError::SessionNotFound));
    assert_eq!(m.set_active_tab(s, uuid::Uuid::nil()), Err(TabError::TabNotFound));
    assert_eq!(m.set_active_tab(s, b.id), Ok(()));
    assert_eq!(m.get_active_tab(s).unwrap().id, b.id);
    assert_eq!(m.move_tab(c.id, 0), Ok(()));
    assert_eq!(m.get_next_tab(s, c.id).unwrap().id, a.id);
    assert_eq!(m.get_previous_tab(s, c.id).unwrap().id, b.id);
    assert_eq!(m.rename_tab(a.id, "renamed".to_string()), Ok(()));
    assert_eq!(m.get_tab(a.id).unwrap().name, "renamed");
    assert_eq!(m.delete_tab(b.id), Ok(()));
    assert_eq!(m.get_active_tab(s).unwrap().id, a.id);
    assert_eq!(m.get_session_tab_count(s), 2);
    assert_eq!(m.delete_tab(b.id), Err(TabError::TabNotFound));
    m.shutdown();
    assert_eq!(m.get_tab_count(), 0);
}

#[test]
fn session_tabs_come_out_oldest_first() {
    let mut m = TabManager::new();
    let s = uuid::Uuid::new_v4();
    let a = m.create_tab("a".to_string(), TabType::Normal, s).id;
    m.create_tab("other".to_string(), TabType::Normal, uuid::Uuid::new_v4());
    let b = m.create_tab("b".to_string(), TabType::Normal, s).id;
    let tabs = m.get_session_tabs(s);
    assert_eq!(tabs.iter().map(|t| t.id).collect::<Vec<_>>(), vec![a, b]);
    assert!(m.get_session_tabs(uuid::Uuid::nil()).is_empty());
}

#[test]
fn time_order_is_a_stable_sort_by_time() {
    assert_eq!(time_order(&vec![5, 3, 5, 1]), vec![3, 1, 0, 2]);
    assert_eq!(time_order(&vec![]), Vec::<usize>::new());
    assert_eq!(time_order(&vec![-2, -2, -2]), vec![0, 1, 2]);
}

#[test]
fn restoring_tab_data_keeps_what_parses() {
    let s = uuid::Uuid::parse_str("6f1c2a9e-0b7d-4c3e-9a51-2d8e7f6a5b40").unwrap();
    let t1 = "11111111-2222-3333-4444-555555555555";
    let t2 = "AAAAAAAA-BBBB-CCCC-DDDD-EEEEEEEEEEEE";
    let record = |name: &str| TabMetadata {
        id: uuid::Uuid::nil(),
        name: name.to_string(),
        tab_type: TabType::Normal,
        session_id: s,
        created_at: 0,
        updated_at: 0,
    };
    let doc = TabDocument {
        tabs: vec![
            (t1.to_string(), record("one")),
            ("not a uuid".to_string(), record("bad")),
            (t2.to_string(), record("two")),
        ],
        session_tabs: vec![(s.to_string(), vec![t1.to_string(), t2.to_string(), "junk".to_string()])],
        tab_order: vec![
            (s.to_string(), vec![t2.to_string(), "junk".to_string(), t1.to_string()]),
            ("junk".to_string(), vec![t1.to_string()]),
        ],
        active_tabs: vec![(s.to_string(), t2.to_string()), (s.to_string(), "junk".to_string())],
    };
    let mut m = TabManager::new();
    m.restore_tab_data(doc);
    let id1 = uuid::Uuid::parse_str(t1).unwrap();
    let id2 = uuid::Uuid::parse_str(t2).unwrap();
    assert_eq!(m.get_tab_count(), 2);
    assert_eq!(m.get_tab(id1).unwrap().name, "one");
    assert_eq!(m.get_tab(id2).unwrap().name, "two");
    assert_eq!(m.get_tab(id2).unwrap().id, uuid::Uuid::nil());
    assert_eq!(m.get_next_tab(s, id2).unwrap().name, "one");
    assert_eq!(m.get_active_tab(s).unwrap().name, "two");
    assert_eq!(m.get_session_tab_count(s), 2);
    assert_eq!(m.get_session_tabs(s).len(), 2);
}

#[test]
fn default_test_suites_table() {
    let suites = sare_terminal::debug::testing::default_test_suites();
    let names: Vec<&str> = suites.iter().map(|s| s.name.as_str()).collect();
    assert_eq!(names, vec!["terminal_functionality", "ui_functionality", "performance_tests"]);
    assert_eq!(suites[0].test_cases.len(), 3);
    assert_eq!(suites[0].test_cases[1].name, "test_ansi_parsing");
    assert_eq!(suites[0].test_cases[1].timeout, 5);
    assert_eq!(suites[0].setup_message.as_deref(), Some("Setting up terminal test suite..."));
    assert!(suites[1].teardown_message.is_none());
    assert_eq!(suites[2].test_cases[1].category, "Stress");
    assert_eq!(suites[2].test_cases[1].timeout, 60);
}
