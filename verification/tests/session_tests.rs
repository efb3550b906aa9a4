use sare_terminal::config::key_binding_system::KeyBindingManager;
use sare_terminal::session::session_sharing::{
    ParticipantInfo, ParticipantStatus, SessionSharingManager, SharedSessionInfo, SharingDocument, SharingError,
    SharingEvent, SharingEventType, SharingStatus,
};
use sare_terminal::session::window_manager::{SplitType, WindowDocument, WindowError, WindowManager, WindowMetadata};
use sare_terminal::session::{SharingPermission, WindowGeometry, WindowType};
use sare_terminal::startup::StartupOptimizer;
use sare_terminal::terminal::renderer::{RendererConfig, TerminalRenderer};
use std::time::{Duration, Instant};

fn geometry(x: i32, y: i32, width: u32, height: u32) -> WindowGeometry {
    WindowGeometry { x, y, width, height }
}

const A: &str = "67e55044-10b1-426f-9247-bb680e5fe0c8";
const B: &str = "936da01f-9abd-4d9d-80c7-02af85c822a8";
const C: &str = "a1a2a3a4-b1b2-c1c2-d1d2-d3d4d5d6d7d8";

fn id(s: &str) -> uuid::Uuid {
    uuid::Uuid::parse_str(s).unwrap()
}

#[test]
fn window_is_created_in_its_session_and_made_active() {
    let mut m = WindowManager::new();
    let s = uuid::Uuid::new_v4();
    let w = m.create_window("main".to_string(), WindowType::Normal, s, None, geometry(0, 0, 800, 600));
    assert_eq!(w.name, "main");
    assert_eq!(w.session_id, s);
    assert_eq!(w.created_at, w.updated_at);
    assert_eq!(m.get_window_count(), 1);
    assert_eq!(m.get_session_window_count(s), 1);
    assert_eq!(m.get_session_window_count(uuid::Uuid::new_v4()), 0);
    assert_eq!(m.get_active_window(s).unwrap().id, w.id);
    let w2 = m.create_window("second".to_string(), WindowType::Floating, s, None, geometry(1, 2, 3, 4));
    assert_eq!(m.get_active_window(s).unwrap().id, w.id);
    assert_eq!(m.get_session_window_count(s), 2);
    assert_eq!(m.set_active_window(s, w2.id), Ok(()));
    assert_eq!(m.get_active_window(s).unwrap().id, w2.id);
}

#[test]
fn setting_the_active_window_checks_window_and_session() {
    let mut m = WindowManager::new();
    let s = uuid::Uuid::new_v4();
    let other = uuid::Uuid::new_v4();
    let w = m.create_window("a".to_string(), WindowType::Normal, s, None, geometry(0, 0, 10, 10));
    let v = m.create_window("b".to_string(), WindowType::Normal, other, None, geometry(0, 0, 10, 10));
    assert_eq!(m.set_active_window(s, uuid::Uuid::nil()), Err(WindowError::WindowNotFound));
    assert_eq!(m.set_active_window(uuid::Uuid::new_v4(), w.id), Err(WindowError::SessionNotFound));
    assert_eq!(m.set_active_window(s, v.id), Err(WindowError::NotInSession));
    assert_eq!(m.get_active_window(s).unwrap().id, w.id);
}

#[test]
fn horizontal_split_halves_the_height() {
    let mut m = WindowManager::new();
    let s = uuid::Uuid::new_v4();
    let tab = uuid::Uuid::new_v4();
    let p = m.create_window("main".to_string(), WindowType::Normal, s, Some(tab), geometry(10, 20, 800, 601));
    let w = m.split_window(p.id, SplitType::Horizontal, "lower".to_string()).unwrap();
    assert_eq!(w.geometry, geometry(10, 320, 800, 300));
    assert_eq!(w.window_type, WindowType::Split);
    assert_eq!(w.name, "lower");
    assert_eq!(w.session_id, s);
    assert_eq!(w.tab_id, Some(tab));
    assert_eq!(m.get_window(p.id).unwrap().geometry, geometry(10, 20, 800, 300));
    assert_eq!(m.get_window(w.id).unwrap().geometry, w.geometry);
    assert_eq!(m.get_window_count(), 2);
    assert_eq!(m.get_session_window_count(s), 2);
    assert_eq!(m.get_active_window(s).unwrap().id, p.id);
}

#[test]
fn vertical_split_halves_the_width() {
    let mut m = WindowManager::new();
    let s = uuid::Uuid::new_v4();
    let p = m.create_window("main".to_string(), WindowType::Normal, s, None, geometry(0, 0, 800, 600));
    let w = m.split_window(p.id, SplitType::Vertical, "right".to_string()).unwrap();
    assert_eq!(w.geometry, geometry(400, 0, 400, 600));
    assert_eq!(m.get_window(p.id).unwrap().geometry, geometry(0, 0, 400, 600));
}

#[test]
fn splitting_a_missing_window_changes_nothing() {
    let mut m = WindowManager::new();
    let s = uuid::Uuid::new_v4();
    let p = m.create_window("main".to_string(), WindowType::Normal, s, None, geometry(0, 0, 800, 600));
    let r = m.split_window(uuid::Uuid::nil(), SplitType::Vertical, "x".to_string());
    assert!(matches!(r, Err(WindowError::ParentNotFound)));
    assert_eq!(m.get_window_count(), 1);
    assert_eq!(m.get_window(p.id).unwrap().geometry, geometry(0, 0, 800, 600));
}

#[test]
fn resizing_sets_the_geometry() {
    let mut m = WindowManager::new();
    let s = uuid::Uuid::new_v4();
    let p = m.create_window("main".to_string(), WindowType::Normal, s, None, geometry(0, 0, 800, 600));
    assert_eq!(m.resize_window(p.id, geometry(5, 6, 7, 8)), Ok(()));
    assert_eq!(m.get_window(p.id).unwrap().geometry, geometry(5, 6, 7, 8));
    assert_eq!(m.resize_window(uuid::Uuid::nil(), geometry(1, 1, 1, 1)), Err(WindowError::WindowNotFound));
    m.shutdown();
    assert_eq!(m.get_window_count(), 0);
    assert!(m.get_window(p.id).is_none());
}

fn window(wid: uuid::Uuid, session: uuid::Uuid) -> WindowMetadata {
    WindowMetadata {
        id: wid,
        name: "kept".to_string(),
        window_type: WindowType::Normal,
        session_id: session,
        tab_id: None,
        geometry: geometry(0, 0, 80, 24),
        created_at: 5,
        updated_at: 6,
    }
}

#[test]
fn window_data_is_restored_under_the_ids_that_parse() {
    let mut m = WindowManager::new();
    let doc = WindowDocument {
        windows: vec![(A.to_string(), window(id(A), id(B))), ("not an id".to_string(), window(id(C), id(B)))],
        session_windows: vec![(B.to_string(), vec![A.to_string(), "bad".to_string()]), ("bad".to_string(), vec![])],
        active_windows: vec![(B.to_string(), A.to_string()), (B.to_string(), "bad".to_string())],
        window_hierarchy: vec![(A.to_string(), vec![C.to_string()])],
    };
    m.restore_window_data(doc);
    assert_eq!(m.get_window_count(), 1);
    assert_eq!(m.get_window(id(A)).unwrap().name, "kept");
    assert!(m.get_window(id(C)).is_none());
    assert_eq!(m.get_session_window_count(id(B)), 1);
    assert_eq!(m.get_active_window(id(B)).unwrap().id, id(A));
}

#[test]
fn sharing_records_the_session_users_and_event() {
    let mut m = SessionSharingManager::new();
    let s = uuid::Uuid::new_v4();
    let users = vec!["bob".to_string(), "carol".to_string()];
    let info = m.share_session(s, "alice".to_string(), SharingPermission::ReadWrite, users.clone(), None);
    assert_eq!(info.owner, "alice");
    assert_eq!(info.shared_users, users);
    assert_eq!(info.active_participants, vec!["alice".to_string()]);
    assert_eq!(info.status, SharingStatus::Active);
    assert_eq!(m.get_sharing_count(), 1);
    assert_eq!(m.get_shared_session_info(s).unwrap().owner, "alice");
    assert_eq!(m.get_user_shared_sessions("bob".to_string()), vec![s]);
    assert_eq!(m.get_user_shared_sessions("carol".to_string()), vec![s]);
    assert!(m.get_user_shared_sessions("dave".to_string()).is_empty());
    let events = m.get_session_events(s);
    assert_eq!(events.len(), 1);
    assert_eq!(events[0].event_type, SharingEventType::SessionShared);
    assert_eq!(events[0].user, "alice");
    assert_eq!(events[0].details, "Shared with 2 users");
    assert_eq!(events[0].timestamp, info.shared_at);
}

#[test]
fn sharing_with_many_users_counts_them_in_decimal() {
    let mut m = SessionSharingManager::new();
    let s = uuid::Uuid::new_v4();
    let users: Vec<String> = (0..12).map(|i| format!("u{}", i)).collect();
    m.share_session(s, "alice".to_string(), SharingPermission::ReadOnly, users, None);
    assert_eq!(m.get_session_events(s)[0].details, "Shared with 12 users");
}

#[test]
fn joining_checks_sharing_user_and_expiry() {
    let mut m = SessionSharingManager::new();
    let s = uuid::Uuid::new_v4();
    assert_eq!(m.join_at(s, "bob".to_string(), 0), Err(SharingError::NotShared));
    m.share_session(s, "alice".to_string(), SharingPermission::Admin, vec!["bob".to_string()], Some(1000));
    assert_eq!(m.join_at(s, "eve".to_string(), 10), Err(SharingError::NotAuthorized));
    assert_eq!(m.join_at(s, "bob".to_string(), 1001), Err(SharingError::Expired));
    assert!(m.get_session_participants(s).is_empty());
    assert_eq!(m.join_at(s, "bob".to_string(), 1000), Ok(()));
    let ps = m.get_session_participants(s);
    assert_eq!(ps.len(), 1);
    assert_eq!(ps[0].user, "bob");
    assert_eq!(ps[0].joined_at, 1000);
    assert_eq!(ps[0].permission, SharingPermission::Admin);
    assert_eq!(ps[0].status, ParticipantStatus::Active);
    let info = m.get_shared_session_info(s).unwrap();
    assert_eq!(info.active_participants, vec!["alice".to_string(), "bob".to_string()]);
    let events = m.get_session_events(s);
    assert_eq!(events.len(), 2);
    assert_eq!(events[1].event_type, SharingEventType::UserJoined);
    assert_eq!(events[1].details, "User joined session");
    assert_eq!(events[1].timestamp, 1000);
}

#[test]
fn joining_without_expiry_succeeds_now() {
    let mut m = SessionSharingManager::new();
    let s = uuid::Uuid::new_v4();
    m.share_session(s, "alice".to_string(), SharingPermission::ReadOnly, vec!["bob".to_string()], None);
    assert_eq!(m.join_shared_session(s, "bob".to_string()), Ok(()));
    assert_eq!(m.join_shared_session(s, "bob".to_string()), Ok(()));
    assert_eq!(m.get_session_participants(s).len(), 2);
    assert_eq!(m.get_shared_session_info(s).unwrap().active_participants.len(), 2);
}

#[test]
fn leaving_removes_the_user_and_records_it() {
    let mut m = SessionSharingManager::new();
    let s = uuid::Uuid::new_v4();
    m.share_session(s, "alice".to_string(), SharingPermission::ReadOnly, vec!["bob".to_string()], None);
    m.join_at(s, "bob".to_string(), 5).unwrap();
    m.leave_at(s, "bob".to_string(), 7);
    assert!(m.get_session_participants(s).is_empty());
    assert_eq!(m.get_shared_session_info(s).unwrap().active_participants, vec!["alice".to_string()]);
    let events = m.get_session_events(s);
    assert_eq!(events.len(), 3);
    assert_eq!(events[2].event_type, SharingEventType::UserLeft);
    assert_eq!(events[2].details, "User left session");
    assert_eq!(events[2].timestamp, 7);
    let other = uuid::Uuid::new_v4();
    m.leave_shared_session(other, "bob".to_string());
    assert!(m.get_session_events(other).is_empty());
}

#[test]
fn only_the_owner_unshares() {
    let mut m = SessionSharingManager::new();
    let s = uuid::Uuid::new_v4();
    assert_eq!(m.unshare_session(s, "alice".to_string()), Err(SharingError::NotShared));
    m.share_session(s, "alice".to_string(), SharingPermission::ReadOnly, vec!["bob".to_string()], None);
    m.join_at(s, "bob".to_string(), 5).unwrap();
    assert_eq!(m.unshare_session(s, "bob".to_string()), Err(SharingError::NotOwner));
    assert_eq!(m.get_sharing_count(), 1);
    assert_eq!(m.unshare_session(s, "alice".to_string()), Ok(()));
    assert_eq!(m.get_sharing_count(), 0);
    assert!(m.get_shared_session_info(s).is_none());
    assert!(m.get_user_shared_sessions("bob".to_string()).is_empty());
    assert!(m.get_session_participants(s).is_empty());
    let events = m.get_session_events(s);
    assert_eq!(events.last().unwrap().event_type, SharingEventType::SessionUnshared);
    assert_eq!(events.last().unwrap().details, "Session unshared");
    m.shutdown();
    assert!(m.get_session_events(s).is_empty());
}

#[test]
fn sharing_data_is_restored_under_the_ids_that_parse() {
    let mut m = SessionSharingManager::new();
    let info = SharedSessionInfo {
        session_id: id(A),
        owner: "alice".to_string(),
        permission: SharingPermission::ReadOnly,
        shared_users: vec!["bob".to_string()],
        shared_at: 1,
        expires_at: None,
        active_participants: vec!["alice".to_string()],
        status: SharingStatus::Active,
    };
    let p = ParticipantInfo {
        user: "bob".to_string(),
        joined_at: 2,
        permission: SharingPermission::ReadOnly,
        status: ParticipantStatus::Active,
    };
    let e = SharingEvent {
        timestamp: 3,
        event_type: SharingEventType::UserJoined,
        user: "bob".to_string(),
        details: "User joined session".to_string(),
    };
    let doc = SharingDocument {
        shared_sessions: vec![(A.to_string(), info), ("nope".to_string(), m_info())],
        user_shared_sessions: vec![("bob".to_string(), vec![A.to_string(), "x".to_string(), B.to_string()])],
        session_participants: vec![(A.to_string(), vec![p])],
        session_events: vec![(A.to_string(), vec![e]), ("bad".to_string(), vec![])],
    };
    m.restore_sharing_data(doc);
    assert_eq!(m.get_sharing_count(), 1);
    assert_eq!(m.get_shared_session_info(id(A)).unwrap().owner, "alice");
    assert_eq!(m.get_user_shared_sessions("bob".to_string()), vec![id(A), id(B)]);
    assert_eq!(m.get_session_participants(id(A))[0].joined_at, 2);
    assert_eq!(m.get_session_events(id(A))[0].timestamp, 3);
}

fn m_info() -> SharedSessionInfo {
    SharedSessionInfo {
        session_id: uuid::Uuid::nil(),
        owner: "x".to_string(),
        permission: SharingPermission::Admin,
        shared_users: vec![],
        shared_at: 0,
        expires_at: Some(0),
        active_participants: vec![],
        status: SharingStatus::Terminated,
    }
}

#[test]
fn startup_bookkeeping_takes_its_readings() {
    let start = Instant::now();
    let mut o = StartupOptimizer::with_start(start);
    assert_eq!(o.startup_time, start);
    assert!(o.initialized_modules.is_empty());
    o.record_init("pty", Duration::from_millis(3));
    let s = o.stats_with(Duration::from_secs(2));
    assert_eq!(s.total_time, Duration::from_secs(2));
    assert_eq!(s.module_count, 1);
    assert_eq!(s.module_times[0].0, "pty");
    assert_eq!(s.module_times[0].1, Duration::from_millis(3));
}

#[test]
fn binding_stats_map_holds_each_category_count() {
    let m = KeyBindingManager::new();
    let stats = m.get_binding_stats();
    assert_eq!(stats.len(), 7);
    assert_eq!(stats.get("terminal"), Some(&5));
    let total: usize = stats.values().sum();
    assert_eq!(total, 19);
}

#[test]
fn renderer_keeps_its_shape_and_cursor_on_screen() {
    let mut config = RendererConfig::default();
    config.size = (10, 4);
    let mut r = TerminalRenderer::new(config);
    r.process_input(b"\x1b[99;99Hxyz\x1b[50B\x1b[50Chello world and more text\n\n\n\n\n");
    assert_eq!(r.screen_content().len(), 4);
    assert!(r.screen_content().iter().all(|row| row.len() == 10));
    assert!(r.state().cursor_pos.1 < 4);
    assert!(r.state().cursor_pos.0 <= 10);
}

use sare_terminal::debug::testing::{html_test_report, text_test_report, TestResult, TestStatistics};
use sare_terminal::gui::terminal::{key_action, key_input_step, KeyEffect, KeyEventAction, KeyInputState, PaneSplit, TerminalKey};

fn line_state(input: &str) -> KeyInputState {
    KeyInputState {
        input: input.to_string(),
        cursor_pos: input.len(),
        history_index: Some(3),
        original_input: String::new(),
        search_mode: false,
        search_query: "old".to_string(),
    }
}

#[test]
fn reverse_search_saves_and_restores_the_input() {
    let (st, e) = key_input_step(line_state("ls -la"), key_action(TerminalKey::R, true, false));
    assert_eq!(e, KeyEffect::Done);
    assert!(st.search_mode);
    assert_eq!(st.search_query, "");
    assert_eq!(st.history_index, None);
    assert_eq!(st.original_input, "ls -la");
    let (st, _) = key_input_step(st, key_action(TerminalKey::G, false, true));
    let (st, _) = key_input_step(st, key_action(TerminalKey::I, false, true));
    assert_eq!(st.search_query, "gi");
    let mut st = st;
    st.input = "git status".to_string();
    let (st, e) = key_input_step(st, key_action(TerminalKey::Escape, false, true));
    assert_eq!(e, KeyEffect::Done);
    assert!(!st.search_mode);
    assert_eq!(st.input, "ls -la");
    assert_eq!(st.original_input, "");
    assert_eq!(st.search_query, "");
    assert_eq!(st.history_index, None);
}

#[test]
fn other_keys_are_handed_back_to_the_window() {
    let (st, e) = key_input_step(line_state("ab"), key_action(TerminalKey::C, false, false));
    assert_eq!(e, KeyEffect::Type('c'));
    assert_eq!(st.input, "ab");
    assert_eq!(st.history_index, Some(3));
    let (_, e) = key_input_step(line_state("ab"), key_action(TerminalKey::Enter, false, false));
    assert_eq!(e, KeyEffect::Submit);
    let (_, e) = key_input_step(line_state("ab"), key_action(TerminalKey::N, true, false));
    assert_eq!(e, KeyEffect::SplitPane(PaneSplit::Horizontal));
    let (_, e) = key_input_step(line_state("ab"), key_action(TerminalKey::D, true, false));
    assert_eq!(e, KeyEffect::ClosePane);
    let (st, e) = key_input_step(line_state("ab"), KeyEventAction::HistoryUp);
    assert_eq!(e, KeyEffect::Done);
    assert_eq!(st.input, "ab");
    assert_eq!(st.search_query, "old");
}

fn stats() -> TestStatistics {
    TestStatistics {
        total_tests: 12,
        passed_tests: 9,
        failed_tests: 2,
        skipped_tests: 1,
        timed_out_tests: 0,
        total_duration: Duration::from_millis(1500),
        avg_duration: Duration::from_millis(125),
        tests_by_category: std::collections::HashMap::new(),
        tests_by_suite: std::collections::HashMap::new(),
    }
}

#[test]
fn html_report_shows_the_counts() {
    assert_eq!(
        html_test_report(&stats()),
        "<html><head><title>Test Report</title></head><body><h1>Test Report</h1><p>Total Tests: 12</p><p>Passed: 9</p><p>Failed: 2</p></body></html>"
    );
}

#[test]
fn text_report_lists_counts_durations_and_results() {
    let results = vec![
        ("a".to_string(), TestResult::Passed { duration: Duration::from_millis(20), message: "ok".to_string() }),
        ("b".to_string(), TestResult::Failed { duration: Duration::from_secs(1), error: "boom".to_string() }),
        ("c".to_string(), TestResult::Skipped { reason: "later".to_string() }),
        ("d".to_string(), TestResult::Timeout { duration: Duration::from_secs(30) }),
    ];
    let expected = "\u{1f9ea} Test Report\n==============\n\nTotal Tests: 12\nPassed: 9\nFailed: 2\nSkipped: 1\nTimed Out: 0\nTotal Duration: 1.5s\nAverage Duration: 125ms\n\nDetailed Results:\n\u{2705} a (20ms)\n\u{274c} b (1s) - boom\n\u{23ed}\u{fe0f} c - later\n\u{23f0} d (30s) - TIMEOUT\n";
    assert_eq!(text_test_report(&stats(), &results), expected);
}

use sare_terminal::config::hot_reload::{RuntimeConfigError, RuntimeConfigManager};

#[test]
fn runtime_config_reverts_to_the_previous_one() {
    let mut m = RuntimeConfigManager::new();
    assert_eq!(m.get_current_config(), "null");
    assert_eq!(m.revert_config(), Err(RuntimeConfigError::NoPreviousConfig));
    m.update_config("{\"a\":1}".to_string());
    m.update_config("{\"a\":2}".to_string());
    assert_eq!(m.get_current_config(), "{\"a\":2}");
    assert_eq!(m.get_config_history(), vec!["null".to_string(), "{\"a\":1}".to_string()]);
    assert_eq!(m.revert_config(), Ok(()));
    assert_eq!(m.get_current_config(), "{\"a\":1}");
    assert_eq!(m.get_config_history(), vec!["null".to_string(), "{\"a\":2}".to_string()]);
}

#[test]
fn runtime_config_keeps_ten_earlier_configs() {
    let mut m = RuntimeConfigManager::new();
    for i in 0..12 {
        m.update_config(format!("{}", i));
    }
    let h = m.get_config_history();
    assert_eq!(h.len(), 10);
    assert_eq!(h[0], "1");
    assert_eq!(h[9], "10");
    assert_eq!(m.get_current_config(), "11");
}

#[test]
fn runtime_config_listeners_register_once() {
    let mut m = RuntimeConfigManager::new();
    m.register_listener("ui");
    m.register_listener("ui");
    m.register_listener("log");
    assert_eq!(m.unregister_listener("ui"), Ok(()));
    assert_eq!(m.unregister_listener("ui"), Err(RuntimeConfigError::ListenerNotFound));
    assert_eq!(m.unregister_listener("log"), Ok(()));
}

#[test]
fn session_windows_come_in_order_of_making() {
    let mut m = WindowManager::new();
    let mut early = window(id(A), id(B));
    early.created_at = 10;
    let mut late = window(id(C), id(B));
    late.created_at = 20;
    let doc = WindowDocument {
        windows: vec![(A.to_string(), early), (C.to_string(), late)],
        session_windows: vec![(B.to_string(), vec![C.to_string(), "67e55044-10b1-426f-9247-000000000000".to_string(), A.to_string()])],
        active_windows: vec![],
        window_hierarchy: vec![],
    };
    m.restore_window_data(doc);
    let ws = m.get_session_windows(id(B));
    assert_eq!(ws.len(), 2);
    assert_eq!(ws[0].id, id(A));
    assert_eq!(ws[1].id, id(C));
    assert!(m.get_session_windows(uuid::Uuid::nil()).is_empty());
}
