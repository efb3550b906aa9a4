use sare_terminal::advanced::input_method::{
    InputMethodError, InputMethodManager, InputMethodStatus, HandwritingHandler, IMEHandler, InputHandler, PredictionHandler, VoiceHandler,
};
use sare_terminal::advanced::{ImageFormat, InputMethodType, HyperlinkType, PasteProtectionLevel, SearchMode, SelectionMode};
use sare_terminal::features::selection_copy::{SelectionCopyManager, SelectionError, SelectionStatus};
use sare_terminal::features::search_functionality::{
    SearchManager, calculate_column_number, calculate_line_number, find_matches, search_pattern, SearchError,
    SearchPattern,
};
use sare_terminal::features::hyperlink_support::{
    determine_link_type, HyperlinkManager, LinkError, FileLinkHandler, FtpLinkHandler, HttpLinkHandler, LinkHandler,
    MailtoLinkHandler,
};
use sare_terminal::features::image_support::{process_image_data, ITerm2Parser, ImageRenderer, KittyParser, SixelParser};
use sare_terminal::features::paste_protection::{
    PasteProtectionManager, CommandChecker, PathChecker, ScriptChecker, SecurityChecker, SecuritySeverity, UrlChecker,
};
use sare_terminal::features::semantic_highlighting::{
    CppDetector, GoDetector, JavaScriptDetector, LanguageDetector, PythonDetector, RustDetector,
    RustHighlighter, SyntaxHighlighter,
};

#[test]
fn script_checker_reports_and_strips_at_high_level() {
    let c = ScriptChecker::new();
    let r = c.check_content("x<script>javascript:y", PasteProtectionLevel::High);
    let issue = r.issue.unwrap();
    assert_eq!(issue.issue_type, "ScriptInjection");
    assert_eq!(issue.description, "Potential script injection detected: javascript:");
    assert_eq!(issue.severity, SecuritySeverity::High);
    assert_eq!(r.processed_content.unwrap(), "x>y");
    assert!(r.warning.is_none());
}

#[test]
fn script_checker_ignores_case_but_strips_only_exact_case() {
    let c = ScriptChecker::new();
    let r = c.check_content("<SCRIPT>", PasteProtectionLevel::High);
    assert!(r.issue.is_some());
    assert_eq!(r.processed_content.unwrap(), "<SCRIPT>");
    let r = c.check_content("<script>", PasteProtectionLevel::Medium);
    assert_eq!(r.processed_content.unwrap(), "<script>");
    let r = c.check_content("harmless", PasteProtectionLevel::Off);
    assert!(r.issue.is_none());
    assert_eq!(r.processed_content.unwrap(), "harmless");
}

#[test]
fn url_checker_warns_of_the_last_scheme_found() {
    let c = UrlChecker::new();
    let r = c.check_content("see HTTP://a and ftp://b", PasteProtectionLevel::Low);
    let w = r.warning.unwrap();
    assert_eq!(w.warning_type, "UrlDetected");
    assert_eq!(w.description, "URL detected: ftp://");
    assert_eq!(w.severity, SecuritySeverity::Low);
    assert!(r.issue.is_none() && r.processed_content.is_none());
    assert!(c.check_content("no links", PasteProtectionLevel::Low).warning.is_none());
}

#[test]
fn command_checker_flags_dangerous_commands() {
    let c = CommandChecker::new();
    let r = c.check_content("SUDO RM -RF /", PasteProtectionLevel::Medium);
    let i = r.issue.unwrap();
    assert_eq!(i.issue_type, "DangerousCommand");
    assert_eq!(i.description, "Dangerous command detected: sudo");
    assert_eq!(i.severity, SecuritySeverity::Critical);
}

#[test]
fn path_checker_is_case_sensitive() {
    let c = PathChecker::new();
    let r = c.check_content("cat /etc/passwd /home/me", PasteProtectionLevel::Medium);
    let i = r.issue.unwrap();
    assert_eq!(i.description, "Dangerous path detected: /home/");
    assert_eq!(i.severity, SecuritySeverity::Medium);
    assert!(c.check_content("cat /ETC/PASSWD", PasteProtectionLevel::Medium).issue.is_none());
}

#[test]
fn detectors_count_their_patterns() {
    let s = RustDetector::new().detect_language("pub fn main() { let mut x = 1; }");
    assert_eq!((s.matches, s.total), (4, 10));
    let p = PythonDetector::new().detect_language("def f(self):\n    return self.x");
    assert_eq!((p.matches, p.total), (3, 8));
    let j = JavaScriptDetector::new().detect_language("const x = 1; console.log(x)");
    assert_eq!((j.matches, j.total), (2, 8));
    let c = CppDetector::new().detect_language("#include <x>\nint main(){ std::cout; }");
    assert_eq!((c.matches, c.total), (3, 8));
    let g = GoDetector::new().detect_language("package main\nfunc main() { fmt.Println() }");
    assert_eq!((g.matches, g.total), (3, 8));
    assert_eq!(RustDetector::new().detect_language("").matches, 0);
}

#[test]
fn highlighters_mark_nothing_yet() {
    assert!(RustHighlighter::new().highlight_syntax("fn main() {}").is_empty());
}

#[test]
fn link_types_by_scheme() {
    assert_eq!(determine_link_type("https://x"), HyperlinkType::Http);
    assert_eq!(determine_link_type("http://x"), HyperlinkType::Http);
    assert_eq!(determine_link_type("ftp://x"), HyperlinkType::Ftp);
    assert_eq!(determine_link_type("file:///tmp"), HyperlinkType::File);
    assert_eq!(determine_link_type("mailto:a@b"), HyperlinkType::Mailto);
    assert_eq!(determine_link_type("HTTP://x"), HyperlinkType::Other);
}

#[test]
fn link_handlers_name_their_programs() {
    let l = HttpLinkHandler::new().handle_click("https://e.org");
    assert_eq!(l.program, "xdg-open");
    assert_eq!(l.argument, "https://e.org");
    assert_eq!(l.failure_message, "Failed to open URL: https://e.org");
    assert_eq!(FtpLinkHandler::new().handle_click("ftp://h").failure_message, "Failed to open FTP URL: ftp://h");
    assert_eq!(FileLinkHandler::new().handle_click("f").failure_message, "Failed to open file: f");
    let m = MailtoLinkHandler::new().handle_click("mailto:a@b");
    assert_eq!(m.program, "xdg-email");
    assert_eq!(m.failure_message, "Failed to open mailto link: mailto:a@b");
}

#[test]
fn input_handlers_pass_input_through() {
    assert_eq!(IMEHandler::new().process_input("かな"), "かな");
    assert_eq!(VoiceHandler::new().process_input("hi"), "hi");
    assert_eq!(HandwritingHandler::new().process_input(""), "");
    assert_eq!(PredictionHandler::new().process_input("abc"), "abc");
}

#[test]
fn image_parsers_yield_empty_images() {
    let s = SixelParser::new().parse(b"\x1bPq#0;2;0;0;0~\x1b\\");
    assert_eq!((s.width, s.height, s.data.len()), (0, 0, 0));
    let k = KittyParser::new().parse(b"a=T,f=100");
    assert_eq!((k.width, k.height, k.data.len()), (0, 0, 0));
    let i = ITerm2Parser::new().parse(b"File=inline=1:AAAA");
    assert_eq!((i.width, i.height, i.data.len()), (0, 0, 0));
    let mut r = ImageRenderer::new();
    r.initialize();
    r.shutdown();
}

use sare_terminal::features::semantic_highlighting::{best_language, DetectionScore};

#[test]
fn best_language_takes_the_highest_share_first_on_ties() {
    let d = |m, t| DetectionScore { matches: m, total: t };
    let scores = vec![
        ("rust".to_string(), d(2, 10)),
        ("python".to_string(), d(2, 8)),
        ("go".to_string(), d(1, 4)),
        ("cpp".to_string(), d(0, 8)),
    ];
    assert_eq!(best_language(&scores), Some("python".to_string()));
    let none = vec![("rust".to_string(), d(0, 10)), ("empty".to_string(), d(0, 0))];
    assert_eq!(best_language(&none), None);
    assert_eq!(best_language(&Vec::new()), None);
    let text = "def f(self):\n    return self.x";
    let detections = vec![
        ("rust".to_string(), RustDetector::new().detect_language(text)),
        ("python".to_string(), PythonDetector::new().detect_language(text)),
    ];
    assert_eq!(best_language(&detections), Some("python".to_string()));
}

fn std_line_and_column(text: &str, position: usize) -> (usize, usize) {
    let before = &text[..position];
    let line = before.lines().count() + 1;
    let column = match before.lines().last() {
        Some(last) => last.len() + 1,
        None => 1,
    };
    (line, column)
}

#[test]
fn line_and_column_follow_str_lines() {
    let texts = ["", "abc", "a\nb", "a\r\nbc\nd", "x\n\n", "ab\r", "é\nñx", "one\r\n"];
    for text in texts {
        for position in 0..=text.len() {
            if text.is_char_boundary(position) {
                let expected = std_line_and_column(text, position);
                assert_eq!(calculate_line_number(text, position), expected.0, "{:?} {}", text, position);
                assert_eq!(calculate_column_number(text, position), expected.1, "{:?} {}", text, position);
            }
        }
    }
}

#[test]
fn line_and_column_exact_values() {
    assert_eq!(calculate_line_number("", 0), 1);
    assert_eq!(calculate_column_number("", 0), 1);
    assert_eq!(calculate_line_number("ab\ncd", 4), 3);
    assert_eq!(calculate_column_number("ab\ncd", 4), 2);
    assert_eq!(calculate_line_number("ab\r\ncd", 4), 2);
    assert_eq!(calculate_column_number("ab\r\ncd", 4), 3);
}

#[test]
fn search_patterns_escape_the_query() {
    assert_eq!(search_pattern("a.b", SearchMode::Normal), "a\\.b");
    assert_eq!(search_pattern("a.b", SearchMode::Regex), "a.b");
    assert_eq!(search_pattern("a+b", SearchMode::CaseInsensitive), "(?i)a\\+b");
    assert_eq!(search_pattern("x-y", SearchMode::WordBoundary), "\\bx\\-y\\b");
}

#[test]
fn plain_search_finds_each_match_with_its_place() {
    let ms = find_matches("foo bar\nbaz foo", "foo", SearchMode::Normal).unwrap();
    assert_eq!(ms.len(), 2);
    assert_eq!((ms[0].start, ms[0].end, ms[0].matched_text.as_str()), (0, 3, "foo"));
    assert_eq!((ms[0].line_number, ms[0].column_number), (1, 1));
    assert_eq!((ms[1].start, ms[1].end), (12, 15));
    assert_eq!((ms[1].line_number, ms[1].column_number), (3, 5));
}

#[test]
fn plain_search_takes_dots_literally() {
    assert_eq!(find_matches("a.b axb", "a.b", SearchMode::Normal).unwrap().len(), 1);
    assert_eq!(find_matches("a.b axb", "a.b", SearchMode::Regex).unwrap().len(), 2);
}

#[test]
fn case_insensitive_and_whole_word_search() {
    let ms = find_matches("Foo FOO food", "foo", SearchMode::CaseInsensitive).unwrap();
    assert_eq!(ms.len(), 3);
    let ws = find_matches("Foo foo food", "foo", SearchMode::WordBoundary).unwrap();
    assert_eq!(ws.len(), 1);
    assert_eq!(ws[0].start, 4);
}

#[test]
fn bad_regular_expression_is_refused() {
    assert_eq!(find_matches("abc", "(", SearchMode::Regex).unwrap_err(), SearchError::InvalidPattern);
    assert!(SearchPattern::compile("a(").is_err());
}

#[test]
fn manager_finds_links_pattern_by_pattern() {
    let mut m = HyperlinkManager::new().unwrap();
    let text = "see https://a.b/c and mailto:x@y.z or ftp://f.g";
    let links = m.detect_links(text, (1, 2));
    assert_eq!(links.len(), 3);
    assert_eq!(links[0].url, "https://a.b/c");
    assert_eq!((links[0].start_offset, links[0].end_offset), (4, 17));
    assert_eq!(links[0].link_type, HyperlinkType::Http);
    assert_eq!(links[1].url, "ftp://f.g");
    assert_eq!(links[1].start_offset, text.find("ftp").unwrap());
    assert_eq!(links[1].link_type, HyperlinkType::Ftp);
    assert_eq!(links[2].url, "mailto:x@y.z");
    assert_eq!(links[2].link_type, HyperlinkType::Mailto);
    assert!(links.iter().all(|l| l.position == (1, 2) && l.click_count == 0));
    assert_eq!(m.get_hyperlink_count(), 3);
    assert_eq!(m.get_links_by_type(HyperlinkType::Mailto).len(), 1);
    assert_eq!(m.get_links_by_type(HyperlinkType::File).len(), 0);
}

#[test]
fn clicking_a_link_counts_and_opens_it() {
    let mut m = HyperlinkManager::new().unwrap();
    let links = m.detect_links("go to file:///tmp/x now", (0, 0));
    assert_eq!(links.len(), 1);
    let launch = m.handle_link_click(links[0].id).unwrap();
    assert_eq!(launch.program, "xdg-open");
    assert_eq!(launch.argument, "file:///tmp/x");
    assert_eq!(launch.failure_message, "Failed to open file: file:///tmp/x");
    assert_eq!(m.get_links_by_type(HyperlinkType::File)[0].click_count, 1);
    assert_eq!(m.handle_link_click(uuid::Uuid::nil()).unwrap_err(), LinkError::NotFound);
    m.clear_links();
    assert_eq!(m.get_hyperlink_count(), 0);
}

#[test]
fn unregistered_manager_passes_text_through() {
    let m = PasteProtectionManager::new();
    let r = m.perform_security_check("sudo rm -rf /", PasteProtectionLevel::High);
    assert_eq!(r.processed_content, "sudo rm -rf /");
    assert!(r.security_issues.is_empty());
    assert!(r.warnings.is_empty());
}

#[test]
fn registered_checkers_report_in_order() {
    let mut m = PasteProtectionManager::new();
    m.initialize();
    let r = m.perform_security_check("<script>sudo cat /etc/passwd</script> http://x", PasteProtectionLevel::High);
    let kinds: Vec<&str> = r.security_issues.iter().map(|i| i.issue_type.as_str()).collect();
    assert_eq!(kinds, vec!["ScriptInjection", "DangerousCommand", "DangerousPath"]);
    assert_eq!(r.security_issues[1].description, "Dangerous command detected: sudo");
    assert_eq!(r.warnings.len(), 1);
    assert_eq!(r.warnings[0].description, "URL detected: http://");
    assert_eq!(r.processed_content, ">sudo cat /etc/passwd</script> http://x");
    let low = m.perform_security_check("<script>", PasteProtectionLevel::Low);
    assert_eq!(low.processed_content, "<script>");
}

#[test]
fn paste_history_keeps_the_newest() {
    let mut m = PasteProtectionManager::new();
    m.initialize();
    let first = m.process_paste("echo 0", PasteProtectionLevel::Medium);
    assert_eq!(first.original_content, "echo 0");
    assert_eq!(first.processed_content, "echo 0");
    for i in 1..=100 {
        m.process_paste(&format!("echo {}", i), PasteProtectionLevel::Medium);
    }
    m.clear_paste_history();
    let r = m.process_paste("chmod 777 x", PasteProtectionLevel::Low);
    assert_eq!(r.security_result.security_issues.len(), 1);
    assert_eq!(r.security_result.security_issues[0].severity, SecuritySeverity::Critical);
}

#[test]
fn bracketing_is_set_per_session() {
    let mut m = PasteProtectionManager::new();
    let a = uuid::Uuid::new_v4();
    let b = uuid::Uuid::new_v4();
    m.enable_paste_bracketing(a);
    m.enable_paste_bracketing(b);
    m.enable_paste_bracketing(a);
    assert_eq!(m.get_protection_count(), 3);
    m.disable_paste_bracketing(a);
    assert_eq!(m.get_protection_count(), 1);
    m.shutdown();
    assert_eq!(m.get_protection_count(), 0);
}

#[test]
fn selection_goes_from_start_to_completion() {
    let mut m = SelectionCopyManager::new();
    let id = m.start_selection((1, 2), SelectionMode::Word);
    let s = m.get_selection(id).unwrap();
    assert_eq!((s.start_position, s.end_position), ((1, 2), (1, 2)));
    assert_eq!(s.status, SelectionStatus::Active);
    assert_eq!(s.selected_text, "");
    assert_eq!(m.update_selection(id, (5, 2)), Ok(()));
    assert_eq!(m.get_selection(id).unwrap().end_position, (5, 2));
    assert_eq!(m.complete_selection(id).unwrap(), "");
    assert_eq!(m.get_selection(id).unwrap().status, SelectionStatus::Completed);
    let other = m.start_selection((0, 0), SelectionMode::Line);
    assert_eq!(m.cancel_selection(other), Ok(()));
    assert_eq!(m.get_selection(other).unwrap().status, SelectionStatus::Cancelled);
    assert_eq!(m.get_selection_count(), 2);
    let missing = uuid::Uuid::nil();
    assert_eq!(m.update_selection(missing, (0, 0)), Err(SelectionError::NotFound));
    assert_eq!(m.complete_selection(missing), Err(SelectionError::NotFound));
    assert_eq!(m.copy_selection(missing), Err(SelectionError::NotFound));
    assert!(m.get_selection(missing).is_none());
    assert_eq!(m.copy_selection(id), Ok(()));
    m.copy_text("hello");
    assert_eq!(m.get_clipboard_content(), "");
    m.shutdown();
    assert_eq!(m.get_selection_count(), 0);
}

#[test]
fn input_methods_turn_on_process_and_turn_off() {
    let mut m = InputMethodManager::new();
    let session = uuid::Uuid::new_v4();
    let id = m.activate_input_method(InputMethodType::Voice, session);
    assert_eq!(m.process_input(id, "hi"), Err(InputMethodError::NoHandler));
    m.initialize();
    assert_eq!(m.process_input(id, "こんにちは").unwrap(), "こんにちは");
    let method = m.get_input_method(id).unwrap();
    assert_eq!(method.session_id, session);
    assert_eq!(method.method_type, InputMethodType::Voice);
    assert_eq!(method.status, InputMethodStatus::Active);
    assert_eq!(m.deactivate_input_method(id), Ok(()));
    assert_eq!(m.get_input_method(id).unwrap().status, InputMethodStatus::Inactive);
    let missing = uuid::Uuid::nil();
    assert_eq!(m.process_input(missing, "x"), Err(InputMethodError::NotFound));
    assert_eq!(m.deactivate_input_method(missing), Err(InputMethodError::NotFound));
    assert!(m.get_input_method(missing).is_none());
    assert_eq!(m.get_method_count(), 1);
    m.shutdown();
    assert_eq!(m.get_method_count(), 0);
}

#[test]
fn search_manager_keeps_results_by_identifier() {
    let mut m = SearchManager::new();
    assert_eq!(m.initialize(), Ok(()));
    let id = m.search_text("one two one", "one", SearchMode::Normal).unwrap();
    let r = m.get_search_result(id).unwrap();
    assert_eq!(r.query, "one");
    assert_eq!(r.total_matches, 2);
    assert_eq!(r.matches[1].start, 8);
    assert_eq!(m.search_scrollback("abc", "[", SearchMode::Regex), Err(SearchError::InvalidPattern));
    let other = m.search_scrollback("x\ny", "y", SearchMode::Normal).unwrap();
    assert_eq!(m.get_search_result(other).unwrap().total_matches, 1);
    assert!(m.get_search_result(uuid::Uuid::nil()).is_none());
    for _ in 0..150 {
        m.search_text("aaa", "a", SearchMode::Normal).unwrap();
    }
    m.clear_search_results();
    assert!(m.get_search_result(id).is_none());
    m.shutdown();
}

#[test]
fn image_data_decodes_to_empty_images_of_its_format() {
    for format in [ImageFormat::Sixel, ImageFormat::Kitty, ImageFormat::ITerm2, ImageFormat::PNG] {
        let r = process_image_data(b"\x1bPq#0;2;0;0;0~\x1b\\", format);
        assert_eq!((r.width, r.height, r.pixel_data.len()), (0, 0, 0));
        assert_eq!(r.format, format);
    }
}

#[test]
fn histories_come_out_oldest_first() {
    let mut p = PasteProtectionManager::new();
    let first = p.process_paste("one", PasteProtectionLevel::Low).id;
    let second = p.process_paste("two", PasteProtectionLevel::Low).id;
    let h = p.get_paste_history();
    assert_eq!(h.iter().map(|e| e.id).collect::<Vec<_>>(), vec![first, second]);
    assert_eq!(h[1].content, "two");

    let mut s = SelectionCopyManager::new();
    let a = s.start_selection((0, 0), SelectionMode::Normal);
    let b = s.start_selection((1, 1), SelectionMode::Rectangle);
    let all = s.get_all_selections();
    assert_eq!(all.iter().map(|x| x.id).collect::<Vec<_>>(), vec![a, b]);
    s.copy_text("x");
    s.copy_text("y");
    let clip = s.get_clipboard_history();
    assert_eq!(clip.iter().map(|c| c.content.as_str()).collect::<Vec<_>>(), vec!["x", "y"]);

    let mut i = InputMethodManager::new();
    i.initialize();
    let m = i.activate_input_method(InputMethodType::IME, uuid::Uuid::new_v4());
    i.process_input(m, "a").unwrap();
    i.process_input(m, "b").unwrap();
    assert_eq!(i.get_all_input_methods().len(), 1);
    let ih = i.get_input_history();
    assert_eq!(ih.iter().map(|e| e.input.as_str()).collect::<Vec<_>>(), vec!["a", "b"]);

    let mut q = SearchManager::new();
    let r1 = q.search_text("aa", "a", SearchMode::Normal).unwrap();
    let r2 = q.search_text("bb", "b", SearchMode::Normal).unwrap();
    assert_eq!(q.get_all_search_results().iter().map(|r| r.id).collect::<Vec<_>>(), vec![r1, r2]);
    assert_eq!(q.get_search_history().iter().map(|h| h.query.as_str()).collect::<Vec<_>>(), vec!["a", "b"]);

    let mut l = HyperlinkManager::new().unwrap();
    l.detect_links("http://a http://b", (0, 0));
    let links = l.get_all_links();
    assert_eq!(links.iter().map(|x| x.url.as_str()).collect::<Vec<_>>(), vec!["http://a", "http://b"]);
}
