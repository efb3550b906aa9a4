//! Test settings: categories, configuration and results.
use std::collections::HashMap;
use crate::text::{chars_of, dec_seq, decimal_chars, push_all, string_of};
use std::time::Duration;
use vstd::prelude::*;

verus! {

/// The result of a test.
#[derive(Debug)]
pub enum TestResult {
    /// Passed
    Passed {
        /// How long it ran
        duration: Duration,
        /// Message
        message: String,
    },
    /// Failed
    Failed {
        /// How long it ran
        duration: Duration,
        /// What went wrong
        error: String,
    },
    /// Skipped
    Skipped {
        /// Why
        reason: String,
    },
    /// Timed out
    Timeout {
        /// How long it ran
        duration: Duration,
    },
}

/// The two results are the same outcome with the same details.
pub open spec fn same_result(a: TestResult, b: TestResult) -> bool {
    match (a, b) {
        (
            TestResult::Passed { duration: d1, message: m1 },
            TestResult::Passed { duration: d2, message: m2 },
        ) => d1 == d2 && m1@ == m2@,
        (
            TestResult::Failed { duration: d1, error: e1 },
            TestResult::Failed { duration: d2, error: e2 },
        ) => d1 == d2 && e1@ == e2@,
        (TestResult::Skipped { reason: r1 }, TestResult::Skipped { reason: r2 }) => r1@ == r2@,
        (TestResult::Timeout { duration: d1 }, TestResult::Timeout { duration: d2 }) => d1 == d2,
        _ => false,
    }
}

impl Clone for TestResult {
    fn clone(&self) -> (r: Self)
        ensures
            same_result(r, *self),
    {
        match self {
            TestResult::Passed { duration, message } => TestResult::Passed {
                duration: *duration,
                message: message.clone(),
            },
            TestResult::Failed { duration, error } => TestResult::Failed {
                duration: *duration,
                error: error.clone(),
            },
            TestResult::Skipped { reason } => TestResult::Skipped { reason: reason.clone() },
            TestResult::Timeout { duration } => TestResult::Timeout { duration: *duration },
        }
    }
}

/// Test categories.
#[derive(Debug, Clone, Copy, PartialEq, Eq, Hash, Structural)]
pub enum TestCategory {
    /// Unit tests
    Unit,
    /// Integration tests
    Integration,
    /// Performance tests
    Performance,
    /// Stress tests
    Stress,
    /// Regression tests
    Regression,
    /// Smoke tests
    Smoke,
}

/// Test configuration.
#[derive(Debug, Clone, Copy)]
pub struct TestConfig {
    /// Enable testing
    pub enable_testing: bool,
    /// Run tests in parallel
    pub enable_parallel: bool,
    /// Default timeout in seconds
    pub default_timeout: u64,
    /// Enable reports
    pub enable_reporting: bool,
    /// Report format
    pub output_format: TestOutputFormat,
    /// Enable coverage
    pub enable_coverage: bool,
    /// Enable profiling
    pub enable_profiling: bool,
}

/// Test report formats.
#[derive(Debug, Clone, Copy, PartialEq, Eq, Structural)]
pub enum TestOutputFormat {
    /// Plain text
    Text,
    /// JSON
    Json,
    /// XML
    Xml,
    /// HTML
    Html,
}

impl Default for TestConfig {
    /// Testing on, in parallel, with reports as text and a 30 second
    /// timeout; no coverage or profiling.
    fn default() -> (c: Self)
        ensures
            c.enable_testing,
            c.enable_parallel,
            c.default_timeout == 30,
            c.enable_reporting,
            c.output_format == TestOutputFormat::Text,
            !c.enable_coverage,
            !c.enable_profiling,
    {
        TestConfig {
            enable_testing: true,
            enable_parallel: true,
            default_timeout: 30,
            enable_reporting: true,
            output_format: TestOutputFormat::Text,
            enable_coverage: false,
            enable_profiling: false,
        }
    }
}


/// Test statistics.
#[derive(Debug)]
pub struct TestStatistics {
    /// Tests run
    pub total_tests: u64,
    /// Tests passed
    pub passed_tests: u64,
    /// Tests failed
    pub failed_tests: u64,
    /// Tests skipped
    pub skipped_tests: u64,
    /// Tests timed out
    pub timed_out_tests: u64,
    /// Time taken by all tests
    pub total_duration: Duration,
    /// Average time per test
    pub avg_duration: Duration,
    /// Tests by category
    pub tests_by_category: HashMap<TestCategory, u64>,
    /// Tests by suite
    pub tests_by_suite: HashMap<String, u64>,
}

impl Clone for TestStatistics {
    fn clone(&self) -> (c: Self)
        ensures
            c.total_tests == self.total_tests,
            c.passed_tests == self.passed_tests,
            c.failed_tests == self.failed_tests,
            c.skipped_tests == self.skipped_tests,
            c.timed_out_tests == self.timed_out_tests,
            c.total_duration == self.total_duration,
            c.avg_duration == self.avg_duration,
    {
        TestStatistics {
            total_tests: self.total_tests,
            passed_tests: self.passed_tests,
            failed_tests: self.failed_tests,
            skipped_tests: self.skipped_tests,
            timed_out_tests: self.timed_out_tests,
            total_duration: self.total_duration,
            avg_duration: self.avg_duration,
            tests_by_category: self.tests_by_category.clone(),
            tests_by_suite: self.tests_by_suite.clone(),
        }
    }
}

/// A test case, with what its test function prints when it runs.
pub struct TestCase {
    /// Test name
    pub name: String,
    /// Test description
    pub description: String,
    /// What the test function prints; it then succeeds
    pub message: String,
    /// Timeout in seconds
    pub timeout: u64,
    /// Test category
    pub category: String,
}

/// A test suite, with what its setup and teardown functions print, where it
/// has them.
pub struct TestSuite {
    /// Suite name
    pub name: String,
    /// Suite description
    pub description: String,
    /// Its test cases, in order
    pub test_cases: Vec<TestCase>,
    /// What the setup function prints, if there is one
    pub setup_message: Option<String>,
    /// What the teardown function prints, if there is one
    pub teardown_message: Option<String>,
    /// Suite timeout in seconds
    pub timeout: u64,
}

/// A test case as plain values: name, description, message, timeout and
/// category.
pub open spec fn case_view(c: TestCase) -> (Seq<char>, Seq<char>, Seq<char>, u64, Seq<char>) {
    (c.name@, c.description@, c.message@, c.timeout, c.category@)
}

/// An optional message as plain values.
pub open spec fn message_view(m: Option<String>) -> Option<Seq<char>> {
    match m {
        Some(s) => Some(s@),
        None => None,
    }
}

/// A test suite as plain values.
pub open spec fn suite_view(s: TestSuite) -> (
    Seq<char>,
    Seq<char>,
    Seq<(Seq<char>, Seq<char>, Seq<char>, u64, Seq<char>)>,
    Option<Seq<char>>,
    Option<Seq<char>>,
    u64,
) {
    (
        s.name@,
        s.description@,
        s.test_cases@.map_values(|c: TestCase| case_view(c)),
        message_view(s.setup_message),
        message_view(s.teardown_message),
        s.timeout,
    )
}

/// The default test suites: terminal functionality (with setup and
/// teardown), UI functionality and performance.
pub open spec fn default_suites() -> Seq<(
    Seq<char>,
    Seq<char>,
    Seq<(Seq<char>, Seq<char>, Seq<char>, u64, Seq<char>)>,
    Option<Seq<char>>,
    Option<Seq<char>>,
    u64,
)> {
    seq![
        ("terminal_functionality"@, "Terminal emulation functionality tests"@, seq![("test_pty_creation"@, "Test PTY creation and management"@, "Testing PTY creation..."@, 10u64, "Unit"@), ("test_ansi_parsing"@, "Test ANSI escape sequence parsing"@, "Testing ANSI parsing..."@, 5u64, "Unit"@), ("test_terminal_rendering"@, "Test terminal rendering functionality"@, "Testing terminal rendering..."@, 15u64, "Integration"@)], Some("Setting up terminal test suite..."@), Some("Tearing down terminal test suite..."@), 30u64),
        ("ui_functionality"@, "UI and widget functionality tests"@, seq![("test_widget_creation"@, "Test widget creation and management"@, "Testing widget creation..."@, 5u64, "Unit"@), ("test_widget_rendering"@, "Test widget rendering functionality"@, "Testing widget rendering..."@, 10u64, "Integration"@)], None, None, 30u64),
        ("performance_tests"@, "Performance and stress tests"@, seq![("test_rendering_performance"@, "Test rendering performance under load"@, "Testing rendering performance..."@, 30u64, "Performance"@), ("test_memory_usage"@, "Test memory usage under stress"@, "Testing memory usage..."@, 60u64, "Stress"@)], None, None, 30u64)
    ]
}

/// A test case of the given values.
fn test_case(name: &str, description: &str, message: &str, timeout: u64, category: &str) -> (c: TestCase)
    ensures
        case_view(c) == (name@, description@, message@, timeout, category@),
{
    TestCase {
        name: name.to_string(),
        description: description.to_string(),
        message: message.to_string(),
        timeout,
        category: category.to_string(),
    }
}

/// The test suites registered by default, in order.
pub fn default_test_suites() -> (r: Vec<TestSuite>)
    ensures
        r@.map_values(|s: TestSuite| suite_view(s)) == default_suites(),
{
    let r = vec![
        TestSuite {
            name: "terminal_functionality".to_string(),
            description: "Terminal emulation functionality tests".to_string(),
            test_cases: vec![
                test_case("test_pty_creation", "Test PTY creation and management", "Testing PTY creation...", 10, "Unit"),
                test_case("test_ansi_parsing", "Test ANSI escape sequence parsing", "Testing ANSI parsing...", 5, "Unit"),
                test_case("test_terminal_rendering", "Test terminal rendering functionality", "Testing terminal rendering...", 15, "Integration"),
            ],
            setup_message: Some("Setting up terminal test suite...".to_string()),
            teardown_message: Some("Tearing down terminal test suite...".to_string()),
            timeout: 30,
        },
        TestSuite {
            name: "ui_functionality".to_string(),
            description: "UI and widget functionality tests".to_string(),
            test_cases: vec![
                test_case("test_widget_creation", "Test widget creation and management", "Testing widget creation...", 5, "Unit"),
                test_case("test_widget_rendering", "Test widget rendering functionality", "Testing widget rendering...", 10, "Integration"),
            ],
            setup_message: None,
            teardown_message: None,
            timeout: 30,
        },
        TestSuite {
            name: "performance_tests".to_string(),
            description: "Performance and stress tests".to_string(),
            test_cases: vec![
                test_case("test_rendering_performance", "Test rendering performance under load", "Testing rendering performance...", 30, "Performance"),
                test_case("test_memory_usage", "Test memory usage under stress", "Testing memory usage...", 60, "Stress"),
            ],
            setup_message: None,
            teardown_message: None,
            timeout: 30,
        }
    ];
    assert(r@.map_values(|s: TestSuite| suite_view(s)) =~~= default_suites());
    r
}

/// What std's `Debug` writes for a duration (such as `1.5s` or `20ms`).
pub uninterp spec fn duration_debug_text(d: Duration) -> Seq<char>;

/// `format!("{:?}", d)` for a duration: std's `Debug` text of it, a
/// function of the duration alone, named `duration_debug_text`.
#[verifier::external_body]
fn duration_debug(d: Duration) -> (r: String)
    ensures
        r@ == duration_debug_text(d),
{
    format!("{:?}", d)
}

/// The line of the text report for test `name` with result `r`.
pub open spec fn result_line(name: Seq<char>, r: TestResult) -> Seq<char> {
    match r {
        TestResult::Passed { duration, .. } => "\u{2705} "@ + name + " ("@ + duration_debug_text(duration) + ")\n"@,
        TestResult::Failed { duration, error } => "\u{274c} "@ + name + " ("@ + duration_debug_text(duration) + ") - "@ + error@ + "\n"@,
        TestResult::Skipped { reason } => "\u{23ed}\u{fe0f} "@ + name + " - "@ + reason@ + "\n"@,
        TestResult::Timeout { duration } => "\u{23f0} "@ + name + " ("@ + duration_debug_text(duration) + ") - TIMEOUT\n"@,
    }
}

/// The lines of the text report for `results`, in order.
pub open spec fn result_lines(results: Seq<(String, TestResult)>) -> Seq<char>
    decreases results.len(),
{
    if results.len() == 0 {
        seq![]
    } else {
        result_lines(results.drop_last()) + result_line(results.last().0@, results.last().1)
    }
}

/// The head of the text report: a title, the counts and the durations.
pub open spec fn text_report_head(stats: TestStatistics) -> Seq<char> {
    "\u{1f9ea} Test Report\n"@ + "==============\n\n"@
        + "Total Tests: "@ + dec_seq(stats.total_tests as nat) + "\n"@
        + "Passed: "@ + dec_seq(stats.passed_tests as nat) + "\n"@
        + "Failed: "@ + dec_seq(stats.failed_tests as nat) + "\n"@
        + "Skipped: "@ + dec_seq(stats.skipped_tests as nat) + "\n"@
        + "Timed Out: "@ + dec_seq(stats.timed_out_tests as nat) + "\n"@
        + "Total Duration: "@ + duration_debug_text(stats.total_duration) + "\n"@
        + "Average Duration: "@ + duration_debug_text(stats.avg_duration) + "\n"@
        + "\nDetailed Results:\n"@
}

/// The HTML report: a title and the counts of tests run, passed and failed.
pub open spec fn html_report(stats: TestStatistics) -> Seq<char> {
    "<html><head><title>Test Report</title></head><body>"@ + "<h1>Test Report</h1>"@
        + "<p>Total Tests: "@ + dec_seq(stats.total_tests as nat) + "</p>"@
        + "<p>Passed: "@ + dec_seq(stats.passed_tests as nat) + "</p>"@
        + "<p>Failed: "@ + dec_seq(stats.failed_tests as nat) + "</p>"@
        + "</body></html>"@
}

/// Appends `label`, the decimal text of `n` and `end` to `v`.
fn push_count(v: &mut Vec<char>, label: &str, n: u64, end: &str)
    ensures
        final(v)@ == old(v)@ + label@ + dec_seq(n as nat) + end@,
{
    push_all(v, &chars_of(label));
    push_all(v, &decimal_chars(n));
    push_all(v, &chars_of(end));
    assert(v@ =~= old(v)@ + label@ + dec_seq(n as nat) + end@);
}

/// Appends `label`, the `Debug` text of `d` and a newline to `v`.
fn push_duration(v: &mut Vec<char>, label: &str, d: Duration)
    ensures
        final(v)@ == old(v)@ + label@ + duration_debug_text(d) + "\n"@,
{
    push_all(v, &chars_of(label));
    let t = duration_debug(d);
    push_all(v, &chars_of(t.as_str()));
    push_all(v, &chars_of("\n"));
    assert(v@ =~= old(v)@ + label@ + duration_debug_text(d) + "\n"@);
}

/// Appends the text report's line for test `name` with result `r`.
fn push_result_line(v: &mut Vec<char>, name: &String, r: &TestResult)
    ensures
        final(v)@ == old(v)@ + result_line(name@, *r),
{
    let n = chars_of(name.as_str());
    match r {
        TestResult::Passed { duration, .. } => {
            push_all(v, &chars_of("\u{2705} "));
            push_all(v, &n);
            push_all(v, &chars_of(" ("));
            push_all(v, &chars_of(duration_debug(*duration).as_str()));
            push_all(v, &chars_of(")\n"));
        },
        TestResult::Failed { duration, error } => {
            push_all(v, &chars_of("\u{274c} "));
            push_all(v, &n);
            push_all(v, &chars_of(" ("));
            push_all(v, &chars_of(duration_debug(*duration).as_str()));
            push_all(v, &chars_of(") - "));
            push_all(v, &chars_of(error.as_str()));
            push_all(v, &chars_of("\n"));
        },
        TestResult::Skipped { reason } => {
            push_all(v, &chars_of("\u{23ed}\u{fe0f} "));
            push_all(v, &n);
            push_all(v, &chars_of(" - "));
            push_all(v, &chars_of(reason.as_str()));
            push_all(v, &chars_of("\n"));
        },
        TestResult::Timeout { duration } => {
            push_all(v, &chars_of("\u{23f0} "));
            push_all(v, &n);
            push_all(v, &chars_of(" ("));
            push_all(v, &chars_of(duration_debug(*duration).as_str()));
            push_all(v, &chars_of(") - TIMEOUT\n"));
        },
    }
    assert(v@ =~= old(v)@ + result_line(name@, *r));
}

/// The text report: a title, the counts, the total and average durations,
/// and a line for each result of `results` in order (the order in which the
/// results were walked).
pub fn text_test_report(stats: &TestStatistics, results: &Vec<(String, TestResult)>) -> (r: String)
    ensures
        r@ == text_report_head(*stats) + result_lines(results@),
{
    let mut v: Vec<char> = chars_of("\u{1f9ea} Test Report\n");
    push_all(&mut v, &chars_of("==============\n\n"));
    push_count(&mut v, "Total Tests: ", stats.total_tests, "\n");
    push_count(&mut v, "Passed: ", stats.passed_tests, "\n");
    push_count(&mut v, "Failed: ", stats.failed_tests, "\n");
    push_count(&mut v, "Skipped: ", stats.skipped_tests, "\n");
    push_count(&mut v, "Timed Out: ", stats.timed_out_tests, "\n");
    push_duration(&mut v, "Total Duration: ", stats.total_duration);
    push_duration(&mut v, "Average Duration: ", stats.avg_duration);
    push_all(&mut v, &chars_of("\nDetailed Results:\n"));
    assert(v@ =~= text_report_head(*stats));
    let ghost head = v@;
    let mut i: usize = 0;
    while i < results.len()
        invariant
            i <= results.len(),
            v@ == head + result_lines(results@.take(i as int)),
        decreases results.len() - i,
    {
        assert(results@.take(i + 1).drop_last() =~= results@.take(i as int));
        push_result_line(&mut v, &results[i].0, &results[i].1);
        i = i + 1;
        assert(v@ =~= head + result_lines(results@.take(i as int)));
    }
    assert(results@.take(i as int) =~= results@);
    string_of(&v)
}

/// The HTML report: a title and the counts of tests run, passed and failed.
pub fn html_test_report(stats: &TestStatistics) -> (r: String)
    ensures
        r@ == html_report(*stats),
{
    let mut v: Vec<char> = chars_of("<html><head><title>Test Report</title></head><body>");
    push_all(&mut v, &chars_of("<h1>Test Report</h1>"));
    push_count(&mut v, "<p>Total Tests: ", stats.total_tests, "</p>");
    push_count(&mut v, "<p>Passed: ", stats.passed_tests, "</p>");
    push_count(&mut v, "<p>Failed: ", stats.failed_tests, "</p>");
    push_all(&mut v, &chars_of("</body></html>"));
    assert(v@ =~= html_report(*stats));
    string_of(&v)
}

} // verus!
