//! Error recovery: how severe an error is, and which recovery a recorded
//! error gets.
use crate::text::{chars_of, chars_of_string, contains_chars, contains_seq};
use std::collections::HashMap;
use std::time::{Duration, Instant};
use vstd::prelude::*;

verus! {

/// A point in time, as std's `Instant`; carried through, never looked into.
#[verifier::external_type_specification]
#[verifier::external_body]
pub struct ExInstant(std::time::Instant);

/// Error severity, from least to most severe.
#[derive(Debug, Clone, Copy, PartialEq, Eq, PartialOrd, Hash, Structural)]
pub enum ErrorSeverity {
    /// Low
    Low,
    /// Medium
    Medium,
    /// High
    High,
    /// Critical
    Critical,
    /// Fatal
    Fatal,
}

/// Where and how an error happened.
#[derive(Debug)]
pub struct ErrorContext {
    /// When it happened
    pub timestamp: Instant,
    /// Module
    pub module: String,
    /// Function
    pub function: String,
    /// Line
    pub line: u32,
    /// Severity
    pub severity: ErrorSeverity,
    /// Message
    pub message: String,
    /// Backtrace, where one was taken
    pub backtrace: Option<String>,
    /// Further context
    pub context_data: HashMap<String, String>,
}

impl Clone for ErrorContext {
    fn clone(&self) -> (c: Self)
        ensures
            c.module@ == self.module@,
            c.function@ == self.function@,
            c.line == self.line,
            c.severity == self.severity,
            c.message@ == self.message@,
    {
        ErrorContext {
            timestamp: self.timestamp,
            module: self.module.clone(),
            function: self.function.clone(),
            line: self.line,
            severity: self.severity,
            message: self.message.clone(),
            backtrace: self.backtrace.clone(),
            context_data: self.context_data.clone(),
        }
    }
}

/// A recovery action.
#[derive(Debug)]
pub enum RecoveryAction {
    /// Retry the operation
    Retry {
        /// Attempts at most
        max_attempts: u32,
        /// Delay between attempts in milliseconds
        delay_ms: u64,
    },
    /// Restart a component
    Restart {
        /// The component
        component: String,
    },
    /// Fall back to an alternative
    Fallback {
        /// The alternative
        alternative: String,
    },
    /// Ignore the error
    Ignore,
    /// Terminate
    Terminate,
}

/// The two actions are the same action with the same parameters.
pub open spec fn same_action(a: RecoveryAction, b: RecoveryAction) -> bool {
    match (a, b) {
        (
            RecoveryAction::Retry { max_attempts: m1, delay_ms: d1 },
            RecoveryAction::Retry { max_attempts: m2, delay_ms: d2 },
        ) => m1 == m2 && d1 == d2,
        (RecoveryAction::Restart { component: c1 }, RecoveryAction::Restart { component: c2 }) => c1@
            == c2@,
        (
            RecoveryAction::Fallback { alternative: a1 },
            RecoveryAction::Fallback { alternative: a2 },
        ) => a1@ == a2@,
        (RecoveryAction::Ignore, RecoveryAction::Ignore) => true,
        (RecoveryAction::Terminate, RecoveryAction::Terminate) => true,
        _ => false,
    }
}

impl Clone for RecoveryAction {
    fn clone(&self) -> (r: Self)
        ensures
            same_action(r, *self),
    {
        match self {
            RecoveryAction::Retry { max_attempts, delay_ms } => RecoveryAction::Retry {
                max_attempts: *max_attempts,
                delay_ms: *delay_ms,
            },
            RecoveryAction::Restart { component } => RecoveryAction::Restart {
                component: component.clone(),
            },
            RecoveryAction::Fallback { alternative } => RecoveryAction::Fallback {
                alternative: alternative.clone(),
            },
            RecoveryAction::Ignore => RecoveryAction::Ignore,
            RecoveryAction::Terminate => RecoveryAction::Terminate,
        }
    }
}

/// Error recovery configuration.
#[derive(Debug, Clone, Copy)]
pub struct ErrorRecoveryConfig {
    /// Enable recovery
    pub enable_recovery: bool,
    /// Maximum retry attempts
    pub max_retry_attempts: u32,
    /// Retry delay in milliseconds
    pub retry_delay_ms: u64,
    /// Recover automatically when an error is recorded
    pub enable_automatic_recovery: bool,
    /// Recover from crashes
    pub enable_crash_recovery: bool,
    /// Report errors
    pub enable_error_reporting: bool,
    /// Recovery timeout in milliseconds
    pub recovery_timeout: u64,
}

/// Recovery statistics.
#[derive(Debug)]
pub struct RecoveryStatistics {
    /// Errors recorded
    pub total_errors: u64,
    /// Successful recoveries
    pub successful_recoveries: u64,
    /// Failed recoveries
    pub failed_recoveries: u64,
    /// Errors by severity
    pub errors_by_severity: HashMap<ErrorSeverity, u64>,
    /// Errors by module
    pub errors_by_module: HashMap<String, u64>,
    /// Average recovery time
    pub avg_recovery_time: Duration,
    /// When the last error happened
    pub last_error_time: Option<Instant>,
}

impl Clone for RecoveryStatistics {
    fn clone(&self) -> (c: Self)
        ensures
            c.total_errors == self.total_errors,
            c.successful_recoveries == self.successful_recoveries,
            c.failed_recoveries == self.failed_recoveries,
    {
        RecoveryStatistics {
            total_errors: self.total_errors,
            successful_recoveries: self.successful_recoveries,
            failed_recoveries: self.failed_recoveries,
            errors_by_severity: self.errors_by_severity.clone(),
            errors_by_module: self.errors_by_module.clone(),
            avg_recovery_time: self.avg_recovery_time,
            last_error_time: self.last_error_time,
        }
    }
}

/// The recovery an error of `severity` in `module` gets when no strategy
/// names it.
pub open spec fn severity_action(severity: ErrorSeverity, module: Seq<char>, a: RecoveryAction) -> bool {
    match severity {
        ErrorSeverity::Low => a matches RecoveryAction::Retry { max_attempts: 1, delay_ms: 100 },
        ErrorSeverity::Medium => a matches RecoveryAction::Retry { max_attempts: 3, delay_ms: 1000 },
        ErrorSeverity::High => a matches RecoveryAction::Restart { component } && component@ == module,
        ErrorSeverity::Critical => a matches RecoveryAction::Fallback { alternative }
            && alternative@ == "safe_mode"@,
        ErrorSeverity::Fatal => a is Terminate,
    }
}

/// The index of the first strategy whose error type the message contains.
pub open spec fn first_strategy(error_types: Seq<Seq<char>>, message: Seq<char>) -> Option<int>
    decreases error_types.len(),
{
    if error_types.len() == 0 {
        None
    } else if contains_seq(message, error_types[0]) {
        Some(0)
    } else {
        match first_strategy(error_types.drop_first(), message) {
            Some(i) => Some(i + 1),
            None => None,
        }
    }
}

/// The error types of a list of strategies.
pub open spec fn strategy_types(strategies: Seq<(String, RecoveryAction)>) -> Seq<Seq<char>> {
    strategies.map_values(|e: (String, RecoveryAction)| e.0@)
}

/// The strategies a recovery manager starts with: network errors are
/// retried three times a second apart, memory errors restart the memory
/// manager, render errors fall back to the CPU renderer, and fatal errors
/// terminate.
pub fn default_recovery_strategies() -> (r: Vec<(String, RecoveryAction)>)
    ensures
        strategy_types(r@) == seq!["network_error"@, "memory_error"@, "render_error"@, "fatal_error"@],
        r@[0].1 matches RecoveryAction::Retry { max_attempts: 3, delay_ms: 1000 },
        r@[1].1 matches RecoveryAction::Restart { component } && component@ == "memory_manager"@,
        r@[2].1 matches RecoveryAction::Fallback { alternative } && alternative@ == "cpu_renderer"@,
        r@[3].1 is Terminate,
{
    let r = vec![
        ("network_error".to_string(), RecoveryAction::Retry { max_attempts: 3, delay_ms: 1000 }),
        (
            "memory_error".to_string(),
            RecoveryAction::Restart { component: "memory_manager".to_string() },
        ),
        (
            "render_error".to_string(),
            RecoveryAction::Fallback { alternative: "cpu_renderer".to_string() },
        ),
        ("fatal_error".to_string(), RecoveryAction::Terminate),
    ];
    assert(strategy_types(r@) =~= seq![
        "network_error"@,
        "memory_error"@,
        "render_error"@,
        "fatal_error"@,
    ]);
    r
}

/// The recovery for an error: the strategy of the first error type (in the
/// order given) that its message contains, else one by its severity: a
/// single quick retry for low, three retries a second apart for medium, a
/// restart of its module for high, the safe mode for critical, and
/// termination for fatal.
pub fn determine_recovery_strategy(
    strategies: &Vec<(String, RecoveryAction)>,
    context: &ErrorContext,
) -> (r: RecoveryAction)
    ensures
        match first_strategy(strategy_types(strategies@), context.message@) {
            Some(i) => 0 <= i < strategies.len() && same_action(r, strategies@[i].1),
            None => severity_action(context.severity, context.module@, r),
        },
{
    let msg = chars_of_string(&context.message);
    let ghost ts = strategy_types(strategies@);
    let mut i: usize = 0;
    assert(ts.skip(0) =~= ts);
    while i < strategies.len()
        invariant
            i <= strategies.len(),
            msg@ == context.message@,
            ts == strategy_types(strategies@),
            forall|j: int| 0 <= j < i ==> !contains_seq(msg@, #[trigger] ts[j]),
            first_strategy(ts, msg@) == (match first_strategy(ts.skip(i as int), msg@) {
                Some(k) => Some(k + i),
                None => None::<int>,
            }),
        decreases strategies.len() - i,
    {
        let t = chars_of_string(&strategies[i].0);
        assert(ts.skip(i as int)[0] == t@);
        assert(ts.skip(i as int).drop_first() =~= ts.skip(i + 1));
        if contains_chars(&msg, &t) {
            return strategies[i].1.clone();
        }
        i = i + 1;
    }
    assert(ts.skip(i as int) =~= Seq::<Seq<char>>::empty());
    match context.severity {
        ErrorSeverity::Low => RecoveryAction::Retry { max_attempts: 1, delay_ms: 100 },
        ErrorSeverity::Medium => RecoveryAction::Retry { max_attempts: 3, delay_ms: 1000 },
        ErrorSeverity::High => RecoveryAction::Restart { component: context.module.clone() },
        ErrorSeverity::Critical => RecoveryAction::Fallback { alternative: "safe_mode".to_string() },
        ErrorSeverity::Fatal => RecoveryAction::Terminate,
    }
}

/// Whether retrying with at most `max_attempts` attempts recovers: the
/// first attempt never does and the second always does, so it recovers
/// exactly when a second attempt is allowed.
pub fn retry_succeeds(max_attempts: u32) -> (ok: bool)
    ensures
        ok == (max_attempts >= 2),
{
    let mut attempt: u32 = 1;
    while attempt <= max_attempts
        invariant
            1 <= attempt,
            attempt <= 2,
        decreases max_attempts - attempt + 1,
    {
        if attempt > 1 {
            return true;
        }
        attempt = attempt + 1;
    }
    false
}

impl Default for ErrorRecoveryConfig {
    /// Recovery on, automatic and after crashes, with reporting; three
    /// retries a second apart; a 30 second timeout.
    fn default() -> (c: Self)
        ensures
            c.enable_recovery,
            c.max_retry_attempts == 3,
            c.retry_delay_ms == 1000,
            c.enable_automatic_recovery,
            c.enable_crash_recovery,
            c.enable_error_reporting,
            c.recovery_timeout == 30,
    {
        ErrorRecoveryConfig {
            enable_recovery: true,
            max_retry_attempts: 3,
            retry_delay_ms: 1000,
            enable_automatic_recovery: true,
            enable_crash_recovery: true,
            enable_error_reporting: true,
            recovery_timeout: 30,
        }
    }
}

impl ErrorSeverity {
    /// The severity as it is written in reports.
    pub fn to_string(&self) -> (s: String)
        ensures
            s@ == (match *self {
                ErrorSeverity::Low => "LOW"@,
                ErrorSeverity::Medium => "MEDIUM"@,
                ErrorSeverity::High => "HIGH"@,
                ErrorSeverity::Critical => "CRITICAL"@,
                ErrorSeverity::Fatal => "FATAL"@,
            }),
    {
        match self {
            ErrorSeverity::Low => "LOW".to_string(),
            ErrorSeverity::Medium => "MEDIUM".to_string(),
            ErrorSeverity::High => "HIGH".to_string(),
            ErrorSeverity::Critical => "CRITICAL".to_string(),
            ErrorSeverity::Fatal => "FATAL".to_string(),
        }
    }
}

} // verus!
