//! Paste protection: checks that pasted text is scanned with before it
//! reaches the shell.
//!
//! Each checker holds a fixed list of patterns. All but the path checker
//! compare ignoring ASCII case; the script checker, at the high protection
//! level, also removes each pattern it found (as written, case kept).
use crate::advanced::PasteProtectionLevel;
use crate::stamps::{by_time, new_uuid, same_uuid, time_order, utc_now_millis};
use crate::text::{chars_of, chars_of_string, contains_chars, contains_seq, lower_chars, lower_seq, replace_chars, replace_seq, string_of};
use vstd::prelude::*;
use vstd::string::*;

verus! {

/// Security severity.
#[derive(Debug, Clone, Copy, PartialEq, Eq, Structural)]
pub enum SecuritySeverity {
    /// Low
    Low,
    /// Medium
    Medium,
    /// High
    High,
    /// Critical
    Critical,
}

/// A security issue found in pasted text.
#[derive(Debug)]
pub struct SecurityIssue {
    /// Kind of issue
    pub issue_type: String,
    /// Description
    pub description: String,
    /// Severity
    pub severity: SecuritySeverity,
}

/// A security warning about pasted text.
#[derive(Debug)]
pub struct SecurityWarning {
    /// Kind of warning
    pub warning_type: String,
    /// Description
    pub description: String,
    /// Severity
    pub severity: SecuritySeverity,
}

/// What one checker found.
#[derive(Debug, Clone)]
pub struct CheckResult {
    /// The text as the checker would have it pasted, where it changes it
    pub processed_content: Option<String>,
    /// An issue found
    pub issue: Option<SecurityIssue>,
    /// A warning
    pub warning: Option<SecurityWarning>,
}

/// What all the checks together found.
#[derive(Debug)]
pub struct SecurityResult {
    /// The text to paste
    pub processed_content: String,
    /// Issues found
    pub security_issues: Vec<SecurityIssue>,
    /// Warnings
    pub warnings: Vec<SecurityWarning>,
    /// Protection level checked at
    pub protection_level: PasteProtectionLevel,
}

/// Paste configuration.
#[derive(Debug, Clone, Copy)]
pub struct PasteConfig {
    /// Enable protection
    pub enable_protection: bool,
    /// Enable bracketed paste
    pub enable_bracketing: bool,
    /// Keep a paste history
    pub enable_history: bool,
    /// Maximum number of history entries
    pub max_paste_history: usize,
    /// Paste timeout
    pub paste_timeout: u32,
    /// Protection level used when none is given
    pub default_protection_level: PasteProtectionLevel,
}

/// A check run on pasted text.
pub trait SecurityChecker {
    /// Checks `content` at `protection_level`.
    fn check_content(&self, content: &str, protection_level: PasteProtectionLevel) -> CheckResult;
}

/// Whether pattern `p` is found in `content`, ignoring ASCII case when
/// `fold` is set.
pub open spec fn hits(content: Seq<char>, p: Seq<char>, fold: bool) -> bool {
    if fold {
        contains_seq(lower_seq(content), lower_seq(p))
    } else {
        contains_seq(content, p)
    }
}

/// The index of the last pattern of `ps` found in `content`.
pub open spec fn last_hit(content: Seq<char>, ps: Seq<Seq<char>>, fold: bool) -> Option<int>
    decreases ps.len(),
{
    if ps.len() == 0 {
        None
    } else if hits(content, ps.last(), fold) {
        Some(ps.len() - 1)
    } else {
        last_hit(content, ps.drop_last(), fold)
    }
}

/// `content` with each pattern of `ps` that is found in it removed, one
/// pattern after the other in order.
pub open spec fn strip_hits(content: Seq<char>, ps: Seq<Seq<char>>, fold: bool) -> Seq<char>
    decreases ps.len(),
{
    if ps.len() == 0 {
        content
    } else {
        let prev = strip_hits(content, ps.drop_last(), fold);
        if hits(content, ps.last(), fold) {
            replace_seq(prev, ps.last(), seq![])
        } else {
            prev
        }
    }
}

/// The patterns as plain sequences.
pub open spec fn patterns_view(ps: Seq<String>) -> Seq<Seq<char>> {
    ps.map_values(|p: String| p@)
}

/// `issue` is what a checker reports for the last pattern found, `hit`:
/// of kind `kind`, described by `prefix` and the pattern, at `severity`;
/// nothing when no pattern was found.
pub open spec fn reports_issue(
    issue: Option<SecurityIssue>,
    hit: Option<int>,
    ps: Seq<Seq<char>>,
    kind: Seq<char>,
    prefix: Seq<char>,
    severity: SecuritySeverity,
) -> bool {
    match hit {
        None => issue is None,
        Some(k) => issue is Some && issue->0.issue_type@ == kind && issue->0.description@ == prefix
            + ps[k] && issue->0.severity == severity,
    }
}

/// As `reports_issue`, for a warning.
pub open spec fn reports_warning(
    warning: Option<SecurityWarning>,
    hit: Option<int>,
    ps: Seq<Seq<char>>,
    kind: Seq<char>,
    prefix: Seq<char>,
    severity: SecuritySeverity,
) -> bool {
    match hit {
        None => warning is None,
        Some(k) => warning is Some && warning->0.warning_type@ == kind && warning->0.description@
            == prefix + ps[k] && warning->0.severity == severity,
    }
}

/// Looks for each pattern of `patterns` in `content`: returns the index of
/// the last one found and, when `strip` is set, `content` with each one
/// found removed.
fn scan_patterns(content: &Vec<char>, patterns: &Vec<String>, fold: bool, strip: bool) -> (r: (
    Option<usize>,
    Vec<char>,
))
    ensures
        match r.0 {
            Some(k) => last_hit(content@, patterns_view(patterns@), fold) == Some(k as int) && k
                < patterns.len(),
            None => last_hit(content@, patterns_view(patterns@), fold) is None,
        },
        r.1@ == (if strip {
            strip_hits(content@, patterns_view(patterns@), fold)
        } else {
            content@
        }),
{
    let ghost ps = patterns_view(patterns@);
    let hay = if fold {
        lower_chars(content)
    } else {
        content.clone()
    };
    assert(hay@ == (if fold {
        lower_seq(content@)
    } else {
        content@
    }));
    let mut found: Option<usize> = None;
    let mut out = content.clone();
    let mut k: usize = 0;
    while k < patterns.len()
        invariant
            k <= patterns.len(),
            ps == patterns_view(patterns@),
            hay@ == (if fold {
                lower_seq(content@)
            } else {
                content@
            }),
            match found {
                Some(j) => last_hit(content@, ps.take(k as int), fold) == Some(j as int) && j < k,
                None => last_hit(content@, ps.take(k as int), fold) is None,
            },
            out@ == (if strip {
                strip_hits(content@, ps.take(k as int), fold)
            } else {
                content@
            }),
        decreases patterns.len() - k,
    {
        let p = chars_of_string(&patterns[k]);
        let needle = if fold {
            lower_chars(&p)
        } else {
            p.clone()
        };
        assert(ps.take(k + 1).last() == p@);
        assert(ps.take(k + 1).drop_last() =~= ps.take(k as int));
        let hit = contains_chars(&hay, &needle);
        assert(hit == hits(content@, p@, fold));
        if hit {
            found = Some(k);
            if strip {
                if p.len() > 0 {
                    let empty: Vec<char> = Vec::new();
                    out = replace_chars(&out, &p, &empty);
                    assert(empty@ =~= Seq::<char>::empty());
                } else {
                    assert(replace_seq(out@, p@, seq![]) == out@);
                }
            }
        }
        k = k + 1;
    }
    assert(ps.take(k as int) =~= ps);
    (found, out)
}

/// `prefix` followed by `tail`.
fn joined(prefix: &str, tail: &String) -> (r: String)
    ensures
        r@ == prefix@ + tail@,
{
    let mut r = prefix.to_string();
    r.append(tail.as_str());
    r
}

/// Script checker.
pub struct ScriptChecker {
    script_patterns: Vec<String>,
}

impl ScriptChecker {
    /// Its patterns.
    pub closed spec fn patterns(self) -> Seq<Seq<char>> {
        patterns_view(self.script_patterns@)
    }

    /// A checker for `<script`, `javascript:`, `vbscript:` and
    /// `data:text/html`.
    pub fn new() -> (c: Self)
        ensures
            c.patterns() == seq!["<script"@, "javascript:"@, "vbscript:"@, "data:text/html"@],
    {
        let c = ScriptChecker {
            script_patterns: vec![
                "<script".to_string(),
                "javascript:".to_string(),
                "vbscript:".to_string(),
                "data:text/html".to_string(),
            ],
        };
        assert(c.patterns() =~= seq!["<script"@, "javascript:"@, "vbscript:"@, "data:text/html"@]);
        c
    }
}

impl SecurityChecker for ScriptChecker {
    /// Reports script injection (high severity) for the last pattern found,
    /// ignoring ASCII case; at the high level also removes each pattern
    /// found from the text.
    fn check_content(&self, content: &str, protection_level: PasteProtectionLevel) -> (r:
        CheckResult)
        ensures
            r.processed_content is Some,
            r.processed_content->0@ == (if protection_level == PasteProtectionLevel::High {
                strip_hits(content@, self.patterns(), true)
            } else {
                content@
            }),
            reports_issue(
                r.issue,
                last_hit(content@, self.patterns(), true),
                self.patterns(),
                "ScriptInjection"@,
                "Potential script injection detected: "@,
                SecuritySeverity::High,
            ),
            r.warning is None,
    {
        let c = chars_of(content);
        let strip = protection_level == PasteProtectionLevel::High;
        let (found, out) = scan_patterns(&c, &self.script_patterns, true, strip);
        let issue = match found {
            Some(k) => Some(
                SecurityIssue {
                    issue_type: "ScriptInjection".to_string(),
                    description: joined(
                        "Potential script injection detected: ",
                        &self.script_patterns[k],
                    ),
                    severity: SecuritySeverity::High,
                },
            ),
            None => None,
        };
        CheckResult { processed_content: Some(string_of(&out)), issue, warning: None }
    }
}

/// URL checker.
pub struct UrlChecker {
    url_patterns: Vec<String>,
}

impl UrlChecker {
    /// Its patterns.
    pub closed spec fn patterns(self) -> Seq<Seq<char>> {
        patterns_view(self.url_patterns@)
    }

    /// A checker for `http://`, `https://`, `ftp://` and `file://`.
    pub fn new() -> (c: Self)
        ensures
            c.patterns() == seq!["http://"@, "https://"@, "ftp://"@, "file://"@],
    {
        let c = UrlChecker {
            url_patterns: vec![
                "http://".to_string(),
                "https://".to_string(),
                "ftp://".to_string(),
                "file://".to_string(),
            ],
        };
        assert(c.patterns() =~= seq!["http://"@, "https://"@, "ftp://"@, "file://"@]);
        c
    }
}

impl SecurityChecker for UrlChecker {
    /// Warns (low severity) of the last URL scheme found, ignoring ASCII
    /// case.
    fn check_content(&self, content: &str, protection_level: PasteProtectionLevel) -> (r:
        CheckResult)
        ensures
            r.processed_content is None,
            r.issue is None,
            reports_warning(
                r.warning,
                last_hit(content@, self.patterns(), true),
                self.patterns(),
                "UrlDetected"@,
                "URL detected: "@,
                SecuritySeverity::Low,
            ),
    {
        let c = chars_of(content);
        let (found, _out) = scan_patterns(&c, &self.url_patterns, true, false);
        let warning = match found {
            Some(k) => Some(
                SecurityWarning {
                    warning_type: "UrlDetected".to_string(),
                    description: joined("URL detected: ", &self.url_patterns[k]),
                    severity: SecuritySeverity::Low,
                },
            ),
            None => None,
        };
        CheckResult { processed_content: None, issue: None, warning }
    }
}

/// Command checker.
pub struct CommandChecker {
    command_patterns: Vec<String>,
}

impl CommandChecker {
    /// Its patterns.
    pub closed spec fn patterns(self) -> Seq<Seq<char>> {
        patterns_view(self.command_patterns@)
    }

    /// A checker for `rm -rf`, `sudo`, `chmod`, `chown` and `dd if=`.
    pub fn new() -> (c: Self)
        ensures
            c.patterns() == seq!["rm -rf"@, "sudo"@, "chmod"@, "chown"@, "dd if="@],
    {
        let c = CommandChecker {
            command_patterns: vec![
                "rm -rf".to_string(),
                "sudo".to_string(),
                "chmod".to_string(),
                "chown".to_string(),
                "dd if=".to_string(),
            ],
        };
        assert(c.patterns() =~= seq!["rm -rf"@, "sudo"@, "chmod"@, "chown"@, "dd if="@]);
        c
    }
}

impl SecurityChecker for CommandChecker {
    /// Reports a dangerous command (critical severity) for the last pattern
    /// found, ignoring ASCII case.
    fn check_content(&self, content: &str, protection_level: PasteProtectionLevel) -> (r:
        CheckResult)
        ensures
            r.processed_content is None,
            reports_issue(
                r.issue,
                last_hit(content@, self.patterns(), true),
                self.patterns(),
                "DangerousCommand"@,
                "Dangerous command detected: "@,
                SecuritySeverity::Critical,
            ),
            r.warning is None,
    {
        let c = chars_of(content);
        let (found, _out) = scan_patterns(&c, &self.command_patterns, true, false);
        let issue = match found {
            Some(k) => Some(
                SecurityIssue {
                    issue_type: "DangerousCommand".to_string(),
                    description: joined("Dangerous command detected: ", &self.command_patterns[k]),
                    severity: SecuritySeverity::Critical,
                },
            ),
            None => None,
        };
        CheckResult { processed_content: None, issue, warning: None }
    }
}

/// Path checker.
pub struct PathChecker {
    dangerous_path_patterns: Vec<String>,
}

impl PathChecker {
    /// Its patterns.
    pub closed spec fn patterns(self) -> Seq<Seq<char>> {
        patterns_view(self.dangerous_path_patterns@)
    }

    /// A checker for `/etc/passwd`, `/etc/shadow`, `/root` and `/home/`.
    pub fn new() -> (c: Self)
        ensures
            c.patterns() == seq!["/etc/passwd"@, "/etc/shadow"@, "/root"@, "/home/"@],
    {
        let c = PathChecker {
            dangerous_path_patterns: vec![
                "/etc/passwd".to_string(),
                "/etc/shadow".to_string(),
                "/root".to_string(),
                "/home/".to_string(),
            ],
        };
        assert(c.patterns() =~= seq!["/etc/passwd"@, "/etc/shadow"@, "/root"@, "/home/"@]);
        c
    }
}

impl SecurityChecker for PathChecker {
    /// Reports a dangerous path (medium severity) for the last pattern
    /// found, case kept.
    fn check_content(&self, content: &str, protection_level: PasteProtectionLevel) -> (r:
        CheckResult)
        ensures
            r.processed_content is None,
            reports_issue(
                r.issue,
                last_hit(content@, self.patterns(), false),
                self.patterns(),
                "DangerousPath"@,
                "Dangerous path detected: "@,
                SecuritySeverity::Medium,
            ),
            r.warning is None,
    {
        let c = chars_of(content);
        let (found, _out) = scan_patterns(&c, &self.dangerous_path_patterns, false, false);
        let issue = match found {
            Some(k) => Some(
                SecurityIssue {
                    issue_type: "DangerousPath".to_string(),
                    description: joined("Dangerous path detected: ", &self.dangerous_path_patterns[k]),
                    severity: SecuritySeverity::Medium,
                },
            ),
            None => None,
        };
        CheckResult { processed_content: None, issue, warning: None }
    }
}

impl Clone for SecurityIssue {
    /// A copy of the issue.
    fn clone(&self) -> (c: Self)
        ensures
            c.issue_type@ == self.issue_type@,
            c.description@ == self.description@,
            c.severity == self.severity,
    {
        SecurityIssue {
            issue_type: self.issue_type.clone(),
            description: self.description.clone(),
            severity: self.severity,
        }
    }
}

impl Clone for SecurityWarning {
    /// A copy of the warning.
    fn clone(&self) -> (c: Self)
        ensures
            c.warning_type@ == self.warning_type@,
            c.description@ == self.description@,
            c.severity == self.severity,
    {
        SecurityWarning {
            warning_type: self.warning_type.clone(),
            description: self.description.clone(),
            severity: self.severity,
        }
    }
}

/// `i` reports finding `f`.
pub open spec fn issue_is(i: SecurityIssue, f: (Seq<char>, Seq<char>, SecuritySeverity)) -> bool {
    i.issue_type@ == f.0 && i.description@ == f.1 && i.severity == f.2
}

/// `w` reports finding `f`.
pub open spec fn warning_is(w: SecurityWarning, f: (Seq<char>, Seq<char>, SecuritySeverity)) -> bool {
    w.warning_type@ == f.0 && w.description@ == f.1 && w.severity == f.2
}

/// `a` and `b` hold the same text, findings and level.
pub open spec fn same_result(a: SecurityResult, b: SecurityResult) -> bool {
    &&& a.processed_content@ == b.processed_content@
    &&& a.protection_level == b.protection_level
    &&& a.security_issues.len() == b.security_issues.len()
    &&& forall|i: int|
        #![trigger a.security_issues@[i]]
        0 <= i < a.security_issues.len() ==> a.security_issues@[i].issue_type@
            == b.security_issues@[i].issue_type@ && a.security_issues@[i].description@
            == b.security_issues@[i].description@ && a.security_issues@[i].severity
            == b.security_issues@[i].severity
    &&& a.warnings.len() == b.warnings.len()
    &&& forall|i: int|
        #![trigger a.warnings@[i]]
        0 <= i < a.warnings.len() ==> a.warnings@[i].warning_type@
            == b.warnings@[i].warning_type@ && a.warnings@[i].description@
            == b.warnings@[i].description@ && a.warnings@[i].severity == b.warnings@[i].severity
}

impl Clone for SecurityResult {
    /// A copy of the result.
    fn clone(&self) -> (c: Self)
        ensures
            same_result(c, *self),
    {
        let mut security_issues: Vec<SecurityIssue> = Vec::new();
        let mut k: usize = 0;
        while k < self.security_issues.len()
            invariant
                k <= self.security_issues.len(),
                security_issues.len() == k,
                forall|i: int|
                    #![trigger security_issues@[i]]
                    0 <= i < k ==> security_issues@[i].issue_type@
                        == self.security_issues@[i].issue_type@ && security_issues@[i].description@
                        == self.security_issues@[i].description@ && security_issues@[i].severity
                        == self.security_issues@[i].severity,
            decreases self.security_issues.len() - k,
        {
            security_issues.push(self.security_issues[k].clone());
            k = k + 1;
        }
        let mut warnings: Vec<SecurityWarning> = Vec::new();
        let mut k: usize = 0;
        while k < self.warnings.len()
            invariant
                k <= self.warnings.len(),
                warnings.len() == k,
                forall|i: int|
                    #![trigger warnings@[i]]
                    0 <= i < k ==> warnings@[i].warning_type@
                        == self.warnings@[i].warning_type@ && warnings@[i].description@
                        == self.warnings@[i].description@ && warnings@[i].severity
                        == self.warnings@[i].severity,
            decreases self.warnings.len() - k,
        {
            warnings.push(self.warnings[k].clone());
            k = k + 1;
        }
        SecurityResult {
            processed_content: self.processed_content.clone(),
            security_issues,
            warnings,
            protection_level: self.protection_level,
        }
    }
}

/// The one element of `o`, or none.
pub open spec fn opt_seq<T>(o: Option<T>) -> Seq<T> {
    match o {
        Some(v) => seq![v],
        None => seq![],
    }
}

/// The finding of kind `kind` a checker with patterns `ps` makes when the
/// last pattern found is `hit`: `prefix` and that pattern, at `severity`.
pub open spec fn finding(
    hit: Option<int>,
    ps: Seq<Seq<char>>,
    kind: Seq<char>,
    prefix: Seq<char>,
    severity: SecuritySeverity,
) -> Option<(Seq<char>, Seq<char>, SecuritySeverity)> {
    match hit {
        Some(k) => Some((kind, prefix + ps[k], severity)),
        None => None,
    }
}

/// The patterns of `ScriptChecker::new`.
pub open spec fn script_patterns() -> Seq<Seq<char>> {
    seq!["<script"@, "javascript:"@, "vbscript:"@, "data:text/html"@]
}

/// The patterns of `UrlChecker::new`.
pub open spec fn url_patterns() -> Seq<Seq<char>> {
    seq!["http://"@, "https://"@, "ftp://"@, "file://"@]
}

/// The patterns of `CommandChecker::new`.
pub open spec fn command_patterns() -> Seq<Seq<char>> {
    seq!["rm -rf"@, "sudo"@, "chmod"@, "chown"@, "dd if="@]
}

/// The patterns of `PathChecker::new`.
pub open spec fn path_patterns() -> Seq<Seq<char>> {
    seq!["/etc/passwd"@, "/etc/shadow"@, "/root"@, "/home/"@]
}

/// The issues the registered checkers report for `content`, in the order
/// they run: script, command, path.
pub open spec fn expected_issues(content: Seq<char>) -> Seq<(Seq<char>, Seq<char>, SecuritySeverity)> {
    opt_seq(
        finding(
            last_hit(content, script_patterns(), true),
            script_patterns(),
            "ScriptInjection"@,
            "Potential script injection detected: "@,
            SecuritySeverity::High,
        ),
    ) + opt_seq(
        finding(
            last_hit(content, command_patterns(), true),
            command_patterns(),
            "DangerousCommand"@,
            "Dangerous command detected: "@,
            SecuritySeverity::Critical,
        ),
    ) + opt_seq(
        finding(
            last_hit(content, path_patterns(), false),
            path_patterns(),
            "DangerousPath"@,
            "Dangerous path detected: "@,
            SecuritySeverity::Medium,
        ),
    )
}

/// The warnings the registered checkers give for `content`: the URL one.
pub open spec fn expected_warnings(content: Seq<char>) -> Seq<(Seq<char>, Seq<char>, SecuritySeverity)> {
    opt_seq(
        finding(
            last_hit(content, url_patterns(), true),
            url_patterns(),
            "UrlDetected"@,
            "URL detected: "@,
            SecuritySeverity::Low,
        ),
    )
}

/// `r` is what checking `content` at `level` gives, with the default
/// checkers when `registered`, else with none: the text (the script
/// checker's at the high level), the issues and warnings in order.
pub open spec fn checked(r: SecurityResult, content: Seq<char>, level: PasteProtectionLevel, registered: bool) -> bool {
    let issues = if registered { expected_issues(content) } else { seq![] };
    let warnings = if registered { expected_warnings(content) } else { seq![] };
    &&& r.processed_content@ == (if registered && level == PasteProtectionLevel::High {
        strip_hits(content, script_patterns(), true)
    } else {
        content
    })
    &&& r.protection_level == level
    &&& r.security_issues.len() == issues.len()
    &&& forall|i: int| 0 <= i < issues.len() ==> issue_is(#[trigger] r.security_issues@[i], issues[i])
    &&& r.warnings.len() == warnings.len()
    &&& forall|i: int| 0 <= i < warnings.len() ==> warning_is(#[trigger] r.warnings@[i], warnings[i])
}

/// `issue` reports `f`, when there is one.
proof fn lemma_reported(issue: Option<SecurityIssue>, f: Option<(Seq<char>, Seq<char>, SecuritySeverity)>)
    requires
        issue is Some <==> f is Some,
        issue is Some ==> issue_is(issue->0, f->0),
    ensures
        opt_seq(issue).len() == opt_seq(f).len(),
        forall|i: int| 0 <= i < opt_seq(f).len() ==> issue_is(#[trigger] opt_seq(issue)[i], opt_seq(f)[i]),
{
}

/// A copy of a checked result is checked alike.
proof fn lemma_checked_copy(a: SecurityResult, b: SecurityResult, content: Seq<char>, level: PasteProtectionLevel, registered: bool)
    requires
        same_result(a, b),
        checked(b, content, level, registered),
    ensures
        checked(a, content, level, registered),
{
    let issues = if registered { expected_issues(content) } else { seq![] };
    let warnings = if registered { expected_warnings(content) } else { seq![] };
    assert forall|i: int| 0 <= i < issues.len() implies issue_is(#[trigger] a.security_issues@[i], issues[i]) by {
        assert(issue_is(b.security_issues@[i], issues[i]));
    }
    assert forall|i: int| 0 <= i < warnings.len() implies warning_is(#[trigger] a.warnings@[i], warnings[i]) by {
        assert(warning_is(b.warnings@[i], warnings[i]));
    }
}

/// `e` is the history entry of a paste of `content` at `level`, checked
/// with the default checkers when `registered`.
pub open spec fn entry_of(e: PasteEntry, content: Seq<char>, level: PasteProtectionLevel, registered: bool) -> bool {
    &&& e.content@ == content
    &&& e.protection_level == level
    &&& checked(e.security_result, content, level, registered)
}

/// The settings of `cs` that are not for session `session_id`, in order.
pub open spec fn configs_without(cs: Seq<ProtectionConfig>, session_id: uuid::Uuid) -> Seq<ProtectionConfig>
    decreases cs.len(),
{
    if cs.len() == 0 {
        seq![]
    } else if cs.last().session_id != session_id {
        configs_without(cs.drop_last(), session_id).push(cs.last())
    } else {
        configs_without(cs.drop_last(), session_id)
    }
}

/// Pasted text as it was kept.
#[derive(Debug)]
pub struct PasteEntry {
    /// Identifier
    pub id: uuid::Uuid,
    /// The text pasted
    pub content: String,
    /// Protection level
    pub protection_level: PasteProtectionLevel,
    /// What the checks found
    pub security_result: SecurityResult,
    /// When, in milliseconds since the Unix epoch
    pub created_at: i64,
}

/// `a` and `b` are the same history entry, texts compared by content.
pub open spec fn same_entry(a: PasteEntry, b: PasteEntry) -> bool {
    &&& a.id == b.id
    &&& a.content@ == b.content@
    &&& a.protection_level == b.protection_level
    &&& same_result(a.security_result, b.security_result)
    &&& a.created_at == b.created_at
}

impl Clone for PasteEntry {
    /// A copy of the entry.
    fn clone(&self) -> (c: Self)
        ensures
            same_entry(c, *self),
    {
        PasteEntry {
            id: self.id,
            content: self.content.clone(),
            protection_level: self.protection_level,
            security_result: self.security_result.clone(),
            created_at: self.created_at,
        }
    }
}

/// The outcome of a paste.
#[derive(Debug)]
pub struct PasteResult {
    /// Identifier, that of its history entry
    pub id: uuid::Uuid,
    /// The text pasted
    pub original_content: String,
    /// The text to hand on
    pub processed_content: String,
    /// Protection level
    pub protection_level: PasteProtectionLevel,
    /// What the checks found
    pub security_result: SecurityResult,
    /// When, in milliseconds since the Unix epoch
    pub created_at: i64,
}

/// Bracketed paste turned on for a session.
#[derive(Debug, Clone, Copy)]
pub struct ProtectionConfig {
    /// Identifier
    pub id: uuid::Uuid,
    /// The session
    pub session_id: uuid::Uuid,
    /// Protection level
    pub protection_level: PasteProtectionLevel,
    /// Whether bracketing is on
    pub bracketing_enabled: bool,
    /// When, in milliseconds since the Unix epoch
    pub created_at: i64,
}

/// Checks pasted text and keeps a bounded history of pastes.
pub struct PasteProtectionManager {
    protection_configs: Vec<ProtectionConfig>,
    paste_history: Vec<PasteEntry>,
    checkers_registered: bool,
    paste_config: PasteConfig,
}

impl PasteProtectionManager {
    /// The pastes kept, oldest first.
    pub closed spec fn history(self) -> Seq<PasteEntry> {
        self.paste_history@
    }

    /// The bracketing settings, in the order they were made.
    pub closed spec fn configs(self) -> Seq<ProtectionConfig> {
        self.protection_configs@
    }

    /// Whether the default checkers are registered.
    pub closed spec fn registered(self) -> bool {
        self.checkers_registered
    }

    /// The paste configuration.
    pub closed spec fn config(self) -> PasteConfig {
        self.paste_config
    }

    /// A manager with no checkers, no history and no settings; protection,
    /// bracketing and history on, at most 100 pastes kept, a 30 second
    /// timeout, medium protection by default.
    pub fn new() -> (m: Self)
        ensures
            m.history().len() == 0,
            m.configs().len() == 0,
            !m.registered(),
            m.config() == (PasteConfig {
                enable_protection: true,
                enable_bracketing: true,
                enable_history: true,
                max_paste_history: 100,
                paste_timeout: 30,
                default_protection_level: PasteProtectionLevel::Medium,
            }),
    {
        PasteProtectionManager {
            protection_configs: Vec::new(),
            paste_history: Vec::new(),
            checkers_registered: false,
            paste_config: PasteConfig {
                enable_protection: true,
                enable_bracketing: true,
                enable_history: true,
                max_paste_history: 100,
                paste_timeout: 30,
                default_protection_level: PasteProtectionLevel::Medium,
            },
        }
    }

    /// Registers the default checkers: script, URL, command and path.
    pub fn initialize(&mut self)
        ensures
            final(self).registered(),
            final(self).history() == old(self).history(),
            final(self).configs() == old(self).configs(),
            final(self).config() == old(self).config(),
    {
        self.checkers_registered = true;
    }

    /// Runs the registered checkers on `content` at `protection_level`, in
    /// order: issues and warnings are gathered, and the text is that of the
    /// last checker that gives one.
    pub fn perform_security_check(&self, content: &str, protection_level: PasteProtectionLevel) -> (r: SecurityResult)
        ensures
            checked(r, content@, protection_level, self.registered()),
    {
        let mut processed_content = content.to_string();
        let mut security_issues: Vec<SecurityIssue> = Vec::new();
        let mut warnings: Vec<SecurityWarning> = Vec::new();
        if self.checkers_registered {
            let script = ScriptChecker::new();
            let s = script.check_content(content, protection_level);
            let url = UrlChecker::new();
            let u = url.check_content(content, protection_level);
            let command = CommandChecker::new();
            let c = command.check_content(content, protection_level);
            let path = PathChecker::new();
            let p = path.check_content(content, protection_level);
            let ghost fs = finding(last_hit(content@, script_patterns(), true), script_patterns(), "ScriptInjection"@, "Potential script injection detected: "@, SecuritySeverity::High);
            let ghost fc = finding(last_hit(content@, command_patterns(), true), command_patterns(), "DangerousCommand"@, "Dangerous command detected: "@, SecuritySeverity::Critical);
            let ghost fp = finding(last_hit(content@, path_patterns(), false), path_patterns(), "DangerousPath"@, "Dangerous path detected: "@, SecuritySeverity::Medium);
            let ghost fu = finding(last_hit(content@, url_patterns(), true), url_patterns(), "UrlDetected"@, "URL detected: "@, SecuritySeverity::Low);
            if let Some(i) = s.issue {
                security_issues.push(i);
            }
            if let Some(w) = u.warning {
                warnings.push(w);
            }
            if let Some(i) = c.issue {
                security_issues.push(i);
            }
            if let Some(i) = p.issue {
                security_issues.push(i);
            }
            if let Some(t) = s.processed_content {
                processed_content = t;
            }
            proof {
                assert(expected_issues(content@) == opt_seq(fs) + opt_seq(fc) + opt_seq(fp));
                assert(expected_warnings(content@) == opt_seq(fu));
            }
        }
        SecurityResult { processed_content, security_issues, warnings, protection_level }
    }

    /// Pastes `content` at `protection_level`: checks it, keeps the paste at
    /// the end of the history (dropping the oldest entry when the history
    /// then holds more than `max_paste_history`), and returns the outcome,
    /// with the same identifier and time as the entry kept.
    pub fn process_paste(&mut self, content: &str, protection_level: PasteProtectionLevel) -> (r: PasteResult)
        ensures
            r.original_content@ == content@,
            r.protection_level == protection_level,
            checked(r.security_result, content@, protection_level, old(self).registered()),
            r.processed_content@ == r.security_result.processed_content@,
            final(self).registered() == old(self).registered(),
            final(self).configs() == old(self).configs(),
            final(self).config() == old(self).config(),
            ({
                let n = old(self).history().len() + 1;
                let shift: int = if n > old(self).config().max_paste_history { 1 } else { 0 };
                &&& final(self).history().len() == n - shift
                &&& forall|i: int|
                    0 <= i < final(self).history().len() && i + shift < old(self).history().len()
                        ==> #[trigger] final(self).history()[i] == old(self).history()[i + shift]
                &&& forall|i: int|
                    0 <= i < final(self).history().len() && i + shift == old(self).history().len()
                        ==> entry_of(
                        #[trigger] final(self).history()[i],
                        content@,
                        protection_level,
                        old(self).registered(),
                    ) && final(self).history()[i].id == r.id && final(self).history()[i].created_at
                        == r.created_at
            }),
            old(self).history().len() <= old(self).config().max_paste_history ==> final(self).history().len() <= final(self).config().max_paste_history,
    {
        let id = new_uuid();
        let now = utc_now_millis();
        let security_result = self.perform_security_check(content, protection_level);
        let kept = security_result.clone();
        proof {
            lemma_checked_copy(kept, security_result, content@, protection_level, self.registered());
        }
        let result = PasteResult {
            id,
            original_content: content.to_string(),
            processed_content: security_result.processed_content.clone(),
            protection_level,
            security_result,
            created_at: now,
        };
        let entry = PasteEntry {
            id,
            content: content.to_string(),
            protection_level,
            security_result: kept,
            created_at: now,
        };
        self.paste_history.push(entry);
        if self.paste_history.len() > self.paste_config.max_paste_history {
            self.paste_history.remove(0);
        }
        result
    }

    /// Turns bracketed paste on for session `session_id`, at the high
    /// protection level.
    pub fn enable_paste_bracketing(&mut self, session_id: uuid::Uuid)
        ensures
            final(self).configs().len() == old(self).configs().len() + 1,
            forall|i: int|
                0 <= i < old(self).configs().len() ==> #[trigger] final(self).configs()[i] == old(self).configs()[i],
            final(self).configs().last().session_id == session_id,
            final(self).configs().last().protection_level == PasteProtectionLevel::High,
            final(self).configs().last().bracketing_enabled,
            final(self).history() == old(self).history(),
            final(self).registered() == old(self).registered(),
            final(self).config() == old(self).config(),
    {
        let c = ProtectionConfig {
            id: new_uuid(),
            session_id,
            protection_level: PasteProtectionLevel::High,
            bracketing_enabled: true,
            created_at: utc_now_millis(),
        };
        self.protection_configs.push(c);
    }

    /// Turns bracketed paste off for session `session_id`: drops its
    /// settings, keeping the others in order.
    pub fn disable_paste_bracketing(&mut self, session_id: uuid::Uuid)
        ensures
            final(self).configs() == configs_without(old(self).configs(), session_id),
            final(self).history() == old(self).history(),
            final(self).registered() == old(self).registered(),
            final(self).config() == old(self).config(),
    {
        let mut kept: Vec<ProtectionConfig> = Vec::new();
        let mut k: usize = 0;
        while k < self.protection_configs.len()
            invariant
                k <= self.protection_configs.len(),
                self.protection_configs@ == old(self).protection_configs@,
                kept@ == configs_without(old(self).configs().take(k as int), session_id),
            decreases self.protection_configs.len() - k,
        {
            assert(old(self).configs().take(k + 1).drop_last() =~= old(self).configs().take(k as int));
            let c = self.protection_configs[k];
            if !same_uuid(&c.session_id, &session_id) {
                kept.push(c);
            }
            k = k + 1;
        }
        assert(old(self).configs().take(k as int) =~= old(self).configs());
        self.protection_configs = kept;
    }

    /// The times of the pastes kept, oldest entry first.
    pub open spec fn history_times(self) -> Seq<i64> {
        self.history().map_values(|e: PasteEntry| e.created_at)
    }

    /// The pastes kept, from the earliest to the latest, pastes made at the
    /// same time in the order they were kept.
    pub fn get_paste_history(&self) -> (r: Vec<PasteEntry>)
        ensures
            r.len() == self.history().len(),
            exists|idx: Seq<usize>|
                #[trigger] by_time(self.history_times(), idx) && forall|a: int|
                    0 <= a < r.len() ==> same_entry(#[trigger] r@[a], self.history()[idx[a] as int]),
    {
        let ghost keys_view = self.history_times();
        let mut keys: Vec<i64> = Vec::new();
        let mut k: usize = 0;
        while k < self.paste_history.len()
            invariant
                k <= self.paste_history.len(),
                keys_view == self.history_times(),
                keys@ == keys_view.take(k as int),
            decreases self.paste_history.len() - k,
        {
            keys.push(self.paste_history[k].created_at);
            k = k + 1;
            assert(keys@ =~= keys_view.take(k as int));
        }
        assert(keys_view.take(k as int) =~= keys_view);
        let order = time_order(&keys);
        let mut r: Vec<PasteEntry> = Vec::new();
        let mut a: usize = 0;
        while a < order.len()
            invariant
                a <= order.len(),
                by_time(keys@, order@),
                keys@ == self.history_times(),
                r.len() == a,
                forall|b: int| 0 <= b < a ==> same_entry(#[trigger] r@[b], self.history()[order@[b] as int]),
            decreases order.len() - a,
        {
            r.push(self.paste_history[order[a]].clone());
            a = a + 1;
        }
        r
    }

    /// Forgets every paste.
    pub fn clear_paste_history(&mut self)
        ensures
            final(self).history().len() == 0,
            final(self).configs() == old(self).configs(),
            final(self).registered() == old(self).registered(),
            final(self).config() == old(self).config(),
    {
        self.paste_history = Vec::new();
    }

    /// How many bracketing settings there are.
    pub fn get_protection_count(&self) -> (n: usize)
        ensures
            n == self.configs().len(),
    {
        self.protection_configs.len()
    }

    /// Forgets every paste, checker and setting.
    pub fn shutdown(&mut self)
        ensures
            final(self).history().len() == 0,
            final(self).configs().len() == 0,
            !final(self).registered(),
            final(self).config() == old(self).config(),
    {
        self.clear_paste_history();
        self.checkers_registered = false;
        self.protection_configs = Vec::new();
    }
}

} // verus!
