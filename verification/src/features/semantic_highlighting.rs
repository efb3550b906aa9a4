//! Semantic highlighting: language detection by characteristic patterns,
//! and syntax highlighters per language.
//!
//! A detector's confidence is the share of its patterns that occur in the
//! text, given here as the pair (patterns found, patterns in all).
use crate::advanced::SemanticType;
use crate::text::{chars_of, chars_of_string, contains_chars, contains_seq};
use vstd::prelude::*;

verus! {

/// Highlight information.
#[derive(Debug, Clone, Copy)]
pub struct HighlightInfo {
    /// Start position
    pub start: usize,
    /// End position
    pub end: usize,
    /// Semantic type
    pub semantic_type: SemanticType,
    /// Colour
    pub color: Option<ColorInfo>,
}

/// Colour information.
#[derive(Debug, Clone, Copy, PartialEq, Eq, Structural)]
pub struct ColorInfo {
    /// Red
    pub r: u8,
    /// Green
    pub g: u8,
    /// Blue
    pub b: u8,
    /// Alpha
    pub a: u8,
}

/// Highlight configuration.
#[derive(Debug, Clone, Copy)]
pub struct HighlightConfig {
    /// Enable highlighting
    pub enable_highlighting: bool,
    /// Enable language detection
    pub enable_language_detection: bool,
    /// Enable semantic analysis
    pub enable_semantic_analysis: bool,
    /// Maximum text length
    pub max_text_length: usize,
    /// Highlight timeout
    pub highlight_timeout: u32,
}

/// A detector's confidence as a fraction: the patterns found over the
/// patterns it has.
#[derive(Debug, Clone, Copy, PartialEq, Eq, Structural)]
pub struct DetectionScore {
    /// Patterns found in the text
    pub matches: usize,
    /// Patterns in all
    pub total: usize,
}

/// Detects one language in a text.
pub trait LanguageDetector {
    /// How confident the detector is that `text` is in its language.
    fn detect_language(&self, text: &str) -> DetectionScore;
}

/// Highlights the syntax of one language.
pub trait SyntaxHighlighter {
    /// The highlights of `text`.
    fn highlight_syntax(&self, text: &str) -> Vec<HighlightInfo>;
}

/// How many of the patterns `ps` occur in `text`.
pub open spec fn count_hits(text: Seq<char>, ps: Seq<Seq<char>>) -> nat
    decreases ps.len(),
{
    if ps.len() == 0 {
        0
    } else {
        count_hits(text, ps.drop_last()) + (if contains_seq(text, ps.last()) {
            1nat
        } else {
            0nat
        })
    }
}

/// Strings as plain sequences.
pub open spec fn strings_view(ps: Seq<String>) -> Seq<Seq<char>> {
    ps.map_values(|p: String| p@)
}

/// The score of `text` against `patterns`.
fn score(text: &str, patterns: &Vec<String>) -> (r: DetectionScore)
    ensures
        r.matches == count_hits(text@, strings_view(patterns@)),
        r.total == patterns.len(),
        r.matches <= r.total,
{
    let t = chars_of(text);
    let ghost ps = strings_view(patterns@);
    let mut matches: usize = 0;
    let mut k: usize = 0;
    while k < patterns.len()
        invariant
            k <= patterns.len(),
            t@ == text@,
            ps == strings_view(patterns@),
            matches == count_hits(text@, ps.take(k as int)),
            matches <= k,
        decreases patterns.len() - k,
    {
        let p = chars_of_string(&patterns[k]);
        assert(ps.take(k + 1).last() == p@);
        assert(ps.take(k + 1).drop_last() =~= ps.take(k as int));
        if contains_chars(&t, &p) {
            matches = matches + 1;
        }
        k = k + 1;
    }
    assert(ps.take(k as int) =~= ps);
    DetectionScore { matches, total: patterns.len() }
}

/// Score `a` is higher than score `b`: its share of patterns found is the
/// greater (a score with no patterns counts as no confidence).
pub open spec fn higher_score(a: DetectionScore, b: DetectionScore) -> bool {
    if a.total == 0 {
        false
    } else if b.total == 0 {
        a.matches > 0
    } else {
        a.matches * b.total > b.matches * a.total
    }
}

/// The index of the language a detection picks: the first, in the order
/// given, whose confidence is above zero and above that of every language
/// before it.
pub open spec fn best_language_index(scores: Seq<DetectionScore>) -> Option<int>
    decreases scores.len(),
{
    if scores.len() == 0 {
        None
    } else {
        let prev = best_language_index(scores.drop_last());
        let l = scores.len() - 1;
        let beats = match prev {
            Some(p) => higher_score(scores[l], scores[p]),
            None => higher_score(scores[l], DetectionScore { matches: 0, total: 1 }),
        };
        if beats {
            Some(l)
        } else {
            prev
        }
    }
}

/// The scores of a list of named detections.
pub open spec fn detection_scores(d: Seq<(String, DetectionScore)>) -> Seq<DetectionScore> {
    d.map_values(|e: (String, DetectionScore)| e.1)
}

/// Whether `a` is higher than `b` (see `higher_score`).
fn is_higher(a: DetectionScore, b: DetectionScore) -> (r: bool)
    ensures
        r == higher_score(a, b),
{
    if a.total == 0 {
        false
    } else if b.total == 0 {
        a.matches > 0
    } else {
        let am: u128 = a.matches as u128;
        let at: u128 = a.total as u128;
        let bm: u128 = b.matches as u128;
        let bt: u128 = b.total as u128;
        assert(am * bt <= u128::MAX) by (nonlinear_arith)
            requires
                am <= 0xffff_ffff_ffff_ffffu128,
                bt <= 0xffff_ffff_ffff_ffffu128,
        ;
        assert(bm * at <= u128::MAX) by (nonlinear_arith)
            requires
                bm <= 0xffff_ffff_ffff_ffffu128,
                at <= 0xffff_ffff_ffff_ffffu128,
        ;
        am * bt > bm * at
    }
}

/// The language a detection picks among `detections` (language name and
/// score, in the order the detectors are asked): the one of highest
/// confidence, the first of them on a tie; none when no detector is
/// confident at all.
pub fn best_language(detections: &Vec<(String, DetectionScore)>) -> (r: Option<String>)
    ensures
        match best_language_index(detection_scores(detections@)) {
            Some(i) => r is Some && r->0@ == detections@[i].0@,
            None => r is None,
        },
{
    let ghost sc = detection_scores(detections@);
    let mut best: Option<usize> = None;
    let mut i: usize = 0;
    while i < detections.len()
        invariant
            i <= detections.len(),
            sc == detection_scores(detections@),
            sc.len() == detections.len(),
            match best {
                Some(b) => best_language_index(sc.take(i as int)) == Some(b as int) && b < i,
                None => best_language_index(sc.take(i as int)) is None,
            },
        decreases detections.len() - i,
    {
        let s = detections[i].1;
        assert(sc[i as int] == s);
        assert(sc.take(i + 1).drop_last() =~= sc.take(i as int));
        assert(sc.take(i + 1)[i as int] == s);
        let beats = match best {
            Some(p) => {
                assert(sc.take(i + 1)[p as int] == sc[p as int]);
                assert(sc[p as int] == detections@[p as int].1);
                is_higher(s, detections[p].1)
            },
            None => is_higher(s, DetectionScore { matches: 0, total: 1 }),
        };
        if beats {
            best = Some(i);
        }
        i = i + 1;
    }
    assert(sc.take(i as int) =~= sc);
    match best {
        Some(b) => Some(detections[b].0.clone()),
        None => None,
    }
}

/// Rust detector.
pub struct RustDetector {
    rust_patterns: Vec<String>,
}

impl RustDetector {
    /// Its patterns.
    pub closed spec fn patterns(self) -> Seq<Seq<char>> {
        strings_view(self.rust_patterns@)
    }

    /// A detector with the characteristic patterns of Rust.
    pub fn new() -> (d: Self)
        ensures
            d.patterns() == seq!["fn "@, "let "@, "mut "@, "impl "@, "struct "@, "enum "@, "trait "@, "use "@, "mod "@, "pub "@],
    {
        let d = RustDetector {
            rust_patterns: vec![
                "fn ".to_string(),
                "let ".to_string(),
                "mut ".to_string(),
                "impl ".to_string(),
                "struct ".to_string(),
                "enum ".to_string(),
                "trait ".to_string(),
                "use ".to_string(),
                "mod ".to_string(),
                "pub ".to_string(),
            ],
        };
        assert(d.patterns() =~= seq!["fn "@, "let "@, "mut "@, "impl "@, "struct "@, "enum "@, "trait "@, "use "@, "mod "@, "pub "@]);
        d
    }
}

impl LanguageDetector for RustDetector {
    fn detect_language(&self, text: &str) -> (r: DetectionScore)
        ensures
            r.matches == count_hits(text@, self.patterns()),
            r.total == self.patterns().len(),
            r.matches <= r.total,
    {
        score(text, &self.rust_patterns)
    }
}

/// Rust highlighter.
pub struct RustHighlighter {
    rust_keywords: Vec<String>,
}

impl RustHighlighter {
    /// Its keywords.
    pub closed spec fn keywords(self) -> Seq<Seq<char>> {
        strings_view(self.rust_keywords@)
    }

    /// A highlighter for the keywords of Rust.
    pub fn new() -> (h: Self)
        ensures
            h.keywords() == seq!["fn"@, "let"@, "mut"@, "impl"@, "struct"@, "enum"@, "trait"@, "use"@, "mod"@, "pub"@],
    {
        let h = RustHighlighter {
            rust_keywords: vec![
                "fn".to_string(),
                "let".to_string(),
                "mut".to_string(),
                "impl".to_string(),
                "struct".to_string(),
                "enum".to_string(),
                "trait".to_string(),
                "use".to_string(),
                "mod".to_string(),
                "pub".to_string(),
            ],
        };
        assert(h.keywords() =~= seq!["fn"@, "let"@, "mut"@, "impl"@, "struct"@, "enum"@, "trait"@, "use"@, "mod"@, "pub"@]);
        h
    }
}

impl SyntaxHighlighter for RustHighlighter {
    /// No highlights yet: the Rust highlighter marks nothing.
    fn highlight_syntax(&self, text: &str) -> (r: Vec<HighlightInfo>)
        ensures
            r.len() == 0,
    {
        Vec::new()
    }
}

/// Python detector.
pub struct PythonDetector {
    python_patterns: Vec<String>,
}

impl PythonDetector {
    /// Its patterns.
    pub closed spec fn patterns(self) -> Seq<Seq<char>> {
        strings_view(self.python_patterns@)
    }

    /// A detector with the characteristic patterns of Python.
    pub fn new() -> (d: Self)
        ensures
            d.patterns() == seq!["def "@, "class "@, "import "@, "from "@, "if __name__"@, "print("@, "return "@, "self."@],
    {
        let d = PythonDetector {
            python_patterns: vec![
                "def ".to_string(),
                "class ".to_string(),
                "import ".to_string(),
                "from ".to_string(),
                "if __name__".to_string(),
                "print(".to_string(),
                "return ".to_string(),
                "self.".to_string(),
            ],
        };
        assert(d.patterns() =~= seq!["def "@, "class "@, "import "@, "from "@, "if __name__"@, "print("@, "return "@, "self."@]);
        d
    }
}

impl LanguageDetector for PythonDetector {
    fn detect_language(&self, text: &str) -> (r: DetectionScore)
        ensures
            r.matches == count_hits(text@, self.patterns()),
            r.total == self.patterns().len(),
            r.matches <= r.total,
    {
        score(text, &self.python_patterns)
    }
}

/// Python highlighter.
pub struct PythonHighlighter {
    python_keywords: Vec<String>,
}

impl PythonHighlighter {
    /// Its keywords.
    pub closed spec fn keywords(self) -> Seq<Seq<char>> {
        strings_view(self.python_keywords@)
    }

    /// A highlighter for the keywords of Python.
    pub fn new() -> (h: Self)
        ensures
            h.keywords() == seq!["def"@, "class"@, "import"@, "from"@, "if"@, "else"@, "for"@, "while"@],
    {
        let h = PythonHighlighter {
            python_keywords: vec![
                "def".to_string(),
                "class".to_string(),
                "import".to_string(),
                "from".to_string(),
                "if".to_string(),
                "else".to_string(),
                "for".to_string(),
                "while".to_string(),
            ],
        };
        assert(h.keywords() =~= seq!["def"@, "class"@, "import"@, "from"@, "if"@, "else"@, "for"@, "while"@]);
        h
    }
}

impl SyntaxHighlighter for PythonHighlighter {
    /// No highlights yet: the Python highlighter marks nothing.
    fn highlight_syntax(&self, text: &str) -> (r: Vec<HighlightInfo>)
        ensures
            r.len() == 0,
    {
        Vec::new()
    }
}

/// JavaScript detector.
pub struct JavaScriptDetector {
    javascript_patterns: Vec<String>,
}

impl JavaScriptDetector {
    /// Its patterns.
    pub closed spec fn patterns(self) -> Seq<Seq<char>> {
        strings_view(self.javascript_patterns@)
    }

    /// A detector with the characteristic patterns of JavaScript.
    pub fn new() -> (d: Self)
        ensures
            d.patterns() == seq!["function "@, "const "@, "let "@, "var "@, "console.log("@, "export "@, "import "@, "class "@],
    {
        let d = JavaScriptDetector {
            javascript_patterns: vec![
                "function ".to_string(),
                "const ".to_string(),
                "let ".to_string(),
                "var ".to_string(),
                "console.log(".to_string(),
                "export ".to_string(),
                "import ".to_string(),
                "class ".to_string(),
            ],
        };
        assert(d.patterns() =~= seq!["function "@, "const "@, "let "@, "var "@, "console.log("@, "export "@, "import "@, "class "@]);
        d
    }
}

impl LanguageDetector for JavaScriptDetector {
    fn detect_language(&self, text: &str) -> (r: DetectionScore)
        ensures
            r.matches == count_hits(text@, self.patterns()),
            r.total == self.patterns().len(),
            r.matches <= r.total,
    {
        score(text, &self.javascript_patterns)
    }
}

/// JavaScript highlighter.
pub struct JavaScriptHighlighter {
    javascript_keywords: Vec<String>,
}

impl JavaScriptHighlighter {
    /// Its keywords.
    pub closed spec fn keywords(self) -> Seq<Seq<char>> {
        strings_view(self.javascript_keywords@)
    }

    /// A highlighter for the keywords of JavaScript.
    pub fn new() -> (h: Self)
        ensures
            h.keywords() == seq!["function"@, "const"@, "let"@, "var"@, "if"@, "else"@, "for"@, "while"@],
    {
        let h = JavaScriptHighlighter {
            javascript_keywords: vec![
                "function".to_string(),
                "const".to_string(),
                "let".to_string(),
                "var".to_string(),
                "if".to_string(),
                "else".to_string(),
                "for".to_string(),
                "while".to_string(),
            ],
        };
        assert(h.keywords() =~= seq!["function"@, "const"@, "let"@, "var"@, "if"@, "else"@, "for"@, "while"@]);
        h
    }
}

impl SyntaxHighlighter for JavaScriptHighlighter {
    /// No highlights yet: the JavaScript highlighter marks nothing.
    fn highlight_syntax(&self, text: &str) -> (r: Vec<HighlightInfo>)
        ensures
            r.len() == 0,
    {
        Vec::new()
    }
}

/// C++ detector.
pub struct CppDetector {
    cpp_patterns: Vec<String>,
}

impl CppDetector {
    /// Its patterns.
    pub closed spec fn patterns(self) -> Seq<Seq<char>> {
        strings_view(self.cpp_patterns@)
    }

    /// A detector with the characteristic patterns of C++.
    pub fn new() -> (d: Self)
        ensures
            d.patterns() == seq!["#include "@, "int main("@, "std::"@, "class "@, "public:"@, "private:"@, "template<"@, "namespace "@],
    {
        let d = CppDetector {
            cpp_patterns: vec![
                "#include ".to_string(),
                "int main(".to_string(),
                "std::".to_string(),
                "class ".to_string(),
                "public:".to_string(),
                "private:".to_string(),
                "template<".to_string(),
                "namespace ".to_string(),
            ],
        };
        assert(d.patterns() =~= seq!["#include "@, "int main("@, "std::"@, "class "@, "public:"@, "private:"@, "template<"@, "namespace "@]);
        d
    }
}

impl LanguageDetector for CppDetector {
    fn detect_language(&self, text: &str) -> (r: DetectionScore)
        ensures
            r.matches == count_hits(text@, self.patterns()),
            r.total == self.patterns().len(),
            r.matches <= r.total,
    {
        score(text, &self.cpp_patterns)
    }
}

/// C++ highlighter.
pub struct CppHighlighter {
    cpp_keywords: Vec<String>,
}

impl CppHighlighter {
    /// Its keywords.
    pub closed spec fn keywords(self) -> Seq<Seq<char>> {
        strings_view(self.cpp_keywords@)
    }

    /// A highlighter for the keywords of C++.
    pub fn new() -> (h: Self)
        ensures
            h.keywords() == seq!["int"@, "void"@, "class"@, "public"@, "private"@, "template"@, "namespace"@, "std"@],
    {
        let h = CppHighlighter {
            cpp_keywords: vec![
                "int".to_string(),
                "void".to_string(),
                "class".to_string(),
                "public".to_string(),
                "private".to_string(),
                "template".to_string(),
                "namespace".to_string(),
                "std".to_string(),
            ],
        };
        assert(h.keywords() =~= seq!["int"@, "void"@, "class"@, "public"@, "private"@, "template"@, "namespace"@, "std"@]);
        h
    }
}

impl SyntaxHighlighter for CppHighlighter {
    /// No highlights yet: the C++ highlighter marks nothing.
    fn highlight_syntax(&self, text: &str) -> (r: Vec<HighlightInfo>)
        ensures
            r.len() == 0,
    {
        Vec::new()
    }
}

/// Go detector.
pub struct GoDetector {
    go_patterns: Vec<String>,
}

impl GoDetector {
    /// Its patterns.
    pub closed spec fn patterns(self) -> Seq<Seq<char>> {
        strings_view(self.go_patterns@)
    }

    /// A detector with the characteristic patterns of Go.
    pub fn new() -> (d: Self)
        ensures
            d.patterns() == seq!["package "@, "import "@, "func "@, "var "@, "const "@, "type "@, "struct "@, "fmt."@],
    {
        let d = GoDetector {
            go_patterns: vec![
                "package ".to_string(),
                "import ".to_string(),
                "func ".to_string(),
                "var ".to_string(),
                "const ".to_string(),
                "type ".to_string(),
                "struct ".to_string(),
                "fmt.".to_string(),
            ],
        };
        assert(d.patterns() =~= seq!["package "@, "import "@, "func "@, "var "@, "const "@, "type "@, "struct "@, "fmt."@]);
        d
    }
}

impl LanguageDetector for GoDetector {
    fn detect_language(&self, text: &str) -> (r: DetectionScore)
        ensures
            r.matches == count_hits(text@, self.patterns()),
            r.total == self.patterns().len(),
            r.matches <= r.total,
    {
        score(text, &self.go_patterns)
    }
}

/// Go highlighter.
pub struct GoHighlighter {
    go_keywords: Vec<String>,
}

impl GoHighlighter {
    /// Its keywords.
    pub closed spec fn keywords(self) -> Seq<Seq<char>> {
        strings_view(self.go_keywords@)
    }

    /// A highlighter for the keywords of Go.
    pub fn new() -> (h: Self)
        ensures
            h.keywords() == seq!["func"@, "var"@, "const"@, "type"@, "struct"@, "interface"@, "package"@, "import"@],
    {
        let h = GoHighlighter {
            go_keywords: vec![
                "func".to_string(),
                "var".to_string(),
                "const".to_string(),
                "type".to_string(),
                "struct".to_string(),
                "interface".to_string(),
                "package".to_string(),
                "import".to_string(),
            ],
        };
        assert(h.keywords() =~= seq!["func"@, "var"@, "const"@, "type"@, "struct"@, "interface"@, "package"@, "import"@]);
        h
    }
}

impl SyntaxHighlighter for GoHighlighter {
    /// No highlights yet: the Go highlighter marks nothing.
    fn highlight_syntax(&self, text: &str) -> (r: Vec<HighlightInfo>)
        ensures
            r.len() == 0,
    {
        Vec::new()
    }
}

} // verus!
