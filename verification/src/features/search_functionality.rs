//! Search: building the pattern of a search, finding its matches, and
//! placing each match by line and column the way `str::lines` counts them.
use crate::advanced::SearchMode;
use crate::stamps::{by_time, new_uuid, same_uuid, time_order, utc_now_millis};
use vstd::prelude::*;
use vstd::string::*;
use vstd::utf8::*;

verus! {

/// A match of a search.
#[derive(Debug)]
pub struct SearchMatch {
    /// Start offset
    pub start: usize,
    /// End offset
    pub end: usize,
    /// The text matched
    pub matched_text: String,
    /// Line number
    pub line_number: usize,
    /// Column number
    pub column_number: usize,
}

/// Search states.
#[derive(Debug, Clone, Copy, PartialEq, Eq, Structural)]
pub enum SearchStatus {
    /// Running
    Running,
    /// Done
    Completed,
    /// Cancelled
    Cancelled,
    /// Failed
    Error,
}

/// Search configuration.
#[derive(Debug, Clone, Copy)]
pub struct SearchConfig {
    /// Enable search
    pub enable_search: bool,
    /// Highlight matches
    pub enable_highlighting: bool,
    /// Maximum search history
    pub max_search_history: usize,
    /// Maximum number of results
    pub max_search_results: usize,
    /// Search timeout
    pub search_timeout: u32,
    /// Match case
    pub case_sensitive: bool,
    /// Match whole words
    pub whole_word: bool,
}

/// The number of newline bytes in `b`.
pub open spec fn newline_count(b: Seq<u8>) -> nat
    decreases b.len(),
{
    if b.len() == 0 {
        0
    } else {
        newline_count(b.drop_last()) + if b.last() == 10u8 {
            1nat
        } else {
            0nat
        }
    }
}

/// Where the last line of `b` starts: just after its last newline, or 0.
pub open spec fn line_start(b: Seq<u8>) -> int
    decreases b.len(),
{
    if b.len() == 0 {
        0
    } else if b.last() == 10u8 {
        b.len() as int
    } else {
        line_start(b.drop_last())
    }
}

/// How many lines `str::lines` yields for text with bytes `b`: one per
/// newline, and one more for text after the last newline.
pub open spec fn line_count(b: Seq<u8>) -> nat {
    if b.len() == 0 {
        0
    } else if b.last() == 10u8 {
        newline_count(b)
    } else {
        newline_count(b) + 1
    }
}

/// The byte length of the last line `str::lines` yields for nonempty text
/// with bytes `b`; a line ended by `\r\n` loses its `\r`.
pub open spec fn last_line_len(b: Seq<u8>) -> int {
    if b.len() > 0 && b.last() == 10u8 {
        let body = b.drop_last();
        let piece = body.subrange(line_start(body), body.len() as int);
        if piece.len() > 0 && piece.last() == 13u8 {
            piece.len() - 1
        } else {
            piece.len() as int
        }
    } else {
        b.len() - line_start(b)
    }
}

/// The line number given to a match at byte `pos` of text with bytes `b`:
/// one more than the number of lines before it.
pub open spec fn line_number_at(b: Seq<u8>, pos: int) -> int {
    line_count(b.subrange(0, pos)) + 1int
}

/// The column number given to a match at byte `pos` of text with bytes
/// `b`: one more than the length of the last line before it, 1 when nothing
/// is before it.
pub open spec fn column_number_at(b: Seq<u8>, pos: int) -> int {
    if pos == 0 {
        1
    } else {
        last_line_len(b.subrange(0, pos)) + 1
    }
}

/// Line and column of byte `pos` of `b`.
fn line_and_column(b: &[u8], pos: usize) -> (r: (usize, usize))
    requires
        pos <= b@.len(),
        pos < usize::MAX,
    ensures
        r.0 == line_number_at(b@, pos as int),
        r.1 == column_number_at(b@, pos as int),
{
    let mut nl: usize = 0;
    let mut ls: usize = 0;
    let mut ps: usize = 0;
    let mut i: usize = 0;
    while i < pos
        invariant
            i <= pos <= b@.len(),
            pos < usize::MAX,
            nl <= i,
            nl == newline_count(b@.subrange(0, i as int)),
            ls == line_start(b@.subrange(0, i as int)),
            ls <= i,
            ps <= ls,
            ls > 0 ==> ps < ls,
            i > 0 && b@[i - 1] != 10u8 ==> nl < i,
            ls > 0 ==> ps == line_start(b@.subrange(0, ls - 1)),
        decreases pos - i,
    {
        assert(b@.subrange(0, i + 1).drop_last() =~= b@.subrange(0, i as int));
        if b[i] == 10u8 {
            ps = ls;
            ls = i + 1;
        }
        nl = if b[i] == 10u8 {
            nl + 1
        } else {
            nl
        };
        i = i + 1;
    }
    let ghost pre = b@.subrange(0, pos as int);
    if pos == 0 {
        assert(pre.len() == 0);
        (1, 1)
    } else if b[pos - 1] == 10u8 {
        let ghost body = pre.drop_last();
        assert(body =~= b@.subrange(0, pos - 1));
        assert(ls == pos);
        let mut len: usize = pos - 1 - ps;
        if len > 0 && b[pos - 2] == 13u8 {
            len = len - 1;
        }
        proof {
            let piece = body.subrange(line_start(body), body.len() as int);
            assert(piece.len() == pos - 1 - ps);
            if pos - 1 - ps > 0 {
                assert(piece.last() == b@[pos - 2]);
            }
        }
        (nl + 1, len + 1)
    } else {
        (nl + 2, pos - ls + 1)
    }
}

/// The line number a search gives a match at byte `position` of `text`.
pub fn calculate_line_number(text: &str, position: usize) -> (n: usize)
    requires
        is_char_boundary(text.spec_bytes(), position as int),
        position < usize::MAX,
    ensures
        n == line_number_at(text.spec_bytes(), position as int),
{
    let b = text.as_bytes();
    proof {
        encode_utf8_valid_utf8(text@);
        lemma_boundary_in_range(text.spec_bytes(), position as int);
    }
    line_and_column(b, position).0
}

/// The column number a search gives a match at byte `position` of `text`.
pub fn calculate_column_number(text: &str, position: usize) -> (n: usize)
    requires
        is_char_boundary(text.spec_bytes(), position as int),
        position < usize::MAX,
    ensures
        n == column_number_at(text.spec_bytes(), position as int),
{
    let b = text.as_bytes();
    proof {
        encode_utf8_valid_utf8(text@);
        lemma_boundary_in_range(text.spec_bytes(), position as int);
    }
    line_and_column(b, position).1
}

/// A character boundary of the bytes of a text lies within them.
proof fn lemma_boundary_in_range(b: Seq<u8>, i: int)
    requires
        valid_utf8(b),
        is_char_boundary(b, i),
    ensures
        0 <= i <= b.len(),
    decreases b.len(),
{
    reveal_with_fuel(is_char_boundary, 2);
}

/// The regular expression type of the `regex` crate.
#[verifier::external_type_specification]
#[verifier::external_body]
pub struct ExRegex(regex::Regex);

/// The error `regex::Regex::new` gives for a pattern it cannot compile.
#[verifier::external_type_specification]
#[verifier::external_body]
pub struct ExRegexError(regex::Error);

/// Whether `c` means something in a regular expression, the characters that
/// `regex::escape` puts a backslash before.
pub open spec fn is_regex_meta(c: char) -> bool {
    c == '\\' || c == '.' || c == '+' || c == '*' || c == '?' || c == '(' || c == ')' || c == '|'
        || c == '[' || c == ']' || c == '{' || c == '}' || c == '^' || c == '$' || c == '#'
        || c == '&' || c == '-' || c == '~'
}

/// `s` with a backslash before each character of `is_regex_meta`.
pub open spec fn regex_escaped(s: Seq<char>) -> Seq<char>
    decreases s.len(),
{
    if s.len() == 0 {
        seq![]
    } else {
        regex_escaped(s.drop_last()) + if is_regex_meta(s.last()) {
            seq!['\\', s.last()]
        } else {
            seq![s.last()]
        }
    }
}

/// `regex::escape`, which (through `regex_syntax::escape_into`) pushes each
/// character of `text` in order, with a backslash before each one that
/// `regex_syntax::is_meta_character` accepts; the contract states exactly
/// that.
#[verifier::external_body]
fn regex_escape(text: &str) -> (s: String)
    ensures
        s@ == regex_escaped(text@),
{
    regex::escape(text)
}

/// Whether `regex::Regex::new` accepts `pattern`.
pub uninterp spec fn regex_compiles(pattern: Seq<char>) -> bool;

/// `regex::Regex::new`: compiles `pattern`. Whether it succeeds is a
/// function of the pattern alone, named `regex_compiles`; the contract says
/// nothing more of the compiled value, which is opaque here.
#[verifier::external_body]
fn regex_new(pattern: &str) -> (r: Result<regex::Regex, regex::Error>)
    ensures
        r is Ok <==> regex_compiles(pattern@),
{
    regex::Regex::new(pattern)
}

/// The text of the regular expression a search in `mode` for `query` uses:
/// the query itself for a regular-expression search, else the query escaped,
/// behind `(?i)` to ignore case, or between `\b`s for whole words.
pub open spec fn search_pattern_text(query: Seq<char>, mode: SearchMode) -> Seq<char> {
    match mode {
        SearchMode::Normal => regex_escaped(query),
        SearchMode::Regex => query,
        SearchMode::CaseInsensitive => "(?i)"@ + regex_escaped(query),
        SearchMode::WordBoundary => "\\b"@ + regex_escaped(query) + "\\b"@,
    }
}

/// The regular expression text of a search in `mode` for `query`.
pub fn search_pattern(query: &str, mode: SearchMode) -> (p: String)
    ensures
        p@ == search_pattern_text(query@, mode),
{
    match mode {
        SearchMode::Normal => regex_escape(query),
        SearchMode::Regex => query.to_string(),
        SearchMode::CaseInsensitive => {
            let mut p = String::from_str("(?i)");
            let e = regex_escape(query);
            p.append(e.as_str());
            p
        },
        SearchMode::WordBoundary => {
            let mut p = String::from_str("\\b");
            let e = regex_escape(query);
            p.append(e.as_str());
            p.append("\\b");
            p
        },
    }
}

/// Why a search could not be set up.
#[derive(Debug, Clone, Copy, PartialEq, Eq, Structural)]
pub enum SearchError {
    /// The regular expression of the search does not compile
    InvalidPattern,
    /// Search is turned off
    Disabled,
}

/// A compiled regular expression, kept with the text it was compiled from.
pub struct SearchPattern {
    source: String,
    regex: regex::Regex,
}

impl View for SearchPattern {
    type V = Seq<char>;

    /// The text the expression was compiled from.
    closed spec fn view(&self) -> Seq<char> {
        self.source@
    }
}

impl SearchPattern {
    /// Compiles `pattern`; fails exactly when `regex::Regex::new` refuses it.
    pub fn compile(pattern: &str) -> (r: Result<Self, SearchError>)
        ensures
            match r {
                Ok(p) => regex_compiles(pattern@) && p@ == pattern@,
                Err(e) => !regex_compiles(pattern@) && e == SearchError::InvalidPattern,
            },
    {
        match regex_new(pattern) {
            Ok(regex) => Ok(SearchPattern { source: pattern.to_string(), regex }),
            Err(_) => Err(SearchError::InvalidPattern),
        }
    }
}

/// The pattern of a search in `mode` for `query`, compiled; fails exactly
/// when that text does not compile (a regular-expression search with a bad
/// expression; escaped text always compiles in practice).
pub fn build_search_pattern(query: &str, mode: SearchMode) -> (r: Result<SearchPattern, SearchError>)
    ensures
        match r {
            Ok(p) => p@ == search_pattern_text(query@, mode) && regex_compiles(p@),
            Err(e) => !regex_compiles(search_pattern_text(query@, mode)) && e
                == SearchError::InvalidPattern,
        },
{
    let text = search_pattern(query, mode);
    SearchPattern::compile(text.as_str())
}

/// Byte spans, each within the text, from a character boundary to a
/// character boundary, in order and not overlapping.
pub open spec fn spans_well_placed(b: Seq<u8>, spans: Seq<(usize, usize)>) -> bool {
    &&& forall|i: int|
        0 <= i < spans.len() ==> {
            &&& spans[i].0 <= spans[i].1 <= b.len()
            &&& is_char_boundary(b, spans[i].0 as int)
            &&& is_char_boundary(b, spans[i].1 as int)
        }
    &&& forall|i: int| 0 < i < spans.len() ==> spans[i - 1].1 <= #[trigger] spans[i].0
}

/// The byte spans of the matches of the regular expression with text
/// `pattern` in `haystack`, in order.
pub uninterp spec fn regex_match_spans(pattern: Seq<char>, haystack: Seq<char>) -> Seq<(usize, usize)>;

/// `regex::Regex::find_iter`, each match taken by its `start()` and `end()`.
/// The spans are named `regex_match_spans` of the pattern's text and the
/// haystack; the crate documents that each start is at most its end, both
/// are byte offsets on UTF-8 boundaries of the haystack, and the matches
/// come one after the other without overlapping, which is all the contract
/// adds.
#[verifier::external_body]
pub(crate) fn find_spans(pattern: &SearchPattern, haystack: &str) -> (r: Vec<(usize, usize)>)
    ensures
        r@ == regex_match_spans(pattern@, haystack@),
        spans_well_placed(haystack.spec_bytes(), r@),
{
    pattern.regex.find_iter(haystack).map(|m| (m.start(), m.end())).collect()
}

/// `m` is the match of the byte span `span` of text with bytes `b`: its
/// offsets, the text in between, and the line and column of its start.
pub open spec fn match_at(b: Seq<u8>, span: (usize, usize), m: SearchMatch) -> bool {
    &&& m.start == span.0
    &&& m.end == span.1
    &&& encode_utf8(m.matched_text@) == b.subrange(span.0 as int, span.1 as int)
    &&& m.line_number == line_number_at(b, span.0 as int)
    &&& m.column_number == column_number_at(b, span.0 as int)
}

/// A span between two character boundaries of a text also ends on a
/// character boundary of what follows its start.
proof fn lemma_boundary_after(b: Seq<u8>, s: int, e: int)
    requires
        valid_utf8(b),
        is_char_boundary(b, s),
        is_char_boundary(b, e),
        0 <= s <= e <= b.len(),
    ensures
        valid_utf8(b.subrange(s, b.len() as int)),
        is_char_boundary(b.subrange(s, b.len() as int), e - s),
{
    let rest = b.subrange(s, b.len() as int);
    valid_utf8_split(b, s);
    if e == b.len() {
        is_char_boundary_start_end_of_seq(rest);
    } else {
        is_char_boundary_iff_not_is_continuation_byte(b, e);
        is_char_boundary_iff_not_is_continuation_byte(rest, e - s);
    }
}

/// The text between bytes `start` and `end` of `text`, both character
/// boundaries.
pub(crate) fn span_text(text: &str, start: usize, end: usize) -> (s: String)
    requires
        start <= end,
        is_char_boundary(text.spec_bytes(), start as int),
        is_char_boundary(text.spec_bytes(), end as int),
    ensures
        encode_utf8(s@) == text.spec_bytes().subrange(start as int, end as int),
{
    let ghost b = text.spec_bytes();
    proof {
        encode_utf8_valid_utf8(text@);
        lemma_boundary_in_range(b, end as int);
        lemma_boundary_after(b, start as int, end as int);
    }
    let (_, rest) = text.split_at(start);
    let (piece, _) = rest.split_at(end - start);
    proof {
        assert(rest.spec_bytes() =~= b.subrange(start as int, b.len() as int));
        assert(piece.spec_bytes() =~= b.subrange(start as int, end as int));
    }
    piece.to_string()
}

/// The matches of `text` at the byte spans `spans`, as a search reports
/// them.
pub fn matches_at_spans(text: &str, spans: &Vec<(usize, usize)>) -> (r: Vec<SearchMatch>)
    requires
        spans_well_placed(text.spec_bytes(), spans@),
        text.spec_bytes().len() < usize::MAX,
    ensures
        r.len() == spans.len(),
        forall|i: int| 0 <= i < r.len() ==> match_at(text.spec_bytes(), spans@[i], #[trigger] r@[i]),
{
    let ghost b = text.spec_bytes();
    proof {
        encode_utf8_valid_utf8(text@);
    }
    let bytes = text.as_bytes();
    let mut r: Vec<SearchMatch> = Vec::new();
    let mut k: usize = 0;
    while k < spans.len()
        invariant
            k <= spans.len(),
            b == text.spec_bytes(),
            bytes@ == b,
            valid_utf8(b),
            b.len() < usize::MAX,
            spans_well_placed(b, spans@),
            r.len() == k,
            forall|i: int| 0 <= i < k ==> match_at(b, spans@[i], #[trigger] r@[i]),
        decreases spans.len() - k,
    {
        let (start, end) = spans[k];
        let matched_text = span_text(text, start, end);
        let lc = line_and_column(bytes, start);
        let m = SearchMatch {
            start,
            end,
            matched_text,
            line_number: lc.0,
            column_number: lc.1,
        };
        r.push(m);
        k = k + 1;
    }
    r
}

/// The matches of `pattern` in `text`, in order, each placed by line and
/// column.
pub fn execute_search(text: &str, pattern: &SearchPattern) -> (r: Vec<SearchMatch>)
    requires
        text.spec_bytes().len() < usize::MAX,
    ensures
        r.len() == regex_match_spans(pattern@, text@).len(),
        forall|i: int|
            0 <= i < r.len() ==> match_at(
                text.spec_bytes(),
                regex_match_spans(pattern@, text@)[i],
                #[trigger] r@[i],
            ),
{
    let spans = find_spans(pattern, text);
    matches_at_spans(text, &spans)
}

/// Searches `text` for `query` in `mode`: the matches in order, or the error
/// when the pattern does not compile.
pub fn find_matches(text: &str, query: &str, mode: SearchMode) -> (r: Result<Vec<SearchMatch>, SearchError>)
    requires
        text.spec_bytes().len() < usize::MAX,
    ensures
        match r {
            Ok(ms) => regex_compiles(search_pattern_text(query@, mode)) && ms.len()
                == regex_match_spans(search_pattern_text(query@, mode), text@).len() && forall|
                i: int,
            |
                0 <= i < ms.len() ==> match_at(
                    text.spec_bytes(),
                    regex_match_spans(search_pattern_text(query@, mode), text@)[i],
                    #[trigger] ms@[i],
                ),
            Err(e) => !regex_compiles(search_pattern_text(query@, mode)) && e
                == SearchError::InvalidPattern,
        },
{
    match build_search_pattern(query, mode) {
        Ok(p) => Ok(execute_search(text, &p)),
        Err(e) => Err(e),
    }
}

/// `a` and `b` are the same match, the text compared by content.
pub open spec fn same_match(a: SearchMatch, b: SearchMatch) -> bool {
    &&& a.start == b.start
    &&& a.end == b.end
    &&& a.matched_text@ == b.matched_text@
    &&& a.line_number == b.line_number
    &&& a.column_number == b.column_number
}

impl Clone for SearchMatch {
    /// A copy of the match.
    fn clone(&self) -> (c: Self)
        ensures
            same_match(c, *self),
    {
        SearchMatch {
            start: self.start,
            end: self.end,
            matched_text: self.matched_text.clone(),
            line_number: self.line_number,
            column_number: self.column_number,
        }
    }
}

/// What a search found.
#[derive(Debug)]
pub struct SearchResult {
    /// Identifier
    pub id: uuid::Uuid,
    /// The query
    pub query: String,
    /// How it searched
    pub mode: SearchMode,
    /// The matches, in order
    pub matches: Vec<SearchMatch>,
    /// How many matches
    pub total_matches: usize,
    /// When, in milliseconds since the Unix epoch
    pub created_at: i64,
}

/// `a` and `b` are the same result, texts compared by content.
pub open spec fn same_search_result(a: SearchResult, b: SearchResult) -> bool {
    &&& a.id == b.id
    &&& a.query@ == b.query@
    &&& a.mode == b.mode
    &&& a.matches.len() == b.matches.len()
    &&& forall|i: int| 0 <= i < a.matches.len() ==> same_match(#[trigger] a.matches@[i], b.matches@[i])
    &&& a.total_matches == b.total_matches
    &&& a.created_at == b.created_at
}

impl Clone for SearchResult {
    /// A copy of the result.
    fn clone(&self) -> (c: Self)
        ensures
            same_search_result(c, *self),
    {
        let mut matches: Vec<SearchMatch> = Vec::new();
        let mut k: usize = 0;
        while k < self.matches.len()
            invariant
                k <= self.matches.len(),
                matches.len() == k,
                forall|i: int| 0 <= i < k ==> same_match(#[trigger] matches@[i], self.matches@[i]),
            decreases self.matches.len() - k,
        {
            matches.push(self.matches[k].clone());
            k = k + 1;
        }
        SearchResult {
            id: self.id,
            query: self.query.clone(),
            mode: self.mode,
            matches,
            total_matches: self.total_matches,
            created_at: self.created_at,
        }
    }
}

/// A search that was made.
#[derive(Debug)]
pub struct SearchHistory {
    /// Identifier, that of its result
    pub id: uuid::Uuid,
    /// The query
    pub query: String,
    /// How it searched
    pub mode: SearchMode,
    /// When, in milliseconds since the Unix epoch
    pub created_at: i64,
    /// How long it took, in milliseconds
    pub execution_time: u64,
}

/// `a` and `b` are the same history entry, the query compared by content.
pub open spec fn same_search(a: SearchHistory, b: SearchHistory) -> bool {
    &&& a.id == b.id
    &&& a.query@ == b.query@
    &&& a.mode == b.mode
    &&& a.created_at == b.created_at
    &&& a.execution_time == b.execution_time
}

impl Clone for SearchHistory {
    /// A copy of the entry.
    fn clone(&self) -> (c: Self)
        ensures
            same_search(c, *self),
    {
        SearchHistory {
            id: self.id,
            query: self.query.clone(),
            mode: self.mode,
            created_at: self.created_at,
            execution_time: self.execution_time,
        }
    }
}

/// `r` is the result of searching `text` for `query` in `mode`, with
/// identifier `id`.
pub open spec fn result_of(r: SearchResult, text: Seq<u8>, chars: Seq<char>, query: Seq<char>, mode: SearchMode) -> bool {
    let spans = regex_match_spans(search_pattern_text(query, mode), chars);
    &&& r.query@ == query
    &&& r.mode == mode
    &&& r.matches.len() == spans.len()
    &&& forall|i: int| 0 <= i < spans.len() ==> match_at(text, spans[i], #[trigger] r.matches@[i])
    &&& r.total_matches == spans.len()
}

/// The index of the first entry of `h` made earliest.
pub open spec fn is_oldest(h: Seq<SearchHistory>, j: int) -> bool {
    &&& 0 <= j < h.len()
    &&& forall|i: int| 0 <= i < h.len() ==> h[j].created_at <= #[trigger] h[i].created_at
}

/// The index of the first result of `rs` with identifier `id`.
pub open spec fn result_index(rs: Seq<SearchResult>, id: uuid::Uuid) -> Option<int> {
    if exists|i: int| 0 <= i < rs.len() && rs[i].id == id {
        Some(choose|i: int| 0 <= i < rs.len() && rs[i].id == id && forall|j: int| 0 <= j < i ==> rs[j].id != id)
    } else {
        None
    }
}

/// Searches text and keeps the results and a bounded history of searches.
pub struct SearchManager {
    search_history: Vec<SearchHistory>,
    search_results: Vec<SearchResult>,
    search_config: SearchConfig,
}

impl SearchManager {
    /// The searches made, in the order they were made.
    pub closed spec fn history(self) -> Seq<SearchHistory> {
        self.search_history@
    }

    /// The results kept, in the order they were found.
    pub closed spec fn results(self) -> Seq<SearchResult> {
        self.search_results@
    }

    /// The search configuration.
    pub closed spec fn config(self) -> SearchConfig {
        self.search_config
    }

    /// The history holds at most `max_search_history` searches.
    pub closed spec fn wf(self) -> bool {
        self.search_history@.len() <= self.search_config.max_search_history
    }

    /// A manager with no history or results; search and highlighting on, at
    /// most 100 searches kept in the history and 1000 results, a 30 second
    /// timeout, ignoring case and not matching whole words only.
    pub fn new() -> (m: Self)
        ensures
            m.wf(),
            m.history().len() == 0,
            m.results().len() == 0,
            m.config() == (SearchConfig {
                enable_search: true,
                enable_highlighting: true,
                max_search_history: 100,
                max_search_results: 1000,
                search_timeout: 30,
                case_sensitive: false,
                whole_word: false,
            }),
    {
        SearchManager {
            search_history: Vec::new(),
            search_results: Vec::new(),
            search_config: SearchConfig {
                enable_search: true,
                enable_highlighting: true,
                max_search_history: 100,
                max_search_results: 1000,
                search_timeout: 30,
                case_sensitive: false,
                whole_word: false,
            },
        }
    }

    /// Checks that search is turned on.
    pub fn initialize(&self) -> (r: Result<(), SearchError>)
        ensures
            r is Ok <==> self.config().enable_search,
            r is Err ==> r == Err::<(), SearchError>(SearchError::Disabled),
    {
        if !self.search_config.enable_search {
            return Err(SearchError::Disabled);
        }
        Ok(())
    }

    /// Drops the earliest search when the history holds more than
    /// `max_search_history`.
    fn check_history_size(&mut self)
        requires
            old(self).search_history@.len() <= old(self).search_config.max_search_history + 1,
        ensures
            final(self).wf(),
            final(self).results() == old(self).results(),
            final(self).config() == old(self).config(),
            old(self).history().len() <= old(self).config().max_search_history ==> final(self).history()
                == old(self).history(),
            old(self).history().len() > old(self).config().max_search_history ==> exists|j: int|
                is_oldest(old(self).history(), j) && final(self).history() == old(self).history().remove(j),
    {
        if self.search_history.len() > self.search_config.max_search_history {
            let mut j: usize = 0;
            let mut k: usize = 1;
            while k < self.search_history.len()
                invariant
                    1 <= k <= self.search_history.len(),
                    j < k,
                    forall|i: int| 0 <= i < k ==> self.search_history@[j as int].created_at <= #[trigger] self.search_history@[i].created_at,
                decreases self.search_history.len() - k,
            {
                if self.search_history[k].created_at < self.search_history[j].created_at {
                    j = k;
                }
                k = k + 1;
            }
            proof {
                assert(is_oldest(old(self).history(), j as int));
            }
            self.search_history.remove(j);
        }
    }

    /// Searches `text` for `query` in `mode`: the result is kept after the
    /// others, the search joins the history (the earliest one dropped when
    /// the history is full), and the result's identifier is returned. Fails,
    /// changing nothing, when the search's pattern does not compile.
    pub fn search_text(&mut self, text: &str, query: &str, mode: SearchMode) -> (r: Result<uuid::Uuid, SearchError>)
        requires
            old(self).wf(),
            text.spec_bytes().len() < usize::MAX,
        ensures
            final(self).wf(),
            final(self).config() == old(self).config(),
            match r {
                Err(e) => e == SearchError::InvalidPattern && !regex_compiles(search_pattern_text(query@, mode))
                    && final(self).history() == old(self).history() && final(self).results() == old(self).results(),
                Ok(id) => {
                    &&& regex_compiles(search_pattern_text(query@, mode))
                    &&& final(self).results().len() == old(self).results().len() + 1
                    &&& forall|i: int| 0 <= i < old(self).results().len() ==> #[trigger] final(self).results()[i] == old(self).results()[i]
                    &&& final(self).results().last().id == id
                    &&& result_of(final(self).results().last(), text.spec_bytes(), text@, query@, mode)
                    &&& history_after_search(old(self).history(), final(self).history(), id, query@, mode, old(self).config().max_search_history)
                },
            },
    {
        let id = new_uuid();
        let now = utc_now_millis();
        let pattern = match build_search_pattern(query, mode) {
            Ok(p) => p,
            Err(e) => {
                return Err(e);
            },
        };
        let matches = execute_search(text, &pattern);
        let total_matches = matches.len();
        self.search_results.push(
            SearchResult { id, query: query.to_string(), mode, matches, total_matches, created_at: now },
        );
        self.search_history.push(
            SearchHistory { id, query: query.to_string(), mode, created_at: now, execution_time: 0 },
        );
        self.check_history_size();
        Ok(id)
    }

    /// Searches scrollback text as `search_text` searches text.
    pub fn search_scrollback(&mut self, scrollback_text: &str, query: &str, mode: SearchMode) -> (r: Result<uuid::Uuid, SearchError>)
        requires
            old(self).wf(),
            scrollback_text.spec_bytes().len() < usize::MAX,
        ensures
            final(self).wf(),
            final(self).config() == old(self).config(),
            match r {
                Err(e) => e == SearchError::InvalidPattern && !regex_compiles(search_pattern_text(query@, mode))
                    && final(self).history() == old(self).history() && final(self).results() == old(self).results(),
                Ok(id) => {
                    &&& regex_compiles(search_pattern_text(query@, mode))
                    &&& final(self).results().len() == old(self).results().len() + 1
                    &&& forall|i: int| 0 <= i < old(self).results().len() ==> #[trigger] final(self).results()[i] == old(self).results()[i]
                    &&& final(self).results().last().id == id
                    &&& result_of(final(self).results().last(), scrollback_text.spec_bytes(), scrollback_text@, query@, mode)
                    &&& history_after_search(old(self).history(), final(self).history(), id, query@, mode, old(self).config().max_search_history)
                },
            },
    {
        self.search_text(scrollback_text, query, mode)
    }

    /// A copy of result `search_id`, if there is one.
    pub fn get_search_result(&self, search_id: uuid::Uuid) -> (r: Option<SearchResult>)
        ensures
            match result_index(self.results(), search_id) {
                None => r is None,
                Some(k) => r matches Some(x) && same_search_result(x, self.results()[k]),
            },
    {
        let mut k: usize = 0;
        while k < self.search_results.len()
            invariant
                k <= self.search_results.len(),
                forall|j: int| 0 <= j < k ==> (#[trigger] self.search_results@[j]).id != search_id,
            decreases self.search_results.len() - k,
        {
            if same_uuid(&self.search_results[k].id, &search_id) {
                proof {
                    let rs = self.results();
                    let c = choose|i: int| 0 <= i < rs.len() && rs[i].id == search_id && forall|j: int|
                        0 <= j < i ==> rs[j].id != search_id;
                    assert(rs[k as int].id == search_id);
                    assert(c == k);
                }
                return Some(self.search_results[k].clone());
            }
            k = k + 1;
        }
        None
    }

    /// The times of the results, in the order they were found.
    pub open spec fn result_times(self) -> Seq<i64> {
        self.results().map_values(|e: SearchResult| e.created_at)
    }

    /// Copies of the results, from the earliest to the latest, results
    /// found at the same time in the order they were found.
    pub fn get_all_search_results(&self) -> (r: Vec<SearchResult>)
        ensures
            r.len() == self.results().len(),
            exists|idx: Seq<usize>|
                #[trigger] by_time(self.result_times(), idx) && forall|a: int|
                    0 <= a < r.len() ==> same_search_result(#[trigger] r@[a], self.results()[idx[a] as int]),
    {
        let ghost keys_view = self.result_times();
        let mut keys: Vec<i64> = Vec::new();
        let mut k: usize = 0;
        while k < self.search_results.len()
            invariant
                k <= self.search_results.len(),
                keys_view == self.result_times(),
                keys@ == keys_view.take(k as int),
            decreases self.search_results.len() - k,
        {
            keys.push(self.search_results[k].created_at);
            k = k + 1;
            assert(keys@ =~= keys_view.take(k as int));
        }
        assert(keys_view.take(k as int) =~= keys_view);
        let order = time_order(&keys);
        let mut r: Vec<SearchResult> = Vec::new();
        let mut a: usize = 0;
        while a < order.len()
            invariant
                a <= order.len(),
                by_time(keys@, order@),
                keys@ == self.result_times(),
                r.len() == a,
                forall|b: int| 0 <= b < a ==> same_search_result(#[trigger] r@[b], self.results()[order@[b] as int]),
            decreases order.len() - a,
        {
            r.push(self.search_results[order[a]].clone());
            a = a + 1;
        }
        r
    }

    /// The times of the searches of the history, in the order they were made.
    pub open spec fn history_times(self) -> Seq<i64> {
        self.history().map_values(|e: SearchHistory| e.created_at)
    }

    /// Copies of the searches of the history, from the earliest to the
    /// latest, searches made at the same time in the order they were made.
    pub fn get_search_history(&self) -> (r: Vec<SearchHistory>)
        ensures
            r.len() == self.history().len(),
            exists|idx: Seq<usize>|
                #[trigger] by_time(self.history_times(), idx) && forall|a: int|
                    0 <= a < r.len() ==> same_search(#[trigger] r@[a], self.history()[idx[a] as int]),
    {
        let ghost keys_view = self.history_times();
        let mut keys: Vec<i64> = Vec::new();
        let mut k: usize = 0;
        while k < self.search_history.len()
            invariant
                k <= self.search_history.len(),
                keys_view == self.history_times(),
                keys@ == keys_view.take(k as int),
            decreases self.search_history.len() - k,
        {
            keys.push(self.search_history[k].created_at);
            k = k + 1;
            assert(keys@ =~= keys_view.take(k as int));
        }
        assert(keys_view.take(k as int) =~= keys_view);
        let order = time_order(&keys);
        let mut r: Vec<SearchHistory> = Vec::new();
        let mut a: usize = 0;
        while a < order.len()
            invariant
                a <= order.len(),
                by_time(keys@, order@),
                keys@ == self.history_times(),
                r.len() == a,
                forall|b: int| 0 <= b < a ==> same_search(#[trigger] r@[b], self.history()[order@[b] as int]),
            decreases order.len() - a,
        {
            r.push(self.search_history[order[a]].clone());
            a = a + 1;
        }
        r
    }

    /// Forgets every result.
    pub fn clear_search_results(&mut self)
        ensures
            final(self).results().len() == 0,
            final(self).history() == old(self).history(),
            final(self).config() == old(self).config(),
            old(self).wf() ==> final(self).wf(),
    {
        self.search_results = Vec::new();
    }

    /// Forgets every search of the history.
    pub fn clear_search_history(&mut self)
        ensures
            final(self).history().len() == 0,
            final(self).results() == old(self).results(),
            final(self).config() == old(self).config(),
            final(self).wf(),
    {
        self.search_history = Vec::new();
    }

    /// Forgets every result and search.
    pub fn shutdown(&mut self)
        ensures
            final(self).history().len() == 0,
            final(self).results().len() == 0,
            final(self).config() == old(self).config(),
            final(self).wf(),
    {
        self.clear_search_results();
        self.clear_search_history();
    }
}

/// `new` is search history `old` after a search `id` for `query` in `mode`
/// with at most `max` searches kept: the search at the end, and, when that
/// makes more than `max`, an earliest one dropped.
pub open spec fn history_after_search(
    old: Seq<SearchHistory>,
    new: Seq<SearchHistory>,
    id: uuid::Uuid,
    query: Seq<char>,
    mode: SearchMode,
    max: usize,
) -> bool {
    exists|h: SearchHistory| {
        &&& h.id == id && h.query@ == query && h.mode == mode && h.execution_time == 0
        &&& #[trigger] old.push(h).len() <= max ==> new == old.push(h)
        &&& old.push(h).len() > max ==> exists|j: int| is_oldest(old.push(h), j) && new == old.push(h).remove(j)
    }
}

} // verus!
