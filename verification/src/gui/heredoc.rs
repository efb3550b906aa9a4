//! Here-documents: `<<delimiter` detection, content collection and
//! variable expansion.
use crate::text::{
    alphanumeric, chars_of, chars_of_string, eq_chars, is_alphanumeric, is_ws,
    lemma_trim_clean, lemma_words_from_clean, push_char, split_whitespace_chars, string_of,
    trim_chars, trim_seq, words,
};
use vstd::prelude::*;
use vstd::string::*;

verus! {

/// Here-document state.
#[derive(Debug, Clone)]
pub struct HeredocState {
    /// Whether in heredoc mode
    pub heredoc_mode: bool,
    /// Heredoc delimiter
    pub heredoc_delimiter: String,
    /// Heredoc content being collected
    pub heredoc_content: String,
    /// Whether heredoc content should expand variables
    pub heredoc_expand_vars: bool,
}

impl Default for HeredocState {
    fn default() -> (s: Self)
        ensures
            !s.heredoc_mode,
            s.heredoc_delimiter@ == Seq::<char>::empty(),
            s.heredoc_content@ == Seq::<char>::empty(),
            !s.heredoc_expand_vars,
    {
        HeredocState {
            heredoc_mode: false,
            heredoc_delimiter: String::new(),
            heredoc_content: String::new(),
            heredoc_expand_vars: false,
        }
    }
}

/// A word that opens a here-document: `<<` followed by at least one
/// character.
pub open spec fn opens_heredoc(w: Seq<char>) -> bool {
    w.len() > 2 && w[0] == '<' && w[1] == '<'
}

/// The delimiter a here-document word names, and whether its content
/// expands variables: after `<<'` or `<<"` the text between the quotes (up
/// to the end of the word when the quote is not closed there) and no
/// expansion, else everything past `<<` and expansion.
pub open spec fn heredoc_of(w: Seq<char>) -> (Seq<char>, bool) {
    if w[2] == '\'' || w[2] == '"' {
        if w.len() > 3 && w.last() == w[2] {
            (w.subrange(3, w.len() - 1), false)
        } else {
            (w.skip(3), false)
        }
    } else {
        (w.skip(2), true)
    }
}

/// The first here-document word of `ws`, read as `heredoc_of` says.
pub open spec fn first_heredoc(ws: Seq<Seq<char>>) -> Option<(Seq<char>, bool)>
    decreases ws.len(),
{
    if ws.len() == 0 {
        None
    } else if opens_heredoc(ws[0]) {
        Some(heredoc_of(ws[0]))
    } else {
        first_heredoc(ws.drop_first())
    }
}

/// The here-document that a line of input opens, if any.
pub open spec fn heredoc_in(input: Seq<char>) -> Option<(Seq<char>, bool)> {
    first_heredoc(words(input))
}

/// The result of a detection as plain sequences.
pub open spec fn detection_view(r: Option<(String, bool)>) -> Option<(Seq<char>, bool)> {
    match r {
        Some((d, e)) => Some((d@, e)),
        None => None,
    }
}

/// A character that may stand in a variable name.
pub open spec fn name_char(c: char) -> bool {
    alphanumeric(c) || c == '_'
}

/// How many name characters follow from index `j` on.
pub open spec fn name_len(s: Seq<char>, j: int) -> nat
    decreases s.len() - j,
{
    if j < 0 || j >= s.len() || !name_char(s[j]) {
        0
    } else {
        1 + name_len(s, j + 1)
    }
}

/// A run of name characters stays within the text.
pub proof fn lemma_name_len_bound(s: Seq<char>, j: int)
    requires
        0 <= j <= s.len(),
    ensures
        j + name_len(s, j) <= s.len(),
    decreases s.len() - j,
{
    if j < s.len() && name_char(s[j]) {
        lemma_name_len_bound(s, j + 1);
    }
}

/// The value of variable `name` in `env`: the first entry with that name.
pub open spec fn env_lookup(env: Seq<(Seq<char>, Seq<char>)>, name: Seq<char>) -> Option<Seq<char>>
    decreases env.len(),
{
    if env.len() == 0 {
        None
    } else if env[0].0 == name {
        Some(env[0].1)
    } else {
        env_lookup(env.drop_first(), name)
    }
}

/// An environment as plain sequences.
pub open spec fn env_view(env: Seq<(String, String)>) -> Seq<(Seq<char>, Seq<char>)> {
    env.map_values(|e: (String, String)| (e.0@, e.1@))
}

/// `s[i..]` with each `$NAME` replaced by the value of `NAME` in `env`;
/// a name missing from `env` is kept as written, and a `$` that no name
/// follows stays.
pub open spec fn expand_from(s: Seq<char>, i: int, env: Seq<(Seq<char>, Seq<char>)>) -> Seq<char>
    decreases s.len() - i,
{
    if i < 0 || i >= s.len() {
        seq![]
    } else if s[i] == '$' {
        let n = name_len(s, i + 1);
        proof {
            lemma_name_len_bound(s, i + 1);
        }
        if n > 0 {
            let name = s.subrange(i + 1, i + 1 + n);
            (match env_lookup(env, name) {
                Some(v) => v,
                None => s.subrange(i, i + 1 + n),
            }) + expand_from(s, i + 1 + n, env)
        } else {
            seq!['$'] + expand_from(s, i + 1, env)
        }
    } else {
        seq![s[i]] + expand_from(s, i + 1, env)
    }
}

/// `s` with its variables expanded from `env`.
pub open spec fn expand_vars(s: Seq<char>, env: Seq<(Seq<char>, Seq<char>)>) -> Seq<char> {
    expand_from(s, 0, env)
}

/// The first here-document word of `ws`, where every word is free of white
/// space, names a delimiter free of white space.
proof fn lemma_first_heredoc_clean(ws: Seq<Seq<char>>)
    requires
        forall|k: int, j: int| 0 <= k < ws.len() && 0 <= j < ws[k].len() ==> !is_ws(#[trigger] ws[k][j]),
    ensures
        first_heredoc(ws) matches Some((d, e)) ==> trim_seq(d) == d,
    decreases ws.len(),
{
    if ws.len() > 0 {
        if opens_heredoc(ws[0]) {
            let w = ws[0];
            let d = heredoc_of(w).0;
            let quoted = w[2] == '\'' || w[2] == '"';
            let n = if quoted { 3int } else { 2int };
            let e = if quoted && w.len() > 3 && w.last() == w[2] { w.len() - 1 } else { w.len() as int };
            assert(d == w.subrange(n, e));
            assert forall|j: int| 0 <= j < d.len() implies !is_ws(#[trigger] d[j]) by {
                assert(d[j] == ws[0][j + n]);
            }
            lemma_trim_clean(d);
        } else {
            let rest = ws.drop_first();
            assert forall|k: int, j: int| 0 <= k < rest.len() && 0 <= j < rest[k].len() implies !is_ws(
                #[trigger] rest[k][j],
            ) by {
                assert(rest[k] == ws[k + 1]);
            }
            lemma_first_heredoc_clean(rest);
        }
    }
}

/// The delimiter a line opens a here-document with holds no white space,
/// so a later line that is the delimiter, with or without white space
/// around it, closes the here-document.
pub proof fn lemma_delimiter_line_closes(input: Seq<char>)
    ensures
        heredoc_in(input) matches Some((d, e)) ==> trim_seq(d) == d,
{
    lemma_words_from_clean(input, 0, seq![]);
    lemma_first_heredoc_clean(words(input));
}

impl HeredocState {
    /// Whether heredoc mode is on.
    pub fn is_heredoc(&self) -> (b: bool)
        ensures
            b == self.heredoc_mode,
    {
        self.heredoc_mode
    }

    /// Turns heredoc mode on or off.
    pub fn set_heredoc(&mut self, mode: bool)
        ensures
            *final(self) == (HeredocState { heredoc_mode: mode, ..*old(self) }),
    {
        self.heredoc_mode = mode;
    }

    /// Sets the delimiter.
    pub fn set_delimiter(&mut self, delimiter: String)
        ensures
            *final(self) == (HeredocState { heredoc_delimiter: delimiter, ..*old(self) }),
    {
        self.heredoc_delimiter = delimiter;
    }

    /// The delimiter.
    pub fn get_delimiter(&self) -> (d: String)
        ensures
            d@ == self.heredoc_delimiter@,
    {
        self.heredoc_delimiter.clone()
    }

    /// Sets the collected content.
    pub fn set_heredoc_content(&mut self, content: String)
        ensures
            *final(self) == (HeredocState { heredoc_content: content, ..*old(self) }),
    {
        self.heredoc_content = content;
    }

    /// The collected content.
    pub fn get_heredoc_content(&self) -> (c: String)
        ensures
            c@ == self.heredoc_content@,
    {
        self.heredoc_content.clone()
    }

    /// Sets whether the content expands variables.
    pub fn set_expand_vars(&mut self, expand: bool)
        ensures
            *final(self) == (HeredocState { heredoc_expand_vars: expand, ..*old(self) }),
    {
        self.heredoc_expand_vars = expand;
    }

    /// Whether the content expands variables.
    pub fn should_expand_vars(&self) -> (b: bool)
        ensures
            b == self.heredoc_expand_vars,
    {
        self.heredoc_expand_vars
    }

    /// Appends `content` and a newline to the collected content.
    pub fn add_heredoc_content(&mut self, content: String)
        ensures
            final(self).heredoc_content@ == old(self).heredoc_content@ + content@.push('\n'),
            final(self).heredoc_mode == old(self).heredoc_mode,
            final(self).heredoc_delimiter == old(self).heredoc_delimiter,
            final(self).heredoc_expand_vars == old(self).heredoc_expand_vars,
    {
        self.heredoc_content.append(content.as_str());
        push_char(&mut self.heredoc_content, '\n');
        assert(self.heredoc_content@ =~= old(self).heredoc_content@ + content@.push('\n'));
    }

    /// The here-document that `input` opens, if any.
    pub fn detect_heredoc(&self, input: &str) -> (r: Option<(String, bool)>)
        ensures
            detection_view(r) == heredoc_in(input@),
    {
        HeredocProcessor::detect_heredoc(input)
    }
}

/// Here-document processing.
pub struct HeredocProcessor;

impl HeredocProcessor {
    /// The here-document that `input` opens, if any: the first word
    /// (split at white space) that starts with `<<` and has more after it.
    pub fn detect_heredoc(input: &str) -> (r: Option<(String, bool)>)
        ensures
            detection_view(r) == heredoc_in(input@),
    {
        let chars = chars_of(input);
        let ws_vec = split_whitespace_chars(&chars);
        let ghost ws = ws_vec@.map_values(|w: Vec<char>| w@);
        let mut i: usize = 0;
        assert(ws.skip(0) =~= ws);
        while i < ws_vec.len()
            invariant
                i <= ws_vec@.len(),
                ws == ws_vec@.map_values(|w: Vec<char>| w@),
                ws == words(chars@),
                chars@ == input@,
                first_heredoc(ws) == first_heredoc(ws.skip(i as int)),
            decreases ws_vec@.len() - i,
        {
            let word = &ws_vec[i];
            assert(ws[i as int] == word@);
            assert(ws.skip(i as int)[0] == word@);
            if word.len() > 2 && word[0] == '<' && word[1] == '<' {
                let quoted = word[2] == '\'' || word[2] == '"';
                let start: usize = if quoted { 3 } else { 2 };
                let end: usize = if quoted && word.len() > 3 && word[word.len() - 1] == word[2] {
                    word.len() - 1
                } else {
                    word.len()
                };
                let mut d: Vec<char> = Vec::new();
                let mut k: usize = start;
                while k < end
                    invariant
                        start <= k <= end <= word@.len(),
                        d@ == word@.subrange(start as int, k as int),
                    decreases end - k,
                {
                    d.push(word[k]);
                    k = k + 1;
                    assert(d@ =~= word@.subrange(start as int, k as int));
                }
                assert(word@.skip(start as int) =~= word@.subrange(start as int, word@.len() as int));
                return Some((string_of(&d), !quoted));
            }
            assert(ws.skip(i as int).drop_first() =~= ws.skip(i + 1));
            i = i + 1;
        }
        None
    }

    /// Whether `line`, trimmed of white space, is the delimiter of the open
    /// here-document.
    pub fn is_heredoc_delimiter(state: &HeredocState, line: &str) -> (b: bool)
        ensures
            b == (state.heredoc_mode && trim_seq(line@) == state.heredoc_delimiter@),
    {
        if !state.heredoc_mode {
            return false;
        }
        let trimmed = trim_chars(&chars_of(line));
        let delim = chars_of_string(&state.heredoc_delimiter);
        eq_chars(&trimmed, &delim)
    }

    /// Opens a here-document if `input` names one; otherwise `state` comes
    /// back as it was.
    pub fn update_heredoc_state(state: HeredocState, input: &str) -> (s: HeredocState)
        ensures
            match heredoc_in(input@) {
                Some((d, e)) => s.heredoc_mode && s.heredoc_delimiter@ == d && s.heredoc_expand_vars == e
                    && s.heredoc_content == state.heredoc_content,
                None => s == state,
            },
    {
        let mut state = state;
        match Self::detect_heredoc(input) {
            Some((delimiter, expand_vars)) => {
                state.heredoc_mode = true;
                state.heredoc_delimiter = delimiter;
                state.heredoc_expand_vars = expand_vars;
            },
            None => {},
        }
        state
    }

    /// `content` with each `$NAME` replaced by the value of `NAME` in the
    /// environment `env` (first entry of that name); a name missing from
    /// `env` is kept as written, and a `$` that no name follows stays.
    pub fn expand_heredoc_variables(content: &str, env: &Vec<(String, String)>) -> (r: String)
        ensures
            r@ == expand_vars(content@, env_view(env@)),
    {
        let s = chars_of(content);
        let n = s.len();
        let mut out: Vec<char> = Vec::new();
        let mut i: usize = 0;
        while i < n
            invariant
                n == s@.len(),
                s@ == content@,
                i <= n,
                out@ + expand_from(s@, i as int, env_view(env@)) == expand_vars(s@, env_view(env@)),
            decreases n - i,
        {
            let ghost before = out@;
            if s[i] == '$' {
                let mut e: usize = i + 1;
                proof {
                    lemma_name_len_bound(s@, i + 1);
                }
                while e < n && (is_alphanumeric(s[e]) || s[e] == '_')
                    invariant
                        n == s@.len(),
                        i + 1 <= e <= n,
                        name_len(s@, i + 1) == (e - (i + 1)) + name_len(s@, e as int),
                    decreases n - e,
                {
                    e = e + 1;
                }
                assert(name_len(s@, e as int) == 0);
                if e > i + 1 {
                    let mut name: Vec<char> = Vec::new();
                    let mut k: usize = i + 1;
                    while k < e
                        invariant
                            n == s@.len(),
                            i + 1 <= k <= e <= n,
                            name@ == s@.subrange(i + 1, k as int),
                        decreases e - k,
                    {
                        name.push(s[k]);
                        k = k + 1;
                        assert(name@ =~= s@.subrange(i + 1, k as int));
                    }
                    match env_value(env, &name) {
                        Some(v) => {
                            let mut t: usize = 0;
                            while t < v.len()
                                invariant
                                    t <= v.len(),
                                    out@ == before + v@.take(t as int),
                                decreases v.len() - t,
                            {
                                out.push(v[t]);
                                t = t + 1;
                                assert(out@ =~= before + v@.take(t as int));
                            }
                            assert(v@.take(t as int) =~= v@);
                        },
                        None => {
                            let mut t: usize = i;
                            while t < e
                                invariant
                                    n == s@.len(),
                                    i <= t <= e <= n,
                                    out@ == before + s@.subrange(i as int, t as int),
                                decreases e - t,
                            {
                                out.push(s[t]);
                                t = t + 1;
                                assert(out@ =~= before + s@.subrange(i as int, t as int));
                            }
                        },
                    }
                    assert(out@ + expand_from(s@, e as int, env_view(env@)) =~= before + expand_from(s@, i as int, env_view(env@)));
                    i = e;
                } else {
                    out.push('$');
                    assert(out@ + expand_from(s@, i + 1, env_view(env@)) =~= before + expand_from(s@, i as int, env_view(env@)));
                    i = i + 1;
                }
            } else {
                out.push(s[i]);
                assert(out@ + expand_from(s@, i + 1, env_view(env@)) =~= before + expand_from(s@, i as int, env_view(env@)));
                i = i + 1;
            }
        }
        assert(out@ + Seq::<char>::empty() =~= out@);
        string_of(&out)
    }

    /// Adds a line to an open here-document: `content` (with its variables
    /// expanded from `env` where the here-document expands them) and a
    /// newline. A state with no open here-document comes back unchanged.
    pub fn add_heredoc_content(state: HeredocState, content: &str, env: &Vec<(String, String)>) -> (s: HeredocState)
        ensures
            s.heredoc_mode == state.heredoc_mode,
            s.heredoc_delimiter == state.heredoc_delimiter,
            s.heredoc_expand_vars == state.heredoc_expand_vars,
            s.heredoc_content@ == (if !state.heredoc_mode {
                state.heredoc_content@
            } else if state.heredoc_expand_vars {
                state.heredoc_content@ + expand_vars(content@, env_view(env@)).push('\n')
            } else {
                state.heredoc_content@ + content@.push('\n')
            }),
    {
        let mut state = state;
        if state.heredoc_mode {
            let processed = if state.heredoc_expand_vars {
                Self::expand_heredoc_variables(content, env)
            } else {
                content.to_string()
            };
            state.add_heredoc_content(processed);
        }
        state
    }

    /// The prompt: `heredoc> ` while a here-document is open, `$ `
    /// otherwise.
    pub fn get_prompt(state: &HeredocState) -> (p: String)
        ensures
            p@ == (if state.heredoc_mode {
                seq!['h', 'e', 'r', 'e', 'd', 'o', 'c', '>', ' ']
            } else {
                seq!['$', ' ']
            }),
    {
        if state.heredoc_mode {
            let p = String::from_str("heredoc> ");
            proof {
                reveal_strlit("heredoc> ");
            }
            assert(p@ =~= seq!['h', 'e', 'r', 'e', 'd', 'o', 'c', '>', ' ']);
            p
        } else {
            let p = String::from_str("$ ");
            proof {
                reveal_strlit("$ ");
            }
            assert(p@ =~= seq!['$', ' ']);
            p
        }
    }
}

/// The value of `name` in `env`, as `env_lookup` finds it.
fn env_value(env: &Vec<(String, String)>, name: &Vec<char>) -> (r: Option<Vec<char>>)
    ensures
        match r {
            Some(v) => env_lookup(env_view(env@), name@) == Some(v@),
            None => env_lookup(env_view(env@), name@) is None,
        },
{
    let mut i: usize = 0;
    assert(env_view(env@).skip(0) =~= env_view(env@));
    while i < env.len()
        invariant
            i <= env.len(),
            env_lookup(env_view(env@), name@) == env_lookup(env_view(env@).skip(i as int), name@),
        decreases env.len() - i,
    {
        let key = chars_of_string(&env[i].0);
        assert(env_view(env@).skip(i as int)[0] == (env@[i as int].0@, env@[i as int].1@));
        if eq_chars(&key, name) {
            return Some(chars_of_string(&env[i].1));
        }
        assert(env_view(env@).skip(i as int).drop_first() =~= env_view(env@).skip(i + 1));
        i = i + 1;
    }
    None
}

/// What the front end does with a line of input after reading it.
pub enum LineAction {
    /// Read another line: a here-document is being collected
    Wait,
    /// Run this command line
    Run(String),
}

/// The input state of the front end: the open here-document, if any, and
/// the command line that opened it.
pub struct InputState {
    /// The here-document state
    pub heredoc: HeredocState,
    /// The command line that opened the here-document
    pub pending: String,
}

/// One line entered: while a here-document is open, the delimiter line
/// runs the opening command line followed by a newline and the collected
/// content (and closes the here-document, forgetting the pending line),
/// and any other line joins the content; otherwise a line that opens a
/// here-document is kept as pending, and any other line is run as it is.
pub fn enter_line(st: InputState, line: &str, env: &Vec<(String, String)>) -> (r: (InputState, LineAction))
    ensures
        if st.heredoc.heredoc_mode {
            if trim_seq(line@) == st.heredoc.heredoc_delimiter@ {
                &&& r.1 matches LineAction::Run(cmd) && cmd@ == st.pending@ + seq!['\n'] + st.heredoc.heredoc_content@
                &&& !r.0.heredoc.heredoc_mode
                &&& r.0.heredoc.heredoc_delimiter@.len() == 0
                &&& r.0.heredoc.heredoc_content@.len() == 0
                &&& !r.0.heredoc.heredoc_expand_vars
                &&& r.0.pending@.len() == 0
            } else {
                &&& r.1 is Wait
                &&& r.0.pending == st.pending
                &&& r.0.heredoc.heredoc_mode && r.0.heredoc.heredoc_delimiter == st.heredoc.heredoc_delimiter
                &&& r.0.heredoc.heredoc_expand_vars == st.heredoc.heredoc_expand_vars
                &&& r.0.heredoc.heredoc_content@ == (if st.heredoc.heredoc_expand_vars {
                    st.heredoc.heredoc_content@ + expand_vars(line@, env_view(env@)).push('\n')
                } else {
                    st.heredoc.heredoc_content@ + line@.push('\n')
                })
            }
        } else {
            match heredoc_in(line@) {
                Some((d, e)) => {
                    &&& r.1 is Wait
                    &&& r.0.pending@ == line@
                    &&& r.0.heredoc.heredoc_mode && r.0.heredoc.heredoc_delimiter@ == d
                    &&& r.0.heredoc.heredoc_expand_vars == e
                    &&& r.0.heredoc.heredoc_content == st.heredoc.heredoc_content
                },
                None => r.1 matches LineAction::Run(cmd) && cmd@ == line@ && r.0.heredoc == st.heredoc
                    && r.0.pending == st.pending,
            }
        },
{
    let InputState { heredoc, pending } = st;
    if heredoc.heredoc_mode {
        if HeredocProcessor::is_heredoc_delimiter(&heredoc, line) {
            let mut cmd = pending;
            push_char(&mut cmd, '\n');
            cmd.append(heredoc.heredoc_content.as_str());
            (InputState { heredoc: HeredocState::default(), pending: String::new() }, LineAction::Run(cmd))
        } else {
            let next = HeredocProcessor::add_heredoc_content(heredoc, line, env);
            (InputState { heredoc: next, pending }, LineAction::Wait)
        }
    } else {
        let next = HeredocProcessor::update_heredoc_state(heredoc, line);
        if next.heredoc_mode {
            (InputState { heredoc: next, pending: line.to_string() }, LineAction::Wait)
        } else {
            (InputState { heredoc: next, pending }, LineAction::Run(line.to_string()))
        }
    }
}

} // verus!
