//! Command substitution: finding `$(command)` and `` `command` `` in a
//! line, and putting command output in their place.
//!
//! Running the commands is I/O and happens outside this library; what is
//! here finds the substitutions and splices the outputs in.
use vstd::prelude::*;

verus! {

/// Substitution state.
#[derive(Debug, Clone)]
pub struct SubstitutionState {
    /// Whether in substitution mode
    pub substitution_mode: bool,
    /// Current substitution depth
    pub substitution_depth: usize,
    /// Substitution buffer for nested commands
    pub substitution_buffer: String,
}

impl Default for SubstitutionState {
    fn default() -> (s: Self)
        ensures
            !s.substitution_mode,
            s.substitution_depth == 0,
            s.substitution_buffer@ == Seq::<char>::empty(),
    {
        SubstitutionState {
            substitution_mode: false,
            substitution_depth: 0,
            substitution_buffer: String::new(),
        }
    }
}

impl SubstitutionState {
    /// Whether substitution mode is on.
    pub fn is_substitution_mode(&self) -> (b: bool)
        ensures
            b == self.substitution_mode,
    {
        self.substitution_mode
    }

    /// Turns substitution mode on or off.
    pub fn set_substitution_mode(&mut self, mode: bool)
        ensures
            *final(self) == (SubstitutionState { substitution_mode: mode, ..*old(self) }),
    {
        self.substitution_mode = mode;
    }

    /// The nesting depth.
    pub fn get_depth(&self) -> (d: usize)
        ensures
            d == self.substitution_depth,
    {
        self.substitution_depth
    }

    /// Sets the nesting depth.
    pub fn set_depth(&mut self, depth: usize)
        ensures
            *final(self) == (SubstitutionState { substitution_depth: depth, ..*old(self) }),
    {
        self.substitution_depth = depth;
    }

    /// The buffer.
    pub fn get_buffer(&self) -> (b: String)
        ensures
            b@ == self.substitution_buffer@,
    {
        self.substitution_buffer.clone()
    }

    /// Sets the buffer.
    pub fn set_buffer(&mut self, buffer: String)
        ensures
            *final(self) == (SubstitutionState { substitution_buffer: buffer, ..*old(self) }),
    {
        self.substitution_buffer = buffer;
    }
}

/// The nesting depth after character `c`.
pub open spec fn next_depth(c: char, d: nat) -> nat {
    if c == '(' {
        d + 1
    } else if c == ')' && d > 0 {
        (d - 1) as nat
    } else {
        d
    }
}

/// How many characters from `j` the scan for the closing parenthesis reads,
/// at nesting depth `d`: it stops at depth 0 or at the end.
pub open spec fn paren_steps(s: Seq<char>, j: int, d: nat) -> nat
    decreases s.len() - j,
{
    if j < 0 || j >= s.len() || d == 0 {
        0
    } else {
        1 + paren_steps(s, j + 1, next_depth(s[j], d))
    }
}

/// The nesting depth where that scan stops (0 when the parenthesis closes).
pub open spec fn paren_depth(s: Seq<char>, j: int, d: nat) -> nat
    decreases s.len() - j,
{
    if j < 0 || j >= s.len() || d == 0 {
        d
    } else {
        paren_depth(s, j + 1, next_depth(s[j], d))
    }
}

/// How many characters from `j` come before the next backquote (or the
/// end).
pub open spec fn tick_steps(s: Seq<char>, j: int) -> nat
    decreases s.len() - j,
{
    if j < 0 || j >= s.len() || s[j] == '`' {
        0
    } else {
        1 + tick_steps(s, j + 1)
    }
}

/// The substitutions found from index `i` on, as (start, end, command):
/// `$(` opens one that runs to its matching `)`, a backquote one that runs
/// to the next backquote; the end is just past the closing character, and
/// an unclosed one is skipped with the rest of the line it scanned.
pub open spec fn subs_from(s: Seq<char>, i: int) -> Seq<(nat, nat, Seq<char>)>
    decreases s.len() - i,
{
    if i < 0 || i >= s.len() {
        seq![]
    } else if i + 1 < s.len() && s[i] == '$' && s[i + 1] == '(' {
        let j = i + 2 + paren_steps(s, i + 2, 1);
        proof {
            lemma_steps_bounds(s, i + 2, 1);
        }
        if paren_depth(s, i + 2, 1) == 0 {
            seq![(i as nat, j as nat, s.subrange(i + 2, j - 1))] + subs_from(s, j)
        } else {
            subs_from(s, j)
        }
    } else if s[i] == '`' {
        let j = i + 1 + tick_steps(s, i + 1);
        proof {
            lemma_steps_bounds(s, i + 1, 0);
        }
        if j < s.len() {
            seq![(i as nat, (j + 1) as nat, s.subrange(i + 1, j))] + subs_from(s, j + 1)
        } else {
            seq![]
        }
    } else {
        subs_from(s, i + 1)
    }
}

/// The substitutions of a line, in order.
pub open spec fn substitutions(s: Seq<char>) -> Seq<(nat, nat, Seq<char>)> {
    subs_from(s, 0)
}

/// A detected substitution as plain values.
pub open spec fn sub_view(t: (usize, usize, String)) -> (nat, nat, Seq<char>) {
    (t.0 as nat, t.1 as nat, t.2@)
}

/// The scan for a closing parenthesis reads the characters it counts.
pub proof fn lemma_paren_step(s: Seq<char>, j: int, d: nat)
    requires
        0 <= j < s.len(),
        d > 0,
    ensures
        paren_steps(s, j, d) == 1 + paren_steps(s, j + 1, next_depth(s[j], d)),
        paren_depth(s, j, d) == paren_depth(s, j + 1, next_depth(s[j], d)),
{
}

/// Positions of a scan stay within the line.
pub proof fn lemma_steps_bounds(s: Seq<char>, j: int, d: nat)
    requires
        0 <= j <= s.len(),
    ensures
        j + paren_steps(s, j, d) <= s.len(),
        j + tick_steps(s, j) <= s.len(),
        paren_depth(s, j, d) == 0 ==> paren_steps(s, j, d) > 0 || d == 0,
    decreases s.len() - j,
{
    if j < s.len() {
        if d > 0 {
            lemma_steps_bounds(s, j + 1, next_depth(s[j], d));
        }
        if s[j] != '`' {
            lemma_steps_bounds(s, j + 1, d);
        }
    }
}

/// Every substitution found from `i` starts at or after `i`, ends after it
/// starts and within the line, and comes after the ones before it.
pub proof fn lemma_subs_ordered(s: Seq<char>, i: int)
    requires
        0 <= i,
    ensures
        forall|k: int|
            0 <= k < subs_from(s, i).len() ==> i <= #[trigger] subs_from(s, i)[k].0 < subs_from(s, i)[k].1
                <= s.len(),
        forall|k: int, l: int|
            0 <= k < l < subs_from(s, i).len() ==> #[trigger] subs_from(s, i)[k].1 <= #[trigger] subs_from(
                s,
                i,
            )[l].0,
    decreases s.len() - i,
{
    if i < s.len() {
        let r = subs_from(s, i);
        if i + 1 < s.len() && s[i] == '$' && s[i + 1] == '(' {
            let j = i + 2 + paren_steps(s, i + 2, 1);
            lemma_steps_bounds(s, i + 2, 1);
            lemma_subs_ordered(s, j);
            let rest = subs_from(s, j);
            if paren_depth(s, i + 2, 1) != 0 {
                assert(r == rest);
            } else {
                let head = (i as nat, j as nat, s.subrange(i + 2, j - 1));
                assert(r == seq![head] + rest);
                assert forall|k: int| 0 <= k < r.len() implies i <= #[trigger] r[k].0 < r[k].1 <= s.len() by {
                    if k > 0 {
                        assert(r[k] == rest[k - 1]);
                    }
                }
                assert forall|k: int, l: int| 0 <= k < l < r.len() implies #[trigger] r[k].1 <= #[trigger] r[l].0 by {
                    assert(r[l] == rest[l - 1]);
                    if k > 0 {
                        assert(r[k] == rest[k - 1]);
                    }
                }
            }
        } else if s[i] == '`' {
            let j = i + 1 + tick_steps(s, i + 1);
            lemma_steps_bounds(s, i + 1, 0);
            if j >= s.len() {
                assert(r == Seq::<(nat, nat, Seq<char>)>::empty());
            } else {
                lemma_subs_ordered(s, j + 1);
                let rest = subs_from(s, j + 1);
                let head = (i as nat, (j + 1) as nat, s.subrange(i + 1, j));
                assert(r == seq![head] + rest);
                assert forall|k: int| 0 <= k < r.len() implies i <= #[trigger] r[k].0 < r[k].1 <= s.len() by {
                    if k > 0 {
                        assert(r[k] == rest[k - 1]);
                    }
                }
                assert forall|k: int, l: int| 0 <= k < l < r.len() implies #[trigger] r[k].1 <= #[trigger] r[l].0 by {
                    assert(r[l] == rest[l - 1]);
                    if k > 0 {
                        assert(r[k] == rest[k - 1]);
                    }
                }
            }
        } else {
            lemma_subs_ordered(s, i + 1);
            assert(r == subs_from(s, i + 1));
        }
    }
}

/// The substitutions are in order, do not overlap and lie within the line.
pub open spec fn well_placed(subs: Seq<(nat, nat, Seq<char>)>, len: nat) -> bool {
    &&& forall|k: int| 0 <= k < subs.len() ==> #[trigger] subs[k].0 <= subs[k].1 <= len
    &&& forall|k: int, l: int| 0 <= k < l < subs.len() ==> #[trigger] subs[k].1 <= #[trigger] subs[l].0
}

/// The substitutions that a line holds are well placed in it.
pub proof fn lemma_substitutions_well_placed(s: Seq<char>)
    ensures
        well_placed(substitutions(s), s.len()),
{
    lemma_subs_ordered(s, 0);
    let r = substitutions(s);
    assert forall|k: int| 0 <= k < r.len() implies #[trigger] r[k].0 <= r[k].1 <= s.len() by {
        assert(0 <= r[k].0 < r[k].1 <= s.len());
    }
}

/// `s` with `[a, b)` replaced by `r`.
pub open spec fn replace_range(s: Seq<char>, a: nat, b: nat, r: Seq<char>) -> Seq<char> {
    s.subrange(0, a as int) + r + s.subrange(b as int, s.len() as int)
}

/// `s` with each substitution replaced by its output, the last first (as
/// `String::replace_range` would, one after the other).
pub open spec fn splice(s: Seq<char>, subs: Seq<(nat, nat, Seq<char>)>, outs: Seq<Seq<char>>) -> Seq<char>
    decreases subs.len(),
{
    if subs.len() == 0 || outs.len() == 0 {
        s
    } else {
        let (a, b, _) = subs.last();
        splice(replace_range(s, a, b, outs.last()), subs.drop_last(), outs.drop_last())
    }
}

/// Putting back in each substitution the text it was made of gives the line
/// back: splicing leaves the line as it was when every output is the text
/// its substitution spans.
pub proof fn lemma_splice_own_text(s: Seq<char>, subs: Seq<(nat, nat, Seq<char>)>, outs: Seq<Seq<char>>)
    requires
        well_placed(subs, s.len()),
        outs.len() == subs.len(),
        forall|k: int| 0 <= k < subs.len() ==> #[trigger] outs[k] == s.subrange(subs[k].0 as int, subs[k].1 as int),
    ensures
        splice(s, subs, outs) == s,
    decreases subs.len(),
{
    if subs.len() > 0 {
        let (a, b, c) = subs.last();
        assert(subs[subs.len() - 1].0 <= subs[subs.len() - 1].1 <= s.len());
        assert(outs.last() == outs[outs.len() - 1]);
        assert(replace_range(s, a, b, outs.last()) =~= s);
        let sd = subs.drop_last();
        let od = outs.drop_last();
        assert forall|k: int| 0 <= k < sd.len() implies #[trigger] sd[k].0 <= sd[k].1 <= s.len() by {
            assert(sd[k] == subs[k]);
        }
        assert forall|k: int, l: int| 0 <= k < l < sd.len() implies #[trigger] sd[k].1 <= #[trigger] sd[l].0 by {
            assert(sd[k] == subs[k]);
            assert(sd[l] == subs[l]);
        }
        assert forall|k: int| 0 <= k < sd.len() implies #[trigger] od[k] == s.subrange(sd[k].0 as int, sd[k].1 as int) by {
            assert(sd[k] == subs[k]);
            assert(od[k] == outs[k]);
        }
        lemma_splice_own_text(s, sd, od);
    }
}

/// Command substitution processing.
pub struct SubstitutionProcessor;

impl SubstitutionProcessor {
    /// The substitutions in `input`, in order, as (start, end, command),
    /// positions counted in characters.
    pub fn detect_command_substitutions(input: &str) -> (r: Vec<(usize, usize, String)>)
        ensures
            r@.map_values(|t: (usize, usize, String)| sub_view(t)) == substitutions(input@),
    {
        let s = crate::text::chars_of(input);
        let n = s.len();
        let mut subs: Vec<(usize, usize, String)> = Vec::new();
        let mut i: usize = 0;
        while i < n
            invariant
                n == s@.len(),
                s@ == input@,
                subs@.map_values(|t: (usize, usize, String)| sub_view(t)) + subs_from(s@, i as int) == substitutions(s@),
            decreases n - i,
        {
            let ghost before = subs@.map_values(|t: (usize, usize, String)| sub_view(t));
            let ghost here = subs_from(s@, i as int);
            if i + 1 < n && s[i] == '$' && s[i + 1] == '(' {
                let start = i;
                let mut depth: usize = 1;
                let mut j: usize = i + 2;
                proof {
                    lemma_steps_bounds(s@, i + 2, 1);
                }
                while j < n && depth > 0
                    invariant
                        n == s@.len(),
                        i + 2 <= j <= n,
                        depth <= j,
                        paren_steps(s@, i + 2, 1) == (j - (i + 2)) + paren_steps(s@, j as int, depth as nat),
                        paren_depth(s@, i + 2, 1) == paren_depth(s@, j as int, depth as nat),
                    decreases n - j,
                {
                    proof {
                        lemma_paren_step(s@, j as int, depth as nat);
                    }
                    if s[j] == '(' {
                        depth = depth + 1;
                    } else if s[j] == ')' {
                        depth = depth - 1;
                    }
                    j = j + 1;
                }
                if depth == 0 {
                    assert(j >= i + 3);
                    let mut cmd: Vec<char> = Vec::new();
                    let mut k: usize = i + 2;
                    while k < j - 1
                        invariant
                            n == s@.len(),
                            i + 2 <= k <= j - 1,
                            j <= n,
                            cmd@ == s@.subrange(i + 2, k as int),
                        decreases j - 1 - k,
                    {
                        cmd.push(s[k]);
                        k = k + 1;
                        assert(cmd@ =~= s@.subrange(i + 2, k as int));
                    }
                    let command = crate::text::string_of(&cmd);
                    subs.push((start, j, command));
                    assert(subs@.map_values(|t: (usize, usize, String)| sub_view(t)) =~= before.push(
                        (start as nat, j as nat, s@.subrange(i + 2, j - 1)),
                    ));
                    assert(here == seq![(start as nat, j as nat, s@.subrange(i + 2, j - 1))] + subs_from(s@, j as int));
                    assert(before + here =~= before.push((start as nat, j as nat, s@.subrange(i + 2, j - 1))) + subs_from(s@, j as int));
                } else {
                    assert(here == subs_from(s@, j as int));
                }
                i = j;
            } else if s[i] == '`' {
                let start = i;
                let mut j: usize = i + 1;
                while j < n
                    invariant
                        n == s@.len(),
                        i + 1 <= j <= n,
                        tick_steps(s@, i + 1) == (j - (i + 1)) + tick_steps(s@, j as int),
                    ensures
                        i + 1 <= j <= n,
                        j < n ==> s@[j as int] == '`',
                        tick_steps(s@, i + 1) == (j - (i + 1)) + tick_steps(s@, j as int),
                    decreases n - j,
                {
                    if s[j] == '`' {
                        break;
                    }
                    j = j + 1;
                }
                if j < n {
                    let mut cmd: Vec<char> = Vec::new();
                    let mut k: usize = i + 1;
                    while k < j
                        invariant
                            n == s@.len(),
                            i + 1 <= k <= j,
                            j < n,
                            cmd@ == s@.subrange(i + 1, k as int),
                        decreases j - k,
                    {
                        cmd.push(s[k]);
                        k = k + 1;
                        assert(cmd@ =~= s@.subrange(i + 1, k as int));
                    }
                    let command = crate::text::string_of(&cmd);
                    subs.push((start, j + 1, command));
                    assert(subs@.map_values(|t: (usize, usize, String)| sub_view(t)) =~= before.push(
                        (start as nat, (j + 1) as nat, s@.subrange(i + 1, j as int)),
                    ));
                    assert(here == seq![(start as nat, (j + 1) as nat, s@.subrange(i + 1, j as int))] + subs_from(s@, j + 1));
                    assert(before + here =~= before.push((start as nat, (j + 1) as nat, s@.subrange(i + 1, j as int))) + subs_from(s@, j + 1));
                    i = j + 1;
                } else {
                    assert(here == Seq::<(nat, nat, Seq<char>)>::empty());
                    assert(subs_from(s@, j as int) == Seq::<(nat, nat, Seq<char>)>::empty());
                    assert(before + here =~= before);
                    i = j;
                }
            } else {
                assert(here == subs_from(s@, i + 1));
                i = i + 1;
            }
        }
        assert(subs_from(s@, i as int) == Seq::<(nat, nat, Seq<char>)>::empty());
        assert(subs@.map_values(|t: (usize, usize, String)| sub_view(t)) + Seq::<(nat, nat, Seq<char>)>::empty() =~= subs@.map_values(|t: (usize, usize, String)| sub_view(t)));
        subs
    }

    /// `input` with each substitution replaced by the output of its command:
    /// `outputs` holds one output per substitution, in the order of
    /// `detect_command_substitutions`. Running the commands is left to the
    /// caller; `None` when the number of outputs is not the number of
    /// substitutions.
    pub fn process_command_substitutions(input: &str, outputs: &Vec<String>) -> (r: Option<String>)
        ensures
            r is Some <==> outputs.len() == substitutions(input@).len(),
            r is Some ==> r->0@ == splice(input@, substitutions(input@), outputs_view(outputs@)),
    {
        let subs = Self::detect_command_substitutions(input);
        if subs.len() != outputs.len() {
            return None;
        }
        let ghost sv = subs@.map_values(|t: (usize, usize, String)| sub_view(t));
        let ghost ov = outputs_view(outputs@);
        proof {
            lemma_substitutions_well_placed(input@);
        }
        let mut cur = crate::text::chars_of(input);
        let mut k: usize = subs.len();
        assert(sv.take(k as int) =~= sv);
        assert(ov.take(k as int) =~= ov);
        assert forall|m: int| 0 <= m < k implies #[trigger] sv[m].1 <= cur@.len() by {
            assert(sv[m].0 <= sv[m].1 <= input@.len());
        }
        while k > 0
            invariant
                k <= subs.len() == outputs.len(),
                sv == subs@.map_values(|t: (usize, usize, String)| sub_view(t)),
                sv == substitutions(input@),
                ov == outputs_view(outputs@),
                well_placed(sv, input@.len()),
                forall|m: int| 0 <= m < k ==> #[trigger] sv[m].1 <= cur@.len(),
                splice(input@, sv, ov) == splice(cur@, sv.take(k as int), ov.take(k as int)),
            decreases k,
        {
            let a = subs[k - 1].0;
            let b = subs[k - 1].1;
            let out = crate::text::chars_of_string(&outputs[k - 1]);
            assert(sv[k - 1] == sub_view(subs@[k - 1]));
            assert(sv[k - 1].0 <= sv[k - 1].1);
            let ghost old_cur = cur@;
            cur = replace_range_chars(&cur, a, b, &out);
            proof {
                let st = sv.take(k as int);
                let ot = ov.take(k as int);
                assert(st.last() == sv[k - 1]);
                assert(ot.last() == out@);
                assert(st.drop_last() =~= sv.take(k - 1));
                assert(ot.drop_last() =~= ov.take(k - 1));
                assert forall|m: int| 0 <= m < k - 1 implies #[trigger] sv[m].1 <= cur@.len() by {
                    assert(sv[m].1 <= sv[k - 1].0);
                }
            }
            k = k - 1;
        }
        Some(crate::text::string_of(&cur))
    }

    /// The words of a command (program name, then arguments), split at
    /// white space.
    pub fn command_words(command: &str) -> (r: Vec<String>)
        ensures
            r@.map_values(|w: String| w@) == crate::text::words(command@),
    {
        let cs = crate::text::chars_of(command);
        let ws = crate::text::split_whitespace_chars(&cs);
        let mut r: Vec<String> = Vec::new();
        let mut i: usize = 0;
        while i < ws.len()
            invariant
                i <= ws.len(),
                r.len() == i,
                ws@.map_values(|w: Vec<char>| w@) == crate::text::words(command@),
                r@.map_values(|w: String| w@) == ws@.map_values(|w: Vec<char>| w@).take(i as int),
            decreases ws.len() - i,
        {
            let w = crate::text::string_of(&ws[i]);
            let ghost r0 = r@;
            r.push(w);
            assert(r@ == r0.push(w));
            i = i + 1;
            let ghost lhs = r@.map_values(|w: String| w@);
            let ghost rhs = ws@.map_values(|w: Vec<char>| w@).take(i as int);
            assert(lhs.len() == rhs.len());
            assert forall|m: int| 0 <= m < lhs.len() implies lhs[m] == rhs[m] by {
                if m < i - 1 {
                    assert(r@[m] == r0[m]);
                    assert(r0.map_values(|w: String| w@)[m] == lhs[m]);
                } else {
                    assert(r@[m] == w);
                }
            }
            assert(lhs =~= rhs);
        }
        assert(ws@.map_values(|w: Vec<char>| w@).take(i as int) =~= ws@.map_values(|w: Vec<char>| w@));
        r
    }

    /// What a substitution is replaced by, given what its command wrote:
    /// standard output followed by standard error, trimmed of white space
    /// at both ends.
    pub fn command_result(stdout: &str, stderr: &str) -> (r: String)
        ensures
            r@ == crate::text::trim_seq(stdout@ + stderr@),
    {
        let mut all = crate::text::chars_of(stdout);
        let e = crate::text::chars_of(stderr);
        let mut i: usize = 0;
        while i < e.len()
            invariant
                i <= e.len(),
                e@ == stderr@,
                all@ == stdout@ + e@.take(i as int),
            decreases e.len() - i,
        {
            all.push(e[i]);
            i = i + 1;
            assert(all@ =~= stdout@ + e@.take(i as int));
        }
        assert(e@.take(i as int) =~= e@);
        let t = crate::text::trim_chars(&all);
        crate::text::string_of(&t)
    }
}

impl SubstitutionState {
    /// Processes command substitutions of `input` with the given command
    /// outputs (see `SubstitutionProcessor::process_command_substitutions`).
    pub fn process_substitutions(&self, input: &str, outputs: &Vec<String>) -> (r: Option<String>)
        ensures
            r is Some <==> outputs.len() == substitutions(input@).len(),
            r is Some ==> r->0@ == splice(input@, substitutions(input@), outputs_view(outputs@)),
    {
        SubstitutionProcessor::process_command_substitutions(input, outputs)
    }
}

/// The outputs as plain character sequences.
pub open spec fn outputs_view(outputs: Seq<String>) -> Seq<Seq<char>> {
    outputs.map_values(|o: String| o@)
}

/// `cur` with `[a, b)` replaced by `r`.
fn replace_range_chars(cur: &Vec<char>, a: usize, b: usize, r: &Vec<char>) -> (out: Vec<char>)
    requires
        a <= b <= cur.len(),
    ensures
        out@ == replace_range(cur@, a as nat, b as nat, r@),
{
    let mut out: Vec<char> = Vec::new();
    let mut i: usize = 0;
    while i < a
        invariant
            i <= a <= b <= cur.len(),
            out@ == cur@.subrange(0, i as int),
        decreases a - i,
    {
        out.push(cur[i]);
        i = i + 1;
        assert(out@ =~= cur@.subrange(0, i as int));
    }
    let mut j: usize = 0;
    while j < r.len()
        invariant
            j <= r.len(),
            out@ == cur@.subrange(0, a as int) + r@.take(j as int),
        decreases r.len() - j,
    {
        out.push(r[j]);
        j = j + 1;
        assert(out@ =~= cur@.subrange(0, a as int) + r@.take(j as int));
    }
    assert(r@.take(j as int) =~= r@);
    let mut k: usize = b;
    while k < cur.len()
        invariant
            b <= k <= cur.len(),
            out@ == cur@.subrange(0, a as int) + r@ + cur@.subrange(b as int, k as int),
        decreases cur.len() - k,
    {
        out.push(cur[k]);
        k = k + 1;
        assert(out@ =~= cur@.subrange(0, a as int) + r@ + cur@.subrange(b as int, k as int));
    }
    out
}

/// A line without substitutions comes back unchanged.
pub proof fn lemma_no_substitutions_unchanged(s: Seq<char>, outs: Seq<Seq<char>>)
    requires
        substitutions(s).len() == 0,
    ensures
        splice(s, substitutions(s), outs) == s,
{
}

} // verus!
