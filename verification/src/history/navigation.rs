//! History navigation: moving up and down through past commands, and
//! reverse incremental search.
use crate::history::{entry_view, HistoryEntry, HistoryManager};
use crate::text::{chars_of, chars_of_string, contains_chars, contains_seq, dec_seq, decimal_chars, string_of};
use vstd::prelude::*;

verus! {

/// History navigation state.
#[derive(Debug, Clone)]
pub struct HistoryNavigationState {
    /// Current history index
    pub history_index: Option<usize>,
    /// Whether in search mode
    pub search_mode: bool,
    /// Current search query
    pub search_query: String,
    /// Original input before navigation
    pub original_input: String,
}

impl Default for HistoryNavigationState {
    fn default() -> (s: Self)
        ensures
            s.history_index is None,
            !s.search_mode,
            s.search_query@ == Seq::<char>::empty(),
            s.original_input@ == Seq::<char>::empty(),
    {
        HistoryNavigationState {
            history_index: None,
            search_mode: false,
            search_query: String::new(),
            original_input: String::new(),
        }
    }
}

/// The index of the newest command of `h` that contains `q`.
pub open spec fn last_match(h: Seq<Seq<char>>, q: Seq<char>) -> Option<int>
    decreases h.len(),
{
    if h.len() == 0 {
        None
    } else if contains_seq(h.last(), q) {
        Some(h.len() - 1)
    } else {
        last_match(h.drop_last(), q)
    }
}

/// `s` right-aligned in a field of width 4 (as `{:4}` pads a number).
pub open spec fn pad4(s: Seq<char>) -> Seq<char> {
    if s.len() < 4 {
        Seq::new((4 - s.len()) as nat, |k: int| ' ') + s
    } else {
        s
    }
}

/// The line that shows command `cmd` at position `i` (counted from 0):
/// its number from 1, padded to width 4, two spaces, the command and a
/// newline.
pub open spec fn display_line(i: nat, cmd: Seq<char>) -> Seq<char> {
    pad4(dec_seq(i + 1)) + seq![' ', ' '] + cmd + seq!['\n']
}

/// The listing of the history `h`, one line per command, oldest first.
pub open spec fn history_listing(h: Seq<Seq<char>>) -> Seq<char>
    decreases h.len(),
{
    if h.len() == 0 {
        seq![]
    } else {
        history_listing(h.drop_last()) + display_line((h.len() - 1) as nat, h.last())
    }
}

/// Where a navigation stands: the selected index and the input kept.
pub open spec fn nav_point(st: HistoryNavigationState) -> (Option<usize>, Seq<char>) {
    (st.history_index, st.original_input@)
}

/// The index a step starts from: the selected one, or one past the newest
/// of `n` commands.
pub open spec fn start_index(idx: Option<usize>, n: nat) -> int {
    match idx {
        Some(k) => k as int,
        None => n as int,
    }
}

/// One step up through `n` commands from `p`, with `input` being edited:
/// the new point, and the index of the command shown.
pub open spec fn up_step(n: nat, p: (Option<usize>, Seq<char>), input: Seq<char>) -> (
    (Option<usize>, Seq<char>),
    Option<int>,
) {
    let ci = start_index(p.0, n);
    if n == 0 || ci == 0 {
        (p, None)
    } else {
        (
            (Some((ci - 1) as usize), if p.1.len() == 0 {
                input
            } else {
                p.1
            }),
            if ci - 1 < n {
                Some(ci - 1)
            } else {
                None
            },
        )
    }
}

/// One step down through `n` commands from `p`: the new point, the index of
/// the command shown, and whether the kept input is given back instead.
pub open spec fn down_step(n: nat, p: (Option<usize>, Seq<char>)) -> (
    (Option<usize>, Seq<char>),
    Option<int>,
    bool,
) {
    let ci = start_index(p.0, n);
    if n == 0 {
        (p, None, false)
    } else if ci < n - 1 {
        ((Some((ci + 1) as usize), p.1), Some(ci + 1), false)
    } else {
        ((None, seq![]), None, true)
    }
}

/// `k` steps up from `p` with `input` being edited.
pub open spec fn ups(n: nat, p: (Option<usize>, Seq<char>), input: Seq<char>, k: nat) -> (
    Option<usize>,
    Seq<char>,
)
    decreases k,
{
    if k == 0 {
        p
    } else {
        up_step(n, ups(n, p, input, (k - 1) as nat), input).0
    }
}

/// `k` steps down from `p`.
pub open spec fn downs(n: nat, p: (Option<usize>, Seq<char>), k: nat) -> (Option<usize>, Seq<char>)
    decreases k,
{
    if k == 0 {
        p
    } else {
        down_step(n, downs(n, p, (k - 1) as nat)).0
    }
}

/// `k` steps up from a fresh navigation select the `k`-th newest command
/// and keep the input.
proof fn lemma_ups_from_fresh(n: nat, input: Seq<char>, k: nat)
    requires
        1 <= k <= n,
        n <= usize::MAX,
    ensures
        ups(n, (None, seq![]), input, k) == (Some((n - k) as usize), input),
    decreases k,
{
    let fresh = (None::<usize>, Seq::<char>::empty());
    assert(ups(n, fresh, input, 0) == fresh);
    if k > 1 {
        lemma_ups_from_fresh(n, input, (k - 1) as nat);
        let prev = ups(n, fresh, input, (k - 1) as nat);
        assert(prev == (Some((n - k + 1) as usize), input));
        assert(start_index(prev.0, n) == n - k + 1);
        assert(ups(n, fresh, input, k) == up_step(n, prev, input).0);
    } else {
        assert(ups(n, fresh, input, 1) == up_step(n, fresh, input).0);
        assert(start_index(fresh.0, n) == n);
    }
}

/// Steps down from the `k`-th newest command walk back toward the newest.
proof fn lemma_downs_from(n: nat, input: Seq<char>, k: nat, j: nat)
    requires
        1 <= k <= n,
        j < k,
        n <= usize::MAX,
    ensures
        downs(n, (Some((n - k) as usize), input), j) == (Some((n - k + j) as usize), input),
    decreases j,
{
    if j > 0 {
        lemma_downs_from(n, input, k, (j - 1) as nat);
    }
}

/// Going up `k` commands from a fresh navigation and then down `k` times
/// comes back: the last step down gives back the input that was being
/// edited and leaves the history with nothing kept.
pub proof fn lemma_up_then_down_restores(n: nat, input: Seq<char>, k: nat)
    requires
        1 <= k <= n,
        n <= usize::MAX,
    ensures
        ({
            let top = ups(n, (None, seq![]), input, k);
            let last = down_step(n, downs(n, top, (k - 1) as nat));
            &&& last.0 == (None::<usize>, Seq::<char>::empty())
            &&& last.2
            &&& downs(n, top, (k - 1) as nat).1 == input
        }),
{
    lemma_ups_from_fresh(n, input, k);
    lemma_downs_from(n, input, k, (k - 1) as nat);
}

/// History navigator: the history and the state of the navigation through it.
pub struct HistoryNavigator {
    history_manager: HistoryManager,
    state: HistoryNavigationState,
}

impl HistoryNavigator {
    /// The history.
    pub closed spec fn manager(self) -> HistoryManager {
        self.history_manager
    }

    /// The navigation state.
    pub closed spec fn nav(self) -> HistoryNavigationState {
        self.state
    }

    /// The commands of the history, oldest first.
    pub open spec fn cmds(self) -> Seq<Seq<char>> {
        self.manager().commands()
    }

    /// A navigator over `history_manager`, with nothing selected.
    pub fn new(history_manager: HistoryManager) -> (n: Self)
        ensures
            n.manager() == history_manager,
            n.nav().history_index is None,
            !n.nav().search_mode,
            n.nav().search_query@ == Seq::<char>::empty(),
            n.nav().original_input@ == Seq::<char>::empty(),
    {
        HistoryNavigator { history_manager, state: HistoryNavigationState::default() }
    }

    /// The command at `i` of the history, if there is one.
    fn command_at(&self, i: usize) -> (r: Option<String>)
        ensures
            match r {
                Some(c) => i < self.cmds().len() && c@ == self.cmds()[i as int],
                None => i >= self.cmds().len(),
            },
    {
        let history = self.history_manager.get_history();
        proof {
            self.lemma_cmds(history@);
        }
        if i < history.len() {
            Some(history[i].command.clone())
        } else {
            None
        }
    }

    proof fn lemma_cmds(&self, v: Seq<HistoryEntry>)
        requires
            v.map_values(|e: HistoryEntry| entry_view(e)) == self.manager().entries(),
        ensures
            v.len() == self.cmds().len(),
            forall|i: int| 0 <= i < v.len() ==> #[trigger] v[i].command@ == self.cmds()[i],
    {
        assert forall|i: int| 0 <= i < v.len() implies #[trigger] v[i].command@ == self.cmds()[i] by {
            assert(v.map_values(|e: HistoryEntry| entry_view(e))[i] == entry_view(v[i]));
        }
    }

    /// Moves to the next older command and returns it. The input being
    /// edited is kept, the first time, to come back to. Nothing happens at
    /// the oldest command or with an empty history.
    pub fn navigate_up(&mut self, current_input: &str) -> (r: Option<String>)
        ensures
            keeps_history(*old(self), *final(self)),
            final(self).manager() == old(self).manager(),
            final(self).nav().search_mode == old(self).nav().search_mode,
            final(self).nav().search_query == old(self).nav().search_query,
            ({
                let (p, shown) = up_step(old(self).cmds().len(), nav_point(old(self).nav()), current_input@);
                &&& nav_point(final(self).nav()) == p
                &&& match shown {
                    Some(i) => r is Some && r->0@ == old(self).cmds()[i],
                    None => r is None,
                }
            }),
    {
        let history = self.history_manager.get_history();
        let n = history.len();
        proof {
            self.lemma_cmds(history@);
        }
        if n == 0 {
            return None;
        }
        let current_index = match self.state.history_index {
            Some(k) => k,
            None => n,
        };
        if current_index > 0 {
            self.state.history_index = Some(current_index - 1);
            if self.state.original_input.as_str().unicode_len() == 0 {
                self.state.original_input = current_input.to_string();
            }
            return self.command_at(current_index - 1);
        }
        None
    }

    /// Moves to the next newer command and returns it; past the newest,
    /// leaves the history and returns the input that was kept.
    pub fn navigate_down(&mut self) -> (r: Option<String>)
        ensures
            keeps_history(*old(self), *final(self)),
            final(self).manager() == old(self).manager(),
            final(self).nav().search_mode == old(self).nav().search_mode,
            final(self).nav().search_query == old(self).nav().search_query,
            ({
                let (p, shown, restored) = down_step(old(self).cmds().len(), nav_point(old(self).nav()));
                &&& nav_point(final(self).nav()) == p
                &&& if restored {
                    r is Some && r->0@ == old(self).nav().original_input@
                } else {
                    match shown {
                        Some(i) => r is Some && r->0@ == old(self).cmds()[i],
                        None => r is None,
                    }
                }
            }),
    {
        let history = self.history_manager.get_history();
        let n = history.len();
        proof {
            self.lemma_cmds(history@);
        }
        if n == 0 {
            return None;
        }
        let current_index = match self.state.history_index {
            Some(k) => k,
            None => n,
        };
        if current_index < n - 1 {
            self.state.history_index = Some(current_index + 1);
            self.command_at(current_index + 1)
        } else {
            self.state.history_index = None;
            let original = self.state.original_input.clone();
            self.state.original_input = String::new();
            Some(original)
        }
    }

    /// Starts a reverse incremental search, keeping the input being edited.
    pub fn start_reverse_search(&mut self, current_input: &str)
        ensures
            keeps_history(*old(self), *final(self)),
            final(self).manager() == old(self).manager(),
            final(self).nav().search_mode,
            final(self).nav().search_query@ == Seq::<char>::empty(),
            final(self).nav().history_index is None,
            final(self).nav().original_input@ == current_input@,
    {
        self.state.search_mode = true;
        self.state.search_query = String::new();
        self.state.history_index = None;
        self.state.original_input = current_input.to_string();
    }

    /// Adds `query` to the search and returns the newest command that
    /// contains the whole query, selecting it; `None` when the query is
    /// empty or nothing matches, the selection then unchanged.
    pub fn perform_reverse_search(&mut self, query: &str) -> (r: Option<String>)
        ensures
            keeps_history(*old(self), *final(self)),
            search_step(*old(self), *final(self)),
            final(self).manager() == old(self).manager(),
            final(self).nav().search_mode == old(self).nav().search_mode,
            final(self).nav().original_input == old(self).nav().original_input,
            final(self).nav().search_query@ == old(self).nav().search_query@ + query@,
            ({
                let q = old(self).nav().search_query@ + query@;
                if q.len() == 0 {
                    r is None && final(self).nav().history_index == old(self).nav().history_index
                } else {
                    match last_match(old(self).cmds(), q) {
                        Some(i) => final(self).nav().history_index == Some(i as usize) && r is Some
                            && r->0@ == old(self).cmds()[i],
                        None => r is None && final(self).nav().history_index == old(
                            self,
                        ).nav().history_index,
                    }
                }
            }),
    {
        let mut q = chars_of_string(&self.state.search_query);
        let add = chars_of(query);
        let mut t: usize = 0;
        let ghost q0 = q@;
        while t < add.len()
            invariant
                t <= add.len(),
                q@ == q0 + add@.take(t as int),
            decreases add.len() - t,
        {
            q.push(add[t]);
            t = t + 1;
            assert(q@ =~= q0 + add@.take(t as int));
        }
        assert(add@.take(t as int) =~= add@);
        self.state.search_query = string_of(&q);
        if q.len() == 0 {
            return None;
        }
        let history = self.history_manager.get_history();
        proof {
            self.lemma_cmds(history@);
        }
        let ghost h = self.cmds();
        let mut i: usize = history.len();
        assert(h.take(i as int) =~= h);
        while i > 0
            invariant
                i <= history@.len() == h.len(),
                h == self.cmds(),
                self.manager() == old(self).manager(),
                self.nav().search_mode == old(self).nav().search_mode,
                self.nav().original_input == old(self).nav().original_input,
                self.nav().search_query@ == q@,
                q@ == old(self).nav().search_query@ + query@,
                q@.len() > 0,
                self.nav().history_index == old(self).nav().history_index,
                forall|j: int| 0 <= j < history@.len() ==> #[trigger] history@[j].command@ == h[j],
                last_match(h, q@) == last_match(h.take(i as int), q@),
            decreases i,
        {
            let c = chars_of_string(&history[i - 1].command);
            assert(h.take(i as int).last() == h[i - 1]);
            assert(h.take(i as int).drop_last() =~= h.take(i - 1));
            if contains_chars(&c, &q) {
                let found = history[i - 1].command.clone();
                self.state.history_index = Some(i - 1);
                return Some(found);
            }
            i = i - 1;
        }
        None
    }

    /// Leaves the search and returns the input that was kept.
    pub fn exit_search(&mut self) -> (r: String)
        ensures
            keeps_history(*old(self), *final(self)),
            final(self).manager() == old(self).manager(),
            !final(self).nav().search_mode,
            final(self).nav().search_query@ == Seq::<char>::empty(),
            final(self).nav().history_index is None,
            final(self).nav().original_input@ == Seq::<char>::empty(),
            r@ == old(self).nav().original_input@,
    {
        self.state.search_mode = false;
        self.state.search_query = String::new();
        self.state.history_index = None;
        let original = self.state.original_input.clone();
        self.state.original_input = String::new();
        original
    }

    /// Adds a command to the history and resets the navigation.
    pub fn add_command(&mut self, command: String, exit_code: Option<i32>)
        ensures
            final(self).manager().entries() == old(self).manager().entries().push((command@, exit_code)),
            final(self).nav().history_index is None,
            !final(self).nav().search_mode,
            final(self).nav().search_query@ == Seq::<char>::empty(),
            final(self).nav().original_input@ == Seq::<char>::empty(),
    {
        self.history_manager.add_command(command, exit_code);
        self.reset_navigation();
    }

    /// Resets the navigation: nothing selected, no search, no kept input.
    pub fn reset_navigation(&mut self)
        ensures
            keeps_history(*old(self), *final(self)),
            final(self).manager() == old(self).manager(),
            final(self).nav().history_index is None,
            !final(self).nav().search_mode,
            final(self).nav().search_query@ == Seq::<char>::empty(),
            final(self).nav().original_input@ == Seq::<char>::empty(),
    {
        self.state.history_index = None;
        self.state.search_mode = false;
        self.state.search_query = String::new();
        self.state.original_input = String::new();
    }

    /// The listing of the history for the `history` command: one line per
    /// command, numbered from 1.
    #[verifier::rlimit(40)]
    pub fn get_history_display(&self) -> (r: String)
        ensures
            r@ == history_listing(self.cmds()),
    {
        let history = self.history_manager.get_history();
        proof {
            self.lemma_cmds(history@);
        }
        let ghost h = self.cmds();
        let mut out: Vec<char> = Vec::new();
        let mut i: usize = 0;
        while i < history.len()
            invariant
                i <= history@.len() == h.len(),
                forall|j: int| 0 <= j < history@.len() ==> #[trigger] history@[j].command@ == h[j],
                out@ == history_listing(h.take(i as int)),
            decreases history.len() - i,
        {
            let ghost before = out@;
            let num = decimal_chars((i as u64) + 1);
            let mut pad: usize = num.len();
            while pad < 4
                invariant
                    num.len() <= pad <= 4 || (pad == num.len() && pad >= 4),
                    out@ == before + Seq::new((pad - num.len()) as nat, |k: int| ' '),
                decreases 4 - pad,
            {
                out.push(' ');
                pad = pad + 1;
                assert(out@ =~= before + Seq::new((pad - num.len()) as nat, |k: int| ' '));
            }
            let ghost padded = out@;
            let mut k: usize = 0;
            while k < num.len()
                invariant
                    k <= num.len(),
                    out@ == padded + num@.take(k as int),
                decreases num.len() - k,
            {
                out.push(num[k]);
                k = k + 1;
                assert(out@ =~= padded + num@.take(k as int));
            }
            assert(num@.take(k as int) =~= num@);
            assert(out@ =~= before + pad4(dec_seq((i + 1) as nat)));
            out.push(' ');
            out.push(' ');
            let c = chars_of_string(&history[i].command);
            let ghost mid = out@;
            let mut k: usize = 0;
            while k < c.len()
                invariant
                    k <= c.len(),
                    out@ == mid + c@.take(k as int),
                decreases c.len() - k,
            {
                out.push(c[k]);
                k = k + 1;
                assert(out@ =~= mid + c@.take(k as int));
            }
            assert(c@.take(k as int) =~= c@);
            out.push('\n');
            assert(h.take(i + 1).drop_last() =~= h.take(i as int));
            assert(out@ =~= before + display_line(i as nat, h[i as int]));
            i = i + 1;
        }
        assert(h.take(i as int) =~= h);
        string_of(&out)
    }

    /// The navigation state.
    pub fn state(&self) -> (s: &HistoryNavigationState)
        ensures
            *s == self.nav(),
    {
        &self.state
    }

    /// The history.
    pub fn history_manager(&self) -> (h: &HistoryManager)
        ensures
            *h == self.manager(),
    {
        &self.history_manager
    }
}

/// `b` follows `a` by a step of a reverse search: the history, whether
/// searching, and the saved input are as they were.
pub open spec fn search_step(a: HistoryNavigator, b: HistoryNavigator) -> bool {
    &&& b.manager() == a.manager()
    &&& b.nav().search_mode == a.nav().search_mode
    &&& b.nav().original_input == a.nav().original_input
}

/// `b` follows `a` by a navigation step: the history is as it was.
pub open spec fn keeps_history(a: HistoryNavigator, b: HistoryNavigator) -> bool {
    b.manager() == a.manager()
}

/// Leaving a reverse search gives back the input saved when it started, and
/// the history is as it was, after any number of search steps: for
/// navigators `run[0]`, `run[1]`, ..., where `run[0]` is what starting the
/// search on `input` left, each next one follows by a search step, and
/// `last` is what leaving the search from the final one left, returning `r`.
pub proof fn lemma_exit_gives_back_saved_input(
    before: HistoryNavigator,
    input: Seq<char>,
    run: Seq<HistoryNavigator>,
    last: HistoryNavigator,
    r: Seq<char>,
)
    requires
        run.len() >= 1,
        run[0].manager() == before.manager(),
        run[0].nav().search_mode,
        run[0].nav().original_input@ == input,
        forall|i: int| 0 <= i < run.len() - 1 ==> search_step(#[trigger] run[i], run[i + 1]),
        last.manager() == run.last().manager(),
        r == run.last().nav().original_input@,
        !last.nav().search_mode,
    ensures
        r == input,
        last.manager() == before.manager(),
        !last.nav().search_mode,
    decreases run.len(),
{
    if run.len() > 1 {
        let shorter = run.drop_last();
        assert forall|i: int| 0 <= i < shorter.len() - 1 implies search_step(#[trigger] shorter[i], shorter[i + 1]) by {
            assert(shorter[i] == run[i] && shorter[i + 1] == run[i + 1]);
        }
        assert(search_step(run[run.len() - 2], run[run.len() - 1]));
        lemma_exit_gives_back_saved_input(before, input, shorter, last, shorter.last().nav().original_input@);
    }
}

/// No run of navigation steps changes the history: when each navigator of
/// `run` follows the one before by a step that keeps the history (as
/// `navigate_up`, `navigate_down`, `start_reverse_search`,
/// `perform_reverse_search`, `exit_search` and `reset_navigation` all do),
/// every one of them holds the history of the first.
pub proof fn lemma_navigation_keeps_history(run: Seq<HistoryNavigator>)
    requires
        run.len() >= 1,
        forall|i: int| 0 <= i < run.len() - 1 ==> keeps_history(#[trigger] run[i], run[i + 1]),
    ensures
        forall|i: int| 0 <= i < run.len() ==> (#[trigger] run[i]).manager() == run[0].manager(),
    decreases run.len(),
{
    if run.len() > 1 {
        let shorter = run.drop_last();
        assert forall|i: int| 0 <= i < shorter.len() - 1 implies keeps_history(#[trigger] shorter[i], shorter[i + 1]) by {
            assert(shorter[i] == run[i] && shorter[i + 1] == run[i + 1]);
        }
        lemma_navigation_keeps_history(shorter);
        assert forall|i: int| 0 <= i < run.len() implies (#[trigger] run[i]).manager() == run[0].manager() by {
            if i < run.len() - 1 {
                assert(run[i] == shorter[i]);
            } else {
                assert(keeps_history(run[i - 1], run[i]));
                assert(run[i - 1] == shorter[i - 1]);
            }
        }
    }
}

} // verus!
