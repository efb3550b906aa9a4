//! Debugging support: debug settings and breakpoints, error recovery,
//! logging, profiling and test settings.
use crate::stamps::new_uuid;
use crate::text::{chars_of, chars_of_string, eq_chars, lemma_split_cons, lemma_split_nonempty, split_chars, split_seq, string_of};
use vstd::prelude::*;
use vstd::string::*;

pub mod error_recovery;
pub mod logger;
pub mod profiler;
pub mod testing;

verus! {

/// Debug configuration.
#[derive(Debug, Clone, Copy)]
pub struct DebugConfig {
    /// Enable debug mode
    pub debug_mode: bool,
    /// Enable verbose logging
    pub verbose_logging: bool,
    /// Enable performance profiling
    pub enable_profiling: bool,
    /// Enable error recovery
    pub enable_error_recovery: bool,
    /// Debug level
    pub debug_level: DebugLevel,
    /// Where debug output goes
    pub debug_destination: DebugDestination,
}

/// Debug levels.
#[derive(Debug, Clone, Copy, PartialEq, Eq, Structural)]
pub enum DebugLevel {
    /// Trace
    Trace,
    /// Debug
    Debug,
    /// Info
    Info,
    /// Warning
    Warn,
    /// Error
    Error,
    /// Fatal
    Fatal,
}

/// Debug output destinations.
#[derive(Debug, Clone, Copy, PartialEq, Eq, Structural)]
pub enum DebugDestination {
    /// Standard error
    Stderr,
    /// A file
    File,
    /// A socket
    Socket,
    /// A pipe
    Pipe,
}

/// A breakpoint.
#[derive(Debug, Clone)]
pub struct Breakpoint {
    /// Identifier
    pub id: String,
    /// Condition
    pub condition: String,
    /// Whether it is enabled
    pub enabled: bool,
    /// How often it was hit
    pub hit_count: u32,
}

impl Default for DebugConfig {
    /// Debug mode, verbose logging and profiling off, error recovery on, at
    /// the info level, to standard error.
    fn default() -> (c: Self)
        ensures
            !c.debug_mode,
            !c.verbose_logging,
            !c.enable_profiling,
            c.enable_error_recovery,
            c.debug_level == DebugLevel::Info,
            c.debug_destination == DebugDestination::Stderr,
    {
        DebugConfig {
            debug_mode: false,
            verbose_logging: false,
            enable_profiling: false,
            enable_error_recovery: true,
            debug_level: DebugLevel::Info,
            debug_destination: DebugDestination::Stderr,
        }
    }
}

/// A lowercase hexadecimal digit.
pub open spec fn is_lower_hex(c: char) -> bool {
    ('0' <= c && c <= '9') || ('a' <= c && c <= 'f')
}

/// Text in the hyphenated lowercase form of a UUID: 36 characters, hyphens
/// at positions 8, 13, 18 and 23, lowercase hexadecimal digits elsewhere.
pub open spec fn is_uuid_text(s: Seq<char>) -> bool {
    &&& s.len() == 36
    &&& forall|i: int|
        0 <= i < 36 ==> if i == 8 || i == 13 || i == 18 || i == 23 {
            s[i] == '-'
        } else {
            is_lower_hex(#[trigger] s[i])
        }
}

/// `uuid::Uuid`'s `to_string`: through `Display`, `LowerHex` and the
/// hyphenated format, the identifier written as `xxxxxxxx-xxxx-xxxx-xxxx-
/// xxxxxxxxxxxx` in lowercase hexadecimal. The contract states that shape;
/// which digits come out, the identifier's bytes, is left unsaid, as the
/// identifier is opaque here.
#[verifier::external_body]
fn uuid_text(u: &uuid::Uuid) -> (s: String)
    ensures
        is_uuid_text(s@),
{
    u.to_string()
}

/// `bs` without the breakpoints whose identifier is `id`, in order.
pub open spec fn breakpoints_without(bs: Seq<Breakpoint>, id: Seq<char>) -> Seq<Breakpoint>
    decreases bs.len(),
{
    if bs.len() == 0 {
        seq![]
    } else if bs.last().id@ == id {
        breakpoints_without(bs.drop_last(), id)
    } else {
        breakpoints_without(bs.drop_last(), id).push(bs.last())
    }
}

/// An identifier for a new breakpoint: `bp_` and the first group of the
/// text of a fresh random UUID, eight lowercase hexadecimal digits.
pub open spec fn is_breakpoint_id(id: Seq<char>) -> bool {
    &&& id.len() == 11
    &&& id.subrange(0, 3) == "bp_"@
    &&& forall|i: int| 3 <= i < 11 ==> is_lower_hex(#[trigger] id[i])
}

/// The identifier of a breakpoint drawn from the text of an identifier:
/// `bp_` and the text up to its first hyphen (all of it when there is
/// none). For the hyphenated text of a UUID, that is `bp_` and its first
/// eight hexadecimal digits.
pub fn breakpoint_id(text: &str) -> (id: String)
    ensures
        id@ == "bp_"@ + split_seq(text@, '-')[0],
        is_uuid_text(text@) ==> id@ == "bp_"@ + text@.subrange(0, 8),
{
    let chars = chars_of(text);
    let groups = split_chars(&chars, '-');
    proof {
        lemma_split_nonempty(chars@, '-', 0, seq![]);
        assert(groups@.map_values(|g: Vec<char>| g@).len() == groups@.len());
        assert(groups@.map_values(|g: Vec<char>| g@)[0] == groups@[0]@);
        if is_uuid_text(text@) {
            let t = chars@;
            let w = t.subrange(0, 8);
            let b = t.subrange(9, 36);
            assert(t =~= w + seq!['-'] + b);
            assert forall|k: int| 0 <= k < w.len() implies w[k] != '-' by {
                assert(w[k] == t[k]);
                assert(is_lower_hex(t[k]));
            }
            lemma_split_cons(w, b, '-');
        }
    }
    let mut id = String::from_str("bp_");
    let group = string_of(&groups[0]);
    id.append(group.as_str());
    id
}

/// Adds an enabled breakpoint on `condition`, not hit yet, after the others,
/// and returns its identifier: `breakpoint_id` of the text of a fresh UUID.
pub fn add_breakpoint(breakpoints: &mut Vec<Breakpoint>, condition: String) -> (id: String)
    ensures
        is_breakpoint_id(id@),
        final(breakpoints)@.len() == old(breakpoints)@.len() + 1,
        forall|i: int|
            0 <= i < old(breakpoints)@.len() ==> #[trigger] final(breakpoints)@[i] == old(breakpoints)@[i],
        final(breakpoints)@.last().id@ == id@,
        final(breakpoints)@.last().condition@ == condition@,
        final(breakpoints)@.last().enabled,
        final(breakpoints)@.last().hit_count == 0,
{
    let text = uuid_text(&new_uuid());
    let id = breakpoint_id(text.as_str());
    proof {
        reveal_strlit("bp_");
        assert(id@.subrange(0, 3) =~= "bp_"@);
        assert forall|i: int| 3 <= i < 11 implies is_lower_hex(#[trigger] id@[i]) by {
            assert(id@[i] == text@[i - 3]);
        }
    }
    let kept = id.clone();
    breakpoints.push(Breakpoint { id: kept, condition, enabled: true, hit_count: 0 });
    id
}

/// Removes every breakpoint with identifier `id`, keeping the others in
/// order; tells whether one was removed.
pub fn remove_breakpoint(breakpoints: &mut Vec<Breakpoint>, id: &str) -> (removed: bool)
    ensures
        final(breakpoints)@ == breakpoints_without(old(breakpoints)@, id@),
        removed == (final(breakpoints)@.len() < old(breakpoints)@.len()),
{
    let ghost o = breakpoints@;
    let target = chars_of(id);
    let initial_len = breakpoints.len();
    let mut i: usize = 0;
    let ghost mut j: int = 0;
    while i < breakpoints.len()
        invariant
            0 <= j <= o.len(),
            i <= breakpoints.len(),
            target@ == id@,
            initial_len == o.len(),
            breakpoints@.len() - i == o.len() - j,
            breakpoints@.subrange(0, i as int) == breakpoints_without(o.take(j), id@),
            breakpoints@.subrange(i as int, breakpoints@.len() as int) == o.subrange(j, o.len() as int),
        decreases breakpoints.len() - i,
    {
        proof {
            assert(o.take(j + 1).drop_last() =~= o.take(j));
            assert(breakpoints@.subrange(i as int, breakpoints@.len() as int)[0] == breakpoints@[i as int]);
            assert(o.subrange(j, o.len() as int)[0] == o[j]);
        }
        let here = chars_of_string(&breakpoints[i].id);
        let ghost before = breakpoints@;
        if eq_chars(&here, &target) {
            breakpoints.remove(i);
            proof {
                assert(breakpoints@.subrange(0, i as int) =~= before.subrange(0, i as int));
                assert(breakpoints@.subrange(i as int, breakpoints@.len() as int) =~= before.subrange(
                    i + 1,
                    before.len() as int,
                ));
                assert(o.subrange(j + 1, o.len() as int) =~= o.subrange(j, o.len() as int).subrange(
                    1,
                    o.len() - j,
                ));
            }
        } else {
            proof {
                assert(before.subrange(0, i + 1) =~= before.subrange(0, i as int).push(before[i as int]));
                assert(o.subrange(j + 1, o.len() as int) =~= o.subrange(j, o.len() as int).subrange(
                    1,
                    o.len() - j,
                ));
            }
            i = i + 1;
        }
        proof {
            j = j + 1;
        }
    }
    proof {
        assert(o.take(j) =~= o);
        assert(breakpoints@.subrange(0, i as int) =~= breakpoints@);
    }
    breakpoints.len() < initial_len
}

} // verus!
