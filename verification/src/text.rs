//! Character-level string helpers shared by the terminal modules.
//!
//! Every helper works on the `Seq<char>` view of a string, so that the
//! contracts of the terminal modules can speak of characters directly.
use vstd::prelude::*;
use vstd::string::*;

verus! {

/// Appends one character to a `String` (std's `String::push`).
#[verifier::external_body]
pub(crate) fn push_char(s: &mut String, c: char)
    ensures
        final(s)@ == old(s)@.push(c),
{
    s.push(c)
}

/// The characters of `s`, in order.
pub fn chars_of(s: &str) -> (v: Vec<char>)
    ensures
        v@ == s@,
{
    let n = s.unicode_len();
    let mut v: Vec<char> = Vec::new();
    let mut i: usize = 0;
    while i < n
        invariant
            n == s@.len(),
            i <= n,
            v@ == s@.subrange(0, i as int),
        decreases n - i,
    {
        let c = s.get_char(i);
        v.push(c);
        i = i + 1;
        assert(v@ =~= s@.subrange(0, i as int));
    }
    assert(v@ =~= s@);
    v
}

/// A `String` holding exactly the characters of `v`.
pub fn string_of(v: &Vec<char>) -> (s: String)
    ensures
        s@ == v@,
{
    let mut s = String::new();
    let mut i: usize = 0;
    while i < v.len()
        invariant
            i <= v.len(),
            s@ == v@.subrange(0, i as int),
        decreases v.len() - i,
    {
        push_char(&mut s, v[i]);
        i = i + 1;
        assert(s@ =~= v@.subrange(0, i as int));
    }
    assert(v@.subrange(0, v.len() as int) =~= v@);
    s
}

/// Unicode `White_Space`, the set that `char::is_whitespace` tests.
pub open spec fn is_ws(c: char) -> bool {
    let u = c as u32;
    ||| 0x09 <= u <= 0x0d
    ||| u == 0x20
    ||| u == 0x85
    ||| u == 0xa0
    ||| u == 0x1680
    ||| 0x2000 <= u <= 0x200a
    ||| u == 0x2028
    ||| u == 0x2029
    ||| u == 0x202f
    ||| u == 0x205f
    ||| u == 0x3000
}

/// Whether `c` is white space (the test of `char::is_whitespace`).
pub fn is_whitespace(c: char) -> (b: bool)
    ensures
        b == is_ws(c),
{
    let u = c as u32;
    (0x09 <= u && u <= 0x0d) || u == 0x20 || u == 0x85 || u == 0xa0 || u == 0x1680 || (0x2000
        <= u && u <= 0x200a) || u == 0x2028 || u == 0x2029 || u == 0x202f || u == 0x205f || u
        == 0x3000
}

/// `c` with an ASCII capital letter replaced by its small letter.
pub open spec fn lower_char(c: char) -> char {
    if 'A' <= c && c <= 'Z' {
        ((c as u32) + 32) as char
    } else {
        c
    }
}

/// `s` with every ASCII capital letter replaced by its small letter.
pub open spec fn lower_seq(s: Seq<char>) -> Seq<char> {
    s.map_values(|c: char| lower_char(c))
}

/// Exec form of `lower_char`.
pub fn to_lower_char(c: char) -> (r: char)
    ensures
        r == lower_char(c),
{
    if 'A' <= c && c <= 'Z' {
        let u: u8 = (c as u8) + 32;
        u as char
    } else {
        c
    }
}

/// The characters of `v`, each lowered as `lower_char` says.
pub fn lower_chars(v: &Vec<char>) -> (r: Vec<char>)
    ensures
        r@ == lower_seq(v@),
{
    let mut r: Vec<char> = Vec::new();
    let mut i: usize = 0;
    while i < v.len()
        invariant
            i <= v.len(),
            r@ == lower_seq(v@.subrange(0, i as int)),
        decreases v.len() - i,
    {
        let c = to_lower_char(v[i]);
        r.push(c);
        i = i + 1;
        assert(r@ =~= lower_seq(v@.subrange(0, i as int)));
    }
    assert(v@.subrange(0, v.len() as int) =~= v@);
    r
}

/// `p` occurs in `s` starting at index `i`.
pub open spec fn occurs_at(s: Seq<char>, p: Seq<char>, i: int) -> bool {
    0 <= i && i + p.len() <= s.len() && s.subrange(i, i + p.len()) == p
}

/// `p` occurs somewhere in `s` (the test of `str::contains` with a string pattern).
pub open spec fn contains_seq(s: Seq<char>, p: Seq<char>) -> bool {
    exists|i: int| occurs_at(s, p, i)
}

/// `s` begins with `p`.
pub open spec fn starts_with_seq(s: Seq<char>, p: Seq<char>) -> bool {
    occurs_at(s, p, 0)
}

/// Whether `p` occurs in `s` starting at index `i`.
pub fn matches_at(s: &Vec<char>, p: &Vec<char>, i: usize) -> (b: bool)
    ensures
        b == occurs_at(s@, p@, i as int),
{
    if i > s.len() || p.len() > s.len() - i {
        return false;
    }
    let mut k: usize = 0;
    while k < p.len()
        invariant
            i + p.len() <= s.len(),
            k <= p.len(),
            forall|j: int| 0 <= j < k ==> s@[i + j] == p@[j],
        decreases p.len() - k,
    {
        if s[i + k] != p[k] {
            assert(s@.subrange(i as int, i + p.len())[k as int] != p@[k as int]);
            return false;
        }
        k = k + 1;
    }
    assert(s@.subrange(i as int, i + p.len()) =~= p@);
    true
}

/// Whether `p` occurs in `s`.
pub fn contains_chars(s: &Vec<char>, p: &Vec<char>) -> (b: bool)
    ensures
        b == contains_seq(s@, p@),
{
    if p.len() > s.len() {
        assert forall|i: int| !occurs_at(s@, p@, i) by {}
        return false;
    }
    let last = s.len() - p.len();
    let mut i: usize = 0;
    loop
        invariant
            last == s.len() - p.len(),
            i <= last,
            forall|j: int| 0 <= j < i ==> !occurs_at(s@, p@, j),
        ensures
            forall|j: int| 0 <= j <= last ==> !occurs_at(s@, p@, j),
        decreases last - i,
    {
        if matches_at(s, p, i) {
            return true;
        }
        if i == last {
            break;
        }
        i = i + 1;
    }
    assert forall|j: int| !occurs_at(s@, p@, j) by {
        if 0 <= j <= last {
        }
    }
    false
}

/// Whether `s` begins with `p`.
pub fn starts_with_chars(s: &Vec<char>, p: &Vec<char>) -> (b: bool)
    ensures
        b == starts_with_seq(s@, p@),
{
    matches_at(s, p, 0)
}

/// `s` with every non-overlapping occurrence of the non-empty `p`, found from
/// the left, replaced by `r` (what `str::replace` computes).
pub open spec fn replace_seq(s: Seq<char>, p: Seq<char>, r: Seq<char>) -> Seq<char>
    decreases s.len(),
{
    if s.len() == 0 || p.len() == 0 {
        s
    } else if occurs_at(s, p, 0) {
        r + replace_seq(s.skip(p.len() as int), p, r)
    } else {
        seq![s[0]] + replace_seq(s.skip(1), p, r)
    }
}

/// Exec form of `replace_seq`.
pub fn replace_chars(s: &Vec<char>, p: &Vec<char>, r: &Vec<char>) -> (out: Vec<char>)
    requires
        p.len() > 0,
    ensures
        out@ == replace_seq(s@, p@, r@),
{
    let mut out: Vec<char> = Vec::new();
    let mut i: usize = 0;
    assert(s@.skip(0) =~= s@);
    while i < s.len()
        invariant
            p.len() > 0,
            i <= s.len(),
            out@ + replace_seq(s@.skip(i as int), p@, r@) == replace_seq(s@, p@, r@),
        decreases s.len() - i,
    {
        let ghost rest = s@.skip(i as int);
        if matches_at(s, p, i) {
            assert(occurs_at(rest, p@, 0)) by {
                assert(rest.subrange(0, p.len() as int) =~= s@.subrange(
                    i as int,
                    i + p.len(),
                ));
            }
            assert(rest.skip(p.len() as int) =~= s@.skip(i + p.len()));
            let mut k: usize = 0;
            let ghost before = out@;
            while k < r.len()
                invariant
                    k <= r.len(),
                    out@ == before + r@.subrange(0, k as int),
                decreases r.len() - k,
            {
                out.push(r[k]);
                k = k + 1;
                assert(out@ =~= before + r@.subrange(0, k as int));
            }
            assert(r@.subrange(0, r.len() as int) =~= r@);
            assert(out@ + replace_seq(s@.skip(i + p.len()), p@, r@) =~= before + (r@
                + replace_seq(rest.skip(p.len() as int), p@, r@)));
            i = i + p.len();
        } else {
            assert(!occurs_at(rest, p@, 0)) by {
                if occurs_at(rest, p@, 0) {
                    assert(rest.subrange(0, p.len() as int) =~= s@.subrange(
                        i as int,
                        i + p.len(),
                    ));
                }
            }
            assert(rest.skip(1) =~= s@.skip(i + 1));
            let ghost before = out@;
            out.push(s[i]);
            assert(out@ + replace_seq(s@.skip(i + 1), p@, r@) =~= before + (seq![rest[0]]
                + replace_seq(rest.skip(1), p@, r@)));
            i = i + 1;
        }
    }
    assert(replace_seq(s@.skip(i as int), p@, r@) =~= Seq::<char>::empty());
    assert(out@ + Seq::<char>::empty() =~= out@);
    out
}

/// Whether `a` and `b` hold the same characters.
pub fn eq_chars(a: &Vec<char>, b: &Vec<char>) -> (r: bool)
    ensures
        r == (a@ == b@),
{
    if a.len() != b.len() {
        return false;
    }
    let r = matches_at(a, b, 0);
    proof {
        if r {
            assert(a@.subrange(0, b.len() as int) =~= a@);
        } else {
            if a@ == b@ {
                assert(a@.subrange(0, b.len() as int) =~= a@);
            }
        }
    }
    r
}

/// `s` without its leading white space (as `str::trim_start` leaves it).
pub open spec fn trim_start_seq(s: Seq<char>) -> Seq<char>
    decreases s.len(),
{
    if s.len() > 0 && is_ws(s[0]) {
        trim_start_seq(s.drop_first())
    } else {
        s
    }
}

/// `s` without its trailing white space (as `str::trim_end` leaves it).
pub open spec fn trim_end_seq(s: Seq<char>) -> Seq<char>
    decreases s.len(),
{
    if s.len() > 0 && is_ws(s.last()) {
        trim_end_seq(s.drop_last())
    } else {
        s
    }
}

/// `s` without leading and trailing white space (as `str::trim` leaves it).
pub open spec fn trim_seq(s: Seq<char>) -> Seq<char> {
    trim_end_seq(trim_start_seq(s))
}

/// Exec form of `trim_seq`.
pub fn trim_chars(s: &Vec<char>) -> (r: Vec<char>)
    ensures
        r@ == trim_seq(s@),
{
    let mut a: usize = 0;
    assert(s@.skip(0) =~= s@);
    while a < s.len() && is_whitespace(s[a])
        invariant
            a <= s.len(),
            trim_start_seq(s@) == trim_start_seq(s@.skip(a as int)),
        decreases s.len() - a,
    {
        assert(s@.skip(a as int).drop_first() =~= s@.skip(a + 1));
        a = a + 1;
    }
    let ghost t = s@.skip(a as int);
    assert(trim_start_seq(s@) == t);
    let mut b: usize = s.len();
    assert(t.subrange(0, (b - a) as int) =~= t);
    while b > a && is_whitespace(s[b - 1])
        invariant
            a <= b <= s.len(),
            t == s@.skip(a as int),
            trim_end_seq(t) == trim_end_seq(t.subrange(0, (b - a) as int)),
        decreases b,
    {
        assert(t.subrange(0, (b - a) as int).drop_last() =~= t.subrange(0, (b - 1 - a) as int));
        b = b - 1;
    }
    let mut r: Vec<char> = Vec::new();
    let mut k: usize = a;
    while k < b
        invariant
            a <= k <= b <= s.len(),
            r@ == s@.subrange(a as int, k as int),
        decreases b - k,
    {
        r.push(s[k]);
        k = k + 1;
        assert(r@ =~= s@.subrange(a as int, k as int));
    }
    assert(r@ =~= t.subrange(0, (b - a) as int));
    r
}

/// The words of `s[i..]` (maximal runs of non-white-space characters), given
/// that `cur` is the part of a word already read just before `i`; this is the
/// split that `str::split_whitespace` makes.
pub open spec fn words_from(s: Seq<char>, i: int, cur: Seq<char>) -> Seq<Seq<char>>
    decreases s.len() - i,
{
    if i >= s.len() || i < 0 {
        if cur.len() > 0 {
            seq![cur]
        } else {
            seq![]
        }
    } else if is_ws(s[i]) {
        (if cur.len() > 0 {
            seq![cur]
        } else {
            seq![]
        }) + words_from(s, i + 1, seq![])
    } else {
        words_from(s, i + 1, cur.push(s[i]))
    }
}

/// The words of `s`, in order.
pub open spec fn words(s: Seq<char>) -> Seq<Seq<char>> {
    words_from(s, 0, seq![])
}

/// Every word of `s[i..]` (with `cur` read before `i`, itself without
/// white space) is non-empty and holds no white space.
pub proof fn lemma_words_from_clean(s: Seq<char>, i: int, cur: Seq<char>)
    requires
        forall|j: int| 0 <= j < cur.len() ==> !is_ws(#[trigger] cur[j]),
    ensures
        forall|k: int| 0 <= k < words_from(s, i, cur).len() ==> #[trigger] words_from(s, i, cur)[k].len() > 0,
        forall|k: int, j: int|
            0 <= k < words_from(s, i, cur).len() && 0 <= j < words_from(s, i, cur)[k].len() ==> !is_ws(
                #[trigger] words_from(s, i, cur)[k][j],
            ),
    decreases s.len() - i,
{
    let r = words_from(s, i, cur);
    if i >= s.len() || i < 0 {
        if cur.len() > 0 {
            assert(r == seq![cur]);
            assert forall|k: int, j: int| 0 <= k < r.len() && 0 <= j < r[k].len() implies !is_ws(
                #[trigger] r[k][j],
            ) by {
                assert(r[k] == cur);
            }
        } else {
            assert(r.len() == 0);
        }
    } else if is_ws(s[i]) {
        lemma_words_from_clean(s, i + 1, seq![]);
        let rest = words_from(s, i + 1, seq![]);
        let head: Seq<Seq<char>> = if cur.len() > 0 {
            seq![cur]
        } else {
            seq![]
        };
        assert(r == head + rest);
        assert forall|k: int| 0 <= k < r.len() implies #[trigger] r[k].len() > 0 by {
            if k >= head.len() {
                assert(r[k] == rest[k - head.len()]);
            }
        }
        assert forall|k: int, j: int| 0 <= k < r.len() && 0 <= j < r[k].len() implies !is_ws(
            #[trigger] r[k][j],
        ) by {
            if k >= head.len() {
                assert(r[k] == rest[k - head.len()]);
            }
        }
    } else {
        let c2 = cur.push(s[i]);
        assert forall|j: int| 0 <= j < c2.len() implies !is_ws(#[trigger] c2[j]) by {
            if j < cur.len() {
                assert(c2[j] == cur[j]);
            }
        }
        lemma_words_from_clean(s, i + 1, c2);
        assert(r == words_from(s, i + 1, c2));
    }
}

/// Text without white space is its own trim.
pub proof fn lemma_trim_clean(t: Seq<char>)
    requires
        forall|j: int| 0 <= j < t.len() ==> !is_ws(#[trigger] t[j]),
    ensures
        trim_seq(t) == t,
{
    assert(trim_start_seq(t) == t);
    assert(trim_end_seq(t) == t);
}

/// Exec form of `words`.
pub fn split_whitespace_chars(s: &Vec<char>) -> (r: Vec<Vec<char>>)
    ensures
        r@.map_values(|w: Vec<char>| w@) == words(s@),
{
    let mut r: Vec<Vec<char>> = Vec::new();
    let mut cur: Vec<char> = Vec::new();
    let mut i: usize = 0;
    while i < s.len()
        invariant
            i <= s.len(),
            r@.map_values(|w: Vec<char>| w@) + words_from(s@, i as int, cur@) == words(s@),
        decreases s.len() - i,
    {
        let ghost r0 = r@.map_values(|w: Vec<char>| w@);
        let ghost c0 = cur@;
        let ghost rest = words_from(s@, i + 1, seq![]);
        if is_whitespace(s[i]) {
            if cur.len() > 0 {
                r.push(cur);
                cur = Vec::new();
                assert(r@.map_values(|w: Vec<char>| w@) =~= r0 + seq![c0]);
                assert(words_from(s@, i as int, c0) == seq![c0] + rest);
                assert(r0 + (seq![c0] + rest) =~= (r0 + seq![c0]) + rest);
            } else {
                assert(words_from(s@, i as int, c0) == Seq::<Seq<char>>::empty() + rest);
                assert(Seq::<Seq<char>>::empty() + rest =~= rest);
                cur = Vec::new();
                assert(cur@ =~= Seq::<char>::empty());
            }
        } else {
            cur.push(s[i]);
        }
        i = i + 1;
    }
    let ghost r0 = r@.map_values(|w: Vec<char>| w@);
    if cur.len() > 0 {
        let ghost c0 = cur@;
        r.push(cur);
        assert(r@.map_values(|w: Vec<char>| w@) =~= r0 + seq![c0]);
    } else {
        assert(r0 + Seq::<Seq<char>>::empty() =~= r0);
    }
    r
}

/// The pieces of `s[i..]` between occurrences of `sep`, given that `cur` was
/// read since the last separator; this is the split that `str::split` makes
/// with a single character.
pub open spec fn split_from(s: Seq<char>, sep: char, i: int, cur: Seq<char>) -> Seq<Seq<char>>
    decreases s.len() - i,
{
    if i >= s.len() || i < 0 {
        seq![cur]
    } else if s[i] == sep {
        seq![cur] + split_from(s, sep, i + 1, seq![])
    } else {
        split_from(s, sep, i + 1, cur.push(s[i]))
    }
}

/// The pieces of `s` between occurrences of `sep` (always at least one).
pub open spec fn split_seq(s: Seq<char>, sep: char) -> Seq<Seq<char>> {
    split_from(s, sep, 0, seq![])
}

/// A split always has at least one piece.
pub proof fn lemma_split_nonempty(s: Seq<char>, sep: char, i: int, cur: Seq<char>)
    ensures
        split_from(s, sep, i, cur).len() >= 1,
    decreases s.len() - i,
{
    if 0 <= i < s.len() {
        if s[i] == sep {
            lemma_split_nonempty(s, sep, i + 1, seq![]);
        } else {
            lemma_split_nonempty(s, sep, i + 1, cur.push(s[i]));
        }
    }
}

/// Splitting `x + y` from a position inside `y` reads only `y`.
pub proof fn lemma_split_shift(x: Seq<char>, y: Seq<char>, sep: char, j: int, cur: Seq<char>)
    requires
        0 <= j,
    ensures
        split_from(x + y, sep, x.len() + j, cur) == split_from(y, sep, j, cur),
    decreases y.len() - j,
{
    if j < y.len() {
        assert((x + y)[x.len() + j] == y[j]);
        if y[j] == sep {
            lemma_split_shift(x, y, sep, j + 1, seq![]);
        } else {
            lemma_split_shift(x, y, sep, j + 1, cur.push(y[j]));
        }
    }
}

/// A run of `n` characters without `sep` from `i` joins the current piece.
pub proof fn lemma_split_run(s: Seq<char>, sep: char, i: int, n: int, cur: Seq<char>)
    requires
        0 <= i,
        0 <= n,
        i + n <= s.len(),
        forall|k: int| i <= k < i + n ==> s[k] != sep,
    ensures
        split_from(s, sep, i, cur) == split_from(s, sep, i + n, cur + s.subrange(i, i + n)),
    decreases n,
{
    if n == 0 {
        assert(cur + s.subrange(i, i) =~= cur);
    } else {
        lemma_split_run(s, sep, i + 1, n - 1, cur.push(s[i]));
        assert(cur.push(s[i]) + s.subrange(i + 1, i + n) =~= cur + s.subrange(i, i + n));
    }
}

/// A piece `w` without `sep`, then `sep`, then `b`: the split gives `w`
/// and then the pieces of `b`.
pub proof fn lemma_split_cons(w: Seq<char>, b: Seq<char>, sep: char)
    requires
        !w.contains(sep),
    ensures
        split_seq(w + seq![sep] + b, sep) == seq![w] + split_seq(b, sep),
{
    let s = w + seq![sep] + b;
    assert forall|k: int| 0 <= k < w.len() implies s[k] != sep by {
        assert(s[k] == w[k]);
        if w[k] == sep {
            assert(w.contains(sep));
        }
    }
    lemma_split_run(s, sep, 0, w.len() as int, seq![]);
    assert(Seq::<char>::empty() + s.subrange(0, w.len() as int) =~= w);
    assert(s[w.len() as int] == sep);
    assert(s =~= (w + seq![sep]) + b);
    lemma_split_shift(w + seq![sep], b, sep, 0, seq![]);
}

/// A text without `sep` is a single piece.
pub proof fn lemma_split_single(w: Seq<char>, sep: char)
    requires
        !w.contains(sep),
    ensures
        split_seq(w, sep) == seq![w],
{
    assert forall|k: int| 0 <= k < w.len() implies w[k] != sep by {
        if w[k] == sep {
            assert(w.contains(sep));
        }
    }
    lemma_split_run(w, sep, 0, w.len() as int, seq![]);
    assert(Seq::<char>::empty() + w.subrange(0, w.len() as int) =~= w);
}

/// Exec form of `split_seq`.
pub fn split_chars(s: &Vec<char>, sep: char) -> (r: Vec<Vec<char>>)
    ensures
        r@.map_values(|w: Vec<char>| w@) == split_seq(s@, sep),
{
    let mut r: Vec<Vec<char>> = Vec::new();
    let mut cur: Vec<char> = Vec::new();
    let mut i: usize = 0;
    while i < s.len()
        invariant
            i <= s.len(),
            r@.map_values(|w: Vec<char>| w@) + split_from(s@, sep, i as int, cur@) == split_seq(
                s@,
                sep,
            ),
        decreases s.len() - i,
    {
        let ghost r0 = r@.map_values(|w: Vec<char>| w@);
        if s[i] == sep {
            let ghost c0 = cur@;
            r.push(cur);
            cur = Vec::new();
            assert(r@.map_values(|w: Vec<char>| w@) =~= r0 + seq![c0]);
        } else {
            cur.push(s[i]);
        }
        i = i + 1;
    }
    let ghost r0 = r@.map_values(|w: Vec<char>| w@);
    let ghost c0 = cur@;
    r.push(cur);
    assert(r@.map_values(|w: Vec<char>| w@) =~= r0 + seq![c0]);
    r
}

/// The decimal digit character for `d < 10`.
pub open spec fn digit_char(d: nat) -> char {
    (('0' as u32) + d) as char
}

/// The decimal representation of `n`, without sign or leading zeros
/// (what `to_string` writes for an unsigned integer).
pub open spec fn dec_seq(n: nat) -> Seq<char>
    decreases n,
{
    if n < 10 {
        seq![digit_char(n)]
    } else {
        dec_seq(n / 10).push(digit_char(n % 10))
    }
}

/// The decimal representation of `n`.
pub fn decimal_chars(n: u64) -> (r: Vec<char>)
    ensures
        r@ == dec_seq(n as nat),
    decreases n,
{
    let d: u8 = (n % 10) as u8;
    let c: char = (48u8 + d) as char;
    if n < 10 {
        vec![c]
    } else {
        let mut r = decimal_chars(n / 10);
        r.push(c);
        r
    }
}

/// Appends the characters of `b` to `a`.
pub fn push_all(a: &mut Vec<char>, b: &Vec<char>)
    ensures
        final(a)@ == old(a)@ + b@,
{
    let mut i: usize = 0;
    while i < b.len()
        invariant
            i <= b.len(),
            a@ == old(a)@ + b@.take(i as int),
        decreases b.len() - i,
    {
        a.push(b[i]);
        i = i + 1;
        assert(a@ =~= old(a)@ + b@.take(i as int));
    }
    assert(b@.take(i as int) =~= b@);
}

/// Whether `c` is alphabetic or numeric in Unicode, as
/// `char::is_alphanumeric` decides.
pub uninterp spec fn alphanumeric(c: char) -> bool;

/// An ASCII letter or digit.
pub open spec fn ascii_alphanumeric(c: char) -> bool {
    ('a' <= c && c <= 'z') || ('A' <= c && c <= 'Z') || ('0' <= c && c <= '9')
}

/// std's `char::is_alphanumeric`: the character is Alphabetic or Numeric
/// in Unicode.  The contract names the result and states, as std's
/// documentation gives it, that among ASCII characters exactly the letters
/// and digits qualify; it says nothing more of other characters.
#[verifier::external_body]
pub(crate) fn is_alphanumeric(c: char) -> (b: bool)
    ensures
        b == alphanumeric(c),
        (c as u32) < 128 ==> (b <==> ascii_alphanumeric(c)),
{
    c.is_alphanumeric()
}

/// The characters of a `String`.
pub fn chars_of_string(s: &String) -> (v: Vec<char>)
    ensures
        v@ == s@,
{
    chars_of(s.as_str())
}

} // verus!
