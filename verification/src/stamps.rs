//! Identifiers and timestamps: the random identifiers of the `uuid` crate and
//! the clock of the `chrono` crate (as milliseconds since the Unix epoch),
//! which records found or made at run time carry, and the order of records
//! by time.
use vstd::prelude::*;

verus! {

/// A universally unique identifier of the `uuid` crate.
#[verifier::external_type_specification]
#[verifier::external_body]
pub struct ExUuid(uuid::Uuid);

/// `uuid::Uuid::new_v4`: a fresh random identifier. Nothing is promised of
/// its value, which is random. The crate panics when the system gives it no
/// random bytes, a state of the machine that no precondition can rule out.
#[verifier::external_body]
pub(crate) fn new_uuid() -> uuid::Uuid {
    uuid::Uuid::new_v4()
}

/// `chrono::Utc::now`, taken as milliseconds since the Unix epoch by
/// `timestamp_millis`: the current time. Nothing is promised of its value,
/// which depends on the clock. `Utc::now` panics when the system clock reads
/// before the Unix epoch, a state of the machine that no precondition can
/// rule out.
#[verifier::external_body]
pub(crate) fn utc_now_millis() -> i64 {
    chrono::Utc::now().timestamp_millis()
}

/// `uuid::Uuid`'s `==`, which compares the identifiers' bytes: true exactly
/// when the two are the same identifier.
#[verifier::external_body]
pub(crate) fn same_uuid(a: &uuid::Uuid, b: &uuid::Uuid) -> (r: bool)
    ensures
        r == (*a == *b),
{
    *a == *b
}

/// Position `a` of `keys` comes before position `b`: an earlier time, or
/// the same time and an earlier position.
pub open spec fn earlier(keys: Seq<i64>, a: int, b: int) -> bool {
    keys[a] < keys[b] || (keys[a] == keys[b] && a < b)
}

/// `idx` lists the positions of `keys` from the earliest time to the latest,
/// positions with equal times in their own order: the order a stable sort
/// by time gives. (Being ordered strictly by `earlier`, the positions are
/// distinct, so they are all the positions, each once.)
pub open spec fn by_time(keys: Seq<i64>, idx: Seq<usize>) -> bool {
    &&& idx.len() == keys.len()
    &&& forall|a: int| 0 <= a < idx.len() ==> #[trigger] idx[a] < keys.len()
    &&& forall|a: int, b: int| 0 <= a < b < idx.len() ==> earlier(keys, #[trigger] idx[a] as int, #[trigger] idx[b] as int)
}

/// The positions of `keys` in the order of time, as a stable sort by time
/// orders them.
pub fn time_order(keys: &Vec<i64>) -> (r: Vec<usize>)
    ensures
        by_time(keys@, r@),
{
    let mut r: Vec<usize> = Vec::new();
    let mut i: usize = 0;
    while i < keys.len()
        invariant
            i <= keys.len(),
            r.len() == i,
            forall|a: int| 0 <= a < r.len() ==> #[trigger] r@[a] < i,
            forall|a: int, b: int| 0 <= a < b < r.len() ==> earlier(keys@, #[trigger] r@[a] as int, #[trigger] r@[b] as int),
        decreases keys.len() - i,
    {
        let mut p: usize = 0;
        while p < r.len() && keys[r[p]] <= keys[i]
            invariant
                i < keys.len(),
                p <= r.len(),
                r.len() == i,
                forall|a: int| 0 <= a < r.len() ==> #[trigger] r@[a] < i,
                forall|q: int| 0 <= q < p ==> keys@[#[trigger] r@[q] as int] <= keys@[i as int],
            decreases r.len() - p,
        {
            p = p + 1;
        }
        proof {
            assert forall|q: int| p <= q < r.len() implies keys@[#[trigger] r@[q] as int] > keys@[i as int] by {
                if q > p {
                    assert(earlier(keys@, r@[p as int] as int, r@[q] as int));
                }
            }
        }
        let ghost before = r@;
        r.insert(p, i);
        proof {
            assert forall|a: int, b: int| 0 <= a < b < r.len() implies earlier(keys@, #[trigger] r@[a] as int, #[trigger] r@[b] as int) by {
                if b < p {
                    assert(r@[a] == before[a] && r@[b] == before[b]);
                } else if b == p {
                    assert(r@[a] == before[a]);
                    assert(keys@[before[a] as int] <= keys@[i as int]);
                } else if a < p {
                    assert(r@[a] == before[a] && r@[b] == before[b - 1]);
                } else if a == p {
                    assert(r@[b] == before[b - 1]);
                    assert(keys@[before[b - 1] as int] > keys@[i as int]);
                } else {
                    assert(r@[a] == before[a - 1] && r@[b] == before[b - 1]);
                }
            }
        }
        i = i + 1;
    }
    r
}

} // verus!
