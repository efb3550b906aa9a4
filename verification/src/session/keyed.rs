//! Tables keyed by identifier: entries of an identifier and a value, where
//! putting a value under an identifier replaces the entry that has it, or
//! adds one at the end. Also the restoring of such tables from text, where
//! identifiers that do not parse are passed over.
use crate::session::tab_manager::{index_of_id, lemma_index_of_id, parse_uuid, parsed_ids, parsed_uuid};
use crate::stamps::same_uuid;
use vstd::prelude::*;

verus! {

/// The first position of `es` whose identifier is `k`.
pub open spec fn key_index<T>(es: Seq<(uuid::Uuid, T)>, k: uuid::Uuid) -> Option<int> {
    index_of_id(es.map_values(|e: (uuid::Uuid, T)| e.0), k)
}

/// What `key_index` finds: a position holding `k` with none before it, or
/// no position holding `k`.
pub proof fn lemma_key_index<T>(es: Seq<(uuid::Uuid, T)>, k: uuid::Uuid)
    ensures
        match key_index(es, k) {
            Some(i) => 0 <= i < es.len() && es[i].0 == k && forall|j: int| 0 <= j < i ==> es[j].0 != k,
            None => forall|j: int| 0 <= j < es.len() ==> es[j].0 != k,
        },
{
    let ids = es.map_values(|e: (uuid::Uuid, T)| e.0);
    assert(key_index(es, k) == index_of_id(ids, k));
    lemma_index_of_id(ids, k);
    assert forall|j: int| 0 <= j < es.len() implies ids[j] == #[trigger] es[j].0 by {}
}

/// The value under `k`, if any.
pub open spec fn value_of<T>(es: Seq<(uuid::Uuid, T)>, k: uuid::Uuid) -> Option<T> {
    match key_index(es, k) {
        Some(i) => Some(es[i].1),
        None => None,
    }
}

/// The list under `k`; empty when there is none.
pub open spec fn list_of<T>(es: Seq<(uuid::Uuid, Seq<T>)>, k: uuid::Uuid) -> Seq<T> {
    match key_index(es, k) {
        Some(i) => es[i].1,
        None => seq![],
    }
}

/// `es` with `v` put under `k`: in place of the entry for `k`, else at the
/// end.
pub open spec fn upsert_entry<T>(es: Seq<(uuid::Uuid, T)>, k: uuid::Uuid, v: T) -> Seq<(uuid::Uuid, T)> {
    match key_index(es, k) {
        Some(i) => es.update(i, (k, v)),
        None => es.push((k, v)),
    }
}

/// A table of lists, each list as a sequence.
pub open spec fn lists_view<T>(es: Seq<(uuid::Uuid, Vec<T>)>) -> Seq<(uuid::Uuid, Seq<T>)> {
    es.map_values(|e: (uuid::Uuid, Vec<T>)| (e.0, e.1@))
}

/// Viewing the lists does not move the keys.
pub proof fn lemma_lists_view_keys<T>(es: Seq<(uuid::Uuid, Vec<T>)>, k: uuid::Uuid)
    ensures
        key_index(lists_view(es), k) == key_index(es, k),
{
    assert(lists_view(es).map_values(|e: (uuid::Uuid, Seq<T>)| e.0) =~= es.map_values(
        |e: (uuid::Uuid, Vec<T>)| e.0,
    ));
}

/// Putting a list in and then viewing the table is viewing it and then
/// putting the list's sequence in.
pub proof fn lemma_lists_view_upsert<T>(es: Seq<(uuid::Uuid, Vec<T>)>, k: uuid::Uuid, v: Vec<T>)
    ensures
        lists_view(upsert_entry(es, k, v)) == upsert_entry(lists_view(es), k, v@),
{
    lemma_lists_view_keys(es, k);
    match key_index(es, k) {
        Some(i) => {
            lemma_key_index(es, k);
            assert(lists_view(es.update(i, (k, v))) =~= lists_view(es).update(i, (k, v@)));
        },
        None => {
            assert(lists_view(es.push((k, v))) =~= lists_view(es).push((k, v@)));
        },
    }
}

/// `es` with the values of `entries` put in, in order, each under the
/// identifier its text parses to; entries whose text does not parse are
/// passed over.
pub open spec fn restored_values<T>(es: Seq<(uuid::Uuid, T)>, entries: Seq<(Seq<char>, T)>) -> Seq<(uuid::Uuid, T)>
    decreases entries.len(),
{
    if entries.len() == 0 {
        es
    } else {
        let prev = restored_values(es, entries.drop_last());
        match parsed_uuid(entries.last().0) {
            Some(k) => upsert_entry(prev, k, entries.last().1),
            None => prev,
        }
    }
}

/// `es` with the lists of `entries` put in, in order, each under the
/// identifier its text parses to and holding the identifiers of it that
/// parse; entries whose text does not parse are passed over.
pub open spec fn restored_lists(es: Seq<(uuid::Uuid, Seq<uuid::Uuid>)>, entries: Seq<(Seq<char>, Seq<Seq<char>>)>) -> Seq<(uuid::Uuid, Seq<uuid::Uuid>)>
    decreases entries.len(),
{
    if entries.len() == 0 {
        es
    } else {
        let prev = restored_lists(es, entries.drop_last());
        match parsed_uuid(entries.last().0) {
            Some(k) => upsert_entry(prev, k, parsed_ids(entries.last().1)),
            None => prev,
        }
    }
}

/// `es` with the links of `entries` put in, in order, when both texts
/// parse; the others are passed over.
pub open spec fn restored_links(es: Seq<(uuid::Uuid, uuid::Uuid)>, entries: Seq<(Seq<char>, Seq<char>)>) -> Seq<(uuid::Uuid, uuid::Uuid)>
    decreases entries.len(),
{
    if entries.len() == 0 {
        es
    } else {
        let prev = restored_links(es, entries.drop_last());
        match (parsed_uuid(entries.last().0), parsed_uuid(entries.last().1)) {
            (Some(k), Some(v)) => upsert_entry(prev, k, v),
            _ => prev,
        }
    }
}

/// The position of the entry for `k`.
pub fn find_key<T>(es: &Vec<(uuid::Uuid, T)>, k: &uuid::Uuid) -> (r: Option<usize>)
    ensures
        match key_index(es@, *k) {
            None => r is None,
            Some(i) => r == Some(i as usize),
        },
        r matches Some(i) ==> i < es.len() && es@[i as int].0 == *k,
{
    proof {
        lemma_key_index(es@, *k);
    }
    let mut i: usize = 0;
    while i < es.len()
        invariant
            i <= es.len(),
            forall|j: int| 0 <= j < i ==> es@[j].0 != *k,
        decreases es.len() - i,
    {
        if same_uuid(&es[i].0, k) {
            proof {
                lemma_key_index(es@, *k);
            }
            return Some(i);
        }
        i = i + 1;
    }
    None
}

/// Puts `v` under `k`.
pub fn upsert<T>(es: &mut Vec<(uuid::Uuid, T)>, k: uuid::Uuid, v: T)
    ensures
        final(es)@ == upsert_entry(old(es)@, k, v),
{
    proof {
        lemma_key_index(es@, k);
    }
    match find_key(es, &k) {
        Some(i) => {
            es.set(i, (k, v));
        },
        None => {
            es.push((k, v));
        },
    }
}

/// A copy of the list under `k`; empty when there is none.
pub fn list_copy(es: &Vec<(uuid::Uuid, Vec<uuid::Uuid>)>, k: &uuid::Uuid) -> (r: Vec<uuid::Uuid>)
    ensures
        r@ == list_of(lists_view(es@), *k),
{
    proof {
        lemma_lists_view_keys(es@, *k);
    }
    let mut r: Vec<uuid::Uuid> = Vec::new();
    match find_key(es, k) {
        Some(i) => {
            let src = &es[i].1;
            let mut j: usize = 0;
            while j < src.len()
                invariant
                    j <= src.len(),
                    r@ == src@.take(j as int),
                decreases src.len() - j,
            {
                r.push(src[j]);
                j = j + 1;
                assert(r@ =~= src@.take(j as int));
            }
            assert(src@.take(j as int) =~= src@);
            proof {
                lemma_key_index(es@, *k);
            }
        },
        None => {},
    }
    r
}

/// Puts `x` last in the list under `k`, making the list when there is
/// none.
pub fn push_to_list<T>(es: &mut Vec<(uuid::Uuid, Vec<T>)>, k: uuid::Uuid, x: T)
    ensures
        lists_view(final(es)@) == upsert_entry(lists_view(old(es)@), k, list_of(lists_view(old(es)@), k).push(x)),
{
    proof {
        lemma_lists_view_keys(es@, k);
        lemma_key_index(es@, k);
    }
    match find_key(es, &k) {
        Some(i) => {
            let (kk, mut v) = es.remove(i);
            v.push(x);
            es.insert(i, (kk, v));
            assert(lists_view(es@) =~= lists_view(old(es)@).update(i as int, (k, list_of(lists_view(old(es)@), k).push(x))));
        },
        None => {
            let mut v: Vec<T> = Vec::new();
            v.push(x);
            es.push((k, v));
            assert(lists_view(es@) =~= lists_view(old(es)@).push((k, seq![x])));
        },
    }
}

/// Puts `x` last in the list under `k`, when there is one.
pub fn push_if_listed<T>(es: &mut Vec<(uuid::Uuid, Vec<T>)>, k: uuid::Uuid, x: T)
    ensures
        match key_index(lists_view(old(es)@), k) {
            Some(i) => lists_view(final(es)@) == lists_view(old(es)@).update(i, (k, lists_view(old(es)@)[i].1.push(x))),
            None => final(es)@ == old(es)@,
        },
{
    proof {
        lemma_lists_view_keys(es@, k);
        lemma_key_index(es@, k);
    }
    match find_key(es, &k) {
        Some(i) => {
            let (kk, mut v) = es.remove(i);
            v.push(x);
            es.insert(i, (kk, v));
            assert(lists_view(es@) =~= lists_view(old(es)@).update(i as int, (k, lists_view(old(es)@)[i as int].1.push(x))));
        },
        None => {},
    }
}

/// `es` without the entry for `k`.
pub open spec fn without_key<T>(es: Seq<(uuid::Uuid, T)>, k: uuid::Uuid) -> Seq<(uuid::Uuid, T)> {
    match key_index(es, k) {
        Some(i) => es.remove(i),
        None => es,
    }
}

/// Takes the entry for `k` out, when there is one.
pub fn remove_key<T>(es: &mut Vec<(uuid::Uuid, T)>, k: &uuid::Uuid)
    ensures
        final(es)@ == without_key(old(es)@, *k),
{
    proof {
        lemma_key_index(es@, *k);
    }
    match find_key(es, k) {
        Some(i) => {
            es.remove(i);
        },
        None => {},
    }
}

/// Taking an entry out and then viewing the lists is viewing them and then
/// taking the entry out.
pub proof fn lemma_lists_view_without<T>(es: Seq<(uuid::Uuid, Vec<T>)>, k: uuid::Uuid)
    ensures
        lists_view(without_key(es, k)) == without_key(lists_view(es), k),
{
    lemma_lists_view_keys(es, k);
    lemma_key_index(es, k);
    if let Some(i) = key_index(es, k) {
        assert(lists_view(es.remove(i)) =~= lists_view(es).remove(i));
    }
}

/// Parses the texts of `texts_in` into identifiers, passing over those that
/// do not parse.
pub fn parse_id_list(texts_in: &Vec<String>) -> (r: Vec<uuid::Uuid>)
    ensures
        r@ == parsed_ids(texts_in@.map_values(|x: String| x@)),
{
    let ghost t = texts_in@.map_values(|x: String| x@);
    let mut r: Vec<uuid::Uuid> = Vec::new();
    let mut k: usize = 0;
    while k < texts_in.len()
        invariant
            k <= texts_in.len(),
            t == texts_in@.map_values(|x: String| x@),
            r@ == parsed_ids(t.take(k as int)),
        decreases texts_in.len() - k,
    {
        assert(t.take(k + 1).drop_last() =~= t.take(k as int));
        assert(t.take(k + 1).last() == texts_in@[k as int]@);
        match parse_uuid(texts_in[k].as_str()) {
            Some(id) => r.push(id),
            None => {},
        }
        k = k + 1;
    }
    assert(t.take(k as int) =~= t);
    r
}

/// The texts of each list of identifier texts.
pub open spec fn list_texts(es: Seq<(String, Vec<String>)>) -> Seq<(Seq<char>, Seq<Seq<char>>)> {
    es.map_values(|e: (String, Vec<String>)| (e.0@, e.1@.map_values(|x: String| x@)))
}

/// Puts the lists of `entries` into `table` as `restored_lists` says.
pub fn restore_lists(table: &mut Vec<(uuid::Uuid, Vec<uuid::Uuid>)>, entries: Vec<(String, Vec<String>)>)
    ensures
        lists_view(final(table)@) == restored_lists(lists_view(old(table)@), list_texts(entries@)),
{
    let ghost all = entries@;
    let ghost le = list_texts(all);
    let ghost t0 = lists_view(table@);
    let mut entries = entries;
    let ghost mut k: int = 0;
    while entries.len() > 0
        invariant
            0 <= k <= all.len(),
            entries@ == all.skip(k),
            entries@.len() == all.len() - k,
            le == list_texts(all),
            lists_view(table@) == restored_lists(t0, le.take(k)),
        decreases entries.len(),
    {
        let ghost e = all[k];
        assert(entries@[0] == e);
        assert(le.take(k + 1).drop_last() =~= le.take(k));
        assert(le.take(k + 1).last() == (e.0@, e.1@.map_values(|x: String| x@)));
        let (key, ids) = entries.remove(0);
        match parse_uuid(key.as_str()) {
            Some(id) => {
                let parsed = parse_id_list(&ids);
                proof {
                    lemma_lists_view_upsert(table@, id, parsed);
                }
                upsert(table, id, parsed);
            },
            None => {},
        }
        proof {
            k = k + 1;
        }
        assert(entries@ =~= all.skip(k));
    }
    assert(le.take(k) =~= le);
}

/// Whether `v` holds `x`.
pub fn holds_id(v: &Vec<uuid::Uuid>, x: &uuid::Uuid) -> (r: bool)
    ensures
        r == v@.contains(*x),
{
    let mut i: usize = 0;
    while i < v.len()
        invariant
            i <= v.len(),
            forall|j: int| 0 <= j < i ==> v@[j] != *x,
        decreases v.len() - i,
    {
        if same_uuid(&v[i], x) {
            assert(v@[i as int] == *x);
            return true;
        }
        i = i + 1;
    }
    false
}

} // verus!
