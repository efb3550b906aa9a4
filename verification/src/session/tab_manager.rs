//! Tabs: the tab manager, which keeps tabs by identifier, each session's
//! tabs, their order and the active one, and moves through and within a
//! session's order.
use crate::session::keyed::{
    find_key, holds_id, key_index, lemma_key_index, lemma_lists_view_keys, list_of, list_texts,
    lists_view, push_to_list, remove_key, restore_lists,
    restored_links, restored_lists, restored_values, upsert, upsert_entry, value_of, without_key,
};
use crate::session::TabType;
use crate::stamps::{by_time, new_uuid, same_uuid, time_order, utc_now_millis};
use vstd::prelude::*;

verus! {

/// A tab.
#[derive(Debug)]
pub struct TabMetadata {
    /// Identifier
    pub id: uuid::Uuid,
    /// Name
    pub name: String,
    /// Kind
    pub tab_type: TabType,
    /// The session it belongs to
    pub session_id: uuid::Uuid,
    /// When it was made, in milliseconds since the Unix epoch
    pub created_at: i64,
    /// When it last changed
    pub updated_at: i64,
}

impl Clone for TabMetadata {
    /// A copy of the tab.
    fn clone(&self) -> (c: Self)
        ensures
            c == *self,
    {
        TabMetadata {
            id: self.id,
            name: self.name.clone(),
            tab_type: self.tab_type,
            session_id: self.session_id,
            created_at: self.created_at,
            updated_at: self.updated_at,
        }
    }
}

/// Why a tab operation failed.
#[derive(Debug, Clone, Copy, PartialEq, Eq, Structural)]
pub enum TabError {
    /// No tab has the identifier
    TabNotFound,
    /// The session never had a tab
    SessionNotFound,
    /// The tab belongs to another session
    NotInSession,
}

/// The first index of `xs` holding `x`.
pub open spec fn index_of_id(xs: Seq<uuid::Uuid>, x: uuid::Uuid) -> Option<int>
    decreases xs.len(),
{
    if xs.len() == 0 {
        None
    } else if xs[0] == x {
        Some(0)
    } else {
        match index_of_id(xs.drop_first(), x) {
            Some(i) => Some(i + 1),
            None => None,
        }
    }
}

/// What `index_of_id` finds: an index holding `x` with none before it, or
/// no index holding `x`.
pub proof fn lemma_index_of_id(xs: Seq<uuid::Uuid>, x: uuid::Uuid)
    ensures
        match index_of_id(xs, x) {
            Some(i) => 0 <= i < xs.len() && xs[i] == x && forall|j: int| 0 <= j < i ==> xs[j] != x,
            None => forall|j: int| 0 <= j < xs.len() ==> xs[j] != x,
        },
    decreases xs.len(),
{
    if xs.len() > 0 && xs[0] != x {
        lemma_index_of_id(xs.drop_first(), x);
        assert forall|j: int| 1 <= j < xs.len() implies xs[j] == xs.drop_first()[j - 1] by {}
    }
}

/// The tab after `current` in `order`, going round from the last to the
/// first; none when `current` is not in `order`.
pub open spec fn next_id_in(order: Seq<uuid::Uuid>, current: uuid::Uuid) -> Option<uuid::Uuid> {
    match index_of_id(order, current) {
        Some(i) => Some(order[(i + 1) % (order.len() as int)]),
        None => None,
    }
}

/// The tab before `current` in `order`, going round from the first to the
/// last; none when `current` is not in `order`.
pub open spec fn previous_id_in(order: Seq<uuid::Uuid>, current: uuid::Uuid) -> Option<uuid::Uuid> {
    match index_of_id(order, current) {
        Some(i) => Some(order[if i == 0 { order.len() - 1 } else { i - 1 }]),
        None => None,
    }
}

/// Going to the next tab and then back to the previous one returns to the
/// tab started from, when no tab appears twice in the order.
pub proof fn lemma_next_then_previous(order: Seq<uuid::Uuid>, current: uuid::Uuid)
    requires
        order.no_duplicates(),
        order.contains(current),
    ensures
        next_id_in(order, current) matches Some(n) && previous_id_in(order, n) == Some(current),
{
    lemma_index_of_id(order, current);
    let i = index_of_id(order, current)->0;
    let len = order.len() as int;
    let k = (i + 1) % len;
    if i + 1 < len {
        vstd::arithmetic::div_mod::lemma_small_mod((i + 1) as nat, len as nat);
        assert(k == i + 1);
    } else {
        vstd::arithmetic::div_mod::lemma_mod_self_0(len);
        assert(k == 0);
    }
    let n = order[k];
    lemma_index_of_id(order, n);
    let j = index_of_id(order, n)->0;
    assert(j == k);
}

/// `xs` without `x`.
pub open spec fn ids_without(xs: Seq<uuid::Uuid>, x: uuid::Uuid) -> Seq<uuid::Uuid>
    decreases xs.len(),
{
    if xs.len() == 0 {
        seq![]
    } else if xs.last() == x {
        ids_without(xs.drop_last(), x)
    } else {
        ids_without(xs.drop_last(), x).push(xs.last())
    }
}

/// `xs` without `x`, the others in order.
pub(crate) fn without_id(xs: &Vec<uuid::Uuid>, x: &uuid::Uuid) -> (r: Vec<uuid::Uuid>)
    ensures
        r@ == ids_without(xs@, *x),
{
    let mut r: Vec<uuid::Uuid> = Vec::new();
    let mut i: usize = 0;
    while i < xs.len()
        invariant
            i <= xs.len(),
            r@ == ids_without(xs@.take(i as int), *x),
        decreases xs.len() - i,
    {
        assert(xs@.take(i + 1).drop_last() =~= xs@.take(i as int));
        if !same_uuid(&xs[i], x) {
            r.push(xs[i]);
        }
        i = i + 1;
    }
    assert(xs@.take(i as int) =~= xs@);
    r
}

/// The tabs that `ids` name, in the order of `ids`; identifiers with no tab
/// are passed over.
pub open spec fn listed_tabs(ts: Seq<(uuid::Uuid, TabMetadata)>, ids: Seq<uuid::Uuid>) -> Seq<TabMetadata>
    decreases ids.len(),
{
    if ids.len() == 0 {
        seq![]
    } else {
        let prev = listed_tabs(ts, ids.drop_last());
        match value_of(ts, ids.last()) {
            Some(t) => prev.push(t),
            None => prev,
        }
    }
}

/// The times the tabs of `ts` were made.
pub open spec fn tab_times(ts: Seq<TabMetadata>) -> Seq<i64> {
    ts.map_values(|t: TabMetadata| t.created_at)
}

/// `x` is the tab `o` renamed to `name`, changed at some time.
pub open spec fn renamed(x: TabMetadata, o: TabMetadata, name: Seq<char>) -> bool {
    &&& x.name@ == name
    &&& x.id == o.id && x.tab_type == o.tab_type && x.session_id == o.session_id && x.created_at == o.created_at
}

/// Keeps tabs by identifier, the tabs of each session, the order of each
/// session's tabs and the active tab of each session.
pub struct TabManager {
    tabs: Vec<(uuid::Uuid, TabMetadata)>,
    session_tabs: Vec<(uuid::Uuid, Vec<uuid::Uuid>)>,
    active_tabs: Vec<(uuid::Uuid, uuid::Uuid)>,
    tab_order: Vec<(uuid::Uuid, Vec<uuid::Uuid>)>,
}

impl TabManager {
    /// The tabs, each under its identifier.
    pub closed spec fn tabs(self) -> Seq<(uuid::Uuid, TabMetadata)> {
        self.tabs@
    }

    /// Each session with the identifiers of its tabs.
    pub closed spec fn session_lists(self) -> Seq<(uuid::Uuid, Seq<uuid::Uuid>)> {
        lists_view(self.session_tabs@)
    }

    /// Each session with the order of its tabs.
    pub closed spec fn orders(self) -> Seq<(uuid::Uuid, Seq<uuid::Uuid>)> {
        lists_view(self.tab_order@)
    }

    /// Each session with its active tab.
    pub closed spec fn actives(self) -> Seq<(uuid::Uuid, uuid::Uuid)> {
        self.active_tabs@
    }

    /// The order of the tabs of session `s`; empty when it has none.
    pub open spec fn order_of(self, s: uuid::Uuid) -> Seq<uuid::Uuid> {
        list_of(self.orders(), s)
    }

    /// The active tab of session `s`, if it has one.
    pub open spec fn active_of(self, s: uuid::Uuid) -> Option<uuid::Uuid> {
        value_of(self.actives(), s)
    }

    /// A manager with no tabs.
    pub fn new() -> (m: Self)
        ensures
            m.tabs().len() == 0,
            m.session_lists().len() == 0,
            m.orders().len() == 0,
            m.actives().len() == 0,
    {
        TabManager { tabs: Vec::new(), session_tabs: Vec::new(), active_tabs: Vec::new(), tab_order: Vec::new() }
    }

    /// A copy of tab `tab_id`, if there is one.
    pub fn get_tab(&self, tab_id: uuid::Uuid) -> (r: Option<TabMetadata>)
        ensures
            r == value_of(self.tabs(), tab_id),
    {
        proof {
            lemma_key_index(self.tabs@, tab_id);
        }
        match find_key(&self.tabs, &tab_id) {
            None => None,
            Some(k) => Some(self.tabs[k].1.clone()),
        }
    }

    /// Makes a tab named `name` of kind `tab_type` in session `session_id`:
    /// kept under its new identifier, last among the session's tabs and in
    /// the session's order, and the session's active tab when it has none.
    /// Returns a copy of it.
    pub fn create_tab(&mut self, name: String, tab_type: TabType, session_id: uuid::Uuid) -> (r: TabMetadata)
        ensures
            r.name == name && r.tab_type == tab_type && r.session_id == session_id && r.created_at == r.updated_at,
            final(self).tabs() == upsert_entry(old(self).tabs(), r.id, r),
            final(self).session_lists() == upsert_entry(old(self).session_lists(), session_id, list_of(old(self).session_lists(), session_id).push(r.id)),
            final(self).orders() == upsert_entry(old(self).orders(), session_id, old(self).order_of(session_id).push(r.id)),
            old(self).active_of(session_id) is None ==> final(self).actives() == old(self).actives().push((session_id, r.id)),
            old(self).active_of(session_id) is Some ==> final(self).actives() == old(self).actives(),
    {
        let id = new_uuid();
        let now = utc_now_millis();
        let t = TabMetadata { id, name, tab_type, session_id, created_at: now, updated_at: now };
        let r = t.clone();
        upsert(&mut self.tabs, id, t);
        push_to_list(&mut self.session_tabs, session_id, id);
        push_to_list(&mut self.tab_order, session_id, id);
        proof {
            lemma_key_index(self.active_tabs@, session_id);
        }
        match find_key(&self.active_tabs, &session_id) {
            Some(_) => {},
            None => {
                self.active_tabs.push((session_id, id));
            },
        }
        r
    }

    /// Makes tab `tab_id` the active tab of session `session_id`. Fails
    /// when there is no such tab, the session has no tab list, or the tab is
    /// not one of the session's.
    pub fn set_active_tab(&mut self, session_id: uuid::Uuid, tab_id: uuid::Uuid) -> (r: Result<(), TabError>)
        ensures
            final(self).tabs() == old(self).tabs(),
            final(self).session_lists() == old(self).session_lists(),
            final(self).orders() == old(self).orders(),
            r == (if value_of(old(self).tabs(), tab_id) is None {
                Err::<(), TabError>(TabError::TabNotFound)
            } else if key_index(old(self).session_lists(), session_id) is None {
                Err(TabError::SessionNotFound)
            } else if !list_of(old(self).session_lists(), session_id).contains(tab_id) {
                Err(TabError::NotInSession)
            } else {
                Ok(())
            }),
            r is Ok ==> final(self).actives() == upsert_entry(old(self).actives(), session_id, tab_id),
            r is Err ==> final(self).actives() == old(self).actives(),
    {
        proof {
            lemma_key_index(self.tabs@, tab_id);
            lemma_lists_view_keys(self.session_tabs@, session_id);
            lemma_key_index(self.session_tabs@, session_id);
        }
        if find_key(&self.tabs, &tab_id).is_none() {
            return Err(TabError::TabNotFound);
        }
        let j = match find_key(&self.session_tabs, &session_id) {
            None => {
                return Err(TabError::SessionNotFound);
            },
            Some(j) => j,
        };
        if !holds_id(&self.session_tabs[j].1, &tab_id) {
            return Err(TabError::NotInSession);
        }
        upsert(&mut self.active_tabs, session_id, tab_id);
        Ok(())
    }

    /// A copy of the active tab of session `session_id`, if it has one and
    /// that tab still exists.
    pub fn get_active_tab(&self, session_id: uuid::Uuid) -> (r: Option<TabMetadata>)
        ensures
            r == match self.active_of(session_id) {
                None => None,
                Some(a) => value_of(self.tabs(), a),
            },
    {
        proof {
            lemma_key_index(self.active_tabs@, session_id);
        }
        match find_key(&self.active_tabs, &session_id) {
            None => None,
            Some(j) => self.get_tab(self.active_tabs[j].1),
        }
    }

    /// Renames tab `tab_id` to `new_name`. Fails, changing nothing, when
    /// there is no such tab.
    pub fn rename_tab(&mut self, tab_id: uuid::Uuid, new_name: String) -> (r: Result<(), TabError>)
        ensures
            final(self).session_lists() == old(self).session_lists(),
            final(self).orders() == old(self).orders(),
            final(self).actives() == old(self).actives(),
            final(self).tabs().len() == old(self).tabs().len(),
            match key_index(old(self).tabs(), tab_id) {
                None => r == Err::<(), TabError>(TabError::TabNotFound) && final(self).tabs() == old(self).tabs(),
                Some(k) => {
                    &&& r is Ok
                    &&& forall|i: int| 0 <= i < old(self).tabs().len() && i != k ==> #[trigger] final(self).tabs()[i] == old(self).tabs()[i]
                    &&& final(self).tabs()[k].0 == tab_id
                    &&& renamed(final(self).tabs()[k].1, old(self).tabs()[k].1, new_name@)
                },
            },
    {
        proof {
            lemma_key_index(self.tabs@, tab_id);
        }
        match find_key(&self.tabs, &tab_id) {
            None => Err(TabError::TabNotFound),
            Some(k) => {
                let mut t = self.tabs[k].1.clone();
                t.name = new_name;
                t.updated_at = utc_now_millis();
                self.tabs.set(k, (tab_id, t));
                Ok(())
            },
        }
    }

    /// Copies of the tabs of session `session_id`, from the earliest made to
    /// the latest, tabs made at the same time in the order the session lists
    /// them; identifiers with no tab are passed over.
    pub fn get_session_tabs(&self, session_id: uuid::Uuid) -> (r: Vec<TabMetadata>)
        ensures
            r.len() == listed_tabs(self.tabs(), list_of(self.session_lists(), session_id)).len(),
            exists|idx: Seq<usize>| #[trigger] by_time(tab_times(listed_tabs(self.tabs(), list_of(self.session_lists(), session_id))), idx)
                && forall|a: int| 0 <= a < r.len() ==> #[trigger] r@[a] == listed_tabs(self.tabs(), list_of(self.session_lists(), session_id))[idx[a] as int],
    {
        let ids = crate::session::keyed::list_copy(&self.session_tabs, &session_id);
        let ghost lt = listed_tabs(self.tabs(), ids@);
        let mut mine: Vec<TabMetadata> = Vec::new();
        let mut keys: Vec<i64> = Vec::new();
        let mut k: usize = 0;
        while k < ids.len()
            invariant
                k <= ids.len(),
                mine@ == listed_tabs(self.tabs(), ids@.take(k as int)),
                keys@ == tab_times(mine@),
            decreases ids.len() - k,
        {
            assert(ids@.take(k + 1).drop_last() =~= ids@.take(k as int));
            assert(ids@.take(k + 1).last() == ids@[k as int]);
            match self.get_tab(ids[k]) {
                Some(t) => {
                    keys.push(t.created_at);
                    mine.push(t);
                },
                None => {},
            }
            k = k + 1;
            assert(keys@ =~= tab_times(mine@));
        }
        assert(ids@.take(k as int) =~= ids@);
        let order = time_order(&keys);
        let mut r: Vec<TabMetadata> = Vec::new();
        let mut a: usize = 0;
        while a < order.len()
            invariant
                a <= order.len(),
                by_time(keys@, order@),
                keys@ == tab_times(lt),
                mine@ == lt,
                r.len() == a,
                forall|b: int| 0 <= b < a ==> #[trigger] r@[b] == lt[order@[b] as int],
            decreases order.len() - a,
        {
            r.push(mine[order[a]].clone());
            a = a + 1;
        }
        r
    }

    /// How many tabs session `session_id` lists.
    pub fn get_session_tab_count(&self, session_id: uuid::Uuid) -> (n: usize)
        ensures
            n == list_of(self.session_lists(), session_id).len(),
    {
        proof {
            lemma_lists_view_keys(self.session_tabs@, session_id);
            lemma_key_index(self.session_tabs@, session_id);
        }
        match find_key(&self.session_tabs, &session_id) {
            Some(j) => self.session_tabs[j].1.len(),
            None => 0,
        }
    }

    /// The position of `current` in the order of session `session_id`, with
    /// that order's length.
    fn find_in_order(&self, session_id: &uuid::Uuid, current: &uuid::Uuid) -> (r: Option<(usize, usize, usize)>)
        ensures
            match index_of_id(self.order_of(*session_id), *current) {
                None => r is None,
                Some(i) => r matches Some((j, p, n)) && p == i && n == self.order_of(*session_id).len()
                    && j < self.tab_order.len() && self.tab_order@[j as int].1@ == self.order_of(*session_id),
            },
    {
        proof {
            lemma_lists_view_keys(self.tab_order@, *session_id);
            lemma_key_index(self.tab_order@, *session_id);
        }
        let j = match find_key(&self.tab_order, session_id) {
            None => {
                return None;
            },
            Some(j) => j,
        };
        let order = &self.tab_order[j].1;
        proof {
            assert(order@ == self.order_of(*session_id));
            lemma_index_of_id(order@, *current);
        }
        let mut i: usize = 0;
        while i < order.len()
            invariant
                i <= order.len(),
                order@ == self.order_of(*session_id),
                j < self.tab_order.len(),
                order@ == self.tab_order@[j as int].1@,
                forall|q: int| 0 <= q < i ==> order@[q] != *current,
            decreases order.len() - i,
        {
            if same_uuid(&order[i], current) {
                proof {
                    lemma_index_of_id(order@, *current);
                }
                return Some((j, i, order.len()));
            }
            i = i + 1;
        }
        None
    }

    /// The tab after `current_tab_id` in the order of session `session_id`,
    /// going round from the last to the first; none when the tab is not in
    /// that order.
    pub fn get_next_tab(&self, session_id: uuid::Uuid, current_tab_id: uuid::Uuid) -> (r: Option<TabMetadata>)
        ensures
            r == match next_id_in(self.order_of(session_id), current_tab_id) {
                None => None,
                Some(n) => value_of(self.tabs(), n),
            },
    {
        proof {
            lemma_index_of_id(self.order_of(session_id), current_tab_id);
        }
        match self.find_in_order(&session_id, &current_tab_id) {
            None => None,
            Some((j, i, n)) => {
                let next = self.tab_order[j].1[(i + 1) % n];
                self.get_tab(next)
            },
        }
    }

    /// The tab before `current_tab_id` in the order of session
    /// `session_id`, going round from the first to the last; none when the
    /// tab is not in that order.
    pub fn get_previous_tab(&self, session_id: uuid::Uuid, current_tab_id: uuid::Uuid) -> (r: Option<TabMetadata>)
        ensures
            r == match previous_id_in(self.order_of(session_id), current_tab_id) {
                None => None,
                Some(p) => value_of(self.tabs(), p),
            },
    {
        proof {
            lemma_index_of_id(self.order_of(session_id), current_tab_id);
        }
        match self.find_in_order(&session_id, &current_tab_id) {
            None => None,
            Some((j, i, n)) => {
                let p = if i == 0 {
                    n - 1
                } else {
                    i - 1
                };
                self.get_tab(self.tab_order[j].1[p])
            },
        }
    }

    /// Moves tab `tab_id` to position `new_index` of the order of its
    /// session (to the end when that is past it), the other tabs keeping
    /// their order. Fails when there is no such tab.
    pub fn move_tab(&mut self, tab_id: uuid::Uuid, new_index: usize) -> (r: Result<(), TabError>)
        ensures
            final(self).tabs() == old(self).tabs(),
            final(self).session_lists() == old(self).session_lists(),
            final(self).actives() == old(self).actives(),
            match value_of(old(self).tabs(), tab_id) {
                None => r == Err::<(), TabError>(TabError::TabNotFound) && final(self).orders() == old(self).orders(),
                Some(t) => {
                    let s = t.session_id;
                    &&& r is Ok
                    &&& match key_index(old(self).orders(), s) {
                        None => final(self).orders() == old(self).orders(),
                        Some(j) => {
                            let rest = ids_without(old(self).orders()[j].1, tab_id);
                            let at = if new_index < rest.len() { new_index as int } else { rest.len() as int };
                            final(self).orders() == old(self).orders().update(j, (s, rest.insert(at, tab_id)))
                        },
                    }
                },
            },
    {
        proof {
            lemma_key_index(self.tabs@, tab_id);
        }
        let k = match find_key(&self.tabs, &tab_id) {
            None => {
                return Err(TabError::TabNotFound);
            },
            Some(k) => k,
        };
        let session_id = self.tabs[k].1.session_id;
        proof {
            lemma_lists_view_keys(self.tab_order@, session_id);
            lemma_key_index(self.tab_order@, session_id);
        }
        match find_key(&self.tab_order, &session_id) {
            None => {},
            Some(j) => {
                let ghost before = self.tab_order@;
                let (s, o) = self.tab_order.remove(j);
                let mut rest = without_id(&o, &tab_id);
                let at = if new_index < rest.len() {
                    new_index
                } else {
                    rest.len()
                };
                rest.insert(at, tab_id);
                let ghost moved = rest@;
                self.tab_order.insert(j, (s, rest));
                proof {
                    assert(lists_view(self.tab_order@) =~= lists_view(before).update(j as int, (session_id, moved)));
                }
            },
        }
        Ok(())
    }

    /// Deletes tab `tab_id`: it leaves the tabs, its session's tab list and
    /// its session's order; when it was the session's active tab, the first
    /// tab left in the session's list, if any, becomes active. Fails,
    /// changing nothing, when there is no such tab.
    pub fn delete_tab(&mut self, tab_id: uuid::Uuid) -> (r: Result<(), TabError>)
        ensures
            match value_of(old(self).tabs(), tab_id) {
                None => r == Err::<(), TabError>(TabError::TabNotFound) && final(self).tabs() == old(self).tabs()
                    && final(self).session_lists() == old(self).session_lists()
                    && final(self).orders() == old(self).orders() && final(self).actives() == old(self).actives(),
                Some(t) => {
                    let s = t.session_id;
                    &&& r is Ok
                    &&& final(self).tabs() == without_key(old(self).tabs(), tab_id)
                    &&& match key_index(old(self).session_lists(), s) {
                        None => final(self).session_lists() == old(self).session_lists(),
                        Some(j) => final(self).session_lists() == old(self).session_lists().update(j, (s, ids_without(old(self).session_lists()[j].1, tab_id))),
                    }
                    &&& match key_index(old(self).orders(), s) {
                        None => final(self).orders() == old(self).orders(),
                        Some(j) => final(self).orders() == old(self).orders().update(j, (s, ids_without(old(self).orders()[j].1, tab_id))),
                    }
                    &&& if old(self).active_of(s) == Some(tab_id) && list_of(final(self).session_lists(), s).len() > 0 {
                        final(self).actives() == upsert_entry(old(self).actives(), s, list_of(final(self).session_lists(), s)[0])
                    } else {
                        final(self).actives() == old(self).actives()
                    }
                },
            },
    {
        proof {
            lemma_key_index(self.tabs@, tab_id);
        }
        let k = match find_key(&self.tabs, &tab_id) {
            None => {
                return Err(TabError::TabNotFound);
            },
            Some(k) => k,
        };
        let session_id = self.tabs[k].1.session_id;
        remove_key(&mut self.tabs, &tab_id);
        Self::drop_from_list(&mut self.session_tabs, session_id, &tab_id);
        Self::drop_from_list(&mut self.tab_order, session_id, &tab_id);
        proof {
            lemma_key_index(self.active_tabs@, session_id);
            lemma_lists_view_keys(self.session_tabs@, session_id);
            lemma_key_index(self.session_tabs@, session_id);
        }
        match find_key(&self.active_tabs, &session_id) {
            None => {},
            Some(ja) => {
                if same_uuid(&self.active_tabs[ja].1, &tab_id) {
                    match find_key(&self.session_tabs, &session_id) {
                        None => {},
                        Some(j) => {
                            if self.session_tabs[j].1.len() > 0 {
                                let first = self.session_tabs[j].1[0];
                                upsert(&mut self.active_tabs, session_id, first);
                            }
                        },
                    }
                }
            },
        }
        Ok(())
    }

    /// Takes `x` out of the list under `k`, when there is one.
    fn drop_from_list(es: &mut Vec<(uuid::Uuid, Vec<uuid::Uuid>)>, k: uuid::Uuid, x: &uuid::Uuid)
        ensures
            match key_index(lists_view(old(es)@), k) {
                None => final(es)@ == old(es)@,
                Some(j) => lists_view(final(es)@) == lists_view(old(es)@).update(j, (k, ids_without(lists_view(old(es)@)[j].1, *x))),
            },
    {
        proof {
            lemma_lists_view_keys(es@, k);
            lemma_key_index(es@, k);
        }
        match find_key(es, &k) {
            None => {},
            Some(j) => {
                let ghost before = es@;
                let (kk, o) = es.remove(j);
                let rest = without_id(&o, x);
                let ghost rv = rest@;
                es.insert(j, (kk, rest));
                proof {
                    assert(lists_view(es@) =~= lists_view(before).update(j as int, (k, rv)));
                }
            },
        }
    }

    /// Forgets every tab, tab list, order and active tab.
    pub fn shutdown(&mut self)
        ensures
            final(self).tabs().len() == 0,
            final(self).session_lists().len() == 0,
            final(self).orders().len() == 0,
            final(self).actives().len() == 0,
    {
        self.tabs = Vec::new();
        self.session_tabs = Vec::new();
        self.tab_order = Vec::new();
        self.active_tabs = Vec::new();
    }

    /// How many tabs there are.
    pub fn get_tab_count(&self) -> (n: usize)
        ensures
            n == self.tabs().len(),
    {
        self.tabs.len()
    }
}

/// What `uuid::Uuid::parse_str` gives for a text: the identifier it reads,
/// or none when the text is not a UUID in one of the forms the crate reads.
pub uninterp spec fn parsed_uuid(s: Seq<char>) -> Option<uuid::Uuid>;

/// `uuid::Uuid::parse_str`, its error dropped: the identifier that `s`
/// writes in one of the forms the crate reads (simple, hyphenated, URN,
/// braced). Which texts parse, and to which identifier, is named
/// `parsed_uuid`; the contract claims only that it is a function of the
/// text.
#[verifier::external_body]
pub(crate) fn parse_uuid(s: &str) -> (r: Option<uuid::Uuid>)
    ensures
        r == parsed_uuid(s@),
{
    uuid::Uuid::parse_str(s).ok()
}

/// The tab data kept between runs, as read from the tab file: tab records
/// by the text of their identifier, each session's tab list, each
/// session's tab order and its active tab, identifiers written as text.
pub struct TabDocument {
    /// Tab records by identifier text
    pub tabs: Vec<(String, TabMetadata)>,
    /// Tab lists by session identifier text
    pub session_tabs: Vec<(String, Vec<String>)>,
    /// Tab orders by session identifier text
    pub tab_order: Vec<(String, Vec<String>)>,
    /// Active tabs by session identifier text
    pub active_tabs: Vec<(String, String)>,
}

/// The identifiers that the texts of `ids` parse to, in order; texts that
/// do not parse are passed over.
pub open spec fn parsed_ids(ids: Seq<Seq<char>>) -> Seq<uuid::Uuid>
    decreases ids.len(),
{
    if ids.len() == 0 {
        seq![]
    } else {
        match parsed_uuid(ids.last()) {
            Some(id) => parsed_ids(ids.drop_last()).push(id),
            None => parsed_ids(ids.drop_last()),
        }
    }
}

impl TabManager {
    /// Restores the tab data kept between runs: each record whose key text
    /// parses is put under that identifier as it was read, each tab list and
    /// order whose session text parses is set to the identifiers of it that
    /// parse, and each active tab whose two texts parse is set; everything
    /// else is passed over.
    pub fn restore_tab_data(&mut self, doc: TabDocument)
        ensures
            final(self).tabs() == restored_values(old(self).tabs(), doc.tabs@.map_values(|e: (String, TabMetadata)| (e.0@, e.1))),
            final(self).session_lists() == restored_lists(old(self).session_lists(), list_texts(doc.session_tabs@)),
            final(self).orders() == restored_lists(old(self).orders(), list_texts(doc.tab_order@)),
            final(self).actives() == restored_links(old(self).actives(), doc.active_tabs@.map_values(|e: (String, String)| (e.0@, e.1@))),
    {
        let TabDocument { tabs, session_tabs, tab_order, active_tabs } = doc;
        let ghost te = tabs@.map_values(|e: (String, TabMetadata)| (e.0@, e.1));
        let ghost t0 = self.tabs@;
        let ghost all_t = tabs@;
        let mut tabs = tabs;
        let ghost mut k: int = 0;
        while tabs.len() > 0
            invariant
                0 <= k <= all_t.len(),
                tabs@ == all_t.skip(k),
                tabs@.len() == all_t.len() - k,
                te == all_t.map_values(|e: (String, TabMetadata)| (e.0@, e.1)),
                self.tabs@ == restored_values(t0, te.take(k)),
                self.session_tabs@ == old(self).session_tabs@,
                self.tab_order@ == old(self).tab_order@,
                self.active_tabs@ == old(self).active_tabs@,
            decreases tabs.len(),
        {
            let ghost e = all_t[k];
            assert(tabs@[0] == e);
            assert(te.take(k + 1).drop_last() =~= te.take(k));
            assert(te.take(k + 1).last() == (e.0@, e.1));
            let (key, meta) = tabs.remove(0);
            match parse_uuid(key.as_str()) {
                Some(id) => upsert(&mut self.tabs, id, meta),
                None => {},
            }
            proof {
                k = k + 1;
            }
            assert(tabs@ =~= all_t.skip(k));
        }
        assert(te.take(k) =~= te);
        restore_lists(&mut self.session_tabs, session_tabs);
        restore_lists(&mut self.tab_order, tab_order);
        let ghost ae = active_tabs@.map_values(|e: (String, String)| (e.0@, e.1@));
        let ghost a0 = self.active_tabs@;
        let ghost all_a = active_tabs@;
        let ghost sl = lists_view(self.session_tabs@);
        let ghost ol = lists_view(self.tab_order@);
        let mut active_tabs = active_tabs;
        let ghost mut k: int = 0;
        while active_tabs.len() > 0
            invariant
                0 <= k <= all_a.len(),
                active_tabs@ == all_a.skip(k),
                active_tabs@.len() == all_a.len() - k,
                ae == all_a.map_values(|e: (String, String)| (e.0@, e.1@)),
                self.active_tabs@ == restored_links(a0, ae.take(k)),
                self.tabs@ == restored_values(t0, te),
                lists_view(self.session_tabs@) == sl,
                lists_view(self.tab_order@) == ol,
            decreases active_tabs.len(),
        {
            let ghost e = all_a[k];
            assert(active_tabs@[0] == e);
            assert(ae.take(k + 1).drop_last() =~= ae.take(k));
            assert(ae.take(k + 1).last() == (e.0@, e.1@));
            let (key, value) = active_tabs.remove(0);
            match (parse_uuid(key.as_str()), parse_uuid(value.as_str())) {
                (Some(s), Some(t)) => upsert(&mut self.active_tabs, s, t),
                _ => {},
            }
            proof {
                k = k + 1;
            }
            assert(active_tabs@ =~= all_a.skip(k));
        }
        assert(ae.take(k) =~= ae);
    }
}

} // verus!
