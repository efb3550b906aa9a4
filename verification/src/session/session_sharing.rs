//! Session sharing: the sharing manager, which keeps the shared sessions,
//! the sessions shared with each user, each session's participants and the
//! events each sharing went through; the states of a sharing, of its
//! participants, and the events it goes through.
use crate::session::keyed::{
    find_key, key_index, lemma_key_index, lemma_lists_view_keys, list_of,
    lists_view, parse_id_list, restored_values, upsert, upsert_entry, value_of,
};
use crate::session::keyed::{lemma_lists_view_without, push_if_listed, push_to_list, remove_key, without_key};
use crate::session::tab_manager::{ids_without, parse_uuid, parsed_ids, without_id};
use crate::session::SharingPermission;
use crate::stamps::utc_now_millis;
use crate::text::{chars_of, dec_seq, decimal_chars, push_all, string_of};
use vstd::prelude::*;

verus! {

/// Sharing states.
#[derive(Debug, Clone, Copy, PartialEq, Eq, Structural)]
pub enum SharingStatus {
    /// Shared
    Active,
    /// Suspended
    Suspended,
    /// Ended
    Terminated,
}

/// Participant states.
#[derive(Debug, Clone, Copy, PartialEq, Eq, Structural)]
pub enum ParticipantStatus {
    /// Taking part
    Active,
    /// Suspended
    Suspended,
    /// Gone
    Left,
}

/// Sharing events.
#[derive(Debug, Clone, Copy, PartialEq, Eq, Structural)]
pub enum SharingEventType {
    /// A session was shared
    SessionShared,
    /// A session stopped being shared
    SessionUnshared,
    /// A user joined
    UserJoined,
    /// A user left
    UserLeft,
    /// A permission changed
    PermissionChanged,
}

/// A shared session.
#[derive(Debug)]
pub struct SharedSessionInfo {
    /// The session
    pub session_id: uuid::Uuid,
    /// The user who shared it
    pub owner: String,
    /// What the users it is shared with may do
    pub permission: SharingPermission,
    /// The users it is shared with
    pub shared_users: Vec<String>,
    /// When it was shared, in milliseconds since the Unix epoch
    pub shared_at: i64,
    /// When the sharing ends, if it does
    pub expires_at: Option<i64>,
    /// The users taking part
    pub active_participants: Vec<String>,
    /// The state of the sharing
    pub status: SharingStatus,
}

/// A participant of a shared session.
#[derive(Debug)]
pub struct ParticipantInfo {
    /// The user
    pub user: String,
    /// When the user joined, in milliseconds since the Unix epoch
    pub joined_at: i64,
    /// What the user may do
    pub permission: SharingPermission,
    /// The participant's state
    pub status: ParticipantStatus,
}

/// Something that happened to a shared session.
#[derive(Debug)]
pub struct SharingEvent {
    /// When, in milliseconds since the Unix epoch
    pub timestamp: i64,
    /// What
    pub event_type: SharingEventType,
    /// Who
    pub user: String,
    /// A description
    pub details: String,
}

/// The texts of a list of strings.
pub open spec fn texts_of(v: Seq<String>) -> Seq<Seq<char>> {
    v.map_values(|x: String| x@)
}

/// `a` and `b` are the same shared session, texts compared by content.
pub open spec fn same_info(a: SharedSessionInfo, b: SharedSessionInfo) -> bool {
    &&& a.session_id == b.session_id
    &&& a.owner@ == b.owner@
    &&& a.permission == b.permission
    &&& texts_of(a.shared_users@) == texts_of(b.shared_users@)
    &&& a.shared_at == b.shared_at
    &&& a.expires_at == b.expires_at
    &&& texts_of(a.active_participants@) == texts_of(b.active_participants@)
    &&& a.status == b.status
}

/// A copy of a list of strings.
fn copy_strings(v: &Vec<String>) -> (r: Vec<String>)
    ensures
        r@ == v@,
{
    let mut r: Vec<String> = Vec::new();
    let mut i: usize = 0;
    while i < v.len()
        invariant
            i <= v.len(),
            r@ == v@.take(i as int),
        decreases v.len() - i,
    {
        r.push(v[i].clone());
        i = i + 1;
        assert(r@ =~= v@.take(i as int));
    }
    assert(v@.take(i as int) =~= v@);
    r
}

impl Clone for SharedSessionInfo {
    /// A copy of the shared session.
    fn clone(&self) -> (c: Self)
        ensures
            same_info(c, *self),
    {
        SharedSessionInfo {
            session_id: self.session_id,
            owner: self.owner.clone(),
            permission: self.permission,
            shared_users: copy_strings(&self.shared_users),
            shared_at: self.shared_at,
            expires_at: self.expires_at,
            active_participants: copy_strings(&self.active_participants),
            status: self.status,
        }
    }
}

impl Clone for ParticipantInfo {
    /// A copy of the participant.
    fn clone(&self) -> (c: Self)
        ensures
            c == *self,
    {
        ParticipantInfo { user: self.user.clone(), joined_at: self.joined_at, permission: self.permission, status: self.status }
    }
}

impl Clone for SharingEvent {
    /// A copy of the event.
    fn clone(&self) -> (c: Self)
        ensures
            c == *self,
    {
        SharingEvent {
            timestamp: self.timestamp,
            event_type: self.event_type,
            user: self.user.clone(),
            details: self.details.clone(),
        }
    }
}

/// The first position of `es` whose text key is `u`.
pub open spec fn text_index<T>(es: Seq<(Seq<char>, T)>, u: Seq<char>) -> Option<int>
    decreases es.len(),
{
    if es.len() == 0 {
        None
    } else if es[0].0 == u {
        Some(0)
    } else {
        match text_index(es.drop_first(), u) {
            Some(i) => Some(i + 1),
            None => None,
        }
    }
}

/// What `text_index` finds: a position holding `u` with none before it, or
/// no position holding `u`.
pub proof fn lemma_text_index<T>(es: Seq<(Seq<char>, T)>, u: Seq<char>)
    ensures
        match text_index(es, u) {
            Some(i) => 0 <= i < es.len() && es[i].0 == u && forall|j: int| 0 <= j < i ==> es[j].0 != u,
            None => forall|j: int| 0 <= j < es.len() ==> es[j].0 != u,
        },
    decreases es.len(),
{
    if es.len() > 0 && es[0].0 != u {
        lemma_text_index(es.drop_first(), u);
        assert forall|j: int| 1 <= j < es.len() implies es[j] == es.drop_first()[j - 1] by {}
    }
}

/// `es` with `v` put under text `u`: in place of the entry for `u`, else at
/// the end.
pub open spec fn upsert_text<T>(es: Seq<(Seq<char>, T)>, u: Seq<char>, v: T) -> Seq<(Seq<char>, T)> {
    match text_index(es, u) {
        Some(i) => es.update(i, (u, v)),
        None => es.push((u, v)),
    }
}

/// The list under text `u`; empty when there is none.
pub open spec fn text_list(es: Seq<(Seq<char>, Seq<uuid::Uuid>)>, u: Seq<char>) -> Seq<uuid::Uuid> {
    match text_index(es, u) {
        Some(i) => es[i].1,
        None => seq![],
    }
}

/// A table of identifier lists under user names, names and lists by value.
pub open spec fn user_lists_view(es: Seq<(String, Vec<uuid::Uuid>)>) -> Seq<(Seq<char>, Seq<uuid::Uuid>)> {
    es.map_values(|e: (String, Vec<uuid::Uuid>)| (e.0@, e.1@))
}

/// `es` with the lists of `entries` put in, in order, each under its user
/// name and holding the identifiers of it that parse.
pub open spec fn restored_user_lists(es: Seq<(Seq<char>, Seq<uuid::Uuid>)>, entries: Seq<(Seq<char>, Seq<Seq<char>>)>) -> Seq<(Seq<char>, Seq<uuid::Uuid>)>
    decreases entries.len(),
{
    if entries.len() == 0 {
        es
    } else {
        upsert_text(restored_user_lists(es, entries.drop_last()), entries.last().0, parsed_ids(entries.last().1))
    }
}

/// The position of the entry for user `u`.
fn find_user(es: &Vec<(String, Vec<uuid::Uuid>)>, u: &String) -> (r: Option<usize>)
    ensures
        r is None ==> text_index(user_lists_view(es@), u@) is None,
        r matches Some(i) ==> i < es.len() && text_index(user_lists_view(es@), u@) == Some(i as int),
{
    let ghost v = user_lists_view(es@);
    proof {
        lemma_text_index(v, u@);
    }
    let mut i: usize = 0;
    while i < es.len()
        invariant
            i <= es.len(),
            v == user_lists_view(es@),
            forall|j: int| 0 <= j < i ==> v[j].0 != u@,
        decreases es.len() - i,
    {
        if es[i].0 == *u {
            assert(v[i as int].0 == u@);
            proof {
                lemma_text_index(v, u@);
            }
            return Some(i);
        }
        i = i + 1;
    }
    None
}

/// Puts list `ids` under user `u`.
fn upsert_user(es: &mut Vec<(String, Vec<uuid::Uuid>)>, u: String, ids: Vec<uuid::Uuid>)
    ensures
        user_lists_view(final(es)@) == upsert_text(user_lists_view(old(es)@), u@, ids@),
{
    proof {
        lemma_text_index(user_lists_view(es@), u@);
    }
    let ghost uv = u@;
    let ghost iv = ids@;
    assert(user_lists_view(es@).len() == es@.len());
    match find_user(es, &u) {
        Some(i) => {
            let ghost t = text_index(user_lists_view(old(es)@), uv)->0;
            assert(t == i as int);
            es.set(i, (u, ids));
            assert(user_lists_view(es@) =~= user_lists_view(old(es)@).update(i as int, (uv, iv)));
            assert(upsert_text(user_lists_view(old(es)@), uv, iv) == user_lists_view(old(es)@).update(t, (uv, iv)));
        },
        None => {
            es.push((u, ids));
            assert(user_lists_view(es@) =~= user_lists_view(old(es)@).push((uv, iv)));
            assert(upsert_text(user_lists_view(old(es)@), uv, iv) == user_lists_view(old(es)@).push((uv, iv)));
        },
    }
}

/// Keeps the shared sessions by session, the sessions shared with each
/// user, each shared session's participants, and the events each shared
/// session went through.
pub struct SessionSharingManager {
    shared_sessions: Vec<(uuid::Uuid, SharedSessionInfo)>,
    user_shared_sessions: Vec<(String, Vec<uuid::Uuid>)>,
    session_participants: Vec<(uuid::Uuid, Vec<ParticipantInfo>)>,
    session_events: Vec<(uuid::Uuid, Vec<SharingEvent>)>,
}

impl SessionSharingManager {
    /// The shared sessions, each under its session's identifier.
    pub closed spec fn shared(self) -> Seq<(uuid::Uuid, SharedSessionInfo)> {
        self.shared_sessions@
    }

    /// Each user with the sessions shared with them.
    pub closed spec fn user_sessions(self) -> Seq<(Seq<char>, Seq<uuid::Uuid>)> {
        user_lists_view(self.user_shared_sessions@)
    }

    /// Each shared session with its participants.
    pub closed spec fn participants(self) -> Seq<(uuid::Uuid, Seq<ParticipantInfo>)> {
        lists_view(self.session_participants@)
    }

    /// Each shared session with the events it went through, in order.
    pub closed spec fn events(self) -> Seq<(uuid::Uuid, Seq<SharingEvent>)> {
        lists_view(self.session_events@)
    }

    /// A manager with nothing shared.
    pub fn new() -> (m: Self)
        ensures
            m.shared().len() == 0,
            m.user_sessions().len() == 0,
            m.participants().len() == 0,
            m.events().len() == 0,
    {
        SessionSharingManager {
            shared_sessions: Vec::new(),
            user_shared_sessions: Vec::new(),
            session_participants: Vec::new(),
            session_events: Vec::new(),
        }
    }

    /// A copy of the sharing of session `session_id`, if it is shared.
    pub fn get_shared_session_info(&self, session_id: uuid::Uuid) -> (r: Option<SharedSessionInfo>)
        ensures
            match value_of(self.shared(), session_id) {
                None => r is None,
                Some(i) => r matches Some(c) && same_info(c, i),
            },
    {
        proof {
            lemma_key_index(self.shared_sessions@, session_id);
        }
        match find_key(&self.shared_sessions, &session_id) {
            Some(i) => Some(self.shared_sessions[i].1.clone()),
            None => None,
        }
    }

    /// How many sessions are shared.
    pub fn get_sharing_count(&self) -> (n: usize)
        ensures
            n == self.shared().len(),
    {
        self.shared_sessions.len()
    }

    /// Forgets everything shared.
    pub fn shutdown(&mut self)
        ensures
            final(self).shared().len() == 0,
            final(self).user_sessions().len() == 0,
            final(self).participants().len() == 0,
            final(self).events().len() == 0,
    {
        self.shared_sessions.clear();
        self.user_shared_sessions.clear();
        self.session_participants.clear();
        self.session_events.clear();
    }
}

/// The sharing data kept between runs, as read from the sharing file:
/// shared sessions, participant lists and event lists by the text of their
/// session's identifier, and the sessions shared with each user, identifiers
/// written as text.
pub struct SharingDocument {
    /// Shared sessions by session identifier text
    pub shared_sessions: Vec<(String, SharedSessionInfo)>,
    /// Session identifier texts by user
    pub user_shared_sessions: Vec<(String, Vec<String>)>,
    /// Participants by session identifier text
    pub session_participants: Vec<(String, Vec<ParticipantInfo>)>,
    /// Events by session identifier text
    pub session_events: Vec<(String, Vec<SharingEvent>)>,
}

/// Puts the values of `entries` into `table` as `restored_values` says.
fn restore_values<T>(table: &mut Vec<(uuid::Uuid, T)>, entries: Vec<(String, T)>)
    ensures
        final(table)@ == restored_values(old(table)@, entries@.map_values(|e: (String, T)| (e.0@, e.1))),
{
    let ghost all = entries@;
    let ghost ve = all.map_values(|e: (String, T)| (e.0@, e.1));
    let ghost t0 = table@;
    let mut entries = entries;
    let ghost mut k: int = 0;
    while entries.len() > 0
        invariant
            0 <= k <= all.len(),
            entries@ == all.skip(k),
            entries@.len() == all.len() - k,
            ve == all.map_values(|e: (String, T)| (e.0@, e.1)),
            table@ == restored_values(t0, ve.take(k)),
        decreases entries.len(),
    {
        let ghost e = all[k];
        assert(entries@[0] == e);
        assert(ve.take(k + 1).drop_last() =~= ve.take(k));
        assert(ve.take(k + 1).last() == (e.0@, e.1));
        let (key, value) = entries.remove(0);
        match parse_uuid(key.as_str()) {
            Some(id) => upsert(table, id, value),
            None => {},
        }
        proof {
            k = k + 1;
        }
        assert(entries@ =~= all.skip(k));
    }
    assert(ve.take(k) =~= ve);
}

/// The lists of a document, by text and with each list's texts.
pub open spec fn user_list_texts(es: Seq<(String, Vec<String>)>) -> Seq<(Seq<char>, Seq<Seq<char>>)> {
    es.map_values(|e: (String, Vec<String>)| (e.0@, texts_of(e.1@)))
}

/// The lists of a table of lists, each as a sequence, keyed by text.
pub open spec fn keyed_lists<T>(es: Seq<(Seq<char>, Vec<T>)>) -> Seq<(Seq<char>, Seq<T>)> {
    es.map_values(|e: (Seq<char>, Vec<T>)| (e.0, e.1@))
}

impl SessionSharingManager {
    /// Restores the sharing data kept between runs: each shared session,
    /// participant list and event list whose session text parses is put
    /// under that session, and each user's list is set to the session
    /// identifiers of it that parse; everything else is passed over.
    pub fn restore_sharing_data(&mut self, doc: SharingDocument)
        ensures
            final(self).shared() == restored_values(old(self).shared(), doc.shared_sessions@.map_values(|e: (String, SharedSessionInfo)| (e.0@, e.1))),
            final(self).user_sessions() == restored_user_lists(old(self).user_sessions(), user_list_texts(doc.user_shared_sessions@)),
            final(self).session_participants_raw() == restored_values(old(self).session_participants_raw(),
                doc.session_participants@.map_values(|e: (String, Vec<ParticipantInfo>)| (e.0@, e.1))),
            final(self).session_events_raw() == restored_values(old(self).session_events_raw(),
                doc.session_events@.map_values(|e: (String, Vec<SharingEvent>)| (e.0@, e.1))),
    {
        let SharingDocument { shared_sessions, user_shared_sessions, session_participants, session_events } = doc;
        restore_values(&mut self.shared_sessions, shared_sessions);
        restore_values(&mut self.session_participants, session_participants);
        restore_values(&mut self.session_events, session_events);
        let ghost all = user_shared_sessions@;
        let ghost ue = user_list_texts(all);
        let ghost u0 = user_lists_view(self.user_shared_sessions@);
        let mut entries = user_shared_sessions;
        let ghost mut k: int = 0;
        while entries.len() > 0
            invariant
                0 <= k <= all.len(),
                entries@ == all.skip(k),
                entries@.len() == all.len() - k,
                ue == user_list_texts(all),
                user_lists_view(self.user_shared_sessions@) == restored_user_lists(u0, ue.take(k)),
                self.shared_sessions@ == restored_values(old(self).shared(), doc.shared_sessions@.map_values(|e: (String, SharedSessionInfo)| (e.0@, e.1))),
                self.session_participants@ == restored_values(old(self).session_participants_raw(),
                    doc.session_participants@.map_values(|e: (String, Vec<ParticipantInfo>)| (e.0@, e.1))),
                self.session_events@ == restored_values(old(self).session_events_raw(),
                    doc.session_events@.map_values(|e: (String, Vec<SharingEvent>)| (e.0@, e.1))),
            decreases entries.len(),
        {
            let ghost e = all[k];
            assert(entries@[0] == e);
            assert(ue.take(k + 1).drop_last() =~= ue.take(k));
            assert(ue.take(k + 1).last() == (e.0@, texts_of(e.1@)));
            let (user, ids) = entries.remove(0);
            let parsed = parse_id_list(&ids);
            upsert_user(&mut self.user_shared_sessions, user, parsed);
            proof {
                k = k + 1;
            }
            assert(entries@ =~= all.skip(k));
        }
        assert(ue.take(k) =~= ue);
    }

    /// The participant lists, each under its session's identifier.
    pub closed spec fn session_participants_raw(self) -> Seq<(uuid::Uuid, Vec<ParticipantInfo>)> {
        self.session_participants@
    }

    /// The event lists, each under its session's identifier.
    pub closed spec fn session_events_raw(self) -> Seq<(uuid::Uuid, Vec<SharingEvent>)> {
        self.session_events@
    }
}

/// Why a sharing operation failed.
#[derive(Debug, Clone, Copy, PartialEq, Eq, Structural)]
pub enum SharingError {
    /// The session is not shared
    NotShared,
    /// Only the owner may stop sharing a session
    NotOwner,
    /// The session is not shared with the user
    NotAuthorized,
    /// The sharing has expired
    Expired,
}

/// The description of a sharing with `n` users.
pub open spec fn shared_details(n: nat) -> Seq<char> {
    "Shared with "@ + dec_seq(n) + " users"@
}

/// The description of a sharing with `n` users, as text.
fn shared_details_text(n: usize) -> (r: String)
    ensures
        r@ == shared_details(n as nat),
{
    let mut v = chars_of("Shared with ");
    push_all(&mut v, &decimal_chars(n as u64));
    push_all(&mut v, &chars_of(" users"));
    string_of(&v)
}

/// `e` is an event of kind `kind` by `user` at time `t` described by
/// `details`.
pub open spec fn event_is(e: SharingEvent, t: i64, kind: SharingEventType, user: Seq<char>, details: Seq<char>) -> bool {
    &&& e.timestamp == t
    &&& e.event_type == kind
    &&& e.user@ == user
    &&& e.details@ == details
}

/// `us` with session `s` added last to the list of each user of `users`, in
/// order, making the list of a user who has none.
pub open spec fn users_with(us: Seq<(Seq<char>, Seq<uuid::Uuid>)>, users: Seq<Seq<char>>, s: uuid::Uuid) -> Seq<(Seq<char>, Seq<uuid::Uuid>)>
    decreases users.len(),
{
    if users.len() == 0 {
        us
    } else {
        let prev = users_with(us, users.drop_last(), s);
        upsert_text(prev, users.last(), text_list(prev, users.last()).push(s))
    }
}

/// A copy of the list under user `u`; empty when there is none.
fn user_list_copy(es: &Vec<(String, Vec<uuid::Uuid>)>, u: &String) -> (r: Vec<uuid::Uuid>)
    ensures
        r@ == text_list(user_lists_view(es@), u@),
{
    let mut r: Vec<uuid::Uuid> = Vec::new();
    match find_user(es, u) {
        Some(i) => {
            let src = &es[i].1;
            let mut j: usize = 0;
            while j < src.len()
                invariant
                    j <= src.len(),
                    r@ == src@.take(j as int),
                decreases src.len() - j,
            {
                r.push(src[j]);
                j = j + 1;
                assert(r@ =~= src@.take(j as int));
            }
            assert(src@.take(j as int) =~= src@);
        },
        None => {},
    }
    r
}

impl SessionSharingManager {
    /// Adds session `s` last to the list of each user of `users`.
    fn add_to_users(&mut self, users: &Vec<String>, s: uuid::Uuid)
        ensures
            final(self).user_sessions() == users_with(old(self).user_sessions(), texts_of(users@), s),
            final(self).shared() == old(self).shared(),
            final(self).session_participants@ == old(self).session_participants@,
            final(self).session_events@ == old(self).session_events@,
    {
        let ghost t = texts_of(users@);
        let mut k: usize = 0;
        while k < users.len()
            invariant
                k <= users.len(),
                t == texts_of(users@),
                self.user_sessions() == users_with(old(self).user_sessions(), t.take(k as int), s),
                self.shared() == old(self).shared(),
                self.session_participants@ == old(self).session_participants@,
                self.session_events@ == old(self).session_events@,
            decreases users.len() - k,
        {
            assert(t.take(k + 1).drop_last() =~= t.take(k as int));
            assert(t.take(k + 1).last() == users@[k as int]@);
            let u = users[k].clone();
            let mut ids = user_list_copy(&self.user_shared_sessions, &u);
            ids.push(s);
            upsert_user(&mut self.user_shared_sessions, u, ids);
            k = k + 1;
        }
        assert(t.take(k as int) =~= t);
    }

    /// Shares session `session_id` of `owner` with `shared_users`, giving
    /// them `permission`, until `expires_at` if given: the sharing is kept
    /// under the session with the owner as its one participant, the session
    /// is added to the list of each of the users, and a sharing event by the
    /// owner is recorded. Returns a copy of the sharing.
    pub fn share_session(
        &mut self,
        session_id: uuid::Uuid,
        owner: String,
        permission: SharingPermission,
        shared_users: Vec<String>,
        expires_at: Option<i64>,
    ) -> (r: SharedSessionInfo)
        ensures
            r.session_id == session_id && r.owner@ == owner@ && r.permission == permission,
            texts_of(r.shared_users@) == texts_of(shared_users@) && r.expires_at == expires_at,
            texts_of(r.active_participants@) == seq![owner@] && r.status == SharingStatus::Active,
            exists|x: SharedSessionInfo| #[trigger] same_info(x, r) && final(self).shared() == upsert_entry(old(self).shared(), session_id, x),
            final(self).user_sessions() == users_with(old(self).user_sessions(), texts_of(shared_users@), session_id),
            final(self).participants() == old(self).participants(),
            exists|e: SharingEvent| #[trigger] event_is(e, r.shared_at, SharingEventType::SessionShared, owner@, shared_details(shared_users.len() as nat))
                && final(self).events() == upsert_entry(old(self).events(), session_id, list_of(old(self).events(), session_id).push(e)),
    {
        let now = utc_now_millis();
        let mut active: Vec<String> = Vec::new();
        active.push(owner.clone());
        let info = SharedSessionInfo {
            session_id,
            owner: owner.clone(),
            permission,
            shared_users: copy_strings(&shared_users),
            shared_at: now,
            expires_at,
            active_participants: active,
            status: SharingStatus::Active,
        };
        let r = info.clone();
        assert(texts_of(r.active_participants@) =~= seq![owner@]);
        let ghost stored = info;
        upsert(&mut self.shared_sessions, session_id, info);
        assert(same_info(stored, r) && self.shared() == upsert_entry(old(self).shared(), session_id, stored));
        self.add_to_users(&shared_users, session_id);
        let details = shared_details_text(shared_users.len());
        let e = SharingEvent { timestamp: now, event_type: SharingEventType::SessionShared, user: owner, details };
        proof {
            assert(event_is(e, r.shared_at, SharingEventType::SessionShared, owner@, shared_details(shared_users.len() as nat)));
        }
        push_to_list(&mut self.session_events, session_id, e);
        r
    }
}

/// `ts` without the texts equal to `u`, the others in order.
pub open spec fn texts_without(ts: Seq<Seq<char>>, u: Seq<char>) -> Seq<Seq<char>>
    decreases ts.len(),
{
    if ts.len() == 0 {
        seq![]
    } else if ts.last() == u {
        texts_without(ts.drop_last(), u)
    } else {
        texts_without(ts.drop_last(), u).push(ts.last())
    }
}

/// `ps` without the participants who are user `u`, the others in order.
pub open spec fn participants_without(ps: Seq<ParticipantInfo>, u: Seq<char>) -> Seq<ParticipantInfo>
    decreases ps.len(),
{
    if ps.len() == 0 {
        seq![]
    } else if ps.last().user@ == u {
        participants_without(ps.drop_last(), u)
    } else {
        participants_without(ps.drop_last(), u).push(ps.last())
    }
}

/// `y` is the sharing `x` with the texts `a` as its participants.
pub open spec fn info_with_active(y: SharedSessionInfo, x: SharedSessionInfo, a: Seq<Seq<char>>) -> bool {
    &&& y.session_id == x.session_id
    &&& y.owner@ == x.owner@
    &&& y.permission == x.permission
    &&& texts_of(y.shared_users@) == texts_of(x.shared_users@)
    &&& y.shared_at == x.shared_at
    &&& y.expires_at == x.expires_at
    &&& texts_of(y.active_participants@) == a
    &&& y.status == x.status
}

/// `p` is user `u` taking part since `t` with permission `perm`.
pub open spec fn participant_is(p: ParticipantInfo, u: Seq<char>, t: i64, perm: SharingPermission) -> bool {
    &&& p.user@ == u
    &&& p.joined_at == t
    &&& p.permission == perm
    &&& p.status == ParticipantStatus::Active
}

/// Each user's list without session `s`.
pub open spec fn users_without(us: Seq<(Seq<char>, Seq<uuid::Uuid>)>, s: uuid::Uuid) -> Seq<(Seq<char>, Seq<uuid::Uuid>)> {
    us.map_values(|e: (Seq<char>, Seq<uuid::Uuid>)| (e.0, ids_without(e.1, s)))
}

/// `v` without the strings equal to `u`.
fn strings_without(v: &Vec<String>, u: &String) -> (r: Vec<String>)
    ensures
        texts_of(r@) == texts_without(texts_of(v@), u@),
{
    let ghost t = texts_of(v@);
    let mut r: Vec<String> = Vec::new();
    let mut i: usize = 0;
    while i < v.len()
        invariant
            i <= v.len(),
            t == texts_of(v@),
            texts_of(r@) == texts_without(t.take(i as int), u@),
        decreases v.len() - i,
    {
        assert(t.take(i + 1).drop_last() =~= t.take(i as int));
        assert(t.take(i + 1).last() == v@[i as int]@);
        let ghost before = r@;
        if v[i] != *u {
            r.push(v[i].clone());
            assert(texts_of(r@) =~= texts_of(before).push(v@[i as int]@));
        }
        i = i + 1;
    }
    assert(t.take(i as int) =~= t);
    r
}

/// Whether `v` holds a string equal to `u`.
fn holds_string(v: &Vec<String>, u: &String) -> (r: bool)
    ensures
        r == texts_of(v@).contains(u@),
{
    let ghost t = texts_of(v@);
    let mut i: usize = 0;
    while i < v.len()
        invariant
            i <= v.len(),
            t == texts_of(v@),
            forall|j: int| 0 <= j < i ==> t[j] != u@,
        decreases v.len() - i,
    {
        if v[i] == *u {
            assert(t[i as int] == u@);
            return true;
        }
        i = i + 1;
    }
    false
}

/// `v` without the participants who are user `u`.
fn participants_without_exec(v: &Vec<ParticipantInfo>, u: &String) -> (r: Vec<ParticipantInfo>)
    ensures
        r@ == participants_without(v@, u@),
{
    let mut r: Vec<ParticipantInfo> = Vec::new();
    let mut i: usize = 0;
    while i < v.len()
        invariant
            i <= v.len(),
            r@ == participants_without(v@.take(i as int), u@),
        decreases v.len() - i,
    {
        assert(v@.take(i + 1).drop_last() =~= v@.take(i as int));
        assert(v@.take(i + 1).last() == v@[i as int]);
        if v[i].user != *u {
            r.push(v[i].clone());
        }
        i = i + 1;
    }
    assert(v@.take(i as int) =~= v@);
    r
}

/// A sharing record with its participants set to `active`.
fn with_active(x: &SharedSessionInfo, active: Vec<String>) -> (y: SharedSessionInfo)
    ensures
        info_with_active(y, *x, texts_of(active@)),
{
    SharedSessionInfo {
        session_id: x.session_id,
        owner: x.owner.clone(),
        permission: x.permission,
        shared_users: copy_strings(&x.shared_users),
        shared_at: x.shared_at,
        expires_at: x.expires_at,
        active_participants: active,
        status: x.status,
    }
}

/// The text `s` as a `String`.
fn text(s: &str) -> (r: String)
    ensures
        r@ == s@,
{
    s.to_string()
}

impl SessionSharingManager {
    /// Stops sharing session `session_id`, which only its owner may do:
    /// the sharing and its participants are forgotten, the session leaves
    /// every user's list, and an unsharing event by the owner is recorded
    /// when the session has events. Fails, changing nothing, when the session
    /// is not shared or `owner` is not its owner.
    pub fn unshare_session(&mut self, session_id: uuid::Uuid, owner: String) -> (r: Result<(), SharingError>)
        ensures
            match value_of(old(self).shared(), session_id) {
                None => r == Err::<(), SharingError>(SharingError::NotShared),
                Some(x) => if x.owner@ != owner@ {
                    r == Err::<(), SharingError>(SharingError::NotOwner)
                } else {
                    r is Ok
                },
            },
            r is Err ==> final(self).shared() == old(self).shared() && final(self).user_sessions() == old(self).user_sessions()
                && final(self).participants() == old(self).participants() && final(self).events() == old(self).events(),
            r is Ok ==> {
                &&& final(self).shared() == without_key(old(self).shared(), session_id)
                &&& final(self).user_sessions() == users_without(old(self).user_sessions(), session_id)
                &&& final(self).participants() == without_key(old(self).participants(), session_id)
                &&& match key_index(old(self).events(), session_id) {
                    None => final(self).events() == old(self).events(),
                    Some(i) => exists|e: SharingEvent| #[trigger] event_is(e, e.timestamp, SharingEventType::SessionUnshared, owner@, "Session unshared"@)
                        && final(self).events() == old(self).events().update(i, (session_id, old(self).events()[i].1.push(e))),
                }
            },
    {
        proof {
            lemma_key_index(self.shared_sessions@, session_id);
        }
        match find_key(&self.shared_sessions, &session_id) {
            None => {
                return Err(SharingError::NotShared);
            },
            Some(i) => {
                if self.shared_sessions[i].1.owner != owner {
                    return Err(SharingError::NotOwner);
                }
            },
        }
        remove_key(&mut self.shared_sessions, &session_id);
        let ghost u0 = self.user_shared_sessions@;
        let mut k: usize = 0;
        while k < self.user_shared_sessions.len()
            invariant
                k <= self.user_shared_sessions.len(),
                self.user_shared_sessions@.len() == u0.len(),
                forall|j: int| 0 <= j < k ==> #[trigger] user_lists_view(self.user_shared_sessions@)[j] == (user_lists_view(u0)[j].0, ids_without(user_lists_view(u0)[j].1, session_id)),
                forall|j: int| k <= j < u0.len() ==> #[trigger] self.user_shared_sessions@[j] == u0[j],
                self.shared_sessions@ == without_key(old(self).shared(), session_id),
                self.session_participants@ == old(self).session_participants@,
                self.session_events@ == old(self).session_events@,
            decreases self.user_shared_sessions.len() - k,
        {
            let ghost before = self.user_shared_sessions@;
            let ids = without_id(&self.user_shared_sessions[k].1, &session_id);
            let (u, _) = self.user_shared_sessions.remove(k);
            let ghost name = u;
            assert(name == before[k as int].0);
            self.user_shared_sessions.insert(k, (u, ids));
            proof {
                assert(self.user_shared_sessions@ =~= before.update(k as int, (name, ids)));
                assert(before[k as int] == u0[k as int]);
                assert forall|j: int| 0 <= j < k + 1 implies #[trigger] user_lists_view(self.user_shared_sessions@)[j] == (user_lists_view(u0)[j].0, ids_without(user_lists_view(u0)[j].1, session_id)) by {
                    if j < k {
                        assert(user_lists_view(self.user_shared_sessions@)[j] == user_lists_view(before)[j]);
                    }
                }
            }
            k = k + 1;
        }
        assert(user_lists_view(self.user_shared_sessions@) =~= users_without(old(self).user_sessions(), session_id));
        proof {
            lemma_lists_view_without(self.session_participants@, session_id);
        }
        remove_key(&mut self.session_participants, &session_id);
        let e = SharingEvent {
            timestamp: utc_now_millis(),
            event_type: SharingEventType::SessionUnshared,
            user: owner,
            details: text("Session unshared"),
        };
        proof {
            assert(event_is(e, e.timestamp, SharingEventType::SessionUnshared, owner@, "Session unshared"@));
        }
        push_if_listed(&mut self.session_events, session_id, e);
        Ok(())
    }
}

impl SessionSharingManager {
    /// User `user` joins shared session `session_id` at time `now`: fails,
    /// changing nothing, when the session is not shared, is not shared with
    /// the user, or its sharing ended before `now`. Otherwise the user is
    /// added to the session's participants with the sharing's permission,
    /// to its active participants unless already there, and a joining event
    /// by the user at `now` is recorded.
    pub fn join_at(&mut self, session_id: uuid::Uuid, user: String, now: i64) -> (r: Result<(), SharingError>)
        ensures
            match value_of(old(self).shared(), session_id) {
                None => r == Err::<(), SharingError>(SharingError::NotShared),
                Some(x) => if !texts_of(x.shared_users@).contains(user@) {
                    r == Err::<(), SharingError>(SharingError::NotAuthorized)
                } else if x.expires_at matches Some(t) && now > t {
                    r == Err::<(), SharingError>(SharingError::Expired)
                } else {
                    r is Ok
                },
            },
            r is Err ==> final(self).shared() == old(self).shared() && final(self).user_sessions() == old(self).user_sessions()
                && final(self).participants() == old(self).participants() && final(self).events() == old(self).events(),
            r is Ok ==> {
                let i = key_index(old(self).shared(), session_id)->0;
                let x = old(self).shared()[i].1;
                &&& exists|p: ParticipantInfo| #[trigger] participant_is(p, user@, now, x.permission)
                    && final(self).participants() == upsert_entry(old(self).participants(), session_id, list_of(old(self).participants(), session_id).push(p))
                &&& texts_of(x.active_participants@).contains(user@) ==> final(self).shared() == old(self).shared()
                &&& !texts_of(x.active_participants@).contains(user@) ==> exists|y: SharedSessionInfo|
                    #[trigger] info_with_active(y, x, texts_of(x.active_participants@).push(user@))
                    && final(self).shared() == old(self).shared().update(i, (session_id, y))
                &&& final(self).user_sessions() == old(self).user_sessions()
                &&& exists|e: SharingEvent| #[trigger] event_is(e, now, SharingEventType::UserJoined, user@, "User joined session"@)
                    && final(self).events() == upsert_entry(old(self).events(), session_id, list_of(old(self).events(), session_id).push(e))
            },
    {
        proof {
            lemma_key_index(self.shared_sessions@, session_id);
        }
        let i = match find_key(&self.shared_sessions, &session_id) {
            None => {
                return Err(SharingError::NotShared);
            },
            Some(i) => i,
        };
        if !holds_string(&self.shared_sessions[i].1.shared_users, &user) {
            return Err(SharingError::NotAuthorized);
        }
        match self.shared_sessions[i].1.expires_at {
            Some(t) => {
                if now > t {
                    return Err(SharingError::Expired);
                }
            },
            None => {},
        }
        let permission = self.shared_sessions[i].1.permission;
        let p = ParticipantInfo { user: user.clone(), joined_at: now, permission, status: ParticipantStatus::Active };
        proof {
            assert(participant_is(p, user@, now, permission));
        }
        push_to_list(&mut self.session_participants, session_id, p);
        if !holds_string(&self.shared_sessions[i].1.active_participants, &user) {
            let mut active = copy_strings(&self.shared_sessions[i].1.active_participants);
            let ghost a0 = active@;
            active.push(user.clone());
            assert(texts_of(active@) =~= texts_of(a0).push(user@));
            let y = with_active(&self.shared_sessions[i].1, active);
            self.shared_sessions.set(i, (session_id, y));
        }
        let e = SharingEvent {
            timestamp: now,
            event_type: SharingEventType::UserJoined,
            user,
            details: text("User joined session"),
        };
        proof {
            assert(event_is(e, now, SharingEventType::UserJoined, e.user@, "User joined session"@));
        }
        push_to_list(&mut self.session_events, session_id, e);
        Ok(())
    }

    /// User `user` joins shared session `session_id` now: the clock is read
    /// and the joining is as `join_at` makes it at that time.
    pub fn join_shared_session(&mut self, session_id: uuid::Uuid, user: String) -> (r: Result<(), SharingError>)
        ensures
            match value_of(old(self).shared(), session_id) {
                None => r == Err::<(), SharingError>(SharingError::NotShared),
                Some(x) => if !texts_of(x.shared_users@).contains(user@) {
                    r == Err::<(), SharingError>(SharingError::NotAuthorized)
                } else if x.expires_at is None {
                    r is Ok
                } else {
                    r is Ok || r == Err::<(), SharingError>(SharingError::Expired)
                },
            },
            r is Err ==> final(self).shared() == old(self).shared() && final(self).user_sessions() == old(self).user_sessions()
                && final(self).participants() == old(self).participants() && final(self).events() == old(self).events(),
    {
        let now = utc_now_millis();
        self.join_at(session_id, user, now)
    }

    /// User `user` leaves shared session `session_id` at time `now`: the
    /// user leaves the session's participants and its active participants,
    /// and a leaving event by the user at `now` is recorded when the session
    /// has events. Leaving never fails.
    pub fn leave_at(&mut self, session_id: uuid::Uuid, user: String, now: i64)
        ensures
            match key_index(old(self).participants(), session_id) {
                None => final(self).participants() == old(self).participants(),
                Some(i) => final(self).participants() == old(self).participants().update(i,
                    (session_id, participants_without(old(self).participants()[i].1, user@))),
            },
            match key_index(old(self).shared(), session_id) {
                None => final(self).shared() == old(self).shared(),
                Some(i) => exists|y: SharedSessionInfo| #[trigger] info_with_active(y, old(self).shared()[i].1,
                    texts_without(texts_of(old(self).shared()[i].1.active_participants@), user@))
                    && final(self).shared() == old(self).shared().update(i, (session_id, y)),
            },
            final(self).user_sessions() == old(self).user_sessions(),
            match key_index(old(self).events(), session_id) {
                None => final(self).events() == old(self).events(),
                Some(i) => exists|e: SharingEvent| #[trigger] event_is(e, now, SharingEventType::UserLeft, user@, "User left session"@)
                    && final(self).events() == old(self).events().update(i, (session_id, old(self).events()[i].1.push(e))),
            },
    {
        proof {
            lemma_key_index(self.session_participants@, session_id);
            lemma_lists_view_keys(self.session_participants@, session_id);
            lemma_key_index(self.shared_sessions@, session_id);
        }
        match find_key(&self.session_participants, &session_id) {
            Some(i) => {
                let kept = participants_without_exec(&self.session_participants[i].1, &user);
                let ghost kv = kept@;
                self.session_participants.set(i, (session_id, kept));
                assert(lists_view(self.session_participants@) =~= old(self).participants().update(i as int, (session_id, kv)));
            },
            None => {},
        }
        match find_key(&self.shared_sessions, &session_id) {
            Some(i) => {
                let active = strings_without(&self.shared_sessions[i].1.active_participants, &user);
                let y = with_active(&self.shared_sessions[i].1, active);
                self.shared_sessions.set(i, (session_id, y));
            },
            None => {},
        }
        let e = SharingEvent {
            timestamp: now,
            event_type: SharingEventType::UserLeft,
            user,
            details: text("User left session"),
        };
        proof {
            assert(event_is(e, now, SharingEventType::UserLeft, e.user@, "User left session"@));
        }
        push_if_listed(&mut self.session_events, session_id, e);
    }

    /// User `user` leaves shared session `session_id` now: the clock is read
    /// and the leaving is as `leave_at` makes it at that time.
    pub fn leave_shared_session(&mut self, session_id: uuid::Uuid, user: String)
        ensures
            final(self).user_sessions() == old(self).user_sessions(),
            match key_index(old(self).participants(), session_id) {
                None => final(self).participants() == old(self).participants(),
                Some(i) => final(self).participants() == old(self).participants().update(i,
                    (session_id, participants_without(old(self).participants()[i].1, user@))),
            },
    {
        let now = utc_now_millis();
        self.leave_at(session_id, user, now)
    }

    /// Copies of the participants of session `session_id`; none when it has
    /// no list.
    pub fn get_session_participants(&self, session_id: uuid::Uuid) -> (r: Vec<ParticipantInfo>)
        ensures
            r@ == list_of(self.participants(), session_id),
    {
        proof {
            lemma_key_index(self.session_participants@, session_id);
            lemma_lists_view_keys(self.session_participants@, session_id);
        }
        let mut r: Vec<ParticipantInfo> = Vec::new();
        match find_key(&self.session_participants, &session_id) {
            Some(i) => {
                let src = &self.session_participants[i].1;
                let mut j: usize = 0;
                while j < src.len()
                    invariant
                        j <= src.len(),
                        r@ == src@.take(j as int),
                    decreases src.len() - j,
                {
                    r.push(src[j].clone());
                    j = j + 1;
                    assert(r@ =~= src@.take(j as int));
                }
                assert(src@.take(j as int) =~= src@);
            },
            None => {},
        }
        r
    }

    /// Copies of the events of session `session_id`, in order; none when it
    /// has no list.
    pub fn get_session_events(&self, session_id: uuid::Uuid) -> (r: Vec<SharingEvent>)
        ensures
            r@ == list_of(self.events(), session_id),
    {
        proof {
            lemma_key_index(self.session_events@, session_id);
            lemma_lists_view_keys(self.session_events@, session_id);
        }
        let mut r: Vec<SharingEvent> = Vec::new();
        match find_key(&self.session_events, &session_id) {
            Some(i) => {
                let src = &self.session_events[i].1;
                let mut j: usize = 0;
                while j < src.len()
                    invariant
                        j <= src.len(),
                        r@ == src@.take(j as int),
                    decreases src.len() - j,
                {
                    r.push(src[j].clone());
                    j = j + 1;
                    assert(r@ =~= src@.take(j as int));
                }
                assert(src@.take(j as int) =~= src@);
            },
            None => {},
        }
        r
    }

    /// The sessions shared with user `user`; none when there is no list.
    pub fn get_user_shared_sessions(&self, user: String) -> (r: Vec<uuid::Uuid>)
        ensures
            r@ == text_list(self.user_sessions(), user@),
    {
        user_list_copy(&self.user_shared_sessions, &user)
    }
}

} // verus!
