//! Window management: the window manager, which keeps windows, each
//! session's windows, its active window and the windows split off each
//! window; how a window is split, and the geometry of the two windows a
//! split leaves.
use crate::session::keyed::{
    find_key, key_index, lemma_key_index, lemma_lists_view_keys, lemma_lists_view_upsert, list_copy,
    list_of, list_texts, lists_view, restore_lists, restored_links, restored_lists, restored_values, upsert,
    upsert_entry, value_of,
};
use crate::session::tab_manager::parse_uuid;
use crate::session::{WindowGeometry, WindowType};
use crate::stamps::{by_time, new_uuid, time_order, utc_now_millis};
use vstd::prelude::*;

verus! {

/// Split directions.
#[derive(Debug, Clone, Copy, PartialEq, Eq, Structural)]
pub enum SplitType {
    /// One pane above the other
    Horizontal,
    /// Panes side by side
    Vertical,
}


/// Half of a width or height taken as a signed offset: the value read as
/// an `i32` (as `as` reads it), divided by two rounding toward zero.
pub open spec fn half_offset(v: u32) -> int {
    let s = v as i32;
    if s >= 0 {
        s / 2
    } else {
        -((-s) / 2)
    }
}

/// The geometry of a window split off `parent`: the lower half for a
/// horizontal split, the right half for a vertical one.
pub open spec fn split_geometry(parent: WindowGeometry, split_type: SplitType) -> (int, int, nat, nat) {
    match split_type {
        SplitType::Horizontal => (parent.x as int, parent.y + half_offset(parent.height), parent.width as nat, (parent.height / 2) as nat),
        SplitType::Vertical => (parent.x + half_offset(parent.width), parent.y as int, (parent.width / 2) as nat, parent.height as nat),
    }
}

/// A geometry as plain numbers.
pub open spec fn geometry_view(g: WindowGeometry) -> (int, int, nat, nat) {
    (g.x as int, g.y as int, g.width as nat, g.height as nat)
}

/// The offset of the new window does not leave the range of a coordinate.
pub open spec fn split_fits(parent: WindowGeometry, split_type: SplitType) -> bool {
    match split_type {
        SplitType::Horizontal => i32::MIN <= parent.y + half_offset(parent.height) <= i32::MAX,
        SplitType::Vertical => i32::MIN <= parent.x + half_offset(parent.width) <= i32::MAX,
    }
}

/// Half of `v` as a signed offset.
fn half(v: u32) -> (r: i32)
    ensures
        r == half_offset(v),
{
    let s = v as i32;
    if s >= 0 {
        s / 2
    } else {
        let m: i64 = -(s as i64);
        let h: i64 = m / 2;
        (-h) as i32
    }
}

/// The geometry of the window split off `parent`.
pub fn calculate_split_geometry(parent: &WindowGeometry, split_type: SplitType) -> (g: WindowGeometry)
    requires
        split_fits(*parent, split_type),
    ensures
        geometry_view(g) == split_geometry(*parent, split_type),
{
    match split_type {
        SplitType::Horizontal => WindowGeometry {
            x: parent.x,
            y: parent.y + half(parent.height),
            width: parent.width,
            height: parent.height / 2,
        },
        SplitType::Vertical => WindowGeometry {
            x: parent.x + half(parent.width),
            y: parent.y,
            width: parent.width / 2,
            height: parent.height,
        },
    }
}

/// What is left of `parent` once a window is split off it: the upper half
/// for a horizontal split, the left half for a vertical one.
pub fn adjust_parent_geometry(parent: &WindowGeometry, split_type: SplitType) -> (g: WindowGeometry)
    ensures
        g == adjust_parent_geometry_spec(*parent, split_type),
{
    match split_type {
        SplitType::Horizontal => WindowGeometry {
            x: parent.x,
            y: parent.y,
            width: parent.width,
            height: parent.height / 2,
        },
        SplitType::Vertical => WindowGeometry {
            x: parent.x,
            y: parent.y,
            width: parent.width / 2,
            height: parent.height,
        },
    }
}

/// Splitting a window of at most `i32::MAX` in the split direction leaves
/// the two windows side by side: the new one starts where what is left of
/// the parent ends, has the same extent across, and the two halves add up
/// to the parent less at most one (an odd size loses its middle line).
pub proof fn lemma_split_halves_adjoin(parent: WindowGeometry, split_type: SplitType)
    requires
        split_fits(parent, split_type),
        split_type == SplitType::Horizontal ==> parent.height <= i32::MAX,
        split_type == SplitType::Vertical ==> parent.width <= i32::MAX,
    ensures
        ({
            let n = split_geometry(parent, split_type);
            let p = adjust_parent_geometry_spec(parent, split_type);
            match split_type {
                SplitType::Horizontal => n.1 == p.y + p.height && n.0 == p.x && n.2 == p.width
                    && parent.height - 1 <= p.height + n.3 <= parent.height,
                SplitType::Vertical => n.0 == p.x + p.width && n.1 == p.y && n.3 == p.height
                    && parent.width - 1 <= p.width + n.2 <= parent.width,
            }
        }),
{
}

/// What `adjust_parent_geometry` leaves of `parent`.
pub open spec fn adjust_parent_geometry_spec(parent: WindowGeometry, split_type: SplitType) -> WindowGeometry {
    match split_type {
        SplitType::Horizontal => WindowGeometry { height: parent.height / 2, ..parent },
        SplitType::Vertical => WindowGeometry { width: parent.width / 2, ..parent },
    }
}

/// A window.
#[derive(Debug)]
pub struct WindowMetadata {
    /// Identifier
    pub id: uuid::Uuid,
    /// Name
    pub name: String,
    /// Kind
    pub window_type: WindowType,
    /// The session it belongs to
    pub session_id: uuid::Uuid,
    /// The tab it belongs to, if any
    pub tab_id: Option<uuid::Uuid>,
    /// Position and size
    pub geometry: WindowGeometry,
    /// When it was made, in milliseconds since the Unix epoch
    pub created_at: i64,
    /// When it last changed
    pub updated_at: i64,
}

impl Clone for WindowMetadata {
    /// A copy of the window.
    fn clone(&self) -> (c: Self)
        ensures
            c == *self,
    {
        WindowMetadata {
            id: self.id,
            name: self.name.clone(),
            window_type: self.window_type,
            session_id: self.session_id,
            tab_id: self.tab_id,
            geometry: self.geometry,
            created_at: self.created_at,
            updated_at: self.updated_at,
        }
    }
}

/// `w` as changed at time `t`.
pub open spec fn retimed(w: WindowMetadata, t: i64) -> WindowMetadata {
    WindowMetadata { updated_at: t, ..w }
}

/// `w` with geometry `g`.
pub open spec fn with_geometry(w: WindowMetadata, g: WindowGeometry) -> WindowMetadata {
    WindowMetadata { geometry: g, ..w }
}

/// Why a window operation failed.
#[derive(Debug, Clone, Copy, PartialEq, Eq, Structural)]
pub enum WindowError {
    /// No window has the identifier
    WindowNotFound,
    /// The window to split does not exist
    ParentNotFound,
    /// The session never had a window
    SessionNotFound,
    /// The window belongs to another session
    NotInSession,
}

/// Keeps windows by identifier, the windows of each session in the order
/// they were made, the active window of each session, and the windows split
/// off each window.
pub struct WindowManager {
    windows: Vec<(uuid::Uuid, WindowMetadata)>,
    session_windows: Vec<(uuid::Uuid, Vec<uuid::Uuid>)>,
    active_windows: Vec<(uuid::Uuid, uuid::Uuid)>,
    window_hierarchy: Vec<(uuid::Uuid, Vec<uuid::Uuid>)>,
}

impl WindowManager {
    /// The windows, each under its identifier.
    pub closed spec fn windows(self) -> Seq<(uuid::Uuid, WindowMetadata)> {
        self.windows@
    }

    /// Each session with the identifiers of its windows.
    pub closed spec fn session_windows(self) -> Seq<(uuid::Uuid, Seq<uuid::Uuid>)> {
        lists_view(self.session_windows@)
    }

    /// Each session with its active window.
    pub closed spec fn actives(self) -> Seq<(uuid::Uuid, uuid::Uuid)> {
        self.active_windows@
    }

    /// Each window with the windows split off it.
    pub closed spec fn hierarchy(self) -> Seq<(uuid::Uuid, Seq<uuid::Uuid>)> {
        lists_view(self.window_hierarchy@)
    }

    /// A manager with no windows.
    pub fn new() -> (m: Self)
        ensures
            m.windows().len() == 0,
            m.session_windows().len() == 0,
            m.actives().len() == 0,
            m.hierarchy().len() == 0,
    {
        WindowManager {
            windows: Vec::new(),
            session_windows: Vec::new(),
            active_windows: Vec::new(),
            window_hierarchy: Vec::new(),
        }
    }

    /// Puts `w` under its identifier, adds it to the windows of its
    /// session, and makes it the session's active window when it has none.
    fn add_window(&mut self, w: WindowMetadata)
        ensures
            final(self).windows() == upsert_entry(old(self).windows(), w.id, w),
            final(self).session_windows() == upsert_entry(old(self).session_windows(), w.session_id,
                list_of(old(self).session_windows(), w.session_id).push(w.id)),
            key_index(old(self).actives(), w.session_id) is None ==> final(self).actives() == old(self).actives().push((w.session_id, w.id)),
            key_index(old(self).actives(), w.session_id) is Some ==> final(self).actives() == old(self).actives(),
            final(self).hierarchy() == old(self).hierarchy(),
    {
        let id = w.id;
        let session_id = w.session_id;
        upsert(&mut self.windows, id, w);
        let mut ids = list_copy(&self.session_windows, &session_id);
        ids.push(id);
        proof {
            lemma_lists_view_upsert(self.session_windows@, session_id, ids);
        }
        upsert(&mut self.session_windows, session_id, ids);
        match find_key(&self.active_windows, &session_id) {
            Some(_) => {},
            None => {
                self.active_windows.push((session_id, id));
            },
        }
    }

    /// Makes a window named `name` of kind `window_type` in session
    /// `session_id` (and tab `tab_id`, if given) with geometry `geometry`:
    /// kept under its new identifier, last among the session's windows, and
    /// the session's active window when it has none. Returns a copy of it.
    pub fn create_window(
        &mut self,
        name: String,
        window_type: WindowType,
        session_id: uuid::Uuid,
        tab_id: Option<uuid::Uuid>,
        geometry: WindowGeometry,
    ) -> (r: WindowMetadata)
        ensures
            r.name == name && r.window_type == window_type && r.session_id == session_id,
            r.tab_id == tab_id && r.geometry == geometry && r.created_at == r.updated_at,
            final(self).windows() == upsert_entry(old(self).windows(), r.id, r),
            final(self).session_windows() == upsert_entry(old(self).session_windows(), session_id,
                list_of(old(self).session_windows(), session_id).push(r.id)),
            key_index(old(self).actives(), session_id) is None ==> final(self).actives() == old(self).actives().push((session_id, r.id)),
            key_index(old(self).actives(), session_id) is Some ==> final(self).actives() == old(self).actives(),
            final(self).hierarchy() == old(self).hierarchy(),
    {
        let id = new_uuid();
        let now = utc_now_millis();
        let w = WindowMetadata { id, name, window_type, session_id, tab_id, geometry, created_at: now, updated_at: now };
        let r = w.clone();
        self.add_window(w);
        r
    }

    /// A copy of window `window_id`, if there is one.
    pub fn get_window(&self, window_id: uuid::Uuid) -> (r: Option<WindowMetadata>)
        ensures
            r == value_of(self.windows(), window_id),
    {
        proof {
            lemma_key_index(self.windows@, window_id);
        }
        match find_key(&self.windows, &window_id) {
            Some(i) => Some(self.windows[i].1.clone()),
            None => None,
        }
    }

    /// A copy of the active window of session `session_id`, if it has one
    /// and the window is there.
    pub fn get_active_window(&self, session_id: uuid::Uuid) -> (r: Option<WindowMetadata>)
        ensures
            r == match value_of(self.actives(), session_id) {
                Some(w) => value_of(self.windows(), w),
                None => None,
            },
    {
        proof {
            lemma_key_index(self.active_windows@, session_id);
        }
        match find_key(&self.active_windows, &session_id) {
            Some(i) => self.get_window(self.active_windows[i].1),
            None => None,
        }
    }

    /// Makes window `window_id` the active window of session `session_id`.
    /// Fails when there is no such window, the session never had a window,
    /// or the window is not one of the session's.
    pub fn set_active_window(&mut self, session_id: uuid::Uuid, window_id: uuid::Uuid) -> (r: Result<(), WindowError>)
        ensures
            final(self).windows() == old(self).windows(),
            final(self).session_windows() == old(self).session_windows(),
            final(self).hierarchy() == old(self).hierarchy(),
            r == (if key_index(old(self).windows(), window_id) is None {
                Err::<(), WindowError>(WindowError::WindowNotFound)
            } else if key_index(old(self).session_windows(), session_id) is None {
                Err(WindowError::SessionNotFound)
            } else if !list_of(old(self).session_windows(), session_id).contains(window_id) {
                Err(WindowError::NotInSession)
            } else {
                Ok(())
            }),
            r is Ok ==> final(self).actives() == upsert_entry(old(self).actives(), session_id, window_id),
            r is Err ==> final(self).actives() == old(self).actives(),
    {
        if find_key(&self.windows, &window_id).is_none() {
            return Err(WindowError::WindowNotFound);
        }
        proof {
            lemma_lists_view_keys(self.session_windows@, session_id);
            lemma_key_index(self.session_windows@, session_id);
        }
        let ids = match find_key(&self.session_windows, &session_id) {
            None => {
                return Err(WindowError::SessionNotFound);
            },
            Some(i) => &self.session_windows[i].1,
        };
        let mut j: usize = 0;
        let mut found = false;
        while j < ids.len()
            invariant
                j <= ids.len(),
                found == ids@.take(j as int).contains(window_id),
            decreases ids.len() - j,
        {
            let ghost prev = ids@.take(j as int);
            let ghost next = ids@.take(j + 1);
            assert(next =~= prev.push(ids@[j as int]));
            let here = same_id(&ids[j], &window_id);
            proof {
                if here {
                    assert(next[j as int] == window_id);
                } else if next.contains(window_id) {
                    let t = choose|t: int| 0 <= t < next.len() && next[t] == window_id;
                    assert(prev[t] == window_id);
                }
                if prev.contains(window_id) {
                    let t = choose|t: int| 0 <= t < prev.len() && prev[t] == window_id;
                    assert(next[t] == window_id);
                }
            }
            found = found || here;
            j = j + 1;
        }
        assert(ids@.take(j as int) =~= ids@);
        if !found {
            return Err(WindowError::NotInSession);
        }
        upsert(&mut self.active_windows, session_id, window_id);
        Ok(())
    }
}

impl WindowManager {
    /// Splits window `parent_window_id` in two: what is left of it keeps
    /// the first half (the upper one for a horizontal split, the left one
    /// for a vertical one) and a new split window named `new_window_name`,
    /// in the parent's session and tab, takes the other half; it is added as
    /// `create_window` adds a window and listed among the windows split off
    /// the parent. Returns a copy of the new window; fails, changing
    /// nothing, when there is no such parent.
    pub fn split_window(&mut self, parent_window_id: uuid::Uuid, split_type: SplitType, new_window_name: String) -> (r: Result<WindowMetadata, WindowError>)
        requires
            value_of(old(self).windows(), parent_window_id) matches Some(p) ==> split_fits(p.geometry, split_type),
        ensures
            match value_of(old(self).windows(), parent_window_id) {
                None => {
                    &&& r == Err::<WindowMetadata, WindowError>(WindowError::ParentNotFound)
                    &&& final(self).windows() == old(self).windows()
                    &&& final(self).session_windows() == old(self).session_windows()
                    &&& final(self).actives() == old(self).actives()
                    &&& final(self).hierarchy() == old(self).hierarchy()
                },
                Some(p) => r matches Ok(w) && {
                    let k = key_index(old(self).windows(), parent_window_id)->0;
                    &&& geometry_view(w.geometry) == split_geometry(p.geometry, split_type)
                    &&& w.name == new_window_name && w.window_type == WindowType::Split
                    &&& w.session_id == p.session_id && w.tab_id == p.tab_id && w.created_at == w.updated_at
                    &&& exists|t: i64| final(self).windows() == upsert_entry(
                        old(self).windows().update(k, (parent_window_id,
                            #[trigger] retimed(with_geometry(p, adjust_parent_geometry_spec(p.geometry, split_type)), t))),
                        w.id, w)
                    &&& final(self).session_windows() == upsert_entry(old(self).session_windows(), p.session_id,
                        list_of(old(self).session_windows(), p.session_id).push(w.id))
                    &&& key_index(old(self).actives(), p.session_id) is None ==> final(self).actives() == old(self).actives().push((p.session_id, w.id))
                    &&& key_index(old(self).actives(), p.session_id) is Some ==> final(self).actives() == old(self).actives()
                    &&& final(self).hierarchy() == upsert_entry(old(self).hierarchy(), parent_window_id,
                        list_of(old(self).hierarchy(), parent_window_id).push(w.id))
                },
            },
    {
        proof {
            lemma_key_index(self.windows@, parent_window_id);
        }
        let k = match find_key(&self.windows, &parent_window_id) {
            None => {
                return Err(WindowError::ParentNotFound);
            },
            Some(k) => k,
        };
        let parent = self.windows[k].1.clone();
        let new_geometry = calculate_split_geometry(&parent.geometry, split_type);
        let now = utc_now_millis();
        let adjusted = WindowMetadata {
            id: parent.id,
            name: parent.name.clone(),
            window_type: parent.window_type,
            session_id: parent.session_id,
            tab_id: parent.tab_id,
            geometry: adjust_parent_geometry(&parent.geometry, split_type),
            created_at: parent.created_at,
            updated_at: now,
        };
        self.windows.set(k, (parent_window_id, adjusted));
        let ghost mid = self.windows@;
        let w = self.create_window(new_window_name, WindowType::Split, parent.session_id, parent.tab_id, new_geometry);
        let mut children = list_copy(&self.window_hierarchy, &parent_window_id);
        children.push(w.id);
        proof {
            lemma_lists_view_upsert(self.window_hierarchy@, parent_window_id, children);
            assert(mid == old(self).windows().update(k as int, (parent_window_id,
                retimed(with_geometry(parent, adjust_parent_geometry_spec(parent.geometry, split_type)), now))));
        }
        upsert(&mut self.window_hierarchy, parent_window_id, children);
        Ok(w)
    }

    /// Gives window `window_id` the geometry `new_geometry`. Fails, changing
    /// nothing, when there is no such window.
    pub fn resize_window(&mut self, window_id: uuid::Uuid, new_geometry: WindowGeometry) -> (r: Result<(), WindowError>)
        ensures
            final(self).session_windows() == old(self).session_windows(),
            final(self).actives() == old(self).actives(),
            final(self).hierarchy() == old(self).hierarchy(),
            match key_index(old(self).windows(), window_id) {
                None => r == Err::<(), WindowError>(WindowError::WindowNotFound) && final(self).windows() == old(self).windows(),
                Some(k) => r is Ok && exists|t: i64| final(self).windows() == old(self).windows().update(k, (window_id,
                    #[trigger] retimed(with_geometry(old(self).windows()[k].1, new_geometry), t))),
            },
    {
        proof {
            lemma_key_index(self.windows@, window_id);
        }
        match find_key(&self.windows, &window_id) {
            None => Err(WindowError::WindowNotFound),
            Some(k) => {
                let w = self.windows[k].1.clone();
                let now = utc_now_millis();
                let resized = WindowMetadata {
                    id: w.id,
                    name: w.name,
                    window_type: w.window_type,
                    session_id: w.session_id,
                    tab_id: w.tab_id,
                    geometry: new_geometry,
                    created_at: w.created_at,
                    updated_at: now,
                };
                self.windows.set(k, (window_id, resized));
                assert(self.windows@ == old(self).windows().update(k as int, (window_id,
                    retimed(with_geometry(old(self).windows()[k as int].1, new_geometry), now))));
                Ok(())
            },
        }
    }

    /// How many windows session `session_id` has.
    pub fn get_session_window_count(&self, session_id: uuid::Uuid) -> (n: usize)
        ensures
            n == list_of(self.session_windows(), session_id).len(),
    {
        proof {
            lemma_lists_view_keys(self.session_windows@, session_id);
            lemma_key_index(self.session_windows@, session_id);
        }
        match find_key(&self.session_windows, &session_id) {
            Some(i) => self.session_windows[i].1.len(),
            None => 0,
        }
    }

    /// How many windows there are.
    pub fn get_window_count(&self) -> (n: usize)
        ensures
            n == self.windows().len(),
    {
        self.windows.len()
    }

    /// Forgets every window.
    pub fn shutdown(&mut self)
        ensures
            final(self).windows().len() == 0,
            final(self).session_windows().len() == 0,
            final(self).actives().len() == 0,
            final(self).hierarchy().len() == 0,
    {
        self.windows.clear();
        self.session_windows.clear();
        self.active_windows.clear();
        self.window_hierarchy.clear();
    }
}

/// The windows that `ids` name, in the order of `ids`; identifiers with no
/// window are passed over.
pub open spec fn listed_windows(ws: Seq<(uuid::Uuid, WindowMetadata)>, ids: Seq<uuid::Uuid>) -> Seq<WindowMetadata>
    decreases ids.len(),
{
    if ids.len() == 0 {
        seq![]
    } else {
        let prev = listed_windows(ws, ids.drop_last());
        match value_of(ws, ids.last()) {
            Some(w) => prev.push(w),
            None => prev,
        }
    }
}

/// The times the windows of `ws` were made.
pub open spec fn window_times(ws: Seq<WindowMetadata>) -> Seq<i64> {
    ws.map_values(|w: WindowMetadata| w.created_at)
}

impl WindowManager {
    /// Copies of the windows of session `session_id`, from the earliest made
    /// to the latest, windows made at the same time in the order the session
    /// lists them; identifiers with no window are passed over.
    pub fn get_session_windows(&self, session_id: uuid::Uuid) -> (r: Vec<WindowMetadata>)
        ensures
            r.len() == listed_windows(self.windows(), list_of(self.session_windows(), session_id)).len(),
            exists|idx: Seq<usize>| #[trigger] by_time(window_times(listed_windows(self.windows(), list_of(self.session_windows(), session_id))), idx)
                && forall|a: int| 0 <= a < r.len() ==> #[trigger] r@[a] == listed_windows(self.windows(), list_of(self.session_windows(), session_id))[idx[a] as int],
    {
        let ids = list_copy(&self.session_windows, &session_id);
        let ghost lw = listed_windows(self.windows(), ids@);
        let mut mine: Vec<WindowMetadata> = Vec::new();
        let mut keys: Vec<i64> = Vec::new();
        let mut k: usize = 0;
        while k < ids.len()
            invariant
                k <= ids.len(),
                mine@ == listed_windows(self.windows(), ids@.take(k as int)),
                keys@ == window_times(mine@),
            decreases ids.len() - k,
        {
            assert(ids@.take(k + 1).drop_last() =~= ids@.take(k as int));
            assert(ids@.take(k + 1).last() == ids@[k as int]);
            match self.get_window(ids[k]) {
                Some(w) => {
                    keys.push(w.created_at);
                    mine.push(w);
                },
                None => {},
            }
            k = k + 1;
            assert(keys@ =~= window_times(mine@));
        }
        assert(ids@.take(k as int) =~= ids@);
        let order = time_order(&keys);
        let mut r: Vec<WindowMetadata> = Vec::new();
        let mut a: usize = 0;
        while a < order.len()
            invariant
                a <= order.len(),
                by_time(keys@, order@),
                keys@ == window_times(lw),
                mine@ == lw,
                r.len() == a,
                forall|b: int| 0 <= b < a ==> #[trigger] r@[b] == lw[order@[b] as int],
            decreases order.len() - a,
        {
            r.push(mine[order[a]].clone());
            a = a + 1;
        }
        r
    }
}

/// The window data kept between runs, as read from the window file: window
/// records by the text of their identifier, each session's windows, each
/// session's active window and the windows split off each window,
/// identifiers written as text.
pub struct WindowDocument {
    /// Window records by identifier text
    pub windows: Vec<(String, WindowMetadata)>,
    /// Window lists by session identifier text
    pub session_windows: Vec<(String, Vec<String>)>,
    /// Active windows by session identifier text
    pub active_windows: Vec<(String, String)>,
    /// Split-off windows by window identifier text
    pub window_hierarchy: Vec<(String, Vec<String>)>,
}

impl WindowManager {
    /// Restores the window data kept between runs: each record whose
    /// identifier text parses is put under that identifier, each list of a
    /// session's windows and of the windows split off a window whose key
    /// text parses is set to the identifiers of it that parse, and each
    /// active window whose two texts parse is set; everything else is passed
    /// over.
    pub fn restore_window_data(&mut self, doc: WindowDocument)
        ensures
            final(self).windows() == restored_values(old(self).windows(), doc.windows@.map_values(|e: (String, WindowMetadata)| (e.0@, e.1))),
            final(self).session_windows() == restored_lists(old(self).session_windows(), list_texts(doc.session_windows@)),
            final(self).actives() == restored_links(old(self).actives(), doc.active_windows@.map_values(|e: (String, String)| (e.0@, e.1@))),
            final(self).hierarchy() == restored_lists(old(self).hierarchy(), list_texts(doc.window_hierarchy@)),
    {
        let WindowDocument { windows, session_windows, active_windows, window_hierarchy } = doc;
        let ghost sw_texts = list_texts(session_windows@);
        let ghost wh_texts = list_texts(window_hierarchy@);
        let ghost we = windows@.map_values(|e: (String, WindowMetadata)| (e.0@, e.1));
        let ghost w0 = self.windows@;
        let ghost all_w = windows@;
        let mut windows = windows;
        let ghost mut k: int = 0;
        while windows.len() > 0
            invariant
                0 <= k <= all_w.len(),
                windows@ == all_w.skip(k),
                windows@.len() == all_w.len() - k,
                we == all_w.map_values(|e: (String, WindowMetadata)| (e.0@, e.1)),
                self.windows@ == restored_values(w0, we.take(k)),
                self.session_windows@ == old(self).session_windows@,
                self.active_windows@ == old(self).active_windows@,
                self.window_hierarchy@ == old(self).window_hierarchy@,
            decreases windows.len(),
        {
            let ghost e = all_w[k];
            assert(windows@[0] == e);
            assert(we.take(k + 1).drop_last() =~= we.take(k));
            assert(we.take(k + 1).last() == (e.0@, e.1));
            let (key, meta) = windows.remove(0);
            match parse_uuid(key.as_str()) {
                Some(id) => upsert(&mut self.windows, id, meta),
                None => {},
            }
            proof {
                k = k + 1;
            }
            assert(windows@ =~= all_w.skip(k));
        }
        assert(we.take(k) =~= we);
        restore_lists(&mut self.session_windows, session_windows);
        restore_lists(&mut self.window_hierarchy, window_hierarchy);
        let ghost ae = active_windows@.map_values(|e: (String, String)| (e.0@, e.1@));
        let ghost a0 = self.active_windows@;
        let ghost all_a = active_windows@;
        let mut active_windows = active_windows;
        let ghost mut k: int = 0;
        while active_windows.len() > 0
            invariant
                0 <= k <= all_a.len(),
                active_windows@ == all_a.skip(k),
                active_windows@.len() == all_a.len() - k,
                ae == all_a.map_values(|e: (String, String)| (e.0@, e.1@)),
                self.active_windows@ == restored_links(a0, ae.take(k)),
                self.windows@ == restored_values(w0, we),
                lists_view(self.session_windows@) == restored_lists(old(self).session_windows(), sw_texts),
                lists_view(self.window_hierarchy@) == restored_lists(old(self).hierarchy(), wh_texts),
            decreases active_windows.len(),
        {
            let ghost e = all_a[k];
            assert(active_windows@[0] == e);
            assert(ae.take(k + 1).drop_last() =~= ae.take(k));
            assert(ae.take(k + 1).last() == (e.0@, e.1@));
            let (key, value) = active_windows.remove(0);
            match (parse_uuid(key.as_str()), parse_uuid(value.as_str())) {
                (Some(s), Some(w)) => upsert(&mut self.active_windows, s, w),
                _ => {},
            }
            proof {
                k = k + 1;
            }
            assert(active_windows@ =~= all_a.skip(k));
        }
        assert(ae.take(k) =~= ae);
    }
}

/// Two identifiers are the same.
fn same_id(a: &uuid::Uuid, b: &uuid::Uuid) -> (r: bool)
    ensures
        r == (*a == *b),
{
    crate::stamps::same_uuid(a, b)
}

} // verus!
