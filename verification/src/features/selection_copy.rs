//! Selection and copying: selections made on the screen, from start to
//! completion or cancellation, and a bounded clipboard history.
use crate::advanced::SelectionMode;
use crate::stamps::{by_time, new_uuid, same_uuid, time_order, utc_now_millis};
use vstd::prelude::*;

verus! {

/// Selection states.
#[derive(Debug, Clone, Copy, PartialEq, Eq, Structural)]
pub enum SelectionStatus {
    /// Being made
    Active,
    /// Made
    Completed,
    /// Cancelled
    Cancelled,
}

/// Selection configuration.
#[derive(Debug, Clone, Copy)]
pub struct SelectionConfig {
    /// Enable selection
    pub enable_selection: bool,
    /// Enable copying
    pub enable_copy: bool,
    /// Maximum selection size
    pub max_selection_size: usize,
    /// Selection timeout
    pub selection_timeout: u32,
    /// Show the selection
    pub enable_visual_feedback: bool,
}

/// Clipboard configuration.
#[derive(Debug, Clone, Copy)]
pub struct ClipboardConfig {
    /// Enable the clipboard
    pub enable_clipboard: bool,
    /// Maximum clipboard history
    pub max_clipboard_history: usize,
    /// Clipboard timeout
    pub clipboard_timeout: u32,
    /// Copy on select
    pub enable_auto_copy: bool,
}

/// A selection being made or made.
#[derive(Debug)]
pub struct ActiveSelection {
    /// Identifier
    pub id: uuid::Uuid,
    /// Where it starts (column, row)
    pub start_position: (u32, u32),
    /// Where it ends
    pub end_position: (u32, u32),
    /// How it selects
    pub mode: SelectionMode,
    /// The text selected
    pub selected_text: String,
    /// When it was started, in milliseconds since the Unix epoch
    pub created_at: i64,
    /// When it last changed
    pub last_updated: i64,
    /// Its state
    pub status: SelectionStatus,
}

/// `a` and `b` are the same selection record, the text compared by content.
pub open spec fn same_selection(a: ActiveSelection, b: ActiveSelection) -> bool {
    &&& a.id == b.id
    &&& a.start_position == b.start_position
    &&& a.end_position == b.end_position
    &&& a.mode == b.mode
    &&& a.selected_text@ == b.selected_text@
    &&& a.created_at == b.created_at
    &&& a.last_updated == b.last_updated
    &&& a.status == b.status
}

impl Clone for ActiveSelection {
    /// A copy of the selection.
    fn clone(&self) -> (c: Self)
        ensures
            same_selection(c, *self),
    {
        ActiveSelection {
            id: self.id,
            start_position: self.start_position,
            end_position: self.end_position,
            mode: self.mode,
            selected_text: self.selected_text.clone(),
            created_at: self.created_at,
            last_updated: self.last_updated,
            status: self.status,
        }
    }
}

/// Text that was copied.
#[derive(Debug)]
pub struct ClipboardEntry {
    /// Identifier
    pub id: uuid::Uuid,
    /// The text
    pub content: String,
    /// When, in milliseconds since the Unix epoch
    pub created_at: i64,
}

/// `a` and `b` are the same clipboard entry, the text compared by content.
pub open spec fn same_clip(a: ClipboardEntry, b: ClipboardEntry) -> bool {
    a.id == b.id && a.content@ == b.content@ && a.created_at == b.created_at
}

impl Clone for ClipboardEntry {
    /// A copy of the entry.
    fn clone(&self) -> (c: Self)
        ensures
            same_clip(c, *self),
    {
        ClipboardEntry { id: self.id, content: self.content.clone(), created_at: self.created_at }
    }
}

/// Why a selection operation failed.
#[derive(Debug, Clone, Copy, PartialEq, Eq, Structural)]
pub enum SelectionError {
    /// No selection has the identifier
    NotFound,
}

/// The index of the first selection of `ss` with identifier `id`.
pub open spec fn selection_index(ss: Seq<ActiveSelection>, id: uuid::Uuid) -> Option<int> {
    if exists|i: int| 0 <= i < ss.len() && ss[i].id == id {
        Some(choose|i: int| 0 <= i < ss.len() && ss[i].id == id && forall|j: int| 0 <= j < i ==> ss[j].id != id)
    } else {
        None
    }
}

/// `new` is `old` with its selection at `k` replaced by one for which
/// `changed` holds, the others kept.
pub open spec fn replaced_at(old: Seq<ActiveSelection>, new: Seq<ActiveSelection>, k: int) -> bool {
    &&& new.len() == old.len()
    &&& forall|i: int| 0 <= i < old.len() && i != k ==> #[trigger] new[i] == old[i]
}

/// Makes selections and keeps copied text.
pub struct SelectionCopyManager {
    active_selections: Vec<ActiveSelection>,
    clipboard_history: Vec<ClipboardEntry>,
    selection_config: SelectionConfig,
    clipboard_config: ClipboardConfig,
}

impl SelectionCopyManager {
    /// The selections, in the order they were started.
    pub closed spec fn selections(self) -> Seq<ActiveSelection> {
        self.active_selections@
    }

    /// The texts copied, oldest first.
    pub closed spec fn clipboard(self) -> Seq<ClipboardEntry> {
        self.clipboard_history@
    }

    /// The selection configuration.
    pub closed spec fn selection_settings(self) -> SelectionConfig {
        self.selection_config
    }

    /// The clipboard configuration.
    pub closed spec fn clipboard_settings(self) -> ClipboardConfig {
        self.clipboard_config
    }

    /// A manager with no selections and an empty clipboard history;
    /// selections of up to 10000 characters with a 30 second timeout,
    /// copying and feedback on; at most 50 copied texts kept, a 60 second
    /// clipboard timeout, copy on select.
    pub fn new() -> (m: Self)
        ensures
            m.selections().len() == 0,
            m.clipboard().len() == 0,
            m.selection_settings() == (SelectionConfig {
                enable_selection: true,
                enable_copy: true,
                max_selection_size: 10000,
                selection_timeout: 30,
                enable_visual_feedback: true,
            }),
            m.clipboard_settings() == (ClipboardConfig {
                enable_clipboard: true,
                max_clipboard_history: 50,
                clipboard_timeout: 60,
                enable_auto_copy: true,
            }),
    {
        SelectionCopyManager {
            active_selections: Vec::new(),
            clipboard_history: Vec::new(),
            selection_config: SelectionConfig {
                enable_selection: true,
                enable_copy: true,
                max_selection_size: 10000,
                selection_timeout: 30,
                enable_visual_feedback: true,
            },
            clipboard_config: ClipboardConfig {
                enable_clipboard: true,
                max_clipboard_history: 50,
                clipboard_timeout: 60,
                enable_auto_copy: true,
            },
        }
    }

    /// Starts a selection at `start_position` in `mode`: an active, empty
    /// selection ending where it starts, kept after the others. Returns its
    /// identifier.
    pub fn start_selection(&mut self, start_position: (u32, u32), mode: SelectionMode) -> (id: uuid::Uuid)
        ensures
            final(self).selections().len() == old(self).selections().len() + 1,
            forall|i: int|
                0 <= i < old(self).selections().len()
                    ==> #[trigger] final(self).selections()[i] == old(self).selections()[i],
            ({
                let s = final(self).selections().last();
                &&& s.id == id
                &&& s.start_position == start_position
                &&& s.end_position == start_position
                &&& s.mode == mode
                &&& s.selected_text@.len() == 0
                &&& s.created_at == s.last_updated
                &&& s.status == SelectionStatus::Active
            }),
            final(self).clipboard() == old(self).clipboard(),
            final(self).clipboard_settings() == old(self).clipboard_settings(),
            final(self).selection_settings() == old(self).selection_settings(),
    {
        let id = new_uuid();
        let now = utc_now_millis();
        self.active_selections.push(
            ActiveSelection {
                id,
                start_position,
                end_position: start_position,
                mode,
                selected_text: String::new(),
                created_at: now,
                last_updated: now,
                status: SelectionStatus::Active,
            },
        );
        id
    }

    /// The index of the selection with identifier `id`.
    fn find(&self, id: &uuid::Uuid) -> (r: Option<usize>)
        ensures
            match selection_index(self.selections(), *id) {
                None => r is None,
                Some(k) => r matches Some(j) && j == k,
            },
            r matches Some(k) ==> k < self.selections().len(),
    {
        let mut k: usize = 0;
        while k < self.active_selections.len()
            invariant
                k <= self.active_selections.len(),
                forall|j: int| 0 <= j < k ==> (#[trigger] self.active_selections@[j]).id != *id,
            decreases self.active_selections.len() - k,
        {
            if same_uuid(&self.active_selections[k].id, id) {
                proof {
                    let ss = self.selections();
                    let c = choose|i: int| 0 <= i < ss.len() && ss[i].id == *id && forall|j: int|
                        0 <= j < i ==> ss[j].id != *id;
                    assert(ss[k as int].id == *id);
                    assert(c == k);
                }
                return Some(k);
            }
            k = k + 1;
        }
        None
    }

    /// Moves the end of selection `selection_id` to `end_position`; the text
    /// it holds is recomputed, which, with no text buffer attached, leaves it
    /// empty. Fails when no selection has the identifier.
    pub fn update_selection(&mut self, selection_id: uuid::Uuid, end_position: (u32, u32)) -> (r: Result<(), SelectionError>)
        ensures
            final(self).clipboard() == old(self).clipboard(),
            final(self).clipboard_settings() == old(self).clipboard_settings(),
            final(self).selection_settings() == old(self).selection_settings(),
            match selection_index(old(self).selections(), selection_id) {
                None => r == Err::<(), SelectionError>(SelectionError::NotFound) && final(self).selections()
                    == old(self).selections(),
                Some(k) => {
                    let s = final(self).selections()[k];
                    let o = old(self).selections()[k];
                    &&& r is Ok
                    &&& replaced_at(old(self).selections(), final(self).selections(), k)
                    &&& s.id == o.id && s.start_position == o.start_position && s.mode == o.mode
                    &&& s.created_at == o.created_at && s.status == o.status
                    &&& s.end_position == end_position
                    &&& s.selected_text@.len() == 0
                },
            },
    {
        match self.find(&selection_id) {
            None => Err(SelectionError::NotFound),
            Some(k) => {
                let mut s = self.active_selections[k].clone();
                s.end_position = end_position;
                s.last_updated = utc_now_millis();
                s.selected_text = String::new();
                self.active_selections.set(k, s);
                Ok(())
            },
        }
    }

    /// Completes selection `selection_id` and returns the text it holds.
    /// Fails when no selection has the identifier.
    pub fn complete_selection(&mut self, selection_id: uuid::Uuid) -> (r: Result<String, SelectionError>)
        ensures
            final(self).clipboard() == old(self).clipboard(),
            final(self).clipboard_settings() == old(self).clipboard_settings(),
            final(self).selection_settings() == old(self).selection_settings(),
            match selection_index(old(self).selections(), selection_id) {
                None => r == Err::<String, SelectionError>(SelectionError::NotFound) && final(self).selections()
                    == old(self).selections(),
                Some(k) => {
                    let s = final(self).selections()[k];
                    let o = old(self).selections()[k];
                    &&& r matches Ok(text) && text@ == o.selected_text@
                    &&& replaced_at(old(self).selections(), final(self).selections(), k)
                    &&& s.id == o.id && s.start_position == o.start_position && s.end_position
                        == o.end_position && s.mode == o.mode && s.created_at == o.created_at
                    &&& s.selected_text@ == o.selected_text@
                    &&& s.status == SelectionStatus::Completed
                },
            },
    {
        match self.find(&selection_id) {
            None => Err(SelectionError::NotFound),
            Some(k) => {
                let mut s = self.active_selections[k].clone();
                s.status = SelectionStatus::Completed;
                s.last_updated = utc_now_millis();
                let text = s.selected_text.clone();
                self.active_selections.set(k, s);
                Ok(text)
            },
        }
    }

    /// Cancels selection `selection_id`; it is kept, as cancelled. Fails
    /// when no selection has the identifier.
    pub fn cancel_selection(&mut self, selection_id: uuid::Uuid) -> (r: Result<(), SelectionError>)
        ensures
            final(self).clipboard() == old(self).clipboard(),
            final(self).clipboard_settings() == old(self).clipboard_settings(),
            final(self).selection_settings() == old(self).selection_settings(),
            match selection_index(old(self).selections(), selection_id) {
                None => r == Err::<(), SelectionError>(SelectionError::NotFound) && final(self).selections()
                    == old(self).selections(),
                Some(k) => {
                    let s = final(self).selections()[k];
                    let o = old(self).selections()[k];
                    &&& r is Ok
                    &&& replaced_at(old(self).selections(), final(self).selections(), k)
                    &&& s.id == o.id && s.start_position == o.start_position && s.end_position
                        == o.end_position && s.mode == o.mode && s.created_at == o.created_at
                    &&& s.selected_text@ == o.selected_text@
                    &&& s.status == SelectionStatus::Cancelled
                },
            },
    {
        match self.find(&selection_id) {
            None => Err(SelectionError::NotFound),
            Some(k) => {
                let mut s = self.active_selections[k].clone();
                s.status = SelectionStatus::Cancelled;
                s.last_updated = utc_now_millis();
                self.active_selections.set(k, s);
                Ok(())
            },
        }
    }

    /// A copy of selection `selection_id`, if there is one.
    pub fn get_selection(&self, selection_id: uuid::Uuid) -> (r: Option<ActiveSelection>)
        ensures
            match selection_index(self.selections(), selection_id) {
                None => r is None,
                Some(k) => r matches Some(s) && same_selection(s, self.selections()[k]),
            },
    {
        match self.find(&selection_id) {
            None => None,
            Some(k) => Some(self.active_selections[k].clone()),
        }
    }

    /// The times the selections were started, in the order they were started.
    pub open spec fn selection_times(self) -> Seq<i64> {
        self.selections().map_values(|e: ActiveSelection| e.created_at)
    }

    /// Copies of the selections, from the earliest started to the latest,
    /// those started at the same time in the order they were started.
    pub fn get_all_selections(&self) -> (r: Vec<ActiveSelection>)
        ensures
            r.len() == self.selections().len(),
            exists|idx: Seq<usize>|
                #[trigger] by_time(self.selection_times(), idx) && forall|a: int|
                    0 <= a < r.len() ==> same_selection(#[trigger] r@[a], self.selections()[idx[a] as int]),
    {
        let ghost keys_view = self.selection_times();
        let mut keys: Vec<i64> = Vec::new();
        let mut k: usize = 0;
        while k < self.active_selections.len()
            invariant
                k <= self.active_selections.len(),
                keys_view == self.selection_times(),
                keys@ == keys_view.take(k as int),
            decreases self.active_selections.len() - k,
        {
            keys.push(self.active_selections[k].created_at);
            k = k + 1;
            assert(keys@ =~= keys_view.take(k as int));
        }
        assert(keys_view.take(k as int) =~= keys_view);
        let order = time_order(&keys);
        let mut r: Vec<ActiveSelection> = Vec::new();
        let mut a: usize = 0;
        while a < order.len()
            invariant
                a <= order.len(),
                by_time(keys@, order@),
                keys@ == self.selection_times(),
                r.len() == a,
                forall|b: int| 0 <= b < a ==> same_selection(#[trigger] r@[b], self.selections()[order@[b] as int]),
            decreases order.len() - a,
        {
            r.push(self.active_selections[order[a]].clone());
            a = a + 1;
        }
        r
    }

    /// How many selections there are.
    pub fn get_selection_count(&self) -> (n: usize)
        ensures
            n == self.selections().len(),
    {
        self.active_selections.len()
    }

    /// Keeps `text` at the end of the clipboard history, dropping the oldest
    /// entry when the history then holds more than `max_clipboard_history`.
    fn add_to_clipboard_history(&mut self, text: &str)
        ensures
            final(self).selections() == old(self).selections(),
            final(self).clipboard_settings() == old(self).clipboard_settings(),
            final(self).selection_settings() == old(self).selection_settings(),
            kept_after_copy(old(self).clipboard(), final(self).clipboard(), text@, old(self).clipboard_settings().max_clipboard_history),
    {
        let entry = ClipboardEntry { id: new_uuid(), content: text.to_string(), created_at: utc_now_millis() };
        self.clipboard_history.push(entry);
        if self.clipboard_history.len() > self.clipboard_config.max_clipboard_history {
            self.clipboard_history.remove(0);
        }
    }

    /// Copies `text`: it joins the clipboard history.
    pub fn copy_text(&mut self, text: &str)
        ensures
            final(self).selections() == old(self).selections(),
            final(self).clipboard_settings() == old(self).clipboard_settings(),
            final(self).selection_settings() == old(self).selection_settings(),
            kept_after_copy(old(self).clipboard(), final(self).clipboard(), text@, old(self).clipboard_settings().max_clipboard_history),
    {
        self.add_to_clipboard_history(text);
    }

    /// Copies the text of selection `selection_id`: it joins the clipboard
    /// history. Fails when no selection has the identifier.
    pub fn copy_selection(&mut self, selection_id: uuid::Uuid) -> (r: Result<(), SelectionError>)
        ensures
            final(self).selections() == old(self).selections(),
            final(self).clipboard_settings() == old(self).clipboard_settings(),
            final(self).selection_settings() == old(self).selection_settings(),
            match selection_index(old(self).selections(), selection_id) {
                None => r == Err::<(), SelectionError>(SelectionError::NotFound) && final(self).clipboard()
                    == old(self).clipboard(),
                Some(k) => r is Ok && kept_after_copy(
                    old(self).clipboard(),
                    final(self).clipboard(),
                    old(self).selections()[k].selected_text@,
                    old(self).clipboard_settings().max_clipboard_history,
                ),
            },
    {
        match self.find(&selection_id) {
            None => Err(SelectionError::NotFound),
            Some(k) => {
                let text = self.active_selections[k].selected_text.clone();
                self.add_to_clipboard_history(text.as_str());
                Ok(())
            },
        }
    }

    /// The text on the clipboard. No system clipboard is attached, so it is
    /// empty.
    pub fn get_clipboard_content(&self) -> (s: String)
        ensures
            s@.len() == 0,
    {
        String::new()
    }

    /// The times of the texts copied, oldest entry first.
    pub open spec fn clipboard_times(self) -> Seq<i64> {
        self.clipboard().map_values(|e: ClipboardEntry| e.created_at)
    }

    /// Copies of the texts copied, from the earliest to the latest, texts
    /// copied at the same time in the order they were copied.
    pub fn get_clipboard_history(&self) -> (r: Vec<ClipboardEntry>)
        ensures
            r.len() == self.clipboard().len(),
            exists|idx: Seq<usize>|
                #[trigger] by_time(self.clipboard_times(), idx) && forall|a: int|
                    0 <= a < r.len() ==> same_clip(#[trigger] r@[a], self.clipboard()[idx[a] as int]),
    {
        let ghost keys_view = self.clipboard_times();
        let mut keys: Vec<i64> = Vec::new();
        let mut k: usize = 0;
        while k < self.clipboard_history.len()
            invariant
                k <= self.clipboard_history.len(),
                keys_view == self.clipboard_times(),
                keys@ == keys_view.take(k as int),
            decreases self.clipboard_history.len() - k,
        {
            keys.push(self.clipboard_history[k].created_at);
            k = k + 1;
            assert(keys@ =~= keys_view.take(k as int));
        }
        assert(keys_view.take(k as int) =~= keys_view);
        let order = time_order(&keys);
        let mut r: Vec<ClipboardEntry> = Vec::new();
        let mut a: usize = 0;
        while a < order.len()
            invariant
                a <= order.len(),
                by_time(keys@, order@),
                keys@ == self.clipboard_times(),
                r.len() == a,
                forall|b: int| 0 <= b < a ==> same_clip(#[trigger] r@[b], self.clipboard()[order@[b] as int]),
            decreases order.len() - a,
        {
            r.push(self.clipboard_history[order[a]].clone());
            a = a + 1;
        }
        r
    }

    /// Forgets every copied text.
    pub fn clear_clipboard_history(&mut self)
        ensures
            final(self).clipboard().len() == 0,
            final(self).selections() == old(self).selections(),
            final(self).clipboard_settings() == old(self).clipboard_settings(),
            final(self).selection_settings() == old(self).selection_settings(),
    {
        self.clipboard_history = Vec::new();
    }

    /// Forgets every selection and copied text.
    pub fn shutdown(&mut self)
        ensures
            final(self).selections().len() == 0,
            final(self).clipboard().len() == 0,
            final(self).clipboard_settings() == old(self).clipboard_settings(),
            final(self).selection_settings() == old(self).selection_settings(),
    {
        self.active_selections = Vec::new();
        self.clear_clipboard_history();
    }
}

/// `new` is clipboard history `old` after copying `text` with at most `max`
/// entries kept: `text` at the end, the oldest entry dropped when the
/// history would otherwise hold more than `max`.
pub open spec fn kept_after_copy(old: Seq<ClipboardEntry>, new: Seq<ClipboardEntry>, text: Seq<char>, max: usize) -> bool {
    let n = old.len() + 1;
    let shift: int = if n > max { 1 } else { 0 };
    &&& new.len() == n - shift
    &&& forall|i: int| 0 <= i < new.len() && i + shift < old.len() ==> #[trigger] new[i] == old[i + shift]
    &&& forall|i: int| 0 <= i < new.len() && i + shift == old.len() ==> (#[trigger] new[i]).content@ == text
}

/// Copying never makes the clipboard history hold more than its maximum
/// when it held no more before.
pub proof fn lemma_clipboard_stays_bounded(old: Seq<ClipboardEntry>, new: Seq<ClipboardEntry>, text: Seq<char>, max: usize)
    requires
        kept_after_copy(old, new, text, max),
        old.len() <= max,
    ensures
        new.len() <= max,
{
}

} // verus!
