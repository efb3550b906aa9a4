//! Hot reloading: the changes to watched files.
use std::time::SystemTime;
use vstd::prelude::*;

verus! {

/// A point in wall-clock time, as std's `SystemTime`; carried through,
/// never looked into.
#[verifier::external_type_specification]
#[verifier::external_body]
pub struct ExSystemTime(std::time::SystemTime);

/// A change to a watched file.
#[derive(Debug)]
pub enum FileChangeEvent {
    /// File was created
    Created {
        /// Its path
        path: String,
        /// When
        timestamp: SystemTime,
    },
    /// File was modified
    Modified {
        /// Its path
        path: String,
        /// When
        timestamp: SystemTime,
    },
    /// File was deleted
    Deleted {
        /// Its path
        path: String,
        /// When
        timestamp: SystemTime,
    },
    /// File was renamed
    Renamed {
        /// Its old path
        old_path: String,
        /// Its new path
        new_path: String,
        /// When
        timestamp: SystemTime,
    },
}

/// The two events are the same change at the same time.
pub open spec fn same_change(a: FileChangeEvent, b: FileChangeEvent) -> bool {
    match (a, b) {
        (
            FileChangeEvent::Created { path: p1, timestamp: t1 },
            FileChangeEvent::Created { path: p2, timestamp: t2 },
        ) => p1@ == p2@ && t1 == t2,
        (
            FileChangeEvent::Modified { path: p1, timestamp: t1 },
            FileChangeEvent::Modified { path: p2, timestamp: t2 },
        ) => p1@ == p2@ && t1 == t2,
        (
            FileChangeEvent::Deleted { path: p1, timestamp: t1 },
            FileChangeEvent::Deleted { path: p2, timestamp: t2 },
        ) => p1@ == p2@ && t1 == t2,
        (
            FileChangeEvent::Renamed { old_path: o1, new_path: n1, timestamp: t1 },
            FileChangeEvent::Renamed { old_path: o2, new_path: n2, timestamp: t2 },
        ) => o1@ == o2@ && n1@ == n2@ && t1 == t2,
        _ => false,
    }
}

impl Clone for FileChangeEvent {
    fn clone(&self) -> (e: Self)
        ensures
            same_change(e, *self),
    {
        match self {
            FileChangeEvent::Created { path, timestamp } => FileChangeEvent::Created {
                path: path.clone(),
                timestamp: *timestamp,
            },
            FileChangeEvent::Modified { path, timestamp } => FileChangeEvent::Modified {
                path: path.clone(),
                timestamp: *timestamp,
            },
            FileChangeEvent::Deleted { path, timestamp } => FileChangeEvent::Deleted {
                path: path.clone(),
                timestamp: *timestamp,
            },
            FileChangeEvent::Renamed { old_path, new_path, timestamp } => FileChangeEvent::Renamed {
                old_path: old_path.clone(),
                new_path: new_path.clone(),
                timestamp: *timestamp,
            },
        }
    }
}

/// How many earlier configurations are kept.
pub const HISTORY_LIMIT: usize = 10;

/// `h` with `c` added last, the oldest dropped when more than
/// `HISTORY_LIMIT` would be kept.
pub open spec fn pushed_history(h: Seq<Seq<char>>, c: Seq<char>) -> Seq<Seq<char>> {
    let p = h.push(c);
    if p.len() > HISTORY_LIMIT {
        p.drop_first()
    } else {
        p
    }
}

/// Why a runtime configuration request failed.
#[derive(Debug, Clone, Copy, PartialEq, Eq, Structural)]
pub enum RuntimeConfigError {
    /// There is no earlier configuration to go back to
    NoPreviousConfig,
    /// No listener has the name
    ListenerNotFound,
}

/// The configuration in force at run time (as JSON text), the earlier ones
/// (the latest last, at most `HISTORY_LIMIT`), and the names of the
/// listeners told of each change.
pub struct RuntimeConfigManager {
    current_config: String,
    config_history: Vec<String>,
    listeners: Vec<String>,
}

impl RuntimeConfigManager {
    /// The configuration in force.
    pub closed spec fn current(self) -> Seq<char> {
        self.current_config@
    }

    /// The earlier configurations, the latest last.
    pub closed spec fn history(self) -> Seq<Seq<char>> {
        self.config_history@.map_values(|c: String| c@)
    }

    /// The names of the listeners, in the order they were registered.
    pub closed spec fn listener_names(self) -> Seq<Seq<char>> {
        self.listeners@.map_values(|c: String| c@)
    }

    /// The manager's invariant: no more than `HISTORY_LIMIT` earlier
    /// configurations.
    pub closed spec fn wf(self) -> bool {
        self.config_history.len() <= HISTORY_LIMIT
    }

    /// A manager whose configuration is `null`, with no history and no
    /// listeners.
    pub fn new() -> (m: Self)
        ensures
            m.wf(),
            m.current() == "null"@,
            m.history().len() == 0,
            m.listener_names().len() == 0,
    {
        RuntimeConfigManager { current_config: "null".to_string(), config_history: Vec::new(), listeners: Vec::new() }
    }

    /// Puts `new_config` in force, keeping the configuration it replaces as
    /// the latest earlier one (the oldest is dropped past `HISTORY_LIMIT`).
    /// The listeners are told of the change by the caller.
    pub fn update_config(&mut self, new_config: String)
        requires
            old(self).wf(),
        ensures
            final(self).wf(),
            final(self).current() == new_config@,
            final(self).history() == pushed_history(old(self).history(), old(self).current()),
            final(self).listener_names() == old(self).listener_names(),
    {
        let mut previous = new_config;
        std::mem::swap(&mut previous, &mut self.current_config);
        let ghost h0 = self.config_history@;
        self.config_history.push(previous);
        assert(self.config_history@.map_values(|c: String| c@) =~= h0.map_values(|c: String| c@).push(old(self).current()));
        if self.config_history.len() > HISTORY_LIMIT {
            let ghost h1 = self.config_history@;
            self.config_history.remove(0);
            assert(self.config_history@.map_values(|c: String| c@) =~= h1.map_values(|c: String| c@).drop_first());
        }
    }

    /// A copy of the configuration in force.
    pub fn get_current_config(&self) -> (c: String)
        ensures
            c@ == self.current(),
    {
        self.current_config.clone()
    }

    /// Copies of the earlier configurations, the latest last.
    pub fn get_config_history(&self) -> (h: Vec<String>)
        ensures
            h@.map_values(|c: String| c@) == self.history(),
    {
        let mut h: Vec<String> = Vec::new();
        let mut i: usize = 0;
        while i < self.config_history.len()
            invariant
                i <= self.config_history.len(),
                h@.len() == i,
                forall|j: int| 0 <= j < i ==> (#[trigger] h@[j])@ == self.config_history@[j]@,
            decreases self.config_history.len() - i,
        {
            h.push(self.config_history[i].clone());
            i = i + 1;
        }
        assert(h@.map_values(|c: String| c@) =~= self.history());
        h
    }

    /// Goes back to the latest earlier configuration: it is taken out of
    /// the history and put in force as `update_config` puts one in force, so
    /// that the configuration it replaces becomes the latest earlier one.
    /// Fails, changing nothing, when there is no earlier configuration.
    pub fn revert_config(&mut self) -> (r: Result<(), RuntimeConfigError>)
        requires
            old(self).wf(),
        ensures
            final(self).wf(),
            final(self).listener_names() == old(self).listener_names(),
            old(self).history().len() == 0 ==> r == Err::<(), RuntimeConfigError>(RuntimeConfigError::NoPreviousConfig)
                && final(self).current() == old(self).current() && final(self).history() == old(self).history(),
            old(self).history().len() > 0 ==> r is Ok && final(self).current() == old(self).history().last()
                && final(self).history() == pushed_history(old(self).history().drop_last(), old(self).current()),
    {
        match self.config_history.pop() {
            None => Err(RuntimeConfigError::NoPreviousConfig),
            Some(previous) => {
                assert(self.history() =~= old(self).history().drop_last());
                self.update_config(previous);
                Ok(())
            },
        }
    }

    /// Registers listener `name` (in place of one with the same name).
    pub fn register_listener(&mut self, name: &str)
        ensures
            final(self).wf() == old(self).wf(),
            final(self).current() == old(self).current(),
            final(self).history() == old(self).history(),
            old(self).listener_names().contains(name@) ==> final(self).listener_names() == old(self).listener_names(),
            !old(self).listener_names().contains(name@) ==> final(self).listener_names() == old(self).listener_names().push(name@),
    {
        proof {
            self.listener_names().index_of_first_ensures(name@);
        }
        match self.find_listener(name) {
            Some(_) => {},
            None => {
                let ghost l0 = self.listeners@;
                self.listeners.push(name.to_string());
                assert(self.listeners@.map_values(|c: String| c@) =~= l0.map_values(|c: String| c@).push(name@));
            },
        }
    }

    /// Removes listener `name`; fails, changing nothing, when there is none.
    pub fn unregister_listener(&mut self, name: &str) -> (r: Result<(), RuntimeConfigError>)
        ensures
            final(self).wf() == old(self).wf(),
            final(self).current() == old(self).current(),
            final(self).history() == old(self).history(),
            match old(self).listener_names().index_of_first(name@) {
                None => r == Err::<(), RuntimeConfigError>(RuntimeConfigError::ListenerNotFound)
                    && final(self).listener_names() == old(self).listener_names(),
                Some(i) => r is Ok && final(self).listener_names() == old(self).listener_names().remove(i),
            },
    {
        proof {
            self.listener_names().index_of_first_ensures(name@);
        }
        match self.find_listener(name) {
            None => Err(RuntimeConfigError::ListenerNotFound),
            Some(i) => {
                let ghost l0 = self.listeners@;
                self.listeners.remove(i);
                assert(self.listeners@.map_values(|c: String| c@) =~= l0.map_values(|c: String| c@).remove(i as int));
                Ok(())
            },
        }
    }

    /// The position of listener `name`.
    fn find_listener(&self, name: &str) -> (r: Option<usize>)
        ensures
            match self.listener_names().index_of_first(name@) {
                None => r is None,
                Some(i) => r == Some(i as usize),
            },
            r matches Some(i) ==> i < self.listeners.len(),
    {
        let ghost names = self.listener_names();
        proof {
            names.index_of_first_ensures(name@);
        }
        let wanted = name.to_string();
        let mut i: usize = 0;
        while i < self.listeners.len()
            invariant
                i <= self.listeners.len(),
                wanted@ == name@,
                names == self.listener_names(),
                names.len() == self.listeners.len(),
                forall|j: int| 0 <= j < i ==> names[j] != name@,
            decreases self.listeners.len() - i,
        {
            if self.listeners[i] == wanted {
                assert(names[i as int] == name@);
                proof {
                    names.index_of_first_ensures(name@);
                }
                return Some(i);
            }
            i = i + 1;
        }
        proof {
            names.index_of_first_ensures(name@);
        }
        None
    }
}

/// Going back right after putting a configuration in force restores the
/// configuration that was in force before: `update_config` leaves the
/// replaced configuration last in a history that is not empty, and
/// `revert_config` puts the last one back in force.
pub proof fn lemma_revert_undoes_update(h: Seq<Seq<char>>, current: Seq<char>)
    requires
        h.len() <= HISTORY_LIMIT,
    ensures
        pushed_history(h, current).len() > 0,
        pushed_history(h, current).last() == current,
        pushed_history(h, current).len() <= HISTORY_LIMIT,
{
}

} // verus!
