//! Startup timing: which modules were initialised, and how long each took.
use std::time::{Duration, Instant};
use vstd::prelude::*;

verus! {

/// The current time (std's `Instant::now`); nothing is stated of it.
#[verifier::external_body]
fn instant_now() -> Instant {
    Instant::now()
}

/// The time passed since `t` (std's `Instant::elapsed`); nothing is stated
/// of it.
#[verifier::external_body]
fn elapsed_since(t: &Instant) -> Duration {
    t.elapsed()
}

/// Startup bookkeeping.
pub struct StartupOptimizer {
    /// When startup began
    pub startup_time: Instant,
    /// Modules initialised, in order
    pub initialized_modules: Vec<String>,
    /// How long each module took to initialise, in order
    pub init_times: Vec<(String, Duration)>,
}

/// Startup statistics.
pub struct StartupStats {
    /// Time since startup began
    pub total_time: Duration,
    /// How long each module took to initialise, in order
    pub module_times: Vec<(String, Duration)>,
    /// Number of modules initialised
    pub module_count: usize,
}

/// The module names of a list of timings.
pub open spec fn timed_names(t: Seq<(String, Duration)>) -> Seq<Seq<char>> {
    t.map_values(|e: (String, Duration)| e.0@)
}

/// The durations of a list of timings.
pub open spec fn timed_durations(t: Seq<(String, Duration)>) -> Seq<Duration> {
    t.map_values(|e: (String, Duration)| e.1)
}

impl StartupOptimizer {
    /// Starts the bookkeeping now, with no module initialised: the clock
    /// is read and the bookkeeping starts as `with_start` starts it from
    /// that reading.
    pub fn new() -> (o: Self)
        ensures
            o.initialized_modules@.len() == 0,
            o.init_times@.len() == 0,
    {
        Self::with_start(instant_now())
    }

    /// Starts the bookkeeping at `startup_time`, with no module initialised.
    pub fn with_start(startup_time: Instant) -> (o: Self)
        ensures
            o.startup_time == startup_time,
            o.initialized_modules@.len() == 0,
            o.init_times@.len() == 0,
    {
        StartupOptimizer { startup_time, initialized_modules: Vec::new(), init_times: Vec::new() }
    }

    /// Records that `module_name` was initialised, taking `duration`.
    pub fn record_init(&mut self, module_name: &str, duration: Duration)
        ensures
            final(self).startup_time == old(self).startup_time,
            final(self).initialized_modules@.map_values(|s: String| s@) == old(
                self,
            ).initialized_modules@.map_values(|s: String| s@).push(module_name@),
            timed_names(final(self).init_times@) == timed_names(old(self).init_times@).push(
                module_name@,
            ),
            timed_durations(final(self).init_times@) == timed_durations(old(self).init_times@).push(
                duration,
            ),
    {
        let ghost m0 = self.initialized_modules@;
        let ghost t0 = self.init_times@;
        self.initialized_modules.push(module_name.to_string());
        self.init_times.push((module_name.to_string(), duration));
        assert(self.initialized_modules@.map_values(|s: String| s@) =~= m0.map_values(
            |s: String| s@,
        ).push(module_name@));
        assert(timed_names(self.init_times@) =~= timed_names(t0).push(module_name@));
        assert(timed_durations(self.init_times@) =~= timed_durations(t0).push(duration));
    }

    /// The statistics so far: the time since startup began, each module's
    /// time, and how many modules were initialised. The time since startup
    /// is read from the clock and handed to `stats_with`.
    pub fn get_stats(&self) -> (s: StartupStats)
        ensures
            timed_names(s.module_times@) == timed_names(self.init_times@),
            timed_durations(s.module_times@) == timed_durations(self.init_times@),
            s.module_count == self.initialized_modules.len(),
    {
        let total_time = elapsed_since(&self.startup_time);
        self.stats_with(total_time)
    }

    /// The statistics with `total_time` as the time since startup began:
    /// each module's time, and how many modules were initialised.
    pub fn stats_with(&self, total_time: Duration) -> (s: StartupStats)
        ensures
            s.total_time == total_time,
            timed_names(s.module_times@) == timed_names(self.init_times@),
            timed_durations(s.module_times@) == timed_durations(self.init_times@),
            s.module_count == self.initialized_modules.len(),
    {
        let mut module_times: Vec<(String, Duration)> = Vec::new();
        let mut i: usize = 0;
        while i < self.init_times.len()
            invariant
                i <= self.init_times.len(),
                module_times.len() == i,
                timed_names(module_times@) == timed_names(self.init_times@.take(i as int)),
                timed_durations(module_times@) == timed_durations(self.init_times@.take(i as int)),
            decreases self.init_times.len() - i,
        {
            let ghost before = module_times@;
            let name = self.init_times[i].0.clone();
            let d = self.init_times[i].1;
            let ghost entry = self.init_times@[i as int];
            assert(name@ == entry.0@);
            module_times.push((name, d));
            assert(timed_names(module_times@) =~= timed_names(before).push(entry.0@));
            assert(timed_durations(module_times@) =~= timed_durations(before).push(entry.1));
            assert(self.init_times@.take(i + 1) =~= self.init_times@.take(i as int).push(
                self.init_times@[i as int],
            ));
            assert(timed_names(module_times@) =~= timed_names(self.init_times@.take(i + 1)));
            assert(timed_durations(module_times@) =~= timed_durations(self.init_times@.take(i + 1)));
            i = i + 1;
        }
        assert(self.init_times@.take(i as int) =~= self.init_times@);
        StartupStats { total_time, module_times, module_count: self.initialized_modules.len() }
    }
}

} // verus!
