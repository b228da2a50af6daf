use crate::generator::update_monitor_results;
use crate::model::{evaluated_at, Monitors};
use crate::snapshot::{
    lemma_same_second_names_differ, snapshot_file_name, snapshot_name, utc_stamp, LATEST_STAMP_SECS,
};
use vstd::prelude::*;

verus! {

/// Seconds waited after each evaluation pass, unless configured otherwise.
pub const DEFAULT_INTERVAL_SECS: u64 = 30;

/// Seconds after which no further pass starts, unless configured otherwise.
pub const DEFAULT_DURATION_SECS: u64 = 300;

/// The two adjustable constants of a run.
#[derive(Clone, Copy, Debug, PartialEq, Eq, Structural)]
pub struct LoopConfig {
    pub interval_secs: u64,
    pub duration_secs: u64,
}

impl LoopConfig {
    pub fn new(interval_secs: u64, duration_secs: u64) -> (r: LoopConfig)
        ensures
            r.interval_secs == interval_secs,
            r.duration_secs == duration_secs,
    {
        LoopConfig { interval_secs, duration_secs }
    }
}

impl Default for LoopConfig {
    fn default() -> (r: LoopConfig)
        ensures
            r.interval_secs == DEFAULT_INTERVAL_SECS,
            r.duration_secs == DEFAULT_DURATION_SECS,
    {
        LoopConfig { interval_secs: DEFAULT_INTERVAL_SECS, duration_secs: DEFAULT_DURATION_SECS }
    }
}

/// Where the loop stands.
#[derive(Clone, Copy, Debug, PartialEq, Eq, Structural)]
pub enum Phase {
    /// The next step runs an evaluation pass.
    Evaluating,
    /// The next step asks for the interval's wait.
    Waiting,
    /// The next step checks the run bound, then asks for a snapshot.
    CheckingBound,
    /// The run is over.
    Stopped,
}

/// What the caller does after a step, before the next one.
#[derive(Clone, Debug, PartialEq, Eq)]
pub enum Action {
    /// A pass ran; the collection holds its results. Nothing to do.
    Evaluated,
    /// Wait this many seconds.
    Sleep(u64),
    /// Write the collection, as it is now, to the file of this name.
    Persist(String),
    /// The run is over: no further pass or snapshot.
    Stop,
}

/// The run: the collection it owns, its configuration and start, where it
/// stands, and the key `(second, repeat)` of the last snapshot named.
#[derive(Debug)]
pub struct LoopController {
    pub config: LoopConfig,
    pub start: u64,
    pub phase: Phase,
    pub monitors: Monitors,
    pub last_snapshot: Option<(u64, u64)>,
}

/// Seconds from `start` to `now`; a clock that went back counts as none.
pub open spec fn elapsed(start: u64, now: u64) -> nat {
    if now >= start {
        (now - start) as nat
    } else {
        0
    }
}

/// The key of the snapshot named at `now` after one keyed `last`. A clock
/// that stands still or goes back keeps the last second and counts up, so
/// keys rise strictly in `(second, repeat)` order from one snapshot to the
/// next and no name is given twice for one second.
pub open spec fn next_snapshot_key(last: Option<(u64, u64)>, now: u64) -> (nat, nat) {
    match last {
        Some((second, repeat)) => if now <= second {
            (second as nat, (repeat + 1) as nat)
        } else {
            (now as nat, 0)
        },
        None => (now as nat, 0),
    }
}

/// `b` comes strictly after `a` in `(second, repeat)` order.
pub open spec fn key_after(a: (u64, u64), b: (u64, u64)) -> bool {
    a.0 < b.0 || (a.0 == b.0 && a.1 < b.1)
}

/// Each snapshot's key comes strictly after the one before it, so a run
/// never names two snapshots alike within one second: the later one of a
/// second carries a higher repeat count, hence another file name.
pub proof fn lemma_snapshot_keys_rise(last: (u64, u64), now: u64)
    requires
        next_snapshot_key(Some(last), now).1 <= u64::MAX,
    ensures
        ({
            let key = next_snapshot_key(Some(last), now);
            &&& key_after(last, (key.0 as u64, key.1 as u64))
            &&& key.0 == last.0 ==> snapshot_name(utc_stamp(last.0), last.1 as nat)
                != snapshot_name(utc_stamp(key.0 as u64), key.1)
        }),
{
    let key = next_snapshot_key(Some(last), now);
    if key.0 == last.0 {
        lemma_same_second_names_differ(utc_stamp(last.0), last.1 as nat, key.1);
    }
}

/// Where the clock advances exactly by the interval during each wait, the
/// bound check after the `k`-th pass reads `k * interval` elapsed seconds.
/// For a duration that is a positive multiple of the interval, that check
/// stops the run exactly when `k` reaches `duration / interval`: the run
/// makes `duration / interval` passes, and a snapshot follows each of the
/// checks before, `duration / interval - 1` in all.
pub proof fn lemma_steady_run_length(interval: u64, duration: u64, k: nat)
    requires
        interval > 0,
        duration > 0,
        duration % interval == 0,
    ensures
        (k * interval >= duration) <==> (k >= duration / interval),
        duration / interval >= 1,
{
    let q = (duration / interval) as nat;
    let i = interval as nat;
    assert(q * i == duration) by (nonlinear_arith)
        requires
            duration % interval == 0,
            q == duration / interval,
            i == interval,
            interval > 0,
    ;
    assert((k * i >= q * i) <==> (k >= q)) by (nonlinear_arith)
        requires
            i > 0,
    ;
    assert(q >= 1) by (nonlinear_arith)
        requires
            q * i == duration,
            duration > 0,
    ;
}

impl LoopController {
    /// The last snapshot's second can still be rendered as a stamp.
    pub open spec fn wf(&self) -> bool {
        self.last_snapshot matches Some((second, _)) ==> second <= LATEST_STAMP_SECS
    }

    /// Starts a run at `start` over `monitors`; the first step evaluates.
    pub fn new(monitors: Monitors, config: LoopConfig, start: u64) -> (r: LoopController)
        ensures
            r.config == config,
            r.start == start,
            r.phase == Phase::Evaluating,
            r.monitors == monitors,
            r.last_snapshot is None,
            r.wf(),
    {
        LoopController { config, start, phase: Phase::Evaluating, monitors, last_snapshot: None }
    }

    /// Ends the run at once, whatever it was about to do: no further pass or
    /// snapshot follows.
    pub fn cancel(&mut self)
        ensures
            final(self).phase == Phase::Stopped,
            final(self).config == old(self).config,
            final(self).start == old(self).start,
            final(self).monitors == old(self).monitors,
            final(self).last_snapshot == old(self).last_snapshot,
    {
        self.phase = Phase::Stopped;
    }

    /// Advances the run by one step, `now` being the clock's reading in Unix
    /// epoch seconds, and says what the caller must do before the next step.
    ///
    /// Evaluating: a pass stamped `now` runs, then Waiting.
    /// Waiting: asks for the interval's sleep, then CheckingBound.
    /// CheckingBound: once the elapsed time reaches the duration the run
    /// stops; otherwise it asks for a snapshot under a fresh name, then
    /// Evaluating. The last pass of a run is thus never persisted.
    /// Stopped: stays stopped.
    pub fn step(&mut self, now: u64) -> (a: Action)
        requires
            old(self).wf(),
            now <= LATEST_STAMP_SECS,
        ensures
            final(self).wf(),
            final(self).config == old(self).config,
            final(self).start == old(self).start,
            old(self).phase == Phase::Evaluating ==> {
                &&& a == Action::Evaluated
                &&& final(self).phase == Phase::Waiting
                &&& evaluated_at(old(self).monitors.monitors@, final(self).monitors.monitors@, now)
                &&& final(self).last_snapshot == old(self).last_snapshot
            },
            old(self).phase == Phase::Waiting ==> {
                &&& a == Action::Sleep(old(self).config.interval_secs)
                &&& final(self).phase == Phase::CheckingBound
                &&& final(self).monitors == old(self).monitors
                &&& final(self).last_snapshot == old(self).last_snapshot
            },
            old(self).phase == Phase::CheckingBound ==> {
                let key = next_snapshot_key(old(self).last_snapshot, now);
                &&& final(self).monitors == old(self).monitors
                &&& if elapsed(old(self).start, now) >= old(self).config.duration_secs
                    || key.1 > u64::MAX {
                    &&& a == Action::Stop
                    &&& final(self).phase == Phase::Stopped
                    &&& final(self).last_snapshot == old(self).last_snapshot
                } else {
                    &&& a matches Action::Persist(name)
                    &&& name@ == snapshot_name(utc_stamp(key.0 as u64), key.1)
                    &&& final(self).phase == Phase::Evaluating
                    &&& final(self).last_snapshot == Some((key.0 as u64, key.1 as u64))
                }
            },
            old(self).phase == Phase::Stopped ==> {
                &&& a == Action::Stop
                &&& final(self).phase == Phase::Stopped
                &&& final(self).monitors == old(self).monitors
                &&& final(self).last_snapshot == old(self).last_snapshot
            },
    {
        match self.phase {
            Phase::Evaluating => {
                update_monitor_results(&mut self.monitors, now);
                self.phase = Phase::Waiting;
                Action::Evaluated
            },
            Phase::Waiting => {
                self.phase = Phase::CheckingBound;
                Action::Sleep(self.config.interval_secs)
            },
            Phase::CheckingBound => {
                let since = if now >= self.start {
                    now - self.start
                } else {
                    0
                };
                if since >= self.config.duration_secs {
                    self.phase = Phase::Stopped;
                    return Action::Stop;
                }
                let (second, repeat) = match self.last_snapshot {
                    Some((second, repeat)) => if now <= second {
                        if repeat == u64::MAX {
                            self.phase = Phase::Stopped;
                            return Action::Stop;
                        }
                        (second, repeat + 1)
                    } else {
                        (now, 0)
                    },
                    None => (now, 0),
                };
                let name = snapshot_file_name(second, repeat);
                self.last_snapshot = Some((second, repeat));
                self.phase = Phase::Evaluating;
                Action::Persist(name)
            },
            Phase::Stopped => Action::Stop,
        }
    }
}

} // verus!
