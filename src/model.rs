use vstd::prelude::*;

verus! {

/// The outcome of evaluating one monitor.
#[derive(Clone, Copy, Debug, PartialEq, Eq, Structural)]
pub struct MonitorResult {
    /// The evaluation output.
    pub value: i32,
    /// Unix epoch seconds at which the pass that produced this result ran.
    pub processed_at: u64,
}

/// A named unit of work. `script` and `code` are carried, never interpreted.
#[derive(Clone, Debug)]
pub struct Monitor {
    pub name: String,
    pub script: Option<String>,
    pub monitor_id: Option<u32>,
    pub result: Option<MonitorResult>,
    pub code: String,
}

/// The ordered collection of monitors.
#[derive(Clone, Debug)]
pub struct Monitors {
    pub monitors: Vec<Monitor>,
}

/// The failures that end a run.
#[derive(Clone, Debug, PartialEq, Eq)]
pub enum MonitorError {
    /// The definitions file is missing, unreadable or malformed.
    Input(String),
    /// The collection could not be rendered to the snapshot format.
    Serialization(String),
    /// The snapshot file could not be created or written.
    Io(String),
}

/// `b` is `a` with nothing but its result replaced.
pub open spec fn same_definition(a: Monitor, b: Monitor) -> bool {
    &&& a.name == b.name
    &&& a.script == b.script
    &&& a.monitor_id == b.monitor_id
    &&& a.code == b.code
}

/// Every monitor of `ms` carries a result stamped `now`.
pub open spec fn all_stamped(ms: Seq<Monitor>, now: u64) -> bool {
    forall|i: int| 0 <= i < ms.len() ==> (#[trigger] ms[i]).result is Some
        && ms[i].result->Some_0.processed_at == now
}

/// `after` is `before` after one evaluation pass at `now`: same monitors in
/// the same order, each with a fresh result stamped `now`.
pub open spec fn evaluated_at(before: Seq<Monitor>, after: Seq<Monitor>, now: u64) -> bool {
    &&& after.len() == before.len()
    &&& forall|i: int| 0 <= i < before.len() ==> same_definition(#[trigger] before[i], after[i])
    &&& all_stamped(after, now)
}

impl Monitor {
    /// A monitor that has not been evaluated yet.
    pub fn new(name: String, script: Option<String>, monitor_id: Option<u32>, code: String) -> (r: Monitor)
        ensures
            r.name == name,
            r.script == script,
            r.monitor_id == monitor_id,
            r.code == code,
            r.result is None,
    {
        Monitor { name, script, monitor_id, result: None, code }
    }
}

impl Monitors {
    pub fn new(monitors: Vec<Monitor>) -> (r: Monitors)
        ensures
            r.monitors@ == monitors@,
    {
        Monitors { monitors }
    }

    pub fn len(&self) -> (r: usize)
        ensures
            r == self.monitors@.len(),
    {
        self.monitors.len()
    }
}

} // verus!
