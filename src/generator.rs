use crate::model::{all_stamped, evaluated_at, same_definition, Monitor, MonitorResult, Monitors};
use vstd::prelude::*;

verus! {

/// Relies on rand::random: it returns a value of `T` drawn from the thread's
/// generator. Nothing is known of which value.
pub assume_specification<T>[ rand::random::<T> ]() -> (r: T)
    where
        rand::distributions::Standard: rand::distributions::Distribution<T>,
;

/// One evaluation pass: every monitor gets a fresh result whose value is
/// drawn independently and whose `processed_at` is the pass's single `now`.
/// Names, scripts, ids, codes and order are left as they were.
pub fn update_monitor_results(monitors: &mut Monitors, now: u64)
    ensures
        evaluated_at(old(monitors).monitors@, final(monitors).monitors@, now),
{
    let n = monitors.monitors.len();
    let mut i: usize = 0;
    while i < n
        invariant
            0 <= i <= n,
            n == old(monitors).monitors@.len(),
            monitors.monitors@.len() == n,
            forall|j: int| 0 <= j < n ==> same_definition(#[trigger] old(monitors).monitors@[j], monitors.monitors@[j]),
            forall|j: int| 0 <= j < i ==> (#[trigger] monitors.monitors@[j]).result is Some
                && monitors.monitors@[j].result->Some_0.processed_at == now,
        decreases n - i,
    {
        let value: i32 = rand::random::<i32>();
        monitors.monitors[i].result = Some(MonitorResult { value, processed_at: now });
        i = i + 1;
    }
    assert(all_stamped(monitors.monitors@, now));
}

} // verus!
