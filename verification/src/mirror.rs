//! The storage mirror's drain rule. The watcher blocks until at least
//! one modification event is pending, takes the whole pending burst as
//! one drain window, and runs exactly one sync of the backing path per
//! window — however many events the window held. Watching the path and
//! running the sync are done by the process around the library.

use vstd::prelude::*;

verus! {

/// How many syncs a sequence of drain windows causes: one per window.
pub open spec fn syncs_of_windows(windows: Seq<usize>) -> nat {
    windows.len()
}

/// How many modification events the windows held in all.
pub open spec fn events_of_windows(windows: Seq<usize>) -> nat
    decreases windows.len(),
{
    if windows.len() == 0 {
        0nat
    } else {
        (events_of_windows(windows.drop_last()) + windows.last()) as nat
    }
}

/// Runs the mirror's drain rule over a scripted sequence of drain
/// windows, each entry the number of events a blocking wait returned,
/// and reports how many sync invocations were made: exactly one per
/// window. The blocking wait returns only when events are pending, so
/// every window holds at least one event.
pub fn run_mirror_script(windows: &Vec<usize>) -> (syncs: usize)
    requires
        forall|k: int| 0 <= k < windows@.len() ==> #[trigger] windows@[k] >= 1,
    ensures
        syncs == syncs_of_windows(windows@),
{
    let mut syncs: usize = 0;
    let mut k: usize = 0;
    while k < windows.len()
        invariant
            0 <= k <= windows@.len(),
            syncs == k,
        decreases windows@.len() - k,
    {
        syncs = syncs + 1;
        k = k + 1;
    }
    syncs
}

/// A burst is coalesced: however many events one drain window holds,
/// it causes exactly one sync invocation, not one per event.
pub proof fn lemma_burst_coalesced(n: usize)
    requires
        n >= 1,
    ensures
        syncs_of_windows(seq![n]) == 1,
{
}

/// Draining never multiplies work: with at least one event per
/// window, there are never more syncs than events.
pub proof fn lemma_syncs_at_most_events(windows: Seq<usize>)
    requires
        forall|k: int| 0 <= k < windows.len() ==> #[trigger] windows[k] >= 1,
    ensures
        syncs_of_windows(windows) <= events_of_windows(windows),
    decreases windows.len(),
{
    if windows.len() > 0 {
        assert(forall|k: int|
            0 <= k < windows.drop_last().len() ==> #[trigger] windows.drop_last()[k] >= 1);
        lemma_syncs_at_most_events(windows.drop_last());
    }
}

} // verus!
