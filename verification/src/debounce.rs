//! The debouncer: suppresses a repeat dispatch when the same path sequence
//! changes again within the debounce window, while reacting instantly to a
//! change on a different path sequence.

use vstd::prelude::*;

use crate::event::paths_view;

verus! {

/// The dispatch memory the driver loop carries across iterations: when the
/// last qualifying event was seen and which paths it touched. Both fields are
/// refreshed together, on every qualifying event, whether or not it
/// dispatched.
pub struct WatchState {
    /// Milliseconds (on the driver's clock) of the most recent qualifying
    /// event; at loop start, the loop-start time.
    pub last_millis: u64,
    /// The path sequence of the most recent qualifying event; empty at loop
    /// start, so the first qualifying event always dispatches.
    pub last_paths: Vec<String>,
}

/// The debounce rule: dispatch is allowed when the window has elapsed since
/// the last qualifying event, or when the candidate path sequence differs
/// from the last one (exact, order-sensitive comparison). It is suppressed
/// only when neither holds.
pub open spec fn dispatch_allowed(
    now: u64,
    candidate: Seq<Seq<char>>,
    last_millis: u64,
    last_paths: Seq<Seq<char>>,
    window: u64,
) -> bool {
    now - last_millis > window || candidate != last_paths
}

impl WatchState {
    /// The state at loop start: nothing dispatched yet, so the remembered
    /// path sequence is empty and the clock reads the loop-start time.
    pub fn initial(start_millis: u64) -> (r: WatchState)
        ensures
            r.last_millis == start_millis,
            paths_view(r.last_paths@) == Seq::<Seq<char>>::empty(),
    {
        let r = WatchState { last_millis: start_millis, last_paths: Vec::new() };
        proof {
            assert(paths_view(r.last_paths@) =~= Seq::<Seq<char>>::empty());
        }
        r
    }

    /// Decide whether a qualifying event seen at `now` on `candidate` may
    /// dispatch. Pure: the state is only read. The clock is monotone, so
    /// `now` is never before the remembered time (the driver's clock, not
    /// wall time, supplies both).
    pub fn should_dispatch(&self, now: u64, candidate: &Vec<String>, window: u64) -> (r: bool)
        requires
            now >= self.last_millis,
        ensures
            r == dispatch_allowed(
                now,
                paths_view(candidate@),
                self.last_millis,
                paths_view(self.last_paths@),
                window,
            ),
    {
        if now - self.last_millis > window {
            return true;
        }
        !paths_equal(candidate, &self.last_paths)
    }

    /// Refresh the memory to `(now, candidate)`. Called on every qualifying
    /// event, dispatched or suppressed, so the debounce clock restarts on
    /// every matching event.
    pub fn record(&mut self, now: u64, candidate: &Vec<String>)
        ensures
            final(self).last_millis == now,
            final(self).last_paths@.len() == candidate@.len(),
            paths_view(final(self).last_paths@) == paths_view(candidate@),
    {
        self.last_millis = now;
        self.last_paths = clone_paths(candidate);
    }
}

/// Element-wise copy of a path list; the view is preserved exactly.
fn clone_paths(paths: &Vec<String>) -> (r: Vec<String>)
    ensures
        r@.len() == paths@.len(),
        paths_view(r@) == paths_view(paths@),
{
    let mut r: Vec<String> = Vec::new();
    let mut i: usize = 0;
    while i < paths.len()
        invariant
            0 <= i <= paths@.len(),
            r@.len() == i,
            forall|j: int| 0 <= j < i ==> r@[j]@ == #[trigger] paths@[j]@,
        decreases paths@.len() - i,
    {
        r.push(paths[i].clone());
        i += 1;
    }
    proof {
        assert(paths_view(r@) =~= paths_view(paths@));
    }
    r
}

/// Exact, order-sensitive equality of two path lists, by characters.
fn paths_equal(a: &Vec<String>, b: &Vec<String>) -> (r: bool)
    ensures
        r == (paths_view(a@) == paths_view(b@)),
{
    if a.len() != b.len() {
        proof {
            assert(paths_view(a@).len() != paths_view(b@).len());
        }
        return false;
    }
    let mut i: usize = 0;
    while i < a.len()
        invariant
            a@.len() == b@.len(),
            0 <= i <= a@.len(),
            forall|j: int| 0 <= j < i ==> a@[j]@ == #[trigger] b@[j]@,
        decreases a@.len() - i,
    {
        if !a[i].eq(&b[i]) {
            assert(paths_view(a@)[i as int] != paths_view(b@)[i as int]);
            return false;
        }
        i += 1;
    }
    proof {
        assert(paths_view(a@) =~= paths_view(b@));
    }
    true
}

/// Law: once the debounce window has elapsed since the last qualifying
/// event, the next qualifying event always dispatches, whatever paths it and
/// its predecessor touched.
pub proof fn lemma_elapsed_window_dispatches(
    now: u64,
    candidate: Seq<Seq<char>>,
    last_millis: u64,
    last_paths: Seq<Seq<char>>,
    window: u64,
)
    requires
        now >= last_millis,
        now - last_millis > window,
    ensures
        dispatch_allowed(now, candidate, last_millis, last_paths, window),
{
}

/// Law: of two consecutive qualifying events with identical path sequences,
/// the second is suppressed when it arrives within the window of the first —
/// after the first is processed the state remembers its time and paths, and
/// neither arm of the debounce rule then holds.
pub proof fn lemma_same_paths_within_window_suppressed(
    now: u64,
    paths: Seq<Seq<char>>,
    last_millis: u64,
    window: u64,
)
    requires
        last_millis <= now,
        now - last_millis <= window,
    ensures
        !dispatch_allowed(now, paths, last_millis, paths, window),
{
}

/// Law: the very first qualifying event always dispatches — the memory
/// starts with an empty path sequence, which no event with paths can equal.
pub proof fn lemma_first_qualifying_event_dispatches(
    now: u64,
    candidate: Seq<Seq<char>>,
    start_millis: u64,
    window: u64,
)
    requires
        candidate.len() > 0,
    ensures
        dispatch_allowed(now, candidate, start_millis, Seq::<Seq<char>>::empty(), window),
{
    assert(candidate != Seq::<Seq<char>>::empty());
}

/// Law: of two consecutive qualifying events with different path sequences,
/// the second dispatches regardless of elapsed time, even at zero elapsed
/// milliseconds.
pub proof fn lemma_distinct_paths_dispatch(
    now: u64,
    candidate: Seq<Seq<char>>,
    last_millis: u64,
    last_paths: Seq<Seq<char>>,
    window: u64,
)
    requires
        candidate != last_paths,
    ensures
        dispatch_allowed(now, candidate, last_millis, last_paths, window),
{
}

} // verus!
