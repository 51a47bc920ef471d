//! GPU texture lifecycle discipline.
//!
//! Each frame the overlay reports a texture delta: ids whose images must be
//! uploaded to the GPU before the frame is drawn, and ids whose GPU textures
//! must be released after it. The shell keeps the GPU atlas in sync by
//! uploading and releasing in the same frame the delta reports them. The
//! tracker below holds the set of ids currently alive on the GPU, and the
//! trace checker decides whether a whole history of uploads, draws and
//! releases obeys the discipline: nothing is drawn before its upload or after
//! its release, nothing is uploaded twice or released twice, and at the end
//! nothing is left allocated.

use vstd::prelude::*;
use std::collections::HashSet;

verus! {

broadcast use vstd::std_specs::hash::group_hash_axioms;

/// One event in a texture's life, as the render loop sees it.
#[derive(Clone, Copy, PartialEq, Eq, Structural, Debug)]
pub enum TexEvent {
    /// The id appeared in a frame's delta as added and was uploaded.
    Added(u64),
    /// A frame was drawn that used the id.
    Rendered(u64),
    /// The id appeared in a frame's delta as freed and was released.
    Freed(u64),
}

/// The ids alive after a trace: added and not yet freed.
pub open spec fn live_after(tr: Seq<TexEvent>) -> Set<u64>
    decreases tr.len(),
{
    if tr.len() == 0 {
        Set::empty()
    } else {
        let prev = live_after(tr.drop_last());
        match tr.last() {
            TexEvent::Added(id) => prev.insert(id),
            TexEvent::Rendered(_) => prev,
            TexEvent::Freed(id) => prev.remove(id),
        }
    }
}

/// Whether one event is lawful when `live` is alive: an id is added only while
/// dead, and rendered or freed only while alive.
pub open spec fn step_ok(live: Set<u64>, ev: TexEvent) -> bool {
    match ev {
        TexEvent::Added(id) => !live.contains(id),
        TexEvent::Rendered(id) => live.contains(id),
        TexEvent::Freed(id) => live.contains(id),
    }
}

/// Whether every event of the trace is lawful in its place.
pub open spec fn trace_ok(tr: Seq<TexEvent>) -> bool
    decreases tr.len(),
{
    if tr.len() == 0 {
        true
    } else {
        trace_ok(tr.drop_last()) && step_ok(live_after(tr.drop_last()), tr.last())
    }
}

/// A lawful trace that also ends with nothing alive: every upload was matched
/// by a release.
pub open spec fn trace_complete(tr: Seq<TexEvent>) -> bool {
    trace_ok(tr) && live_after(tr) =~= Set::empty()
}

/// The set of texture ids currently alive on the GPU.
pub struct TextureTracker {
    live: HashSet<u64>,
}

impl TextureTracker {
    /// The alive ids, as a mathematical set.
    pub closed spec fn live_set(self) -> Set<u64> {
        self.live@
    }

    /// A fresh tracker with nothing alive.
    pub fn new() -> (t: Self)
        ensures
            t.live_set() =~= Set::empty(),
    {
        TextureTracker { live: HashSet::new() }
    }

    /// Whether `id` is alive.
    pub fn is_live(&self, id: u64) -> (r: bool)
        ensures
            r == self.live_set().contains(id),
    {
        self.live.contains(&id)
    }

    /// How many ids are alive.
    pub fn live_count(&self) -> (n: usize)
        ensures
            n == self.live_set().len(),
    {
        self.live.len()
    }

    /// Records the upload of `id`. Succeeds exactly when `id` was dead; a
    /// second upload of an alive id is refused and changes nothing.
    pub fn add(&mut self, id: u64) -> (ok: bool)
        ensures
            ok == !old(self).live_set().contains(id),
            ok ==> final(self).live_set() =~= old(self).live_set().insert(id),
            !ok ==> final(self).live_set() =~= old(self).live_set(),
    {
        if self.live.contains(&id) {
            false
        } else {
            self.live.insert(id);
            true
        }
    }

    /// Records the release of `id`. Succeeds exactly when `id` was alive; a
    /// release of a dead id is refused and changes nothing.
    pub fn free(&mut self, id: u64) -> (ok: bool)
        ensures
            ok == old(self).live_set().contains(id),
            final(self).live_set() =~= old(self).live_set().remove(id),
    {
        self.live.remove(&id)
    }
}

/// Decides whether a whole history of uploads, draws and releases obeys the
/// lifecycle discipline and leaves nothing allocated: returns true exactly on
/// complete, lawful traces.
pub fn check_texture_trace(events: &Vec<TexEvent>) -> (r: bool)
    ensures
        r == trace_complete(events@),
{
    let mut tracker = TextureTracker::new();
    let mut i: usize = 0;
    while i < events.len()
        invariant
            0 <= i <= events@.len(),
            trace_ok(events@.take(i as int)),
            tracker.live_set() =~= live_after(events@.take(i as int)),
        decreases events@.len() - i,
    {
        let ev = events[i];
        proof {
            assert(events@.take(i + 1).drop_last() =~= events@.take(i as int));
            assert(events@.take(i + 1).last() == events@[i as int]);
        }
        let ok = match ev {
            TexEvent::Added(id) => tracker.add(id),
            TexEvent::Rendered(id) => tracker.is_live(id),
            TexEvent::Freed(id) => tracker.free(id),
        };
        if !ok {
            proof {
                if trace_ok(events@) {
                    lemma_trace_ok_prefix(events@, i + 1);
                    assert(false);
                }
            }
            return false;
        }
        i = i + 1;
    }
    proof {
        assert(events@.take(events@.len() as int) =~= events@);
        lemma_live_after_finite(events@);
    }
    tracker.live_count() == 0
}

/// Every prefix of a lawful trace is lawful.
proof fn lemma_trace_ok_prefix(tr: Seq<TexEvent>, n: int)
    requires
        trace_ok(tr),
        0 <= n <= tr.len(),
    ensures
        trace_ok(tr.take(n)),
    decreases tr.len() - n,
{
    if n == tr.len() {
        assert(tr.take(n) =~= tr);
    } else {
        lemma_trace_ok_prefix(tr, n + 1);
        assert(tr.take(n + 1).drop_last() =~= tr.take(n));
    }
}

/// The alive set of any trace is finite.
proof fn lemma_live_after_finite(tr: Seq<TexEvent>)
    ensures
        live_after(tr).finite(),
    decreases tr.len(),
{
    if tr.len() > 0 {
        lemma_live_after_finite(tr.drop_last());
    }
}

/// An id alive after `tr.take(k)` and not freed anywhere in `tr[k..m]` is
/// still alive after `tr.take(m)`.
proof fn lemma_live_persists(tr: Seq<TexEvent>, id: u64, k: int, m: int)
    requires
        0 <= k <= m <= tr.len(),
        live_after(tr.take(k)).contains(id),
        forall|j: int| k <= j < m ==> tr[j] != TexEvent::Freed(id),
    ensures
        live_after(tr.take(m)).contains(id),
    decreases m - k,
{
    if m > k {
        lemma_live_persists(tr, id, k, m - 1);
        assert(tr.take(m).drop_last() =~= tr.take(m - 1));
        assert(tr.take(m).last() == tr[m - 1]);
    }
}

/// In a complete trace every texture that is added is freed later: if
/// `tr[i]` adds `id`, some strictly later event frees `id`. (That nothing is
/// rendered before its add or after its free is what `trace_ok` requires of
/// every rendered event.)
pub proof fn lemma_added_eventually_freed(tr: Seq<TexEvent>, i: int, id: u64)
    requires
        trace_complete(tr),
        0 <= i < tr.len(),
        tr[i] == TexEvent::Added(id),
    ensures
        exists|j: int| i < j < tr.len() && tr[j] == TexEvent::Freed(id),
{
    if !(exists|j: int| i < j < tr.len() && tr[j] == TexEvent::Freed(id)) {
        assert(tr.take(i + 1).drop_last() =~= tr.take(i));
        assert(tr.take(i + 1).last() == tr[i]);
        assert(live_after(tr.take(i + 1)).contains(id));
        assert(forall|j: int| i + 1 <= j < tr.len() ==> tr[j] != TexEvent::Freed(id));
        lemma_live_persists(tr, id, i + 1, tr.len() as int);
        assert(tr.take(tr.len() as int) =~= tr);
        assert(false);
    }
}

} // verus!
