//! The signal race: the first source to fire or fail resolves the shutdown.
//!
//! Each source is a single-fire channel for one `SignalKind`. The race
//! watches a fixed list of sources and resolves with whichever becomes ready
//! first — a clean fire and a registration or delivery failure short-circuit
//! identically. Losing sources are abandoned: their later completions are
//! never observed. The race is modeled over a snapshot of source states; the
//! asynchronous wait itself happens outside the library, which only ever sees
//! the snapshot in which some source has become ready.

use vstd::prelude::*;
use crate::signal::SignalKind;

verus! {

/// The error from a subscription that the OS refused, or from an active
/// subscription whose channel errored instead of firing cleanly. Carries the
/// OS error code so the Unix policy can hand the original error back.
#[derive(Clone, Copy, Debug, PartialEq, Eq, Structural)]
pub struct SourceError {
    pub code: i32,
}

/// An ephemeral record that a monitored condition occurred; consumed
/// immediately by the race, never stored.
#[derive(Clone, Copy, Debug, PartialEq, Eq, Structural)]
pub struct SignalEvent {
    pub kind: SignalKind,
}

/// The single resolution of the race, produced at most once per process
/// lifetime.
#[derive(Clone, Copy, Debug, PartialEq, Eq, Structural)]
pub enum ShutdownOutcome {
    /// Some monitored source fired cleanly.
    Fired(SignalKind),
    /// Some source failed to register or its channel errored.
    RegistrationFailed(SourceError),
}

/// What one source has produced so far.
#[derive(Clone, Copy, Debug, PartialEq, Eq, Structural)]
pub enum SourceStatus {
    /// Still suspended; nothing delivered yet.
    Pending,
    /// Fired: the source's condition occurred exactly once.
    Fired,
    /// The subscription failed, with the OS error.
    Failed(SourceError),
}

/// One signal source: the condition it monitors and what it has produced.
#[derive(Clone, Copy, Debug, PartialEq, Eq, Structural)]
pub struct SourceState {
    pub kind: SignalKind,
    pub status: SourceStatus,
}

impl SourceState {
    /// A source that has just been subscribed and has produced nothing.
    pub fn subscribe(kind: SignalKind) -> (s: SourceState)
        ensures
            s.kind == kind,
            s.status == SourceStatus::Pending,
    {
        SourceState { kind, status: SourceStatus::Pending }
    }

    /// Record that the source's own condition occurred. A source fires at
    /// most once: it must still be pending, and the event must match the
    /// monitored kind.
    pub fn fire(&mut self, ev: SignalEvent)
        requires
            old(self).status == SourceStatus::Pending,
            ev.kind == old(self).kind,
        ensures
            final(self).kind == old(self).kind,
            final(self).status == SourceStatus::Fired,
    {
        self.status = SourceStatus::Fired;
    }

    /// Record that the subscription failed with error `e`. Also single-shot:
    /// a source that already completed cannot fail afterwards.
    pub fn fail(&mut self, e: SourceError)
        requires
            old(self).status == SourceStatus::Pending,
        ensures
            final(self).kind == old(self).kind,
            final(self).status == SourceStatus::Failed(e),
    {
        self.status = SourceStatus::Failed(e);
    }
}

/// Whether source `s` has completed, by firing or by failing.
pub open spec fn source_ready(s: SourceState) -> bool {
    !(s.status is Pending)
}

/// The outcome a completed source contributes to the race.
pub open spec fn source_outcome(s: SourceState) -> ShutdownOutcome
    recommends
        source_ready(s),
{
    match s.status {
        SourceStatus::Failed(e) => ShutdownOutcome::RegistrationFailed(e),
        _ => ShutdownOutcome::Fired(s.kind),
    }
}

/// The resolution of a race over the snapshot `ss`: the outcome of the
/// first ready source, or `None` while every source is still pending.
pub open spec fn race_result(ss: Seq<SourceState>) -> Option<ShutdownOutcome>
    decreases ss.len(),
{
    if ss.len() == 0 {
        None
    } else if source_ready(ss[0]) {
        Some(source_outcome(ss[0]))
    } else {
        race_result(ss.skip(1))
    }
}

/// The race stays unresolved exactly while every source is pending.
pub proof fn lemma_race_pending_iff_all_pending(ss: Seq<SourceState>)
    ensures
        race_result(ss) is None <==> (forall|i: int|
            0 <= i < ss.len() ==> !source_ready(#[trigger] ss[i])),
    decreases ss.len(),
{
    if ss.len() > 0 && !source_ready(ss[0]) {
        lemma_race_pending_iff_all_pending(ss.skip(1));
        assert forall|i: int|
            0 <= i < ss.len() && race_result(ss) is None implies !source_ready(
            #[trigger] ss[i],
        ) by {
            if i > 0 {
                assert(ss.skip(1)[i - 1] == ss[i]);
            }
        }
        if forall|i: int| 0 <= i < ss.len() ==> !source_ready(#[trigger] ss[i]) {
            assert forall|i: int| 0 <= i < ss.skip(1).len() implies !source_ready(
                #[trigger] ss.skip(1)[i],
            ) by {
                assert(ss.skip(1)[i] == ss[i + 1]);
            }
        }
    }
}

/// A resolved race resolved to the outcome of one of its own sources.
pub proof fn lemma_race_result_is_some_source(ss: Seq<SourceState>, o: ShutdownOutcome)
    requires
        race_result(ss) == Some(o),
    ensures
        exists|i: int|
            0 <= i < ss.len() && source_ready(#[trigger] ss[i]) && source_outcome(ss[i]) == o,
    decreases ss.len(),
{
    if source_ready(ss[0]) {
        assert(source_outcome(ss[0]) == o);
    } else {
        lemma_race_result_is_some_source(ss.skip(1), o);
        let i = choose|i: int|
            0 <= i < ss.skip(1).len() && source_ready(#[trigger] ss.skip(1)[i]) && source_outcome(
                ss.skip(1)[i],
            ) == o;
        assert(ss[i + 1] == ss.skip(1)[i]);
    }
}

/// Racing a combined pair and then a third source is the same as one
/// simultaneous race: resolving the concatenation of two source lists is
/// resolving the left list first and, only if it is wholly pending, the
/// right one. Pairwise composition of races is therefore associative, and a
/// winner on the left means the right-hand sources are never consulted.
pub proof fn lemma_race_concat(a: Seq<SourceState>, b: Seq<SourceState>)
    ensures
        race_result(a + b) == if race_result(a) is Some {
            race_result(a)
        } else {
            race_result(b)
        },
    decreases a.len(),
{
    if a.len() == 0 {
        assert(a + b =~= b);
    } else {
        assert((a + b)[0] == a[0]);
        lemma_race_concat(a.skip(1), b);
        assert((a + b).skip(1) =~= a.skip(1) + b);
    }
}

/// Resolve a race snapshot: the outcome of the first ready source, if any.
pub fn race_snapshot(sources: &Vec<SourceState>) -> (r: Option<ShutdownOutcome>)
    ensures
        r == race_result(sources@),
{
    let ghost all = sources@;
    proof {
        assert(all.skip(0) =~= all);
    }
    let mut i: usize = 0;
    while i < sources.len()
        invariant
            0 <= i <= all.len(),
            sources@ == all,
            race_result(all) == race_result(all.skip(i as int)),
        decreases all.len() - i,
    {
        let s = sources[i];
        proof {
            assert(all.skip(i as int)[0] == all[i as int]);
        }
        match s.status {
            SourceStatus::Pending => {},
            SourceStatus::Fired => {
                return Some(ShutdownOutcome::Fired(s.kind));
            },
            SourceStatus::Failed(e) => {
                return Some(ShutdownOutcome::RegistrationFailed(e));
            },
        }
        proof {
            assert(all.skip(i as int).skip(1) =~= all.skip(i as int + 1));
        }
        i = i + 1;
    }
    proof {
        assert(all.skip(i as int) =~= Seq::<SourceState>::empty());
    }
    None
}

} // verus!
