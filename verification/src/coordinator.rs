//! The shutdown coordinator: owns the subprocess handles, consumes the
//! single race outcome, releases every handle exactly once, and selects the
//! platform policy's termination action.
//!
//! The coordinator moves through `Watching -> Resolved -> Terminating` and
//! never back. An outcome is accepted only while watching, so once one has
//! been captured no further source observation has any effect; the
//! termination action can only be read once every handle has been released,
//! so cleanup strictly happens-before host-process termination on every
//! path.

use vstd::prelude::*;
use crate::signal::{Platform, SignalKind, kind_on_platform, kind_name, spec_kind_name};
use crate::race::{
    ShutdownOutcome, SourceError, SourceState, lemma_race_result_is_some_source, race_result,
    race_snapshot, source_outcome, source_ready,
};

verus! {

/// Opaque handle to an externally spawned subprocess, transferred to the
/// coordinator by value. It is released — a best-effort termination request,
/// not awaited — exactly once, at shutdown.
#[derive(Debug)]
pub struct ManagedProcess {
    id: u64,
    released: bool,
}

impl ManagedProcess {
    /// The caller-chosen identity of the underlying subprocess.
    pub closed spec fn spec_id(self) -> u64 {
        self.id
    }

    /// Whether the release pass has already requested this subprocess's
    /// termination.
    pub closed spec fn is_released(self) -> bool {
        self.released
    }

    /// Wrap a freshly spawned subprocess, not yet released.
    pub fn new(id: u64) -> (h: ManagedProcess)
        ensures
            h.spec_id() == id,
            !h.is_released(),
    {
        ManagedProcess { id, released: false }
    }

    /// Request the subprocess's termination. Called exactly once per handle:
    /// a handle that was already released cannot be released again.
    pub fn release(&mut self)
        requires
            !old(self).is_released(),
        ensures
            final(self).is_released(),
            final(self).spec_id() == old(self).spec_id(),
    {
        self.released = true;
    }

    /// The caller-chosen identity, for reading back.
    pub fn id(&self) -> (r: u64)
        ensures
            r == self.spec_id(),
    {
        self.id
    }

    /// Whether this handle has been released.
    pub fn released(&self) -> (r: bool)
        ensures
            r == self.is_released(),
    {
        self.released
    }
}

/// No handle in `hs` has been released yet.
pub open spec fn all_unreleased(hs: Seq<ManagedProcess>) -> bool {
    forall|i: int| 0 <= i < hs.len() ==> !(#[trigger] hs[i]).is_released()
}

/// Every handle in `hs` has been released.
pub open spec fn all_released(hs: Seq<ManagedProcess>) -> bool {
    forall|i: int| 0 <= i < hs.len() ==> (#[trigger] hs[i]).is_released()
}

/// `after` is `before` with every handle released and nothing else changed:
/// same length, same subprocess identities, in the same order.
pub open spec fn released_pass(before: Seq<ManagedProcess>, after: Seq<ManagedProcess>) -> bool {
    &&& after.len() == before.len()
    &&& forall|i: int|
        0 <= i < before.len() ==> (#[trigger] after[i]).spec_id() == before[i].spec_id()
    &&& all_released(after)
}

/// Whether outcome `o` can ever be produced on platform `p`: a fired kind
/// must be one of the kinds `p` monitors, and a registration failure
/// presupposes that some subscription was attempted — on the unsupported
/// platform there is no source to fire or to fail.
pub open spec fn outcome_valid(p: Platform, o: ShutdownOutcome) -> bool {
    match o {
        ShutdownOutcome::Fired(k) => kind_on_platform(p, k),
        ShutdownOutcome::RegistrationFailed(_) => p != Platform::Unsupported,
    }
}

/// No outcome is ever valid on the unsupported platform: its race has no
/// sources, so it neither resolves nor releases any handle, and the
/// coordinator stays watching forever.
pub proof fn lemma_unsupported_never_resolves(o: ShutdownOutcome)
    ensures
        !outcome_valid(Platform::Unsupported, o),
{
}

/// Every source whose kind belongs to the platform yields, once ready, an
/// outcome the platform can produce: a fired source contributes its own
/// monitored kind, and a failure can only come from a source that exists,
/// which rules out the unsupported platform.
pub proof fn lemma_ready_source_outcome_valid(p: Platform, sources: Seq<SourceState>, o: ShutdownOutcome)
    requires
        forall|i: int|
            0 <= i < sources.len() ==> kind_on_platform(p, (#[trigger] sources[i]).kind),
        race_result(sources) == Some(o),
    ensures
        outcome_valid(p, o),
{
    lemma_race_result_is_some_source(sources, o);
    let i = choose|i: int|
        0 <= i < sources.len() && source_ready(#[trigger] sources[i]) && source_outcome(
            sources[i],
        ) == o;
    assert(kind_on_platform(p, sources[i].kind));
}

/// A source list that monitors only the unsupported platform's kinds is
/// empty, so its race stays unresolved forever.
pub proof fn lemma_unsupported_race_stays_pending(sources: Seq<SourceState>)
    requires
        forall|i: int|
            0 <= i < sources.len() ==> kind_on_platform(
                Platform::Unsupported,
                (#[trigger] sources[i]).kind,
            ),
    ensures
        sources.len() == 0,
        race_result(sources) is None,
{
    if sources.len() > 0 {
        assert(kind_on_platform(Platform::Unsupported, sources[0].kind));
    }
}

/// Whether outcome `o` can be produced on platform `p`, for callers that
/// must check before handing an outcome to the coordinator.
pub fn outcome_possible(p: Platform, o: &ShutdownOutcome) -> (b: bool)
    ensures
        b == outcome_valid(p, *o),
{
    match o {
        ShutdownOutcome::Fired(k) => match p {
            Platform::Unix => *k == SignalKind::ChildExited || *k == SignalKind::TerminateRequest
                || *k == SignalKind::InterruptRequest,
            Platform::Windows => *k == SignalKind::ConsoleInterrupt || *k
                == SignalKind::ConsoleBreak,
            Platform::Unsupported => false,
        },
        ShutdownOutcome::RegistrationFailed(_) => match p {
            Platform::Unsupported => false,
            _ => true,
        },
    }
}

/// The exit code used by the Windows policy on every outcome.
pub const WINDOWS_FAILURE_CODE: i32 = 1;

/// What the coordinator does after the release pass.
#[derive(Clone, Copy, Debug, PartialEq, Eq, Structural)]
pub enum TerminationAction {
    /// End the host process with this exit code. Irreversible; by design it
    /// never returns control to the caller.
    Exit(i32),
    /// Return this error to the caller instead of terminating; the
    /// surrounding application decides further behavior.
    ReturnError(SourceError),
}

/// The per-platform exit policy.
///
/// Unix exits 0 on any fired kind — an unexpected child exit included — but
/// propagates a registration failure to the caller after cleanup. Windows
/// never distinguishes failure from success and always terminates with one
/// fixed failure code. The unsupported platform never reaches a policy
/// decision, since no outcome is valid there.
pub open spec fn policy_action(p: Platform, o: ShutdownOutcome) -> TerminationAction
    recommends
        outcome_valid(p, o),
{
    match p {
        Platform::Unix => match o {
            ShutdownOutcome::Fired(_) => TerminationAction::Exit(0),
            ShutdownOutcome::RegistrationFailed(e) => TerminationAction::ReturnError(e),
        },
        Platform::Windows => TerminationAction::Exit(WINDOWS_FAILURE_CODE),
        Platform::Unsupported => TerminationAction::Exit(WINDOWS_FAILURE_CODE),
    }
}

/// On Unix, a registration failure is cleaned up and then handed back to the
/// caller unchanged: no termination call is made.
pub proof fn lemma_unix_failure_returns_error_unchanged(e: SourceError)
    ensures
        policy_action(Platform::Unix, ShutdownOutcome::RegistrationFailed(e))
            == TerminationAction::ReturnError(e),
        !(policy_action(Platform::Unix, ShutdownOutcome::RegistrationFailed(e)) is Exit),
{
}

/// On Unix, every fired kind — the unexpected child exit included — ends the
/// host process with exit code 0.
pub proof fn lemma_unix_fired_exits_zero(k: SignalKind)
    requires
        kind_on_platform(Platform::Unix, k),
    ensures
        policy_action(Platform::Unix, ShutdownOutcome::Fired(k)) == TerminationAction::Exit(0),
{
}

/// On Windows, every valid outcome — fired or failed — terminates the host
/// process with the same fixed failure code.
pub proof fn lemma_windows_one_failure_code(o: ShutdownOutcome)
    requires
        outcome_valid(Platform::Windows, o),
    ensures
        policy_action(Platform::Windows, o) == TerminationAction::Exit(WINDOWS_FAILURE_CODE),
{
}

/// Severity of a diagnostic message.
#[derive(Clone, Copy, Debug, PartialEq, Eq, Structural)]
pub enum DiagnosticLevel {
    Info,
    Error,
}

/// The severity of the diagnostic for outcome `o`: informational for an
/// expected interrupt or terminate request, error-level for the unexpected
/// child exit and for a registration failure.
pub open spec fn spec_diagnostic_level(o: ShutdownOutcome) -> DiagnosticLevel {
    match o {
        ShutdownOutcome::Fired(SignalKind::ChildExited) => DiagnosticLevel::Error,
        ShutdownOutcome::Fired(_) => DiagnosticLevel::Info,
        ShutdownOutcome::RegistrationFailed(_) => DiagnosticLevel::Error,
    }
}

/// The name of the condition that triggered outcome `o`.
pub open spec fn spec_diagnostic_condition(o: ShutdownOutcome) -> Seq<char> {
    match o {
        ShutdownOutcome::Fired(k) => spec_kind_name(k),
        ShutdownOutcome::RegistrationFailed(_) => "registration-failure"@,
    }
}

/// The diagnostic for outcome `o`: its severity and the name of the
/// triggering condition.
pub fn diagnostic_for(o: &ShutdownOutcome) -> (d: (DiagnosticLevel, &'static str))
    ensures
        d.0 == spec_diagnostic_level(*o),
        d.1@ == spec_diagnostic_condition(*o),
{
    match o {
        ShutdownOutcome::Fired(k) => {
            let level = if *k == SignalKind::ChildExited {
                DiagnosticLevel::Error
            } else {
                DiagnosticLevel::Info
            };
            (level, kind_name(*k))
        },
        ShutdownOutcome::RegistrationFailed(_) => (DiagnosticLevel::Error, "registration-failure"),
    }
}

/// The coordinator's phase. Transitions only ever move forward; both ends of
/// the sequence are terminal in their own way: `Watching` is left only by a
/// valid outcome, and `Terminating` is never left.
#[derive(Clone, Copy, Debug, PartialEq, Eq, Structural)]
pub enum Phase {
    /// All applicable sources registered and racing; no outcome yet.
    Watching,
    /// Exactly one outcome captured; the other sources are abandoned.
    Resolved,
    /// The release pass is complete; only the termination action remains.
    Terminating,
}

/// The shutdown coordinator. Constructed with the externally supplied
/// subprocess handles and the active platform strategy; consumes the race's
/// single outcome, releases every handle exactly once, and then exposes the
/// policy's termination action.
pub struct Coordinator {
    handles: Vec<ManagedProcess>,
    platform: Platform,
    phase: Phase,
    outcome: Option<ShutdownOutcome>,
}

impl Coordinator {
    /// The handles the coordinator owns.
    pub closed spec fn handles_seq(self) -> Seq<ManagedProcess> {
        self.handles@
    }

    /// The platform strategy selected at construction.
    pub closed spec fn platform_of(self) -> Platform {
        self.platform
    }

    /// The current phase.
    pub closed spec fn phase_of(self) -> Phase {
        self.phase
    }

    /// The captured outcome, if one has been produced.
    pub closed spec fn outcome_of(self) -> Option<ShutdownOutcome> {
        self.outcome
    }

    /// The coordinator's invariant, tied to its phase: before the release
    /// pass no handle has been released, after it every handle has been; an
    /// outcome exists exactly from `Resolved` on and is one the platform can
    /// produce.
    pub open spec fn wf(self) -> bool {
        match self.phase_of() {
            Phase::Watching => self.outcome_of() is None && all_unreleased(self.handles_seq()),
            Phase::Resolved => {
                &&& self.outcome_of() matches Some(o) && outcome_valid(self.platform_of(), o)
                &&& all_unreleased(self.handles_seq())
            },
            Phase::Terminating => {
                &&& self.outcome_of() matches Some(o) && outcome_valid(self.platform_of(), o)
                &&& all_released(self.handles_seq())
            },
        }
    }

    /// Whether the coordinator can still accept a race outcome. True only
    /// while watching: after resolution, later completions of the abandoned
    /// sources are never observed.
    pub open spec fn accepts_outcome(self) -> bool {
        self.phase_of() == Phase::Watching
    }

    /// Once an outcome has been captured, no further observation is
    /// accepted: exactly one outcome is ever produced per coordinator.
    pub proof fn lemma_resolution_is_single(self)
        requires
            self.phase_of() != Phase::Watching,
        ensures
            !self.accepts_outcome(),
    {
    }

    /// A coordinator that may perform its termination action has already
    /// released every handle: cleanup strictly happens-before host-process
    /// termination on every path.
    pub proof fn lemma_released_before_termination(self)
        requires
            self.wf(),
            self.phase_of() == Phase::Terminating,
        ensures
            all_released(self.handles_seq()),
    {
    }

    /// Take ownership of the subprocess handles — an empty set is valid and
    /// changes nothing in the control flow — and start watching.
    pub fn new(handles: Vec<ManagedProcess>, platform: Platform) -> (c: Coordinator)
        requires
            all_unreleased(handles@),
        ensures
            c.wf(),
            c.phase_of() == Phase::Watching,
            c.platform_of() == platform,
            c.handles_seq() == handles@,
            c.outcome_of() is None,
    {
        Coordinator { handles, platform, phase: Phase::Watching, outcome: None }
    }

    /// The number of handles the coordinator owns.
    pub fn handle_count(&self) -> (n: usize)
        ensures
            n == self.handles_seq().len(),
    {
        self.handles.len()
    }

    /// The handles the coordinator owns, for reading back.
    pub fn handles(&self) -> (r: &Vec<ManagedProcess>)
        ensures
            r@ == self.handles_seq(),
    {
        &self.handles
    }

    /// The current phase, for reading back.
    pub fn phase(&self) -> (p: Phase)
        ensures
            p == self.phase_of(),
    {
        self.phase
    }

    /// The platform strategy, for reading back.
    pub fn platform(&self) -> (p: Platform)
        ensures
            p == self.platform_of(),
    {
        self.platform
    }

    /// Capture the race's single outcome. Accepted only while watching and
    /// only for an outcome the platform can produce; the handles are not
    /// touched.
    pub fn resolve(&mut self, outcome: ShutdownOutcome)
        requires
            old(self).wf(),
            old(self).accepts_outcome(),
            outcome_valid(old(self).platform_of(), outcome),
        ensures
            final(self).wf(),
            final(self).phase_of() == Phase::Resolved,
            final(self).outcome_of() == Some(outcome),
            final(self).handles_seq() == old(self).handles_seq(),
            final(self).platform_of() == old(self).platform_of(),
    {
        self.outcome = Some(outcome);
        self.phase = Phase::Resolved;
    }

    /// The release pass: request termination of every subprocess, each
    /// exactly once, keeping identities and order; then enter `Terminating`.
    /// With zero handles the pass is a no-op and the sequence proceeds
    /// unchanged. Returns how many handles were released.
    pub fn release_all(&mut self) -> (n: usize)
        requires
            old(self).wf(),
            old(self).phase_of() == Phase::Resolved,
        ensures
            final(self).wf(),
            final(self).phase_of() == Phase::Terminating,
            released_pass(old(self).handles_seq(), final(self).handles_seq()),
            final(self).outcome_of() == old(self).outcome_of(),
            final(self).platform_of() == old(self).platform_of(),
            n == old(self).handles_seq().len(),
    {
        let ghost orig = self.handles@;
        let n = self.handles.len();
        let mut i: usize = 0;
        while i < self.handles.len()
            invariant
                0 <= i <= orig.len(),
                self.handles@.len() == orig.len(),
                forall|j: int|
                    0 <= j < orig.len() ==> (#[trigger] self.handles@[j]).spec_id()
                        == orig[j].spec_id(),
                forall|j: int| 0 <= j < i ==> (#[trigger] self.handles@[j]).is_released(),
                forall|j: int|
                    i <= j < orig.len() ==> !(#[trigger] self.handles@[j]).is_released(),
                self.platform == old(self).platform_of(),
                self.outcome == old(self).outcome_of(),
                self.phase == Phase::Resolved,
            decreases orig.len() - i,
        {
            let mut h = self.handles.remove(i);
            h.release();
            self.handles.insert(i, h);
            i = i + 1;
        }
        self.phase = Phase::Terminating;
        n
    }

    /// The action the platform policy selects for the captured outcome.
    /// Readable only once the release pass is complete, so no termination
    /// can precede cleanup.
    pub fn termination_action(&self) -> (a: TerminationAction)
        requires
            self.wf(),
            self.phase_of() == Phase::Terminating,
        ensures
            self.outcome_of() matches Some(o) && a == policy_action(self.platform_of(), o),
    {
        let outcome = self.outcome.unwrap();
        match self.platform {
            Platform::Unix => match outcome {
                ShutdownOutcome::Fired(_) => TerminationAction::Exit(0),
                ShutdownOutcome::RegistrationFailed(e) => TerminationAction::ReturnError(e),
            },
            Platform::Windows => TerminationAction::Exit(WINDOWS_FAILURE_CODE),
            Platform::Unsupported => TerminationAction::Exit(WINDOWS_FAILURE_CODE),
        }
    }

    /// Drive one complete shutdown from a captured outcome: resolve, emit
    /// the diagnostic, release every handle exactly once, and select the
    /// termination action — in that order, on every path and for every
    /// ordering of which source fired first.
    pub fn run_shutdown(&mut self, outcome: ShutdownOutcome) -> (r: (
        DiagnosticLevel,
        &'static str,
        TerminationAction,
    ))
        requires
            old(self).wf(),
            old(self).accepts_outcome(),
            outcome_valid(old(self).platform_of(), outcome),
        ensures
            final(self).wf(),
            final(self).phase_of() == Phase::Terminating,
            final(self).outcome_of() == Some(outcome),
            final(self).platform_of() == old(self).platform_of(),
            released_pass(old(self).handles_seq(), final(self).handles_seq()),
            r.0 == spec_diagnostic_level(outcome),
            r.1@ == spec_diagnostic_condition(outcome),
            r.2 == policy_action(old(self).platform_of(), outcome),
    {
        self.resolve(outcome);
        let (level, condition) = diagnostic_for(&outcome);
        self.release_all();
        let action = self.termination_action();
        (level, condition, action)
    }

    /// One poll of the watching loop, over a snapshot of sources that all
    /// monitor this platform's kinds. While every source is pending nothing
    /// changes; as soon as one has fired or failed, the complete shutdown
    /// sequence runs and the diagnostic and termination action come back. On
    /// the unsupported platform the source list is necessarily empty, so the
    /// coordinator watches forever.
    pub fn watch_step(&mut self, sources: &Vec<SourceState>) -> (r: Option<
        (DiagnosticLevel, &'static str, TerminationAction),
    >)
        requires
            old(self).wf(),
            old(self).accepts_outcome(),
            forall|i: int|
                0 <= i < sources@.len() ==> kind_on_platform(
                    old(self).platform_of(),
                    (#[trigger] sources@[i]).kind,
                ),
        ensures
            final(self).wf(),
            final(self).platform_of() == old(self).platform_of(),
            r is Some <==> race_result(sources@) is Some,
            race_result(sources@) is None ==> *final(self) == *old(self),
            race_result(sources@) matches Some(o) ==> {
                &&& final(self).phase_of() == Phase::Terminating
                &&& final(self).outcome_of() == Some(o)
                &&& released_pass(old(self).handles_seq(), final(self).handles_seq())
                &&& (r matches Some(t) && t.0 == spec_diagnostic_level(o) && t.1@
                    == spec_diagnostic_condition(o) && t.2 == policy_action(
                    old(self).platform_of(),
                    o,
                ))
            },
    {
        match race_snapshot(sources) {
            None => None,
            Some(outcome) => {
                proof {
                    lemma_ready_source_outcome_valid(self.platform_of(), sources@, outcome);
                }
                Some(self.run_shutdown(outcome))
            },
        }
    }
}

} // verus!
