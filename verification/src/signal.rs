//! Signal kinds and platform strategies.
//!
//! A `SignalKind` is one monitored termination-related condition. Each
//! platform strategy monitors a fixed set of kinds: three on Unix, two on
//! Windows, none on an unsupported platform.

use vstd::prelude::*;

verus! {

/// One termination-related condition that a signal source can monitor.
#[derive(Clone, Copy, Debug, PartialEq, Eq, Structural)]
pub enum SignalKind {
    /// A child process of the host exited (Unix only).
    ChildExited,
    /// The host was asked to terminate (Unix only).
    TerminateRequest,
    /// The host was interrupted from the terminal (Unix only).
    InterruptRequest,
    /// A console interrupt event (Windows only).
    ConsoleInterrupt,
    /// A console break event (Windows only).
    ConsoleBreak,
}

/// The platform strategy selected once at startup.
#[derive(Clone, Copy, Debug, PartialEq, Eq, Structural)]
pub enum Platform {
    Unix,
    Windows,
    /// Fallback: no signal source exists, so no shutdown outcome can ever be
    /// produced; the host relies on external forced termination.
    Unsupported,
}

/// Whether `k` belongs to the set of kinds monitored on platform `p`.
pub open spec fn kind_on_platform(p: Platform, k: SignalKind) -> bool {
    match p {
        Platform::Unix => k == SignalKind::ChildExited || k == SignalKind::TerminateRequest
            || k == SignalKind::InterruptRequest,
        Platform::Windows => k == SignalKind::ConsoleInterrupt || k == SignalKind::ConsoleBreak,
        Platform::Unsupported => false,
    }
}

/// The fixed, ordered list of kinds monitored on platform `p`.
pub open spec fn spec_monitored_kinds(p: Platform) -> Seq<SignalKind> {
    match p {
        Platform::Unix => seq![
            SignalKind::ChildExited,
            SignalKind::TerminateRequest,
            SignalKind::InterruptRequest,
        ],
        Platform::Windows => seq![SignalKind::ConsoleInterrupt, SignalKind::ConsoleBreak],
        Platform::Unsupported => Seq::empty(),
    }
}

/// The kinds monitored on `p` are exactly those that `kind_on_platform`
/// admits.
pub proof fn lemma_monitored_kinds_exact(p: Platform)
    ensures
        forall|i: int|
            0 <= i < spec_monitored_kinds(p).len() ==> kind_on_platform(
                p,
                #[trigger] spec_monitored_kinds(p)[i],
            ),
        forall|k: SignalKind|
            kind_on_platform(p, k) ==> #[trigger] spec_monitored_kinds(p).contains(k),
{
    assert forall|k: SignalKind| kind_on_platform(p, k) implies #[trigger] spec_monitored_kinds(
        p,
    ).contains(k) by {
        match p {
            Platform::Unix => {
                if k == SignalKind::ChildExited {
                    assert(spec_monitored_kinds(p)[0] == k);
                } else if k == SignalKind::TerminateRequest {
                    assert(spec_monitored_kinds(p)[1] == k);
                } else {
                    assert(spec_monitored_kinds(p)[2] == k);
                }
            },
            Platform::Windows => {
                if k == SignalKind::ConsoleInterrupt {
                    assert(spec_monitored_kinds(p)[0] == k);
                } else {
                    assert(spec_monitored_kinds(p)[1] == k);
                }
            },
            Platform::Unsupported => {},
        }
    }
}

/// The list of kinds to subscribe to on platform `p`.
pub fn monitored_kinds(p: Platform) -> (r: Vec<SignalKind>)
    ensures
        r@ == spec_monitored_kinds(p),
{
    let mut r: Vec<SignalKind> = Vec::new();
    match p {
        Platform::Unix => {
            r.push(SignalKind::ChildExited);
            r.push(SignalKind::TerminateRequest);
            r.push(SignalKind::InterruptRequest);
        },
        Platform::Windows => {
            r.push(SignalKind::ConsoleInterrupt);
            r.push(SignalKind::ConsoleBreak);
        },
        Platform::Unsupported => {},
    }
    proof {
        assert(r@ =~= spec_monitored_kinds(p));
    }
    r
}

/// The name of the condition `k`, for diagnostics.
pub open spec fn spec_kind_name(k: SignalKind) -> Seq<char> {
    match k {
        SignalKind::ChildExited => "child-exited"@,
        SignalKind::TerminateRequest => "terminate-request"@,
        SignalKind::InterruptRequest => "interrupt-request"@,
        SignalKind::ConsoleInterrupt => "console-interrupt"@,
        SignalKind::ConsoleBreak => "console-break"@,
    }
}

/// The printable name of the condition `k`.
pub fn kind_name(k: SignalKind) -> (r: &'static str)
    ensures
        r@ == spec_kind_name(k),
{
    match k {
        SignalKind::ChildExited => "child-exited",
        SignalKind::TerminateRequest => "terminate-request",
        SignalKind::InterruptRequest => "interrupt-request",
        SignalKind::ConsoleInterrupt => "console-interrupt",
        SignalKind::ConsoleBreak => "console-break",
    }
}

} // verus!
