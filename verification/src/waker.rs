//! The wake-callback substitution protocol.
//!
//! During a capture step the wrapper hands the inner task a substituted wake
//! callback in place of the ambient one. A wake callback offers four
//! operations: cloning it, waking through a borrowed view, waking by
//! consuming an owned value, and releasing an owned value. The only
//! operation every leaf suspension point is guaranteed to perform is cloning
//! (or waking by reference), in order to keep a wake-up capability for
//! later; intercepting those two operations therefore reaches every leaf of
//! the current call graph.
//!
//! The protocol's safety rests on one invariant, proved here: cloning a
//! substituted callback yields a callback backed by the *ambient* one, never
//! by another substituted one. Owned callbacks arise only from clones, so no
//! owned callback is ever backed by the substitution, and the two operations
//! that take an owned value can demand an ambient backing outright.

use vstd::prelude::*;

verus! {

/// How a wake callback value is backed during one drive step.
#[derive(Clone, Copy, Debug, PartialEq, Eq, Structural)]
pub enum Backing {
    /// The callback the external scheduler handed to the drive step.
    Ambient,
    /// The short-lived view the wrapper substitutes during a capture step;
    /// it exists only as a borrow, for the duration of that one step.
    Substituted,
}

/// The capture scope that is open during one capture step: it counts the
/// frames recorded so far by leaf suspension points.
pub struct CaptureScope {
    /// Frames recorded since the scope was opened.
    pub recorded: u64,
}

/// What cloning a callback with the given backing yields: always an
/// ambient-backed callback. This is the "clone escapes the substitution"
/// contract — the one hook through which frame recording happens must hand
/// back the wrapped callback's own clone, not a further-wrapped one.
pub open spec fn clone_result(b: Backing) -> Backing {
    Backing::Ambient
}

/// Whether an operation on a callback with backing `b` records a frame in
/// the open capture scope: exactly the clone and wake-by-reference
/// operations of the substituted form do.
pub open spec fn records_frame(b: Backing) -> bool {
    b is Substituted
}

impl CaptureScope {
    /// Opens the capture scope for one drive step; no frames are recorded
    /// yet.
    pub fn open() -> (s: CaptureScope)
        ensures
            s.recorded == 0,
    {
        CaptureScope { recorded: 0 }
    }

    /// Closes the scope, yielding how many frames the step recorded.
    pub fn close(self) -> (n: u64)
        ensures
            n == self.recorded,
    {
        self.recorded
    }
}

/// The clone operation of the wake-callback capability. A substituted
/// callback records exactly one frame and then yields a clone of the
/// *underlying* ambient callback; an ambient callback clones silently.
pub fn clone_callback(b: &Backing, scope: &mut CaptureScope) -> (owned: Backing)
    requires
        old(scope).recorded < u64::MAX,
    ensures
        owned == clone_result(*b),
        owned is Ambient,
        final(scope).recorded == old(scope).recorded + (if records_frame(*b) {
            1int
        } else {
            0int
        }),
{
    match b {
        Backing::Substituted => {
            scope.recorded = scope.recorded + 1;
            Backing::Ambient
        },
        Backing::Ambient => Backing::Ambient,
    }
}

/// The wake-by-reference operation. A substituted callback records one frame
/// before delegating to the ambient callback's own wake-by-reference
/// behaviour; this covers leaf points that wake immediately instead of
/// storing a capability.
pub fn wake_callback_by_ref(b: &Backing, scope: &mut CaptureScope)
    requires
        old(scope).recorded < u64::MAX,
    ensures
        final(scope).recorded == old(scope).recorded + (if records_frame(*b) {
            1int
        } else {
            0int
        }),
{
    match b {
        Backing::Substituted => {
            scope.recorded = scope.recorded + 1;
        },
        Backing::Ambient => {},
    }
}

/// The consuming wake operation. It takes an owned callback, and owned
/// callbacks are never backed by the substitution (see
/// [`lemma_owned_callbacks_are_ambient`]), so a substituted backing here is
/// a defect, excluded by the precondition rather than handled.
pub fn wake_callback(b: Backing)
    requires
        b is Ambient,
{
}

/// The release operation, freeing an owned callback. Like the consuming
/// wake it can only ever see an ambient backing.
pub fn release_callback(b: Backing)
    requires
        b is Ambient,
{
}

/// Law: every owned wake callback produced during a drive step is backed by
/// the ambient callback. Owned callbacks arise only from the clone
/// operation, and cloning either backing yields an ambient-backed value, so
/// the consuming wake and the release operations — which take owned values —
/// can never encounter the substituted form.
pub proof fn lemma_owned_callbacks_are_ambient(b: Backing)
    ensures
        clone_result(b) is Ambient,
{
}

} // verus!
