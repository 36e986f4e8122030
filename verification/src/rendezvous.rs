//! The image-load rendezvous.
//!
//! The host reports the end of an image load through two mutually exclusive
//! events, load and error. `CompletionSignal` is the single-resolution
//! channel that bridges those events into a sequential wait: resolving it
//! twice is a programming error and is ruled out by its precondition.
//! `LoadRendezvous` wraps the signal with the take-once arming logic that
//! both event handlers share, so that whichever event fires first delivers
//! the outcome and any later spurious event is disarmed and changes nothing.

use vstd::prelude::*;

use crate::errors::ImageLoadError;

verus! {

/// How an image load attempt ended.
#[derive(Clone, PartialEq, Debug)]
pub enum LoadOutcome {
    /// The host finished decoding the image.
    Loaded,
    /// The host reported a load or decode failure.
    Failed(ImageLoadError),
}

/// A single-resolution completion channel.
///
/// `resolve` may be called at most once; a second resolution is a protocol
/// violation and is excluded by its precondition rather than ignored.
pub struct CompletionSignal {
    outcome: Option<LoadOutcome>,
}

impl CompletionSignal {
    /// The delivered outcome, if the signal has resolved.
    pub closed spec fn spec_outcome(&self) -> Option<LoadOutcome> {
        self.outcome
    }

    /// A fresh, unresolved signal.
    pub fn new() -> (s: Self)
        ensures
            s.spec_outcome() is None,
    {
        CompletionSignal { outcome: None }
    }

    /// Deliver the outcome. Resolving an already resolved signal is a
    /// programming error: callers must prove it cannot happen.
    pub fn resolve(&mut self, outcome: LoadOutcome)
        requires
            old(self).spec_outcome() is None,
        ensures
            final(self).spec_outcome() == Some(outcome),
    {
        self.outcome = Some(outcome);
    }

    /// Whether the signal has resolved.
    pub fn is_resolved(&self) -> (r: bool)
        ensures
            r == (self.spec_outcome() is Some),
    {
        self.outcome.is_some()
    }

    /// Read the delivered outcome.
    pub fn outcome(&self) -> (r: &Option<LoadOutcome>)
        ensures
            *r == self.spec_outcome(),
    {
        &self.outcome
    }
}

/// The take-once rendezvous around the completion signal.
///
/// While armed, the first event takes the sender and resolves the signal;
/// from then on the rendezvous is disarmed and every later event leaves it
/// unchanged.
pub struct LoadRendezvous {
    armed: bool,
    signal: CompletionSignal,
}

impl LoadRendezvous {
    /// Whether no event has fired yet.
    pub closed spec fn spec_armed(&self) -> bool {
        self.armed
    }

    /// The outcome delivered so far, if any.
    pub closed spec fn spec_delivered(&self) -> Option<LoadOutcome> {
        self.signal.spec_outcome()
    }

    /// Invariant: while armed, the signal is unresolved.
    pub open spec fn wf(&self) -> bool {
        self.spec_armed() ==> self.spec_delivered() is None
    }

    /// The state after an event carrying `outcome` fires.
    pub closed spec fn spec_notify(self, outcome: LoadOutcome) -> LoadRendezvous {
        if self.armed {
            LoadRendezvous { armed: false, signal: CompletionSignal { outcome: Some(outcome) } }
        } else {
            self
        }
    }

    /// A fresh rendezvous, armed and undelivered.
    pub fn new() -> (r: Self)
        ensures
            r.wf(),
            r.spec_armed(),
            r.spec_delivered() is None,
    {
        LoadRendezvous { armed: true, signal: CompletionSignal::new() }
    }

    /// The load event fired: resolve with success if still armed.
    /// Returns whether this call resolved the signal.
    pub fn notify_load(&mut self) -> (fired: bool)
        requires
            old(self).wf(),
        ensures
            final(self).wf(),
            fired == old(self).spec_armed(),
            *final(self) == old(self).spec_notify(LoadOutcome::Loaded),
            fired ==> final(self).spec_delivered() == Some(LoadOutcome::Loaded),
            !fired ==> *final(self) == *old(self),
    {
        if self.armed {
            self.armed = false;
            self.signal.resolve(LoadOutcome::Loaded);
            true
        } else {
            false
        }
    }

    /// The error event fired: resolve with failure if still armed.
    /// Returns whether this call resolved the signal.
    pub fn notify_error(&mut self, err: ImageLoadError) -> (fired: bool)
        requires
            old(self).wf(),
        ensures
            final(self).wf(),
            fired == old(self).spec_armed(),
            *final(self) == old(self).spec_notify(LoadOutcome::Failed(err)),
            !fired ==> *final(self) == *old(self),
    {
        if self.armed {
            self.armed = false;
            self.signal.resolve(LoadOutcome::Failed(err));
            true
        } else {
            false
        }
    }

    /// Read the delivered outcome.
    pub fn delivered(&self) -> (r: &Option<LoadOutcome>)
        ensures
            *r == self.spec_delivered(),
    {
        self.signal.outcome()
    }
}

/// Law: the rendezvous resolves exactly once per load attempt. From a fresh,
/// armed rendezvous, the first event delivers its outcome and disarms; a
/// second event of either kind changes nothing — neither the delivered
/// result nor the armed flag.
pub proof fn lemma_rendezvous_resolves_once(
    r: LoadRendezvous,
    first: LoadOutcome,
    second: LoadOutcome,
)
    requires
        r.wf(),
        r.spec_armed(),
    ensures
        r.spec_notify(first).spec_delivered() == Some(first),
        !r.spec_notify(first).spec_armed(),
        r.spec_notify(first).spec_notify(second) == r.spec_notify(first),
{
}

} // verus!
