//! The one-slot map-completion notification.  The map-for-read request
//! registers a completion that fires exactly once, success or failure; a
//! single wait consumes the outcome, and no later wait on the same
//! notification ever resolves again.

use vstd::prelude::*;

verus! {

/// Where a notification stands.
pub enum NoticeState {
    /// The completion has not been delivered yet.
    Pending,
    /// The completion fired with this outcome; no wait has consumed it yet.
    Fired(Result<(), String>),
    /// A wait consumed the outcome; later waits never resolve again.
    Consumed,
}

/// What a wait on a notification in the given state resolves to.
pub open spec fn wait_resolves(s: NoticeState) -> Option<Result<(), String>> {
    match s {
        NoticeState::Fired(o) => Some(o),
        _ => None,
    }
}

/// Where a notification stands after one wait.
pub open spec fn after_wait(s: NoticeState) -> NoticeState {
    match s {
        NoticeState::Fired(_) => NoticeState::Consumed,
        _ => s,
    }
}

/// A one-slot completion notification: fired at most once, resolved at most
/// once.
pub struct Notice {
    state: NoticeState,
}

impl Notice {
    /// Where this notification stands.
    pub closed spec fn state_of(self) -> NoticeState {
        self.state
    }

    /// A fresh, still-pending notification.
    pub fn new() -> (n: Notice)
        ensures
            n.state_of() is Pending,
    {
        Notice { state: NoticeState::Pending }
    }

    /// Whether the completion may still fire.
    pub fn is_pending(&self) -> (b: bool)
        ensures
            b == (self.state_of() is Pending),
    {
        match self.state {
            NoticeState::Pending => true,
            _ => false,
        }
    }

    /// Delivers the completion's outcome.  Only a pending notification can
    /// fire, so it fires at most once.
    pub fn fire(&mut self, outcome: Result<(), String>)
        requires
            old(self).state_of() is Pending,
        ensures
            final(self).state_of() == NoticeState::Fired(outcome),
    {
        self.state = NoticeState::Fired(outcome);
    }

    /// Resolves the notification if the completion has fired and was not
    /// consumed yet; otherwise reports nothing and changes nothing.
    pub fn wait(&mut self) -> (r: Option<Result<(), String>>)
        ensures
            r == wait_resolves(old(self).state_of()),
            final(self).state_of() == after_wait(old(self).state_of()),
    {
        let mut taken = NoticeState::Consumed;
        core::mem::swap(&mut self.state, &mut taken);
        match taken {
            NoticeState::Fired(o) => Some(o),
            NoticeState::Pending => {
                self.state = NoticeState::Pending;
                None
            },
            NoticeState::Consumed => None,
        }
    }
}

/// Single completion, wait side: once a wait has resolved the outcome, no
/// later wait on the same notification resolves again.
pub proof fn lemma_second_wait_never_resolves(s: NoticeState)
    requires
        wait_resolves(s) is Some,
    ensures
        wait_resolves(after_wait(s)) is None,
{
}

/// Single completion, firing side: a notification past its pending state
/// never becomes pending again, so the completion cannot fire twice.
pub proof fn lemma_fires_at_most_once(s: NoticeState)
    requires
        !(s is Pending),
    ensures
        !(after_wait(s) is Pending),
{
}

} // verus!
