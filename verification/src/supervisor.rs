use crate::identity::{same_identity, VmId};
use vstd::prelude::*;

verus! {

/// Seconds between two polls of the virtual machine's identity.
pub const POLL_INTERVAL_SECS: u64 = 5;

/// How many times an accept loop is attempted for one identity before the
/// condition is treated as fatal.
pub const RESTART_ATTEMPTS: u32 = 3;

/// Seconds to wait between two attempts for the same identity, giving the
/// machine's transport endpoint time to become bindable after the identity
/// is first reported.
pub const RETRY_DELAY_SECS: u64 = 1;

/// Exit status of the process when the restart attempts for an identity are
/// exhausted.
pub const FATAL_EXIT_CODE: i32 = 1;

/// What the supervisor orders after one poll of the identity. The cancel,
/// where one is ordered, is performed before the start, so that at most one
/// accept loop ever holds the listening resource.
#[derive(Clone, Copy, PartialEq, Eq, Structural, Debug)]
pub struct PollDecision {
    /// Abort the accept loop of the previous identity, stale retries
    /// included. Sessions already relaying are detached and keep running.
    pub cancel: bool,
    /// Start a fresh accept loop, with a fresh retry budget, for this
    /// identity.
    pub start: Option<VmId>,
}

/// Daemon-mode supervision of the accept loop across changes of the virtual
/// machine's identity.
///
/// `current` is `None` while no machine is known to run (idle, no listener)
/// and `Some(v)` while an accept loop is active for identity `v`. Each poll
/// of the identity feeds [`Supervisor::poll`], whose decision the caller
/// carries out; a repeated unchanged observation decides nothing, so the
/// listener is rebound exactly once per actual change.
pub struct Supervisor {
    /// The identity the active accept loop is bound to, if any.
    pub current: Option<VmId>,
}

impl Supervisor {
    /// A supervisor that has not yet seen any identity: idle, no listener.
    pub fn new() -> (s: Supervisor)
        ensures
            s.current is None,
    {
        Supervisor { current: None }
    }

    /// The transition one observed identity causes: the new state and the
    /// decision. An unchanged observation decides nothing; a changed one
    /// cancels the old loop exactly when one was running, and starts a new
    /// loop exactly when a machine is present.
    pub open spec fn poll_spec(self, observed: Option<VmId>) -> (Supervisor, PollDecision) {
        if observed == self.current {
            (self, PollDecision { cancel: false, start: None })
        } else {
            (
                Supervisor { current: observed },
                PollDecision { cancel: self.current is Some, start: observed },
            )
        }
    }

    /// Account for one poll of the identity and say what to do about it.
    pub fn poll(&mut self, observed: Option<VmId>) -> (d: PollDecision)
        ensures
            (*final(self), d) == old(self).poll_spec(observed),
            observed == old(self).current ==> !d.cancel && d.start is None && final(self).current
                == old(self).current,
            observed != old(self).current ==> final(self).current == observed && d.start
                == observed && (d.cancel <==> old(self).current is Some),
    {
        if same_identity(&observed, &self.current) {
            PollDecision { cancel: false, start: None }
        } else {
            let cancel = self.current.is_some();
            self.current = observed;
            PollDecision { cancel, start: observed }
        }
    }
}

/// How many starts the supervisor decides over a whole run of polls.
pub open spec fn starts_during(s: Supervisor, polls: Seq<Option<VmId>>) -> nat
    decreases polls.len(),
{
    if polls.len() == 0 {
        0
    } else {
        let (next, d) = s.poll_spec(polls.first());
        (if d.start is Some {
            1nat
        } else {
            0nat
        }) + starts_during(next, polls.drop_first())
    }
}

/// How many observations in a run of polls change the value away from what
/// was last seen, to a present identity.
pub open spec fn changes_to_present(cur: Option<VmId>, polls: Seq<Option<VmId>>) -> nat
    decreases polls.len(),
{
    if polls.len() == 0 {
        0
    } else {
        (if polls.first() != cur && polls.first() is Some {
            1nat
        } else {
            0nat
        }) + changes_to_present(polls.first(), polls.drop_first())
    }
}

/// Law: over any run of polls, the supervisor starts an accept loop exactly
/// once per actual change to a present identity — never for a repeated
/// unchanged observation, never for a machine that stays absent.
pub proof fn lemma_starts_once_per_change(s: Supervisor, polls: Seq<Option<VmId>>)
    ensures
        starts_during(s, polls) == changes_to_present(s.current, polls),
    decreases polls.len(),
{
    if polls.len() > 0 {
        let (next, d) = s.poll_spec(polls.first());
        assert(next.current == polls.first());
        lemma_starts_once_per_change(next, polls.drop_first());
    }
}

/// How many cancels the supervisor decides over a whole run of polls.
pub open spec fn cancels_during(s: Supervisor, polls: Seq<Option<VmId>>) -> nat
    decreases polls.len(),
{
    if polls.len() == 0 {
        0
    } else {
        let (next, d) = s.poll_spec(polls.first());
        (if d.cancel {
            1nat
        } else {
            0nat
        }) + cancels_during(next, polls.drop_first())
    }
}

/// How many observations in a run of polls change the value away from a
/// present identity.
pub open spec fn changes_from_present(cur: Option<VmId>, polls: Seq<Option<VmId>>) -> nat
    decreases polls.len(),
{
    if polls.len() == 0 {
        0
    } else {
        (if polls.first() != cur && cur is Some {
            1nat
        } else {
            0nat
        }) + changes_from_present(polls.first(), polls.drop_first())
    }
}

/// Law: over any run of polls, the supervisor cancels the active accept
/// loop exactly once per change away from the identity it was running for —
/// so the listening resource never has two owners: every start after the
/// first is preceded by the cancel of the loop before it.
pub proof fn lemma_cancels_once_per_change(s: Supervisor, polls: Seq<Option<VmId>>)
    ensures
        cancels_during(s, polls) == changes_from_present(s.current, polls),
    decreases polls.len(),
{
    if polls.len() > 0 {
        let (next, d) = s.poll_spec(polls.first());
        assert(next.current == polls.first());
        lemma_cancels_once_per_change(next, polls.drop_first());
    }
}

/// Law: polling the same observation twice in a row, whatever the state,
/// leaves the second poll with nothing to do: no cancel, no start, no state
/// change.
pub proof fn lemma_repeated_poll_is_noop(s: Supervisor, observed: Option<VmId>)
    ensures
        ({
            let (s1, _) = s.poll_spec(observed);
            let (s2, d2) = s1.poll_spec(observed);
            s2 == s1 && !d2.cancel && d2.start is None
        }),
{
}

/// What a failed attempt of the accept loop leads to.
#[derive(Clone, Copy, PartialEq, Eq, Structural, Debug)]
pub enum RetryStep {
    /// Wait [`RETRY_DELAY_SECS`], then attempt the accept loop again.
    Backoff,
    /// The budget for this identity is spent: the process terminates with
    /// [`FATAL_EXIT_CODE`] — a supervisor that can never bind cannot serve.
    GiveUp,
}

/// The bounded restart budget for the accept loop of one identity.
///
/// It is created afresh each time the supervisor starts a loop for an
/// identity, so no counter ever crosses an identity change; when the
/// identity changes mid-retry, the whole retrying task is cancelled by the
/// supervisor's decision and the stale budget goes with it.
pub struct RestartPolicy {
    /// Attempts not yet failed, the one in flight included.
    pub attempts_left: u32,
}

impl RestartPolicy {
    /// The full budget for one identity: [`RESTART_ATTEMPTS`] attempts.
    pub fn new() -> (p: RestartPolicy)
        ensures
            p.attempts_left == RESTART_ATTEMPTS,
    {
        RestartPolicy { attempts_left: RESTART_ATTEMPTS }
    }

    /// One attempt of the accept loop failed (to bind, or later, to
    /// accept): spend it, and either back off and retry — exactly while
    /// spent attempts number fewer than [`RESTART_ATTEMPTS`] — or give up.
    pub fn on_listen_failure(&mut self) -> (step: RetryStep)
        requires
            old(self).attempts_left >= 1,
        ensures
            final(self).attempts_left == old(self).attempts_left - 1,
            step == RetryStep::Backoff <==> old(self).attempts_left > 1,
            step == RetryStep::GiveUp <==> old(self).attempts_left == 1,
    {
        self.attempts_left = self.attempts_left - 1;
        if self.attempts_left > 0 {
            RetryStep::Backoff
        } else {
            RetryStep::GiveUp
        }
    }
}

} // verus!
