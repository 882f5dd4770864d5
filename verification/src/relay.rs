//! The credential relay protocol on the client side.
//!
//! On capturing a bundle the client repeatedly picks a fresh relay key and
//! posts the bundle to the registry endpoint.  A conflict status means the
//! key was already taken and only triggers another attempt with a new key;
//! any other failure aborts the whole relay round.  Attempts are capped so
//! an adversarial stream of conflicts cannot livelock the client.
//!
//! The loop itself — generating a key, performing the POST — is run by the
//! caller; `RelayAttempt` decides after each response what happens next.

use vstd::prelude::*;

verus! {

/// Connect and read timeout, in seconds, of every relay network call.
pub const REQUEST_TIMEOUT_SECS: u64 = 5;

/// HTTP status the registry endpoint answers a relay POST with.
pub const STATUS_OK: u16 = 200;

/// Status for a relay key that is already registered.
pub const STATUS_CONFLICT: u16 = 409;

/// What a single response means for the relay round.
#[derive(Clone, Copy, Debug, PartialEq, Eq, Structural)]
pub enum RelayDecision {
    /// Key collision: pick a fresh key and post again.
    Retry,
    /// The bundle was accepted under the key just posted.
    Success,
    /// A non-conflict failure: the whole relay round is aborted.
    Abort,
}

/// How a single response status is read.
pub open spec fn spec_classify(status: u16) -> RelayDecision {
    if status == STATUS_OK {
        RelayDecision::Success
    } else if status == STATUS_CONFLICT {
        RelayDecision::Retry
    } else {
        RelayDecision::Abort
    }
}

/// Read a response status: accepted, key conflict, or failure.
pub fn classify(status: u16) -> (d: RelayDecision)
    ensures
        d == spec_classify(status),
{
    if status == STATUS_OK {
        RelayDecision::Success
    } else if status == STATUS_CONFLICT {
        RelayDecision::Retry
    } else {
        RelayDecision::Abort
    }
}

/// How a relay round ended.
#[derive(Clone, Copy, Debug, PartialEq, Eq, Structural)]
pub enum RelayOutcome {
    /// The bundle was accepted; the key of the last attempt is the one
    /// final key surfaced to the operator.
    Delivered,
    /// A non-conflict failure status ended the round.
    Failed(u16),
    /// A network call failed before any status came back; the whole
    /// round fails rather than dropping the credentials silently.
    TransportFailed,
    /// The attempt cap was reached with nothing but conflicts.
    GaveUp,
}

/// What the caller must do after feeding a response to the machine.
#[derive(Clone, Copy, Debug, PartialEq, Eq, Structural)]
pub enum RelayAction {
    /// Generate a fresh key and post the bundle again.
    PostWithNewKey,
    /// The round is over; the outcome says how.
    Stop,
}

/// One relay round: how many attempts are still allowed and, once the
/// round is over, its outcome.
#[derive(Clone, Copy, Debug, PartialEq, Eq, Structural)]
pub struct RelayAttempt {
    pub attempts_left: u32,
    pub outcome: Option<RelayOutcome>,
}

/// The transition the machine makes on one response status.
pub open spec fn spec_on_response(s: RelayAttempt, status: u16) -> (RelayAttempt, RelayAction) {
    match spec_classify(status) {
        RelayDecision::Success => (
            RelayAttempt { attempts_left: s.attempts_left, outcome: Some(RelayOutcome::Delivered) },
            RelayAction::Stop,
        ),
        RelayDecision::Abort => (
            RelayAttempt {
                attempts_left: s.attempts_left,
                outcome: Some(RelayOutcome::Failed(status)),
            },
            RelayAction::Stop,
        ),
        RelayDecision::Retry => if s.attempts_left > 1 {
            (
                RelayAttempt { attempts_left: (s.attempts_left - 1) as u32, outcome: None },
                RelayAction::PostWithNewKey,
            )
        } else {
            (
                RelayAttempt { attempts_left: 0, outcome: Some(RelayOutcome::GaveUp) },
                RelayAction::Stop,
            )
        },
    }
}

impl RelayAttempt {
    /// A fresh round: the first key has been (or is about to be) posted,
    /// and up to `max_attempts` posts are allowed in all.
    pub fn begin(max_attempts: u32) -> (s: Self)
        requires
            max_attempts >= 1,
        ensures
            s.attempts_left == max_attempts,
            s.outcome is None,
    {
        RelayAttempt { attempts_left: max_attempts, outcome: None }
    }

    /// Feed the response of the latest POST to the machine.  A success or
    /// a non-conflict failure ends the round; a conflict burns one attempt
    /// and asks for a new key, until the cap is reached.
    pub fn on_response(&mut self, status: u16) -> (a: RelayAction)
        requires
            old(self).outcome is None,
        ensures
            (*final(self), a) == spec_on_response(*old(self), status),
            a is PostWithNewKey ==> final(self).outcome is None,
            a is Stop ==> final(self).outcome is Some,
    {
        match classify(status) {
            RelayDecision::Success => {
                self.outcome = Some(RelayOutcome::Delivered);
                RelayAction::Stop
            },
            RelayDecision::Abort => {
                self.outcome = Some(RelayOutcome::Failed(status));
                RelayAction::Stop
            },
            RelayDecision::Retry => {
                if self.attempts_left > 1 {
                    self.attempts_left = self.attempts_left - 1;
                    RelayAction::PostWithNewKey
                } else {
                    self.attempts_left = 0;
                    self.outcome = Some(RelayOutcome::GaveUp);
                    RelayAction::Stop
                }
            },
        }
    }

    /// A network call failed outright — no response status exists.  The
    /// round ends at once: a transport failure fails the whole capture
    /// round, it never drops the credentials silently.
    pub fn on_transport_failure(&mut self) -> (a: RelayAction)
        requires
            old(self).outcome is None,
        ensures
            final(self).outcome == Some(RelayOutcome::TransportFailed),
            final(self).attempts_left == old(self).attempts_left,
            a is Stop,
    {
        self.outcome = Some(RelayOutcome::TransportFailed);
        RelayAction::Stop
    }
}

/// The state after a whole sequence of responses has been fed in, the
/// round stopping as soon as an outcome is reached.
pub open spec fn spec_relay_run(s: RelayAttempt, statuses: Seq<u16>) -> RelayAttempt
    decreases statuses.len(),
{
    if statuses.len() == 0 || s.outcome is Some {
        s
    } else {
        spec_relay_run(spec_on_response(s, statuses[0]).0, statuses.drop_first())
    }
}

/// A round that sees nothing but key conflicts and then an acceptance is
/// delivered: every conflict only triggers a retry with a fresh key, no
/// intermediate response ends the round, and the one acceptance — the
/// last response — is the single point at which the round succeeds, so
/// exactly one final key (the one posted last) is surfaced.
pub proof fn lemma_retry_until_success(s: RelayAttempt, statuses: Seq<u16>)
    requires
        s.outcome is None,
        1 <= statuses.len() <= s.attempts_left,
        forall|i: int| 0 <= i < statuses.len() - 1 ==> statuses[i] == STATUS_CONFLICT,
        statuses.last() == STATUS_OK,
    ensures
        spec_relay_run(s, statuses).outcome == Some(RelayOutcome::Delivered),
        forall|k: int|
            0 <= k < statuses.len() ==> spec_relay_run(s, statuses.take(k)).outcome is None,
    decreases statuses.len(),
{
    let s2 = spec_on_response(s, statuses[0]).0;
    assert(spec_relay_run(s, statuses) == spec_relay_run(s2, statuses.drop_first()));
    if statuses.len() == 1 {
        assert(spec_relay_run(s2, statuses.drop_first()) == s2);
    } else {
        lemma_retry_until_success(s2, statuses.drop_first());
    }
    assert forall|k: int|
        0 <= k < statuses.len() implies spec_relay_run(s, statuses.take(k)).outcome is None by {
        if k == 0 {
            assert(statuses.take(0) =~= Seq::<u16>::empty());
            assert(spec_relay_run(s, statuses.take(0)) == s);
        } else {
            assert(statuses.take(k).drop_first() =~= statuses.drop_first().take(k - 1));
            assert(spec_relay_run(s, statuses.take(k)) == spec_relay_run(
                s2,
                statuses.drop_first().take(k - 1),
            ));
        }
    }
}

/// Under the attempt cap, a round that sees only conflicts gives up —
/// the retry loop cannot run forever under adversarial load.
pub proof fn lemma_conflicts_reach_cap(s: RelayAttempt, statuses: Seq<u16>)
    requires
        s.outcome is None,
        s.attempts_left >= 1,
        statuses.len() == s.attempts_left,
        forall|i: int| 0 <= i < statuses.len() ==> statuses[i] == STATUS_CONFLICT,
    ensures
        spec_relay_run(s, statuses).outcome == Some(RelayOutcome::GaveUp),
    decreases statuses.len(),
{
    let s2 = spec_on_response(s, statuses[0]).0;
    assert(spec_relay_run(s, statuses) == spec_relay_run(s2, statuses.drop_first()));
    if statuses.len() == 1 {
        assert(spec_relay_run(s2, statuses.drop_first()) == s2);
    } else {
        lemma_conflicts_reach_cap(s2, statuses.drop_first());
    }
}

/// A key collision is recoverable and never becomes the round's failure:
/// whatever the responses, a round that ends in a failure status carries
/// a status that is neither an acceptance nor a conflict.
pub proof fn lemma_conflict_never_surfaced(s: RelayAttempt, statuses: Seq<u16>, st: u16)
    requires
        s.outcome is None,
        spec_relay_run(s, statuses).outcome == Some(RelayOutcome::Failed(st)),
    ensures
        st != STATUS_OK,
        st != STATUS_CONFLICT,
        spec_classify(st) is Abort,
    decreases statuses.len(),
{
    let s2 = spec_on_response(s, statuses[0]).0;
    assert(spec_relay_run(s, statuses) == spec_relay_run(s2, statuses.drop_first()));
    if s2.outcome is Some {
        assert(spec_relay_run(s2, statuses.drop_first()) == s2);
    } else {
        lemma_conflict_never_surfaced(s2, statuses.drop_first(), st);
    }
}

/// The path of the registry's accept endpoint appended to its address.
pub fn forward_creds_url(receiver_addr: &str) -> (r: String)
    ensures
        r@ == receiver_addr@ + "/api/forward_creds"@,
{
    let mut s = String::from_str(receiver_addr);
    s.append("/api/forward_creds");
    s
}

} // verus!
