//! Graceful shutdown of a playback child process by signal escalation.
//!
//! The player is first asked to stop with a user-defined signal, then
//! with the standard termination signal, each followed by a bounded wait;
//! if both are ignored an unconditional kill ends the escalation.  The
//! stages are never skipped and the sequence always resolves.
//!
//! Sending signals and waiting for the process are the caller's job; the
//! `Escalator` decides, from each wait's outcome, which signal comes next
//! and which stage finally succeeded.

use vstd::prelude::*;

verus! {

/// How long, in seconds, each of the two bounded waits lasts.
pub const WAIT_TIMEOUT_SECS: u64 = 1;

/// The signals of the escalation sequence, in order.
#[derive(Clone, Copy, Debug, PartialEq, Eq, Structural)]
pub enum ShutdownSignal {
    /// The user-defined "please stop" signal.
    Usr1,
    /// The standard termination signal.
    Term,
    /// The unconditional kill signal.
    Kill,
}

/// Which stage of the escalation made the process go away.
#[derive(Clone, Copy, Debug, PartialEq, Eq, Structural)]
pub enum HowKilled {
    Usr1,
    Term,
    Kill,
}

/// The stages of one escalation.
#[derive(Clone, Copy, Debug, PartialEq, Eq, Structural)]
pub enum EscalationStage {
    /// Shutdown was requested; no signal has been sent yet.
    Requested,
    /// The first signal is out; waiting up to the timeout for an exit.
    WaitingUsr1,
    /// The termination signal is out; waiting a second time.
    WaitingTerm,
    /// The kill signal is out.  Terminal and assumed to succeed.
    Killed,
    /// The process was reaped during one of the waits.
    Exited,
    /// A signal could not be sent; the escalation ends unresolved and the
    /// failure is surfaced to the caller.
    Failed,
}

/// How one bounded wait resolved: the process was reaped first, or the
/// timeout elapsed first.
#[derive(Clone, Copy, Debug, PartialEq, Eq, Structural)]
pub enum WaitOutcome {
    Exited,
    TimedOut,
}

/// What the caller must do next.
#[derive(Clone, Copy, Debug, PartialEq, Eq, Structural)]
pub enum EscalatorAction {
    /// Send this signal, then race a bounded wait against the process
    /// exit and report the outcome back.
    SendThenWait(ShutdownSignal),
    /// Send this signal; the escalation is over, with no further wait.
    SendLast(ShutdownSignal),
    /// Nothing more to send; the escalation is over.
    Done(HowKilled),
}

/// One escalation: the current stage and, once resolved, which stage
/// succeeded.
#[derive(Clone, Copy, Debug, PartialEq, Eq, Structural)]
pub struct Escalator {
    pub stage: EscalationStage,
    pub result: Option<HowKilled>,
}

/// The transition one wait outcome causes, together with what to do next.
pub open spec fn spec_on_wait(e: Escalator, outcome: WaitOutcome) -> (Escalator, EscalatorAction) {
    match (e.stage, outcome) {
        (EscalationStage::WaitingUsr1, WaitOutcome::Exited) => (
            Escalator { stage: EscalationStage::Exited, result: Some(HowKilled::Usr1) },
            EscalatorAction::Done(HowKilled::Usr1),
        ),
        (EscalationStage::WaitingUsr1, WaitOutcome::TimedOut) => (
            Escalator { stage: EscalationStage::WaitingTerm, result: None },
            EscalatorAction::SendThenWait(ShutdownSignal::Term),
        ),
        (EscalationStage::WaitingTerm, WaitOutcome::Exited) => (
            Escalator { stage: EscalationStage::Exited, result: Some(HowKilled::Term) },
            EscalatorAction::Done(HowKilled::Term),
        ),
        (EscalationStage::WaitingTerm, WaitOutcome::TimedOut) => (
            Escalator { stage: EscalationStage::Killed, result: Some(HowKilled::Kill) },
            EscalatorAction::SendLast(ShutdownSignal::Kill),
        ),
        _ => (e, EscalatorAction::Done(HowKilled::Kill)),
    }
}

impl Escalator {
    /// A requested shutdown: nothing has been sent yet.
    pub fn new() -> (e: Self)
        ensures
            e.stage is Requested,
            e.result is None,
    {
        Escalator { stage: EscalationStage::Requested, result: None }
    }

    /// Open the escalation: the first, user-defined stop signal goes out
    /// and the first bounded wait starts.
    pub fn begin(&mut self) -> (a: EscalatorAction)
        requires
            old(self).stage is Requested,
        ensures
            final(self).stage is WaitingUsr1,
            final(self).result is None,
            a == EscalatorAction::SendThenWait(ShutdownSignal::Usr1),
    {
        self.stage = EscalationStage::WaitingUsr1;
        self.result = None;
        EscalatorAction::SendThenWait(ShutdownSignal::Usr1)
    }

    /// Feed the outcome of the latest wait to the machine.  An exit ends
    /// the escalation at the current stage; a timeout escalates to the
    /// next signal, the last of which is the unconditional kill.
    pub fn on_wait(&mut self, outcome: WaitOutcome) -> (a: EscalatorAction)
        requires
            old(self).stage is WaitingUsr1 || old(self).stage is WaitingTerm,
            old(self).result is None,
        ensures
            (*final(self), a) == spec_on_wait(*old(self), outcome),
            final(self).result is Some <==> (a is Done || a is SendLast),
    {
        match (self.stage, outcome) {
            (EscalationStage::WaitingUsr1, WaitOutcome::Exited) => {
                self.stage = EscalationStage::Exited;
                self.result = Some(HowKilled::Usr1);
                EscalatorAction::Done(HowKilled::Usr1)
            },
            (EscalationStage::WaitingUsr1, WaitOutcome::TimedOut) => {
                self.stage = EscalationStage::WaitingTerm;
                EscalatorAction::SendThenWait(ShutdownSignal::Term)
            },
            (EscalationStage::WaitingTerm, WaitOutcome::Exited) => {
                self.stage = EscalationStage::Exited;
                self.result = Some(HowKilled::Term);
                EscalatorAction::Done(HowKilled::Term)
            },
            _ => {
                self.stage = EscalationStage::Killed;
                self.result = Some(HowKilled::Kill);
                EscalatorAction::SendLast(ShutdownSignal::Kill)
            },
        }
    }

    /// A signal the machine asked for could not be sent.  The escalation
    /// ends with no stage reported; the caller surfaces the error.
    pub fn on_send_failure(&mut self)
        requires
            old(self).stage is WaitingUsr1 || old(self).stage is WaitingTerm || old(
                self,
            ).stage is Killed,
        ensures
            final(self).stage is Failed,
            final(self).result is None,
    {
        self.stage = EscalationStage::Failed;
        self.result = None;
    }
}

/// The signals an action makes the caller send.
pub open spec fn spec_action_signals(a: EscalatorAction) -> Seq<ShutdownSignal> {
    match a {
        EscalatorAction::SendThenWait(sig) => seq![sig],
        EscalatorAction::SendLast(sig) => seq![sig],
        EscalatorAction::Done(_) => Seq::empty(),
    }
}

/// The machine run over a sequence of wait outcomes, starting from the
/// state `begin` leaves behind, together with every signal sent after the
/// opening one.  The run stops as soon as the escalation resolves.
pub open spec fn spec_escalation_run(e: Escalator, outcomes: Seq<WaitOutcome>) -> (
    Escalator,
    Seq<ShutdownSignal>,
)
    decreases outcomes.len(),
{
    if outcomes.len() == 0 || e.result is Some {
        (e, Seq::empty())
    } else {
        let (e2, a) = spec_on_wait(e, outcomes[0]);
        let (e3, rest) = spec_escalation_run(e2, outcomes.drop_first());
        (e3, spec_action_signals(a) + rest)
    }
}

/// The state right after `begin`: the first signal is out.
pub open spec fn spec_after_begin() -> Escalator {
    Escalator { stage: EscalationStage::WaitingUsr1, result: None }
}

/// A process that dies within the first wait ends the escalation at the
/// first stage: the result says the stop signal sufficed and no further
/// signal — in particular not the termination signal — is ever sent.
pub proof fn lemma_dies_on_first_signal(outcomes: Seq<WaitOutcome>)
    requires
        outcomes.len() >= 1,
        outcomes[0] is Exited,
    ensures
        spec_escalation_run(spec_after_begin(), outcomes).0.result == Some(HowKilled::Usr1),
        spec_escalation_run(spec_after_begin(), outcomes).0.stage is Exited,
        spec_escalation_run(spec_after_begin(), outcomes).1 =~= Seq::<ShutdownSignal>::empty(),
{
    let (e2, a) = spec_on_wait(spec_after_begin(), outcomes[0]);
    assert(spec_escalation_run(e2, outcomes.drop_first()) == (e2, Seq::<ShutdownSignal>::empty()));
}

/// A process that ignores the first two signals is killed: the result
/// reports the kill stage, and the signals go out in exact order — the
/// stop signal, the termination signal, then the kill — skipping none.
pub proof fn lemma_killed_after_two_timeouts(outcomes: Seq<WaitOutcome>)
    requires
        outcomes.len() >= 2,
        outcomes[0] is TimedOut,
        outcomes[1] is TimedOut,
    ensures
        spec_escalation_run(spec_after_begin(), outcomes).0.result == Some(HowKilled::Kill),
        spec_escalation_run(spec_after_begin(), outcomes).0.stage is Killed,
        seq![ShutdownSignal::Usr1] + spec_escalation_run(spec_after_begin(), outcomes).1
            =~= seq![ShutdownSignal::Usr1, ShutdownSignal::Term, ShutdownSignal::Kill],
{
    let e1 = spec_after_begin();
    let (e2, a1) = spec_on_wait(e1, outcomes[0]);
    let rest1 = outcomes.drop_first();
    assert(spec_escalation_run(e1, outcomes).1 == spec_action_signals(a1)
        + spec_escalation_run(e2, rest1).1);
    let (e3, a2) = spec_on_wait(e2, rest1[0]);
    let rest2 = rest1.drop_first();
    assert(rest1[0] == outcomes[1]);
    assert(spec_escalation_run(e2, rest1).1 == spec_action_signals(a2)
        + spec_escalation_run(e3, rest2).1);
    assert(spec_escalation_run(e3, rest2) == (e3, Seq::<ShutdownSignal>::empty()));
    assert(spec_escalation_run(e1, outcomes).0 == e3);
}

} // verus!
