use crate::error::RoboatError;
use vstd::prelude::*;

verus! {

/// Where a state-mutating call stands in the refresh-once protocol.
#[derive(Clone, Copy, Debug, PartialEq, Eq)]
pub enum RetryPhase {
    /// Nothing sent yet.
    Idle,
    /// The first request is out.
    Attempted,
    /// The token was refreshed; the second request is due, or out.
    RefreshedRetried,
    /// An outcome was handed to the caller.
    Done,
}

/// The decisions of the refresh-once protocol for one logical call: send,
/// and on a stale token store the fresh one and send exactly once more.
#[derive(Clone, Copy, Debug)]
pub struct AuthRetry {
    pub phase: RetryPhase,
    /// Requests sent so far.
    pub attempts: u8,
}

/// What the caller does after an outcome has been fed to the protocol.
pub enum RetryStep<T> {
    /// Send the same request again, with the token now in the session.
    Retry,
    /// Hand this outcome to the caller.
    Finish(Result<T, RoboatError>),
}

/// The outcome asks for a retry with a fresh token.
pub open spec fn is_stale<T>(outcome: Result<T, RoboatError>) -> bool {
    outcome matches Err(RoboatError::InvalidXcsrf(_))
}

/// The session token after an outcome of the request sent from `m`.
pub open spec fn spec_token_after<T>(
    token: String,
    m: AuthRetry,
    outcome: Result<T, RoboatError>,
) -> String {
    match outcome {
        Err(RoboatError::InvalidXcsrf(fresh)) => if m.phase is Attempted {
            fresh
        } else {
            token
        },
        _ => token,
    }
}

impl AuthRetry {
    /// The phase and the count of requests sent agree.
    pub open spec fn wf(self) -> bool {
        match self.phase {
            RetryPhase::Idle => self.attempts == 0,
            RetryPhase::Attempted => self.attempts == 1,
            RetryPhase::RefreshedRetried => self.attempts == 1 || self.attempts == 2,
            RetryPhase::Done => self.attempts == 1 || self.attempts == 2,
        }
    }

    /// A request is due.
    pub open spec fn spec_ready_to_send(self) -> bool {
        ||| self.phase is Idle
        ||| (self.phase is RefreshedRetried && self.attempts == 1)
    }

    /// A request is out and its outcome is awaited.
    pub open spec fn awaiting_outcome(self) -> bool {
        ||| self.phase is Attempted
        ||| (self.phase is RefreshedRetried && self.attempts == 2)
    }

    /// The state once a due request is sent.
    pub open spec fn spec_begin(self) -> AuthRetry {
        if self.phase is Idle {
            AuthRetry { phase: RetryPhase::Attempted, attempts: 1 }
        } else {
            AuthRetry { phase: self.phase, attempts: 2 }
        }
    }

    /// The state after the outcome of the request that is out.
    pub open spec fn spec_after(self, stale: bool) -> AuthRetry {
        if self.phase is Attempted && stale {
            AuthRetry { phase: RetryPhase::RefreshedRetried, attempts: 1 }
        } else {
            AuthRetry { phase: RetryPhase::Done, attempts: self.attempts }
        }
    }

    /// The step taken on the outcome of the request that is out.
    pub open spec fn spec_step<T>(self, outcome: Result<T, RoboatError>) -> RetryStep<T> {
        if self.phase is Attempted && is_stale(outcome) {
            RetryStep::Retry
        } else {
            RetryStep::Finish(outcome)
        }
    }

    /// A fresh protocol run: nothing sent.
    pub fn new() -> (r: AuthRetry)
        ensures
            r.phase is Idle,
            r.attempts == 0,
            r.wf(),
    {
        AuthRetry { phase: RetryPhase::Idle, attempts: 0 }
    }

    /// Whether a request is due now.
    pub fn ready_to_send(&self) -> (r: bool)
        ensures
            r == self.spec_ready_to_send(),
    {
        match self.phase {
            RetryPhase::Idle => true,
            RetryPhase::RefreshedRetried => self.attempts == 1,
            _ => false,
        }
    }

    /// Records that the due request is being sent.
    pub fn begin_attempt(&mut self)
        requires
            old(self).wf(),
            old(self).spec_ready_to_send(),
        ensures
            *final(self) == old(self).spec_begin(),
            final(self).wf(),
            final(self).awaiting_outcome(),
            final(self).attempts == old(self).attempts + 1,
    {
        match self.phase {
            RetryPhase::Idle => {
                self.phase = RetryPhase::Attempted;
                self.attempts = 1;
            },
            _ => {
                self.attempts = 2;
            },
        }
    }

    /// Takes the outcome of the request that is out. On the first stale token
    /// the fresh one overwrites `token` and a retry is asked for; every other
    /// outcome, a second stale token included, is handed back unchanged.
    pub fn on_outcome<T>(&mut self, outcome: Result<T, RoboatError>, token: &mut String) -> (r:
        RetryStep<T>)
        requires
            old(self).wf(),
            old(self).awaiting_outcome(),
        ensures
            *final(self) == old(self).spec_after(is_stale(outcome)),
            r == old(self).spec_step(outcome),
            *final(token) == spec_token_after(*old(token), *old(self), outcome),
            final(self).wf(),
    {
        let first = match self.phase {
            RetryPhase::Attempted => true,
            _ => false,
        };
        match outcome {
            Err(RoboatError::InvalidXcsrf(fresh)) => {
                if first {
                    *token = fresh;
                    self.phase = RetryPhase::RefreshedRetried;
                    RetryStep::Retry
                } else {
                    self.phase = RetryPhase::Done;
                    RetryStep::Finish(Err(RoboatError::InvalidXcsrf(fresh)))
                }
            },
            other => {
                self.phase = RetryPhase::Done;
                RetryStep::Finish(other)
            },
        }
    }
}

/// The protocol run against the outcomes of successive requests: the state it
/// ends in, the session token, and the outcome handed to the caller, if the
/// outcomes sufficed to reach one.
pub open spec fn drive<T>(
    m: AuthRetry,
    token: String,
    outcomes: Seq<Result<T, RoboatError>>,
) -> (AuthRetry, String, Option<Result<T, RoboatError>>)
    decreases outcomes.len(),
{
    if m.spec_ready_to_send() && outcomes.len() > 0 {
        let sent = m.spec_begin();
        let o = outcomes[0];
        let next = sent.spec_after(is_stale(o));
        let next_token = spec_token_after(token, sent, o);
        match sent.spec_step(o) {
            RetryStep::Finish(result) => (next, next_token, Some(result)),
            RetryStep::Retry => drive(next, next_token, outcomes.drop_first()),
        }
    } else {
        (m, token, None)
    }
}

/// Whatever the remote service answers, one logical call sends at most two
/// requests, and it reaches an outcome once two answers are at hand.
pub proof fn lemma_at_most_two_attempts<T>(token: String, outcomes: Seq<Result<T, RoboatError>>)
    ensures
        drive(AuthRetry { phase: RetryPhase::Idle, attempts: 0 }, token, outcomes).0.attempts
            <= 2,
        outcomes.len() >= 2 ==> drive(
            AuthRetry { phase: RetryPhase::Idle, attempts: 0 },
            token,
            outcomes,
        ).2 is Some,
{
    reveal_with_fuel(drive, 3);
}

/// Two stale-token answers in a row: exactly two requests are sent, the second
/// stale token is handed to the caller, and no third request follows.
pub proof fn lemma_second_stale_token_is_surfaced<T>(
    token: String,
    first: String,
    second: String,
    rest: Seq<Result<T, RoboatError>>,
)
    ensures
        ({
            let outcomes = seq![
                Err(RoboatError::InvalidXcsrf(first)),
                Err(RoboatError::InvalidXcsrf(second)),
            ] + rest;
            let (m, t, result) = drive(
                AuthRetry { phase: RetryPhase::Idle, attempts: 0 },
                token,
                outcomes,
            );
            &&& m.attempts == 2
            &&& m.phase is Done
            &&& t == first
            &&& result == Some(Err::<T, RoboatError>(RoboatError::InvalidXcsrf(second)))
        }),
{
    let outcomes = seq![
        Err::<T, RoboatError>(RoboatError::InvalidXcsrf(first)),
        Err::<T, RoboatError>(RoboatError::InvalidXcsrf(second)),
    ] + rest;
    assert(outcomes.drop_first()[0] == Err::<T, RoboatError>(RoboatError::InvalidXcsrf(second)));
    reveal_with_fuel(drive, 3);
}

/// A stale-token answer and then a success: exactly two requests are sent and
/// the success is handed to the caller, after the token was refreshed.
pub proof fn lemma_stale_then_success<T>(
    token: String,
    fresh: String,
    value: T,
    rest: Seq<Result<T, RoboatError>>,
)
    ensures
        ({
            let outcomes = seq![Err(RoboatError::InvalidXcsrf(fresh)), Ok(value)] + rest;
            let (m, t, result) = drive(
                AuthRetry { phase: RetryPhase::Idle, attempts: 0 },
                token,
                outcomes,
            );
            &&& m.attempts == 2
            &&& m.phase is Done
            &&& t == fresh
            &&& result == Some(Ok::<T, RoboatError>(value))
        }),
{
    let outcomes = seq![Err::<T, RoboatError>(RoboatError::InvalidXcsrf(fresh)), Ok(value)] + rest;
    assert(outcomes.drop_first()[0] == Ok::<T, RoboatError>(value));
    reveal_with_fuel(drive, 3);
}

} // verus!
