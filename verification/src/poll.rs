//! The polling state machine that waits for a task's solution.
//!
//! The library decides; the embedding application performs.  Each
//! response of the result endpoint is handed to [`Poller::on_response`],
//! which either finishes with a solution or an error, or instructs the
//! caller to wait one configured interval and ask again.

use vstd::prelude::*;
use crate::error::Error;
use crate::json::{lookup, JsonV, JsonValue};
use crate::session::{classify, env_str, EnvClass};

verus! {

/// What the caller must do next with a poll in flight.
pub enum PollDecision {
    /// The task is ready; here is its raw solution document.
    Done(JsonValue),
    /// The poll is over without a solution.
    Fail(Error),
    /// Sleep this many milliseconds, fetch the result again, and hand
    /// the response back.
    Wait(u64),
}

/// One task's poll in flight: the cadence, the attempt budget, and how
/// many waits have been spent.
pub struct Poller {
    pub interval_ms: u64,
    /// How many not-ready responses to tolerate before giving up;
    /// `None` polls without bound, as the service's own client does.
    pub max_attempts: Option<u64>,
    pub attempts: u64,
}

impl Poller {
    /// Whether the budget admits one more wait.
    pub open spec fn can_wait(&self) -> bool {
        match self.max_attempts {
            Some(m) => self.attempts < m,
            None => true,
        }
    }

    /// A fresh poll with nothing spent.
    pub fn new(interval_ms: u64, max_attempts: Option<u64>) -> (p: Poller)
        ensures
            p.interval_ms == interval_ms,
            p.max_attempts == max_attempts,
            p.attempts == 0,
    {
        Poller { interval_ms, max_attempts, attempts: 0 }
    }

    /// Advances the poll by one response of the result endpoint: a
    /// remote error or a malformed envelope fails it, a ready status
    /// finishes it with the solution, and anything else spends one
    /// wait of the budget.
    pub fn on_response(&mut self, v: &JsonValue) -> (d: PollDecision)
        requires
            old(self).attempts < u64::MAX,
        ensures
            match d {
                PollDecision::Done(sol) => {
                    &&& classify(v@) is Accepted
                    &&& env_str(v@, "status"@) == Some("ready"@)
                    &&& lookup(v@, "solution"@) == Some(sol@)
                    &&& *final(self) == *old(self)
                },
                PollDecision::Wait(ms) => {
                    &&& classify(v@) is Accepted
                    &&& env_str(v@, "status"@) matches Some(s) && s != "ready"@
                    &&& old(self).can_wait()
                    &&& ms == old(self).interval_ms
                    &&& final(self).interval_ms == old(self).interval_ms
                    &&& final(self).max_attempts == old(self).max_attempts
                    &&& final(self).attempts == old(self).attempts + 1
                },
                PollDecision::Fail(e) => *final(self) == *old(self) && match e {
                    Error::Remote { code, description } => classify(v@) == (EnvClass::RemoteErr {
                        code: code@,
                        description: description@,
                    }),
                    Error::Decode => classify(v@) is Malformed || (classify(v@) is Accepted && (
                    env_str(v@, "status"@) is None || (env_str(v@, "status"@) == Some("ready"@)
                        && lookup(v@, "solution"@) is None))),
                    Error::Timeout => {
                        &&& classify(v@) is Accepted
                        &&& env_str(v@, "status"@) matches Some(s) && s != "ready"@
                        &&& !old(self).can_wait()
                    },
                    _ => false,
                },
            },
    {
        match crate::session::envelope_check(v) {
            Ok(_) => {},
            Err(e) => {
                return PollDecision::Fail(e);
            },
        }
        let status = match v.get("status") {
            Some(f) => match f.as_str() {
                Some(s) => s,
                None => {
                    return PollDecision::Fail(Error::Decode);
                },
            },
            None => {
                return PollDecision::Fail(Error::Decode);
            },
        };
        if crate::json::str_eq(status.as_str(), "ready") {
            match v.get("solution") {
                Some(sol) => PollDecision::Done(sol.deep_clone()),
                None => PollDecision::Fail(Error::Decode),
            }
        } else {
            let within = match self.max_attempts {
                Some(m) => self.attempts < m,
                None => true,
            };
            if within {
                self.attempts = self.attempts + 1;
                PollDecision::Wait(self.interval_ms)
            } else {
                PollDecision::Fail(Error::Timeout)
            }
        }
    }
}

} // verus!
