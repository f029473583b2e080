//! The client facade: one value owning the configuration and the two
//! capability facades, with the request-side operations that need no
//! network.

use vstd::prelude::*;
use crate::error::Error;
use crate::json::{wf, JsonV, JsonValue};
use crate::poll::Poller;
use crate::recognition::Recognition;
use crate::session::{json_text_ok, Config};
use crate::task::{submission_doc, Task};
use crate::token::Token;

verus! {

/// A handle on the captcha-solving service.
pub struct CapSolver {
    pub config: Config,
    pub recognition: Recognition,
    pub token: Token,
}

impl CapSolver {
    /// A client whose facades share the given configuration.
    pub fn new(config: Config) -> (c: CapSolver)
        ensures
            c.config.api_key@ == config.api_key@,
            c.config.base_url@ == config.base_url@,
            c.config.interval == config.interval,
            c.recognition.config.api_key@ == config.api_key@,
            c.token.config.api_key@ == config.api_key@,
    {
        CapSolver {
            recognition: Recognition { config: config.duplicate() },
            token: Token { config: config.duplicate() },
            config,
        }
    }

    /// The recognition facade.
    pub fn recognition(&self) -> (r: &Recognition)
        ensures
            *r == self.recognition,
    {
        &self.recognition
    }

    /// The token facade.
    pub fn token(&self) -> (r: &Token)
        ensures
            *r == self.token,
    {
        &self.token
    }

    /// Admits a caller-built raw task document, returning it unchanged
    /// when it is valid JSON and `MalformedInput` when it is not.
    pub fn create_task(&self, body: &str) -> (r: Result<String, Error>)
        ensures
            r is Ok <==> json_text_ok(body@),
            match r {
                Ok(s) => s@ == body@,
                Err(e) => e is MalformedInput,
            },
    {
        crate::session::check_raw_task(body)
    }

    /// Frames a built task as the create-task request body.
    pub fn submission_body(&self, task: Task) -> (b: JsonValue)
        ensures
            b@ == submission_doc(self.config.api_key@, task.doc()),
            task.wf_task() ==> wf(b@),
    {
        crate::task::submission_body(&self.config, task)
    }

    /// The balance request body under this client's key.
    pub fn balance_request_body(&self) -> (b: JsonValue)
        ensures
            b@ == JsonV::Obj(seq![("clientKey"@, JsonV::Str(self.config.api_key@))]),
            wf(b@),
    {
        self.config.make_body()
    }

    /// The result request body for one task under this client's key.
    pub fn result_request_body(&self, task_id: &str) -> (b: JsonValue)
        ensures
            b@ == JsonV::Obj(
                seq![
                    ("clientKey"@, JsonV::Str(self.config.api_key@)),
                    ("taskId"@, JsonV::Str(task_id@)),
                ],
            ),
            wf(b@),
    {
        self.config.result_request_body(task_id)
    }

    /// A fresh poll at this client's cadence with the given budget.
    pub fn poller(&self, max_attempts: Option<u64>) -> (p: Poller)
        ensures
            p.interval_ms == self.config.interval,
            p.max_attempts == max_attempts,
            p.attempts == 0,
    {
        Poller::new(self.config.interval, max_attempts)
    }
}

} // verus!
