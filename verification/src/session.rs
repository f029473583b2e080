//! Session configuration, request framing, and the single choke point
//! that classifies every response envelope of the remote service.

use vstd::prelude::*;
use crate::error::Error;
use crate::json::{
    lookup, int_of, str_of, view_of_fields, view_of_list, wf, JsonV, JsonValue, Decimal,
    lemma_view_fields_index, lemma_wf_fields_intro,
};

verus! {

/// How to reach the service: key, base URL, and the polling cadence.
pub struct Config {
    pub api_key: String,
    pub base_url: String,
    /// Milliseconds between two polls for a task's result.
    pub interval: u64,
}

/// Where a response envelope falls: accepted, a remote error report,
/// or not shaped like an envelope at all.
pub enum EnvClass {
    Accepted,
    RemoteErr { code: Seq<char>, description: Seq<char> },
    Malformed,
}

/// The whole number under `k` in `v`, if any.
pub open spec fn env_int(v: JsonV, k: Seq<char>) -> Option<int> {
    match lookup(v, k) {
        Some(f) => int_of(f),
        None => None,
    }
}

/// The string under `k` in `v`, if any.
pub open spec fn env_str(v: JsonV, k: Seq<char>) -> Option<Seq<char>> {
    match lookup(v, k) {
        Some(f) => str_of(f),
        None => None,
    }
}

/// Classification of a response envelope: a whole-number `errorId` of
/// zero is acceptance; a nonzero one with both `errorCode` and
/// `errorDescription` strings is a remote error; anything else does
/// not have the promised envelope shape.
pub open spec fn classify(v: JsonV) -> EnvClass {
    match env_int(v, "errorId"@) {
        Some(n) => if n == 0 {
            EnvClass::Accepted
        } else {
            match (env_str(v, "errorCode"@), env_str(v, "errorDescription"@)) {
                (Some(c), Some(d)) => EnvClass::RemoteErr { code: c, description: d },
                _ => EnvClass::Malformed,
            }
        },
        None => EnvClass::Malformed,
    }
}

/// Base URL and endpoint path joined with exactly one slash between
/// them (when the base does not already end in one).
pub open spec fn join_url(base: Seq<char>, path: Seq<char>) -> Seq<char> {
    if base.len() > 0 && base[base.len() - 1] == '/' {
        base + path
    } else {
        base + seq!['/'] + path
    }
}

impl Config {
    /// A configuration with the given key, and the service's public
    /// URL and a three-second poll cadence where none are given.
    pub fn new(api_key: &str, api_url: Option<&str>, interval: Option<u64>) -> (c: Config)
        ensures
            c.api_key@ == api_key@,
            c.base_url@ == (match api_url {
                Some(u) => u@,
                None => "https://api.capsolver.com"@,
            }),
            c.interval == (match interval {
                Some(i) => i,
                None => 3000u64,
            }),
    {
        let base = match api_url {
            Some(u) => u.to_owned(),
            None => "https://api.capsolver.com".to_owned(),
        };
        let ms = match interval {
            Some(i) => i,
            None => 3000,
        };
        Config { api_key: api_key.to_owned(), base_url: base, interval: ms }
    }

    /// A field-for-field copy of this configuration.
    pub fn duplicate(&self) -> (c: Config)
        ensures
            c.api_key@ == self.api_key@,
            c.base_url@ == self.base_url@,
            c.interval == self.interval,
    {
        Config {
            api_key: self.api_key.clone(),
            base_url: self.base_url.clone(),
            interval: self.interval,
        }
    }

    /// URL of one endpoint under this configuration's base.
    pub fn endpoint(&self, path: &str) -> (r: String)
        ensures
            r@ == join_url(self.base_url@, path@),
    {
        let n = self.base_url.as_str().unicode_len();
        let mut r = String::new();
        r.append(self.base_url.as_str());
        if n == 0 || self.base_url.as_str().get_char(n - 1) != '/' {
            r.append("/");
            proof {
                reveal_strlit("/");
                assert(r@ =~= self.base_url@ + seq!['/']);
            }
        }
        r.append(path);
        proof {
            reveal_strlit("/");
        }
        r
    }

    /// The bare request body `{"clientKey": <key>}` that the balance
    /// endpoint takes.
    pub fn make_body(&self) -> (b: JsonValue)
        ensures
            b@ == JsonV::Obj(seq![("clientKey"@, JsonV::Str(self.api_key@))]),
            wf(b@),
    {
        let mut fs: Vec<(String, JsonValue)> = Vec::new();
        fs.push((String::from_str("clientKey"), JsonValue::Str(self.api_key.clone())));
        proof {
            lemma_view_fields_index(fs@);
            assert(view_of_fields(fs@) =~= seq![("clientKey"@, JsonV::Str(self.api_key@))]);
            lemma_wf_fields_intro(view_of_fields(fs@));
        }
        JsonValue::Obj(fs)
    }

    /// The request body `{"clientKey": <key>, "taskId": <id>}` that the
    /// result endpoint takes.
    pub fn result_request_body(&self, task_id: &str) -> (b: JsonValue)
        ensures
            b@ == JsonV::Obj(
                seq![
                    ("clientKey"@, JsonV::Str(self.api_key@)),
                    ("taskId"@, JsonV::Str(task_id@)),
                ],
            ),
            wf(b@),
    {
        let mut fs: Vec<(String, JsonValue)> = Vec::new();
        fs.push((String::from_str("clientKey"), JsonValue::Str(self.api_key.clone())));
        fs.push((String::from_str("taskId"), JsonValue::Str(task_id.to_owned())));
        proof {
            lemma_view_fields_index(fs@);
            assert(view_of_fields(fs@) =~= seq![
                ("clientKey"@, JsonV::Str(self.api_key@)),
                ("taskId"@, JsonV::Str(task_id@)),
            ]);
            lemma_wf_fields_intro(view_of_fields(fs@));
        }
        JsonValue::Obj(fs)
    }
}

/// Classifies a response envelope, the one place remote errors are
/// told apart from malformed responses.
pub fn envelope_check(v: &JsonValue) -> (r: Result<(), Error>)
    ensures
        r is Ok <==> classify(v@) is Accepted,
        match r {
            Ok(_) => classify(v@) is Accepted,
            Err(e) => match e {
                Error::Remote { code, description } => classify(v@) == (EnvClass::RemoteErr {
                    code: code@,
                    description: description@,
                }),
                Error::Decode => classify(v@) is Malformed,
                _ => false,
            },
        },
{
    let n = match v.get("errorId") {
        Some(f) => match f.as_int() {
            Some(n) => n,
            None => {
                return Err(Error::Decode);
            },
        },
        None => {
            return Err(Error::Decode);
        },
    };
    if n == 0 {
        return Ok(());
    }
    let code = match v.get("errorCode") {
        Some(f) => match f.as_str() {
            Some(s) => s.clone(),
            None => {
                return Err(Error::Decode);
            },
        },
        None => {
            return Err(Error::Decode);
        },
    };
    let description = match v.get("errorDescription") {
        Some(f) => match f.as_str() {
            Some(s) => s.clone(),
            None => {
                return Err(Error::Decode);
            },
        },
        None => {
            return Err(Error::Decode);
        },
    };
    Err(Error::Remote { code, description })
}

/// A created task, as the service acknowledges it.
#[derive(Debug)]
pub struct TaskCreation {
    pub task_id: String,
}

/// Reads a create-task response: acceptance plus a string `taskId`.
pub fn handle_create_response(v: &JsonValue) -> (r: Result<TaskCreation, Error>)
    ensures
        match r {
            Ok(tc) => classify(v@) is Accepted && env_str(v@, "taskId"@) == Some(tc.task_id@),
            Err(e) => match e {
                Error::Remote { code, description } => classify(v@) == (EnvClass::RemoteErr {
                    code: code@,
                    description: description@,
                }),
                Error::Decode => classify(v@) is Malformed || (classify(v@) is Accepted
                    && env_str(v@, "taskId"@) is None),
                _ => false,
            },
        },
{
    match envelope_check(v) {
        Ok(_) => {},
        Err(e) => {
            return Err(e);
        },
    }
    match v.get("taskId") {
        Some(f) => match f.as_str() {
            Some(s) => Ok(TaskCreation { task_id: s.clone() }),
            None => Err(Error::Decode),
        },
        None => Err(Error::Decode),
    }
}

/// The account's standing: funds and package subscriptions.
#[derive(Debug)]
pub struct GetBalance {
    /// The balance as the service reported it, kept as an exact
    /// decimal.
    pub balance: Decimal,
    pub packages: Vec<String>,
}

/// The strings of a list, if every member is a string.
pub open spec fn strs_of(els: Seq<JsonV>) -> Option<Seq<Seq<char>>>
    decreases els,
{
    if els.len() == 0 {
        Some(Seq::empty())
    } else {
        match (str_of(els[0]), strs_of(els.drop_first())) {
            (Some(s), Some(rest)) => Some(seq![s] + rest),
            _ => None,
        }
    }
}

/// The character sequences of a list of strings.
pub open spec fn strings_view(ss: Seq<String>) -> Seq<Seq<char>> {
    Seq::new(ss.len(), |i: int| ss[i]@)
}

/// Whether an accepted balance envelope has its payload: a numeric
/// `balance` and an all-string `packages` array.
pub open spec fn balance_shape_ok(v: JsonV) -> bool {
    &&& lookup(v, "balance"@) matches Some(b) && b is Num
    &&& lookup(v, "packages"@) matches Some(JsonV::Arr(els)) && strs_of(els) is Some
}

fn strings_from(els: &Vec<JsonValue>, i: usize) -> (r: Option<Vec<String>>)
    requires
        i <= els@.len(),
    ensures
        match r {
            Some(ss) => strs_of(view_of_list(els@).skip(i as int)) == Some(strings_view(ss@)),
            None => strs_of(view_of_list(els@).skip(i as int)) is None,
        },
    decreases els@.len() - i,
{
    let n = els.len();
    proof {
        crate::json::lemma_view_list_index(els@);
    }
    let ghost rest = view_of_list(els@).skip(i as int);
    if i == n {
        proof {
            assert(rest =~= Seq::<JsonV>::empty());
            assert(strings_view(Seq::<String>::empty()) =~= Seq::<Seq<char>>::empty());
        }
        Some(Vec::new())
    } else {
        proof {
            assert(rest[0] == view_of_list(els@)[i as int]);
            assert(rest.drop_first() =~= view_of_list(els@).skip(i + 1));
        }
        let s = match els[i].as_str() {
            Some(s) => s.clone(),
            None => {
                return None;
            },
        };
        match strings_from(els, i + 1) {
            Some(mut ss) => {
                ss.insert(0, s);
                proof {
                    assert(strings_view(ss@) =~= seq![s@] + strings_view(ss@.drop_first()));
                }
                Some(ss)
            },
            None => None,
        }
    }
}

/// Reads a balance response: acceptance plus the funds and packages.
pub fn handle_balance_response(v: &JsonValue) -> (r: Result<GetBalance, Error>)
    ensures
        match r {
            Ok(gb) => {
                &&& classify(v@) is Accepted
                &&& lookup(v@, "balance"@) == Some(
                    JsonV::Num { units: gb.balance.units as int, scale: gb.balance.scale as nat },
                )
                &&& lookup(v@, "packages"@) matches Some(JsonV::Arr(els)) && strs_of(els)
                    == Some(strings_view(gb.packages@))
            },
            Err(e) => match e {
                Error::Remote { code, description } => classify(v@) == (EnvClass::RemoteErr {
                    code: code@,
                    description: description@,
                }),
                Error::Decode => classify(v@) is Malformed || (classify(v@) is Accepted
                    && !balance_shape_ok(v@)),
                _ => false,
            },
        },
{
    match envelope_check(v) {
        Ok(_) => {},
        Err(e) => {
            return Err(e);
        },
    }
    let balance = match v.get("balance") {
        Some(f) => match f.as_num() {
            Some(d) => d,
            None => {
                return Err(Error::Decode);
            },
        },
        None => {
            return Err(Error::Decode);
        },
    };
    match v.get("packages") {
        Some(f) => match f.as_arr() {
            Some(els) => {
                proof {
                    assert(view_of_list(els@).skip(0) =~= view_of_list(els@));
                }
                match strings_from(els, 0) {
                    Some(packages) => Ok(GetBalance { balance, packages }),
                    None => Err(Error::Decode),
                }
            },
            None => Err(Error::Decode),
        },
        None => Err(Error::Decode),
    }
}

/// Whether a character sequence is a valid JSON document.  What the
/// grammar accepts is fixed by the parser relied upon below.
pub uninterp spec fn json_text_ok(s: Seq<char>) -> bool;

/// Relies on `serde_json::from_str::<serde_json::Value>`: whether a
/// text parses as JSON depends on its characters alone.
#[verifier::external_body]
fn parse_ok(s: &str) -> (r: bool)
    ensures
        r == json_text_ok(s@),
{
    serde_json::from_str::<serde_json::Value>(s).is_ok()
}

/// Admits a caller-built raw task document, returning it unchanged
/// when it is valid JSON and `MalformedInput` when it is not.  This
/// deliberately bypasses the typed payload builders.
pub fn check_raw_task(body: &str) -> (r: Result<String, Error>)
    ensures
        r is Ok <==> json_text_ok(body@),
        match r {
            Ok(s) => s@ == body@,
            Err(e) => e is MalformedInput,
        },
{
    if parse_ok(body) {
        Ok(body.to_owned())
    } else {
        Err(Error::MalformedInput)
    }
}

} // verus!
