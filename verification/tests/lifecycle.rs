//! The task lifecycle: envelope classification, balance and creation
//! handling, polling, and solution decoding.

use capsolver::client::CapSolver;
use capsolver::error::Error;
use capsolver::json::{to_json_bytes, Decimal, JsonValue};
use capsolver::poll::PollDecision;
use capsolver::session::{handle_balance_response, handle_create_response, Config};
use capsolver::solutions::{
    AwsWafToken, CloudfareToken, DataDomeToken, GeeTestV3Token, GeeTestV4Token, HCaptchaToken,
    OnlyToken, ReCaptchaToken,
};

fn s(text: &str) -> JsonValue {
    JsonValue::Str(text.to_string())
}

fn num(n: i64) -> JsonValue {
    JsonValue::Num { units: n, scale: 0 }
}

fn obj(fields: Vec<(&str, JsonValue)>) -> JsonValue {
    JsonValue::Obj(fields.into_iter().map(|(k, v)| (k.to_string(), v)).collect())
}

fn remote_error() -> JsonValue {
    obj(vec![
        ("errorId", num(1)),
        ("errorCode", s("ERROR_X")),
        ("errorDescription", s("it failed")),
    ])
}

fn solver() -> CapSolver {
    CapSolver::new(Config::new("K", None, None))
}

#[test]
fn a_remote_error_surfaces_from_every_operation() {
    let env = remote_error();
    let expected = Error::Remote { code: "ERROR_X".to_string(), description: "it failed".to_string() };
    assert_eq!(handle_balance_response(&env).unwrap_err(), expected);
    assert_eq!(handle_create_response(&env).unwrap_err(), expected);
    let mut poller = solver().poller(None);
    match poller.on_response(&env) {
        PollDecision::Fail(e) => assert_eq!(e, expected),
        _ => panic!("a remote error must fail the poll at once"),
    }
    assert_eq!(poller.attempts, 0);
}

#[test]
fn polling_waits_twice_then_decodes_the_solution() {
    let sv = solver();
    let mut poller = sv.poller(None);
    let processing = obj(vec![("errorId", num(0)), ("status", s("processing"))]);
    let ready = obj(vec![
        ("errorId", num(0)),
        ("status", s("ready")),
        ("solution", obj(vec![("token", s("tok-123"))])),
    ]);

    let mut waits = 0u64;
    for _ in 0..2 {
        match poller.on_response(&processing) {
            PollDecision::Wait(ms) => {
                assert!(ms >= 3000, "each wait must cover the configured interval");
                waits += 1;
            },
            _ => panic!("a processing status must wait"),
        }
    }
    assert_eq!(waits, 2);
    assert_eq!(poller.attempts, 2);
    match poller.on_response(&ready) {
        PollDecision::Done(sol) => {
            let token = OnlyToken::from_json(&sol).unwrap();
            assert_eq!(token.token, "tok-123");
        },
        _ => panic!("a ready status must finish the poll"),
    }
}

#[test]
fn the_poll_budget_expires_into_a_timeout() {
    let sv = solver();
    let mut poller = sv.poller(Some(1));
    let processing = obj(vec![("errorId", num(0)), ("status", s("processing"))]);
    assert!(matches!(poller.on_response(&processing), PollDecision::Wait(3000)));
    match poller.on_response(&processing) {
        PollDecision::Fail(e) => assert_eq!(e, Error::Timeout),
        _ => panic!("an exhausted budget must time the poll out"),
    }
}

#[test]
fn malformed_envelopes_fail_as_decode_errors() {
    let sv = solver();
    let mut poller = sv.poller(None);
    let no_error_id = obj(vec![("status", s("processing"))]);
    assert!(matches!(poller.on_response(&no_error_id), PollDecision::Fail(Error::Decode)));
    let no_status = obj(vec![("errorId", num(0))]);
    assert!(matches!(poller.on_response(&no_status), PollDecision::Fail(Error::Decode)));
    let ready_without_solution = obj(vec![("errorId", num(0)), ("status", s("ready"))]);
    assert!(matches!(
        poller.on_response(&ready_without_solution),
        PollDecision::Fail(Error::Decode)
    ));
    let code_missing = obj(vec![("errorId", num(9))]);
    assert!(matches!(poller.on_response(&code_missing), PollDecision::Fail(Error::Decode)));
    assert_eq!(handle_create_response(&no_error_id).unwrap_err(), Error::Decode);
}

#[test]
fn a_created_task_hands_back_its_id() {
    let env = obj(vec![("errorId", num(0)), ("taskId", s("task-1")), ("status", s("idle"))]);
    assert_eq!(handle_create_response(&env).unwrap().task_id, "task-1");
    let missing = obj(vec![("errorId", num(0))]);
    assert_eq!(handle_create_response(&missing).unwrap_err(), Error::Decode);
}

#[test]
fn a_balance_response_decodes_funds_and_packages() {
    let env = obj(vec![
        ("errorId", num(0)),
        ("balance", JsonValue::Num { units: 105, scale: 1 }),
        ("packages", JsonValue::Arr(vec![s("a"), s("b")])),
    ]);
    let gb = handle_balance_response(&env).unwrap();
    assert_eq!(gb.balance, Decimal { units: 105, scale: 1 });
    assert_eq!(gb.packages, vec!["a".to_string(), "b".to_string()]);

    let bad = obj(vec![
        ("errorId", num(0)),
        ("balance", s("not a number")),
        ("packages", JsonValue::Arr(vec![])),
    ]);
    assert_eq!(handle_balance_response(&bad).unwrap_err(), Error::Decode);
    let bad_package = obj(vec![
        ("errorId", num(0)),
        ("balance", num(1)),
        ("packages", JsonValue::Arr(vec![num(3)])),
    ]);
    assert_eq!(handle_balance_response(&bad_package).unwrap_err(), Error::Decode);
}

#[test]
fn raw_task_documents_must_be_valid_json() {
    let sv = solver();
    let ok = sv.create_task("{\"clientKey\":\"K\",\"task\":{\"type\":\"T\"}}");
    assert_eq!(ok.unwrap(), "{\"clientKey\":\"K\",\"task\":{\"type\":\"T\"}}");
    assert_eq!(sv.create_task("{not json").unwrap_err(), Error::MalformedInput);
    assert_eq!(sv.create_task("").unwrap_err(), Error::MalformedInput);
}

#[test]
fn endpoints_join_the_base_with_one_slash() {
    let c = Config::new("K", None, None);
    assert_eq!(c.endpoint("createTask"), "https://api.capsolver.com/createTask");
    let c2 = Config::new("K", Some("https://example.test/"), Some(50));
    assert_eq!(c2.endpoint("getBalance"), "https://example.test/getBalance");
    assert_eq!(c2.interval, 50);
}

#[test]
fn solutions_round_trip_through_their_wire_shape() {
    let t = HCaptchaToken {
        user_agent: "ua".to_string(),
        expire_time: 99,
        timestamp: -3,
        captcha_key: "ck".to_string(),
        g_recaptcha_response: "resp".to_string(),
    };
    let doc = t.to_json();
    let back = HCaptchaToken::from_json(&doc).unwrap();
    assert_eq!(back.user_agent, "ua");
    assert_eq!(back.expire_time, 99);
    assert_eq!(back.timestamp, -3);
    assert_eq!(back.captcha_key, "ck");
    assert_eq!(back.g_recaptcha_response, "resp");
    let again = back.to_json();
    assert_eq!(to_json_bytes(&again), to_json_bytes(&doc));
}

#[test]
fn every_typed_solution_decodes_from_its_document() {
    let v3 = GeeTestV3Token::from_json(&obj(vec![("challenge", s("c")), ("validate", s("v"))]))
        .unwrap();
    assert_eq!((v3.challenge.as_str(), v3.validate.as_str()), ("c", "v"));
    assert!(GeeTestV3Token::from_json(&obj(vec![("challenge", s("c"))])).is_none());

    let v4 = GeeTestV4Token::from_json(&obj(vec![
        ("captchaId", s("1")),
        ("captchaOutput", s("2")),
        ("genTime", s("3")),
        ("lotNumber", s("4")),
        ("passToken", s("5")),
        ("riskType", s("6")),
    ]))
    .unwrap();
    let v4doc = v4.to_json();
    let v4b = GeeTestV4Token::from_json(&v4doc).unwrap();
    assert_eq!(v4b.pass_token, "5");

    let rc = ReCaptchaToken::from_json(&obj(vec![
        ("userAgent", s("ua")),
        ("expireTime", num(7)),
        ("gRecaptchaResponse", s("g")),
    ]))
    .unwrap();
    let rcb = ReCaptchaToken::from_json(&rc.to_json()).unwrap();
    assert_eq!((rcb.expire_time, rcb.g_recaptcha_response.as_str()), (7, "g"));

    let dd = DataDomeToken::from_json(&obj(vec![("userAgent", s("ua")), ("cookie", num(5))]))
        .unwrap();
    let ddb = DataDomeToken::from_json(&dd.to_json()).unwrap();
    assert_eq!(ddb.cookie, 5);

    let aw = AwsWafToken::from_json(&obj(vec![("cookie", s("aws"))])).unwrap();
    assert_eq!(aw.cookie, "aws");

    let cf = CloudfareToken::from_json(&obj(vec![
        ("token", s("t")),
        ("type", s("turnstile")),
        ("userAgent", s("ua")),
    ]))
    .unwrap();
    let cfb = CloudfareToken::from_json(&cf.to_json()).unwrap();
    assert_eq!((cfb.token.as_str(), cfb.kind.as_str()), ("t", "turnstile"));
}

#[test]
fn a_site_key_task_travels_the_whole_lifecycle() {
    let sv = solver();
    let task = sv
        .token()
        .mt_captcha("MtCaptchaTaskProxyLess", "https://x", "key1", None)
        .unwrap();
    let body = sv.submission_body(task);
    let sent = String::from_utf8(to_json_bytes(&body)).unwrap();
    assert_eq!(
        sent,
        "{\"clientKey\":\"K\",\"task\":{\"type\":\"MtCaptchaTaskProxyLess\",\"websiteURL\":\"https://x\",\"websiteKey\":\"key1\"}}"
    );

    let created = obj(vec![("errorId", num(0)), ("taskId", s("task-9"))]);
    let creation = handle_create_response(&created).unwrap();
    assert_eq!(creation.task_id, "task-9");

    let poll_body = sv.result_request_body(&creation.task_id);
    assert_eq!(
        String::from_utf8(to_json_bytes(&poll_body)).unwrap(),
        "{\"clientKey\":\"K\",\"taskId\":\"task-9\"}"
    );

    let mut poller = sv.poller(Some(10));
    let processing = obj(vec![("errorId", num(0)), ("status", s("processing"))]);
    assert!(matches!(poller.on_response(&processing), PollDecision::Wait(3000)));
    let ready = obj(vec![
        ("errorId", num(0)),
        ("status", s("ready")),
        ("solution", obj(vec![("token", s("final-token"))])),
    ]);
    match poller.on_response(&ready) {
        PollDecision::Done(sol) => {
            assert_eq!(OnlyToken::from_json(&sol).unwrap().token, "final-token");
        },
        _ => panic!("the solved task must hand its token back"),
    }
}

#[test]
fn the_balance_request_body_carries_only_the_key() {
    let sv = solver();
    let body = sv.balance_request_body();
    assert_eq!(String::from_utf8(to_json_bytes(&body)).unwrap(), "{\"clientKey\":\"K\"}");
}
