//! The payload builders: kind validation, score bounds, and the
//! omission of unsupplied optionals.

use capsolver::client::CapSolver;
use capsolver::error::Error;
use capsolver::json::to_json_bytes;
use capsolver::session::Config;

fn solver() -> CapSolver {
    CapSolver::new(Config::new("K", None, None))
}

fn task_text(task: capsolver::task::Task) -> String {
    let solver = solver();
    let body = solver.submission_body(task);
    String::from_utf8(to_json_bytes(&body)).unwrap()
}

#[test]
fn unknown_kind_is_rejected_by_every_family() {
    let sv = solver();
    let t = sv.token();
    assert_eq!(
        t.h_captcha("NoSuchTask", "https://x", "k", None, None, None, None).unwrap_err(),
        Error::UnsupportedKind
    );
    assert_eq!(
        t.gee_test("NoSuchTask", "https://x", None, None, None, None, None).unwrap_err(),
        Error::UnsupportedKind
    );
    assert_eq!(
        t.re_captcha_v2(
            "NoSuchTask",
            "https://x",
            "k",
            None,
            None,
            None,
            None,
            None,
            None,
            None,
            None,
            None
        )
        .unwrap_err(),
        Error::UnsupportedKind
    );
    assert_eq!(
        t.re_captcha_v3(
            "NoSuchTask",
            "https://x",
            "k",
            None,
            None,
            "act".to_string(),
            None,
            None,
            None,
            None,
            None,
            None
        )
        .unwrap_err(),
        Error::UnsupportedKind
    );
    assert_eq!(
        t.mt_captcha("NoSuchTask", "https://x", "k", None).unwrap_err(),
        Error::UnsupportedKind
    );
    assert_eq!(t.aws_waf("NoSuchTask", "https://x", None).unwrap_err(), Error::UnsupportedKind);
    assert_eq!(
        t.cyber_si_ara("NoSuchTask", "id", "https://x", "ua", None).unwrap_err(),
        Error::UnsupportedKind
    );
}

#[test]
fn a_kind_of_another_family_is_rejected_too() {
    let sv = solver();
    let t = sv.token();
    assert_eq!(
        t.mt_captcha("HCaptchaTask", "https://x", "k", None).unwrap_err(),
        Error::UnsupportedKind
    );
    assert_eq!(
        t.h_captcha("MtCaptchaTask", "https://x", "k", None, None, None, None).unwrap_err(),
        Error::UnsupportedKind
    );
}

#[test]
fn every_listed_kind_is_accepted() {
    let sv = solver();
    let t = sv.token();
    for k in ["HCaptchaTask", "HCaptchaTaskProxyLess", "HCaptchaTurboTask"] {
        assert!(t.h_captcha(k, "https://x", "k", None, None, None, None).is_ok());
    }
    for k in ["GeeTestTask", "GeeTestTaskProxyLess"] {
        assert!(t.gee_test(k, "https://x", None, None, None, None, None).is_ok());
    }
    for k in ["ReCaptchaV2Task", "ReCaptchaV2TaskProxyLess"] {
        assert!(t
            .re_captcha_v2(k, "https://x", "k", None, None, None, None, None, None, None, None, None)
            .is_ok());
    }
    for k in ["ReCaptchaV3Task", "ReCaptchaV3TaskProxyLess"] {
        assert!(t
            .re_captcha_v3(
                k,
                "https://x",
                "k",
                None,
                None,
                "act".to_string(),
                None,
                None,
                None,
                None,
                None,
                None
            )
            .is_ok());
    }
    for k in ["MtCaptchaTask", "MtCaptchaTaskProxyLess"] {
        assert!(t.mt_captcha(k, "https://x", "k", None).is_ok());
    }
    for k in ["AwsWafTask", "AwsWafTaskProxyLess"] {
        assert!(t.aws_waf(k, "https://x", None).is_ok());
        assert!(t.cyber_si_ara(k, "id", "https://x", "ua", None).is_ok());
    }
}

#[test]
fn score_bounds_are_exact() {
    let sv = solver();
    let r = sv.recognition();
    assert!(r.image_to_text("img".to_string(), None, Some(80000), None).is_ok());
    assert!(r.image_to_text("img".to_string(), None, Some(100000), None).is_ok());
    assert_eq!(
        r.image_to_text("img".to_string(), None, Some(79999), None).unwrap_err(),
        Error::ScoreOutOfRange
    );
    assert_eq!(
        r.image_to_text("img".to_string(), None, Some(100001), None).unwrap_err(),
        Error::ScoreOutOfRange
    );
}

#[test]
fn unsupported_module_is_rejected_and_known_modules_pass() {
    let sv = solver();
    let r = sv.recognition();
    assert_eq!(
        r.image_to_text("img".to_string(), Some("other"), None, None).unwrap_err(),
        Error::UnsupportedModule
    );
    assert!(r.image_to_text("img".to_string(), Some("common"), None, None).is_ok());
    assert!(r.image_to_text("img".to_string(), Some("queueit"), None, None).is_ok());
}

#[test]
fn a_supplied_score_renders_as_its_shortest_decimal() {
    let sv = solver();
    let task = sv
        .recognition()
        .image_to_text("im".to_string(), None, Some(80000), None)
        .unwrap();
    let text = task_text(task);
    assert!(text.contains("\"score\":0.8,"));
    let task = sv
        .recognition()
        .image_to_text("im".to_string(), None, Some(99999), None)
        .unwrap();
    assert!(task_text(task).contains("\"score\":0.99999,"));
}

#[test]
fn omitted_optionals_leave_no_keys_behind() {
    let sv = solver();
    let task = sv
        .token()
        .h_captcha("HCaptchaTask", "https://x", "key1", None, None, None, None)
        .unwrap();
    let text = task_text(task);
    assert!(!text.contains("isInvisible"));
    assert!(!text.contains("proxy"));
    assert!(!text.contains("enterprisePayload"));
    assert!(!text.contains("userAgent"));
    assert!(!text.contains("null"));
    assert_eq!(
        text,
        "{\"clientKey\":\"K\",\"task\":{\"type\":\"HCaptchaTask\",\"websiteURL\":\"https://x\",\"websiteKey\":\"key1\"}}"
    );
}

#[test]
fn supplied_optionals_appear_under_their_keys_in_order() {
    let sv = solver();
    let task = sv
        .token()
        .h_captcha(
            "HCaptchaTask",
            "https://x",
            "key1",
            Some(true),
            Some("http://1.2.3.4:8080".to_string()),
            Some(vec![("rqdata".to_string(), "abc".to_string())]),
            Some("agent"),
        )
        .unwrap();
    let text = task_text(task);
    assert_eq!(
        text,
        "{\"clientKey\":\"K\",\"task\":{\"type\":\"HCaptchaTask\",\"websiteURL\":\"https://x\",\"websiteKey\":\"key1\",\"isInvisible\":true,\"proxy\":\"http://1.2.3.4:8080\",\"enterprisePayload\":{\"rqdata\":\"abc\"},\"userAgent\":\"agent\"}}"
    );
}

#[test]
fn cookies_render_as_an_array_of_objects() {
    let sv = solver();
    let task = sv
        .token()
        .re_captcha_v2(
            "ReCaptchaV2Task",
            "https://x",
            "k",
            None,
            None,
            None,
            None,
            None,
            None,
            Some(vec![vec![
                ("name".to_string(), "sid".to_string()),
                ("value".to_string(), "1".to_string()),
            ]]),
            None,
            None,
        )
        .unwrap();
    let text = task_text(task);
    assert!(text.contains("\"cookies\":[{\"name\":\"sid\",\"value\":\"1\"}]"));
}

#[test]
fn fixed_kind_builders_tag_their_families() {
    let sv = solver();
    let t = sv.token();
    let r = sv.recognition();
    assert!(task_text(t.fun_captcha("https://x", "pk", None, None, None))
        .contains("\"type\":\"FunCaptchaTaskProxyLess\""));
    assert!(task_text(t.datadome("https://x", "https://c", "p".to_string(), "ua"))
        .contains("\"type\":\"DataDomeSliderTask\""));
    assert!(task_text(t.cloudfare_turnstile("https://x", "k", vec![], "p"))
        .contains("\"type\":\"AntiCloudflareTask\""));
    assert!(task_text(t.cloudfare_challange("https://x", vec![], "<html>", "p"))
        .contains("\"type\":\"AntiCloudflareTask\""));
    assert!(task_text(r.h_captcha(vec!["q".to_string()], "cat"))
        .contains("\"type\":\"HCaptchaClassification\""));
    assert!(task_text(r.fun_captcha(vec!["i".to_string()], "cat"))
        .contains("\"type\":\"FunCaptchaClassification\""));
    assert!(task_text(r.re_captcha("img".to_string(), "cat"))
        .contains("\"type\":\"ReCaptchaV2Classification\""));
    assert!(task_text(r.aws_waf(vec!["i".to_string()], "cat"))
        .contains("\"type\":\"AwsWafClassification\""));
}

#[test]
fn min_score_bounds_are_enforced_for_the_scored_family() {
    let sv = solver();
    let r = sv.token().re_captcha_v3(
        "ReCaptchaV3Task",
        "https://x",
        "k",
        None,
        Some(100001),
        "act".to_string(),
        None,
        None,
        None,
        None,
        None,
        None,
    );
    assert_eq!(r.unwrap_err(), Error::ScoreOutOfRange);
    let task = sv
        .token()
        .re_captcha_v3(
            "ReCaptchaV3Task",
            "https://x",
            "k",
            None,
            Some(90000),
            "act".to_string(),
            None,
            None,
            None,
            None,
            None,
            None,
        )
        .unwrap();
    assert!(task_text(task).contains("\"minScore\":0.9"));
}

#[test]
fn gee_test_places_optionals_in_their_documented_order() {
    let sv = solver();
    let task = sv
        .token()
        .gee_test(
            "GeeTestTask",
            "https://x",
            Some("gt1".to_string()),
            None,
            Some("cid".to_string()),
            Some("sub.example".to_string()),
            Some("http://p".to_string()),
        )
        .unwrap();
    assert_eq!(
        task_text(task),
        "{\"clientKey\":\"K\",\"task\":{\"type\":\"GeeTestTask\",\"websiteURL\":\"https://x\",\"gt\":\"gt1\",\"captchaId\":\"cid\",\"proxy\":\"http://p\",\"geetestApiServerSubdomain\":\"sub.example\"}}"
    );
}

#[test]
fn cyber_si_ara_carries_its_slide_master_id() {
    let sv = solver();
    let task = sv
        .token()
        .cyber_si_ara("AwsWafTask", "id-1", "https://x", "agent", None)
        .unwrap();
    assert_eq!(
        task_text(task),
        "{\"clientKey\":\"K\",\"task\":{\"type\":\"AwsWafTask\",\"SlideMasterURLId\":\"id-1\",\"websiteURL\":\"https://x\",\"userAgent\":\"agent\"}}"
    );
}

#[test]
fn image_to_text_always_carries_the_case_flag() {
    let sv = solver();
    let task = sv
        .recognition()
        .image_to_text("b64".to_string(), None, None, None)
        .unwrap();
    assert_eq!(
        task_text(task),
        "{\"clientKey\":\"K\",\"task\":{\"type\":\"ImageToTextTask\",\"body\":\"b64\",\"case\":false}}"
    );
    let task = sv
        .recognition()
        .image_to_text("b64".to_string(), Some("common"), Some(85000), Some(true))
        .unwrap();
    assert_eq!(
        task_text(task),
        "{\"clientKey\":\"K\",\"task\":{\"type\":\"ImageToTextTask\",\"body\":\"b64\",\"module\":\"common\",\"score\":0.85,\"case\":true}}"
    );
}

#[test]
fn recognition_queries_render_as_arrays() {
    let sv = solver();
    let task = sv
        .recognition()
        .h_captcha(vec!["a".to_string(), "b".to_string()], "a cat");
    assert_eq!(
        task_text(task),
        "{\"clientKey\":\"K\",\"task\":{\"type\":\"HCaptchaClassification\",\"queries\":[\"a\",\"b\"],\"question\":\"a cat\"}}"
    );
}

#[test]
fn datadome_renders_every_required_member() {
    let sv = solver();
    let task = sv
        .token()
        .datadome("https://x", "https://c", "http://p".to_string(), "agent");
    assert_eq!(
        task_text(task),
        "{\"clientKey\":\"K\",\"task\":{\"type\":\"DataDomeSliderTask\",\"websiteURL\":\"https://x\",\"captchaUrl\":\"https://c\",\"proxy\":\"http://p\",\"userAgent\":\"agent\"}}"
    );
}

#[test]
fn cloudflare_metadata_keeps_its_insertion_order() {
    let sv = solver();
    let task = sv.token().cloudfare_challange(
        "https://x",
        vec![
            ("action".to_string(), "login".to_string()),
            ("cdata".to_string(), "z".to_string()),
        ],
        "<html>",
        "http://p",
    );
    assert_eq!(
        task_text(task),
        "{\"clientKey\":\"K\",\"task\":{\"type\":\"AntiCloudflareTask\",\"websiteURL\":\"https://x\",\"html\":\"<html>\",\"metadata\":{\"action\":\"login\",\"cdata\":\"z\"},\"proxy\":\"http://p\"}}"
    );
}
