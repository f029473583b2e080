//! Payload builders for the token-generating challenge families.

use vstd::prelude::*;
use crate::error::Error;
use crate::json::{view_of_fields, JsonV, JsonValue};
use crate::recognition::score_field;
use crate::session::Config;
use crate::task::{
    field_opt_bool, field_opt_cookies, field_opt_obj, field_opt_str, field_opt_string, field_str,
    field_string, field_value, opt_cookies, opt_obj, ov, push_opt_bool, push_opt_str,
    push_opt_value, score_decimal, str_obj, Task,
};

verus! {

/// Builders for token tasks: the service works an interactive
/// challenge and hands back a token, cookie, or equivalent proof.
pub struct Token {
    pub config: Config,
}

/// The proxied, proxy-less, and turbo variants of the hCaptcha family.
pub open spec fn h_captcha_kind_ok(k: Seq<char>) -> bool {
    k == "HCaptchaTask"@ || k == "HCaptchaTaskProxyLess"@ || k == "HCaptchaTurboTask"@
}

/// The proxied and proxy-less variants of the GeeTest family.
pub open spec fn gee_test_kind_ok(k: Seq<char>) -> bool {
    k == "GeeTestTask"@ || k == "GeeTestTaskProxyLess"@
}

/// The proxied and proxy-less variants of the checkbox family.
pub open spec fn re_captcha_v2_kind_ok(k: Seq<char>) -> bool {
    k == "ReCaptchaV2Task"@ || k == "ReCaptchaV2TaskProxyLess"@
}

/// The proxied and proxy-less variants of the scored family.
pub open spec fn re_captcha_v3_kind_ok(k: Seq<char>) -> bool {
    k == "ReCaptchaV3Task"@ || k == "ReCaptchaV3TaskProxyLess"@
}

/// The proxied and proxy-less variants of the MtCaptcha family.
pub open spec fn mt_captcha_kind_ok(k: Seq<char>) -> bool {
    k == "MtCaptchaTask"@ || k == "MtCaptchaTaskProxyLess"@
}

/// The proxied and proxy-less variants of the AWS WAF family.
pub open spec fn aws_waf_kind_ok(k: Seq<char>) -> bool {
    k == "AwsWafTask"@ || k == "AwsWafTaskProxyLess"@
}

/// The slider family submits under the same tag set as the AWS WAF
/// family; the service defines no tags of its own for it.
pub open spec fn cyber_si_ara_kind_ok(k: Seq<char>) -> bool {
    k == "AwsWafTask"@ || k == "AwsWafTaskProxyLess"@
}

/// An optional minimum score must stay within one point, given in
/// hundred-thousandths.
pub open spec fn min_score_ok(s: Option<u32>) -> bool {
    match s {
        Some(v) => v <= 100000,
        None => true,
    }
}

fn is_h_captcha_kind(k: &str) -> (r: bool)
    ensures
        r == h_captcha_kind_ok(k@),
{
    crate::json::str_eq(k, "HCaptchaTask") || crate::json::str_eq(k, "HCaptchaTaskProxyLess")
        || crate::json::str_eq(k, "HCaptchaTurboTask")
}

fn is_gee_test_kind(k: &str) -> (r: bool)
    ensures
        r == gee_test_kind_ok(k@),
{
    crate::json::str_eq(k, "GeeTestTask") || crate::json::str_eq(k, "GeeTestTaskProxyLess")
}

fn is_re_captcha_v2_kind(k: &str) -> (r: bool)
    ensures
        r == re_captcha_v2_kind_ok(k@),
{
    crate::json::str_eq(k, "ReCaptchaV2Task") || crate::json::str_eq(k, "ReCaptchaV2TaskProxyLess")
}

fn is_re_captcha_v3_kind(k: &str) -> (r: bool)
    ensures
        r == re_captcha_v3_kind_ok(k@),
{
    crate::json::str_eq(k, "ReCaptchaV3Task") || crate::json::str_eq(k, "ReCaptchaV3TaskProxyLess")
}

fn is_mt_captcha_kind(k: &str) -> (r: bool)
    ensures
        r == mt_captcha_kind_ok(k@),
{
    crate::json::str_eq(k, "MtCaptchaTask") || crate::json::str_eq(k, "MtCaptchaTaskProxyLess")
}

fn is_aws_waf_kind(k: &str) -> (r: bool)
    ensures
        r == aws_waf_kind_ok(k@),
{
    crate::json::str_eq(k, "AwsWafTask") || crate::json::str_eq(k, "AwsWafTaskProxyLess")
}

/// The members of an hCaptcha token task.
pub open spec fn h_captcha_fields(
    url: Seq<char>,
    key: Seq<char>,
    is_invisible: Option<bool>,
    proxy: Option<Seq<char>>,
    enterprise: Option<JsonV>,
    user_agent: Option<Seq<char>>,
) -> Seq<(Seq<char>, JsonV)> {
    let b0 = seq![("websiteURL"@, JsonV::Str(url)), ("websiteKey"@, JsonV::Str(key))];
    let b1 = push_opt_bool(b0, "isInvisible"@, is_invisible);
    let b2 = push_opt_str(b1, "proxy"@, proxy);
    let b3 = push_opt_value(b2, "enterprisePayload"@, enterprise);
    push_opt_str(b3, "userAgent"@, user_agent)
}

/// The members of a FunCaptcha token task.
pub open spec fn fun_captcha_fields(
    url: Seq<char>,
    public_key: Seq<char>,
    subdomain: Option<Seq<char>>,
    proxy: Option<Seq<char>>,
    data: Option<Seq<char>>,
) -> Seq<(Seq<char>, JsonV)> {
    let b0 = seq![
        ("websiteURL"@, JsonV::Str(url)),
        ("websitePublicKey"@, JsonV::Str(public_key)),
    ];
    let b1 = push_opt_str(b0, "funcaptchaApiJSSubdomain"@, subdomain);
    let b2 = push_opt_str(b1, "proxy"@, proxy);
    push_opt_str(b2, "data"@, data)
}

/// The members of a GeeTest token task.
pub open spec fn gee_test_fields(
    url: Seq<char>,
    gt: Option<Seq<char>>,
    challenge: Option<Seq<char>>,
    captcha_id: Option<Seq<char>>,
    proxy: Option<Seq<char>>,
    subdomain: Option<Seq<char>>,
) -> Seq<(Seq<char>, JsonV)> {
    let b0 = seq![("websiteURL"@, JsonV::Str(url))];
    let b1 = push_opt_str(b0, "gt"@, gt);
    let b2 = push_opt_str(b1, "challenge"@, challenge);
    let b3 = push_opt_str(b2, "captchaId"@, captcha_id);
    let b4 = push_opt_str(b3, "proxy"@, proxy);
    push_opt_str(b4, "geetestApiServerSubdomain"@, subdomain)
}

/// The members of a checkbox token task.
pub open spec fn re_captcha_v2_fields(
    url: Seq<char>,
    key: Seq<char>,
    page_action: Option<Seq<char>>,
    api_domain: Option<Seq<char>>,
    cookies: Option<JsonV>,
    anchor: Option<Seq<char>>,
    reload: Option<Seq<char>>,
    is_invisible: Option<bool>,
    proxy: Option<Seq<char>>,
    enterprise: Option<JsonV>,
    user_agent: Option<Seq<char>>,
) -> Seq<(Seq<char>, JsonV)> {
    let b0 = seq![("websiteURL"@, JsonV::Str(url)), ("websiteKey"@, JsonV::Str(key))];
    let b1 = push_opt_str(b0, "pageAction"@, page_action);
    let b2 = push_opt_str(b1, "apiDomain"@, api_domain);
    let b3 = push_opt_value(b2, "cookies"@, cookies);
    let b4 = push_opt_str(b3, "anchor"@, anchor);
    let b5 = push_opt_str(b4, "reload"@, reload);
    let b6 = push_opt_bool(b5, "isInvisible"@, is_invisible);
    let b7 = push_opt_str(b6, "proxy"@, proxy);
    let b8 = push_opt_value(b7, "enterprisePayload"@, enterprise);
    push_opt_str(b8, "userAgent"@, user_agent)
}

/// The members of a scored token task.
pub open spec fn re_captcha_v3_fields(
    url: Seq<char>,
    key: Seq<char>,
    page_action: Seq<char>,
    min_score: Option<u32>,
    api_domain: Option<Seq<char>>,
    cookies: Option<JsonV>,
    anchor: Option<Seq<char>>,
    reload: Option<Seq<char>>,
    proxy: Option<Seq<char>>,
    enterprise: Option<JsonV>,
    user_agent: Option<Seq<char>>,
) -> Seq<(Seq<char>, JsonV)> {
    let b0 = seq![
        ("websiteURL"@, JsonV::Str(url)),
        ("websiteKey"@, JsonV::Str(key)),
        ("pageAction"@, JsonV::Str(page_action)),
    ];
    let b1 = match min_score {
        Some(s) => b0.push(("minScore"@, score_field(s))),
        None => b0,
    };
    let b2 = push_opt_str(b1, "apiDomain"@, api_domain);
    let b3 = push_opt_value(b2, "cookies"@, cookies);
    let b4 = push_opt_str(b3, "anchor"@, anchor);
    let b5 = push_opt_str(b4, "reload"@, reload);
    let b6 = push_opt_str(b5, "proxy"@, proxy);
    let b7 = push_opt_value(b6, "enterprisePayload"@, enterprise);
    push_opt_str(b7, "userAgent"@, user_agent)
}

/// The members of an MtCaptcha token task.
pub open spec fn mt_captcha_fields(
    url: Seq<char>,
    key: Seq<char>,
    proxy: Option<Seq<char>>,
) -> Seq<(Seq<char>, JsonV)> {
    push_opt_str(
        seq![("websiteURL"@, JsonV::Str(url)), ("websiteKey"@, JsonV::Str(key))],
        "proxy"@,
        proxy,
    )
}

/// The members of a DataDome slider task.
pub open spec fn datadome_fields(
    url: Seq<char>,
    captcha_url: Seq<char>,
    proxy: Seq<char>,
    user_agent: Seq<char>,
) -> Seq<(Seq<char>, JsonV)> {
    seq![
        ("websiteURL"@, JsonV::Str(url)),
        ("captchaUrl"@, JsonV::Str(captcha_url)),
        ("proxy"@, JsonV::Str(proxy)),
        ("userAgent"@, JsonV::Str(user_agent)),
    ]
}

/// The members of an AWS WAF token task.
pub open spec fn aws_waf_fields(url: Seq<char>, proxy: Option<Seq<char>>) -> Seq<
    (Seq<char>, JsonV),
> {
    push_opt_str(seq![("websiteURL"@, JsonV::Str(url))], "proxy"@, proxy)
}

/// The members of a slider token task.
pub open spec fn cyber_si_ara_fields(
    slide_master_url_id: Seq<char>,
    url: Seq<char>,
    user_agent: Seq<char>,
    proxy: Option<Seq<char>>,
) -> Seq<(Seq<char>, JsonV)> {
    push_opt_str(
        seq![
            ("SlideMasterURLId"@, JsonV::Str(slide_master_url_id)),
            ("websiteURL"@, JsonV::Str(url)),
            ("userAgent"@, JsonV::Str(user_agent)),
        ],
        "proxy"@,
        proxy,
    )
}

/// The members of a Cloudflare turnstile task.
pub open spec fn cloudfare_turnstile_fields(
    url: Seq<char>,
    key: Seq<char>,
    metadata: JsonV,
    proxy: Seq<char>,
) -> Seq<(Seq<char>, JsonV)> {
    seq![
        ("websiteURL"@, JsonV::Str(url)),
        ("websiteKey"@, JsonV::Str(key)),
        ("metadata"@, metadata),
        ("proxy"@, JsonV::Str(proxy)),
    ]
}

/// The members of a Cloudflare challenge task.
pub open spec fn cloudfare_challange_fields(
    url: Seq<char>,
    html: Seq<char>,
    metadata: JsonV,
    proxy: Seq<char>,
) -> Seq<(Seq<char>, JsonV)> {
    seq![
        ("websiteURL"@, JsonV::Str(url)),
        ("html"@, JsonV::Str(html)),
        ("metadata"@, metadata),
        ("proxy"@, JsonV::Str(proxy)),
    ]
}

/// With no optionals supplied, a checkbox token task carries exactly
/// its two required members; no omitted option appears under any key.
pub proof fn lemma_re_captcha_v2_omits_absent_optionals(url: Seq<char>, key: Seq<char>)
    ensures
        re_captcha_v2_fields(
            url,
            key,
            None,
            None,
            None,
            None,
            None,
            None,
            None,
            None,
            None,
        ) == seq![("websiteURL"@, JsonV::Str(url)), ("websiteKey"@, JsonV::Str(key))],
{
}

/// A proxy appears in an hCaptcha payload under its key exactly when
/// one was supplied, whatever the other options hold.
pub proof fn lemma_h_captcha_proxy_key_iff_supplied(
    url: Seq<char>,
    key: Seq<char>,
    is_invisible: Option<bool>,
    proxy: Option<Seq<char>>,
    enterprise: Option<JsonV>,
    user_agent: Option<Seq<char>>,
)
    ensures
        crate::task::has_key(
            h_captcha_fields(url, key, is_invisible, proxy, enterprise, user_agent),
            "proxy"@,
        ) <==> proxy is Some,
{
    reveal_strlit("websiteURL");
    reveal_strlit("websiteKey");
    reveal_strlit("isInvisible");
    reveal_strlit("proxy");
    reveal_strlit("enterprisePayload");
    reveal_strlit("userAgent");
    assert("websiteURL"@.len() == 10);
    assert("websiteKey"@.len() == 10);
    assert("isInvisible"@.len() == 11);
    assert("proxy"@.len() == 5);
    assert("enterprisePayload"@.len() == 17);
    assert("userAgent"@.len() == 9);
    let fs = h_captcha_fields(url, key, is_invisible, proxy, enterprise, user_agent);
    let b0 = seq![("websiteURL"@, JsonV::Str(url)), ("websiteKey"@, JsonV::Str(key))];
    let b1 = push_opt_bool(b0, "isInvisible"@, is_invisible);
    match proxy {
        Some(p) => {
            assert(fs[b1.len() as int].0 == "proxy"@);
        },
        None => {
            assert forall|i: int| 0 <= i < fs.len() implies (#[trigger] fs[i]).0 != "proxy"@ by {
            }
        },
    }
}

impl Token {
    /// Builds an hCaptcha token task under one of the family's kinds.
    pub fn h_captcha(
        &self,
        kind: &str,
        website_url: &str,
        website_key: &str,
        is_invisible: Option<bool>,
        proxy: Option<String>,
        enterprise_payload: Option<Vec<(String, String)>>,
        user_agent: Option<&str>,
    ) -> (r: Result<Task, Error>)
        ensures
            match r {
                Ok(t) => {
                    &&& h_captcha_kind_ok(kind@)
                    &&& t.kind@ == kind@
                    &&& view_of_fields(t.fields@) == h_captcha_fields(
                        website_url@,
                        website_key@,
                        is_invisible,
                        ov(proxy),
                        opt_obj(enterprise_payload),
                        ov(user_agent),
                    )
                    &&& t.wf_task()
                },
                Err(e) => !h_captcha_kind_ok(kind@) && e is UnsupportedKind,
            },
    {
        if !is_h_captcha_kind(kind) {
            return Err(Error::UnsupportedKind);
        }
        let mut fields: Vec<(String, JsonValue)> = Vec::new();
        proof {
            assert(view_of_fields(fields@) =~= Seq::<(Seq<char>, JsonV)>::empty());
            assert(crate::json::wf_fields(view_of_fields(fields@)));
        }
        field_str(&mut fields, "websiteURL", website_url);
        field_str(&mut fields, "websiteKey", website_key);
        proof {
            assert(view_of_fields(fields@) =~= seq![
                ("websiteURL"@, JsonV::Str(website_url@)),
                ("websiteKey"@, JsonV::Str(website_key@)),
            ]);
        }
        field_opt_bool(&mut fields, "isInvisible", is_invisible);
        field_opt_string(&mut fields, "proxy", proxy);
        field_opt_obj(&mut fields, "enterprisePayload", enterprise_payload);
        field_opt_str(&mut fields, "userAgent", user_agent);
        Ok(Task { kind: kind.to_owned(), fields })
    }

    /// Builds a FunCaptcha token task; the family has a single kind.
    pub fn fun_captcha(
        &self,
        website_url: &str,
        website_public_key: &str,
        fun_captcha_api_js_subdomain: Option<String>,
        data: Option<String>,
        proxy: Option<String>,
    ) -> (t: Task)
        ensures
            t.kind@ == "FunCaptchaTaskProxyLess"@,
            view_of_fields(t.fields@) == fun_captcha_fields(
                website_url@,
                website_public_key@,
                ov(fun_captcha_api_js_subdomain),
                ov(proxy),
                ov(data),
            ),
            t.wf_task(),
    {
        let mut fields: Vec<(String, JsonValue)> = Vec::new();
        proof {
            assert(view_of_fields(fields@) =~= Seq::<(Seq<char>, JsonV)>::empty());
            assert(crate::json::wf_fields(view_of_fields(fields@)));
        }
        field_str(&mut fields, "websiteURL", website_url);
        field_str(&mut fields, "websitePublicKey", website_public_key);
        proof {
            assert(view_of_fields(fields@) =~= seq![
                ("websiteURL"@, JsonV::Str(website_url@)),
                ("websitePublicKey"@, JsonV::Str(website_public_key@)),
            ]);
        }
        field_opt_string(&mut fields, "funcaptchaApiJSSubdomain", fun_captcha_api_js_subdomain);
        field_opt_string(&mut fields, "proxy", proxy);
        field_opt_string(&mut fields, "data", data);
        Task { kind: String::from_str("FunCaptchaTaskProxyLess"), fields }
    }

    /// Builds a GeeTest token task under one of the family's kinds.
    pub fn gee_test(
        &self,
        kind: &str,
        website_url: &str,
        gt: Option<String>,
        challenge: Option<String>,
        captcha_id: Option<String>,
        gee_test_api_server_subdomain: Option<String>,
        proxy: Option<String>,
    ) -> (r: Result<Task, Error>)
        ensures
            match r {
                Ok(t) => {
                    &&& gee_test_kind_ok(kind@)
                    &&& t.kind@ == kind@
                    &&& view_of_fields(t.fields@) == gee_test_fields(
                        website_url@,
                        ov(gt),
                        ov(challenge),
                        ov(captcha_id),
                        ov(proxy),
                        ov(gee_test_api_server_subdomain),
                    )
                    &&& t.wf_task()
                },
                Err(e) => !gee_test_kind_ok(kind@) && e is UnsupportedKind,
            },
    {
        if !is_gee_test_kind(kind) {
            return Err(Error::UnsupportedKind);
        }
        let mut fields: Vec<(String, JsonValue)> = Vec::new();
        proof {
            assert(view_of_fields(fields@) =~= Seq::<(Seq<char>, JsonV)>::empty());
            assert(crate::json::wf_fields(view_of_fields(fields@)));
        }
        field_str(&mut fields, "websiteURL", website_url);
        proof {
            assert(view_of_fields(fields@) =~= seq![("websiteURL"@, JsonV::Str(website_url@))]);
        }
        field_opt_string(&mut fields, "gt", gt);
        field_opt_string(&mut fields, "challenge", challenge);
        field_opt_string(&mut fields, "captchaId", captcha_id);
        field_opt_string(&mut fields, "proxy", proxy);
        field_opt_string(&mut fields, "geetestApiServerSubdomain", gee_test_api_server_subdomain);
        Ok(Task { kind: kind.to_owned(), fields })
    }

    /// Builds a checkbox token task under one of the family's kinds.
    pub fn re_captcha_v2(
        &self,
        kind: &str,
        website_url: &str,
        website_key: &str,
        proxy: Option<String>,
        page_action: Option<String>,
        enterprise_payload: Option<Vec<(String, String)>>,
        is_invisible: Option<bool>,
        api_domain: Option<String>,
        user_agent: Option<&str>,
        cookies: Option<Vec<Vec<(String, String)>>>,
        anchor: Option<String>,
        reload: Option<String>,
    ) -> (r: Result<Task, Error>)
        ensures
            match r {
                Ok(t) => {
                    &&& re_captcha_v2_kind_ok(kind@)
                    &&& t.kind@ == kind@
                    &&& view_of_fields(t.fields@) == re_captcha_v2_fields(
                        website_url@,
                        website_key@,
                        ov(page_action),
                        ov(api_domain),
                        opt_cookies(cookies),
                        ov(anchor),
                        ov(reload),
                        is_invisible,
                        ov(proxy),
                        opt_obj(enterprise_payload),
                        ov(user_agent),
                    )
                    &&& t.wf_task()
                },
                Err(e) => !re_captcha_v2_kind_ok(kind@) && e is UnsupportedKind,
            },
    {
        if !is_re_captcha_v2_kind(kind) {
            return Err(Error::UnsupportedKind);
        }
        let mut fields: Vec<(String, JsonValue)> = Vec::new();
        proof {
            assert(view_of_fields(fields@) =~= Seq::<(Seq<char>, JsonV)>::empty());
            assert(crate::json::wf_fields(view_of_fields(fields@)));
        }
        field_str(&mut fields, "websiteURL", website_url);
        field_str(&mut fields, "websiteKey", website_key);
        proof {
            assert(view_of_fields(fields@) =~= seq![
                ("websiteURL"@, JsonV::Str(website_url@)),
                ("websiteKey"@, JsonV::Str(website_key@)),
            ]);
        }
        field_opt_string(&mut fields, "pageAction", page_action);
        field_opt_string(&mut fields, "apiDomain", api_domain);
        field_opt_cookies(&mut fields, "cookies", cookies);
        field_opt_string(&mut fields, "anchor", anchor);
        field_opt_string(&mut fields, "reload", reload);
        field_opt_bool(&mut fields, "isInvisible", is_invisible);
        field_opt_string(&mut fields, "proxy", proxy);
        field_opt_obj(&mut fields, "enterprisePayload", enterprise_payload);
        field_opt_str(&mut fields, "userAgent", user_agent);
        Ok(Task { kind: kind.to_owned(), fields })
    }

    /// Builds a scored token task under one of the family's kinds; the
    /// page action is mandatory there and the optional minimum score
    /// must not exceed one point.
    pub fn re_captcha_v3(
        &self,
        kind: &str,
        website_url: &str,
        website_key: &str,
        proxy: Option<String>,
        min_score: Option<u32>,
        page_action: String,
        enterprise_payload: Option<Vec<(String, String)>>,
        api_domain: Option<String>,
        user_agent: Option<&str>,
        cookies: Option<Vec<Vec<(String, String)>>>,
        anchor: Option<String>,
        reload: Option<String>,
    ) -> (r: Result<Task, Error>)
        ensures
            match r {
                Ok(t) => {
                    &&& re_captcha_v3_kind_ok(kind@)
                    &&& min_score_ok(min_score)
                    &&& t.kind@ == kind@
                    &&& view_of_fields(t.fields@) == re_captcha_v3_fields(
                        website_url@,
                        website_key@,
                        page_action@,
                        min_score,
                        ov(api_domain),
                        opt_cookies(cookies),
                        ov(anchor),
                        ov(reload),
                        ov(proxy),
                        opt_obj(enterprise_payload),
                        ov(user_agent),
                    )
                    &&& t.wf_task()
                },
                Err(e) => match e {
                    Error::UnsupportedKind => !re_captcha_v3_kind_ok(kind@),
                    Error::ScoreOutOfRange => re_captcha_v3_kind_ok(kind@) && !min_score_ok(
                        min_score,
                    ),
                    _ => false,
                },
            },
    {
        if !is_re_captcha_v3_kind(kind) {
            return Err(Error::UnsupportedKind);
        }
        match min_score {
            Some(s) => {
                if s > 100000 {
                    return Err(Error::ScoreOutOfRange);
                }
            },
            None => {},
        }
        let mut fields: Vec<(String, JsonValue)> = Vec::new();
        proof {
            assert(view_of_fields(fields@) =~= Seq::<(Seq<char>, JsonV)>::empty());
            assert(crate::json::wf_fields(view_of_fields(fields@)));
        }
        field_str(&mut fields, "websiteURL", website_url);
        field_str(&mut fields, "websiteKey", website_key);
        field_string(&mut fields, "pageAction", page_action);
        proof {
            assert(view_of_fields(fields@) =~= seq![
                ("websiteURL"@, JsonV::Str(website_url@)),
                ("websiteKey"@, JsonV::Str(website_key@)),
                ("pageAction"@, JsonV::Str(page_action@)),
            ]);
        }
        match min_score {
            Some(s) => {
                let d = score_decimal(s);
                field_value(&mut fields, "minScore", JsonValue::Num { units: d.units, scale: d.scale });
            },
            None => {},
        }
        field_opt_string(&mut fields, "apiDomain", api_domain);
        field_opt_cookies(&mut fields, "cookies", cookies);
        field_opt_string(&mut fields, "anchor", anchor);
        field_opt_string(&mut fields, "reload", reload);
        field_opt_string(&mut fields, "proxy", proxy);
        field_opt_obj(&mut fields, "enterprisePayload", enterprise_payload);
        field_opt_str(&mut fields, "userAgent", user_agent);
        Ok(Task { kind: kind.to_owned(), fields })
    }

    /// Builds an MtCaptcha token task under one of the family's kinds.
    pub fn mt_captcha(
        &self,
        kind: &str,
        website_url: &str,
        website_key: &str,
        proxy: Option<String>,
    ) -> (r: Result<Task, Error>)
        ensures
            match r {
                Ok(t) => {
                    &&& mt_captcha_kind_ok(kind@)
                    &&& t.kind@ == kind@
                    &&& view_of_fields(t.fields@) == mt_captcha_fields(
                        website_url@,
                        website_key@,
                        ov(proxy),
                    )
                    &&& t.wf_task()
                },
                Err(e) => !mt_captcha_kind_ok(kind@) && e is UnsupportedKind,
            },
    {
        if !is_mt_captcha_kind(kind) {
            return Err(Error::UnsupportedKind);
        }
        let mut fields: Vec<(String, JsonValue)> = Vec::new();
        proof {
            assert(view_of_fields(fields@) =~= Seq::<(Seq<char>, JsonV)>::empty());
            assert(crate::json::wf_fields(view_of_fields(fields@)));
        }
        field_str(&mut fields, "websiteURL", website_url);
        field_str(&mut fields, "websiteKey", website_key);
        proof {
            assert(view_of_fields(fields@) =~= seq![
                ("websiteURL"@, JsonV::Str(website_url@)),
                ("websiteKey"@, JsonV::Str(website_key@)),
            ]);
        }
        field_opt_string(&mut fields, "proxy", proxy);
        Ok(Task { kind: kind.to_owned(), fields })
    }

    /// Builds a DataDome slider task; every member is required.
    pub fn datadome(
        &self,
        website_url: &str,
        captcha_url: &str,
        proxy: String,
        user_agent: &str,
    ) -> (t: Task)
        ensures
            t.kind@ == "DataDomeSliderTask"@,
            view_of_fields(t.fields@) == datadome_fields(
                website_url@,
                captcha_url@,
                proxy@,
                user_agent@,
            ),
            t.wf_task(),
    {
        let mut fields: Vec<(String, JsonValue)> = Vec::new();
        proof {
            assert(view_of_fields(fields@) =~= Seq::<(Seq<char>, JsonV)>::empty());
            assert(crate::json::wf_fields(view_of_fields(fields@)));
        }
        field_str(&mut fields, "websiteURL", website_url);
        field_str(&mut fields, "captchaUrl", captcha_url);
        field_string(&mut fields, "proxy", proxy);
        field_str(&mut fields, "userAgent", user_agent);
        proof {
            assert(view_of_fields(fields@) =~= datadome_fields(
                website_url@,
                captcha_url@,
                proxy@,
                user_agent@,
            ));
        }
        Task { kind: String::from_str("DataDomeSliderTask"), fields }
    }

    /// Builds an AWS WAF token task under one of the family's kinds.
    pub fn aws_waf(&self, kind: &str, website_url: &str, proxy: Option<String>) -> (r: Result<
        Task,
        Error,
    >)
        ensures
            match r {
                Ok(t) => {
                    &&& aws_waf_kind_ok(kind@)
                    &&& t.kind@ == kind@
                    &&& view_of_fields(t.fields@) == aws_waf_fields(website_url@, ov(proxy))
                    &&& t.wf_task()
                },
                Err(e) => !aws_waf_kind_ok(kind@) && e is UnsupportedKind,
            },
    {
        if !is_aws_waf_kind(kind) {
            return Err(Error::UnsupportedKind);
        }
        let mut fields: Vec<(String, JsonValue)> = Vec::new();
        proof {
            assert(view_of_fields(fields@) =~= Seq::<(Seq<char>, JsonV)>::empty());
            assert(crate::json::wf_fields(view_of_fields(fields@)));
        }
        field_str(&mut fields, "websiteURL", website_url);
        proof {
            assert(view_of_fields(fields@) =~= seq![("websiteURL"@, JsonV::Str(website_url@))]);
        }
        field_opt_string(&mut fields, "proxy", proxy);
        Ok(Task { kind: kind.to_owned(), fields })
    }

    /// Builds a slider token task under one of the family's kinds.
    pub fn cyber_si_ara(
        &self,
        kind: &str,
        slide_master_url_id: &str,
        website_url: &str,
        user_agent: &str,
        proxy: Option<String>,
    ) -> (r: Result<Task, Error>)
        ensures
            match r {
                Ok(t) => {
                    &&& cyber_si_ara_kind_ok(kind@)
                    &&& t.kind@ == kind@
                    &&& view_of_fields(t.fields@) == cyber_si_ara_fields(
                        slide_master_url_id@,
                        website_url@,
                        user_agent@,
                        ov(proxy),
                    )
                    &&& t.wf_task()
                },
                Err(e) => !cyber_si_ara_kind_ok(kind@) && e is UnsupportedKind,
            },
    {
        if !is_aws_waf_kind(kind) {
            return Err(Error::UnsupportedKind);
        }
        let mut fields: Vec<(String, JsonValue)> = Vec::new();
        proof {
            assert(view_of_fields(fields@) =~= Seq::<(Seq<char>, JsonV)>::empty());
            assert(crate::json::wf_fields(view_of_fields(fields@)));
        }
        field_str(&mut fields, "SlideMasterURLId", slide_master_url_id);
        field_str(&mut fields, "websiteURL", website_url);
        field_str(&mut fields, "userAgent", user_agent);
        proof {
            assert(view_of_fields(fields@) =~= seq![
                ("SlideMasterURLId"@, JsonV::Str(slide_master_url_id@)),
                ("websiteURL"@, JsonV::Str(website_url@)),
                ("userAgent"@, JsonV::Str(user_agent@)),
            ]);
        }
        field_opt_string(&mut fields, "proxy", proxy);
        Ok(Task { kind: kind.to_owned(), fields })
    }

    /// Builds a Cloudflare turnstile task; every member is required.
    pub fn cloudfare_turnstile(
        &self,
        website_url: &str,
        website_key: &str,
        metadata: Vec<(String, String)>,
        proxy: &str,
    ) -> (t: Task)
        ensures
            t.kind@ == "AntiCloudflareTask"@,
            view_of_fields(t.fields@) == cloudfare_turnstile_fields(
                website_url@,
                website_key@,
                JsonV::Obj(crate::task::pairs_view(metadata@)),
                proxy@,
            ),
            t.wf_task(),
    {
        let ghost gmeta = metadata@;
        let mut fields: Vec<(String, JsonValue)> = Vec::new();
        proof {
            assert(view_of_fields(fields@) =~= Seq::<(Seq<char>, JsonV)>::empty());
            assert(crate::json::wf_fields(view_of_fields(fields@)));
        }
        field_str(&mut fields, "websiteURL", website_url);
        field_str(&mut fields, "websiteKey", website_key);
        let m = str_obj(&metadata);
        field_value(&mut fields, "metadata", m);
        field_str(&mut fields, "proxy", proxy);
        proof {
            assert(view_of_fields(fields@) =~= cloudfare_turnstile_fields(
                website_url@,
                website_key@,
                JsonV::Obj(crate::task::pairs_view(gmeta)),
                proxy@,
            ));
        }
        Task { kind: String::from_str("AntiCloudflareTask"), fields }
    }

    /// Builds a Cloudflare challenge task; every member is required.
    pub fn cloudfare_challange(
        &self,
        website_url: &str,
        metadata: Vec<(String, String)>,
        html: &str,
        proxy: &str,
    ) -> (t: Task)
        ensures
            t.kind@ == "AntiCloudflareTask"@,
            view_of_fields(t.fields@) == cloudfare_challange_fields(
                website_url@,
                html@,
                JsonV::Obj(crate::task::pairs_view(metadata@)),
                proxy@,
            ),
            t.wf_task(),
    {
        let ghost gmeta = metadata@;
        let mut fields: Vec<(String, JsonValue)> = Vec::new();
        proof {
            assert(view_of_fields(fields@) =~= Seq::<(Seq<char>, JsonV)>::empty());
            assert(crate::json::wf_fields(view_of_fields(fields@)));
        }
        field_str(&mut fields, "websiteURL", website_url);
        field_str(&mut fields, "html", html);
        let m = str_obj(&metadata);
        field_value(&mut fields, "metadata", m);
        field_str(&mut fields, "proxy", proxy);
        proof {
            assert(view_of_fields(fields@) =~= cloudfare_challange_fields(
                website_url@,
                html@,
                JsonV::Obj(crate::task::pairs_view(gmeta)),
                proxy@,
            ));
        }
        Task { kind: String::from_str("AntiCloudflareTask"), fields }
    }
}

} // verus!
