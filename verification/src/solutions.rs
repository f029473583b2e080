//! The typed shapes a task's solution decodes into, one per challenge
//! family, with their wire encodings and round-trip laws.

use vstd::prelude::*;
use crate::json::{lookup, obj_lookup, JsonV, JsonValue};
use crate::session::{env_int, env_str};

verus! {

/// Whether a mathematical integer fits the machine's signed word.
pub open spec fn in_isize(n: int) -> bool {
    isize::MIN <= n <= isize::MAX
}

fn get_str(v: &JsonValue, key: &str) -> (r: Option<String>)
    ensures
        match r {
            Some(s) => env_str(v@, key@) == Some(s@),
            None => env_str(v@, key@) is None,
        },
{
    match v.get(key) {
        Some(f) => match f.as_str() {
            Some(s) => Some(s.clone()),
            None => None,
        },
        None => None,
    }
}

fn get_isize(v: &JsonValue, key: &str) -> (r: Option<isize>)
    ensures
        match r {
            Some(n) => env_int(v@, key@) == Some(n as int),
            None => match env_int(v@, key@) {
                Some(m) => !in_isize(m),
                None => true,
            },
        },
{
    match v.get(key) {
        Some(f) => match f.as_int() {
            Some(n) => {
                if n >= (isize::MIN as i64) && n <= (isize::MAX as i64) {
                    Some(n as isize)
                } else {
                    None
                }
            },
            None => None,
        },
        None => None,
    }
}

/// A solution that is one bare token.
pub struct OnlyToken {
    pub token: String,
}

impl View for OnlyToken {
    type V = Seq<char>;

    open spec fn view(&self) -> Seq<char> {
        self.token@
    }
}

/// The token of a solution document, when it has one.
pub open spec fn only_token_of(v: JsonV) -> Option<Seq<char>> {
    env_str(v, "token"@)
}

impl OnlyToken {
    /// Decodes a solution document into a bare token.
    pub fn from_json(v: &JsonValue) -> (r: Option<OnlyToken>)
        ensures
            match r {
                Some(t) => only_token_of(v@) == Some(t@),
                None => only_token_of(v@) is None,
            },
    {
        match get_str(v, "token") {
            Some(token) => Some(OnlyToken { token }),
            None => None,
        }
    }
}

/// A WAF solution: one session cookie.
pub struct AwsWafToken {
    pub cookie: String,
}

impl View for AwsWafToken {
    type V = Seq<char>;

    open spec fn view(&self) -> Seq<char> {
        self.cookie@
    }
}

/// The cookie of a WAF solution document, when it has one.
pub open spec fn aws_waf_token_of(v: JsonV) -> Option<Seq<char>> {
    env_str(v, "cookie"@)
}

impl AwsWafToken {
    /// Decodes a solution document into a WAF cookie.
    pub fn from_json(v: &JsonValue) -> (r: Option<AwsWafToken>)
        ensures
            match r {
                Some(t) => aws_waf_token_of(v@) == Some(t@),
                None => aws_waf_token_of(v@) is None,
            },
    {
        match get_str(v, "cookie") {
            Some(cookie) => Some(AwsWafToken { cookie }),
            None => None,
        }
    }
}

/// A legacy slider solution: the challenge and its validation string.
pub struct GeeTestV3Token {
    pub challenge: String,
    pub validate: String,
}

/// Mathematical shape of a [`GeeTestV3Token`].
pub struct GeeTestV3TokenV {
    pub challenge: Seq<char>,
    pub validate: Seq<char>,
}

impl View for GeeTestV3Token {
    type V = GeeTestV3TokenV;

    open spec fn view(&self) -> GeeTestV3TokenV {
        GeeTestV3TokenV { challenge: self.challenge@, validate: self.validate@ }
    }
}

/// The challenge and validation strings of a solution document.
pub open spec fn gee_test_v3_of(v: JsonV) -> Option<GeeTestV3TokenV> {
    match (env_str(v, "challenge"@), env_str(v, "validate"@)) {
        (Some(c), Some(va)) => Some(GeeTestV3TokenV { challenge: c, validate: va }),
        _ => None,
    }
}

impl GeeTestV3Token {
    /// Decodes a solution document into a legacy slider solution.
    pub fn from_json(v: &JsonValue) -> (r: Option<GeeTestV3Token>)
        ensures
            match r {
                Some(t) => gee_test_v3_of(v@) == Some(t@),
                None => gee_test_v3_of(v@) is None,
            },
    {
        let challenge = match get_str(v, "challenge") {
            Some(s) => s,
            None => {
                return None;
            },
        };
        match get_str(v, "validate") {
            Some(validate) => Some(GeeTestV3Token { challenge, validate }),
            None => None,
        }
    }
}

/// An hCaptcha solution: the response token and its browser context.
pub struct HCaptchaToken {
    pub user_agent: String,
    pub expire_time: isize,
    pub timestamp: isize,
    pub captcha_key: String,
    pub g_recaptcha_response: String,
}

/// Mathematical shape of an [`HCaptchaToken`].
pub struct HCaptchaTokenV {
    pub user_agent: Seq<char>,
    pub expire_time: int,
    pub timestamp: int,
    pub captcha_key: Seq<char>,
    pub g_recaptcha_response: Seq<char>,
}

impl View for HCaptchaToken {
    type V = HCaptchaTokenV;

    open spec fn view(&self) -> HCaptchaTokenV {
        HCaptchaTokenV {
            user_agent: self.user_agent@,
            expire_time: self.expire_time as int,
            timestamp: self.timestamp as int,
            captcha_key: self.captcha_key@,
            g_recaptcha_response: self.g_recaptcha_response@,
        }
    }
}

/// The members of an hCaptcha solution document, when it has them all
/// and its times fit the machine word.
pub open spec fn h_captcha_token_of(v: JsonV) -> Option<HCaptchaTokenV> {
    match (env_str(v, "userAgent"@), env_int(v, "expireTime"@), env_int(v, "timestamp"@), env_str(
        v,
        "captchaKey"@,
    ), env_str(v, "gRecaptchaResponse"@)) {
        (Some(ua), Some(et), Some(ts), Some(ck), Some(gr)) => if in_isize(et) && in_isize(ts) {
            Some(
                HCaptchaTokenV {
                    user_agent: ua,
                    expire_time: et,
                    timestamp: ts,
                    captcha_key: ck,
                    g_recaptcha_response: gr,
                },
            )
        } else {
            None
        },
        _ => None,
    }
}

/// The document an hCaptcha solution encodes back to.
pub open spec fn h_captcha_token_doc(t: HCaptchaTokenV) -> JsonV {
    JsonV::Obj(
        seq![
            ("userAgent"@, JsonV::Str(t.user_agent)),
            ("expireTime"@, JsonV::Num { units: t.expire_time, scale: 0 }),
            ("timestamp"@, JsonV::Num { units: t.timestamp, scale: 0 }),
            ("captchaKey"@, JsonV::Str(t.captcha_key)),
            ("gRecaptchaResponse"@, JsonV::Str(t.g_recaptcha_response)),
        ],
    )
}

impl HCaptchaToken {
    /// Decodes a solution document into an hCaptcha solution.
    pub fn from_json(v: &JsonValue) -> (r: Option<HCaptchaToken>)
        ensures
            match r {
                Some(t) => h_captcha_token_of(v@) == Some(t@),
                None => h_captcha_token_of(v@) is None,
            },
    {
        let user_agent = match get_str(v, "userAgent") {
            Some(s) => s,
            None => {
                return None;
            },
        };
        let expire_time = match get_isize(v, "expireTime") {
            Some(n) => n,
            None => {
                return None;
            },
        };
        let timestamp = match get_isize(v, "timestamp") {
            Some(n) => n,
            None => {
                return None;
            },
        };
        let captcha_key = match get_str(v, "captchaKey") {
            Some(s) => s,
            None => {
                return None;
            },
        };
        match get_str(v, "gRecaptchaResponse") {
            Some(g_recaptcha_response) => Some(
                HCaptchaToken {
                    user_agent,
                    expire_time,
                    timestamp,
                    captcha_key,
                    g_recaptcha_response,
                },
            ),
            None => None,
        }
    }

    /// Re-encodes the solution as its wire document.
    pub fn to_json(&self) -> (r: JsonValue)
        ensures
            r@ == h_captcha_token_doc(self@),
    {
        let mut fs: Vec<(String, JsonValue)> = Vec::new();
        fs.push((String::from_str("userAgent"), JsonValue::Str(self.user_agent.clone())));
        fs.push((
            String::from_str("expireTime"),
            JsonValue::Num { units: self.expire_time as i64, scale: 0 },
        ));
        fs.push((
            String::from_str("timestamp"),
            JsonValue::Num { units: self.timestamp as i64, scale: 0 },
        ));
        fs.push((String::from_str("captchaKey"), JsonValue::Str(self.captcha_key.clone())));
        fs.push((
            String::from_str("gRecaptchaResponse"),
            JsonValue::Str(self.g_recaptcha_response.clone()),
        ));
        proof {
            crate::json::lemma_view_fields_index(fs@);
            assert(crate::json::view_of_fields(fs@) =~= h_captcha_token_doc(self@)->Obj_0);
        }
        JsonValue::Obj(fs)
    }
}

/// Decoding an hCaptcha solution out of its own encoding gives the
/// solution back unchanged.
pub proof fn lemma_h_captcha_round_trip(t: HCaptchaTokenV)
    requires
        in_isize(t.expire_time),
        in_isize(t.timestamp),
    ensures
        h_captcha_token_of(h_captcha_token_doc(t)) == Some(t),
{
    reveal_with_fuel(obj_lookup, 6);
    reveal_strlit("userAgent");
    reveal_strlit("expireTime");
    reveal_strlit("timestamp");
    reveal_strlit("captchaKey");
    reveal_strlit("gRecaptchaResponse");
    assert("userAgent"@.len() == 9);
    assert("userAgent"@[0] == 'u');
    assert("expireTime"@.len() == 10);
    assert("expireTime"@[0] == 'e');
    assert("timestamp"@.len() == 9);
    assert("timestamp"@[0] == 't');
    assert("captchaKey"@.len() == 10);
    assert("captchaKey"@[0] == 'c');
    assert("gRecaptchaResponse"@.len() == 18);
    assert("gRecaptchaResponse"@[0] == 'g');
    let fs = h_captcha_token_doc(t)->Obj_0;
    assert(fs.drop_first() =~= seq![("expireTime"@, JsonV::Num { units: t.expire_time, scale: 0 }), ("timestamp"@, JsonV::Num { units: t.timestamp, scale: 0 }), ("captchaKey"@, JsonV::Str(t.captcha_key)), ("gRecaptchaResponse"@, JsonV::Str(t.g_recaptcha_response))]);
    assert((seq![("expireTime"@, JsonV::Num { units: t.expire_time, scale: 0 }), ("timestamp"@, JsonV::Num { units: t.timestamp, scale: 0 }), ("captchaKey"@, JsonV::Str(t.captcha_key)), ("gRecaptchaResponse"@, JsonV::Str(t.g_recaptcha_response))]).drop_first() =~= seq![("timestamp"@, JsonV::Num { units: t.timestamp, scale: 0 }), ("captchaKey"@, JsonV::Str(t.captcha_key)), ("gRecaptchaResponse"@, JsonV::Str(t.g_recaptcha_response))]);
    assert((seq![("timestamp"@, JsonV::Num { units: t.timestamp, scale: 0 }), ("captchaKey"@, JsonV::Str(t.captcha_key)), ("gRecaptchaResponse"@, JsonV::Str(t.g_recaptcha_response))]).drop_first() =~= seq![("captchaKey"@, JsonV::Str(t.captcha_key)), ("gRecaptchaResponse"@, JsonV::Str(t.g_recaptcha_response))]);
    assert((seq![("captchaKey"@, JsonV::Str(t.captcha_key)), ("gRecaptchaResponse"@, JsonV::Str(t.g_recaptcha_response))]).drop_first() =~= seq![("gRecaptchaResponse"@, JsonV::Str(t.g_recaptcha_response))]);
    assert(obj_lookup(fs, "userAgent"@) == Some(JsonV::Str(t.user_agent)));
    assert(obj_lookup(fs, "expireTime"@) == Some(JsonV::Num { units: t.expire_time, scale: 0 }));
    assert(obj_lookup(fs, "timestamp"@) == Some(JsonV::Num { units: t.timestamp, scale: 0 }));
    assert(obj_lookup(fs, "captchaKey"@) == Some(JsonV::Str(t.captcha_key)));
    assert(obj_lookup(fs, "gRecaptchaResponse"@) == Some(JsonV::Str(t.g_recaptcha_response)));
}

/// A current slider solution: the full evidence record.
pub struct GeeTestV4Token {
    pub captcha_id: String,
    pub captcha_output: String,
    pub gen_time: String,
    pub lot_number: String,
    pub pass_token: String,
    pub risk_type: String,
}

/// Mathematical shape of a [`GeeTestV4Token`].
pub struct GeeTestV4TokenV {
    pub captcha_id: Seq<char>,
    pub captcha_output: Seq<char>,
    pub gen_time: Seq<char>,
    pub lot_number: Seq<char>,
    pub pass_token: Seq<char>,
    pub risk_type: Seq<char>,
}

impl View for GeeTestV4Token {
    type V = GeeTestV4TokenV;

    open spec fn view(&self) -> GeeTestV4TokenV {
        GeeTestV4TokenV {
            captcha_id: self.captcha_id@,
            captcha_output: self.captcha_output@,
            gen_time: self.gen_time@,
            lot_number: self.lot_number@,
            pass_token: self.pass_token@,
            risk_type: self.risk_type@,
        }
    }
}

/// The members of a current slider solution document.
pub open spec fn gee_test_v4_of(v: JsonV) -> Option<GeeTestV4TokenV> {
    match (env_str(v, "captchaId"@), env_str(v, "captchaOutput"@), env_str(v, "genTime"@), env_str(
        v,
        "lotNumber"@,
    ), env_str(v, "passToken"@), env_str(v, "riskType"@)) {
        (Some(ci), Some(co), Some(gt), Some(ln), Some(pt), Some(rt)) => Some(
            GeeTestV4TokenV {
                captcha_id: ci,
                captcha_output: co,
                gen_time: gt,
                lot_number: ln,
                pass_token: pt,
                risk_type: rt,
            },
        ),
        _ => None,
    }
}

/// The document a current slider solution encodes back to.
pub open spec fn gee_test_v4_doc(t: GeeTestV4TokenV) -> JsonV {
    JsonV::Obj(
        seq![
            ("captchaId"@, JsonV::Str(t.captcha_id)),
            ("captchaOutput"@, JsonV::Str(t.captcha_output)),
            ("genTime"@, JsonV::Str(t.gen_time)),
            ("lotNumber"@, JsonV::Str(t.lot_number)),
            ("passToken"@, JsonV::Str(t.pass_token)),
            ("riskType"@, JsonV::Str(t.risk_type)),
        ],
    )
}

impl GeeTestV4Token {
    /// Decodes a solution document into a current slider solution.
    pub fn from_json(v: &JsonValue) -> (r: Option<GeeTestV4Token>)
        ensures
            match r {
                Some(t) => gee_test_v4_of(v@) == Some(t@),
                None => gee_test_v4_of(v@) is None,
            },
    {
        let captcha_id = match get_str(v, "captchaId") {
            Some(s) => s,
            None => {
                return None;
            },
        };
        let captcha_output = match get_str(v, "captchaOutput") {
            Some(s) => s,
            None => {
                return None;
            },
        };
        let gen_time = match get_str(v, "genTime") {
            Some(s) => s,
            None => {
                return None;
            },
        };
        let lot_number = match get_str(v, "lotNumber") {
            Some(s) => s,
            None => {
                return None;
            },
        };
        let pass_token = match get_str(v, "passToken") {
            Some(s) => s,
            None => {
                return None;
            },
        };
        match get_str(v, "riskType") {
            Some(risk_type) => Some(
                GeeTestV4Token {
                    captcha_id,
                    captcha_output,
                    gen_time,
                    lot_number,
                    pass_token,
                    risk_type,
                },
            ),
            None => None,
        }
    }

    /// Re-encodes the solution as its wire document.
    pub fn to_json(&self) -> (r: JsonValue)
        ensures
            r@ == gee_test_v4_doc(self@),
    {
        let mut fs: Vec<(String, JsonValue)> = Vec::new();
        fs.push((String::from_str("captchaId"), JsonValue::Str(self.captcha_id.clone())));
        fs.push((String::from_str("captchaOutput"), JsonValue::Str(self.captcha_output.clone())));
        fs.push((String::from_str("genTime"), JsonValue::Str(self.gen_time.clone())));
        fs.push((String::from_str("lotNumber"), JsonValue::Str(self.lot_number.clone())));
        fs.push((String::from_str("passToken"), JsonValue::Str(self.pass_token.clone())));
        fs.push((String::from_str("riskType"), JsonValue::Str(self.risk_type.clone())));
        proof {
            crate::json::lemma_view_fields_index(fs@);
            assert(crate::json::view_of_fields(fs@) =~= gee_test_v4_doc(self@)->Obj_0);
        }
        JsonValue::Obj(fs)
    }
}

/// Decoding a current slider solution out of its own encoding gives
/// the solution back unchanged.
pub proof fn lemma_gee_test_v4_round_trip(t: GeeTestV4TokenV)
    ensures
        gee_test_v4_of(gee_test_v4_doc(t)) == Some(t),
{
    reveal_with_fuel(obj_lookup, 7);
    reveal_strlit("captchaId");
    reveal_strlit("captchaOutput");
    reveal_strlit("genTime");
    reveal_strlit("lotNumber");
    reveal_strlit("passToken");
    reveal_strlit("riskType");
    assert("captchaId"@.len() == 9);
    assert("captchaId"@[0] == 'c');
    assert("captchaOutput"@.len() == 13);
    assert("captchaOutput"@[0] == 'c');
    assert("genTime"@.len() == 7);
    assert("genTime"@[0] == 'g');
    assert("lotNumber"@.len() == 9);
    assert("lotNumber"@[0] == 'l');
    assert("passToken"@.len() == 9);
    assert("passToken"@[0] == 'p');
    assert("riskType"@.len() == 8);
    assert("riskType"@[0] == 'r');
    let fs = gee_test_v4_doc(t)->Obj_0;
    assert(fs.drop_first() =~= seq![("captchaOutput"@, JsonV::Str(t.captcha_output)), ("genTime"@, JsonV::Str(t.gen_time)), ("lotNumber"@, JsonV::Str(t.lot_number)), ("passToken"@, JsonV::Str(t.pass_token)), ("riskType"@, JsonV::Str(t.risk_type))]);
    assert((seq![("captchaOutput"@, JsonV::Str(t.captcha_output)), ("genTime"@, JsonV::Str(t.gen_time)), ("lotNumber"@, JsonV::Str(t.lot_number)), ("passToken"@, JsonV::Str(t.pass_token)), ("riskType"@, JsonV::Str(t.risk_type))]).drop_first() =~= seq![("genTime"@, JsonV::Str(t.gen_time)), ("lotNumber"@, JsonV::Str(t.lot_number)), ("passToken"@, JsonV::Str(t.pass_token)), ("riskType"@, JsonV::Str(t.risk_type))]);
    assert((seq![("genTime"@, JsonV::Str(t.gen_time)), ("lotNumber"@, JsonV::Str(t.lot_number)), ("passToken"@, JsonV::Str(t.pass_token)), ("riskType"@, JsonV::Str(t.risk_type))]).drop_first() =~= seq![("lotNumber"@, JsonV::Str(t.lot_number)), ("passToken"@, JsonV::Str(t.pass_token)), ("riskType"@, JsonV::Str(t.risk_type))]);
    assert((seq![("lotNumber"@, JsonV::Str(t.lot_number)), ("passToken"@, JsonV::Str(t.pass_token)), ("riskType"@, JsonV::Str(t.risk_type))]).drop_first() =~= seq![("passToken"@, JsonV::Str(t.pass_token)), ("riskType"@, JsonV::Str(t.risk_type))]);
    assert((seq![("passToken"@, JsonV::Str(t.pass_token)), ("riskType"@, JsonV::Str(t.risk_type))]).drop_first() =~= seq![("riskType"@, JsonV::Str(t.risk_type))]);
    assert(obj_lookup(fs, "captchaId"@) == Some(JsonV::Str(t.captcha_id)));
    assert(obj_lookup(fs, "captchaOutput"@) == Some(JsonV::Str(t.captcha_output)));
    assert(obj_lookup(fs, "genTime"@) == Some(JsonV::Str(t.gen_time)));
    assert(obj_lookup(fs, "lotNumber"@) == Some(JsonV::Str(t.lot_number)));
    assert(obj_lookup(fs, "passToken"@) == Some(JsonV::Str(t.pass_token)));
    assert(obj_lookup(fs, "riskType"@) == Some(JsonV::Str(t.risk_type)));
}

/// A checkbox or scored solution: the response token and its browser
/// context.
pub struct ReCaptchaToken {
    pub user_agent: String,
    pub expire_time: isize,
    pub g_recaptcha_response: String,
}

/// Mathematical shape of a [`ReCaptchaToken`].
pub struct ReCaptchaTokenV {
    pub user_agent: Seq<char>,
    pub expire_time: int,
    pub g_recaptcha_response: Seq<char>,
}

impl View for ReCaptchaToken {
    type V = ReCaptchaTokenV;

    open spec fn view(&self) -> ReCaptchaTokenV {
        ReCaptchaTokenV {
            user_agent: self.user_agent@,
            expire_time: self.expire_time as int,
            g_recaptcha_response: self.g_recaptcha_response@,
        }
    }
}

/// The members of a checkbox solution document.
pub open spec fn re_captcha_token_of(v: JsonV) -> Option<ReCaptchaTokenV> {
    match (env_str(v, "userAgent"@), env_int(v, "expireTime"@), env_str(
        v,
        "gRecaptchaResponse"@,
    )) {
        (Some(ua), Some(et), Some(gr)) => if in_isize(et) {
            Some(
                ReCaptchaTokenV { user_agent: ua, expire_time: et, g_recaptcha_response: gr },
            )
        } else {
            None
        },
        _ => None,
    }
}

/// The document a checkbox solution encodes back to.
pub open spec fn re_captcha_token_doc(t: ReCaptchaTokenV) -> JsonV {
    JsonV::Obj(
        seq![
            ("userAgent"@, JsonV::Str(t.user_agent)),
            ("expireTime"@, JsonV::Num { units: t.expire_time, scale: 0 }),
            ("gRecaptchaResponse"@, JsonV::Str(t.g_recaptcha_response)),
        ],
    )
}

impl ReCaptchaToken {
    /// Decodes a solution document into a checkbox solution.
    pub fn from_json(v: &JsonValue) -> (r: Option<ReCaptchaToken>)
        ensures
            match r {
                Some(t) => re_captcha_token_of(v@) == Some(t@),
                None => re_captcha_token_of(v@) is None,
            },
    {
        let user_agent = match get_str(v, "userAgent") {
            Some(s) => s,
            None => {
                return None;
            },
        };
        let expire_time = match get_isize(v, "expireTime") {
            Some(n) => n,
            None => {
                return None;
            },
        };
        match get_str(v, "gRecaptchaResponse") {
            Some(g_recaptcha_response) => Some(
                ReCaptchaToken { user_agent, expire_time, g_recaptcha_response },
            ),
            None => None,
        }
    }

    /// Re-encodes the solution as its wire document.
    pub fn to_json(&self) -> (r: JsonValue)
        ensures
            r@ == re_captcha_token_doc(self@),
    {
        let mut fs: Vec<(String, JsonValue)> = Vec::new();
        fs.push((String::from_str("userAgent"), JsonValue::Str(self.user_agent.clone())));
        fs.push((
            String::from_str("expireTime"),
            JsonValue::Num { units: self.expire_time as i64, scale: 0 },
        ));
        fs.push((
            String::from_str("gRecaptchaResponse"),
            JsonValue::Str(self.g_recaptcha_response.clone()),
        ));
        proof {
            crate::json::lemma_view_fields_index(fs@);
            assert(crate::json::view_of_fields(fs@) =~= re_captcha_token_doc(self@)->Obj_0);
        }
        JsonValue::Obj(fs)
    }
}

/// Decoding a checkbox solution out of its own encoding gives the
/// solution back unchanged.
pub proof fn lemma_re_captcha_round_trip(t: ReCaptchaTokenV)
    requires
        in_isize(t.expire_time),
    ensures
        re_captcha_token_of(re_captcha_token_doc(t)) == Some(t),
{
    reveal_with_fuel(obj_lookup, 4);
    reveal_strlit("userAgent");
    reveal_strlit("expireTime");
    reveal_strlit("gRecaptchaResponse");
    assert("userAgent"@.len() == 9);
    assert("userAgent"@[0] == 'u');
    assert("expireTime"@.len() == 10);
    assert("expireTime"@[0] == 'e');
    assert("gRecaptchaResponse"@.len() == 18);
    assert("gRecaptchaResponse"@[0] == 'g');
    let fs = re_captcha_token_doc(t)->Obj_0;
    assert(fs.drop_first() =~= seq![("expireTime"@, JsonV::Num { units: t.expire_time, scale: 0 }), ("gRecaptchaResponse"@, JsonV::Str(t.g_recaptcha_response))]);
    assert((seq![("expireTime"@, JsonV::Num { units: t.expire_time, scale: 0 }), ("gRecaptchaResponse"@, JsonV::Str(t.g_recaptcha_response))]).drop_first() =~= seq![("gRecaptchaResponse"@, JsonV::Str(t.g_recaptcha_response))]);
    assert(obj_lookup(fs, "userAgent"@) == Some(JsonV::Str(t.user_agent)));
    assert(obj_lookup(fs, "expireTime"@) == Some(JsonV::Num { units: t.expire_time, scale: 0 }));
    assert(obj_lookup(fs, "gRecaptchaResponse"@) == Some(JsonV::Str(t.g_recaptcha_response)));
}

/// An anti-bot slider solution: the browser context and its clearance
/// cookie tag.
pub struct DataDomeToken {
    pub user_agent: String,
    pub cookie: isize,
}

/// Mathematical shape of a [`DataDomeToken`].
pub struct DataDomeTokenV {
    pub user_agent: Seq<char>,
    pub cookie: int,
}

impl View for DataDomeToken {
    type V = DataDomeTokenV;

    open spec fn view(&self) -> DataDomeTokenV {
        DataDomeTokenV { user_agent: self.user_agent@, cookie: self.cookie as int }
    }
}

/// The members of an anti-bot slider solution document.
pub open spec fn datadome_token_of(v: JsonV) -> Option<DataDomeTokenV> {
    match (env_str(v, "userAgent"@), env_int(v, "cookie"@)) {
        (Some(ua), Some(c)) => if in_isize(c) {
            Some(DataDomeTokenV { user_agent: ua, cookie: c })
        } else {
            None
        },
        _ => None,
    }
}

/// The document an anti-bot slider solution encodes back to.
pub open spec fn datadome_token_doc(t: DataDomeTokenV) -> JsonV {
    JsonV::Obj(
        seq![
            ("userAgent"@, JsonV::Str(t.user_agent)),
            ("cookie"@, JsonV::Num { units: t.cookie, scale: 0 }),
        ],
    )
}

impl DataDomeToken {
    /// Decodes a solution document into an anti-bot slider solution.
    pub fn from_json(v: &JsonValue) -> (r: Option<DataDomeToken>)
        ensures
            match r {
                Some(t) => datadome_token_of(v@) == Some(t@),
                None => datadome_token_of(v@) is None,
            },
    {
        let user_agent = match get_str(v, "userAgent") {
            Some(s) => s,
            None => {
                return None;
            },
        };
        match get_isize(v, "cookie") {
            Some(cookie) => Some(DataDomeToken { user_agent, cookie }),
            None => None,
        }
    }

    /// Re-encodes the solution as its wire document.
    pub fn to_json(&self) -> (r: JsonValue)
        ensures
            r@ == datadome_token_doc(self@),
    {
        let mut fs: Vec<(String, JsonValue)> = Vec::new();
        fs.push((String::from_str("userAgent"), JsonValue::Str(self.user_agent.clone())));
        fs.push((
            String::from_str("cookie"),
            JsonValue::Num { units: self.cookie as i64, scale: 0 },
        ));
        proof {
            crate::json::lemma_view_fields_index(fs@);
            assert(crate::json::view_of_fields(fs@) =~= datadome_token_doc(self@)->Obj_0);
        }
        JsonValue::Obj(fs)
    }
}

/// Decoding an anti-bot slider solution out of its own encoding gives
/// the solution back unchanged.
pub proof fn lemma_datadome_round_trip(t: DataDomeTokenV)
    requires
        in_isize(t.cookie),
    ensures
        datadome_token_of(datadome_token_doc(t)) == Some(t),
{
    reveal_with_fuel(obj_lookup, 3);
    reveal_strlit("userAgent");
    reveal_strlit("cookie");
    assert("userAgent"@.len() == 9);
    assert("userAgent"@[0] == 'u');
    assert("cookie"@.len() == 6);
    assert("cookie"@[0] == 'c');
    let fs = datadome_token_doc(t)->Obj_0;
    assert(fs.drop_first() =~= seq![("cookie"@, JsonV::Num { units: t.cookie, scale: 0 })]);
    assert(obj_lookup(fs, "userAgent"@) == Some(JsonV::Str(t.user_agent)));
    assert(obj_lookup(fs, "cookie"@) == Some(JsonV::Num { units: t.cookie, scale: 0 }));
}

/// A Cloudflare solution: the clearance token, which check produced
/// it, and the browser context.
pub struct CloudfareToken {
    pub token: String,
    /// The wire member `type`; named here for what it tells apart.
    pub kind: String,
    pub user_agent: String,
}

/// Mathematical shape of a [`CloudfareToken`].
pub struct CloudfareTokenV {
    pub token: Seq<char>,
    pub kind: Seq<char>,
    pub user_agent: Seq<char>,
}

impl View for CloudfareToken {
    type V = CloudfareTokenV;

    open spec fn view(&self) -> CloudfareTokenV {
        CloudfareTokenV { token: self.token@, kind: self.kind@, user_agent: self.user_agent@ }
    }
}

/// The members of a Cloudflare solution document.
pub open spec fn cloudfare_token_of(v: JsonV) -> Option<CloudfareTokenV> {
    match (env_str(v, "token"@), env_str(v, "type"@), env_str(v, "userAgent"@)) {
        (Some(t), Some(k), Some(ua)) => Some(
            CloudfareTokenV { token: t, kind: k, user_agent: ua },
        ),
        _ => None,
    }
}

/// The document a Cloudflare solution encodes back to.
pub open spec fn cloudfare_token_doc(t: CloudfareTokenV) -> JsonV {
    JsonV::Obj(
        seq![
            ("token"@, JsonV::Str(t.token)),
            ("type"@, JsonV::Str(t.kind)),
            ("userAgent"@, JsonV::Str(t.user_agent)),
        ],
    )
}

impl CloudfareToken {
    /// Decodes a solution document into a Cloudflare solution.
    pub fn from_json(v: &JsonValue) -> (r: Option<CloudfareToken>)
        ensures
            match r {
                Some(t) => cloudfare_token_of(v@) == Some(t@),
                None => cloudfare_token_of(v@) is None,
            },
    {
        let token = match get_str(v, "token") {
            Some(s) => s,
            None => {
                return None;
            },
        };
        let kind = match get_str(v, "type") {
            Some(s) => s,
            None => {
                return None;
            },
        };
        match get_str(v, "userAgent") {
            Some(user_agent) => Some(CloudfareToken { token, kind, user_agent }),
            None => None,
        }
    }

    /// Re-encodes the solution as its wire document.
    pub fn to_json(&self) -> (r: JsonValue)
        ensures
            r@ == cloudfare_token_doc(self@),
    {
        let mut fs: Vec<(String, JsonValue)> = Vec::new();
        fs.push((String::from_str("token"), JsonValue::Str(self.token.clone())));
        fs.push((String::from_str("type"), JsonValue::Str(self.kind.clone())));
        fs.push((String::from_str("userAgent"), JsonValue::Str(self.user_agent.clone())));
        proof {
            crate::json::lemma_view_fields_index(fs@);
            assert(crate::json::view_of_fields(fs@) =~= cloudfare_token_doc(self@)->Obj_0);
        }
        JsonValue::Obj(fs)
    }
}

/// Decoding a Cloudflare solution out of its own encoding gives the
/// solution back unchanged.
pub proof fn lemma_cloudfare_round_trip(t: CloudfareTokenV)
    ensures
        cloudfare_token_of(cloudfare_token_doc(t)) == Some(t),
{
    reveal_with_fuel(obj_lookup, 4);
    reveal_strlit("token");
    reveal_strlit("type");
    reveal_strlit("userAgent");
    assert("token"@.len() == 5);
    assert("token"@[0] == 't');
    assert("type"@.len() == 4);
    assert("type"@[0] == 't');
    assert("userAgent"@.len() == 9);
    assert("userAgent"@[0] == 'u');
    let fs = cloudfare_token_doc(t)->Obj_0;
    assert(fs.drop_first() =~= seq![("type"@, JsonV::Str(t.kind)), ("userAgent"@, JsonV::Str(t.user_agent))]);
    assert((seq![("type"@, JsonV::Str(t.kind)), ("userAgent"@, JsonV::Str(t.user_agent))]).drop_first() =~= seq![("userAgent"@, JsonV::Str(t.user_agent))]);
    assert(obj_lookup(fs, "token"@) == Some(JsonV::Str(t.token)));
    assert(obj_lookup(fs, "type"@) == Some(JsonV::Str(t.kind)));
    assert(obj_lookup(fs, "userAgent"@) == Some(JsonV::Str(t.user_agent)));
}

} // verus!
