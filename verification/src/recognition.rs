//! Payload builders for the classification-style challenge families.

use vstd::prelude::*;
use crate::error::Error;
use crate::json::{view_of_fields, view_of_list, JsonV, JsonValue};
use crate::session::Config;
use crate::task::{
    field_bool, field_opt_str, field_str, field_string, field_value, norm, ov, push_opt_str,
    score_decimal, Task,
};

verus! {

/// Builders for recognition tasks: the service classifies or reads an
/// image and answers directly.
pub struct Recognition {
    pub config: Config,
}

/// The two recognition modules the image reader supports.
pub open spec fn module_ok(m: Option<Seq<char>>) -> bool {
    match m {
        Some(s) => s == "common"@ || s == "queueit"@,
        None => true,
    }
}

/// Scores are given in hundred-thousandths of a point; the service
/// accepts the closed interval from 0.8 to 1.
pub open spec fn score_ok(s: Option<u32>) -> bool {
    match s {
        Some(v) => 80000 <= v <= 100000,
        None => true,
    }
}

/// The number member a supplied score becomes.
pub open spec fn score_field(s: u32) -> JsonV {
    JsonV::Num { units: norm(s as int, 5).0, scale: norm(s as int, 5).1 }
}

/// The members of an image-to-text task: the image, the optional
/// module and score, and the case flag (false unless requested).
pub open spec fn image_to_text_fields(
    img: Seq<char>,
    module: Option<Seq<char>>,
    score: Option<u32>,
    case_sensitive: Option<bool>,
) -> Seq<(Seq<char>, JsonV)> {
    let b1 = push_opt_str(seq![("body"@, JsonV::Str(img))], "module"@, module);
    let b2 = match score {
        Some(s) => b1.push(("score"@, score_field(s))),
        None => b1,
    };
    b2.push(
        ("case"@, JsonV::Bool(
            match case_sensitive {
                Some(b) => b,
                None => false,
            },
        )),
    )
}

/// The members of a query-classification task.
pub open spec fn queries_fields(
    key: Seq<char>,
    queries: Seq<Seq<char>>,
    question: Seq<char>,
) -> Seq<(Seq<char>, JsonV)> {
    seq![
        (key, JsonV::Arr(queries.map_values(|q: Seq<char>| JsonV::Str(q)))),
        ("question"@, JsonV::Str(question)),
    ]
}

/// The members of a single-image classification task.
pub open spec fn image_question_fields(img: Seq<char>, question: Seq<char>) -> Seq<
    (Seq<char>, JsonV),
> {
    seq![("image"@, JsonV::Str(img)), ("question"@, JsonV::Str(question))]
}

/// An all-string array, as query and image lists travel.
pub fn str_arr(ss: Vec<String>) -> (r: JsonValue)
    ensures
        r@ == JsonV::Arr(
            crate::session::strings_view(ss@).map_values(|q: Seq<char>| JsonV::Str(q)),
        ),
        crate::json::wf(r@),
{
    let n = ss.len();
    let ghost gss = ss@;
    let mut els: Vec<JsonValue> = Vec::new();
    let mut i: usize = 0;
    let ghost target = crate::session::strings_view(gss).map_values(|q: Seq<char>| JsonV::Str(q));
    proof {
        assert(view_of_list(els@) =~= target.take(0));
    }
    while i < n
        invariant
            n == gss.len(),
            i <= n,
            ss@ == gss,
            target == crate::session::strings_view(gss).map_values(
                |q: Seq<char>| JsonV::Str(q),
            ),
            view_of_list(els@) == target.take(i as int),
            crate::json::wf_list(view_of_list(els@)),
        decreases n - i,
    {
        let x = JsonValue::Str(ss[i].clone());
        proof {
            crate::json::lemma_view_list_push(els@, x);
            assert(target.take(i + 1) =~= target.take(i as int).push(JsonV::Str(gss[i as int]@)));
            crate::task::lemma_wf_list_snoc_value(view_of_list(els@), x@);
        }
        els.push(x);
        i = i + 1;
    }
    proof {
        assert(target.take(n as int) =~= target);
    }
    JsonValue::Arr(els)
}

/// With no optionals supplied, an image-to-text task carries exactly
/// the image and the default case flag; no omitted option appears
/// under any key.
pub proof fn lemma_image_to_text_omits_absent_optionals(img: Seq<char>)
    ensures
        image_to_text_fields(img, None, None, None) == seq![
            ("body"@, JsonV::Str(img)),
            ("case"@, JsonV::Bool(false)),
        ],
{
    assert(image_to_text_fields(img, None, None, None) =~= seq![
        ("body"@, JsonV::Str(img)),
        ("case"@, JsonV::Bool(false)),
    ]);
}

impl Recognition {
    /// Builds an image-to-text task.  The optional module must be one
    /// the service knows and the optional score must lie between 0.8
    /// and 1 (given in hundred-thousandths); case sensitivity is off
    /// unless requested.
    pub fn image_to_text(
        &self,
        img: String,
        module: Option<&str>,
        score: Option<u32>,
        case_sensitive: Option<bool>,
    ) -> (r: Result<Task, Error>)
        ensures
            match r {
                Ok(t) => {
                    &&& module_ok(ov(module))
                    &&& score_ok(score)
                    &&& t.kind@ == "ImageToTextTask"@
                    &&& view_of_fields(t.fields@) == image_to_text_fields(
                        img@,
                        ov(module),
                        score,
                        case_sensitive,
                    )
                    &&& t.wf_task()
                },
                Err(e) => match e {
                    Error::UnsupportedModule => !module_ok(ov(module)),
                    Error::ScoreOutOfRange => module_ok(ov(module)) && !score_ok(score),
                    _ => false,
                },
            },
    {
        match module {
            Some(m) => {
                if !(crate::json::str_eq(m, "common") || crate::json::str_eq(m, "queueit")) {
                    return Err(Error::UnsupportedModule);
                }
            },
            None => {},
        }
        match score {
            Some(s) => {
                if s < 80000 || s > 100000 {
                    return Err(Error::ScoreOutOfRange);
                }
            },
            None => {},
        }
        let mut fields: Vec<(String, JsonValue)> = Vec::new();
        proof {
            assert(view_of_fields(fields@) =~= Seq::<(Seq<char>, JsonV)>::empty());
            assert(crate::json::wf_fields(view_of_fields(fields@)));
        }
        field_string(&mut fields, "body", img);
        proof {
            assert(view_of_fields(fields@) =~= seq![("body"@, JsonV::Str(img@))]);
        }
        field_opt_str(&mut fields, "module", module);
        match score {
            Some(s) => {
                let d = score_decimal(s);
                field_value(&mut fields, "score", JsonValue::Num { units: d.units, scale: d.scale });
            },
            None => {},
        }
        field_bool(
            &mut fields,
            "case",
            match case_sensitive {
                Some(b) => b,
                None => false,
            },
        );
        Ok(Task { kind: String::from_str("ImageToTextTask"), fields })
    }

    /// Builds a query-classification task for picture grids.
    pub fn h_captcha(&self, queries: Vec<String>, question: &str) -> (t: Task)
        ensures
            t.kind@ == "HCaptchaClassification"@,
            view_of_fields(t.fields@) == queries_fields(
                "queries"@,
                crate::session::strings_view(queries@),
                question@,
            ),
            t.wf_task(),
    {
        let mut fields: Vec<(String, JsonValue)> = Vec::new();
        proof {
            assert(view_of_fields(fields@) =~= Seq::<(Seq<char>, JsonV)>::empty());
            assert(crate::json::wf_fields(view_of_fields(fields@)));
        }
        field_value(&mut fields, "queries", str_arr(queries));
        field_str(&mut fields, "question", question);
        proof {
            assert(view_of_fields(fields@) =~= queries_fields(
                "queries"@,
                crate::session::strings_view(queries@),
                question@,
            ));
        }
        Task { kind: String::from_str("HCaptchaClassification"), fields }
    }

    /// Builds an image-classification task for interactive puzzles.
    pub fn fun_captcha(&self, imgs: Vec<String>, question: &str) -> (t: Task)
        ensures
            t.kind@ == "FunCaptchaClassification"@,
            view_of_fields(t.fields@) == queries_fields(
                "images"@,
                crate::session::strings_view(imgs@),
                question@,
            ),
            t.wf_task(),
    {
        let mut fields: Vec<(String, JsonValue)> = Vec::new();
        proof {
            assert(view_of_fields(fields@) =~= Seq::<(Seq<char>, JsonV)>::empty());
            assert(crate::json::wf_fields(view_of_fields(fields@)));
        }
        field_value(&mut fields, "images", str_arr(imgs));
        field_str(&mut fields, "question", question);
        proof {
            assert(view_of_fields(fields@) =~= queries_fields(
                "images"@,
                crate::session::strings_view(imgs@),
                question@,
            ));
        }
        Task { kind: String::from_str("FunCaptchaClassification"), fields }
    }

    /// Builds a single-image classification task for checkbox grids.
    pub fn re_captcha(&self, img: String, question: &str) -> (t: Task)
        ensures
            t.kind@ == "ReCaptchaV2Classification"@,
            view_of_fields(t.fields@) == image_question_fields(img@, question@),
            t.wf_task(),
    {
        let mut fields: Vec<(String, JsonValue)> = Vec::new();
        proof {
            assert(view_of_fields(fields@) =~= Seq::<(Seq<char>, JsonV)>::empty());
            assert(crate::json::wf_fields(view_of_fields(fields@)));
        }
        field_string(&mut fields, "image", img);
        field_str(&mut fields, "question", question);
        proof {
            assert(view_of_fields(fields@) =~= image_question_fields(img@, question@));
        }
        Task { kind: String::from_str("ReCaptchaV2Classification"), fields }
    }

    /// Builds an image-classification task for WAF puzzles.
    pub fn aws_waf(&self, imgs: Vec<String>, question: &str) -> (t: Task)
        ensures
            t.kind@ == "AwsWafClassification"@,
            view_of_fields(t.fields@) == queries_fields(
                "images"@,
                crate::session::strings_view(imgs@),
                question@,
            ),
            t.wf_task(),
    {
        let mut fields: Vec<(String, JsonValue)> = Vec::new();
        proof {
            assert(view_of_fields(fields@) =~= Seq::<(Seq<char>, JsonV)>::empty());
            assert(crate::json::wf_fields(view_of_fields(fields@)));
        }
        field_value(&mut fields, "images", str_arr(imgs));
        field_str(&mut fields, "question", question);
        proof {
            assert(view_of_fields(fields@) =~= queries_fields(
                "images"@,
                crate::session::strings_view(imgs@),
                question@,
            ));
        }
        Task { kind: String::from_str("AwsWafClassification"), fields }
    }
}

} // verus!
