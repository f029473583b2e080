//! Task documents and the small field builders every challenge
//! family's payload is assembled from.

use vstd::prelude::*;
use crate::json::{
    view_of_fields, wf, wf_fields, JsonV, JsonValue, lemma_view_fields_index,
    lemma_view_fields_push, lemma_wf_fields_intro,
};
use crate::session::Config;

verus! {

/// One challenge submission: its `type` tag and the rest of its
/// members, in the order they will appear on the wire.
#[derive(Debug)]
pub struct Task {
    pub kind: String,
    pub fields: Vec<(String, JsonValue)>,
}

/// The document `{"type": <kind>, ...fields}` a task submits as.
pub open spec fn task_doc(kind: Seq<char>, fields: Seq<(Seq<char>, JsonV)>) -> JsonV {
    JsonV::Obj(seq![("type"@, JsonV::Str(kind))] + fields)
}

/// The full request body `{"clientKey": <key>, "task": <task>}`.
pub open spec fn submission_doc(key: Seq<char>, task: JsonV) -> JsonV {
    JsonV::Obj(seq![("clientKey"@, JsonV::Str(key)), ("task"@, task)])
}

impl Task {
    /// The wire form: the `type` tag followed by the members.
    pub open spec fn doc(&self) -> JsonV {
        task_doc(self.kind@, view_of_fields(self.fields@))
    }

    /// Whether every member of the task is serializable.
    pub open spec fn wf_task(&self) -> bool {
        wf_fields(view_of_fields(self.fields@))
    }

    /// Converts the task to its wire document, the `type` tag first.
    pub fn to_json(self) -> (r: JsonValue)
        ensures
            r@ == self.doc(),
            self.wf_task() ==> wf(r@),
    {
        let ghost gself = self;
        let mut fs: Vec<(String, JsonValue)> = Vec::new();
        fs.push((String::from_str("type"), JsonValue::Str(self.kind)));
        let mut rest = self.fields;
        fs.append(&mut rest);
        proof {
            lemma_view_fields_index(fs@);
            lemma_view_fields_index(gself.fields@);
            assert(view_of_fields(fs@) =~= seq![("type"@, JsonV::Str(gself.kind@))]
                + view_of_fields(gself.fields@));
            if gself.wf_task() {
                crate::json::lemma_wf_fields_index(view_of_fields(gself.fields@));
                lemma_wf_fields_intro(view_of_fields(fs@));
            }
        }
        JsonValue::Obj(fs)
    }
}

/// Frames a task for submission under the configured client key.
pub fn submission_body(config: &Config, task: Task) -> (b: JsonValue)
    ensures
        b@ == submission_doc(config.api_key@, task.doc()),
        task.wf_task() ==> wf(b@),
{
    let ghost gtask = task;
    let t = task.to_json();
    let mut fs: Vec<(String, JsonValue)> = Vec::new();
    fs.push((String::from_str("clientKey"), JsonValue::Str(config.api_key.clone())));
    fs.push((String::from_str("task"), t));
    proof {
        lemma_view_fields_index(fs@);
        assert(view_of_fields(fs@) =~= seq![
            ("clientKey"@, JsonV::Str(config.api_key@)),
            ("task"@, gtask.doc()),
        ]);
        if gtask.wf_task() {
            lemma_wf_fields_intro(view_of_fields(fs@));
        }
    }
    JsonValue::Obj(fs)
}

/// The view of an optional value.
pub open spec fn ov<T: View>(o: Option<T>) -> Option<T::V> {
    match o {
        Some(x) => Some(x@),
        None => None,
    }
}

/// `fs` with a string member appended when one is supplied.
pub open spec fn push_opt_str(
    fs: Seq<(Seq<char>, JsonV)>,
    k: Seq<char>,
    v: Option<Seq<char>>,
) -> Seq<(Seq<char>, JsonV)> {
    match v {
        Some(s) => fs.push((k, JsonV::Str(s))),
        None => fs,
    }
}

/// `fs` with a boolean member appended when one is supplied.
pub open spec fn push_opt_bool(
    fs: Seq<(Seq<char>, JsonV)>,
    k: Seq<char>,
    v: Option<bool>,
) -> Seq<(Seq<char>, JsonV)> {
    match v {
        Some(b) => fs.push((k, JsonV::Bool(b))),
        None => fs,
    }
}

/// `fs` with an arbitrary member appended when one is supplied.
pub open spec fn push_opt_value(
    fs: Seq<(Seq<char>, JsonV)>,
    k: Seq<char>,
    v: Option<JsonV>,
) -> Seq<(Seq<char>, JsonV)> {
    match v {
        Some(x) => fs.push((k, x)),
        None => fs,
    }
}

/// Whether some member of a payload carries the given key.
pub open spec fn has_key(fs: Seq<(Seq<char>, JsonV)>, k: Seq<char>) -> bool {
    exists|i: int| 0 <= i < fs.len() && (#[trigger] fs[i]).0 == k
}

/// An option the caller did not supply adds nothing to a payload:
/// no member, and so no key.
pub proof fn lemma_absent_option_adds_no_member(fs: Seq<(Seq<char>, JsonV)>, k: Seq<char>)
    ensures
        push_opt_str(fs, k, None) == fs,
        push_opt_bool(fs, k, None) == fs,
        push_opt_value(fs, k, None) == fs,
{
}

/// A member list stays well formed when a well-formed member joins it.
pub proof fn lemma_wf_fields_snoc(fs: Seq<(Seq<char>, JsonV)>, x: (Seq<char>, JsonV))
    requires
        wf_fields(fs),
        wf(x.1),
    ensures
        wf_fields(fs.push(x)),
    decreases fs,
{
    reveal_with_fuel(wf_fields, 3);
    assert(fs.push(x)[0] == if fs.len() == 0 {
        x
    } else {
        fs[0]
    });
    if fs.len() == 0 {
        assert(fs.push(x).drop_first() =~= Seq::<(Seq<char>, JsonV)>::empty());
    } else {
        lemma_wf_fields_snoc(fs.drop_first(), x);
        assert(fs.push(x).drop_first() =~= fs.drop_first().push(x));
    }
}

/// Appends a required string member.
pub fn field_str(fields: &mut Vec<(String, JsonValue)>, key: &str, v: &str)
    ensures
        view_of_fields(final(fields)@) == view_of_fields(old(fields)@).push((
            key@,
            JsonV::Str(v@),
        )),
        wf_fields(view_of_fields(old(fields)@)) ==> wf_fields(view_of_fields(final(fields)@)),
{
    let x = (key.to_owned(), JsonValue::Str(v.to_owned()));
    proof {
        lemma_view_fields_push(fields@, x);
        if wf_fields(view_of_fields(fields@)) {
            lemma_wf_fields_snoc(view_of_fields(fields@), (key@, JsonV::Str(v@)));
        }
    }
    fields.push(x);
}

/// Appends a required string member, taking the string itself.
pub fn field_string(fields: &mut Vec<(String, JsonValue)>, key: &str, v: String)
    ensures
        view_of_fields(final(fields)@) == view_of_fields(old(fields)@).push((
            key@,
            JsonV::Str(v@),
        )),
        wf_fields(view_of_fields(old(fields)@)) ==> wf_fields(view_of_fields(final(fields)@)),
{
    let ghost gv = v@;
    let x = (key.to_owned(), JsonValue::Str(v));
    proof {
        lemma_view_fields_push(fields@, x);
        if wf_fields(view_of_fields(fields@)) {
            lemma_wf_fields_snoc(view_of_fields(fields@), (key@, JsonV::Str(gv)));
        }
    }
    fields.push(x);
}

/// Appends a required boolean member.
pub fn field_bool(fields: &mut Vec<(String, JsonValue)>, key: &str, v: bool)
    ensures
        view_of_fields(final(fields)@) == view_of_fields(old(fields)@).push((
            key@,
            JsonV::Bool(v),
        )),
        wf_fields(view_of_fields(old(fields)@)) ==> wf_fields(view_of_fields(final(fields)@)),
{
    let x = (key.to_owned(), JsonValue::Bool(v));
    proof {
        lemma_view_fields_push(fields@, x);
        if wf_fields(view_of_fields(fields@)) {
            lemma_wf_fields_snoc(view_of_fields(fields@), (key@, JsonV::Bool(v)));
        }
    }
    fields.push(x);
}

/// Appends an arbitrary member.
pub fn field_value(fields: &mut Vec<(String, JsonValue)>, key: &str, v: JsonValue)
    ensures
        view_of_fields(final(fields)@) == view_of_fields(old(fields)@).push((key@, v@)),
        wf_fields(view_of_fields(old(fields)@)) && wf(v@) ==> wf_fields(
            view_of_fields(final(fields)@),
        ),
{
    let ghost gv = v@;
    let x = (key.to_owned(), v);
    proof {
        lemma_view_fields_push(fields@, x);
        if wf_fields(view_of_fields(fields@)) && wf(gv) {
            lemma_wf_fields_snoc(view_of_fields(fields@), (key@, gv));
        }
    }
    fields.push(x);
}

/// Appends a string member when one is supplied.
pub fn field_opt_string(fields: &mut Vec<(String, JsonValue)>, key: &str, v: Option<String>)
    ensures
        view_of_fields(final(fields)@) == push_opt_str(
            view_of_fields(old(fields)@),
            key@,
            ov(v),
        ),
        wf_fields(view_of_fields(old(fields)@)) ==> wf_fields(view_of_fields(final(fields)@)),
{
    match v {
        Some(s) => field_string(fields, key, s),
        None => {},
    }
}

/// Appends a string member when one is supplied by reference.
pub fn field_opt_str(fields: &mut Vec<(String, JsonValue)>, key: &str, v: Option<&str>)
    ensures
        view_of_fields(final(fields)@) == push_opt_str(
            view_of_fields(old(fields)@),
            key@,
            ov(v),
        ),
        wf_fields(view_of_fields(old(fields)@)) ==> wf_fields(view_of_fields(final(fields)@)),
{
    match v {
        Some(s) => field_str(fields, key, s),
        None => {},
    }
}

/// Appends a boolean member when one is supplied.
pub fn field_opt_bool(fields: &mut Vec<(String, JsonValue)>, key: &str, v: Option<bool>)
    ensures
        view_of_fields(final(fields)@) == push_opt_bool(
            view_of_fields(old(fields)@),
            key@,
            ov(v),
        ),
        wf_fields(view_of_fields(old(fields)@)) ==> wf_fields(view_of_fields(final(fields)@)),
{
    match v {
        Some(b) => field_bool(fields, key, b),
        None => {},
    }
}

/// A scaled decimal with trailing zeros removed: the shortest
/// `(units, scale)` denoting the same number.
pub open spec fn norm(u: int, s: nat) -> (int, nat)
    decreases s,
{
    if s == 0 || u % 10 != 0 {
        (u, s)
    } else {
        norm(u / 10, (s - 1) as nat)
    }
}

/// Normalizing a decimal never changes the number it denotes:
/// `u * 10^-s` and `norm(u, s)` are the same value, cross-multiplied
/// here to stay within integers.
pub proof fn lemma_norm_keeps_value(u: int, s: nat)
    ensures
        norm(u, s).1 <= s,
        crate::json::pow10(s) * norm(u, s).0 == crate::json::pow10(norm(u, s).1) * u,
    decreases s,
{
    if s == 0 || u % 10 != 0 {
    } else {
        lemma_norm_keeps_value(u / 10, (s - 1) as nat);
        let r = norm(u, s);
        assert(crate::json::pow10(s) == 10 * crate::json::pow10((s - 1) as nat));
        assert(u == 10 * (u / 10));
        assert(10 * (crate::json::pow10((s - 1) as nat) * r.0) == 10 * (crate::json::pow10(r.1) * (
        u / 10))) by (nonlinear_arith)
            requires
                crate::json::pow10((s - 1) as nat) * r.0 == crate::json::pow10(r.1) * (u / 10),
        ;
        assert(crate::json::pow10(s) * r.0 == 10 * (crate::json::pow10((s - 1) as nat) * r.0))
            by (nonlinear_arith)
            requires
                crate::json::pow10(s) == 10 * crate::json::pow10((s - 1) as nat),
        ;
        assert(crate::json::pow10(r.1) * u == 10 * (crate::json::pow10(r.1) * (u / 10)))
            by (nonlinear_arith)
            requires
                u == 10 * (u / 10),
        ;
    }
}

/// Scores arrive in hundred-thousandths of a point; this renders one
/// as the shortest equal decimal, as it will appear on the wire.
pub fn score_decimal(s: u32) -> (d: crate::json::Decimal)
    requires
        s <= 100000,
    ensures
        (d.units as int, d.scale as nat) == norm(s as int, 5),
        0 <= d.units <= 100000,
        d.scale <= 5,
{
    let mut units: i64 = s as i64;
    let mut scale: u32 = 5;
    while scale > 0 && units % 10 == 0
        invariant
            0 <= units <= 100000,
            scale <= 5,
            norm(units as int, scale as nat) == norm(s as int, 5),
        decreases scale,
    {
        units = units / 10;
        scale = scale - 1;
    }
    crate::json::Decimal { units, scale }
}

/// The object members a list of string pairs denotes.
pub open spec fn pairs_view(ps: Seq<(String, String)>) -> Seq<(Seq<char>, JsonV)> {
    Seq::new(ps.len(), |i: int| (ps[i].0@, JsonV::Str(ps[i].1@)))
}

/// An all-string object (an enterprise payload, a metadata map),
/// members in the order given.
pub fn str_obj(ps: &Vec<(String, String)>) -> (r: JsonValue)
    ensures
        r@ == JsonV::Obj(pairs_view(ps@)),
        wf(r@),
{
    let n = ps.len();
    let mut fields: Vec<(String, JsonValue)> = Vec::new();
    let mut i: usize = 0;
    proof {
        assert(view_of_fields(fields@) =~= pairs_view(ps@).take(0));
    }
    while i < n
        invariant
            n == ps@.len(),
            i <= n,
            view_of_fields(fields@) == pairs_view(ps@).take(i as int),
        decreases n - i,
    {
        let p = &ps[i];
        let x = (p.0.clone(), JsonValue::Str(p.1.clone()));
        proof {
            lemma_view_fields_push(fields@, x);
            assert(pairs_view(ps@).take(i + 1) =~= pairs_view(ps@).take(i as int).push(
                (ps@[i as int].0@, JsonV::Str(ps@[i as int].1@)),
            ));
        }
        fields.push(x);
        i = i + 1;
    }
    proof {
        assert(pairs_view(ps@).take(n as int) =~= pairs_view(ps@));
        lemma_wf_fields_intro(view_of_fields(fields@));
    }
    JsonValue::Obj(fields)
}

/// The array members a list of cookie maps denotes.
pub open spec fn cookies_view(cs: Seq<Vec<(String, String)>>) -> Seq<JsonV> {
    Seq::new(cs.len(), |i: int| JsonV::Obj(pairs_view(cs[i]@)))
}

/// An array of all-string objects, as browser cookies travel.
pub fn cookies_arr(cs: &Vec<Vec<(String, String)>>) -> (r: JsonValue)
    ensures
        r@ == JsonV::Arr(cookies_view(cs@)),
        wf(r@),
{
    let n = cs.len();
    let mut els: Vec<JsonValue> = Vec::new();
    let mut i: usize = 0;
    proof {
        assert(crate::json::view_of_list(els@) =~= cookies_view(cs@).take(0));
    }
    while i < n
        invariant
            n == cs@.len(),
            i <= n,
            crate::json::view_of_list(els@) == cookies_view(cs@).take(i as int),
            crate::json::wf_list(crate::json::view_of_list(els@)),
        decreases n - i,
    {
        let o = str_obj(&cs[i]);
        proof {
            crate::json::lemma_view_list_push(els@, o);
            assert(cookies_view(cs@).take(i + 1) =~= cookies_view(cs@).take(i as int).push(
                JsonV::Obj(pairs_view(cs@[i as int]@)),
            ));
            crate::json::lemma_wf_list_index(crate::json::view_of_list(els@));
            lemma_wf_list_snoc_value(crate::json::view_of_list(els@), o@);
        }
        els.push(o);
        i = i + 1;
    }
    proof {
        assert(cookies_view(cs@).take(n as int) =~= cookies_view(cs@));
    }
    JsonValue::Arr(els)
}

/// The object a supplied string map becomes.
pub open spec fn opt_obj(o: Option<Vec<(String, String)>>) -> Option<JsonV> {
    match o {
        Some(m) => Some(JsonV::Obj(pairs_view(m@))),
        None => None,
    }
}

/// The array of objects a supplied cookie list becomes.
pub open spec fn opt_cookies(o: Option<Vec<Vec<(String, String)>>>) -> Option<JsonV> {
    match o {
        Some(c) => Some(JsonV::Arr(cookies_view(c@))),
        None => None,
    }
}

/// Appends an all-string object member when one is supplied.
pub fn field_opt_obj(fields: &mut Vec<(String, JsonValue)>, key: &str, v: Option<Vec<(String, String)>>)
    ensures
        view_of_fields(final(fields)@) == push_opt_value(
            view_of_fields(old(fields)@),
            key@,
            opt_obj(v),
        ),
        wf_fields(view_of_fields(old(fields)@)) ==> wf_fields(view_of_fields(final(fields)@)),
{
    match v {
        Some(m) => {
            let o = str_obj(&m);
            field_value(fields, key, o);
        },
        None => {},
    }
}

/// Appends a cookie-list member when one is supplied.
pub fn field_opt_cookies(
    fields: &mut Vec<(String, JsonValue)>,
    key: &str,
    v: Option<Vec<Vec<(String, String)>>>,
)
    ensures
        view_of_fields(final(fields)@) == push_opt_value(
            view_of_fields(old(fields)@),
            key@,
            opt_cookies(v),
        ),
        wf_fields(view_of_fields(old(fields)@)) ==> wf_fields(view_of_fields(final(fields)@)),
{
    match v {
        Some(c) => {
            let o = cookies_arr(&c);
            field_value(fields, key, o);
        },
        None => {},
    }
}

/// An array stays well formed when a well-formed member joins it.
pub proof fn lemma_wf_list_snoc_value(els: Seq<JsonV>, x: JsonV)
    requires
        crate::json::wf_list(els),
        wf(x),
    ensures
        crate::json::wf_list(els.push(x)),
    decreases els,
{
    reveal_with_fuel(crate::json::wf_list, 3);
    assert(els.push(x)[0] == if els.len() == 0 {
        x
    } else {
        els[0]
    });
    if els.len() == 0 {
        assert(els.push(x).drop_first() =~= Seq::<JsonV>::empty());
    } else {
        lemma_wf_list_snoc_value(els.drop_first(), x);
        assert(els.push(x).drop_first() =~= els.drop_first().push(x));
    }
}

} // verus!
