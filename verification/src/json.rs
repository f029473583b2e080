//! The library's own model of a JSON document.
//!
//! Documents are trees of `JsonValue`; their mathematical shape is the
//! spec-level `JsonV`, with strings as character sequences and numbers
//! as scaled decimal integers (`units * 10^-scale`), so that no
//! floating point is involved anywhere.

use vstd::prelude::*;

verus! {

/// Mathematical shape of a JSON document.
pub enum JsonV {
    Null,
    Bool(bool),
    Num { units: int, scale: nat },
    Str(Seq<char>),
    Arr(Seq<JsonV>),
    Obj(Seq<(Seq<char>, JsonV)>),
}

/// A JSON document as the library holds it at run time.  Object
/// members keep their insertion order, which fixes the serialized
/// byte sequence exactly.
#[derive(Debug)]
pub enum JsonValue {
    Null,
    Bool(bool),
    /// The number `units * 10^-scale`, e.g. `units: 8, scale: 1` is `0.8`.
    Num { units: i64, scale: u32 },
    Str(String),
    Arr(Vec<JsonValue>),
    Obj(Vec<(String, JsonValue)>),
}

/// The mathematical shape of a run-time document.
pub open spec fn view_of(v: JsonValue) -> JsonV
    decreases v,
{
    match v {
        JsonValue::Null => JsonV::Null,
        JsonValue::Bool(b) => JsonV::Bool(b),
        JsonValue::Num { units, scale } => JsonV::Num {
            units: units as int,
            scale: scale as nat,
        },
        JsonValue::Str(s) => JsonV::Str(s@),
        JsonValue::Arr(els) => JsonV::Arr(view_of_list(els@)),
        JsonValue::Obj(fs) => JsonV::Obj(view_of_fields(fs@)),
    }
}

/// Element-wise shape of an array's members.
pub open spec fn view_of_list(els: Seq<JsonValue>) -> Seq<JsonV>
    decreases els,
{
    if els.len() == 0 {
        Seq::empty()
    } else {
        seq![view_of(els[0])] + view_of_list(els.drop_first())
    }
}

/// Member-wise shape of an object's fields.
pub open spec fn view_of_fields(fs: Seq<(String, JsonValue)>) -> Seq<(Seq<char>, JsonV)>
    decreases fs,
{
    if fs.len() == 0 {
        Seq::empty()
    } else {
        seq![(fs[0].0@, view_of(fs[0].1))] + view_of_fields(fs.drop_first())
    }
}

impl View for JsonValue {
    type V = JsonV;

    open spec fn view(&self) -> JsonV {
        view_of(*self)
    }
}

/// Documents the serializer can emit: numbers small enough that their
/// decimal rendering stays within machine arithmetic.
pub open spec fn wf(v: JsonV) -> bool
    decreases v,
{
    match v {
        JsonV::Null => true,
        JsonV::Bool(_) => true,
        JsonV::Num { units, scale } => i64::MIN < units <= i64::MAX && scale <= 15,
        JsonV::Str(_) => true,
        JsonV::Arr(els) => wf_list(els),
        JsonV::Obj(fs) => wf_fields(fs),
    }
}

pub open spec fn wf_list(els: Seq<JsonV>) -> bool
    decreases els,
{
    els.len() == 0 || (wf(els[0]) && wf_list(els.drop_first()))
}

pub open spec fn wf_fields(fs: Seq<(Seq<char>, JsonV)>) -> bool
    decreases fs,
{
    fs.len() == 0 || (wf(fs[0].1) && wf_fields(fs.drop_first()))
}

/// 10 to the power `e`.
pub open spec fn pow10(e: nat) -> nat
    decreases e,
{
    if e == 0 {
        1
    } else {
        10 * pow10((e - 1) as nat)
    }
}

/// Decimal digits of `n`, most significant first.
pub open spec fn dec(n: nat) -> Seq<u8>
    decreases n,
{
    if n < 10 {
        seq![(48 + n) as u8]
    } else {
        dec(n / 10) + seq![(48 + n % 10) as u8]
    }
}

/// Decimal digits of `n` in exactly `w` places, zero padded.
pub open spec fn dec_pad(n: nat, w: nat) -> Seq<u8>
    decreases w,
{
    if w == 0 {
        Seq::empty()
    } else {
        dec_pad(n / 10, (w - 1) as nat) + seq![(48 + n % 10) as u8]
    }
}

/// Lower-case hexadecimal digit for `n < 16`.
pub open spec fn hex_digit(n: nat) -> u8 {
    if n < 10 {
        (48 + n) as u8
    } else {
        (87 + n) as u8
    }
}

/// JSON escape of a single content byte of a string.  Quotes and
/// backslashes get a two-byte escape, the named control characters
/// their short form, the remaining control characters the `\u00XX`
/// form; everything else (including UTF-8 continuation bytes) passes
/// through unchanged.
pub open spec fn esc_byte(b: u8) -> Seq<u8> {
    if b == 34 {
        seq![92u8, 34u8]
    } else if b == 92 {
        seq![92u8, 92u8]
    } else if b == 8 {
        seq![92u8, 98u8]
    } else if b == 9 {
        seq![92u8, 116u8]
    } else if b == 10 {
        seq![92u8, 110u8]
    } else if b == 12 {
        seq![92u8, 102u8]
    } else if b == 13 {
        seq![92u8, 114u8]
    } else if b < 32 {
        seq![92u8, 117u8, 48u8, 48u8, hex_digit((b / 16) as nat), hex_digit((b % 16) as nat)]
    } else {
        seq![b]
    }
}

/// JSON escape of a whole byte string.
pub open spec fn esc(bs: Seq<u8>) -> Seq<u8>
    decreases bs,
{
    if bs.len() == 0 {
        Seq::empty()
    } else {
        esc_byte(bs[0]) + esc(bs.drop_first())
    }
}

/// The serialized form of the number `units * 10^-scale`.
pub open spec fn ser_num(units: int, scale: nat) -> Seq<u8> {
    let sign: Seq<u8> = if units < 0 {
        seq![45u8]
    } else {
        Seq::empty()
    };
    let a = (if units < 0 {
        -units
    } else {
        units
    }) as nat;
    if scale == 0 {
        sign + dec(a)
    } else {
        sign + dec(a / pow10(scale)) + seq![46u8] + dec_pad(a % pow10(scale), scale)
    }
}

/// The exact byte sequence a document serializes to.  Object members
/// appear in order, strings are escaped via `esc` over their UTF-8
/// bytes, and no whitespace is emitted.
pub open spec fn ser(v: JsonV) -> Seq<u8>
    decreases v,
{
    match v {
        JsonV::Null => seq![110u8, 117u8, 108u8, 108u8],
        JsonV::Bool(b) => if b {
            seq![116u8, 114u8, 117u8, 101u8]
        } else {
            seq![102u8, 97u8, 108u8, 115u8, 101u8]
        },
        JsonV::Num { units, scale } => ser_num(units, scale),
        JsonV::Str(s) => seq![34u8] + esc(vstd::utf8::encode_utf8(s)) + seq![34u8],
        JsonV::Arr(els) => seq![91u8] + ser_list(els) + seq![93u8],
        JsonV::Obj(fs) => seq![123u8] + ser_fields(fs) + seq![125u8],
    }
}

/// Comma-separated serialization of an array's members.
pub open spec fn ser_list(els: Seq<JsonV>) -> Seq<u8>
    decreases els,
{
    if els.len() == 0 {
        Seq::empty()
    } else if els.len() == 1 {
        ser(els[0])
    } else {
        ser(els[0]) + seq![44u8] + ser_list(els.drop_first())
    }
}

/// Serialization of one object member: quoted key, colon, value.
pub open spec fn ser_field(f: (Seq<char>, JsonV)) -> Seq<u8>
    decreases f,
{
    seq![34u8] + esc(vstd::utf8::encode_utf8(f.0)) + seq![34u8, 58u8] + ser(f.1)
}

/// Comma-separated serialization of an object's members.
pub open spec fn ser_fields(fs: Seq<(Seq<char>, JsonV)>) -> Seq<u8>
    decreases fs,
{
    if fs.len() == 0 {
        Seq::empty()
    } else if fs.len() == 1 {
        ser_field(fs[0])
    } else {
        ser_field(fs[0]) + seq![44u8] + ser_fields(fs.drop_first())
    }
}

/// The shapes of an array's members are its members' shapes, in place.
pub proof fn lemma_view_list_index(els: Seq<JsonValue>)
    ensures
        view_of_list(els).len() == els.len(),
        forall|i: int|
            0 <= i < els.len() ==> #[trigger] view_of_list(els)[i] == view_of(els[i]),
    decreases els,
{
    if els.len() > 0 {
        lemma_view_list_index(els.drop_first());
    }
}

/// The shapes of an object's members are its members' shapes, in place.
pub proof fn lemma_view_fields_index(fs: Seq<(String, JsonValue)>)
    ensures
        view_of_fields(fs).len() == fs.len(),
        forall|i: int|
            0 <= i < fs.len() ==> #[trigger] view_of_fields(fs)[i] == (
                fs[i].0@,
                view_of(fs[i].1),
            ),
    decreases fs,
{
    if fs.len() > 0 {
        lemma_view_fields_index(fs.drop_first());
    }
}

/// Escaping distributes over appending one byte.
pub proof fn lemma_esc_snoc(s: Seq<u8>, b: u8)
    ensures
        esc(s + seq![b]) == esc(s) + esc_byte(b),
    decreases s,
{
    if s.len() == 0 {
        assert(s + seq![b] =~= seq![b]);
        assert((seq![b]).drop_first() =~= Seq::<u8>::empty());
        assert(esc(seq![b]) == esc_byte(b) + esc(Seq::<u8>::empty()));
        assert(esc_byte(b) + Seq::<u8>::empty() =~= esc_byte(b));
        assert(esc(s) == Seq::<u8>::empty());
        assert(Seq::<u8>::empty() + esc_byte(b) =~= esc_byte(b));
    } else {
        lemma_esc_snoc(s.drop_first(), b);
        assert((s + seq![b]).drop_first() =~= s.drop_first() + seq![b]);
        assert((s + seq![b])[0] == s[0]);
        assert(esc_byte(s[0]) + (esc(s.drop_first()) + esc_byte(b)) =~= (esc_byte(s[0]) + esc(
            s.drop_first(),
        )) + esc_byte(b));
    }
}

/// Every member of a well-formed list is well formed.
pub proof fn lemma_wf_list_index(els: Seq<JsonV>)
    requires
        wf_list(els),
    ensures
        forall|i: int| 0 <= i < els.len() ==> wf(#[trigger] els[i]),
    decreases els,
{
    if els.len() > 0 {
        lemma_wf_list_index(els.drop_first());
        assert forall|i: int| 0 <= i < els.len() implies wf(#[trigger] els[i]) by {
            if i > 0 {
                assert(els[i] == els.drop_first()[i - 1]);
            }
        }
    }
}

fn hex_digit_exec(d: u8) -> (r: u8)
    requires
        d < 16,
    ensures
        r == hex_digit(d as nat),
{
    if d < 10 {
        48 + d
    } else {
        87 + d
    }
}

fn write_dec(n: u64, out: &mut Vec<u8>)
    ensures
        final(out)@ == old(out)@ + dec(n as nat),
    decreases n,
{
    if n < 10 {
        out.push(48 + (n as u8));
        assert(out@ =~= old(out)@ + dec(n as nat));
    } else {
        write_dec(n / 10, out);
        out.push(48 + ((n % 10) as u8));
        assert(out@ =~= old(out)@ + dec(n as nat));
    }
}

fn write_dec_pad(n: u64, w: u32, out: &mut Vec<u8>)
    ensures
        final(out)@ == old(out)@ + dec_pad(n as nat, w as nat),
    decreases w,
{
    if w > 0 {
        write_dec_pad(n / 10, w - 1, out);
        out.push(48 + ((n % 10) as u8));
        assert(out@ =~= old(out)@ + dec_pad(n as nat, w as nat));
    } else {
        assert(out@ =~= old(out)@ + dec_pad(n as nat, 0));
    }
}

fn pow10_u64(e: u32) -> (p: u64)
    requires
        e <= 15,
    ensures
        p == pow10(e as nat),
    decreases e,
{
    if e == 0 {
        1
    } else {
        let q = pow10_u64(e - 1);
        proof {
            lemma_pow10_bound((e - 1) as nat);
        }
        10 * q
    }
}

/// `10^e` stays within `u64` range for every exponent the library emits.
proof fn lemma_pow10_bound(e: nat)
    requires
        e <= 15,
    ensures
        pow10(e) <= 1000000000000000,
{
    lemma_pow10_mono(e, 15);
    assert(pow10(15) == 1000000000000000) by {
        reveal_with_fuel(pow10, 16);
    }
}

/// `pow10` is monotone in the exponent.
proof fn lemma_pow10_mono(a: nat, b: nat)
    requires
        a <= b,
    ensures
        pow10(a) <= pow10(b),
        pow10(a) >= 1,
    decreases b,
{
    if b > 0 {
        if a == b {
            lemma_pow10_mono((a - 1) as nat, (b - 1) as nat);
        } else {
            lemma_pow10_mono(a, (b - 1) as nat);
        }
    }
}

fn write_num(units: i64, scale: u32, out: &mut Vec<u8>)
    requires
        i64::MIN < units,
        scale <= 15,
    ensures
        final(out)@ == old(out)@ + ser_num(units as int, scale as nat),
{
    let a: u64 = if units < 0 {
        out.push(45);
        (-units) as u64
    } else {
        units as u64
    };
    if scale == 0 {
        write_dec(a, out);
        assert(out@ =~= old(out)@ + ser_num(units as int, 0));
    } else {
        let p = pow10_u64(scale);
        proof {
            lemma_pow10_mono(1, scale as nat);
        }
        write_dec(a / p, out);
        out.push(46);
        write_dec_pad(a % p, scale, out);
        assert(out@ =~= old(out)@ + ser_num(units as int, scale as nat));
    }
}

fn write_escaped(bs: &[u8], out: &mut Vec<u8>)
    ensures
        final(out)@ == old(out)@ + esc(bs@),
{
    let n = bs.len();
    let mut i: usize = 0;
    assert(out@ =~= old(out)@ + esc(bs@.subrange(0, 0)));
    while i < n
        invariant
            n == bs@.len(),
            i <= n,
            out@ == old(out)@ + esc(bs@.subrange(0, i as int)),
        decreases n - i,
    {
        let b = bs[i];
        if b == 34 {
            out.push(92);
            out.push(34);
        } else if b == 92 {
            out.push(92);
            out.push(92);
        } else if b == 8 {
            out.push(92);
            out.push(98);
        } else if b == 9 {
            out.push(92);
            out.push(116);
        } else if b == 10 {
            out.push(92);
            out.push(110);
        } else if b == 12 {
            out.push(92);
            out.push(102);
        } else if b == 13 {
            out.push(92);
            out.push(114);
        } else if b < 32 {
            out.push(92);
            out.push(117);
            out.push(48);
            out.push(48);
            out.push(hex_digit_exec(b / 16));
            out.push(hex_digit_exec(b % 16));
        } else {
            out.push(b);
        }
        proof {
            lemma_esc_snoc(bs@.subrange(0, i as int), bs@[i as int]);
            assert(bs@.subrange(0, i + 1) =~= bs@.subrange(0, i as int) + seq![bs@[i as int]]);
            assert(out@ =~= old(out)@ + esc(bs@.subrange(0, i + 1)));
        }
        i = i + 1;
    }
    assert(bs@.subrange(0, n as int) =~= bs@);
}

fn write_json(v: &JsonValue, out: &mut Vec<u8>)
    requires
        wf(v@),
    ensures
        final(out)@ == old(out)@ + ser(v@),
    decreases *v, 0nat,
{
    match v {
        JsonValue::Null => {
            out.push(110);
            out.push(117);
            out.push(108);
            out.push(108);
            assert(out@ =~= old(out)@ + ser(v@));
        },
        JsonValue::Bool(b) => {
            if *b {
                out.push(116);
                out.push(114);
                out.push(117);
                out.push(101);
            } else {
                out.push(102);
                out.push(97);
                out.push(108);
                out.push(115);
                out.push(101);
            }
            assert(out@ =~= old(out)@ + ser(v@));
        },
        JsonValue::Num { units, scale } => {
            write_num(*units, *scale, out);
        },
        JsonValue::Str(s) => {
            out.push(34);
            write_escaped(s.as_str().as_bytes(), out);
            out.push(34);
            assert(out@ =~= old(out)@ + ser(v@));
        },
        JsonValue::Arr(els) => {
            out.push(91);
            if els.len() > 0 {
                proof {
                    lemma_view_list_index(els@);
                    assert(view_of_list(els@).skip(0) =~= view_of_list(els@));
                }
                write_arr(els, 0, out);
            }
            out.push(93);
            assert(out@ =~= old(out)@ + ser(v@));
        },
        JsonValue::Obj(fs) => {
            out.push(123);
            if fs.len() > 0 {
                proof {
                    lemma_view_fields_index(fs@);
                    assert(view_of_fields(fs@).skip(0) =~= view_of_fields(fs@));
                }
                write_obj(fs, 0, out);
            }
            out.push(125);
            assert(out@ =~= old(out)@ + ser(v@));
        },
    }
}

fn write_arr(els: &Vec<JsonValue>, i: usize, out: &mut Vec<u8>)
    requires
        i < els@.len(),
        wf_list(view_of_list(els@)),
    ensures
        final(out)@ == old(out)@ + ser_list(view_of_list(els@).skip(i as int)),
    decreases els, els@.len() - i,
{
    let n = els.len();
    proof {
        lemma_view_list_index(els@);
        lemma_wf_list_index(view_of_list(els@));
        assert(view_of_list(els@)[i as int] == view_of(els@[i as int]));
        assert(wf(view_of(els@[i as int])));
    }
    write_json(&els[i], out);
    let ghost rest = view_of_list(els@).skip(i as int);
    if i + 1 < n {
        out.push(44);
        write_arr(els, i + 1, out);
        proof {
            assert(rest.drop_first() =~= view_of_list(els@).skip(i + 1));
            assert(out@ =~= old(out)@ + ser_list(rest));
        }
    } else {
        assert(rest.len() == 1);
        assert(out@ =~= old(out)@ + ser_list(rest));
    }
}

fn write_obj(fs: &Vec<(String, JsonValue)>, i: usize, out: &mut Vec<u8>)
    requires
        i < fs@.len(),
        wf_fields(view_of_fields(fs@)),
    ensures
        final(out)@ == old(out)@ + ser_fields(view_of_fields(fs@).skip(i as int)),
    decreases fs, fs@.len() - i,
{
    let n = fs.len();
    proof {
        lemma_view_fields_index(fs@);
        lemma_wf_fields_index(view_of_fields(fs@));
        assert(view_of_fields(fs@)[i as int] == (fs@[i as int].0@, view_of(fs@[i as int].1)));
        assert(wf(view_of(fs@[i as int].1)));
    }
    let f = &fs[i];
    out.push(34);
    write_escaped(f.0.as_str().as_bytes(), out);
    out.push(34);
    out.push(58);
    write_json(&f.1, out);
    let ghost rest = view_of_fields(fs@).skip(i as int);
    proof {
        assert(rest[0] == (fs@[i as int].0@, view_of(fs@[i as int].1)));
        assert(out@ =~= old(out)@ + ser_field(rest[0]));
    }
    if i + 1 < n {
        out.push(44);
        write_obj(fs, i + 1, out);
        proof {
            assert(rest.drop_first() =~= view_of_fields(fs@).skip(i + 1));
            assert(out@ =~= old(out)@ + ser_fields(rest));
        }
    } else {
        assert(rest.len() == 1);
        assert(out@ =~= old(out)@ + ser_fields(rest));
    }
}

/// First member of an object with the given key, if any.
pub open spec fn obj_lookup(fs: Seq<(Seq<char>, JsonV)>, k: Seq<char>) -> Option<JsonV>
    decreases fs,
{
    if fs.len() == 0 {
        None
    } else if fs[0].0 == k {
        Some(fs[0].1)
    } else {
        obj_lookup(fs.drop_first(), k)
    }
}

/// Member of a document under the given key; `None` when the document
/// is not an object or has no such member.
pub open spec fn lookup(v: JsonV, k: Seq<char>) -> Option<JsonV> {
    match v {
        JsonV::Obj(fs) => obj_lookup(fs, k),
        _ => None,
    }
}

/// A scaled decimal integer: the number `units * 10^-scale`.
#[derive(Clone, Copy, Debug, PartialEq, Eq, Structural)]
pub struct Decimal {
    pub units: i64,
    pub scale: u32,
}

/// The integer a document denotes, if it is a whole number.
pub open spec fn int_of(v: JsonV) -> Option<int> {
    match v {
        JsonV::Num { units, scale } => if scale == 0 {
            Some(units)
        } else {
            None
        },
        _ => None,
    }
}

/// The character sequence a document denotes, if it is a string.
pub open spec fn str_of(v: JsonV) -> Option<Seq<char>> {
    match v {
        JsonV::Str(s) => Some(s),
        _ => None,
    }
}

/// Whether two string slices hold the same characters.
pub fn str_eq(a: &str, b: &str) -> (r: bool)
    ensures
        r == (a@ == b@),
{
    let sa = a.to_owned();
    let sb = b.to_owned();
    sa == sb
}

fn get_field<'a>(fs: &'a Vec<(String, JsonValue)>, i: usize, key: &str) -> (r: Option<
    &'a JsonValue,
>)
    requires
        i <= fs@.len(),
    ensures
        match r {
            Some(f) => obj_lookup(view_of_fields(fs@).skip(i as int), key@) == Some(f@),
            None => obj_lookup(view_of_fields(fs@).skip(i as int), key@) is None,
        },
    decreases fs@.len() - i,
{
    let n = fs.len();
    proof {
        lemma_view_fields_index(fs@);
    }
    if i == n {
        proof {
            assert(view_of_fields(fs@).skip(i as int) =~= Seq::<(Seq<char>, JsonV)>::empty());
        }
        None
    } else {
        let f = &fs[i];
        let ghost rest = view_of_fields(fs@).skip(i as int);
        proof {
            assert(rest[0] == (fs@[i as int].0@, view_of(fs@[i as int].1)));
        }
        if str_eq(f.0.as_str(), key) {
            Some(&f.1)
        } else {
            let r = get_field(fs, i + 1, key);
            proof {
                assert(rest.drop_first() =~= view_of_fields(fs@).skip(i + 1));
            }
            r
        }
    }
}

impl JsonValue {
    /// Member of this object under the given key.
    pub fn get<'a>(&'a self, key: &str) -> (r: Option<&'a JsonValue>)
        ensures
            match r {
                Some(f) => lookup(self@, key@) == Some(f@),
                None => lookup(self@, key@) is None,
            },
    {
        match self {
            JsonValue::Obj(fs) => {
                proof {
                    assert(view_of_fields(fs@).skip(0) =~= view_of_fields(fs@));
                }
                get_field(fs, 0, key)
            },
            _ => None,
        }
    }

    /// The whole number this document denotes, if any.
    pub fn as_int(&self) -> (r: Option<i64>)
        ensures
            match r {
                Some(n) => int_of(self@) == Some(n as int),
                None => int_of(self@) is None,
            },
    {
        match self {
            JsonValue::Num { units, scale } => if *scale == 0 {
                Some(*units)
            } else {
                None
            },
            _ => None,
        }
    }

    /// The decimal this document denotes, if it is a number.
    pub fn as_num(&self) -> (r: Option<Decimal>)
        ensures
            match r {
                Some(d) => self@ == (JsonV::Num { units: d.units as int, scale: d.scale as nat }),
                None => !(self@ is Num),
            },
    {
        match self {
            JsonValue::Num { units, scale } => Some(Decimal { units: *units, scale: *scale }),
            _ => None,
        }
    }

    /// The string this document denotes, if any.
    pub fn as_str<'a>(&'a self) -> (r: Option<&'a String>)
        ensures
            match r {
                Some(s) => str_of(self@) == Some(s@),
                None => str_of(self@) is None,
            },
    {
        match self {
            JsonValue::Str(s) => Some(s),
            _ => None,
        }
    }

    /// The members of this document, if it is an array.
    pub fn as_arr<'a>(&'a self) -> (r: Option<&'a Vec<JsonValue>>)
        ensures
            match r {
                Some(els) => self@ == JsonV::Arr(view_of_list(els@)),
                None => !(self@ is Arr),
            },
    {
        match self {
            JsonValue::Arr(els) => Some(els),
            _ => None,
        }
    }

    /// A structurally equal copy of this document.
    pub fn deep_clone(&self) -> (r: JsonValue)
        ensures
            r@ == self@,
        decreases self,
    {
        match self {
            JsonValue::Null => JsonValue::Null,
            JsonValue::Bool(b) => JsonValue::Bool(*b),
            JsonValue::Num { units, scale } => JsonValue::Num { units: *units, scale: *scale },
            JsonValue::Str(s) => JsonValue::Str(s.clone()),
            JsonValue::Arr(els) => JsonValue::Arr(clone_list(els)),
            JsonValue::Obj(fs) => JsonValue::Obj(clone_fields(fs)),
        }
    }
}

/// The shapes of a list grow pointwise under `push`.
pub proof fn lemma_view_list_push(els: Seq<JsonValue>, x: JsonValue)
    ensures
        view_of_list(els.push(x)) == view_of_list(els).push(view_of(x)),
{
    lemma_view_list_index(els);
    lemma_view_list_index(els.push(x));
    assert(view_of_list(els.push(x)) =~= view_of_list(els).push(view_of(x)));
}

/// The shapes of an object's members grow pointwise under `push`.
pub proof fn lemma_view_fields_push(fs: Seq<(String, JsonValue)>, x: (String, JsonValue))
    ensures
        view_of_fields(fs.push(x)) == view_of_fields(fs).push((x.0@, view_of(x.1))),
{
    lemma_view_fields_index(fs);
    lemma_view_fields_index(fs.push(x));
    assert(view_of_fields(fs.push(x)) =~= view_of_fields(fs).push((x.0@, view_of(x.1))));
}

fn clone_list(els: &Vec<JsonValue>) -> (r: Vec<JsonValue>)
    ensures
        view_of_list(r@) == view_of_list(els@),
    decreases els,
{
    let n = els.len();
    let mut r: Vec<JsonValue> = Vec::new();
    let mut i: usize = 0;
    proof {
        lemma_view_list_index(els@);
        assert(view_of_list(r@) =~= view_of_list(els@).take(0));
    }
    while i < n
        invariant
            n == els@.len(),
            i <= n,
            view_of_list(r@) == view_of_list(els@).take(i as int),
        decreases n - i,
    {
        let c = els[i].deep_clone();
        proof {
            lemma_view_list_index(els@);
            lemma_view_list_push(r@, c);
            assert(view_of_list(els@).take(i + 1) =~= view_of_list(els@).take(i as int).push(
                view_of(els@[i as int]),
            ));
        }
        r.push(c);
        i = i + 1;
    }
    proof {
        lemma_view_list_index(els@);
        assert(view_of_list(els@).take(n as int) =~= view_of_list(els@));
    }
    r
}

fn clone_fields(fs: &Vec<(String, JsonValue)>) -> (r: Vec<(String, JsonValue)>)
    ensures
        view_of_fields(r@) == view_of_fields(fs@),
    decreases fs,
{
    let n = fs.len();
    let mut r: Vec<(String, JsonValue)> = Vec::new();
    let mut i: usize = 0;
    proof {
        lemma_view_fields_index(fs@);
        assert(view_of_fields(r@) =~= view_of_fields(fs@).take(0));
    }
    while i < n
        invariant
            n == fs@.len(),
            i <= n,
            view_of_fields(r@) == view_of_fields(fs@).take(i as int),
        decreases n - i,
    {
        let f = &fs[i];
        let c = (f.0.clone(), f.1.deep_clone());
        proof {
            lemma_view_fields_index(fs@);
            lemma_view_fields_push(r@, c);
            assert(view_of_fields(fs@).take(i + 1) =~= view_of_fields(fs@).take(i as int).push(
                (fs@[i as int].0@, view_of(fs@[i as int].1)),
            ));
        }
        r.push(c);
        i = i + 1;
    }
    proof {
        lemma_view_fields_index(fs@);
        assert(view_of_fields(fs@).take(n as int) =~= view_of_fields(fs@));
    }
    r
}

/// A list whose members are all well formed is well formed.
pub proof fn lemma_wf_list_intro(els: Seq<JsonV>)
    requires
        forall|i: int| 0 <= i < els.len() ==> wf(#[trigger] els[i]),
    ensures
        wf_list(els),
    decreases els,
{
    if els.len() > 0 {
        assert(forall|i: int|
            0 <= i < els.drop_first().len() ==> #[trigger] els.drop_first()[i] == els[i + 1]);
        lemma_wf_list_intro(els.drop_first());
    }
}

/// An object whose member values are all well formed is well formed.
pub proof fn lemma_wf_fields_intro(fs: Seq<(Seq<char>, JsonV)>)
    requires
        forall|i: int| 0 <= i < fs.len() ==> wf((#[trigger] fs[i]).1),
    ensures
        wf_fields(fs),
    decreases fs,
{
    if fs.len() > 0 {
        assert(forall|i: int|
            0 <= i < fs.drop_first().len() ==> #[trigger] fs.drop_first()[i] == fs[i + 1]);
        lemma_wf_fields_intro(fs.drop_first());
    }
}

/// Serializes a document to its exact wire bytes.
pub fn to_json_bytes(v: &JsonValue) -> (out: Vec<u8>)
    requires
        wf(v@),
    ensures
        out@ == ser(v@),
{
    let mut out: Vec<u8> = Vec::new();
    write_json(v, &mut out);
    out
}

/// Every member of a well-formed object is well formed.
pub proof fn lemma_wf_fields_index(fs: Seq<(Seq<char>, JsonV)>)
    requires
        wf_fields(fs),
    ensures
        forall|i: int| 0 <= i < fs.len() ==> wf((#[trigger] fs[i]).1),
    decreases fs,
{
    if fs.len() > 0 {
        lemma_wf_fields_index(fs.drop_first());
        assert forall|i: int| 0 <= i < fs.len() implies wf((#[trigger] fs[i]).1) by {
            if i > 0 {
                assert(fs[i] == fs.drop_first()[i - 1]);
            }
        }
    }
}

} // verus!
