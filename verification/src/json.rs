//! The JSON layer of the client.
//!
//! The wire format of the API is JSON, so the crate carries its own JSON
//! tree, a parser that turns a response body into that tree, readers that
//! pick typed fields out of a tree, and the string-escaping rules used
//! when a request body is rendered.
//!
//! The parser accepts the standard JSON grammar with one deliberate
//! narrowing, enough for this API: a number is kept exactly when it is a
//! non-negative integer that fits in `u64` (the only numbers the client
//! reads are identifiers); any other syntactically valid number is kept
//! as [`Json::NumOther`] so that unknown fields can still be skipped.

use vstd::prelude::*;
use vstd::string::StringExecFns;
use crate::text::{char_from_u32, char_of, push_char, str_eq, str_to_chars};

verus! {

/// A JSON document.
pub enum Json {
    Null,
    Bool(bool),
    /// A number that is a non-negative integer fitting in `u64`.
    UInt(u64),
    /// Any other syntactically valid number (negative, fractional, or too
    /// large); the client never reads one, but must accept it on the wire.
    NumOther,
    Str(String),
    Arr(Vec<Json>),
    /// Fields in wire order; on lookup the first occurrence of a key wins.
    Obj(Vec<(String, Json)>),
}

/// The mathematical image of a [`Json`] document: the same tree with
/// every string a sequence of characters.
pub enum JsonV {
    Null,
    Bool(bool),
    UInt(u64),
    NumOther,
    Str(Seq<char>),
    Arr(Seq<JsonV>),
    Obj(Seq<(Seq<char>, JsonV)>),
}

/// The image of a document.
pub open spec fn json_view(j: Json) -> JsonV
    decreases j,
    via json_view_decreases
{
    match j {
        Json::Null => JsonV::Null,
        Json::Bool(b) => JsonV::Bool(b),
        Json::UInt(u) => JsonV::UInt(u),
        Json::NumOther => JsonV::NumOther,
        Json::Str(s) => JsonV::Str(s@),
        Json::Arr(items) => JsonV::Arr(
            Seq::new(
                items@.len(),
                |i: int|
                    if 0 <= i < items@.len() {
                        json_view(items@[i])
                    } else {
                        JsonV::Null
                    },
            ),
        ),
        Json::Obj(fields) => JsonV::Obj(
            Seq::new(
                fields@.len(),
                |i: int|
                    if 0 <= i < fields@.len() {
                        (fields@[i].0@, json_view(fields@[i].1))
                    } else {
                        (Seq::empty(), JsonV::Null)
                    },
            ),
        ),
    }
}

#[via_fn]
proof fn json_view_decreases(j: Json) {
    match j {
        Json::Arr(items) => {
            assert forall|i: int| 0 <= i < items@.len() implies decreases_to!(j => items@[i]) by {
                assert(decreases_to!(j => items));
                assert(decreases_to!(items => items@));
                assert(decreases_to!(items@ => items@[i]));
            }
        },
        Json::Obj(fields) => {
            assert forall|i: int| 0 <= i < fields@.len() implies decreases_to!(
                j => fields@[i].1,
            ) by {
                assert(decreases_to!(j => fields));
                assert(decreases_to!(fields => fields@));
                assert(decreases_to!(fields@ => fields@[i]));
                assert(decreases_to!(fields@[i] => fields@[i].1));
            }
        },
        _ => {},
    }
}

impl View for Json {
    type V = JsonV;

    open spec fn view(&self) -> JsonV {
        json_view(*self)
    }
}

/// The images of the elements of an array.
pub open spec fn views_of(items: Seq<Json>) -> Seq<JsonV> {
    Seq::new(items.len(), |i: int| json_view(items[i]))
}

/// The images of the fields of an object.
pub open spec fn pair_views_of(fields: Seq<(String, Json)>) -> Seq<(Seq<char>, JsonV)> {
    Seq::new(fields.len(), |i: int| (fields[i].0@, json_view(fields[i].1)))
}

/// The first field named `key`, if any.
pub open spec fn spec_lookup(fields: Seq<(Seq<char>, JsonV)>, key: Seq<char>) -> Option<JsonV>
    decreases fields.len(),
{
    if fields.len() == 0 {
        None
    } else if fields[0].0 == key {
        Some(fields[0].1)
    } else {
        spec_lookup(fields.drop_first(), key)
    }
}

/// The field named `key` of an object, if `j` is an object that has one.
pub open spec fn field_of(j: JsonV, key: Seq<char>) -> Option<JsonV> {
    match j {
        JsonV::Obj(fields) => spec_lookup(fields, key),
        _ => None,
    }
}

/// The string payload of the field named `key`, if there is one and it is
/// a string.
pub open spec fn str_field(j: JsonV, key: Seq<char>) -> Option<Seq<char>> {
    match field_of(j, key) {
        Some(JsonV::Str(s)) => Some(s),
        _ => None,
    }
}

/// The numeric payload of the field named `key`, if there is one and it
/// fits in `u32`.
pub open spec fn u32_field(j: JsonV, key: Seq<char>) -> Option<u32> {
    match field_of(j, key) {
        Some(JsonV::UInt(u)) => if u <= u32::MAX {
            Some(u as u32)
        } else {
            None
        },
        _ => None,
    }
}

/// An optional string field: an absent field and an explicit `null` both
/// read as `Some(None)`; a string reads as `Some(Some(..))`; any other
/// value is a shape error (`None`).
pub open spec fn opt_str_field(j: JsonV, key: Seq<char>) -> Option<Option<Seq<char>>> {
    match field_of(j, key) {
        None => Some(None),
        Some(JsonV::Null) => Some(None),
        Some(JsonV::Str(s)) => Some(Some(s)),
        Some(_) => None,
    }
}

/// Looks up the first field named `key` of an object.
pub fn get_field<'a>(j: &'a Json, key: &str) -> (r: Option<&'a Json>)
    ensures
        (match r {
            Some(f) => field_of(j@, key@) == Some(f@),
            None => field_of(j@, key@) is None,
        }),
{
    match j {
        Json::Obj(fields) => {
            let ghost gf = pair_views_of(fields@);
            proof {
                assert(json_view(*j)->Obj_0 =~= gf);
                assert(j@ == JsonV::Obj(gf));
                assert(gf.skip(0) =~= gf);
            }
            let mut i: usize = 0;
            while i < fields.len()
                invariant
                    i <= fields@.len(),
                    *j == Json::Obj(*fields),
                    gf == pair_views_of(fields@),
                    gf.len() == fields@.len(),
                    field_of(j@, key@) == spec_lookup(gf.skip(i as int), key@),
                decreases fields@.len() - i,
            {
                proof {
                    assert(gf.skip(i as int).len() > 0);
                    assert(gf.skip(i as int)[0] == gf[i as int]);
                    assert(gf[i as int] == (fields@[i as int].0@, json_view(fields@[i as int].1)));
                }
                if str_eq(fields[i].0.as_str(), key) {
                    let f_ref: &Json = &fields[i].1;
                    proof {
                        assert(spec_lookup(gf.skip(i as int), key@) == Some(gf[i as int].1));
                        assert(f_ref@ == gf[i as int].1);
                    }
                    return Some(f_ref);
                }
                proof {
                    assert(gf.skip(i as int).drop_first() =~= gf.skip(i as int + 1));
                }
                i = i + 1;
            }
            proof {
                assert(gf.skip(i as int).len() == 0);
            }
            None
        },
        _ => None,
    }
}

/// Reads a string field.
pub fn get_str_field<'a>(j: &'a Json, key: &str) -> (r: Option<&'a String>)
    ensures
        (match r {
            Some(s) => str_field(j@, key@) == Some(s@),
            None => str_field(j@, key@) is None,
        }),
{
    match get_field(j, key) {
        Some(Json::Str(s)) => Some(s),
        _ => None,
    }
}

/// Reads a numeric field that must fit in `u32`.
pub fn get_u32_field(j: &Json, key: &str) -> (r: Option<u32>)
    ensures
        r == u32_field(j@, key@),
{
    match get_field(j, key) {
        Some(Json::UInt(u)) => {
            let uu: u64 = *u;
            if uu <= u32::MAX as u64 {
                Some(uu as u32)
            } else {
                None
            }
        },
        _ => None,
    }
}

/// Reads an optional string field (absent and `null` both read as `None`).
pub fn get_opt_str_field(j: &Json, key: &str) -> (r: Option<Option<String>>)
    ensures
        (match r {
            Some(Some(s)) => opt_str_field(j@, key@) == Some(Some(s@)),
            Some(None) => opt_str_field(j@, key@) == Some(None::<Seq<char>>),
            None => opt_str_field(j@, key@) is None,
        }),
{
    match get_field(j, key) {
        None => Some(None),
        Some(Json::Null) => Some(None),
        Some(Json::Str(s)) => Some(Some(s.clone())),
        Some(_) => None,
    }
}

// ---- the grammar, at the specification level ----
//
// Each parsing function below has a specification-level mirror over a
// sequence of characters and a position.  The mirrors carry explicit
// range tests where a position comes out of another mirror, so that
// their termination is manifest; the executable functions prove that
// those tests never fail on the positions they actually produce.

/// A JSON whitespace character.
pub open spec fn is_ws_char(c: char) -> bool {
    c == ' ' || c == '\t' || c == '\n' || c == '\r'
}

/// A decimal digit.
pub open spec fn is_digit_char(c: char) -> bool {
    48 <= c as u32 && c as u32 <= 57
}

/// The first position at or after `pos` that holds no whitespace.
pub open spec fn spec_skip_ws(s: Seq<char>, pos: int) -> int
    decreases s.len() - pos,
{
    if 0 <= pos && pos < s.len() && is_ws_char(s[pos]) {
        spec_skip_ws(s, pos + 1)
    } else {
        pos
    }
}

/// The value of a hexadecimal digit.
pub open spec fn spec_hex_val(c: char) -> Option<u32> {
    if 48 <= c as u32 && c as u32 <= 57 {
        Some((c as u32 - 48) as u32)
    } else if 97 <= c as u32 && c as u32 <= 102 {
        Some((c as u32 - 87) as u32)
    } else if 65 <= c as u32 && c as u32 <= 70 {
        Some((c as u32 - 55) as u32)
    } else {
        None
    }
}

/// Four hexadecimal digits read at `pos`.
pub open spec fn spec_hex4(s: Seq<char>, pos: int) -> Option<(u32, int)> {
    if 0 <= pos && pos + 4 <= s.len() {
        match (spec_hex_val(s[pos]), spec_hex_val(s[pos + 1]), spec_hex_val(s[pos + 2]), spec_hex_val(s[pos + 3])) {
            (Some(a), Some(b), Some(c), Some(d)) => Some(
                ((a * 4096 + b * 256 + c * 16 + d) as u32, pos + 4),
            ),
            _ => None,
        }
    } else {
        None
    }
}

/// Grafts an already-read prefix onto the rest of a parse result.
pub open spec fn spec_graft<T>(prefix: Seq<T>, rest: Option<(Seq<T>, int)>) -> Option<(Seq<T>, int)> {
    match rest {
        None => None,
        Some((t, p)) => Some((prefix + t, p)),
    }
}

proof fn lemma_graft_empty<T>(rest: Option<(Seq<T>, int)>)
    ensures
        spec_graft(Seq::<T>::empty(), rest) == rest,
{
    match rest {
        None => {},
        Some((t, p)) => {
            assert(Seq::<T>::empty() + t =~= t);
        },
    }
}

proof fn lemma_graft_push<T>(prefix: Seq<T>, x: T, rest: Option<(Seq<T>, int)>)
    ensures
        spec_graft(prefix, spec_graft(seq![x], rest)) == spec_graft(prefix.push(x), rest),
{
    match rest {
        None => {},
        Some((t, p)) => {
            assert(prefix + (seq![x] + t) =~= prefix.push(x) + t);
        },
    }
}

/// The content and end of the string literal whose opening quote stands
/// at `pos`, with every escape resolved.
pub open spec fn spec_parse_string_body(s: Seq<char>, pos: int) -> Option<(Seq<char>, int)>
    decreases s.len() - pos,
{
    if !(0 <= pos && pos < s.len()) {
        None
    } else if s[pos] == '"' {
        Some((Seq::empty(), pos + 1))
    } else if s[pos] == '\\' {
        if pos + 2 > s.len() {
            None
        } else {
            let e = s[pos + 1];
            if e == '"' {
                spec_graft(seq!['"'], spec_parse_string_body(s, pos + 2))
            } else if e == '\\' {
                spec_graft(seq!['\\'], spec_parse_string_body(s, pos + 2))
            } else if e == '/' {
                spec_graft(seq!['/'], spec_parse_string_body(s, pos + 2))
            } else if e == 'b' {
                spec_graft(seq!['\u{0008}'], spec_parse_string_body(s, pos + 2))
            } else if e == 'f' {
                spec_graft(seq!['\u{000C}'], spec_parse_string_body(s, pos + 2))
            } else if e == 'n' {
                spec_graft(seq!['\n'], spec_parse_string_body(s, pos + 2))
            } else if e == 'r' {
                spec_graft(seq!['\r'], spec_parse_string_body(s, pos + 2))
            } else if e == 't' {
                spec_graft(seq!['\t'], spec_parse_string_body(s, pos + 2))
            } else if e == 'u' {
                match spec_hex4(s, pos + 2) {
                    None => None,
                    Some((x, p2)) => {
                        if 0xD800 <= x && x < 0xDC00 {
                            if p2 + 2 > s.len() {
                                None
                            } else if s[p2] != '\\' || s[p2 + 1] != 'u' {
                                None
                            } else {
                                match spec_hex4(s, p2 + 2) {
                                    None => None,
                                    Some((y, p3)) => {
                                        if 0xDC00 <= y && y < 0xE000 {
                                            spec_graft(
                                                seq![
                                                    char_of(
                                                        (0x10000 + (x - 0xD800) * 0x400 + (y
                                                            - 0xDC00)) as u32,
                                                    ),
                                                ],
                                                spec_parse_string_body(s, p3),
                                            )
                                        } else {
                                            None
                                        }
                                    },
                                }
                            }
                        } else if 0xDC00 <= x && x < 0xE000 {
                            None
                        } else {
                            spec_graft(seq![char_of(x)], spec_parse_string_body(s, p2))
                        }
                    },
                }
            } else {
                None
            }
        }
    } else if (s[pos] as u32) < 0x20 {
        None
    } else {
        spec_graft(seq![s[pos]], spec_parse_string_body(s, pos + 1))
    }
}

/// A string literal read at `pos`.
pub open spec fn spec_parse_string(s: Seq<char>, pos: int) -> Option<(Seq<char>, int)> {
    if 0 <= pos && pos < s.len() && s[pos] == '"' {
        spec_parse_string_body(s, pos + 1)
    } else {
        None
    }
}

/// The run of digits from `pos`, folded into a value; `fits` falls once
/// the value leaves `u64`.
pub open spec fn spec_int_digits(s: Seq<char>, pos: int, val: u64, fits: bool) -> (u64, bool, int)
    decreases s.len() - pos,
{
    if 0 <= pos && pos < s.len() && is_digit_char(s[pos]) {
        let d = (s[pos] as u32 - 48) as u64;
        if val <= (u64::MAX - d) / 10 {
            spec_int_digits(s, pos + 1, (val * 10 + d) as u64, fits)
        } else {
            spec_int_digits(s, pos + 1, val, false)
        }
    } else {
        (val, fits, pos)
    }
}

/// The end of the run of digits from `pos`.
pub open spec fn spec_digits_end(s: Seq<char>, pos: int) -> int
    decreases s.len() - pos,
{
    if 0 <= pos && pos < s.len() && is_digit_char(s[pos]) {
        spec_digits_end(s, pos + 1)
    } else {
        pos
    }
}

/// What a number token becomes: an integer only when it had no sign,
/// fraction or exponent and fits in `u64`.
pub open spec fn spec_number_token(val: u64, fits: bool, other: bool) -> JsonV {
    if other || !fits {
        JsonV::NumOther
    } else {
        JsonV::UInt(val)
    }
}

/// A number token read at `pos`.
pub open spec fn spec_parse_number(s: Seq<char>, pos: int) -> Option<(JsonV, int)> {
    let p1 = if 0 <= pos && pos < s.len() && s[pos] == '-' {
        pos + 1
    } else {
        pos
    };
    let neg = p1 != pos;
    if !(0 <= p1 && p1 < s.len()) {
        None
    } else if s[p1] == '0' || is_digit_char(s[p1]) {
        let folded = if s[p1] == '0' {
            (0u64, true, p1 + 1)
        } else {
            spec_int_digits(s, p1, 0u64, true)
        };
        let p2 = folded.2;
        let frac = p2 < s.len() && s[p2] == '.';
        if frac && !(p2 + 1 < s.len() && is_digit_char(s[p2 + 1])) {
            None
        } else {
            let p3 = if frac {
                spec_digits_end(s, p2 + 1)
            } else {
                p2
            };
            let ex = p3 < s.len() && (s[p3] == 'e' || s[p3] == 'E');
            if !ex {
                Some((spec_number_token(folded.0, folded.1, neg || frac), p3))
            } else {
                let p4 = if p3 + 1 < s.len() && (s[p3 + 1] == '+' || s[p3 + 1] == '-') {
                    p3 + 2
                } else {
                    p3 + 1
                };
                if p4 < s.len() && is_digit_char(s[p4]) {
                    Some((spec_number_token(folded.0, folded.1, true), spec_digits_end(s, p4)))
                } else {
                    None
                }
            }
        }
    } else {
        None
    }
}

/// One JSON value read at `pos`.
pub open spec fn spec_parse_value(s: Seq<char>, pos: int) -> Option<(JsonV, int)>
    decreases s.len() - pos, 0int,
{
    if !(0 <= pos && pos < s.len()) {
        None
    } else {
        let c = s[pos];
        if c == 'n' {
            if pos + 4 <= s.len() && s[pos + 1] == 'u' && s[pos + 2] == 'l' && s[pos + 3] == 'l' {
                Some((JsonV::Null, pos + 4))
            } else {
                None
            }
        } else if c == 't' {
            if pos + 4 <= s.len() && s[pos + 1] == 'r' && s[pos + 2] == 'u' && s[pos + 3] == 'e' {
                Some((JsonV::Bool(true), pos + 4))
            } else {
                None
            }
        } else if c == 'f' {
            if pos + 5 <= s.len() && s[pos + 1] == 'a' && s[pos + 2] == 'l' && s[pos + 3] == 's'
                && s[pos + 4] == 'e' {
                Some((JsonV::Bool(false), pos + 5))
            } else {
                None
            }
        } else if c == '"' {
            match spec_parse_string(s, pos) {
                None => None,
                Some((t, p)) => Some((JsonV::Str(t), p)),
            }
        } else if c == '-' || is_digit_char(c) {
            spec_parse_number(s, pos)
        } else if c == '[' {
            let cur = spec_skip_ws(s, pos + 1);
            if !(pos < cur && cur <= s.len()) {
                None
            } else if cur < s.len() && s[cur] == ']' {
                Some((JsonV::Arr(Seq::empty()), cur + 1))
            } else {
                match spec_parse_elems(s, cur) {
                    None => None,
                    Some((items, p)) => Some((JsonV::Arr(items), p)),
                }
            }
        } else if c == '{' {
            let cur = spec_skip_ws(s, pos + 1);
            if !(pos < cur && cur <= s.len()) {
                None
            } else if cur < s.len() && s[cur] == '}' {
                Some((JsonV::Obj(Seq::empty()), cur + 1))
            } else {
                match spec_parse_members(s, cur) {
                    None => None,
                    Some((fields, p)) => Some((JsonV::Obj(fields), p)),
                }
            }
        } else {
            None
        }
    }
}

/// The elements of an array from the first element at `pos` to the
/// closing bracket.
pub open spec fn spec_parse_elems(s: Seq<char>, pos: int) -> Option<(Seq<JsonV>, int)>
    decreases s.len() - pos, 1int,
{
    if !(0 <= pos && pos <= s.len()) {
        None
    } else {
        match spec_parse_value(s, pos) {
            None => None,
            Some((item, p)) => {
                let q = spec_skip_ws(s, p);
                if q < s.len() && s[q] == ',' {
                    let cur = spec_skip_ws(s, q + 1);
                    if !(pos < cur && cur <= s.len()) {
                        None
                    } else {
                        match spec_parse_elems(s, cur) {
                            None => None,
                            Some((rest, e)) => Some((seq![item] + rest, e)),
                        }
                    }
                } else if q < s.len() && s[q] == ']' {
                    Some((seq![item], q + 1))
                } else {
                    None
                }
            },
        }
    }
}

/// The fields of an object from the first key at `pos` to the closing
/// brace.
pub open spec fn spec_parse_members(s: Seq<char>, pos: int) -> Option<
    (Seq<(Seq<char>, JsonV)>, int),
>
    decreases s.len() - pos, 1int,
{
    if !(0 <= pos && pos <= s.len()) {
        None
    } else {
        match spec_parse_string(s, pos) {
            None => None,
            Some((key, p)) => {
                let q = spec_skip_ws(s, p);
                if !(q < s.len() && s[q] == ':') {
                    None
                } else {
                    let q2 = spec_skip_ws(s, q + 1);
                    if !(pos < q2 && q2 <= s.len()) {
                        None
                    } else {
                        match spec_parse_value(s, q2) {
                            None => None,
                            Some((val, p2)) => {
                                let q3 = spec_skip_ws(s, p2);
                                if q3 < s.len() && s[q3] == ',' {
                                    let cur = spec_skip_ws(s, q3 + 1);
                                    if !(pos < cur && cur <= s.len()) {
                                        None
                                    } else {
                                        match spec_parse_members(s, cur) {
                                            None => None,
                                            Some((rest, e)) => Some((seq![(key, val)] + rest, e)),
                                        }
                                    }
                                } else if q3 < s.len() && s[q3] == '}' {
                                    Some((seq![(key, val)], q3 + 1))
                                } else {
                                    None
                                }
                            },
                        }
                    }
                }
            },
        }
    }
}

/// A complete document: optional whitespace, one value, optional
/// whitespace, the end of the text.
pub open spec fn spec_parse_json(s: Seq<char>) -> Option<JsonV> {
    let start = spec_skip_ws(s, 0);
    match spec_parse_value(s, start) {
        None => None,
        Some((j, p)) => if spec_skip_ws(s, p) == s.len() {
            Some(j)
        } else {
            None
        },
    }
}

// ---- the executable parser ----

/// True when `pos + k` positions are available in `v`.
fn has(v: &Vec<char>, pos: usize, k: usize) -> (r: bool)
    requires
        pos <= v@.len(),
    ensures
        r == (pos + k <= v@.len()),
{
    v.len() - pos >= k
}

/// Advances past the JSON whitespace characters.
fn skip_ws(v: &Vec<char>, pos: usize) -> (r: usize)
    requires
        pos <= v@.len(),
    ensures
        pos <= r <= v@.len(),
        r == spec_skip_ws(v@, pos as int),
{
    let mut i = pos;
    while i < v.len() && (v[i] == ' ' || v[i] == '\t' || v[i] == '\n' || v[i] == '\r')
        invariant
            pos <= i <= v@.len(),
            spec_skip_ws(v@, pos as int) == spec_skip_ws(v@, i as int),
        decreases v@.len() - i,
    {
        i = i + 1;
    }
    proof {
        assert(spec_skip_ws(v@, i as int) == i as int);
    }
    i
}

fn is_digit(c: char) -> (r: bool)
    ensures
        r == is_digit_char(c),
{
    let u = c as u32;
    48 <= u && u <= 57
}

fn hex_val(c: char) -> (r: Option<u32>)
    ensures
        r == spec_hex_val(c),
        (r matches Some(x) ==> x < 16),
{
    let u = c as u32;
    if 48 <= u && u <= 57 {
        Some(u - 48)
    } else if 97 <= u && u <= 102 {
        Some(u - 87)
    } else if 65 <= u && u <= 70 {
        Some(u - 55)
    } else {
        None
    }
}

/// Reads four hexadecimal digits.
fn parse_hex4(v: &Vec<char>, pos: usize) -> (r: Option<(u32, usize)>)
    requires
        pos <= v@.len(),
    ensures
        (match r {
            Some(xp) => spec_hex4(v@, pos as int) == Some((xp.0, xp.1 as int)) && pos < xp.1
                <= v@.len() && xp.0 < 0x10000,
            None => spec_hex4(v@, pos as int) is None,
        }),
{
    let n = v.len();
    if n - pos < 4 {
        return None;
    }
    let a = hex_val(v[pos]);
    let b = hex_val(v[pos + 1]);
    let c = hex_val(v[pos + 2]);
    let d = hex_val(v[pos + 3]);
    match (a, b, c, d) {
        (Some(a), Some(b), Some(c), Some(d)) => Some((a * 4096 + b * 256 + c * 16 + d, pos + 4)),
        _ => None,
    }
}

/// Reads a JSON string starting at an opening quote, resolving escapes.
fn parse_string(v: &Vec<char>, pos: usize) -> (r: Option<(String, usize)>)
    requires
        pos <= v@.len(),
    ensures
        (match r {
            Some(sp) => spec_parse_string(v@, pos as int) == Some((sp.0@, sp.1 as int)) && pos
                < sp.1 <= v@.len(),
            None => spec_parse_string(v@, pos as int) is None,
        }),
{
    if pos >= v.len() || v[pos] != '"' {
        return None;
    }
    let mut cur = pos + 1;
    let mut out = String::new();
    proof {
        lemma_graft_empty(spec_parse_string_body(v@, cur as int));
    }
    loop
        invariant
            pos < cur <= v@.len(),
            pos < v@.len() && v@[pos as int] == '"',
            spec_parse_string(v@, pos as int) == spec_graft(
                out@,
                spec_parse_string_body(v@, cur as int),
            ),
        decreases v@.len() - cur,
    {
        if cur >= v.len() {
            return None;
        }
        let c = v[cur];
        if c == '"' {
            proof {
                assert(out@ + Seq::<char>::empty() =~= out@);
            }
            return Some((out, cur + 1));
        }
        if c == '\\' {
            let room = has(v, cur, 2);
            if !room {
                return None;
            }
            let e = v[cur + 1];
            if e == '"' || e == '\\' || e == '/' || e == 'b' || e == 'f' || e == 'n' || e == 'r'
                || e == 't' {
                let ch = if e == '"' {
                    '"'
                } else if e == '\\' {
                    '\\'
                } else if e == '/' {
                    '/'
                } else if e == 'b' {
                    '\u{0008}'
                } else if e == 'f' {
                    '\u{000C}'
                } else if e == 'n' {
                    '\n'
                } else if e == 'r' {
                    '\r'
                } else {
                    '\t'
                };
                proof {
                    assert(spec_parse_string_body(v@, cur as int) == spec_graft(
                        seq![ch],
                        spec_parse_string_body(v@, cur as int + 2),
                    ));
                    lemma_graft_push(out@, ch, spec_parse_string_body(v@, cur as int + 2));
                }
                push_char(&mut out, ch);
                cur = cur + 2;
            } else if e == 'u' {
                match parse_hex4(v, cur + 2) {
                    None => {
                        return None;
                    },
                    Some((x, p2)) => {
                        if 0xD800 <= x && x < 0xDC00 {
                            let room2 = has(v, p2, 2);
                            if !room2 {
                                return None;
                            }
                            if v[p2] != '\\' || v[p2 + 1] != 'u' {
                                return None;
                            }
                            match parse_hex4(v, p2 + 2) {
                                None => {
                                    return None;
                                },
                                Some((y, p3)) => {
                                    if !(0xDC00 <= y && y < 0xE000) {
                                        return None;
                                    }
                                    let code: u32 = 0x10000 + (x - 0xD800) * 0x400 + (y - 0xDC00);
                                    match char_from_u32(code) {
                                        None => {
                                            proof {
                                                assert(false);
                                            }
                                            return None;
                                        },
                                        Some(ch) => {
                                            proof {
                                                assert(spec_parse_string_body(v@, cur as int)
                                                    == spec_graft(
                                                    seq![ch],
                                                    spec_parse_string_body(v@, p3 as int),
                                                ));
                                                lemma_graft_push(
                                                    out@,
                                                    ch,
                                                    spec_parse_string_body(v@, p3 as int),
                                                );
                                            }
                                            push_char(&mut out, ch);
                                            cur = p3;
                                        },
                                    }
                                },
                            }
                        } else if 0xDC00 <= x && x < 0xE000 {
                            return None;
                        } else {
                            match char_from_u32(x) {
                                None => {
                                    proof {
                                        assert(false);
                                    }
                                    return None;
                                },
                                Some(ch) => {
                                    proof {
                                        assert(spec_parse_string_body(v@, cur as int) == spec_graft(
                                            seq![ch],
                                            spec_parse_string_body(v@, p2 as int),
                                        ));
                                        lemma_graft_push(
                                            out@,
                                            ch,
                                            spec_parse_string_body(v@, p2 as int),
                                        );
                                    }
                                    push_char(&mut out, ch);
                                    cur = p2;
                                },
                            }
                        }
                    },
                }
            } else {
                return None;
            }
        } else if (c as u32) < 0x20 {
            return None;
        } else {
            proof {
                assert(spec_parse_string_body(v@, cur as int) == spec_graft(
                    seq![c],
                    spec_parse_string_body(v@, cur as int + 1),
                ));
                lemma_graft_push(out@, c, spec_parse_string_body(v@, cur as int + 1));
            }
            push_char(&mut out, c);
            cur = cur + 1;
        }
    }
}

/// Reads a JSON number.  A non-negative integer that fits in `u64` is
/// kept as [`Json::UInt`]; any other valid number reads as
/// [`Json::NumOther`].
fn parse_number(v: &Vec<char>, pos: usize) -> (r: Option<(Json, usize)>)
    requires
        pos <= v@.len(),
    ensures
        (match r {
            Some(jp) => spec_parse_number(v@, pos as int) == Some((jp.0@, jp.1 as int)) && pos
                < jp.1 <= v@.len(),
            None => spec_parse_number(v@, pos as int) is None,
        }),
{
    let mut cur = pos;
    let mut integral = true;
    if cur < v.len() && v[cur] == '-' {
        integral = false;
        cur = cur + 1;
    }
    let ghost p1 = cur as int;
    let ghost neg = !integral;
    if cur >= v.len() {
        return None;
    }
    let mut val: u64 = 0;
    let mut fits = true;
    let c0 = v[cur];
    if c0 == '0' {
        cur = cur + 1;
    } else if is_digit(c0) {
        while cur < v.len() && is_digit(v[cur])
            invariant
                pos <= p1 <= cur <= v@.len(),
                spec_int_digits(v@, p1, 0u64, true) == spec_int_digits(v@, cur as int, val, fits),
            decreases v@.len() - cur,
        {
            let d = (v[cur] as u32 - 48) as u64;
            if val <= (u64::MAX - d) / 10 {
                proof {
                    assert(val * 10 + d <= u64::MAX) by (nonlinear_arith)
                        requires
                            val <= (u64::MAX - d) / 10,
                            d <= 9,
                    ;
                }
                val = val * 10 + d;
            } else {
                fits = false;
            }
            cur = cur + 1;
        }
        proof {
            assert(spec_int_digits(v@, cur as int, val, fits) == (val, fits, cur as int));
        }
    } else {
        return None;
    }
    let ghost folded = if v@[p1] == '0' {
        (0u64, true, p1 + 1)
    } else {
        spec_int_digits(v@, p1, 0u64, true)
    };
    proof {
        assert(folded == (val, fits, cur as int));
    }
    if cur < v.len() && v[cur] == '.' {
        integral = false;
        cur = cur + 1;
        if !(cur < v.len() && is_digit(v[cur])) {
            return None;
        }
        let ghost fstart = cur as int;
        while cur < v.len() && is_digit(v[cur])
            invariant
                pos < cur <= v@.len(),
                fstart <= cur,
                spec_digits_end(v@, fstart) == spec_digits_end(v@, cur as int),
            decreases v@.len() - cur,
        {
            cur = cur + 1;
        }
        proof {
            assert(spec_digits_end(v@, cur as int) == cur as int);
        }
    }
    if cur < v.len() && (v[cur] == 'e' || v[cur] == 'E') {
        integral = false;
        cur = cur + 1;
        if cur < v.len() && (v[cur] == '+' || v[cur] == '-') {
            cur = cur + 1;
        }
        if !(cur < v.len() && is_digit(v[cur])) {
            return None;
        }
        let ghost estart = cur as int;
        while cur < v.len() && is_digit(v[cur])
            invariant
                pos < cur <= v@.len(),
                estart <= cur,
                spec_digits_end(v@, estart) == spec_digits_end(v@, cur as int),
            decreases v@.len() - cur,
        {
            cur = cur + 1;
        }
        proof {
            assert(spec_digits_end(v@, cur as int) == cur as int);
        }
    }
    let j = if integral && fits {
        Json::UInt(val)
    } else {
        Json::NumOther
    };
    Some((j, cur))
}

/// Reads one JSON value starting at `pos`.
fn parse_value(v: &Vec<char>, pos: usize) -> (r: Option<(Json, usize)>)
    requires
        pos <= v@.len(),
    ensures
        (match r {
            Some(jp) => spec_parse_value(v@, pos as int) == Some((jp.0@, jp.1 as int)) && pos
                < jp.1 <= v@.len(),
            None => spec_parse_value(v@, pos as int) is None,
        }),
    decreases v@.len() - pos,
{
    if pos >= v.len() {
        return None;
    }
    let c = v[pos];
    if c == 'n' {
        if has(v, pos, 4) && v[pos + 1] == 'u' && v[pos + 2] == 'l' && v[pos + 3] == 'l' {
            return Some((Json::Null, pos + 4));
        }
        return None;
    }
    if c == 't' {
        if has(v, pos, 4) && v[pos + 1] == 'r' && v[pos + 2] == 'u' && v[pos + 3] == 'e' {
            return Some((Json::Bool(true), pos + 4));
        }
        return None;
    }
    if c == 'f' {
        if has(v, pos, 5) && v[pos + 1] == 'a' && v[pos + 2] == 'l' && v[pos + 3] == 's' && v[pos
            + 4] == 'e' {
            return Some((Json::Bool(false), pos + 5));
        }
        return None;
    }
    if c == '"' {
        return match parse_string(v, pos) {
            Some((s, p)) => Some((Json::Str(s), p)),
            None => None,
        };
    }
    if c == '-' || is_digit(c) {
        return parse_number(v, pos);
    }
    if c == '[' {
        let mut items: Vec<Json> = Vec::new();
        let start = skip_ws(v, pos + 1);
        if start < v.len() && v[start] == ']' {
            proof {
                assert(json_view(Json::Arr(items))->Arr_0 =~= Seq::<JsonV>::empty());
            }
            return Some((Json::Arr(items), start + 1));
        }
        let mut cur = start;
        proof {
            assert(views_of(items@) =~= Seq::<JsonV>::empty());
            lemma_graft_empty(spec_parse_elems(v@, start as int));
        }
        loop
            invariant
                pos < start <= v@.len(),
                start <= cur <= v@.len(),
                0 <= pos < v@.len() && v@[pos as int] == '[',
                start == spec_skip_ws(v@, pos as int + 1),
                !(start < v@.len() && v@[start as int] == ']'),
                spec_parse_elems(v@, start as int) == spec_graft(
                    views_of(items@),
                    spec_parse_elems(v@, cur as int),
                ),
            decreases v@.len() - cur,
        {
            match parse_value(v, cur) {
                None => {
                    return None;
                },
                Some((item, p)) => {
                    let ghost item_v = item@;
                    let ghost items0 = items@;
                    let q = skip_ws(v, p);
                    if q < v.len() && v[q] == ',' {
                        let cur2 = skip_ws(v, q + 1);
                        proof {
                            assert(spec_parse_elems(v@, cur as int) == spec_graft(
                                seq![item_v],
                                spec_parse_elems(v@, cur2 as int),
                            ));
                            lemma_graft_push(
                                views_of(items0),
                                item_v,
                                spec_parse_elems(v@, cur2 as int),
                            );
                            assert(views_of(items0.push(item)) =~= views_of(items0).push(item_v));
                        }
                        items.push(item);
                        cur = cur2;
                    } else if q < v.len() && v[q] == ']' {
                        proof {
                            assert(spec_parse_elems(v@, cur as int) == Some(
                                (seq![item_v], q as int + 1),
                            ));
                            assert(views_of(items0) + seq![item_v] =~= views_of(
                                items0.push(item),
                            ));
                        }
                        items.push(item);
                        proof {
                            assert(json_view(Json::Arr(items))->Arr_0 =~= views_of(items@));
                        }
                        return Some((Json::Arr(items), q + 1));
                    } else {
                        return None;
                    }
                },
            }
        }
    }
    if c == '{' {
        let mut fields: Vec<(String, Json)> = Vec::new();
        let start = skip_ws(v, pos + 1);
        if start < v.len() && v[start] == '}' {
            proof {
                assert(json_view(Json::Obj(fields))->Obj_0 =~= Seq::<(Seq<char>, JsonV)>::empty());
            }
            return Some((Json::Obj(fields), start + 1));
        }
        let mut cur = start;
        proof {
            assert(pair_views_of(fields@) =~= Seq::<(Seq<char>, JsonV)>::empty());
            lemma_graft_empty(spec_parse_members(v@, start as int));
        }
        loop
            invariant
                pos < start <= v@.len(),
                start <= cur <= v@.len(),
                0 <= pos < v@.len() && v@[pos as int] == '{',
                start == spec_skip_ws(v@, pos as int + 1),
                !(start < v@.len() && v@[start as int] == '}'),
                spec_parse_members(v@, start as int) == spec_graft(
                    pair_views_of(fields@),
                    spec_parse_members(v@, cur as int),
                ),
            decreases v@.len() - cur,
        {
            match parse_string(v, cur) {
                None => {
                    return None;
                },
                Some((key, p)) => {
                    let q = skip_ws(v, p);
                    if !(q < v.len() && v[q] == ':') {
                        return None;
                    }
                    let q2 = skip_ws(v, q + 1);
                    match parse_value(v, q2) {
                        None => {
                            return None;
                        },
                        Some((val, p2)) => {
                            let ghost key_v = key@;
                            let ghost val_v = val@;
                            let ghost fields0 = fields@;
                            let q3 = skip_ws(v, p2);
                            if q3 < v.len() && v[q3] == ',' {
                                let cur2 = skip_ws(v, q3 + 1);
                                proof {
                                    assert(spec_parse_members(v@, cur as int) == spec_graft(
                                        seq![(key_v, val_v)],
                                        spec_parse_members(v@, cur2 as int),
                                    ));
                                    lemma_graft_push(
                                        pair_views_of(fields0),
                                        (key_v, val_v),
                                        spec_parse_members(v@, cur2 as int),
                                    );
                                    assert(pair_views_of(fields0.push((key, val)))
                                        =~= pair_views_of(fields0).push((key_v, val_v)));
                                }
                                fields.push((key, val));
                                cur = cur2;
                            } else if q3 < v.len() && v[q3] == '}' {
                                proof {
                                    assert(spec_parse_members(v@, cur as int) == Some(
                                        (seq![(key_v, val_v)], q3 as int + 1),
                                    ));
                                    assert(pair_views_of(fields0) + seq![(key_v, val_v)]
                                        =~= pair_views_of(fields0.push((key, val))));
                                }
                                fields.push((key, val));
                                proof {
                                    assert(json_view(Json::Obj(fields))->Obj_0 =~= pair_views_of(
                                        fields@,
                                    ));
                                }
                                return Some((Json::Obj(fields), q3 + 1));
                            } else {
                                return None;
                            }
                        },
                    }
                },
            }
        }
    }
    None
}

/// Parses a complete JSON document: exactly the text of
/// [`spec_parse_json`], with `None` on any syntax error or on trailing
/// content.
pub fn parse_json(text: &str) -> (r: Option<Json>)
    ensures
        (match r {
            Some(j) => spec_parse_json(text@) == Some(j@),
            None => spec_parse_json(text@) is None,
        }),
{
    let v = str_to_chars(text);
    let start = skip_ws(&v, 0);
    match parse_value(&v, start) {
        None => None,
        Some((j, p)) => {
            let q = skip_ws(&v, p);
            if q == v.len() {
                Some(j)
            } else {
                None
            }
        },
    }
}

/// The hexadecimal digit with value `n`, in lower case.
pub open spec fn hex_digit(n: int) -> char
    recommends
        0 <= n < 16,
{
    if n < 10 {
        ((48 + n) as u8) as char
    } else {
        ((87 + n) as u8) as char
    }
}

/// How one character is written inside a JSON string: quotes and
/// backslashes take an escape, control characters take a `\u00..`
/// escape, everything else stands as itself.
pub open spec fn escape_char(c: char) -> Seq<char> {
    if c == '"' {
        seq!['\\', '"']
    } else if c == '\\' {
        seq!['\\', '\\']
    } else if (c as u32) < 0x20 {
        seq!['\\', 'u', '0', '0', hex_digit(c as u32 as int / 16), hex_digit(c as u32 as int % 16)]
    } else {
        seq![c]
    }
}

/// The body of a JSON string rendering of `s` (without the quotes).
pub open spec fn json_escaped(s: Seq<char>) -> Seq<char>
    decreases s.len(),
{
    if s.len() == 0 {
        Seq::empty()
    } else {
        escape_char(s[0]) + json_escaped(s.drop_first())
    }
}

/// Escaping distributes over concatenation.
pub proof fn lemma_json_escaped_concat(a: Seq<char>, b: Seq<char>)
    ensures
        json_escaped(a + b) == json_escaped(a) + json_escaped(b),
    decreases a.len(),
{
    if a.len() == 0 {
        assert(a + b =~= b);
        assert(json_escaped(a) + json_escaped(b) =~= json_escaped(b));
    } else {
        assert((a + b).drop_first() =~= a.drop_first() + b);
        lemma_json_escaped_concat(a.drop_first(), b);
        assert((a + b)[0] == a[0]);
        assert(json_escaped(a + b) =~= json_escaped(a) + json_escaped(b));
    }
}

proof fn lemma_escaped_take_step(s: Seq<char>, i: int)
    requires
        0 <= i < s.len(),
    ensures
        json_escaped(s.take(i + 1)) == json_escaped(s.take(i)) + escape_char(s[i]),
{
    assert(s.take(i + 1) =~= s.take(i) + seq![s[i]]);
    lemma_json_escaped_concat(s.take(i), seq![s[i]]);
    let single = seq![s[i]];
    assert(single.len() == 1 && single[0] == s[i]);
    assert(single.drop_first() =~= Seq::<char>::empty());
    assert(json_escaped(single) == escape_char(s[i]) + json_escaped(single.drop_first()));
    assert(json_escaped(Seq::<char>::empty()) =~= Seq::<char>::empty());
    assert(json_escaped(single) =~= escape_char(s[i]));
}

/// Renders `s` as it stands inside a JSON string literal.
pub fn escape_json_string(s: &str) -> (r: String)
    ensures
        r@ == json_escaped(s@),
{
    let chars = str_to_chars(s);
    let mut out = String::new();
    let mut i: usize = 0;
    while i < chars.len()
        invariant
            i <= chars@.len(),
            chars@ == s@,
            out@ == json_escaped(s@.take(i as int)),
        decreases chars@.len() - i,
    {
        let c = chars[i];
        let u = c as u32;
        if c == '"' {
            push_char(&mut out, '\\');
            push_char(&mut out, '"');
        } else if c == '\\' {
            push_char(&mut out, '\\');
            push_char(&mut out, '\\');
        } else if u < 0x20 {
            push_char(&mut out, '\\');
            push_char(&mut out, 'u');
            push_char(&mut out, '0');
            push_char(&mut out, '0');
            let hi = (u / 16) as u8;
            let lo = (u % 16) as u8;
            push_char(&mut out, ((if hi < 10 {
                48 + hi
            } else {
                87 + hi
            }) as u8) as char);
            push_char(&mut out, ((if lo < 10 {
                48 + lo
            } else {
                87 + lo
            }) as u8) as char);
        } else {
            push_char(&mut out, c);
        }
        proof {
            lemma_escaped_take_step(s@, i as int);
            assert(out@ =~= json_escaped(s@.take(i as int)) + escape_char(s@[i as int]));
        }
        i = i + 1;
    }
    proof {
        assert(s@.take(chars@.len() as int) =~= s@);
    }
    out
}

} // verus!
