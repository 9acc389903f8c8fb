//! A plain model of JSON values, the parser that produces it, and typed
//! field readers with exact contracts.
use vstd::prelude::*;
use crate::text::{check_number_text, decimal_of, is_number_text, str_eq, u64_to_decimal};

verus! {

/// A JSON number as the parser keeps it: a non-negative integer, a negative
/// integer, or any other number as its shortest decimal text.
#[derive(Debug)]
pub enum JsonNumber {
    PosInt(u64),
    NegInt(i64),
    Float(String),
}

/// A JSON value. Object members keep the parser's order.
#[derive(Debug)]
pub enum JsonValue {
    Null,
    Bool(bool),
    Number(JsonNumber),
    Str(String),
    Array(Vec<JsonValue>),
    Object(Vec<(String, JsonValue)>),
}

/// serde_json's value type, only carried into `from_serde`.
#[verifier::external_type_specification]
#[verifier::external_body]
pub struct ExJsonValue(serde_json::Value);

/// What serde_json reads from a byte string, if it is JSON.
pub uninterp spec fn json_parse_of(b: Seq<u8>) -> Option<JsonValue>;

/// serde_json's number type, only carried into `from_serde_number`.
#[verifier::external_type_specification]
#[verifier::external_body]
pub struct ExJsonNumber(serde_json::Number);

/// Relies on serde_json::Number's `as_u64`, `as_i64` and `Display`: the first
/// two tell its three internal kinds apart; a float keeps its shortest text.
#[verifier::external_body]
fn from_serde_number(n: serde_json::Number) -> JsonNumber {
    match (n.as_u64(), n.as_i64()) {
        (Some(u), _) => JsonNumber::PosInt(u),
        (None, Some(i)) => JsonNumber::NegInt(i),
        (None, None) => JsonNumber::Float(n.to_string()),
    }
}

/// Relies on serde_json::Value's variants: converts each into the model's
/// variant of the same name, members in the order the map yields them.
#[verifier::external_body]
fn from_serde(v: serde_json::Value) -> JsonValue {
    match v {
        serde_json::Value::Null => JsonValue::Null,
        serde_json::Value::Bool(b) => JsonValue::Bool(b),
        serde_json::Value::Number(n) => JsonValue::Number(from_serde_number(n)),
        serde_json::Value::String(s) => JsonValue::Str(s),
        serde_json::Value::Array(a) => JsonValue::Array(a.into_iter().map(from_serde).collect()),
        serde_json::Value::Object(m) => JsonValue::Object(m.into_iter().map(|(k, x)| (k, from_serde(x))).collect()),
    }
}

/// Relies on serde_json::from_slice::<serde_json::Value>: the result depends
/// on the bytes alone, and is `None` where they are not one JSON document.
#[verifier::external_body]
pub(crate) fn parse_json(b: &[u8]) -> (r: Option<JsonValue>)
    ensures
        r == json_parse_of(b@),
{
    match serde_json::from_slice::<serde_json::Value>(b) {
        Ok(v) => Some(from_serde(v)),
        Err(_) => None,
    }
}

/// The first member of an object list named `k`.
pub open spec fn find_member(fields: Seq<(String, JsonValue)>, k: Seq<char>) -> Option<JsonValue>
    decreases fields.len(),
{
    if fields.len() == 0 {
        None
    } else if fields[0].0@ == k {
        Some(fields[0].1)
    } else {
        find_member(fields.drop_first(), k)
    }
}

/// The member `k` of an object; `None` for a missing member or a non-object.
pub open spec fn json_field(v: JsonValue, k: Seq<char>) -> Option<JsonValue> {
    match v {
        JsonValue::Object(f) => find_member(f@, k),
        _ => None,
    }
}

proof fn lemma_find_member_skip(fields: Seq<(String, JsonValue)>, k: Seq<char>, i: int)
    requires
        0 <= i <= fields.len(),
        forall|j: int| 0 <= j < i ==> (#[trigger] fields[j]).0@ != k,
    ensures
        find_member(fields, k) == find_member(fields.subrange(i, fields.len() as int), k),
    decreases i,
{
    if i > 0 {
        assert(fields[0].0@ != k);
        let t = fields.drop_first();
        assert forall|j: int| 0 <= j < i - 1 implies (#[trigger] t[j]).0@ != k by {
            assert(t[j] == fields[j + 1]);
        }
        lemma_find_member_skip(t, k, i - 1);
        assert(t.subrange(i - 1, t.len() as int) =~= fields.subrange(i, fields.len() as int));
    } else {
        assert(fields.subrange(0, fields.len() as int) =~= fields);
    }
}

/// The member `name` of an object.
pub fn field<'a>(v: &'a JsonValue, name: &str) -> (r: Option<&'a JsonValue>)
    ensures
        match r {
            Some(x) => json_field(*v, name@) == Some(*x),
            None => json_field(*v, name@) is None,
        },
{
    match v {
        JsonValue::Object(fields) => {
            let mut i: usize = 0;
            while i < fields.len()
                invariant
                    i <= fields@.len(),
                    json_field(*v, name@) == find_member(fields@, name@),
                    forall|j: int| 0 <= j < i ==> (#[trigger] fields@[j]).0@ != name@,
                decreases fields@.len() - i,
            {
                if str_eq(fields[i].0.as_str(), name) {
                    proof {
                        lemma_find_member_skip(fields@, name@, i as int);
                        let sub = fields@.subrange(i as int, fields@.len() as int);
                        assert(sub[0] == fields@[i as int]);
                    }
                    return Some(&fields[i].1);
                }
                i = i + 1;
            }
            proof {
                lemma_find_member_skip(fields@, name@, i as int);
            }
            None
        },
        _ => None,
    }
}

/// A string member.
pub open spec fn json_text(f: Option<JsonValue>) -> Option<Seq<char>> {
    match f {
        Some(JsonValue::Str(s)) => Some(s@),
        _ => None,
    }
}

/// A boolean member.
pub open spec fn json_bool(f: Option<JsonValue>) -> Option<bool> {
    match f {
        Some(JsonValue::Bool(b)) => Some(b),
        _ => None,
    }
}

/// An integer member, as a mathematical integer; floats are refused.
pub open spec fn json_int(f: Option<JsonValue>) -> Option<int> {
    match f {
        Some(JsonValue::Number(JsonNumber::PosInt(u))) => Some(u as int),
        Some(JsonValue::Number(JsonNumber::NegInt(i))) => Some(i as int),
        _ => None,
    }
}

/// An integer member that lies in `lo..=hi`.
pub open spec fn json_int_in(f: Option<JsonValue>, lo: int, hi: int) -> Option<int> {
    match json_int(f) {
        Some(i) => if lo <= i <= hi { Some(i) } else { None },
        None => None,
    }
}

/// A number member that the exchange may send as a JSON number or as a
/// string: its decimal text either way.
pub open spec fn json_number_text(f: Option<JsonValue>) -> Option<Seq<char>> {
    match f {
        Some(JsonValue::Str(s)) => if is_number_text(s@) {
            Some(s@)
        } else {
            None
        },
        Some(JsonValue::Number(JsonNumber::PosInt(u))) => Some(decimal_of(u as nat)),
        Some(JsonValue::Number(JsonNumber::NegInt(i))) => if i < 0 {
            Some(seq!['-'] + decimal_of((-i) as nat))
        } else {
            Some(decimal_of(i as nat))
        },
        Some(JsonValue::Number(JsonNumber::Float(t))) => Some(t@),
        _ => None,
    }
}

/// An optional string member: absent or `null` is `None`.
pub open spec fn json_opt_text(f: Option<JsonValue>) -> Option<Option<Seq<char>>> {
    match f {
        None => Some(None),
        Some(JsonValue::Null) => Some(None),
        Some(JsonValue::Str(s)) => Some(Some(s@)),
        _ => None,
    }
}

/// An optional boolean member: absent or `null` is `None`.
pub open spec fn json_opt_bool(f: Option<JsonValue>) -> Option<Option<bool>> {
    match f {
        None => Some(None),
        Some(JsonValue::Null) => Some(None),
        Some(JsonValue::Bool(b)) => Some(Some(b)),
        _ => None,
    }
}

/// A boolean that the exchange may send as a JSON boolean or as the string
/// `"true"` or `"false"`.
pub open spec fn json_flag(f: Option<JsonValue>) -> Option<bool> {
    match f {
        Some(JsonValue::Bool(b)) => Some(b),
        Some(JsonValue::Str(s)) => if s@ == "true"@ {
            Some(true)
        } else if s@ == "false"@ {
            Some(false)
        } else {
            None
        },
        _ => None,
    }
}

/// Reads a boolean sent as a boolean or as its text.
pub fn flag_field(v: &JsonValue, name: &str) -> (r: Option<bool>)
    ensures
        r == json_flag(json_field(*v, name@)),
{
    match field(v, name) {
        Some(JsonValue::Bool(b)) => Some(*b),
        Some(JsonValue::Str(s)) => {
            if str_eq(s.as_str(), "true") {
                Some(true)
            } else if str_eq(s.as_str(), "false") {
                Some(false)
            } else {
                None
            }
        },
        _ => None,
    }
}

/// Reads a string member.
pub fn text_field(v: &JsonValue, name: &str) -> (r: Option<String>)
    ensures
        match r {
            Some(s) => json_text(json_field(*v, name@)) == Some(s@),
            None => json_text(json_field(*v, name@)) is None,
        },
{
    match field(v, name) {
        Some(JsonValue::Str(s)) => Some(s.clone()),
        _ => None,
    }
}

/// Reads a boolean member.
pub fn bool_field(v: &JsonValue, name: &str) -> (r: Option<bool>)
    ensures
        r == json_bool(json_field(*v, name@)),
{
    match field(v, name) {
        Some(JsonValue::Bool(b)) => Some(*b),
        _ => None,
    }
}

/// Reads an integer member as `i64`; out of range is `None`.
pub fn i64_field(v: &JsonValue, name: &str) -> (r: Option<i64>)
    ensures
        match r {
            Some(x) => json_int_in(json_field(*v, name@), i64::MIN as int, i64::MAX as int) == Some(x as int),
            None => json_int_in(json_field(*v, name@), i64::MIN as int, i64::MAX as int) is None,
        },
{
    match field(v, name) {
        Some(JsonValue::Number(JsonNumber::PosInt(u))) => {
            if *u <= 9223372036854775807u64 {
                Some(*u as i64)
            } else {
                None
            }
        },
        Some(JsonValue::Number(JsonNumber::NegInt(i))) => Some(*i),
        _ => None,
    }
}

/// Reads an integer member that lies in `lo..=hi`.
pub fn int_field_in(v: &JsonValue, name: &str, lo: i64, hi: i64) -> (r: Option<i64>)
    ensures
        match r {
            Some(x) => json_int_in(json_field(*v, name@), lo as int, hi as int) == Some(x as int),
            None => json_int_in(json_field(*v, name@), lo as int, hi as int) is None,
        },
{
    match i64_field(v, name) {
        Some(x) => {
            if lo <= x && x <= hi {
                Some(x)
            } else {
                None
            }
        },
        None => {
            proof {
                let f = json_field(*v, name@);
                if json_int(f) is Some {
                    assert(json_int(f)->0 > i64::MAX || json_int(f)->0 < i64::MIN);
                }
            }
            None
        },
    }
}

/// Reads a non-negative integer member as `u64`.
pub fn u64_field(v: &JsonValue, name: &str) -> (r: Option<u64>)
    ensures
        match r {
            Some(x) => json_int_in(json_field(*v, name@), 0, u64::MAX as int) == Some(x as int),
            None => json_int_in(json_field(*v, name@), 0, u64::MAX as int) is None,
        },
{
    match field(v, name) {
        Some(JsonValue::Number(JsonNumber::PosInt(u))) => Some(*u),
        Some(JsonValue::Number(JsonNumber::NegInt(i))) => {
            if *i >= 0 {
                Some(*i as u64)
            } else {
                None
            }
        },
        _ => None,
    }
}

/// Decimal text of a JSON number or of a string holding one.
pub fn number_text(f: Option<&JsonValue>) -> (r: Option<String>)
    ensures
        match r {
            Some(s) => json_number_text(match f { Some(x) => Some(*x), None => None }) == Some(s@),
            None => json_number_text(match f { Some(x) => Some(*x), None => None }) is None,
        },
{
    match f {
        Some(JsonValue::Str(s)) => {
            if check_number_text(s.as_str()) {
                Some(s.clone())
            } else {
                None
            }
        },
        Some(JsonValue::Number(JsonNumber::PosInt(u))) => Some(u64_to_decimal(*u)),
        Some(JsonValue::Number(JsonNumber::NegInt(i))) => {
            if *i >= 0 {
                return Some(u64_to_decimal(*i as u64));
            }
            let mut s = String::from_str("-");
            let m: u64 = if *i == i64::MIN {
                9223372036854775808u64
            } else {
                (-*i) as u64
            };
            assert(m as int == -(*i as int));
            let d = u64_to_decimal(m);
            s.append(d.as_str());
            proof {
                reveal_strlit("-");
                assert(s@ =~= seq!['-'] + decimal_of((-*i) as nat));
            }
            Some(s)
        },
        Some(JsonValue::Number(JsonNumber::Float(t))) => Some(t.clone()),
        _ => None,
    }
}

/// Reads a number member sent as a number or as a string.
pub fn number_field(v: &JsonValue, name: &str) -> (r: Option<String>)
    ensures
        match r {
            Some(s) => json_number_text(json_field(*v, name@)) == Some(s@),
            None => json_number_text(json_field(*v, name@)) is None,
        },
{
    number_text(field(v, name))
}

/// Reads an optional string member.
pub fn opt_text_field(v: &JsonValue, name: &str) -> (r: Option<Option<String>>)
    ensures
        match r {
            Some(Some(s)) => json_opt_text(json_field(*v, name@)) == Some(Some(s@)),
            Some(None) => json_opt_text(json_field(*v, name@)) == Some(None::<Seq<char>>),
            None => json_opt_text(json_field(*v, name@)) is None,
        },
{
    match field(v, name) {
        None => Some(None),
        Some(JsonValue::Null) => Some(None),
        Some(JsonValue::Str(s)) => Some(Some(s.clone())),
        _ => None,
    }
}

/// Reads an optional boolean member.
pub fn opt_bool_field(v: &JsonValue, name: &str) -> (r: Option<Option<bool>>)
    ensures
        r == json_opt_bool(json_field(*v, name@)),
{
    match field(v, name) {
        None => Some(None),
        Some(JsonValue::Null) => Some(None),
        Some(JsonValue::Bool(b)) => Some(Some(*b)),
        _ => None,
    }
}

/// The same decimal text is read whether the exchange sends a number as a
/// JSON number or as a JSON string.
pub proof fn lemma_number_text_either_form(s: String, t: String)
    requires
        s@ == t@,
        is_number_text(s@),
    ensures
        json_number_text(Some(JsonValue::Str(s))) == json_number_text(
            Some(JsonValue::Number(JsonNumber::Float(t))),
        ),
{
}

} // verus!
