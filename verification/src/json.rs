//! A lossless, library-owned model of a JSON document, and the trusted
//! bridge that obtains one from JSON text.
//!
//! Numbers keep their decimal literal as a string, so no information is
//! lost and no floating point enters the verified code. Objects keep
//! their entries in order as a vector of pairs, so unknown producer
//! fields survive a decode/encode round trip unchanged.

use vstd::prelude::*;

verus! {

/// A JSON value. `Num` holds the number's decimal literal.
#[derive(Debug)]
pub enum JsonVal {
    Null,
    Bool(bool),
    Num(String),
    Str(String),
    Arr(Vec<JsonVal>),
    Obj(Vec<(String, JsonVal)>),
}

/// First value stored under `key`, scanning entries front to back.
pub open spec fn lookup(es: Seq<(String, JsonVal)>, key: Seq<char>) -> Option<JsonVal>
    decreases es.len(),
{
    if es.len() == 0 {
        Option::None
    } else if es[0].0@ == key {
        Option::Some(es[0].1)
    } else {
        lookup(es.drop_first(), key)
    }
}

/// Finds the first entry whose key equals `key`, as `lookup` describes.
pub fn find<'a>(es: &'a Vec<(String, JsonVal)>, key: &str) -> (r: Option<&'a JsonVal>)
    ensures
        match r {
            Option::Some(v) => lookup(es@, key@) == Option::Some(*v),
            Option::None => lookup(es@, key@) == Option::<JsonVal>::None,
        },
{
    let mut i: usize = 0;
    proof {
        assert(es@.skip(0) =~= es@);
    }
    while i < es.len()
        invariant
            0 <= i <= es@.len(),
            lookup(es@, key@) == lookup(es@.skip(i as int), key@),
            forall|j: int| 0 <= j < i ==> #[trigger] es@[j].0@ != key@,
        decreases es@.len() - i,
    {
        proof {
            assert(es@.skip(i as int)[0] == es@[i as int]);
        }
        if str_eq(&es[i].0, key) {
            return Option::Some(&es[i].1);
        }
        proof {
            assert(es@.skip(i as int).drop_first() =~= es@.skip(i + 1));
        }
        i = i + 1;
    }
    proof {
        assert(es@.skip(i as int) =~= Seq::<(String, JsonVal)>::empty());
    }
    Option::None
}

/// True iff the string equals the literal, by view.
pub fn str_eq(a: &String, b: &str) -> (r: bool)
    ensures
        r == (a@ == b@),
{
    let bs: String = b.to_owned();
    *a == bs
}

/// `serde_json`'s own document type, declared opaquely so that the
/// conversion helpers below may pass it through.
#[verifier::external_type_specification]
#[verifier::external_body]
pub struct ExValue(serde_json::Value);

/// What `serde_json` reads out of one JSON text: the parsed document as
/// a `JsonVal`, or nothing when the text is not valid JSON. The result
/// depends on the text alone.
pub uninterp spec fn json_parse_of(text: Seq<char>) -> Option<JsonVal>;

/// What one JSON document looks like as text when `serde_json` prints
/// it. The result depends on the document alone.
pub uninterp spec fn json_text_of(v: JsonVal) -> Seq<char>;

/// Relies on `serde_json::from_str::<serde_json::Value>` to parse the
/// text, and on `serde_json::Value`'s own variants to read the parsed
/// document out. Number literals are kept as the text `serde_json`
/// prints for them; object entries come in the order of `serde_json`'s
/// map (sorted by key), with duplicate keys already collapsed.
#[verifier::external_body]
pub fn parse_json(text: &str) -> (r: Option<JsonVal>)
    ensures
        r == json_parse_of(text@),
{
    match serde_json::from_str::<serde_json::Value>(text) {
        Result::Ok(v) => Option::Some(value_to_json(v)),
        Result::Err(_) => Option::None,
    }
}

/// Relies on `serde_json::Value`'s public enum shape: each variant is
/// moved across, numbers through `serde_json::Number`'s display form.
#[verifier::external_body]
fn value_to_json(v: serde_json::Value) -> JsonVal {
    match v {
        serde_json::Value::Null => JsonVal::Null,
        serde_json::Value::Bool(b) => JsonVal::Bool(b),
        serde_json::Value::Number(n) => JsonVal::Num(n.to_string()),
        serde_json::Value::String(s) => JsonVal::Str(s),
        serde_json::Value::Array(a) => JsonVal::Arr(
            a.into_iter().map(value_to_json).collect(),
        ),
        serde_json::Value::Object(m) => JsonVal::Obj(
            m.into_iter().map(|kv| (kv.0, value_to_json(kv.1))).collect(),
        ),
    }
}

/// Relies on `serde_json::to_string` to print the document; the printed
/// text is a function of the document alone.
#[verifier::external_body]
pub fn render_json(v: &JsonVal) -> (r: String)
    ensures
        r@ == json_text_of(*v),
{
    match serde_json::to_string(&json_to_value(v)) {
        Result::Ok(s) => s,
        Result::Err(_) => String::new(),
    }
}

/// Relies on `serde_json::Value`'s public enum shape and on
/// `serde_json::Number`'s `FromStr` to read a kept number literal back.
#[verifier::external_body]
fn json_to_value(v: &JsonVal) -> serde_json::Value {
    match v {
        JsonVal::Null => serde_json::Value::Null,
        JsonVal::Bool(b) => serde_json::Value::Bool(*b),
        JsonVal::Num(s) => str::parse::<serde_json::Number>(s)
            .map(serde_json::Value::Number)
            .unwrap_or(serde_json::Value::Null),
        JsonVal::Str(s) => serde_json::Value::String(s.clone()),
        JsonVal::Arr(a) => serde_json::Value::Array(a.iter().map(json_to_value).collect()),
        JsonVal::Obj(es) => serde_json::Value::Object(
            es.iter().map(|kv| (kv.0.clone(), json_to_value(&kv.1))).collect(),
        ),
    }
}

} // verus!
