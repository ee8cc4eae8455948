//! JSON values, as `serde_json` reads and writes them.

use serde_json::Value;
use vstd::prelude::*;

verus! {

/// A JSON value of `serde_json`.
#[verifier::external_type_specification]
#[verifier::external_body]
pub struct ExValue(serde_json::Value);

/// What a JSON value is.
pub enum Json {
    Null,
    Bool(bool),
    /// A number that is held as an integer.
    Int(int),
    /// A number that is held as a binary fraction, by its bits.
    Fraction(u64),
    Text(Seq<char>),
    Array(Seq<Json>),
    Object(Map<Seq<char>, Json>),
}

/// What a `serde_json::Value` holds: its variant, and what stands in it all the
/// way down.
pub uninterp spec fn json(v: Value) -> Json;

/// The value that a text parses to, `None` where it is no JSON text.
pub uninterp spec fn parsed(text: Seq<char>) -> Option<Json>;

/// The value that bytes parse to, or the message that tells why they do not.
pub uninterp spec fn parsed_bytes(bytes: Seq<u8>) -> Result<Json, Seq<char>>;

/// A value written in one line, `None` where it cannot be written.
pub uninterp spec fn written(j: Json) -> Option<Seq<char>>;

/// A value as it is displayed.
pub uninterp spec fn displayed(j: Json) -> Seq<char>;

/// A value written over several lines, as bytes, `None` where it cannot be
/// written.
pub uninterp spec fn written_pretty(j: Json) -> Option<Seq<u8>>;

/// Whether bytes parse, and parse to the given value.
pub open spec fn reads_as(bytes: Seq<u8>, j: Json) -> bool {
    parsed_bytes(bytes) == Ok::<Json, Seq<char>>(j)
}

/// Whether a fraction, written down by itself, reads back as it was. The parser
/// rounds, so not every fraction does.
pub open spec fn fraction_reads_back(bits: u64) -> bool {
    written_pretty(Json::Fraction(bits)) matches Some(b) && reads_as(b, Json::Fraction(bits))
}

/// Whether a value can be read back as it is: each fraction in it can, and its
/// arrays and objects nest at most so many levels deep.
pub open spec fn plain(j: Json, levels: nat) -> bool
    decreases levels,
{
    match j {
        Json::Fraction(bits) => fraction_reads_back(bits),
        Json::Array(s) => levels > 0 && forall|i: int|
            0 <= i < s.len() ==> plain(#[trigger] s[i], (levels - 1) as nat),
        Json::Object(m) => levels > 0 && forall|k: Seq<char>|
            m.contains_key(k) ==> plain(#[trigger] m[k], (levels - 1) as nat),
        _ => true,
    }
}

/// What an optional value holds.
pub open spec fn json_option(v: Option<Value>) -> Option<Json> {
    match v {
        Some(v) => Some(json(v)),
        None => None,
    }
}

/// The member of an object under a key. Nothing else has members.
pub open spec fn member_of(j: Json, key: Seq<char>) -> Option<Json> {
    match j {
        Json::Object(m) => if m.contains_key(key) {
            Some(m[key])
        } else {
            None
        },
        _ => None,
    }
}

/// The object that has the given members.
pub open spec fn gathered(members: Seq<(String, Value)>) -> Map<Seq<char>, Json>
    decreases members.len(),
{
    if members.len() == 0 {
        Map::empty()
    } else {
        gathered(members.drop_last()).insert(members.last().0@, json(members.last().1))
    }
}

/// `Value::as_str`: the text of a string, nothing for another value.
pub assume_specification[ serde_json::Value::as_str ](v: &serde_json::Value) -> (r: Option<&str>)
    ensures
        match json(*v) {
            Json::Text(s) => r is Some && r->0@ == s,
            _ => r is None,
        },
;

/// `Value::as_u64`: an integer that is not negative, nothing for another value.
pub assume_specification[ serde_json::Value::as_u64 ](v: &serde_json::Value) -> (r: Option<u64>)
    ensures
        match json(*v) {
            Json::Int(n) => if n >= 0 {
                r is Some && r->0 as int == n
            } else {
                r is None
            },
            _ => r is None,
        },
;

/// `Value::as_bool`: the truth value, nothing for another value.
pub assume_specification[ serde_json::Value::as_bool ](v: &serde_json::Value) -> (r: Option<bool>)
    ensures
        r == match json(*v) {
            Json::Bool(b) => Some(b),
            _ => None,
        },
;

/// `Value::as_array`: the elements of an array in their order, nothing for
/// another value.
pub assume_specification[ serde_json::Value::as_array ](v: &serde_json::Value) -> (r: Option<
    &Vec<serde_json::Value>,
>)
    ensures
        match json(*v) {
            Json::Array(s) => r is Some && r->0@.map_values(|e: Value| json(e)) == s,
            _ => r is None,
        },
;

/// `serde_json::from_str` into a `Value`: what it makes of a text depends on the
/// text alone.
#[verifier::external_body]
pub(crate) fn parse(text: &str) -> (r: Option<Value>)
    ensures
        json_option(r) == parsed(text@),
{
    serde_json::from_str(text).ok()
}

/// `serde_json::from_slice` into a `Value`: what it makes of bytes, and the
/// message of its error, depend on the bytes alone.
#[verifier::external_body]
pub(crate) fn parse_bytes(bytes: &Vec<u8>) -> (r: Result<Value, String>)
    ensures
        match r {
            Ok(v) => parsed_bytes(bytes@) == Ok::<Json, Seq<char>>(json(v)),
            Err(e) => parsed_bytes(bytes@) == Err::<Json, Seq<char>>(e@),
        },
{
    serde_json::from_slice(bytes).map_err(|e| e.to_string())
}

/// `Value::get` with a string: the member of an object under that key, nothing
/// where there is none or the value is no object.
#[verifier::external_body]
pub(crate) fn member(v: &Value, key: &str) -> (r: Option<Value>)
    ensures
        json_option(r) == member_of(json(*v), key@),
{
    v.get(key).cloned()
}

/// `serde_json::to_string` of a `Value`: the text depends on the value alone.
#[verifier::external_body]
pub(crate) fn write(v: &Value) -> (r: Option<String>)
    ensures
        match r {
            Some(s) => written(json(*v)) == Some(s@),
            None => written(json(*v)) is None,
        },
{
    serde_json::to_string(v).ok()
}

/// `Display` of a `Value`: the text depends on the value alone.
#[verifier::external_body]
pub(crate) fn display(v: &Value) -> (r: String)
    ensures
        r@ == displayed(json(*v)),
{
    v.to_string()
}

/// `serde_json::to_vec_pretty` of a `Value`: the bytes depend on the value alone.
/// A value that nests no deeper than the 127 levels which `serde_json::from_slice`
/// follows, and whose fractions each read back from their own digits, is always
/// written, and reads back from these bytes as it is: numbers are written and
/// read one by one, and nothing else of a value is lost in its text.
#[verifier::external_body]
pub(crate) fn write_pretty(v: &Value) -> (r: Option<Vec<u8>>)
    ensures
        match r {
            Some(b) => written_pretty(json(*v)) == Some(b@),
            None => written_pretty(json(*v)) is None,
        },
        plain(json(*v), 127) ==> r is Some && reads_as(r->0@, json(*v)),
{
    serde_json::to_vec_pretty(v).ok()
}

/// `FromIterator` of a `Value` over pairs: the object that has these members,
/// where no two of them have the same key.
#[verifier::external_body]
pub(crate) fn object(members: Vec<(String, Value)>) -> (r: Value)
    requires
        forall|i: int, j: int|
            0 <= i < j < members@.len() ==> #[trigger] members@[i].0@ != #[trigger] members@[j].0@,
    ensures
        json(r) == Json::Object(gathered(members@)),
{
    members.into_iter().collect()
}

} // verus!
