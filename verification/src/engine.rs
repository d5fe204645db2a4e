//! The JSON engine behind the bridge: the `serde_json` types that are carried
//! through, what they hold, and the calls into the crate. Nothing in this
//! file is proved; each contract restates what the crate's source shows.

use vstd::prelude::*;
use crate::keyed::upsert;
use crate::value::{number_equal, whole_number, JsonView, NumberView};

verus! {

/// `serde_json::Value`, carried through as it is.
#[verifier::external_type_specification]
#[verifier::external_body]
pub struct ExEngineValue(serde_json::Value);

/// `serde_json::Number`, carried through as it is.
#[verifier::external_type_specification]
#[verifier::external_body]
pub struct ExEngineNumber(serde_json::Number);

/// `serde_json::Map`, carried through as it is.
#[verifier::external_type_specification]
#[verifier::external_body]
#[verifier::reject_recursive_types(K)]
#[verifier::reject_recursive_types(V)]
pub struct ExEngineMap<K, V>(serde_json::Map<K, V>);

/// What an engine number holds: an integer by its value, a floating point
/// number by the bit pattern of its (always finite) binary64 value.
pub uninterp spec fn engine_number(n: serde_json::Number) -> NumberView;

/// What an engine value holds.
pub uninterp spec fn engine_value(v: serde_json::Value) -> JsonView;

/// The entries of an engine map, in the order in which the map walks them.
pub uninterp spec fn engine_entries(m: serde_json::Map<String, serde_json::Value>) -> Seq<
    (Seq<char>, JsonView),
>;

/// The compact JSON text of a value, or the engine's message where it
/// refuses to serialise.
pub uninterp spec fn compact_json(v: JsonView) -> Result<Seq<char>, Seq<char>>;

/// The indented JSON text of a value, or the engine's message where it
/// refuses to serialise.
pub uninterp spec fn pretty_json(v: JsonView) -> Result<Seq<char>, Seq<char>>;

/// The JSON text of a value with every entry on a line of its own, each
/// line led by `indent` once for every level that it is nested, or the
/// engine's message where it refuses to serialise.
pub uninterp spec fn indented_json(v: JsonView, indent: Seq<u8>) -> Result<Seq<char>, Seq<char>>;

/// The value that a JSON text denotes, or the engine's message where the
/// text is not JSON.
pub uninterp spec fn parsed_json(text: Seq<char>) -> Result<JsonView, Seq<char>>;

/// One level of an engine value, borrowed from it.
pub enum EngineParts<'a> {
    Null,
    Bool(bool),
    Number(&'a serde_json::Number),
    String(&'a String),
    Array(&'a Vec<serde_json::Value>),
    Object(&'a serde_json::Map<String, serde_json::Value>),
}

impl<'a> EngineParts<'a> {
    /// What the level holds, with what is below it.
    pub open spec fn view(&self) -> JsonView {
        match self {
            EngineParts::Null => JsonView::Null,
            EngineParts::Bool(b) => JsonView::Bool(*b),
            EngineParts::Number(n) => JsonView::Number(engine_number(**n)),
            EngineParts::String(s) => JsonView::String(s@),
            EngineParts::Array(items) => JsonView::Array(engine_values(items@)),
            EngineParts::Object(m) => JsonView::Object(engine_entries(**m)),
        }
    }
}

/// What each of a run of engine values holds.
pub open spec fn engine_values(items: Seq<serde_json::Value>) -> Seq<JsonView> {
    items.map_values(|item: serde_json::Value| engine_value(item))
}

/// The views of a text result.
pub open spec fn text_result(r: Result<String, String>) -> Result<Seq<char>, Seq<char>> {
    match r {
        Ok(text) => Ok(text@),
        Err(message) => Err(message@),
    }
}

/// Matches on `serde_json::Value`: the variant and its payload, unchanged.
#[verifier::external_body]
pub(crate) fn engine_parts<'a>(v: &'a serde_json::Value) -> (r: EngineParts<'a>)
    ensures
        r@ == engine_value(*v),
{
    match v {
        serde_json::Value::Null => EngineParts::Null,
        serde_json::Value::Bool(b) => EngineParts::Bool(*b),
        serde_json::Value::Number(n) => EngineParts::Number(n),
        serde_json::Value::String(s) => EngineParts::String(s),
        serde_json::Value::Array(items) => EngineParts::Array(items),
        serde_json::Value::Object(m) => EngineParts::Object(m),
    }
}

/// `serde_json::Value::Null`.
#[verifier::external_body]
pub(crate) fn engine_null() -> (r: serde_json::Value)
    ensures
        engine_value(r) == JsonView::Null,
{
    serde_json::Value::Null
}

/// `serde_json::Value::Bool`.
#[verifier::external_body]
pub(crate) fn engine_bool(b: bool) -> (r: serde_json::Value)
    ensures
        engine_value(r) == JsonView::Bool(b),
{
    serde_json::Value::Bool(b)
}

/// `serde_json::Value::Number`, which keeps the number as it is.
#[verifier::external_body]
pub(crate) fn engine_from_number(n: serde_json::Number) -> (r: serde_json::Value)
    ensures
        engine_value(r) == JsonView::Number(engine_number(n)),
{
    serde_json::Value::Number(n)
}

/// `serde_json::Value::String`.
#[verifier::external_body]
pub(crate) fn engine_string(s: String) -> (r: serde_json::Value)
    ensures
        engine_value(r) == JsonView::String(s@),
{
    serde_json::Value::String(s)
}

/// `serde_json::Value::Array`, which keeps the items and their order.
#[verifier::external_body]
pub(crate) fn engine_array(items: Vec<serde_json::Value>) -> (r: serde_json::Value)
    ensures
        engine_value(r) == JsonView::Array(engine_values(items@)),
{
    serde_json::Value::Array(items)
}

/// `serde_json::Value::Object`, which keeps the map as it is.
#[verifier::external_body]
pub(crate) fn engine_object(m: serde_json::Map<String, serde_json::Value>) -> (r:
    serde_json::Value)
    ensures
        engine_value(r) == JsonView::Object(engine_entries(m)),
{
    serde_json::Value::Object(m)
}

/// `serde_json::Map::new`: a map without entries.
#[verifier::external_body]
pub(crate) fn engine_map_new() -> (m: serde_json::Map<String, serde_json::Value>)
    ensures
        engine_entries(m) == Seq::<(Seq<char>, JsonView)>::empty(),
{
    serde_json::Map::new()
}

/// `serde_json::Map::insert` on an insertion-ordered map: a key that is
/// present keeps its place and takes the new value, a new key goes last.
#[verifier::external_body]
pub(crate) fn engine_map_insert(
    m: &mut serde_json::Map<String, serde_json::Value>,
    key: String,
    value: serde_json::Value,
)
    ensures
        engine_entries(*final(m)) == upsert(engine_entries(*old(m)), key@, engine_value(value)),
{
    m.insert(key, value);
}

/// `serde_json::Map::iter`, collected: every entry once, in the map's
/// order, and no key twice.
#[verifier::external_body]
pub(crate) fn engine_map_entries<'a>(m: &'a serde_json::Map<String, serde_json::Value>) -> (r:
    Vec<(&'a String, &'a serde_json::Value)>)
    ensures
        r@.len() == engine_entries(*m).len(),
        forall|i: int|
            0 <= i < r@.len() ==> (#[trigger] r@[i]).0@ == engine_entries(*m)[i].0
                && engine_value(*r@[i].1) == engine_entries(*m)[i].1,
        forall|i: int, j: int|
            0 <= i < j < r@.len() ==> (#[trigger] r@[i]).0@ != (#[trigger] r@[j]).0@,
{
    m.iter().collect()
}

/// `Clone` of `serde_json::Number`: the same number.
pub assume_specification[ <serde_json::Number as Clone>::clone ](n: &serde_json::Number) -> (r:
    serde_json::Number)
    ensures
        engine_number(r) == engine_number(*n),
;

/// `PartialEq` of `serde_json::Number`: integers by value, floating point
/// numbers as binary64 compares them, an integer never equal to one.
#[verifier::external_body]
pub(crate) fn engine_numbers_equal(a: &serde_json::Number, b: &serde_json::Number) -> (r: bool)
    ensures
        r == number_equal(engine_number(*a), engine_number(*b)),
{
    a == b
}

/// `Number::as_u64`: the number itself where it is an integer that is not
/// negative, nothing for a negative integer or a floating point number.
#[verifier::external_body]
pub(crate) fn engine_number_as_u64(n: &serde_json::Number) -> (r: Option<u64>)
    ensures
        r == whole_number(engine_number(*n)),
{
    n.as_u64()
}

/// `serde_json::to_string`, with the error turned into its message. Every
/// value has a text of at least one character.
#[verifier::external_body]
pub(crate) fn engine_to_string(v: &serde_json::Value) -> (r: Result<String, String>)
    ensures
        text_result(r) == compact_json(engine_value(*v)),
        r matches Ok(text) ==> text@.len() > 0,
{
    match serde_json::to_string(v) {
        Ok(text) => Ok(text),
        Err(e) => Err(e.to_string()),
    }
}

/// `serde_json::to_string_pretty`, with the error turned into its message.
#[verifier::external_body]
pub(crate) fn engine_to_string_pretty(v: &serde_json::Value) -> (r: Result<String, String>)
    ensures
        text_result(r) == pretty_json(engine_value(*v)),
{
    match serde_json::to_string_pretty(v) {
        Ok(text) => Ok(text),
        Err(e) => Err(e.to_string()),
    }
}

/// `Serialize::serialize` of a value into a `serde_json::Serializer` that
/// writes with `PrettyFormatter::with_indent`, with the error turned into
/// its message.
#[verifier::external_body]
pub(crate) fn engine_to_string_indented(v: &serde_json::Value, indent: &Vec<u8>) -> (r: Result<
    String,
    String,
>)
    ensures
        text_result(r) == indented_json(engine_value(*v), indent@),
{
    let mut text = Vec::new();
    let formatter = serde_json::ser::PrettyFormatter::with_indent(indent);
    let mut serializer = serde_json::Serializer::with_formatter(&mut text, formatter);
    match serde::Serialize::serialize(v, &mut serializer) {
        Ok(()) => match String::from_utf8(text) {
            Ok(text) => Ok(text),
            Err(e) => Err(e.to_string()),
        },
        Err(e) => Err(e.to_string()),
    }
}

/// `serde_json::from_str` into a `serde_json::Value`, with the error turned
/// into its message.
#[verifier::external_body]
pub(crate) fn engine_from_str(text: &str) -> (r: Result<serde_json::Value, String>)
    ensures
        match r {
            Ok(v) => parsed_json(text@) == Ok::<JsonView, Seq<char>>(engine_value(v)),
            Err(message) => parsed_json(text@) == Err::<JsonView, Seq<char>>(message@),
        },
{
    match serde_json::from_str(text) {
        Ok(v) => Ok(v),
        Err(e) => Err(e.to_string()),
    }
}

} // verus!
