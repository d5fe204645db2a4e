//! The value codec: engine values to neutral values and back, and the JSON
//! text of a neutral value.

use vstd::prelude::*;
use vstd::string::StringExecFns;
use crate::engine::{
    compact_json, engine_array, engine_bool, engine_entries, engine_from_number, engine_from_str,
    engine_map_entries, engine_map_insert, engine_map_new, engine_null, engine_object,
    engine_parts, engine_string, engine_to_string, engine_to_string_indented,
    engine_to_string_pretty, engine_value, engine_values, indented_json, parsed_json, pretty_json,
    text_result, EngineParts,
};
use crate::keyed::{distinct_keys, has_key, upsert};
use crate::value::{views_of, well_formed, JsonValue, JsonView, Object};

verus! {

/// The neutral value that holds what the engine value holds.
pub fn encode(j: &serde_json::Value) -> (v: JsonValue)
    ensures
        v@ == engine_value(*j),
        well_formed(v@),
    decreases engine_value(*j),
{
    match engine_parts(j) {
        EngineParts::Null => JsonValue::Null,
        EngineParts::Bool(b) => JsonValue::Bool(b),
        EngineParts::Number(n) => JsonValue::Number(n.clone()),
        EngineParts::String(s) => JsonValue::String(s.clone()),
        EngineParts::Array(items) => {
            assert(engine_value(*j)->Array_0 == engine_values(items@));
            let values = encode_items(items);
            assert(JsonView::Array(views_of(values@))->Array_0 == views_of(values@));
            JsonValue::Array(values)
        },
        EngineParts::Object(m) => {
            assert(engine_value(*j)->Object_0 == engine_entries(*m));
            let object = encode_entries(m);
            assert(JsonView::Object(object@)->Object_0 == object@);
            JsonValue::Object(object)
        },
    }
}

/// The neutral values of a run of engine values, in their order.
fn encode_items(items: &Vec<serde_json::Value>) -> (values: Vec<JsonValue>)
    ensures
        views_of(values@) == engine_values(items@),
        forall|k: int| 0 <= k < views_of(values@).len() ==> well_formed(#[trigger] views_of(values@)[k]),
    decreases engine_values(items@),
{
    let mut values: Vec<JsonValue> = Vec::new();
    let mut i: usize = 0;
    while i < items.len()
        invariant
            i <= items.len(),
            values@.len() == i,
            forall|k: int|
                0 <= k < i ==> (#[trigger] values@[k])@ == engine_value(items@[k]) && well_formed(
                    values@[k]@,
                ),
        decreases items.len() - i,
    {
        assert(engine_values(items@)[i as int] == engine_value(items@[i as int]));
        values.push(encode(&items[i]));
        i += 1;
    }
    assert(views_of(values@) =~= engine_values(items@));
    values
}

/// The object that holds the entries of an engine map, in the map's order.
fn encode_entries(m: &serde_json::Map<String, serde_json::Value>) -> (object: Object)
    ensures
        object@ == engine_entries(*m),
        distinct_keys(object@),
        forall|k: int| 0 <= k < object@.len() ==> well_formed((#[trigger] object@[k]).1),
    decreases engine_entries(*m),
{
    let entries = engine_map_entries(m);
    let ghost all = engine_entries(*m);
    let mut object = Object::new();
    let mut i: usize = 0;
    assert(object@ =~= all.take(0));
    while i < entries.len()
        invariant
            i <= entries.len(),
            all == engine_entries(*m),
            entries@.len() == all.len(),
            forall|k: int|
                0 <= k < entries@.len() ==> (#[trigger] entries@[k]).0@ == all[k].0
                    && engine_value(*entries@[k].1) == all[k].1,
            forall|a: int, b: int|
                0 <= a < b < entries@.len() ==> (#[trigger] entries@[a]).0@ != (
                #[trigger] entries@[b]).0@,
            object@ == all.take(i as int),
            forall|k: int| 0 <= k < i ==> well_formed((#[trigger] all[k]).1),
        decreases entries.len() - i,
    {
        let key = entries[i].0.clone();
        let value = encode(entries[i].1);
        proof {
            let before = object@;
            assert(!has_key(before, key@)) by {
                if has_key(before, key@) {
                    let k = choose|k: int| 0 <= k < before.len() && (#[trigger] before[k]).0 == key@;
                    assert(entries@[k].0@ == all[k].0);
                    assert(entries@[i as int].0@ == all[i as int].0);
                }
            }
            assert(upsert(before, key@, value@) =~= all.take(i + 1));
        }
        object.insert(key, value);
        i += 1;
    }
    assert(all.take(i as int) =~= all);
    proof {
        use_type_invariant(&object);
    }
    object
}

/// The engine value that holds what the neutral value holds.
pub fn decode(v: &JsonValue) -> (j: serde_json::Value)
    ensures
        engine_value(j) == v@,
    decreases v@,
{
    match v {
        JsonValue::Null => engine_null(),
        JsonValue::Bool(b) => engine_bool(*b),
        JsonValue::Number(n) => engine_from_number(n.clone()),
        JsonValue::String(s) => engine_string(s.clone()),
        JsonValue::Array(items) => {
            assert(v@->Array_0 == views_of(items@));
            engine_array(decode_items(items))
        },
        JsonValue::Object(object) => {
            assert(v@->Object_0 == object@);
            engine_object(decode_entries(object))
        },
    }
}

/// The engine values of a run of neutral values, in their order.
fn decode_items(items: &Vec<JsonValue>) -> (values: Vec<serde_json::Value>)
    ensures
        engine_values(values@) == views_of(items@),
    decreases views_of(items@),
{
    let mut values: Vec<serde_json::Value> = Vec::new();
    let mut i: usize = 0;
    while i < items.len()
        invariant
            i <= items.len(),
            values@.len() == i,
            forall|k: int| 0 <= k < i ==> engine_value(#[trigger] values@[k]) == items@[k]@,
        decreases items.len() - i,
    {
        assert(views_of(items@)[i as int] == items@[i as int]@);
        values.push(decode(&items[i]));
        i += 1;
    }
    assert(engine_values(values@) =~= views_of(items@));
    values
}

/// The engine map that holds the entries of an object, in the object's order.
fn decode_entries(object: &Object) -> (m: serde_json::Map<String, serde_json::Value>)
    ensures
        engine_entries(m) == object@,
    decreases object@,
{
    proof {
        use_type_invariant(object);
    }
    let mut m = engine_map_new();
    let mut i: usize = 0;
    assert(engine_entries(m) =~= object@.take(0));
    while i < object.len()
        invariant
            i <= object@.len(),
            distinct_keys(object@),
            engine_entries(m) == object@.take(i as int),
        decreases object@.len() - i,
    {
        let key = object.key_at(i).clone();
        let value = decode(object.value_at(i));
        proof {
            let before = engine_entries(m);
            assert(!has_key(before, key@)) by {
                if has_key(before, key@) {
                    let k = choose|k: int| 0 <= k < before.len() && (#[trigger] before[k]).0 == key@;
                    assert(object@[k].0 != object@[i as int].0);
                }
            }
            assert(upsert(before, key@, engine_value(value)) =~= object@.take(i + 1));
        }
        engine_map_insert(&mut m, key, value);
        i += 1;
    }
    assert(object@.take(i as int) =~= object@);
    m
}

/// The compact JSON text of a value, or the engine's message where it
/// refuses to serialise. The text of a value is never empty.
pub fn to_json(v: &JsonValue) -> (r: Result<String, String>)
    ensures
        text_result(r) == compact_json(v@),
        r matches Ok(text) ==> text@.len() > 0,
{
    let j = decode(v);
    engine_to_string(&j)
}

/// The compact JSON text of the array of `items`.
pub fn items_to_json(items: &Vec<JsonValue>) -> (r: Result<String, String>)
    ensures
        text_result(r) == compact_json(JsonView::Array(views_of(items@))),
{
    let j = engine_array(decode_items(items));
    engine_to_string(&j)
}

/// The compact JSON text of an object.
pub fn object_to_json(object: &Object) -> (r: Result<String, String>)
    ensures
        text_result(r) == compact_json(JsonView::Object(object@)),
{
    let j = engine_object(decode_entries(object));
    engine_to_string(&j)
}

/// The indented JSON text of a value, or the engine's message where it
/// refuses to serialise.
pub fn to_json_pretty(v: &JsonValue) -> (r: Result<String, String>)
    ensures
        text_result(r) == pretty_json(v@),
{
    let j = decode(v);
    engine_to_string_pretty(&j)
}

/// An indent of `width` spaces.
pub open spec fn spaces(width: nat) -> Seq<u8> {
    Seq::new(width, |i: int| 0x20u8)
}

/// The JSON text of a value with every entry on a line of its own, each
/// line led by `width` spaces for every level that it is nested, or the
/// engine's message where it refuses to serialise.
pub fn to_json_indented(v: &JsonValue, width: usize) -> (r: Result<String, String>)
    ensures
        text_result(r) == indented_json(v@, spaces(width as nat)),
{
    let mut indent: Vec<u8> = Vec::new();
    let mut i: usize = 0;
    while i < width
        invariant
            i <= width,
            indent@ == spaces(i as nat),
        decreases width - i,
    {
        indent.push(0x20u8);
        i += 1;
        assert(indent@ =~= spaces(i as nat));
    }
    let j = decode(v);
    engine_to_string_indented(&j, &indent)
}

/// The value that a JSON text denotes, or the engine's message where the
/// text is not JSON.
pub fn from_json(text: &str) -> (r: Result<JsonValue, String>)
    ensures
        match r {
            Ok(v) => parsed_json(text@) == Ok::<JsonView, Seq<char>>(v@) && well_formed(v@),
            Err(message) => parsed_json(text@) == Err::<JsonView, Seq<char>>(message@),
        },
{
    match engine_from_str(text) {
        Ok(j) => Ok(encode(&j)),
        Err(message) => Err(message),
    }
}

/// What the data of a render is: the engine value that the text denotes,
/// or the message that says why the text is not JSON.
pub open spec fn render_data(text: Seq<char>) -> Result<JsonView, Seq<char>> {
    match parsed_json(text) {
        Ok(value) => Ok(value),
        Err(detail) => Err("invalid JSON: "@ + detail),
    }
}

/// Parses the data that a render is given as JSON text.
pub fn parse_data(text: &str) -> (r: Result<serde_json::Value, String>)
    ensures
        match r {
            Ok(j) => render_data(text@) == Ok::<JsonView, Seq<char>>(engine_value(j)),
            Err(message) => render_data(text@) == Err::<JsonView, Seq<char>>(message@),
        },
{
    match engine_from_str(text) {
        Ok(j) => Ok(j),
        Err(detail) => Err("invalid JSON: ".to_owned().concat(detail.as_str())),
    }
}

/// Encoding and then decoding gives back an engine value that holds what
/// the first one held.
pub proof fn lemma_decode_encode(j: serde_json::Value, v: JsonValue, back: serde_json::Value)
    requires
        v@ == engine_value(j),
        engine_value(back) == v@,
    ensures
        engine_value(back) == engine_value(j),
{
}

/// Decoding and then encoding gives back a neutral value with the same view.
pub proof fn lemma_encode_decode(v: JsonValue, j: serde_json::Value, back: JsonValue)
    requires
        engine_value(j) == v@,
        back@ == engine_value(j),
    ensures
        back@ == v@,
{
}

} // verus!
