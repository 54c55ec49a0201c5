//! What can be read from a JSON value, and what can be written as one.

use crate::json::{lemma_list_view, Json, JsonValue};
use vstd::prelude::*;

verus! {

/// A type that a JSON value can be read as, such as the type of the
/// `result` of a response.
pub trait Payload: View + Sized {
    /// What `value` holds, read as this type; `None` where it has another
    /// shape.
    spec fn read(value: JsonValue) -> Option<Self::V>;

    /// Reads `value` as this type.
    fn decode(value: &Json) -> (r: Option<Self>)
        ensures
            match r {
                Some(read) => Self::read(value@) == Some(read@),
                None => Self::read(value@) is None,
            },
    ;
}

/// A type whose values are shown as JSON.
pub trait ToJson: View {
    /// The JSON value that stands for `value`.
    spec fn json(value: Self::V) -> JsonValue;

    /// The JSON value that stands for this value.
    fn to_json(&self) -> (r: Json)
        ensures
            r@ == Self::json(self@),
    ;
}

/// For a call whose result the caller does not look at: any result will do.
impl Payload for () {
    open spec fn read(value: JsonValue) -> Option<()> {
        Some(())
    }

    fn decode(value: &Json) -> (r: Option<()>) {
        Some(())
    }
}

/// The text of an optional string.
pub open spec fn text_view(value: Option<String>) -> Option<Seq<char>> {
    match value {
        Some(s) => Some(s@),
        None => None,
    }
}

/// The number of an optional `u32`.
pub open spec fn u32_view(value: Option<u32>) -> Option<int> {
    match value {
        Some(i) => Some(i as int),
        None => None,
    }
}

/// The number of an optional `i64`.
pub open spec fn i64_view(value: Option<i64>) -> Option<int> {
    match value {
        Some(i) => Some(i as int),
        None => None,
    }
}

/// An optional text as an optional JSON value.
pub open spec fn some_text(value: Option<Seq<char>>) -> Option<JsonValue> {
    match value {
        Some(s) => Some(JsonValue::Text(s)),
        None => None,
    }
}

/// An optional integer as an optional JSON value.
pub open spec fn some_int(value: Option<int>) -> Option<JsonValue> {
    match value {
        Some(i) => Some(JsonValue::Int(i)),
        None => None,
    }
}

/// An optional flag as an optional JSON value.
pub open spec fn some_flag(value: Option<bool>) -> Option<JsonValue> {
    match value {
        Some(b) => Some(JsonValue::Bool(b)),
        None => None,
    }
}

/// The views of the items, in their order.
pub open spec fn seq_view<T: View>(items: Seq<T>) -> Seq<T::V> {
    Seq::new(items.len(), |i: int| items[i]@)
}

/// A list all of whose items can be read as `T`, read item by item.
pub open spec fn read_list<T: Payload>(value: JsonValue) -> Option<Seq<T::V>> {
    match value {
        JsonValue::List(items) => if forall|i: int|
            0 <= i < items.len() ==> (#[trigger] T::read(items[i])) is Some {
            Some(Seq::new(items.len(), |i: int| T::read(items[i]).unwrap()))
        } else {
            None
        },
        _ => None,
    }
}

/// The list in a field that must be there, read item by item.
pub open spec fn read_list_at<T: Payload>(value: JsonValue, index: nat, key: Seq<char>) -> Option<
    Seq<T::V>,
> {
    match value.slot(index, key) {
        Some(list) => read_list::<T>(list),
        None => None,
    }
}

/// The list that holds the JSON value of each item, in their order.
pub open spec fn json_list<T: ToJson>(items: Seq<T::V>) -> JsonValue {
    JsonValue::List(Seq::new(items.len(), |i: int| T::json(items[i])))
}

/// The list that holds each text, in their order.
pub open spec fn json_texts(texts: Seq<Seq<char>>) -> JsonValue {
    JsonValue::List(Seq::new(texts.len(), |i: int| JsonValue::Text(texts[i])))
}

/// Reads a list item by item.
pub fn decode_list<T: Payload>(value: &Json) -> (r: Option<Vec<T>>)
    ensures
        match r {
            Some(items) => read_list::<T>(value@) == Some(seq_view(items@)),
            None => read_list::<T>(value@) is None,
        },
{
    match value {
        Json::List(sources) => {
            let ghost list = value@->List_0;
            proof {
                lemma_list_view(*sources);
            }
            let mut items: Vec<T> = Vec::new();
            let mut i: usize = 0;
            while i < sources.len()
                invariant
                    i <= sources.len(),
                    items.len() == i,
                    value@ == JsonValue::List(list),
                    list.len() == sources.len(),
                    forall|k: int| 0 <= k < list.len() ==> list[k] == (#[trigger] sources@[k])@,
                    forall|k: int| 0 <= k < i ==> (#[trigger] T::read(list[k])) is Some,
                    forall|k: int|
                        0 <= k < i ==> (#[trigger] items@[k])@ == T::read(list[k]).unwrap(),
                decreases sources.len() - i,
            {
                match T::decode(&sources[i]) {
                    Some(item) => {
                        items.push(item);
                    },
                    None => {
                        assert(T::read(list[i as int]) is None);
                        return None;
                    },
                }
                i += 1;
            }
            assert(seq_view(items@) =~= Seq::new(list.len(), |k: int| T::read(list[k]).unwrap()));
            Some(items)
        },
        _ => None,
    }
}

/// Reads the list in a field that must be there.
pub fn decode_list_at<T: Payload>(value: &Json, index: usize, key: &str) -> (r: Option<Vec<T>>)
    ensures
        match r {
            Some(items) => read_list_at::<T>(value@, index as nat, key@) == Some(seq_view(items@)),
            None => read_list_at::<T>(value@, index as nat, key@) is None,
        },
{
    match value.slot(index, key) {
        Some(list) => decode_list::<T>(list),
        None => None,
    }
}

/// Writes a list item by item.
pub fn encode_list<T: ToJson>(items: &Vec<T>) -> (r: Json)
    ensures
        r@ == json_list::<T>(seq_view(items@)),
{
    let mut values: Vec<Json> = Vec::new();
    let mut i: usize = 0;
    while i < items.len()
        invariant
            i <= items.len(),
            values.len() == i,
            forall|k: int| 0 <= k < i ==> (#[trigger] values@[k])@ == T::json(items@[k]@),
        decreases items.len() - i,
    {
        values.push(items[i].to_json());
        i += 1;
    }
    assert(values.deep_view() =~= json_list::<T>(seq_view(items@))->List_0);
    Json::list(values)
}

/// Writes a list of texts.
pub fn encode_texts(texts: &Vec<String>) -> (r: Json)
    ensures
        r@ == json_texts(texts.deep_view()),
{
    let mut values: Vec<Json> = Vec::new();
    let mut i: usize = 0;
    while i < texts.len()
        invariant
            i <= texts.len(),
            values.len() == i,
            forall|k: int| 0 <= k < i ==> (#[trigger] values@[k])@ == JsonValue::Text(texts@[k]@),
        decreases texts.len() - i,
    {
        values.push(Json::Text(texts[i].clone()));
        i += 1;
    }
    assert(values.deep_view() =~= json_texts(texts.deep_view())->List_0);
    Json::list(values)
}

/// The object whose one field, `key`, holds a text.
pub open spec fn named_text(key: Seq<char>, text: Seq<char>) -> JsonValue {
    JsonValue::Object(seq![(key, JsonValue::Text(text))])
}

/// The object without fields.
pub open spec fn no_params() -> JsonValue {
    JsonValue::Object(Seq::empty())
}

/// Makes the object whose one field, `key`, holds a text.
pub fn named_text_object(key: &str, text: &str) -> (r: Json)
    ensures
        r@ == named_text(key@, text@),
{
    let mut fields: Vec<(String, Json)> = Vec::new();
    Json::put(&mut fields, key, Json::text_of(text));
    assert(fields.deep_view() =~= named_text(key@, text@)->Object_0);
    Json::object(fields)
}

/// Makes the object without fields.
pub fn empty_object() -> (r: Json)
    ensures
        r@ == no_params(),
{
    let fields: Vec<(String, Json)> = Vec::new();
    assert(fields.deep_view() =~= Seq::empty());
    Json::object(fields)
}

/// The fields that an optional value adds to an object: one if it is there,
/// none if it is not.
pub open spec fn field_if(key: Seq<char>, value: Option<JsonValue>) -> Seq<(Seq<char>, JsonValue)> {
    match value {
        Some(value) => seq![(key, value)],
        None => Seq::empty(),
    }
}

/// Adds the text field `key` at the end of `fields` if there is a text.
pub fn put_text_if(fields: &mut Vec<(String, Json)>, key: &str, value: &Option<String>)
    ensures
        final(fields).deep_view() == old(fields).deep_view() + field_if(
            key@,
            some_text(text_view(*value)),
        ),
{
    match value {
        Some(s) => put_if(fields, key, Some(Json::Text(s.clone()))),
        None => put_if(fields, key, None),
    }
}

/// Adds the number field `key` at the end of `fields` if there is a `u32`.
pub fn put_u32_if(fields: &mut Vec<(String, Json)>, key: &str, value: Option<u32>)
    ensures
        final(fields).deep_view() == old(fields).deep_view() + field_if(
            key@,
            some_int(u32_view(value)),
        ),
{
    match value {
        Some(i) => put_if(fields, key, Some(Json::Integer(i as i64))),
        None => put_if(fields, key, None),
    }
}

/// Adds the number field `key` at the end of `fields` if there is an `i64`.
pub fn put_i64_if(fields: &mut Vec<(String, Json)>, key: &str, value: Option<i64>)
    ensures
        final(fields).deep_view() == old(fields).deep_view() + field_if(
            key@,
            some_int(i64_view(value)),
        ),
{
    match value {
        Some(i) => put_if(fields, key, Some(Json::Integer(i))),
        None => put_if(fields, key, None),
    }
}

/// Adds the flag field `key` at the end of `fields` if there is a flag.
pub fn put_flag_if(fields: &mut Vec<(String, Json)>, key: &str, value: Option<bool>)
    ensures
        final(fields).deep_view() == old(fields).deep_view() + field_if(key@, some_flag(value)),
{
    match value {
        Some(b) => put_if(fields, key, Some(Json::Bool(b))),
        None => put_if(fields, key, None),
    }
}

/// Adds the field `key` at the end of `fields` if there is a value for it.
pub fn put_if(fields: &mut Vec<(String, Json)>, key: &str, value: Option<Json>)
    ensures
        final(fields).deep_view() == old(fields).deep_view() + field_if(
            key@,
            match value {
                Some(v) => Some(v@),
                None => None,
            },
        ),
{
    match value {
        Some(v) => {
            Json::put(fields, key, v);
            assert(fields.deep_view() =~= old(fields).deep_view() + seq![(key@, v@)]);
        },
        None => {
            assert(fields.deep_view() =~= old(fields).deep_view() + Seq::empty());
        },
    }
}

} // verus!
