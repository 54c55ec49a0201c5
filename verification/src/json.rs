//! JSON values as plain data.
//!
//! Reading and writing JSON text is left to `serde_json`; everything the
//! library decides about a value it decides on the [`Json`] tree defined here,
//! whose mathematical model is [`JsonValue`].

use vstd::prelude::*;

verus! {

/// `serde_json::Value`, which passes between `serde_json` and the two
/// functions that rebuild it; nothing is known of what it holds.
#[verifier::external_type_specification]
#[verifier::external_body]
pub struct ExValue(serde_json::Value);

/// A number that is not an integer between `i64::MIN` and `u64::MAX`, kept as
/// the decimal text that `serde_json` prints for it. Only parsing makes one.
#[derive(Debug, PartialEq, Eq)]
pub struct Decimal {
    text: String,
}

impl View for Decimal {
    type V = Seq<char>;

    closed spec fn view(&self) -> Seq<char> {
        self.text@
    }
}

/// A JSON value. The fields of an object keep their order; where a name
/// occurs twice the later field counts.
#[derive(Debug, PartialEq, Eq)]
pub enum Json {
    Null,
    Bool(bool),
    Integer(i64),
    Unsigned(u64),
    Real(Decimal),
    Text(String),
    List(Vec<Json>),
    Object(Vec<(String, Json)>),
}

/// The mathematical model of a [`Json`] value. `Integer` and `Unsigned` both
/// stand for an `Int`.
pub enum JsonValue {
    Null,
    Bool(bool),
    Int(int),
    Real(Seq<char>),
    Text(Seq<char>),
    List(Seq<JsonValue>),
    Object(Seq<(Seq<char>, JsonValue)>),
}

/// The model of a value: that of each item and field, in their order.
pub open spec fn model(json: Json) -> JsonValue
    decreases json,
{
    match json {
        Json::Null => JsonValue::Null,
        Json::Bool(b) => JsonValue::Bool(b),
        Json::Integer(i) => JsonValue::Int(i as int),
        Json::Unsigned(u) => JsonValue::Int(u as int),
        Json::Real(d) => JsonValue::Real(d@),
        Json::Text(s) => JsonValue::Text(s@),
        Json::List(items) => JsonValue::List(
            Seq::new(
                items@.len(),
                |i: int|
                    if 0 <= i < items@.len() {
                        model(items@[i])
                    } else {
                        JsonValue::Null
                    },
            ),
        ),
        Json::Object(fields) => JsonValue::Object(
            Seq::new(
                fields@.len(),
                |i: int|
                    if 0 <= i < fields@.len() {
                        (fields@[i].0@, model(fields@[i].1))
                    } else {
                        (Seq::<char>::empty(), JsonValue::Null)
                    },
            ),
        ),
    }
}

impl View for Json {
    type V = JsonValue;

    open spec fn view(&self) -> JsonValue {
        model(*self)
    }
}

impl DeepView for Json {
    type V = JsonValue;

    open spec fn deep_view(&self) -> JsonValue {
        model(*self)
    }
}

/// A result with both sides taken by their views.
pub open spec fn views<T: View, E: View>(r: Result<T, E>) -> Result<T::V, E::V> {
    match r {
        Ok(value) => Ok(value@),
        Err(error) => Err(error@),
    }
}

/// A list's model holds the models of its items, in their order.
pub proof fn lemma_list_view(items: Vec<Json>)
    ensures
        Json::List(items)@ == JsonValue::List(items.deep_view()),
        Json::List(items)@ is List,
        Json::List(items)@->List_0.len() == items@.len(),
        forall|k: int|
            0 <= k < items@.len() ==> (#[trigger] Json::List(items)@->List_0[k]) == items@[k]@,
{
    assert(Json::List(items)@->List_0 =~= items.deep_view());
}

/// An object's model holds its fields, each as its name's text and its
/// value's model, in their order.
pub proof fn lemma_object_view(fields: Vec<(String, Json)>)
    ensures
        Json::Object(fields)@ == JsonValue::Object(fields.deep_view()),
        Json::Object(fields)@ is Object,
        Json::Object(fields)@->Object_0.len() == fields@.len(),
        forall|k: int|
            0 <= k < fields@.len() ==> (#[trigger] Json::Object(fields)@->Object_0[k]) == (
                fields@[k].0@,
                fields@[k].1@,
            ),
{
    assert(Json::Object(fields)@->Object_0 =~= fields.deep_view());
}

/// The value of the last field named `key`, if there is one.
pub open spec fn lookup(fields: Seq<(Seq<char>, JsonValue)>, key: Seq<char>) -> Option<JsonValue>
    decreases fields.len(),
{
    if fields.len() == 0 {
        None
    } else if fields.last().0 == key {
        Some(fields.last().1)
    } else {
        lookup(fields.drop_last(), key)
    }
}

impl JsonValue {
    /// The member `key` of an object; nothing of any other value.
    pub open spec fn member(self, key: Seq<char>) -> Option<JsonValue> {
        match self {
            JsonValue::Object(fields) => lookup(fields, key),
            _ => None,
        }
    }

    /// Whether a record of `width` fields can be read from this value: from
    /// any object by field names, or from a list of exactly `width` items by
    /// position.
    pub open spec fn is_record(self, width: nat) -> bool {
        match self {
            JsonValue::Object(_) => true,
            JsonValue::List(items) => items.len() == width,
            _ => false,
        }
    }

    /// The field of a record that is named `key` in an object and stands at
    /// `index` in a list.
    pub open spec fn slot(self, index: nat, key: Seq<char>) -> Option<JsonValue> {
        match self {
            JsonValue::Object(fields) => lookup(fields, key),
            JsonValue::List(items) => if index < items.len() {
                Some(items[index as int])
            } else {
                None
            },
            _ => None,
        }
    }

    /// The text that this value is, if it is one.
    pub open spec fn as_text(self) -> Option<Seq<char>> {
        match self {
            JsonValue::Text(s) => Some(s),
            _ => None,
        }
    }

    /// The flag that this value is, if it is one.
    pub open spec fn as_flag(self) -> Option<bool> {
        match self {
            JsonValue::Bool(b) => Some(b),
            _ => None,
        }
    }

    /// The integer that this value is, if it is one between `low` and `high`.
    pub open spec fn as_int(self, low: int, high: int) -> Option<int> {
        match self {
            JsonValue::Int(i) => if low <= i <= high {
                Some(i)
            } else {
                None
            },
            _ => None,
        }
    }

    /// Whether a field is left out: it is missing, or it is `null`.
    pub open spec fn left_out(slot: Option<JsonValue>) -> bool {
        slot is None || slot == Some(JsonValue::Null)
    }

    /// The text in a field that must be there.
    pub open spec fn text_at(self, index: nat, key: Seq<char>) -> Option<Seq<char>> {
        match self.slot(index, key) {
            Some(value) => value.as_text(),
            None => None,
        }
    }

    /// The flag in a field that must be there.
    pub open spec fn flag_at(self, index: nat, key: Seq<char>) -> Option<bool> {
        match self.slot(index, key) {
            Some(value) => value.as_flag(),
            None => None,
        }
    }

    /// The integer between `low` and `high` in a field that must be there.
    pub open spec fn int_at(self, index: nat, key: Seq<char>, low: int, high: int) -> Option<int> {
        match self.slot(index, key) {
            Some(value) => value.as_int(low, high),
            None => None,
        }
    }

    /// The list of texts in a field that must be there.
    pub open spec fn texts_at(self, index: nat, key: Seq<char>) -> Option<Seq<Seq<char>>> {
        match self.slot(index, key) {
            Some(value) => value.as_texts(),
            None => None,
        }
    }

    /// The text in a field that may be left out. The outer `None` says that
    /// the field holds something else.
    pub open spec fn text_if_at(self, index: nat, key: Seq<char>) -> Option<Option<Seq<char>>> {
        if Self::left_out(self.slot(index, key)) {
            Some(None)
        } else {
            match self.text_at(index, key) {
                Some(text) => Some(Some(text)),
                None => None,
            }
        }
    }

    /// The flag in a field that may be left out. The outer `None` says that
    /// the field holds something else.
    pub open spec fn flag_if_at(self, index: nat, key: Seq<char>) -> Option<Option<bool>> {
        if Self::left_out(self.slot(index, key)) {
            Some(None)
        } else {
            match self.flag_at(index, key) {
                Some(flag) => Some(Some(flag)),
                None => None,
            }
        }
    }

    /// The integer between `low` and `high` in a field that may be left out.
    /// The outer `None` says that the field holds something else.
    pub open spec fn int_if_at(self, index: nat, key: Seq<char>, low: int, high: int) -> Option<
        Option<int>,
    > {
        if Self::left_out(self.slot(index, key)) {
            Some(None)
        } else {
            match self.int_at(index, key, low, high) {
                Some(i) => Some(Some(i)),
                None => None,
            }
        }
    }

    /// The texts of a list all of whose items are texts.
    pub open spec fn as_texts(self) -> Option<Seq<Seq<char>>> {
        match self {
            JsonValue::List(items) => if forall|i: int|
                0 <= i < items.len() ==> (#[trigger] items[i]) is Text {
                Some(Seq::new(items.len(), |i: int| items[i]->Text_0))
            } else {
                None
            },
            _ => None,
        }
    }
}

/// What `serde_json::from_slice` makes of `bytes`: the value that the text
/// denotes, or the message of the error with which it is refused.
pub uninterp spec fn json_parse(bytes: Seq<u8>) -> Result<JsonValue, Seq<char>>;

/// The text that `serde_json::to_string` writes for `value`.
pub uninterp spec fn json_text(value: JsonValue) -> Seq<char>;

/// The text that `serde_json::to_string_pretty` writes for `value`.
pub uninterp spec fn json_pretty(value: JsonValue) -> Seq<char>;

/// Rebuilds a `serde_json::Value` as a [`Json`] tree, variant by variant.
/// A number becomes an `Integer` where it fits `i64`, else an `Unsigned`
/// where it fits `u64`, else a `Real` with the text that `serde_json` prints.
#[verifier::external_body]
fn lift(value: serde_json::Value) -> Json {
    match value {
        serde_json::Value::Null => Json::Null,
        serde_json::Value::Bool(b) => Json::Bool(b),
        serde_json::Value::Number(n) => match (n.as_i64(), n.as_u64()) {
            (Some(i), _) => Json::Integer(i),
            (None, Some(u)) => Json::Unsigned(u),
            (None, None) => Json::Real(Decimal { text: n.to_string() }),
        },
        serde_json::Value::String(s) => Json::Text(s),
        serde_json::Value::Array(a) => Json::List(a.into_iter().map(lift).collect()),
        serde_json::Value::Object(m) => Json::Object(
            m.into_iter().map(|(k, v)| (k, lift(v))).collect(),
        ),
    }
}

/// Rebuilds a [`Json`] tree as a `serde_json::Value`, variant by variant. A
/// `Real` is read back from its text. The fields of an object enter the map
/// in their order, so that of two fields with one name the later stays.
#[verifier::external_body]
fn lower(json: &Json) -> serde_json::Value {
    match json {
        Json::Null => serde_json::Value::Null,
        Json::Bool(b) => serde_json::Value::Bool(*b),
        Json::Integer(i) => serde_json::Value::from(*i),
        Json::Unsigned(u) => serde_json::Value::from(*u),
        Json::Real(d) => serde_json::from_str(&d.text).unwrap_or_default(),
        Json::Text(s) => serde_json::Value::String(s.clone()),
        Json::List(items) => serde_json::Value::Array(items.iter().map(lower).collect()),
        Json::Object(fields) => serde_json::Value::Object(
            fields.iter().map(|(k, v)| (k.clone(), lower(v))).collect(),
        ),
    }
}

/// `serde_json::from_slice`, read as a `serde_json::Value`. The result is a
/// function of the bytes alone: the value, or the error's message.
#[verifier::external_body]
fn from_slice(bytes: &[u8]) -> (r: Result<Json, String>)
    ensures
        match r {
            Ok(json) => json_parse(bytes@) == Ok::<JsonValue, Seq<char>>(json@),
            Err(message) => json_parse(bytes@) == Err::<JsonValue, Seq<char>>(message@),
        },
{
    match serde_json::from_slice::<serde_json::Value>(bytes) {
        Ok(value) => Ok(lift(value)),
        Err(error) => Err(error.to_string()),
    }
}

/// `serde_json::to_string` on the value: compact JSON text, a function of the
/// value alone.
#[verifier::external_body]
fn to_string(json: &Json) -> (r: String)
    ensures
        r@ == json_text(json@),
{
    serde_json::to_string(&lower(json)).unwrap_or_default()
}

/// `serde_json::to_string_pretty` on the value: indented JSON text, a
/// function of the value alone.
#[verifier::external_body]
fn to_string_pretty(json: &Json) -> (r: String)
    ensures
        r@ == json_pretty(json@),
{
    serde_json::to_string_pretty(&lower(json)).unwrap_or_default()
}

impl Json {
    /// Reads JSON text.
    pub fn parse(bytes: &[u8]) -> (r: Result<Json, String>)
        ensures
            match r {
                Ok(json) => json_parse(bytes@) == Ok::<JsonValue, Seq<char>>(json@),
                Err(message) => json_parse(bytes@) == Err::<JsonValue, Seq<char>>(message@),
            },
    {
        from_slice(bytes)
    }

    /// The value as compact JSON text.
    pub fn text(&self) -> (r: String)
        ensures
            r@ == json_text(self@),
    {
        to_string(self)
    }

    /// The value as indented JSON text.
    pub fn pretty(&self) -> (r: String)
        ensures
            r@ == json_pretty(self@),
    {
        to_string_pretty(self)
    }

    /// The object with the given fields, in their order.
    pub fn object(fields: Vec<(String, Json)>) -> (r: Json)
        ensures
            r@ == JsonValue::Object(fields.deep_view()),
    {
        proof {
            lemma_object_view(fields);
        }
        Json::Object(fields)
    }

    /// The list of the given items, in their order.
    pub fn list(items: Vec<Json>) -> (r: Json)
        ensures
            r@ == JsonValue::List(items.deep_view()),
    {
        proof {
            lemma_list_view(items);
        }
        Json::List(items)
    }

    /// The text `s` as a value.
    pub fn text_of(s: &str) -> (r: Json)
        ensures
            r@ == JsonValue::Text(s@),
    {
        Json::Text(s.to_owned())
    }

    /// Adds the field `key` with `value` at the end of `fields`.
    pub fn put(fields: &mut Vec<(String, Json)>, key: &str, value: Json)
        ensures
            final(fields).deep_view() == old(fields).deep_view().push((key@, value@)),
    {
        fields.push((key.to_owned(), value));
        assert(fields.deep_view() =~= old(fields).deep_view().push((key@, value@)));
    }

    /// The member `key` of an object.
    pub fn get(&self, key: &str) -> (r: Option<&Json>)
        ensures
            match r {
                Some(found) => self@.member(key@) == Some(found@),
                None => self@.member(key@) is None,
            },
    {
        match self {
            Json::Object(fields) => find(fields, key),
            _ => None,
        }
    }

    /// Whether a record of `width` fields can be read from this value.
    pub fn is_record(&self, width: usize) -> (r: bool)
        ensures
            r == self@.is_record(width as nat),
    {
        match self {
            Json::Object(_) => true,
            Json::List(items) => items.len() == width,
            _ => false,
        }
    }

    /// The field of a record that is named `key` in an object and stands at
    /// `index` in a list.
    pub fn slot(&self, index: usize, key: &str) -> (r: Option<&Json>)
        ensures
            match r {
                Some(found) => self@.slot(index as nat, key@) == Some(found@),
                None => self@.slot(index as nat, key@) is None,
            },
    {
        match self {
            Json::Object(fields) => find(fields, key),
            Json::List(items) => if index < items.len() {
                Some(&items[index])
            } else {
                None
            },
            _ => None,
        }
    }

    /// The text that this value is, if it is one.
    pub fn as_text(&self) -> (r: Option<&String>)
        ensures
            match r {
                Some(s) => self@.as_text() == Some(s@),
                None => self@.as_text() is None,
            },
    {
        match self {
            Json::Text(s) => Some(s),
            _ => None,
        }
    }

    /// The flag that this value is, if it is one.
    pub fn as_flag(&self) -> (r: Option<bool>)
        ensures
            r == self@.as_flag(),
    {
        match self {
            Json::Bool(b) => Some(*b),
            _ => None,
        }
    }

    /// The number as an `i64`, if it is an integer that fits one.
    pub fn as_i64(&self) -> (r: Option<i64>)
        ensures
            match r {
                Some(i) => self@.as_int(i64::MIN as int, i64::MAX as int) == Some(i as int),
                None => self@.as_int(i64::MIN as int, i64::MAX as int) is None,
            },
    {
        match self {
            Json::Integer(i) => Some(*i),
            Json::Unsigned(u) => if *u <= 0x7fff_ffff_ffff_ffff {
                Some(*u as i64)
            } else {
                None
            },
            _ => None,
        }
    }

    /// The number as a `u32`, if it is an integer that fits one.
    pub fn as_u32(&self) -> (r: Option<u32>)
        ensures
            match r {
                Some(i) => self@.as_int(0, u32::MAX as int) == Some(i as int),
                None => self@.as_int(0, u32::MAX as int) is None,
            },
    {
        match self {
            Json::Integer(i) => if 0 <= *i && *i <= 0xffff_ffff {
                Some(*i as u32)
            } else {
                None
            },
            Json::Unsigned(u) => if *u <= 0xffff_ffff {
                Some(*u as u32)
            } else {
                None
            },
            _ => None,
        }
    }

    /// The text in a field that must be there.
    pub fn text_at(&self, index: usize, key: &str) -> (r: Option<String>)
        ensures
            match r {
                Some(s) => self@.text_at(index as nat, key@) == Some(s@),
                None => self@.text_at(index as nat, key@) is None,
            },
    {
        match self.slot(index, key) {
            Some(value) => match value.as_text() {
                Some(s) => Some(s.clone()),
                None => None,
            },
            None => None,
        }
    }

    /// The flag in a field that must be there.
    pub fn flag_at(&self, index: usize, key: &str) -> (r: Option<bool>)
        ensures
            r == self@.flag_at(index as nat, key@),
    {
        match self.slot(index, key) {
            Some(value) => value.as_flag(),
            None => None,
        }
    }

    /// The `i64` in a field that must be there.
    pub fn i64_at(&self, index: usize, key: &str) -> (r: Option<i64>)
        ensures
            match r {
                Some(i) => self@.int_at(index as nat, key@, i64::MIN as int, i64::MAX as int)
                    == Some(i as int),
                None => self@.int_at(index as nat, key@, i64::MIN as int, i64::MAX as int) is None,
            },
    {
        match self.slot(index, key) {
            Some(value) => value.as_i64(),
            None => None,
        }
    }

    /// The `u32` in a field that must be there.
    pub fn u32_at(&self, index: usize, key: &str) -> (r: Option<u32>)
        ensures
            match r {
                Some(i) => self@.int_at(index as nat, key@, 0, u32::MAX as int) == Some(i as int),
                None => self@.int_at(index as nat, key@, 0, u32::MAX as int) is None,
            },
    {
        match self.slot(index, key) {
            Some(value) => value.as_u32(),
            None => None,
        }
    }

    /// The list of texts in a field that must be there.
    pub fn texts_at(&self, index: usize, key: &str) -> (r: Option<Vec<String>>)
        ensures
            match r {
                Some(texts) => self@.texts_at(index as nat, key@) == Some(texts.deep_view()),
                None => self@.texts_at(index as nat, key@) is None,
            },
    {
        match self.slot(index, key) {
            Some(value) => value.as_texts(),
            None => None,
        }
    }

    /// Whether the field is missing or `null`.
    pub fn left_out_at(&self, index: usize, key: &str) -> (r: bool)
        ensures
            r == JsonValue::left_out(self@.slot(index as nat, key@)),
    {
        match self.slot(index, key) {
            Some(Json::Null) => true,
            Some(_) => false,
            None => true,
        }
    }

    /// The text in a field that may be left out.
    pub fn text_if_at(&self, index: usize, key: &str) -> (r: Option<Option<String>>)
        ensures
            match r {
                Some(Some(s)) => self@.text_if_at(index as nat, key@) == Some(Some(s@)),
                Some(None) => self@.text_if_at(index as nat, key@) == Some(None::<Seq<char>>),
                None => self@.text_if_at(index as nat, key@) is None,
            },
    {
        if self.left_out_at(index, key) {
            Some(None)
        } else {
            match self.text_at(index, key) {
                Some(s) => Some(Some(s)),
                None => None,
            }
        }
    }

    /// The flag in a field that may be left out.
    pub fn flag_if_at(&self, index: usize, key: &str) -> (r: Option<Option<bool>>)
        ensures
            r == self@.flag_if_at(index as nat, key@),
    {
        if self.left_out_at(index, key) {
            Some(None)
        } else {
            match self.flag_at(index, key) {
                Some(flag) => Some(Some(flag)),
                None => None,
            }
        }
    }

    /// The `i64` in a field that may be left out.
    pub fn i64_if_at(&self, index: usize, key: &str) -> (r: Option<Option<i64>>)
        ensures
            match r {
                Some(Some(i)) => self@.int_if_at(
                    index as nat,
                    key@,
                    i64::MIN as int,
                    i64::MAX as int,
                ) == Some(Some(i as int)),
                Some(None) => self@.int_if_at(index as nat, key@, i64::MIN as int, i64::MAX as int)
                    == Some(None::<int>),
                None => self@.int_if_at(index as nat, key@, i64::MIN as int, i64::MAX as int)
                    is None,
            },
    {
        if self.left_out_at(index, key) {
            Some(None)
        } else {
            match self.i64_at(index, key) {
                Some(i) => Some(Some(i)),
                None => None,
            }
        }
    }

    /// The `u32` in a field that may be left out.
    pub fn u32_if_at(&self, index: usize, key: &str) -> (r: Option<Option<u32>>)
        ensures
            match r {
                Some(Some(i)) => self@.int_if_at(index as nat, key@, 0, u32::MAX as int) == Some(
                    Some(i as int),
                ),
                Some(None) => self@.int_if_at(index as nat, key@, 0, u32::MAX as int) == Some(
                    None::<int>,
                ),
                None => self@.int_if_at(index as nat, key@, 0, u32::MAX as int) is None,
            },
    {
        if self.left_out_at(index, key) {
            Some(None)
        } else {
            match self.u32_at(index, key) {
                Some(i) => Some(Some(i)),
                None => None,
            }
        }
    }

    /// The texts of a list all of whose items are texts.
    pub fn as_texts(&self) -> (r: Option<Vec<String>>)
        ensures
            match r {
                Some(texts) => self@.as_texts() == Some(texts.deep_view()),
                None => self@.as_texts() is None,
            },
    {
        match self {
            Json::List(items) => {
                let ghost list = self@->List_0;
                proof {
                    lemma_list_view(*items);
                }
                let mut texts: Vec<String> = Vec::new();
                let mut i: usize = 0;
                while i < items.len()
                    invariant
                        i <= items.len(),
                        texts.len() == i,
                        self@ == JsonValue::List(list),
                        list.len() == items.len(),
                        forall|k: int| 0 <= k < list.len() ==> list[k] == (#[trigger] items@[k])@,
                        forall|k: int| 0 <= k < i ==> (#[trigger] list[k]) is Text,
                        forall|k: int| 0 <= k < i ==> (#[trigger] texts@[k])@ == list[k]->Text_0,
                    decreases items.len() - i,
                {
                    match &items[i] {
                        Json::Text(s) => {
                            texts.push(s.clone());
                        },
                        _ => {
                            assert(!(list[i as int] is Text));
                            return None;
                        },
                    }
                    i += 1;
                }
                assert(texts.deep_view() =~= Seq::new(list.len(), |k: int| list[k]->Text_0));
                Some(texts)
            },
            _ => None,
        }
    }
}

/// The value of the last of `fields` that is named `key`.
fn find<'a>(fields: &'a Vec<(String, Json)>, key: &str) -> (r: Option<&'a Json>)
    ensures
        match r {
            Some(found) => lookup(Json::Object(*fields)@->Object_0, key@) == Some(found@),
            None => lookup(Json::Object(*fields)@->Object_0, key@) is None,
        },
{
    let ghost all = Json::Object(*fields)@->Object_0;
    let wanted = key.to_owned();
    let mut i: usize = fields.len();
    proof {
        lemma_object_view(*fields);
        assert(all.take(i as int) =~= all);
    }
    while i > 0
        invariant
            i <= fields.len(),
            all == Json::Object(*fields)@->Object_0,
            all.len() == fields.len(),
            forall|k: int|
                0 <= k < all.len() ==> all[k] == ((#[trigger] fields@[k]).0@, fields@[k].1@),
            wanted@ == key@,
            lookup(all, key@) == lookup(all.take(i as int), key@),
        decreases i,
    {
        i -= 1;
        assert(all.take(i + 1).drop_last() =~= all.take(i as int));
        assert(all.take(i + 1).last() == all[i as int]);
        if fields[i].0 == wanted {
            return Some(&fields[i].1);
        }
    }
    None
}

} // verus!
