//! DNS records: their shapes on the wire, the calls that manage them, and
//! the rule by which an edit of some fields becomes a whole record.

use crate::client::{post, Call, NjallaClient};
use crate::json::{Json, JsonValue};
use crate::payload::{
    decode_list_at, encode_list, field_if, json_list, named_text, named_text_object, put_text_if,
    put_u32_if, read_list_at, seq_view, some_int, some_text, text_view, u32_view, Payload, ToJson,
};
use vstd::prelude::*;

verus! {

/// A DNS record as the server reports it.
#[derive(Debug, Clone, PartialEq, Eq)]
pub struct Record {
    pub id: Option<String>,
    pub name: String,
    pub record_type: String,
    pub content: String,
    pub ttl: u32,
    pub priority: Option<u32>,
}

/// A DNS record that is to be created.
#[derive(Debug, Clone, PartialEq, Eq)]
pub struct NewRecord {
    pub name: String,
    pub record_type: String,
    pub content: String,
    pub ttl: u32,
    pub priority: Option<u32>,
}

/// The fields of a record that an edit supplies; the others stay.
#[derive(Debug, PartialEq, Eq)]
pub struct RecordChanges {
    pub name: Option<String>,
    pub record_type: Option<String>,
    pub content: Option<String>,
    pub ttl: Option<u32>,
    pub priority: Option<u32>,
}

/// The result of `list-records`.
#[derive(Debug, PartialEq, Eq)]
pub struct RecordsResponse {
    pub records: Vec<Record>,
}

/// The model of a [`Record`]: texts as sequences of characters, numbers as
/// integers.
pub struct RecordView {
    pub id: Option<Seq<char>>,
    pub name: Seq<char>,
    pub record_type: Seq<char>,
    pub content: Seq<char>,
    pub ttl: int,
    pub priority: Option<int>,
}

/// The model of a [`NewRecord`]: texts as sequences of characters, numbers as
/// integers.
pub struct NewRecordView {
    pub name: Seq<char>,
    pub record_type: Seq<char>,
    pub content: Seq<char>,
    pub ttl: int,
    pub priority: Option<int>,
}

/// The model of a [`RecordChanges`]: texts as sequences of characters, numbers as
/// integers.
pub struct RecordChangesView {
    pub name: Option<Seq<char>>,
    pub record_type: Option<Seq<char>>,
    pub content: Option<Seq<char>>,
    pub ttl: Option<int>,
    pub priority: Option<int>,
}

impl View for Record {
    type V = RecordView;

    open spec fn view(&self) -> RecordView {
        RecordView {
            id: text_view(self.id),
            name: self.name@,
            record_type: self.record_type@,
            content: self.content@,
            ttl: self.ttl as int,
            priority: u32_view(self.priority),
        }
    }
}

impl View for NewRecord {
    type V = NewRecordView;

    open spec fn view(&self) -> NewRecordView {
        NewRecordView {
            name: self.name@,
            record_type: self.record_type@,
            content: self.content@,
            ttl: self.ttl as int,
            priority: u32_view(self.priority),
        }
    }
}

impl View for RecordChanges {
    type V = RecordChangesView;

    open spec fn view(&self) -> RecordChangesView {
        RecordChangesView {
            name: text_view(self.name),
            record_type: text_view(self.record_type),
            content: text_view(self.content),
            ttl: u32_view(self.ttl),
            priority: u32_view(self.priority),
        }
    }
}

impl View for RecordsResponse {
    type V = Seq<RecordView>;

    open spec fn view(&self) -> Seq<RecordView> {
        seq_view(self.records@)
    }
}

impl Payload for Record {
    /// A record of six fields: `id` and `prio` may be left out, `ttl` and
    /// `prio` are integers that fit 32 bits without sign.
    open spec fn read(value: JsonValue) -> Option<RecordView> {
        if value.is_record(6) {
            match (
                value.text_if_at(0, "id"@),
                value.text_at(1, "name"@),
                value.text_at(2, "type"@),
                value.text_at(3, "content"@),
                value.int_at(4, "ttl"@, 0, u32::MAX as int),
                value.int_if_at(5, "prio"@, 0, u32::MAX as int),
            ) {
                (
                    Some(id),
                    Some(name),
                    Some(record_type),
                    Some(content),
                    Some(ttl),
                    Some(priority),
                ) => Some(RecordView { id, name, record_type, content, ttl, priority }),
                _ => None,
            }
        } else {
            None
        }
    }

    fn decode(value: &Json) -> (r: Option<Record>) {
        if !value.is_record(6) {
            return None;
        }
        match (
            value.text_if_at(0, "id"),
            value.text_at(1, "name"),
            value.text_at(2, "type"),
            value.text_at(3, "content"),
            value.u32_at(4, "ttl"),
            value.u32_if_at(5, "prio"),
        ) {
            (Some(id), Some(name), Some(record_type), Some(content), Some(ttl), Some(priority)) => {
                Some(Record { id, name, record_type, content, ttl, priority })
            },
            _ => None,
        }
    }
}

impl Payload for RecordsResponse {
    /// A record of one field, `records`, which lists records.
    open spec fn read(value: JsonValue) -> Option<Seq<RecordView>> {
        if value.is_record(1) {
            read_list_at::<Record>(value, 0, "records"@)
        } else {
            None
        }
    }

    fn decode(value: &Json) -> (r: Option<RecordsResponse>) {
        if !value.is_record(1) {
            return None;
        }
        match decode_list_at::<Record>(value, 0, "records") {
            Some(records) => Some(RecordsResponse { records }),
            None => None,
        }
    }
}

impl ToJson for Record {
    /// The fields in the order of their declaration, under their names on
    /// the wire; `id` and `prio` only where they are there.
    open spec fn json(record: RecordView) -> JsonValue {
        JsonValue::Object(
            field_if("id"@, some_text(record.id)) + seq![
                ("name"@, JsonValue::Text(record.name)),
                ("type"@, JsonValue::Text(record.record_type)),
                ("content"@, JsonValue::Text(record.content)),
                ("ttl"@, JsonValue::Int(record.ttl)),
            ] + field_if("prio"@, some_int(record.priority)),
        )
    }

    fn to_json(&self) -> (r: Json) {
        let mut fields: Vec<(String, Json)> = Vec::new();
        put_text_if(&mut fields, "id", &self.id);
        Json::put(&mut fields, "name", Json::Text(self.name.clone()));
        Json::put(&mut fields, "type", Json::Text(self.record_type.clone()));
        Json::put(&mut fields, "content", Json::Text(self.content.clone()));
        Json::put(&mut fields, "ttl", Json::Integer(self.ttl as i64));
        put_u32_if(&mut fields, "prio", self.priority);
        assert(fields.deep_view() =~= Self::json(self@)->Object_0);
        Json::object(fields)
    }
}

impl ToJson for RecordsResponse {
    open spec fn json(records: Seq<RecordView>) -> JsonValue {
        json_list::<Record>(records)
    }

    fn to_json(&self) -> (r: Json) {
        encode_list::<Record>(&self.records)
    }
}

/// The parameters of `add-record`: the new record's fields and the domain,
/// by name in ascending order; `prio` only where it is there.
pub open spec fn add_record_params(domain: Seq<char>, record: NewRecordView) -> JsonValue {
    JsonValue::Object(
        seq![
            ("content"@, JsonValue::Text(record.content)),
            ("domain"@, JsonValue::Text(domain)),
            ("name"@, JsonValue::Text(record.name)),
        ] + field_if("prio"@, some_int(record.priority)) + seq![
            ("ttl"@, JsonValue::Int(record.ttl)),
            ("type"@, JsonValue::Text(record.record_type)),
        ],
    )
}

/// The parameters of `edit-record`: every field of the record and the
/// domain, by name in ascending order; `id` and `prio` only where they are
/// there.
pub open spec fn edit_record_params(domain: Seq<char>, record: RecordView) -> JsonValue {
    JsonValue::Object(
        seq![
            ("content"@, JsonValue::Text(record.content)),
            ("domain"@, JsonValue::Text(domain)),
        ] + field_if("id"@, some_text(record.id)) + seq![("name"@, JsonValue::Text(record.name))]
            + field_if("prio"@, some_int(record.priority)) + seq![
            ("ttl"@, JsonValue::Int(record.ttl)),
            ("type"@, JsonValue::Text(record.record_type)),
        ],
    )
}

/// The parameters of `remove-record`.
pub open spec fn remove_record_params(domain: Seq<char>, id: Seq<char>) -> JsonValue {
    JsonValue::Object(seq![("domain"@, JsonValue::Text(domain)), ("id"@, JsonValue::Text(id))])
}

/// The first of `records` whose id is `id`.
pub open spec fn first_with_id(records: Seq<RecordView>, id: Seq<char>) -> Option<RecordView>
    decreases records.len(),
{
    if records.len() == 0 {
        None
    } else if records[0].id == Some(id) {
        Some(records[0])
    } else {
        first_with_id(records.drop_first(), id)
    }
}

/// What `first_with_id` finds is the record at the least index whose id is
/// `id`; it finds none exactly where no record has that id.
pub proof fn lemma_first_with_id(records: Seq<RecordView>, id: Seq<char>)
    ensures
        match first_with_id(records, id) {
            Some(found) => exists|i: int|
                0 <= i < records.len() && records[i] == found && found.id == Some(id) && forall|
                    j: int,
                | 0 <= j < i ==> (#[trigger] records[j]).id != Some(id),
            None => forall|i: int|
                0 <= i < records.len() ==> (#[trigger] records[i]).id != Some(id),
        },
    decreases records.len(),
{
    if records.len() == 0 {
    } else if records[0].id == Some(id) {
        assert(records[0] == first_with_id(records, id).unwrap());
    } else {
        let rest = records.drop_first();
        lemma_first_with_id(rest, id);
        match first_with_id(rest, id) {
            Some(found) => {
                let i = choose|i: int|
                    0 <= i < rest.len() && rest[i] == found && found.id == Some(id) && forall|
                        j: int,
                    | 0 <= j < i ==> (#[trigger] rest[j]).id != Some(id);
                assert(records[i + 1] == found);
                assert forall|j: int| 0 <= j < i + 1 implies (#[trigger] records[j]).id != Some(
                    id,
                ) by {
                    if j > 0 {
                        assert(rest[j - 1] == records[j]);
                    }
                }
            },
            None => {
                assert forall|i: int| 0 <= i < records.len() implies (#[trigger] records[i]).id
                    != Some(id) by {
                    if i > 0 {
                        assert(rest[i - 1] == records[i]);
                    }
                }
            },
        }
    }
}

/// An edit that supplies only the content keeps the name, the type, the
/// ttl and the priority of the existing record, and sends the new content
/// under the id asked for.
pub proof fn lemma_edit_of_content_keeps_the_rest(
    existing: RecordView,
    id: Seq<char>,
    content: Seq<char>,
)
    ensures
        existing.patched(
            id,
            RecordChangesView {
                name: None,
                record_type: None,
                content: Some(content),
                ttl: None,
                priority: None,
            },
        ) == (RecordView {
            id: Some(id),
            name: existing.name,
            record_type: existing.record_type,
            content,
            ttl: existing.ttl,
            priority: existing.priority,
        }),
{
}

/// An edit changes exactly the fields that it supplies.
pub proof fn lemma_edit_changes_what_is_supplied(
    existing: RecordView,
    id: Seq<char>,
    changes: RecordChangesView,
)
    ensures
        existing.patched(id, changes).id == Some(id),
        changes.name is None ==> existing.patched(id, changes).name == existing.name,
        changes.record_type is None ==> existing.patched(id, changes).record_type
            == existing.record_type,
        changes.content is None ==> existing.patched(id, changes).content == existing.content,
        changes.ttl is None ==> existing.patched(id, changes).ttl == existing.ttl,
        changes.priority is None ==> existing.patched(id, changes).priority == existing.priority,
        changes.name matches Some(name) ==> existing.patched(id, changes).name == name,
        changes.record_type matches Some(record_type) ==> existing.patched(id, changes).record_type
            == record_type,
        changes.content matches Some(content) ==> existing.patched(id, changes).content == content,
        changes.ttl matches Some(ttl) ==> existing.patched(id, changes).ttl == ttl,
        changes.priority matches Some(priority) ==> existing.patched(id, changes).priority == Some(
            priority,
        ),
{
}

impl RecordView {
    /// The whole record that an edit sends: it carries the id asked for,
    /// each supplied field, and the existing value of every other field.
    pub open spec fn patched(self, id: Seq<char>, changes: RecordChangesView) -> RecordView {
        RecordView {
            id: Some(id),
            name: match changes.name {
                Some(name) => name,
                None => self.name,
            },
            record_type: match changes.record_type {
                Some(record_type) => record_type,
                None => self.record_type,
            },
            content: match changes.content {
                Some(content) => content,
                None => self.content,
            },
            ttl: match changes.ttl {
                Some(ttl) => ttl,
                None => self.ttl,
            },
            priority: match changes.priority {
                Some(priority) => Some(priority),
                None => self.priority,
            },
        }
    }
}

impl Record {
    /// The record to send for an edit of this one.
    pub fn patched(&self, id: String, changes: RecordChanges) -> (r: Record)
        ensures
            r@ == self@.patched(id@, changes@),
    {
        Record {
            id: Some(id),
            name: match changes.name {
                Some(name) => name,
                None => self.name.clone(),
            },
            record_type: match changes.record_type {
                Some(record_type) => record_type,
                None => self.record_type.clone(),
            },
            content: match changes.content {
                Some(content) => content,
                None => self.content.clone(),
            },
            ttl: match changes.ttl {
                Some(ttl) => ttl,
                None => self.ttl,
            },
            priority: match changes.priority {
                Some(priority) => Some(priority),
                None => self.priority,
            },
        }
    }
}

/// Finds the first of `records` whose id is `id`.
pub fn find_record<'a>(records: &'a Vec<Record>, id: &str) -> (r: Option<&'a Record>)
    ensures
        match r {
            Some(found) => first_with_id(seq_view(records@), id@) == Some(found@),
            None => first_with_id(seq_view(records@), id@) is None,
        },
        match r {
            Some(found) => exists|i: int|
                0 <= i < records.len() && records[i] == *found && found@.id == Some(id@) && forall|
                    j: int,
                | 0 <= j < i ==> (#[trigger] records[j])@.id != Some(id@),
            None => forall|i: int|
                0 <= i < records.len() ==> (#[trigger] records[i])@.id != Some(id@),
        },
{
    let ghost all = seq_view(records@);
    let wanted = id.to_owned();
    let mut i: usize = 0;
    assert(all.skip(0) =~= all);
    while i < records.len()
        invariant
            i <= records.len(),
            all == seq_view(records@),
            wanted@ == id@,
            first_with_id(all, id@) == first_with_id(all.skip(i as int), id@),
            forall|j: int| 0 <= j < i ==> (#[trigger] records[j])@.id != Some(id@),
        decreases records.len() - i,
    {
        assert(all.skip(i as int).drop_first() =~= all.skip(i + 1));
        assert(all.skip(i as int)[0] == records@[i as int]@);
        let hit = match &records[i].id {
            Some(own) => *own == wanted,
            None => false,
        };
        if hit {
            return Some(&records[i]);
        }
        i += 1;
    }
    None
}

impl NjallaClient {
    /// Lists the DNS records of a domain.
    pub fn list_records(&self, domain: &str) -> (r: Call<RecordsResponse>)
        ensures
            r.request@ == post(
                self.authorization(),
                "list-records"@,
                named_text("domain"@, domain@),
            ),
    {
        self.call::<RecordsResponse>("list-records", named_text_object("domain", domain))
    }

    /// Adds a DNS record to a domain; the result is the record as created,
    /// with its id.
    pub fn add_record(&self, domain: &str, record: &NewRecord) -> (r: Call<Record>)
        ensures
            r.request@ == post(
                self.authorization(),
                "add-record"@,
                add_record_params(domain@, record@),
            ),
    {
        let mut params: Vec<(String, Json)> = Vec::new();
        Json::put(&mut params, "content", Json::Text(record.content.clone()));
        Json::put(&mut params, "domain", Json::text_of(domain));
        Json::put(&mut params, "name", Json::Text(record.name.clone()));
        put_u32_if(&mut params, "prio", record.priority);
        Json::put(&mut params, "ttl", Json::Integer(record.ttl as i64));
        Json::put(&mut params, "type", Json::Text(record.record_type.clone()));
        assert(params.deep_view() =~= add_record_params(domain@, record@)->Object_0);
        self.call::<Record>("add-record", Json::object(params))
    }

    /// Edits a DNS record. Every field is sent: the server takes no partial
    /// update.
    pub fn edit_record(&self, domain: &str, record: &Record) -> (r: Call<()>)
        ensures
            r.request@ == post(
                self.authorization(),
                "edit-record"@,
                edit_record_params(domain@, record@),
            ),
    {
        let mut params: Vec<(String, Json)> = Vec::new();
        Json::put(&mut params, "content", Json::Text(record.content.clone()));
        Json::put(&mut params, "domain", Json::text_of(domain));
        put_text_if(&mut params, "id", &record.id);
        Json::put(&mut params, "name", Json::Text(record.name.clone()));
        put_u32_if(&mut params, "prio", record.priority);
        Json::put(&mut params, "ttl", Json::Integer(record.ttl as i64));
        Json::put(&mut params, "type", Json::Text(record.record_type.clone()));
        assert(params.deep_view() =~= edit_record_params(domain@, record@)->Object_0);
        self.call_void("edit-record", Json::object(params))
    }

    /// Removes the DNS record `id` from a domain.
    pub fn remove_record(&self, domain: &str, id: &str) -> (r: Call<()>)
        ensures
            r.request@ == post(
                self.authorization(),
                "remove-record"@,
                remove_record_params(domain@, id@),
            ),
    {
        let mut params: Vec<(String, Json)> = Vec::new();
        Json::put(&mut params, "domain", Json::text_of(domain));
        Json::put(&mut params, "id", Json::text_of(id));
        assert(params.deep_view() =~= remove_record_params(domain@, id@)->Object_0);
        self.call_void("remove-record", Json::object(params))
    }
}

} // verus!
