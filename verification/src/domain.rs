//! Domains: their shapes on the wire and the calls that manage them.

use crate::client::{post, Call, NjallaClient};
use crate::json::{Json, JsonValue};
use crate::payload::{
    decode_list_at, empty_object, encode_list, field_if, i64_view, json_list, named_text,
    named_text_object, no_params, put_flag_if, put_i64_if, read_list_at, seq_view, some_flag,
    some_int, Payload, ToJson,
};
use vstd::prelude::*;

verus! {

/// A domain of the account.
#[derive(Debug, Clone, PartialEq, Eq)]
pub struct Domain {
    pub name: String,
    pub status: String,
    pub expiry: String,
    pub locked: Option<bool>,
    pub mailforwarding: Option<bool>,
    pub max_nameservers: Option<i64>,
}

/// A domain on offer.
#[derive(Debug, Clone, PartialEq, Eq)]
pub struct MarketDomain {
    pub name: String,
    pub status: String,
    pub price: i64,
}

/// The result of `list-domains`.
#[derive(Debug, PartialEq, Eq)]
pub struct DomainsResponse {
    pub domains: Vec<Domain>,
}

/// The result of `find-domains`.
#[derive(Debug, PartialEq, Eq)]
pub struct MarketDomainsResponse {
    pub domains: Vec<MarketDomain>,
}

/// The result of `register-domain`: the id of the task that registers.
#[derive(Debug, PartialEq, Eq)]
pub struct TaskResponse {
    pub task: String,
}

/// The result of `check-task`.
#[derive(Debug, PartialEq, Eq)]
pub struct TaskStatus {
    pub status: String,
}

/// The model of a [`Domain`]: texts as sequences of characters, numbers as
/// integers.
pub struct DomainView {
    pub name: Seq<char>,
    pub status: Seq<char>,
    pub expiry: Seq<char>,
    pub locked: Option<bool>,
    pub mailforwarding: Option<bool>,
    pub max_nameservers: Option<int>,
}

/// The model of a [`MarketDomain`]: texts as sequences of characters, numbers as
/// integers.
pub struct MarketDomainView {
    pub name: Seq<char>,
    pub status: Seq<char>,
    pub price: int,
}

impl View for Domain {
    type V = DomainView;

    open spec fn view(&self) -> DomainView {
        DomainView {
            name: self.name@,
            status: self.status@,
            expiry: self.expiry@,
            locked: self.locked,
            mailforwarding: self.mailforwarding,
            max_nameservers: i64_view(self.max_nameservers),
        }
    }
}

impl View for MarketDomain {
    type V = MarketDomainView;

    open spec fn view(&self) -> MarketDomainView {
        MarketDomainView { name: self.name@, status: self.status@, price: self.price as int }
    }
}

impl View for DomainsResponse {
    type V = Seq<DomainView>;

    open spec fn view(&self) -> Seq<DomainView> {
        seq_view(self.domains@)
    }
}

impl View for MarketDomainsResponse {
    type V = Seq<MarketDomainView>;

    open spec fn view(&self) -> Seq<MarketDomainView> {
        seq_view(self.domains@)
    }
}

impl View for TaskResponse {
    type V = Seq<char>;

    open spec fn view(&self) -> Seq<char> {
        self.task@
    }
}

impl View for TaskStatus {
    type V = Seq<char>;

    open spec fn view(&self) -> Seq<char> {
        self.status@
    }
}

impl Payload for Domain {
    /// A record of six fields, of which `locked`, `mailforwarding` and
    /// `max_nameservers` may be left out.
    open spec fn read(value: JsonValue) -> Option<DomainView> {
        if value.is_record(6) {
            match (
                value.text_at(0, "name"@),
                value.text_at(1, "status"@),
                value.text_at(2, "expiry"@),
                value.flag_if_at(3, "locked"@),
                value.flag_if_at(4, "mailforwarding"@),
                value.int_if_at(5, "max_nameservers"@, i64::MIN as int, i64::MAX as int),
            ) {
                (
                    Some(name),
                    Some(status),
                    Some(expiry),
                    Some(locked),
                    Some(mailforwarding),
                    Some(max_nameservers),
                ) => Some(
                    DomainView { name, status, expiry, locked, mailforwarding, max_nameservers },
                ),
                _ => None,
            }
        } else {
            None
        }
    }

    fn decode(value: &Json) -> (r: Option<Domain>) {
        if !value.is_record(6) {
            return None;
        }
        match (
            value.text_at(0, "name"),
            value.text_at(1, "status"),
            value.text_at(2, "expiry"),
            value.flag_if_at(3, "locked"),
            value.flag_if_at(4, "mailforwarding"),
            value.i64_if_at(5, "max_nameservers"),
        ) {
            (
                Some(name),
                Some(status),
                Some(expiry),
                Some(locked),
                Some(mailforwarding),
                Some(max_nameservers),
            ) => Some(Domain { name, status, expiry, locked, mailforwarding, max_nameservers }),
            _ => None,
        }
    }
}

impl Payload for MarketDomain {
    /// A record of three fields.
    open spec fn read(value: JsonValue) -> Option<MarketDomainView> {
        if value.is_record(3) {
            match (
                value.text_at(0, "name"@),
                value.text_at(1, "status"@),
                value.int_at(2, "price"@, i64::MIN as int, i64::MAX as int),
            ) {
                (Some(name), Some(status), Some(price)) => Some(
                    MarketDomainView { name, status, price },
                ),
                _ => None,
            }
        } else {
            None
        }
    }

    fn decode(value: &Json) -> (r: Option<MarketDomain>) {
        if !value.is_record(3) {
            return None;
        }
        match (value.text_at(0, "name"), value.text_at(1, "status"), value.i64_at(2, "price")) {
            (Some(name), Some(status), Some(price)) => Some(MarketDomain { name, status, price }),
            _ => None,
        }
    }
}

impl Payload for DomainsResponse {
    /// A record of one field, `domains`, which lists domains.
    open spec fn read(value: JsonValue) -> Option<Seq<DomainView>> {
        if value.is_record(1) {
            read_list_at::<Domain>(value, 0, "domains"@)
        } else {
            None
        }
    }

    fn decode(value: &Json) -> (r: Option<DomainsResponse>) {
        if !value.is_record(1) {
            return None;
        }
        match decode_list_at::<Domain>(value, 0, "domains") {
            Some(domains) => Some(DomainsResponse { domains }),
            None => None,
        }
    }
}

impl Payload for MarketDomainsResponse {
    /// A record of one field, `domains`, which lists domains on offer.
    open spec fn read(value: JsonValue) -> Option<Seq<MarketDomainView>> {
        if value.is_record(1) {
            read_list_at::<MarketDomain>(value, 0, "domains"@)
        } else {
            None
        }
    }

    fn decode(value: &Json) -> (r: Option<MarketDomainsResponse>) {
        if !value.is_record(1) {
            return None;
        }
        match decode_list_at::<MarketDomain>(value, 0, "domains") {
            Some(domains) => Some(MarketDomainsResponse { domains }),
            None => None,
        }
    }
}

impl Payload for TaskResponse {
    /// A record of one field, `task`, which is a text.
    open spec fn read(value: JsonValue) -> Option<Seq<char>> {
        if value.is_record(1) {
            value.text_at(0, "task"@)
        } else {
            None
        }
    }

    fn decode(value: &Json) -> (r: Option<TaskResponse>) {
        if !value.is_record(1) {
            return None;
        }
        match value.text_at(0, "task") {
            Some(task) => Some(TaskResponse { task }),
            None => None,
        }
    }
}

impl Payload for TaskStatus {
    /// A record of one field, `status`, which is a text.
    open spec fn read(value: JsonValue) -> Option<Seq<char>> {
        if value.is_record(1) {
            value.text_at(0, "status"@)
        } else {
            None
        }
    }

    fn decode(value: &Json) -> (r: Option<TaskStatus>) {
        if !value.is_record(1) {
            return None;
        }
        match value.text_at(0, "status") {
            Some(status) => Some(TaskStatus { status }),
            None => None,
        }
    }
}

impl ToJson for Domain {
    /// The fields in the order of their declaration; the three optional
    /// ones only where they are there.
    open spec fn json(domain: DomainView) -> JsonValue {
        JsonValue::Object(
            seq![
                ("name"@, JsonValue::Text(domain.name)),
                ("status"@, JsonValue::Text(domain.status)),
                ("expiry"@, JsonValue::Text(domain.expiry)),
            ] + field_if("locked"@, some_flag(domain.locked)) + field_if(
                "mailforwarding"@,
                some_flag(domain.mailforwarding),
            ) + field_if("max_nameservers"@, some_int(domain.max_nameservers)),
        )
    }

    fn to_json(&self) -> (r: Json) {
        let mut fields: Vec<(String, Json)> = Vec::new();
        Json::put(&mut fields, "name", Json::Text(self.name.clone()));
        Json::put(&mut fields, "status", Json::Text(self.status.clone()));
        Json::put(&mut fields, "expiry", Json::Text(self.expiry.clone()));
        put_flag_if(&mut fields, "locked", self.locked);
        put_flag_if(&mut fields, "mailforwarding", self.mailforwarding);
        put_i64_if(&mut fields, "max_nameservers", self.max_nameservers);
        assert(fields.deep_view() =~= Self::json(self@)->Object_0);
        Json::object(fields)
    }
}

impl ToJson for MarketDomain {
    /// The fields in the order of their declaration.
    open spec fn json(domain: MarketDomainView) -> JsonValue {
        JsonValue::Object(
            seq![
                ("name"@, JsonValue::Text(domain.name)),
                ("status"@, JsonValue::Text(domain.status)),
                ("price"@, JsonValue::Int(domain.price)),
            ],
        )
    }

    fn to_json(&self) -> (r: Json) {
        let mut fields: Vec<(String, Json)> = Vec::new();
        Json::put(&mut fields, "name", Json::Text(self.name.clone()));
        Json::put(&mut fields, "status", Json::Text(self.status.clone()));
        Json::put(&mut fields, "price", Json::Integer(self.price));
        assert(fields.deep_view() =~= Self::json(self@)->Object_0);
        Json::object(fields)
    }
}

impl ToJson for DomainsResponse {
    open spec fn json(domains: Seq<DomainView>) -> JsonValue {
        json_list::<Domain>(domains)
    }

    fn to_json(&self) -> (r: Json) {
        encode_list::<Domain>(&self.domains)
    }
}

impl ToJson for MarketDomainsResponse {
    open spec fn json(domains: Seq<MarketDomainView>) -> JsonValue {
        json_list::<MarketDomain>(domains)
    }

    fn to_json(&self) -> (r: Json) {
        encode_list::<MarketDomain>(&self.domains)
    }
}

/// The parameters of `register-domain`.
pub open spec fn register_domain_params(domain: Seq<char>, years: int) -> JsonValue {
    JsonValue::Object(
        seq![("domain"@, JsonValue::Text(domain)), ("years"@, JsonValue::Int(years))],
    )
}

impl NjallaClient {
    /// Lists the domains of the account.
    pub fn list_domains(&self) -> (r: Call<DomainsResponse>)
        ensures
            r.request@ == post(self.authorization(), "list-domains"@, no_params()),
    {
        self.call::<DomainsResponse>("list-domains", empty_object())
    }

    /// Gets the details of one domain.
    pub fn get_domain(&self, domain: &str) -> (r: Call<Domain>)
        ensures
            r.request@ == post(self.authorization(), "get-domain"@, named_text("domain"@, domain@)),
    {
        self.call::<Domain>("get-domain", named_text_object("domain", domain))
    }

    /// Searches the domains on offer.
    pub fn find_domains(&self, query: &str) -> (r: Call<MarketDomainsResponse>)
        ensures
            r.request@ == post(self.authorization(), "find-domains"@, named_text("query"@, query@)),
    {
        self.call::<MarketDomainsResponse>("find-domains", named_text_object("query", query))
    }

    /// Asks for the status of a task, such as a registration.
    pub fn check_task(&self, id: &str) -> (r: Call<TaskStatus>)
        ensures
            r.request@ == post(self.authorization(), "check-task"@, named_text("id"@, id@)),
    {
        self.call::<TaskStatus>("check-task", named_text_object("id", id))
    }

    /// Registers a domain for a number of years; the result names the task
    /// that does it.
    pub fn register_domain(&self, domain: &str, years: u32) -> (r: Call<TaskResponse>)
        ensures
            r.request@ == post(
                self.authorization(),
                "register-domain"@,
                register_domain_params(domain@, years as int),
            ),
    {
        let mut params: Vec<(String, Json)> = Vec::new();
        Json::put(&mut params, "domain", Json::text_of(domain));
        Json::put(&mut params, "years", Json::Integer(years as i64));
        assert(params.deep_view() =~= register_domain_params(domain@, years as int)->Object_0);
        self.call::<TaskResponse>("register-domain", Json::object(params))
    }
}

} // verus!
