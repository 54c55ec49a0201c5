//! Virtual servers: their shapes on the wire and the calls that manage them.

use crate::client::{post, Call, NjallaClient};
use crate::json::{Json, JsonValue};
use crate::payload::{
    decode_list_at, empty_object, encode_list, encode_texts, json_list, json_texts, named_text,
    named_text_object, no_params, read_list_at, seq_view, Payload, ToJson,
};
use vstd::prelude::*;

verus! {

/// A server of the account.
#[derive(Debug, Clone, PartialEq, Eq)]
pub struct Server {
    pub name: String,
    pub server_type: String,
    pub id: String,
    pub status: String,
    pub os: String,
    pub expiry: String,
    pub autorenew: bool,
    pub ssh_key: String,
    pub ips: Vec<String>,
    pub reverse_name: String,
    pub os_state: String,
}

/// A server that is to be created.
#[derive(Debug, Clone, PartialEq, Eq)]
pub struct NewServer {
    pub name: String,
    pub server_type: String,
    pub os: String,
    pub ssh_key: String,
    pub months: u32,
}

/// The result of `list-servers`.
#[derive(Debug, PartialEq, Eq)]
pub struct ServersResponse {
    pub servers: Vec<Server>,
}

/// The result of `list-server-images`.
#[derive(Debug, PartialEq, Eq)]
pub struct ImagesResponse {
    pub images: Vec<String>,
}

/// The result of `list-server-types`.
#[derive(Debug, PartialEq, Eq)]
pub struct TypesResponse {
    pub types: Vec<String>,
}

/// The model of a [`Server`]: texts as sequences of characters, numbers as
/// integers.
pub struct ServerView {
    pub name: Seq<char>,
    pub server_type: Seq<char>,
    pub id: Seq<char>,
    pub status: Seq<char>,
    pub os: Seq<char>,
    pub expiry: Seq<char>,
    pub autorenew: bool,
    pub ssh_key: Seq<char>,
    pub ips: Seq<Seq<char>>,
    pub reverse_name: Seq<char>,
    pub os_state: Seq<char>,
}

/// The model of a [`NewServer`]: texts as sequences of characters, numbers as
/// integers.
pub struct NewServerView {
    pub name: Seq<char>,
    pub server_type: Seq<char>,
    pub os: Seq<char>,
    pub ssh_key: Seq<char>,
    pub months: int,
}

impl View for Server {
    type V = ServerView;

    open spec fn view(&self) -> ServerView {
        ServerView {
            name: self.name@,
            server_type: self.server_type@,
            id: self.id@,
            status: self.status@,
            os: self.os@,
            expiry: self.expiry@,
            autorenew: self.autorenew,
            ssh_key: self.ssh_key@,
            ips: self.ips.deep_view(),
            reverse_name: self.reverse_name@,
            os_state: self.os_state@,
        }
    }
}

impl View for NewServer {
    type V = NewServerView;

    open spec fn view(&self) -> NewServerView {
        NewServerView {
            name: self.name@,
            server_type: self.server_type@,
            os: self.os@,
            ssh_key: self.ssh_key@,
            months: self.months as int,
        }
    }
}

impl View for ServersResponse {
    type V = Seq<ServerView>;

    open spec fn view(&self) -> Seq<ServerView> {
        seq_view(self.servers@)
    }
}

impl View for ImagesResponse {
    type V = Seq<Seq<char>>;

    open spec fn view(&self) -> Seq<Seq<char>> {
        self.images.deep_view()
    }
}

impl View for TypesResponse {
    type V = Seq<Seq<char>>;

    open spec fn view(&self) -> Seq<Seq<char>> {
        self.types.deep_view()
    }
}

/// The first six fields of a server, which are texts.
pub open spec fn read_server_head(value: JsonValue) -> Option<
    (Seq<char>, Seq<char>, Seq<char>, Seq<char>, Seq<char>, Seq<char>),
> {
    match (
        value.text_at(0, "name"@),
        value.text_at(1, "type"@),
        value.text_at(2, "id"@),
        value.text_at(3, "status"@),
        value.text_at(4, "os"@),
        value.text_at(5, "expiry"@),
    ) {
        (Some(name), Some(server_type), Some(id), Some(status), Some(os), Some(expiry)) => Some(
            (name, server_type, id, status, os, expiry),
        ),
        _ => None,
    }
}

/// The last five fields of a server.
pub open spec fn read_server_tail(value: JsonValue) -> Option<
    (bool, Seq<char>, Seq<Seq<char>>, Seq<char>, Seq<char>),
> {
    match (
        value.flag_at(6, "autorenew"@),
        value.text_at(7, "ssh_key"@),
        value.texts_at(8, "ips"@),
        value.text_at(9, "reverse_name"@),
        value.text_at(10, "os_state"@),
    ) {
        (Some(autorenew), Some(ssh_key), Some(ips), Some(reverse_name), Some(os_state)) => Some(
            (autorenew, ssh_key, ips, reverse_name, os_state),
        ),
        _ => None,
    }
}

impl Payload for Server {
    /// A record of eleven fields, none of which may be left out.
    open spec fn read(value: JsonValue) -> Option<ServerView> {
        if value.is_record(11) {
            match (read_server_head(value), read_server_tail(value)) {
                (Some(head), Some(tail)) => Some(
                    ServerView {
                        name: head.0,
                        server_type: head.1,
                        id: head.2,
                        status: head.3,
                        os: head.4,
                        expiry: head.5,
                        autorenew: tail.0,
                        ssh_key: tail.1,
                        ips: tail.2,
                        reverse_name: tail.3,
                        os_state: tail.4,
                    },
                ),
                _ => None,
            }
        } else {
            None
        }
    }

    fn decode(value: &Json) -> (r: Option<Server>) {
        if !value.is_record(11) {
            return None;
        }
        let head = match (
            value.text_at(0, "name"),
            value.text_at(1, "type"),
            value.text_at(2, "id"),
            value.text_at(3, "status"),
            value.text_at(4, "os"),
            value.text_at(5, "expiry"),
        ) {
            (Some(name), Some(server_type), Some(id), Some(status), Some(os), Some(expiry)) => {
                Some((name, server_type, id, status, os, expiry))
            },
            _ => None,
        };
        let tail = match (
            value.flag_at(6, "autorenew"),
            value.text_at(7, "ssh_key"),
            value.texts_at(8, "ips"),
            value.text_at(9, "reverse_name"),
            value.text_at(10, "os_state"),
        ) {
            (Some(autorenew), Some(ssh_key), Some(ips), Some(reverse_name), Some(os_state)) => {
                Some((autorenew, ssh_key, ips, reverse_name, os_state))
            },
            _ => None,
        };
        match (head, tail) {
            (Some(head), Some(tail)) => Some(
                Server {
                    name: head.0,
                    server_type: head.1,
                    id: head.2,
                    status: head.3,
                    os: head.4,
                    expiry: head.5,
                    autorenew: tail.0,
                    ssh_key: tail.1,
                    ips: tail.2,
                    reverse_name: tail.3,
                    os_state: tail.4,
                },
            ),
            _ => None,
        }
    }
}

impl Payload for ServersResponse {
    /// A record of one field, `servers`, which lists servers.
    open spec fn read(value: JsonValue) -> Option<Seq<ServerView>> {
        if value.is_record(1) {
            read_list_at::<Server>(value, 0, "servers"@)
        } else {
            None
        }
    }

    fn decode(value: &Json) -> (r: Option<ServersResponse>) {
        if !value.is_record(1) {
            return None;
        }
        match decode_list_at::<Server>(value, 0, "servers") {
            Some(servers) => Some(ServersResponse { servers }),
            None => None,
        }
    }
}

impl Payload for ImagesResponse {
    /// A record of one field, `images`, which lists texts.
    open spec fn read(value: JsonValue) -> Option<Seq<Seq<char>>> {
        if value.is_record(1) {
            value.texts_at(0, "images"@)
        } else {
            None
        }
    }

    fn decode(value: &Json) -> (r: Option<ImagesResponse>) {
        if !value.is_record(1) {
            return None;
        }
        match value.texts_at(0, "images") {
            Some(images) => Some(ImagesResponse { images }),
            None => None,
        }
    }
}

impl Payload for TypesResponse {
    /// A record of one field, `types`, which lists texts.
    open spec fn read(value: JsonValue) -> Option<Seq<Seq<char>>> {
        if value.is_record(1) {
            value.texts_at(0, "types"@)
        } else {
            None
        }
    }

    fn decode(value: &Json) -> (r: Option<TypesResponse>) {
        if !value.is_record(1) {
            return None;
        }
        match value.texts_at(0, "types") {
            Some(types) => Some(TypesResponse { types }),
            None => None,
        }
    }
}

impl ToJson for Server {
    /// The fields in the order of their declaration, under their names on
    /// the wire.
    open spec fn json(server: ServerView) -> JsonValue {
        JsonValue::Object(
            seq![
                ("name"@, JsonValue::Text(server.name)),
                ("type"@, JsonValue::Text(server.server_type)),
                ("id"@, JsonValue::Text(server.id)),
                ("status"@, JsonValue::Text(server.status)),
                ("os"@, JsonValue::Text(server.os)),
                ("expiry"@, JsonValue::Text(server.expiry)),
                ("autorenew"@, JsonValue::Bool(server.autorenew)),
                ("ssh_key"@, JsonValue::Text(server.ssh_key)),
                ("ips"@, json_texts(server.ips)),
                ("reverse_name"@, JsonValue::Text(server.reverse_name)),
                ("os_state"@, JsonValue::Text(server.os_state)),
            ],
        )
    }

    fn to_json(&self) -> (r: Json) {
        let mut fields: Vec<(String, Json)> = Vec::new();
        Json::put(&mut fields, "name", Json::Text(self.name.clone()));
        Json::put(&mut fields, "type", Json::Text(self.server_type.clone()));
        Json::put(&mut fields, "id", Json::Text(self.id.clone()));
        Json::put(&mut fields, "status", Json::Text(self.status.clone()));
        Json::put(&mut fields, "os", Json::Text(self.os.clone()));
        Json::put(&mut fields, "expiry", Json::Text(self.expiry.clone()));
        Json::put(&mut fields, "autorenew", Json::Bool(self.autorenew));
        Json::put(&mut fields, "ssh_key", Json::Text(self.ssh_key.clone()));
        Json::put(&mut fields, "ips", encode_texts(&self.ips));
        Json::put(&mut fields, "reverse_name", Json::Text(self.reverse_name.clone()));
        Json::put(&mut fields, "os_state", Json::Text(self.os_state.clone()));
        assert(fields.deep_view() =~= Self::json(self@)->Object_0);
        Json::object(fields)
    }
}

impl ToJson for ServersResponse {
    open spec fn json(servers: Seq<ServerView>) -> JsonValue {
        json_list::<Server>(servers)
    }

    fn to_json(&self) -> (r: Json) {
        encode_list::<Server>(&self.servers)
    }
}

impl ToJson for ImagesResponse {
    open spec fn json(images: Seq<Seq<char>>) -> JsonValue {
        json_texts(images)
    }

    fn to_json(&self) -> (r: Json) {
        encode_texts(&self.images)
    }
}

impl ToJson for TypesResponse {
    open spec fn json(types: Seq<Seq<char>>) -> JsonValue {
        json_texts(types)
    }

    fn to_json(&self) -> (r: Json) {
        encode_texts(&self.types)
    }
}

/// The parameters of `add-server`: the new server's fields, by name in
/// ascending order.
pub open spec fn add_server_params(server: NewServerView) -> JsonValue {
    JsonValue::Object(
        seq![
            ("months"@, JsonValue::Int(server.months)),
            ("name"@, JsonValue::Text(server.name)),
            ("os"@, JsonValue::Text(server.os)),
            ("ssh_key"@, JsonValue::Text(server.ssh_key)),
            ("type"@, JsonValue::Text(server.server_type)),
        ],
    )
}

/// The parameters of `reset-server`.
pub open spec fn reset_server_params(
    id: Seq<char>,
    os: Seq<char>,
    ssh_key: Seq<char>,
    server_type: Seq<char>,
) -> JsonValue {
    JsonValue::Object(
        seq![
            ("id"@, JsonValue::Text(id)),
            ("os"@, JsonValue::Text(os)),
            ("ssh_key"@, JsonValue::Text(ssh_key)),
            ("type"@, JsonValue::Text(server_type)),
        ],
    )
}

impl NjallaClient {
    /// Lists the servers of the account.
    pub fn list_servers(&self) -> (r: Call<ServersResponse>)
        ensures
            r.request@ == post(self.authorization(), "list-servers"@, no_params()),
    {
        self.call::<ServersResponse>("list-servers", empty_object())
    }

    /// Lists the OS images that a server can be created from.
    pub fn list_server_images(&self) -> (r: Call<ImagesResponse>)
        ensures
            r.request@ == post(self.authorization(), "list-server-images"@, no_params()),
    {
        self.call::<ImagesResponse>("list-server-images", empty_object())
    }

    /// Lists the types of server on offer.
    pub fn list_server_types(&self) -> (r: Call<TypesResponse>)
        ensures
            r.request@ == post(self.authorization(), "list-server-types"@, no_params()),
    {
        self.call::<TypesResponse>("list-server-types", empty_object())
    }

    /// Creates a server; the result is the server as created.
    pub fn add_server(&self, server: &NewServer) -> (r: Call<Server>)
        ensures
            r.request@ == post(self.authorization(), "add-server"@, add_server_params(server@)),
    {
        let mut params: Vec<(String, Json)> = Vec::new();
        Json::put(&mut params, "months", Json::Integer(server.months as i64));
        Json::put(&mut params, "name", Json::Text(server.name.clone()));
        Json::put(&mut params, "os", Json::Text(server.os.clone()));
        Json::put(&mut params, "ssh_key", Json::Text(server.ssh_key.clone()));
        Json::put(&mut params, "type", Json::Text(server.server_type.clone()));
        assert(params.deep_view() =~= add_server_params(server@)->Object_0);
        self.call::<Server>("add-server", Json::object(params))
    }

    /// Stops a running server; its data stays.
    pub fn stop_server(&self, id: &str) -> (r: Call<Server>)
        ensures
            r.request@ == post(self.authorization(), "stop-server"@, named_text("id"@, id@)),
    {
        self.call::<Server>("stop-server", named_text_object("id", id))
    }

    /// Starts a stopped server.
    pub fn start_server(&self, id: &str) -> (r: Call<Server>)
        ensures
            r.request@ == post(self.authorization(), "start-server"@, named_text("id"@, id@)),
    {
        self.call::<Server>("start-server", named_text_object("id", id))
    }

    /// Restarts a server.
    pub fn restart_server(&self, id: &str) -> (r: Call<Server>)
        ensures
            r.request@ == post(self.authorization(), "restart-server"@, named_text("id"@, id@)),
    {
        self.call::<Server>("restart-server", named_text_object("id", id))
    }

    /// Resets a server to a fresh image with new settings. The server's data
    /// is lost.
    pub fn reset_server(&self, id: &str, os: &str, ssh_key: &str, server_type: &str) -> (r: Call<
        Server,
    >)
        ensures
            r.request@ == post(
                self.authorization(),
                "reset-server"@,
                reset_server_params(id@, os@, ssh_key@, server_type@),
            ),
    {
        let mut params: Vec<(String, Json)> = Vec::new();
        Json::put(&mut params, "id", Json::text_of(id));
        Json::put(&mut params, "os", Json::text_of(os));
        Json::put(&mut params, "ssh_key", Json::text_of(ssh_key));
        Json::put(&mut params, "type", Json::text_of(server_type));
        assert(params.deep_view() =~= reset_server_params(
            id@,
            os@,
            ssh_key@,
            server_type@,
        )->Object_0);
        self.call::<Server>("reset-server", Json::object(params))
    }

    /// Removes a server. The server's data is lost.
    pub fn remove_server(&self, id: &str) -> (r: Call<Server>)
        ensures
            r.request@ == post(self.authorization(), "remove-server"@, named_text("id"@, id@)),
    {
        self.call::<Server>("remove-server", named_text_object("id", id))
    }
}

} // verus!
