//! The command-line front end, without the terminal and without the
//! network: which request a command starts with, and what follows each
//! reply. Whoever drives it sends each request of a [`Step::Send`], prints
//! the lines of a [`Step::Print`], and reports the error of a
//! [`Step::Fail`].

use crate::client::{
    finish, finished, is_error_status, post, NjallaClient, Reply, ReplyView, Request, RequestView,
    ENDPOINT,
};
use crate::domain::{
    register_domain_params, Domain, DomainsResponse, MarketDomainsResponse, TaskResponse,
    TaskStatus,
};
use crate::error::{Error, ErrorView, HttpErrorView};
use crate::json::json_pretty;
use crate::payload::{named_text, no_params, seq_view, Payload, ToJson};
use crate::record::{
    add_record_params, edit_record_params, find_record, first_with_id, lemma_first_with_id,
    remove_record_params, NewRecord, NewRecordView, Record, RecordChanges, RecordChangesView,
    RecordView, RecordsResponse,
};
use crate::server::{
    add_server_params, reset_server_params, ImagesResponse, NewServer, NewServerView, Server,
    ServersResponse, TypesResponse,
};
use vstd::prelude::*;

verus! {

/// The domain operations.
#[derive(Debug, PartialEq, Eq)]
pub enum DomainCmd {
    List,
    Get { domain: String },
    Find { query: String },
    Register { domain: String, years: u32 },
    CheckTask { id: String },
}

/// The DNS record operations.
#[derive(Debug, PartialEq, Eq)]
pub enum RecordCmd {
    List { domain: String },
    Add { domain: String, record: NewRecord },
    Edit { domain: String, id: String, changes: RecordChanges },
    Remove { domain: String, id: String },
}

/// The server operations.
#[derive(Debug, PartialEq, Eq)]
pub enum ServerCmd {
    List,
    Images,
    Types,
    Add { server: NewServer },
    Stop { id: String },
    Start { id: String },
    Restart { id: String },
    Reset { id: String, os: String, ssh_key: String, server_type: String },
    Remove { id: String },
}

/// A command of one of the three groups.
#[derive(Debug, PartialEq, Eq)]
pub enum Cmd {
    Domain(DomainCmd),
    Record(RecordCmd),
    Server(ServerCmd),
}

/// The model of a [`DomainCmd`].
pub enum DomainCmdView {
    List,
    Get { domain: Seq<char> },
    Find { query: Seq<char> },
    Register { domain: Seq<char>, years: int },
    CheckTask { id: Seq<char> },
}

/// The model of a [`RecordCmd`].
pub enum RecordCmdView {
    List { domain: Seq<char> },
    Add { domain: Seq<char>, record: NewRecordView },
    Edit { domain: Seq<char>, id: Seq<char>, changes: RecordChangesView },
    Remove { domain: Seq<char>, id: Seq<char> },
}

/// The model of a [`ServerCmd`].
pub enum ServerCmdView {
    List,
    Images,
    Types,
    Add { server: NewServerView },
    Stop { id: Seq<char> },
    Start { id: Seq<char> },
    Restart { id: Seq<char> },
    Reset { id: Seq<char>, os: Seq<char>, ssh_key: Seq<char>, server_type: Seq<char> },
    Remove { id: Seq<char> },
}

/// The model of a [`Cmd`].
pub enum CmdView {
    Domain(DomainCmdView),
    Record(RecordCmdView),
    Server(ServerCmdView),
}

impl View for DomainCmd {
    type V = DomainCmdView;

    open spec fn view(&self) -> DomainCmdView {
        match self {
            DomainCmd::List => DomainCmdView::List,
            DomainCmd::Get { domain } => DomainCmdView::Get { domain: domain@ },
            DomainCmd::Find { query } => DomainCmdView::Find { query: query@ },
            DomainCmd::Register { domain, years } => DomainCmdView::Register {
                domain: domain@,
                years: *years as int,
            },
            DomainCmd::CheckTask { id } => DomainCmdView::CheckTask { id: id@ },
        }
    }
}

impl View for RecordCmd {
    type V = RecordCmdView;

    open spec fn view(&self) -> RecordCmdView {
        match self {
            RecordCmd::List { domain } => RecordCmdView::List { domain: domain@ },
            RecordCmd::Add { domain, record } => RecordCmdView::Add {
                domain: domain@,
                record: record@,
            },
            RecordCmd::Edit { domain, id, changes } => RecordCmdView::Edit {
                domain: domain@,
                id: id@,
                changes: changes@,
            },
            RecordCmd::Remove { domain, id } => RecordCmdView::Remove { domain: domain@, id: id@ },
        }
    }
}

impl View for ServerCmd {
    type V = ServerCmdView;

    open spec fn view(&self) -> ServerCmdView {
        match self {
            ServerCmd::List => ServerCmdView::List,
            ServerCmd::Images => ServerCmdView::Images,
            ServerCmd::Types => ServerCmdView::Types,
            ServerCmd::Add { server } => ServerCmdView::Add { server: server@ },
            ServerCmd::Stop { id } => ServerCmdView::Stop { id: id@ },
            ServerCmd::Start { id } => ServerCmdView::Start { id: id@ },
            ServerCmd::Restart { id } => ServerCmdView::Restart { id: id@ },
            ServerCmd::Reset { id, os, ssh_key, server_type } => ServerCmdView::Reset {
                id: id@,
                os: os@,
                ssh_key: ssh_key@,
                server_type: server_type@,
            },
            ServerCmd::Remove { id } => ServerCmdView::Remove { id: id@ },
        }
    }
}

impl View for Cmd {
    type V = CmdView;

    open spec fn view(&self) -> CmdView {
        match self {
            Cmd::Domain(cmd) => CmdView::Domain(cmd@),
            Cmd::Record(cmd) => CmdView::Record(cmd@),
            Cmd::Server(cmd) => CmdView::Server(cmd@),
        }
    }
}

/// What a command is waiting for once a request of it is on its way.
#[derive(Debug, PartialEq, Eq)]
pub enum Pending {
    /// The domains of the account, to be shown.
    Domains,
    /// One domain, to be shown.
    Domain,
    /// Domains on offer, to be shown.
    MarketDomains,
    /// The task that registers a domain.
    Registration,
    /// The status of a task.
    TaskStatus,
    /// The records of a domain, to be shown.
    Records,
    /// One record, to be shown.
    Record,
    /// The records of `domain`, among which the one to edit is looked up.
    EditLookup { domain: String, id: String, changes: RecordChanges },
    /// The confirmation of an edit.
    EditSent,
    /// The confirmation that record `id` is removed.
    Removal { id: String },
    /// The servers of the account, to be shown.
    Servers,
    /// The OS images, to be shown.
    Images,
    /// The server types, to be shown.
    Types,
    /// One server, to be shown.
    Server,
}

/// The model of a [`Pending`]: texts as sequences of characters, numbers as
/// integers.
pub enum PendingView {
    Domains,
    Domain,
    MarketDomains,
    Registration,
    TaskStatus,
    Records,
    Record,
    EditLookup { domain: Seq<char>, id: Seq<char>, changes: RecordChangesView },
    EditSent,
    Removal { id: Seq<char> },
    Servers,
    Images,
    Types,
    Server,
}

impl View for Pending {
    type V = PendingView;

    open spec fn view(&self) -> PendingView {
        match self {
            Pending::Domains => PendingView::Domains,
            Pending::Domain => PendingView::Domain,
            Pending::MarketDomains => PendingView::MarketDomains,
            Pending::Registration => PendingView::Registration,
            Pending::TaskStatus => PendingView::TaskStatus,
            Pending::Records => PendingView::Records,
            Pending::Record => PendingView::Record,
            Pending::EditLookup { domain, id, changes } => PendingView::EditLookup {
                domain: domain@,
                id: id@,
                changes: changes@,
            },
            Pending::EditSent => PendingView::EditSent,
            Pending::Removal { id } => PendingView::Removal { id: id@ },
            Pending::Servers => PendingView::Servers,
            Pending::Images => PendingView::Images,
            Pending::Types => PendingView::Types,
            Pending::Server => PendingView::Server,
        }
    }
}

/// What to do next for a command.
#[derive(Debug, PartialEq, Eq)]
pub enum Step {
    /// Send the request, then resume with the reply to it.
    Send { request: Request, then: Pending },
    /// The command succeeded: print these lines.
    Print(Vec<String>),
    /// The command failed.
    Fail(Error),
}

/// The model of a [`Step`]: texts as sequences of characters, numbers as
/// integers.
pub enum StepView {
    Send { request: RequestView, then: PendingView },
    Print(Seq<Seq<char>>),
    Fail(ErrorView),
}

impl View for Step {
    type V = StepView;

    open spec fn view(&self) -> StepView {
        match self {
            Step::Send { request, then } => StepView::Send { request: request@, then: then@ },
            Step::Print(lines) => StepView::Print(lines.deep_view()),
            Step::Fail(error) => StepView::Fail(error@),
        }
    }
}

/// The first step of a domain command: one request.
pub open spec fn started_domain(cmd: DomainCmdView, authorization: Seq<char>) -> StepView {
    match cmd {
        DomainCmdView::List => StepView::Send {
            request: post(authorization, "list-domains"@, no_params()),
            then: PendingView::Domains,
        },
        DomainCmdView::Get { domain } => StepView::Send {
            request: post(authorization, "get-domain"@, named_text("domain"@, domain)),
            then: PendingView::Domain,
        },
        DomainCmdView::Find { query } => StepView::Send {
            request: post(authorization, "find-domains"@, named_text("query"@, query)),
            then: PendingView::MarketDomains,
        },
        DomainCmdView::Register { domain, years } => StepView::Send {
            request: post(authorization, "register-domain"@, register_domain_params(domain, years)),
            then: PendingView::Registration,
        },
        DomainCmdView::CheckTask { id } => StepView::Send {
            request: post(authorization, "check-task"@, named_text("id"@, id)),
            then: PendingView::TaskStatus,
        },
    }
}

/// The first step of a record command: one request. An edit starts by
/// listing the records of the domain.
pub open spec fn started_record(cmd: RecordCmdView, authorization: Seq<char>) -> StepView {
    match cmd {
        RecordCmdView::List { domain } => StepView::Send {
            request: post(authorization, "list-records"@, named_text("domain"@, domain)),
            then: PendingView::Records,
        },
        RecordCmdView::Add { domain, record } => StepView::Send {
            request: post(authorization, "add-record"@, add_record_params(domain, record)),
            then: PendingView::Record,
        },
        RecordCmdView::Edit { domain, id, changes } => StepView::Send {
            request: post(authorization, "list-records"@, named_text("domain"@, domain)),
            then: PendingView::EditLookup { domain, id, changes },
        },
        RecordCmdView::Remove { domain, id } => StepView::Send {
            request: post(authorization, "remove-record"@, remove_record_params(domain, id)),
            then: PendingView::Removal { id },
        },
    }
}

/// The first step of a server command: one request.
pub open spec fn started_server(cmd: ServerCmdView, authorization: Seq<char>) -> StepView {
    match cmd {
        ServerCmdView::List => StepView::Send {
            request: post(authorization, "list-servers"@, no_params()),
            then: PendingView::Servers,
        },
        ServerCmdView::Images => StepView::Send {
            request: post(authorization, "list-server-images"@, no_params()),
            then: PendingView::Images,
        },
        ServerCmdView::Types => StepView::Send {
            request: post(authorization, "list-server-types"@, no_params()),
            then: PendingView::Types,
        },
        ServerCmdView::Add { server } => StepView::Send {
            request: post(authorization, "add-server"@, add_server_params(server)),
            then: PendingView::Server,
        },
        ServerCmdView::Stop { id } => StepView::Send {
            request: post(authorization, "stop-server"@, named_text("id"@, id)),
            then: PendingView::Server,
        },
        ServerCmdView::Start { id } => StepView::Send {
            request: post(authorization, "start-server"@, named_text("id"@, id)),
            then: PendingView::Server,
        },
        ServerCmdView::Restart { id } => StepView::Send {
            request: post(authorization, "restart-server"@, named_text("id"@, id)),
            then: PendingView::Server,
        },
        ServerCmdView::Reset { id, os, ssh_key, server_type } => StepView::Send {
            request: post(
                authorization,
                "reset-server"@,
                reset_server_params(id, os, ssh_key, server_type),
            ),
            then: PendingView::Server,
        },
        ServerCmdView::Remove { id } => StepView::Send {
            request: post(authorization, "remove-server"@, named_text("id"@, id)),
            then: PendingView::Server,
        },
    }
}

/// The first step of a command.
pub open spec fn started(cmd: CmdView, authorization: Seq<char>) -> StepView {
    match cmd {
        CmdView::Domain(cmd) => started_domain(cmd, authorization),
        CmdView::Record(cmd) => started_record(cmd, authorization),
        CmdView::Server(cmd) => started_server(cmd, authorization),
    }
}

/// The step after a reply whose result is shown: one line, the result as
/// indented JSON, or the failure of the call.
pub open spec fn shown<T: Payload + ToJson>(reply: ReplyView) -> StepView {
    match finished::<T>(reply) {
        Ok(value) => StepView::Print(seq![json_pretty(T::json(value))]),
        Err(error) => StepView::Fail(error),
    }
}

/// What is said of a record that is not among those of its domain.
pub open spec fn missing_record(id: Seq<char>, domain: Seq<char>) -> Seq<char> {
    "record "@ + id + " in "@ + domain
}

/// The step of an edit once the records of the domain are known: the edit
/// of the first record with the id, with every field filled in; or, where
/// no record has the id, a failure and no request.
pub open spec fn edit_plan(
    authorization: Seq<char>,
    domain: Seq<char>,
    id: Seq<char>,
    changes: RecordChangesView,
    records: Seq<RecordView>,
) -> StepView {
    match first_with_id(records, id) {
        None => StepView::Fail(ErrorView::NotFound(missing_record(id, domain))),
        Some(existing) => StepView::Send {
            request: post(
                authorization,
                "edit-record"@,
                edit_record_params(domain, existing.patched(id, changes)),
            ),
            then: PendingView::EditSent,
        },
    }
}

/// The step after the reply to the listing of an edit: the failure of the
/// listing, or the step that the records listed lead to.
pub open spec fn edit_step(
    authorization: Seq<char>,
    domain: Seq<char>,
    id: Seq<char>,
    changes: RecordChangesView,
    reply: ReplyView,
) -> StepView {
    match finished::<RecordsResponse>(reply) {
        Err(error) => StepView::Fail(error),
        Ok(records) => edit_plan(authorization, domain, id, changes, records),
    }
}

/// The step after a reply. A failed call fails the command; nothing is
/// printed for it.
pub open spec fn resumed(
    pending: PendingView,
    authorization: Seq<char>,
    reply: ReplyView,
) -> StepView {
    match pending {
        PendingView::Domains => shown::<DomainsResponse>(reply),
        PendingView::Domain => shown::<Domain>(reply),
        PendingView::MarketDomains => shown::<MarketDomainsResponse>(reply),
        PendingView::Registration => match finished::<TaskResponse>(reply) {
            Ok(task) => StepView::Print(
                seq![
                    "registration task started: "@ + task,
                    "poll with: njalla domain check-task "@ + task,
                ],
            ),
            Err(error) => StepView::Fail(error),
        },
        PendingView::TaskStatus => match finished::<TaskStatus>(reply) {
            Ok(status) => StepView::Print(seq![status]),
            Err(error) => StepView::Fail(error),
        },
        PendingView::Records => shown::<RecordsResponse>(reply),
        PendingView::Record => shown::<Record>(reply),
        PendingView::EditLookup { domain, id, changes } => edit_step(
            authorization,
            domain,
            id,
            changes,
            reply,
        ),
        PendingView::EditSent => match finished::<()>(reply) {
            Ok(_) => StepView::Print(seq!["record updated"@]),
            Err(error) => StepView::Fail(error),
        },
        PendingView::Removal { id } => match finished::<()>(reply) {
            Ok(_) => StepView::Print(seq!["record "@ + id + " removed"@]),
            Err(error) => StepView::Fail(error),
        },
        PendingView::Servers => shown::<ServersResponse>(reply),
        PendingView::Images => shown::<ImagesResponse>(reply),
        PendingView::Types => shown::<TypesResponse>(reply),
        PendingView::Server => shown::<Server>(reply),
    }
}

/// Every command starts with one request, and with nothing else.
pub proof fn lemma_command_starts_with_one_request(cmd: CmdView, authorization: Seq<char>)
    ensures
        started(cmd, authorization) is Send,
        started(cmd, authorization)->Send_request.authorization == authorization,
{
}

/// Only an edit sends a second request, and only one: it follows the
/// listing of the records, goes to the endpoint with the client's
/// credential, and is followed by no other.
pub proof fn lemma_only_an_edit_sends_again(
    pending: PendingView,
    authorization: Seq<char>,
    reply: ReplyView,
    next: ReplyView,
)
    ensures
        resumed(pending, authorization, reply) matches StepView::Send { request, then } ==> {
            &&& pending is EditLookup
            &&& request.authorization == authorization
            &&& request.url == ENDPOINT@
            &&& then == PendingView::EditSent
            &&& !(resumed(then, authorization, next) is Send)
        },
{
}

/// Whatever a command is waiting for, a failed exchange or an error status
/// fails it with that transport error: nothing is printed, nothing is sent.
pub proof fn lemma_transport_failure_fails_every_command(
    pending: PendingView,
    authorization: Seq<char>,
    reply: ReplyView,
)
    ensures
        reply matches ReplyView::Failed(cause) ==> resumed(pending, authorization, reply)
            == StepView::Fail(ErrorView::Http(HttpErrorView::Failed(cause))),
        reply matches ReplyView::Received { status, body } ==> (is_error_status(status)
            ==> resumed(pending, authorization, reply) == StepView::Fail(
            ErrorView::Http(HttpErrorView::Status(status)),
        )),
{
}

/// An edit of a record whose id is not among the records listed fails as
/// not found, and sends no request.
pub proof fn lemma_edit_of_unlisted_record_sends_nothing(
    authorization: Seq<char>,
    domain: Seq<char>,
    id: Seq<char>,
    changes: RecordChangesView,
    records: Seq<RecordView>,
)
    requires
        forall|i: int| 0 <= i < records.len() ==> (#[trigger] records[i]).id != Some(id),
    ensures
        edit_plan(authorization, domain, id, changes, records) == StepView::Fail(
            ErrorView::NotFound("record "@ + id + " in "@ + domain),
        ),
        !(edit_plan(authorization, domain, id, changes, records) is Send),
        forall|reply: ReplyView|
            finished::<RecordsResponse>(reply) == Ok::<Seq<RecordView>, ErrorView>(records)
                ==> #[trigger] edit_step(authorization, domain, id, changes, reply)
                == StepView::Fail(ErrorView::NotFound("record "@ + id + " in "@ + domain)),
{
    lemma_first_with_id(records, id);
}

/// An edit that supplies only the content of a listed record sends one
/// `edit-record` call whose record has the existing name, type, ttl and
/// priority and the new content.
pub proof fn lemma_edit_of_content_sends_whole_record(
    authorization: Seq<char>,
    domain: Seq<char>,
    id: Seq<char>,
    content: Seq<char>,
    records: Seq<RecordView>,
    existing: RecordView,
)
    requires
        first_with_id(records, id) == Some(existing),
    ensures
        edit_plan(
            authorization,
            domain,
            id,
            RecordChangesView {
                name: None,
                record_type: None,
                content: Some(content),
                ttl: None,
                priority: None,
            },
            records,
        ) == (StepView::Send {
            request: post(
                authorization,
                "edit-record"@,
                edit_record_params(
                    domain,
                    RecordView {
                        id: Some(id),
                        name: existing.name,
                        record_type: existing.record_type,
                        content,
                        ttl: existing.ttl,
                        priority: existing.priority,
                    },
                ),
            ),
            then: PendingView::EditSent,
        }),
{
}

/// The step that prints `lines`.
fn print(lines: Vec<String>) -> (r: Step)
    ensures
        r@ == StepView::Print(lines.deep_view()),
{
    Step::Print(lines)
}

/// The step that prints one line.
fn print_line(line: String) -> (r: Step)
    ensures
        r@ == StepView::Print(seq![line@]),
{
    let mut lines: Vec<String> = Vec::new();
    lines.push(line);
    assert(lines.deep_view() =~= seq![line@]);
    print(lines)
}

/// Shows the result of a reply as indented JSON.
pub fn show<T: Payload + ToJson>(reply: &Reply) -> (r: Step)
    ensures
        r@ == shown::<T>(reply@),
{
    match finish::<T>(reply) {
        Ok(value) => print_line(value.to_json().pretty()),
        Err(error) => Step::Fail(error),
    }
}

/// Starts a command.
pub fn run(cmd: Cmd, client: &NjallaClient) -> (r: Step)
    ensures
        r@ == started(cmd@, client.authorization()),
{
    match cmd {
        Cmd::Domain(cmd) => run_domain(cmd, client),
        Cmd::Record(cmd) => run_record(cmd, client),
        Cmd::Server(cmd) => run_server(cmd, client),
    }
}

/// Starts a domain command.
pub fn run_domain(cmd: DomainCmd, client: &NjallaClient) -> (r: Step)
    ensures
        r@ == started_domain(cmd@, client.authorization()),
{
    match cmd {
        DomainCmd::List => Step::Send {
            request: client.list_domains().request,
            then: Pending::Domains,
        },
        DomainCmd::Get { domain } => Step::Send {
            request: client.get_domain(domain.as_str()).request,
            then: Pending::Domain,
        },
        DomainCmd::Find { query } => Step::Send {
            request: client.find_domains(query.as_str()).request,
            then: Pending::MarketDomains,
        },
        DomainCmd::Register { domain, years } => Step::Send {
            request: client.register_domain(domain.as_str(), years).request,
            then: Pending::Registration,
        },
        DomainCmd::CheckTask { id } => Step::Send {
            request: client.check_task(id.as_str()).request,
            then: Pending::TaskStatus,
        },
    }
}

/// Starts a record command.
pub fn run_record(cmd: RecordCmd, client: &NjallaClient) -> (r: Step)
    ensures
        r@ == started_record(cmd@, client.authorization()),
{
    match cmd {
        RecordCmd::List { domain } => Step::Send {
            request: client.list_records(domain.as_str()).request,
            then: Pending::Records,
        },
        RecordCmd::Add { domain, record } => Step::Send {
            request: client.add_record(domain.as_str(), &record).request,
            then: Pending::Record,
        },
        RecordCmd::Edit { domain, id, changes } => Step::Send {
            request: client.list_records(domain.as_str()).request,
            then: Pending::EditLookup { domain, id, changes },
        },
        RecordCmd::Remove { domain, id } => Step::Send {
            request: client.remove_record(domain.as_str(), id.as_str()).request,
            then: Pending::Removal { id },
        },
    }
}

/// Starts a server command.
pub fn run_server(cmd: ServerCmd, client: &NjallaClient) -> (r: Step)
    ensures
        r@ == started_server(cmd@, client.authorization()),
{
    match cmd {
        ServerCmd::List => Step::Send {
            request: client.list_servers().request,
            then: Pending::Servers,
        },
        ServerCmd::Images => Step::Send {
            request: client.list_server_images().request,
            then: Pending::Images,
        },
        ServerCmd::Types => Step::Send {
            request: client.list_server_types().request,
            then: Pending::Types,
        },
        ServerCmd::Add { server } => Step::Send {
            request: client.add_server(&server).request,
            then: Pending::Server,
        },
        ServerCmd::Stop { id } => Step::Send {
            request: client.stop_server(id.as_str()).request,
            then: Pending::Server,
        },
        ServerCmd::Start { id } => Step::Send {
            request: client.start_server(id.as_str()).request,
            then: Pending::Server,
        },
        ServerCmd::Restart { id } => Step::Send {
            request: client.restart_server(id.as_str()).request,
            then: Pending::Server,
        },
        ServerCmd::Reset { id, os, ssh_key, server_type } => Step::Send {
            request: client.reset_server(
                id.as_str(),
                os.as_str(),
                ssh_key.as_str(),
                server_type.as_str(),
            ).request,
            then: Pending::Server,
        },
        ServerCmd::Remove { id } => Step::Send {
            request: client.remove_server(id.as_str()).request,
            then: Pending::Server,
        },
    }
}

/// Plans the edit of the record `id` among the records of its domain: the
/// call that sends the whole record, or the failure to find it.
pub fn edit_listed(
    client: &NjallaClient,
    domain: String,
    id: String,
    changes: RecordChanges,
    records: &Vec<Record>,
) -> (r: Step)
    ensures
        r@ == edit_plan(client.authorization(), domain@, id@, changes@, seq_view(records@)),
{
    match find_record(records, id.as_str()) {
        None => Step::Fail(
            Error::NotFound(
                "record ".to_owned().concat(id.as_str()).concat(" in ").concat(domain.as_str()),
            ),
        ),
        Some(existing) => {
            let record = existing.patched(id, changes);
            Step::Send {
                request: client.edit_record(domain.as_str(), &record).request,
                then: Pending::EditSent,
            }
        },
    }
}

/// Goes on with an edit once the reply to the listing came back.
pub fn edit_found(
    client: &NjallaClient,
    domain: String,
    id: String,
    changes: RecordChanges,
    reply: &Reply,
) -> (r: Step)
    ensures
        r@ == edit_step(client.authorization(), domain@, id@, changes@, reply@),
{
    match finish::<RecordsResponse>(reply) {
        Err(error) => Step::Fail(error),
        Ok(listed) => edit_listed(client, domain, id, changes, &listed.records),
    }
}

/// Goes on with a command once the reply to its request came back.
pub fn resume(pending: Pending, client: &NjallaClient, reply: &Reply) -> (r: Step)
    ensures
        r@ == resumed(pending@, client.authorization(), reply@),
{
    match pending {
        Pending::Domains => show::<DomainsResponse>(reply),
        Pending::Domain => show::<Domain>(reply),
        Pending::MarketDomains => show::<MarketDomainsResponse>(reply),
        Pending::Registration => match finish::<TaskResponse>(reply) {
            Ok(started) => {
                let mut lines: Vec<String> = Vec::new();
                lines.push("registration task started: ".to_owned().concat(started.task.as_str()));
                lines.push(
                    "poll with: njalla domain check-task ".to_owned().concat(started.task.as_str()),
                );
                assert(lines.deep_view() =~= seq![
                    "registration task started: "@ + started.task@,
                    "poll with: njalla domain check-task "@ + started.task@,
                ]);
                print(lines)
            },
            Err(error) => Step::Fail(error),
        },
        Pending::TaskStatus => match finish::<TaskStatus>(reply) {
            Ok(task) => print_line(task.status),
            Err(error) => Step::Fail(error),
        },
        Pending::Records => show::<RecordsResponse>(reply),
        Pending::Record => show::<Record>(reply),
        Pending::EditLookup { domain, id, changes } => edit_found(
            client,
            domain,
            id,
            changes,
            reply,
        ),
        Pending::EditSent => match finish::<()>(reply) {
            Ok(_) => print_line("record updated".to_owned()),
            Err(error) => Step::Fail(error),
        },
        Pending::Removal { id } => match finish::<()>(reply) {
            Ok(_) => print_line("record ".to_owned().concat(id.as_str()).concat(" removed")),
            Err(error) => Step::Fail(error),
        },
        Pending::Servers => show::<ServersResponse>(reply),
        Pending::Images => show::<ImagesResponse>(reply),
        Pending::Types => show::<TypesResponse>(reply),
        Pending::Server => show::<Server>(reply),
    }
}

} // verus!
