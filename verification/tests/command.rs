use njalla::client::{NjallaClient, Reply};
use njalla::command::{
    edit_found, edit_listed, resume, run, run_domain, run_record, run_server, show, Cmd,
    DomainCmd, Pending, RecordCmd, ServerCmd, Step,
};
use njalla::domain::Domain;
use njalla::error::{Error, HttpError, JsonError};
use njalla::record::{NewRecord, Record, RecordChanges};
use njalla::server::NewServer;

fn received(body: &str) -> Reply {
    Reply::Received { status: 200, body: body.as_bytes().to_vec() }
}

fn body_of(method: &str, params: &str) -> String {
    format!("{{\"jsonrpc\":\"2.0\",\"id\":1,\"method\":\"{}\",\"params\":{}}}", method, params)
}

fn sent(step: Step) -> (String, Pending) {
    match step {
        Step::Send { request, then } => {
            assert_eq!(request.authorization, "Njalla t0k");
            assert_eq!(request.url, "https://njal.la/api/1/");
            (request.body, then)
        }
        other => panic!("no request: {:?}", other),
    }
}

fn only_content(content: &str) -> RecordChanges {
    RecordChanges {
        name: None,
        record_type: None,
        content: Some(content.to_string()),
        ttl: None,
        priority: None,
    }
}

const RECORDS: &str = "{\"result\":{\"records\":[{\"id\":\"1\",\"name\":\"@\",\"type\":\"A\",\"content\":\"10.0.0.1\",\"ttl\":3600},{\"id\":\"2\",\"name\":\"mail\",\"type\":\"MX\",\"content\":\"old.a.se\",\"ttl\":120,\"prio\":10}]}}";

#[test]
fn domain_commands_start_with_their_call() {
    let client = NjallaClient::new("t0k");
    assert_eq!(
        sent(run_domain(DomainCmd::List, &client)),
        (body_of("list-domains", "{}"), Pending::Domains)
    );
    assert_eq!(
        sent(run_domain(DomainCmd::Get { domain: "a.se".to_string() }, &client)),
        (body_of("get-domain", "{\"domain\":\"a.se\"}"), Pending::Domain)
    );
    assert_eq!(
        sent(run_domain(DomainCmd::Find { query: "a".to_string() }, &client)),
        (body_of("find-domains", "{\"query\":\"a\"}"), Pending::MarketDomains)
    );
    assert_eq!(
        sent(run_domain(DomainCmd::Register { domain: "a.se".to_string(), years: 2 }, &client)),
        (body_of("register-domain", "{\"domain\":\"a.se\",\"years\":2}"), Pending::Registration)
    );
    assert_eq!(
        sent(run_domain(DomainCmd::CheckTask { id: "abc123".to_string() }, &client)),
        (body_of("check-task", "{\"id\":\"abc123\"}"), Pending::TaskStatus)
    );
}

#[test]
fn record_commands_start_with_their_call() {
    let client = NjallaClient::new("t0k");
    assert_eq!(
        sent(run_record(RecordCmd::List { domain: "a.se".to_string() }, &client)),
        (body_of("list-records", "{\"domain\":\"a.se\"}"), Pending::Records)
    );
    let record = NewRecord {
        name: "www".to_string(),
        record_type: "A".to_string(),
        content: "10.0.0.2".to_string(),
        ttl: 3600,
        priority: None,
    };
    assert_eq!(
        sent(run_record(RecordCmd::Add { domain: "a.se".to_string(), record }, &client)),
        (
            body_of(
                "add-record",
                "{\"content\":\"10.0.0.2\",\"domain\":\"a.se\",\"name\":\"www\",\"ttl\":3600,\"type\":\"A\"}"
            ),
            Pending::Record
        )
    );
    assert_eq!(
        sent(run_record(
            RecordCmd::Edit {
                domain: "a.se".to_string(),
                id: "2".to_string(),
                changes: only_content("new.a.se"),
            },
            &client
        )),
        (
            body_of("list-records", "{\"domain\":\"a.se\"}"),
            Pending::EditLookup {
                domain: "a.se".to_string(),
                id: "2".to_string(),
                changes: only_content("new.a.se"),
            }
        )
    );
    assert_eq!(
        sent(run_record(
            RecordCmd::Remove { domain: "a.se".to_string(), id: "2".to_string() },
            &client
        )),
        (
            body_of("remove-record", "{\"domain\":\"a.se\",\"id\":\"2\"}"),
            Pending::Removal { id: "2".to_string() }
        )
    );
}

#[test]
fn server_commands_start_with_their_call() {
    let client = NjallaClient::new("t0k");
    assert_eq!(
        sent(run_server(ServerCmd::List, &client)),
        (body_of("list-servers", "{}"), Pending::Servers)
    );
    assert_eq!(
        sent(run_server(ServerCmd::Images, &client)),
        (body_of("list-server-images", "{}"), Pending::Images)
    );
    assert_eq!(
        sent(run_server(ServerCmd::Types, &client)),
        (body_of("list-server-types", "{}"), Pending::Types)
    );
    let server = NewServer {
        name: "box".to_string(),
        server_type: "njalla1".to_string(),
        os: "debian12".to_string(),
        ssh_key: "k".to_string(),
        months: 1,
    };
    assert_eq!(
        sent(run_server(ServerCmd::Add { server }, &client)),
        (
            body_of(
                "add-server",
                "{\"months\":1,\"name\":\"box\",\"os\":\"debian12\",\"ssh_key\":\"k\",\"type\":\"njalla1\"}"
            ),
            Pending::Server
        )
    );
    assert_eq!(
        sent(run_server(ServerCmd::Stop { id: "s1".to_string() }, &client)),
        (body_of("stop-server", "{\"id\":\"s1\"}"), Pending::Server)
    );
    assert_eq!(
        sent(run_server(ServerCmd::Start { id: "s1".to_string() }, &client)),
        (body_of("start-server", "{\"id\":\"s1\"}"), Pending::Server)
    );
    assert_eq!(
        sent(run_server(ServerCmd::Restart { id: "s1".to_string() }, &client)),
        (body_of("restart-server", "{\"id\":\"s1\"}"), Pending::Server)
    );
    assert_eq!(
        sent(run_server(ServerCmd::Remove { id: "s1".to_string() }, &client)),
        (body_of("remove-server", "{\"id\":\"s1\"}"), Pending::Server)
    );
    assert_eq!(
        sent(run_server(
            ServerCmd::Reset {
                id: "s1".to_string(),
                os: "alpine".to_string(),
                ssh_key: "k2".to_string(),
                server_type: "njalla2".to_string(),
            },
            &client
        )),
        (
            body_of(
                "reset-server",
                "{\"id\":\"s1\",\"os\":\"alpine\",\"ssh_key\":\"k2\",\"type\":\"njalla2\"}"
            ),
            Pending::Server
        )
    );
}

#[test]
fn run_hands_each_group_to_its_own() {
    let client = NjallaClient::new("t0k");
    assert_eq!(
        sent(run(Cmd::Domain(DomainCmd::List), &client)),
        (body_of("list-domains", "{}"), Pending::Domains)
    );
    assert_eq!(
        sent(run(Cmd::Record(RecordCmd::List { domain: "a.se".to_string() }), &client)),
        (body_of("list-records", "{\"domain\":\"a.se\"}"), Pending::Records)
    );
    assert_eq!(
        sent(run(Cmd::Server(ServerCmd::Types), &client)),
        (body_of("list-server-types", "{}"), Pending::Types)
    );
}

#[test]
fn results_are_printed_as_indented_json() {
    let client = NjallaClient::new("t0k");
    let reply = received(
        "{\"result\":{\"domains\":[{\"name\":\"example.com\",\"status\":\"active\",\"expiry\":\"2026-01-01\"}]}}",
    );
    assert_eq!(
        resume(Pending::Domains, &client, &reply),
        Step::Print(vec![
            "[\n  {\n    \"name\": \"example.com\",\n    \"status\": \"active\",\n    \"expiry\": \"2026-01-01\"\n  }\n]"
                .to_string()
        ])
    );
    let one = received(
        "{\"result\":{\"name\":\"example.com\",\"status\":\"active\",\"expiry\":\"2026-01-01\",\"locked\":false}}",
    );
    let expected = Step::Print(vec![
        "{\n  \"name\": \"example.com\",\n  \"status\": \"active\",\n  \"expiry\": \"2026-01-01\",\n  \"locked\": false\n}"
            .to_string(),
    ]);
    assert_eq!(resume(Pending::Domain, &client, &one), expected);
    assert_eq!(show::<Domain>(&one), expected);
    assert_eq!(
        resume(Pending::MarketDomains, &client, &received("{\"result\":{\"domains\":[]}}")),
        Step::Print(vec!["[]".to_string()])
    );
    assert_eq!(
        resume(
            Pending::Images,
            &client,
            &received("{\"result\":{\"images\":[\"debian12\",\"alpine\"]}}")
        ),
        Step::Print(vec!["[\n  \"debian12\",\n  \"alpine\"\n]".to_string()])
    );
    assert_eq!(
        resume(Pending::Types, &client, &received("{\"result\":{\"types\":[\"njalla1\"]}}")),
        Step::Print(vec!["[\n  \"njalla1\"\n]".to_string()])
    );
    assert_eq!(
        resume(Pending::Servers, &client, &received("{\"result\":{\"servers\":[]}}")),
        Step::Print(vec!["[]".to_string()])
    );
    assert_eq!(
        resume(
            Pending::Record,
            &client,
            &received(
                "{\"result\":{\"id\":\"7\",\"name\":\"www\",\"type\":\"A\",\"content\":\"10.0.0.2\",\"ttl\":3600}}"
            )
        ),
        Step::Print(vec![
            "{\n  \"id\": \"7\",\n  \"name\": \"www\",\n  \"type\": \"A\",\n  \"content\": \"10.0.0.2\",\n  \"ttl\": 3600\n}"
                .to_string()
        ])
    );
    assert_eq!(
        resume(Pending::Records, &client, &received(RECORDS)),
        Step::Print(vec![
            "[\n  {\n    \"id\": \"1\",\n    \"name\": \"@\",\n    \"type\": \"A\",\n    \"content\": \"10.0.0.1\",\n    \"ttl\": 3600\n  },\n  {\n    \"id\": \"2\",\n    \"name\": \"mail\",\n    \"type\": \"MX\",\n    \"content\": \"old.a.se\",\n    \"ttl\": 120,\n    \"prio\": 10\n  }\n]"
                .to_string()
        ])
    );
    assert_eq!(
        resume(
            Pending::Server,
            &client,
            &received(
                "{\"result\":{\"name\":\"box\",\"type\":\"njalla1\",\"id\":\"s1\",\"status\":\"running\",\"os\":\"debian12\",\"expiry\":\"2026-02-02\",\"autorenew\":true,\"ssh_key\":\"k\",\"ips\":[],\"reverse_name\":\"r\",\"os_state\":\"ok\"}}"
            )
        ),
        Step::Print(vec![
            "{\n  \"name\": \"box\",\n  \"type\": \"njalla1\",\n  \"id\": \"s1\",\n  \"status\": \"running\",\n  \"os\": \"debian12\",\n  \"expiry\": \"2026-02-02\",\n  \"autorenew\": true,\n  \"ssh_key\": \"k\",\n  \"ips\": [],\n  \"reverse_name\": \"r\",\n  \"os_state\": \"ok\"\n}"
                .to_string()
        ])
    );
}

#[test]
fn registration_and_task_status_print_plain_lines() {
    let client = NjallaClient::new("t0k");
    assert_eq!(
        resume(Pending::Registration, &client, &received("{\"result\":{\"task\":\"abc123\"}}")),
        Step::Print(vec![
            "registration task started: abc123".to_string(),
            "poll with: njalla domain check-task abc123".to_string(),
        ])
    );
    assert_eq!(
        resume(Pending::TaskStatus, &client, &received("{\"result\":{\"status\":\"pending\"}}")),
        Step::Print(vec!["pending".to_string()])
    );
    assert_eq!(
        resume(Pending::Removal { id: "2".to_string() }, &client, &received("{\"result\":{}}")),
        Step::Print(vec!["record 2 removed".to_string()])
    );
    assert_eq!(
        resume(Pending::EditSent, &client, &received("{\"result\":{}}")),
        Step::Print(vec!["record updated".to_string()])
    );
}

#[test]
fn failed_call_fails_the_command_and_prints_nothing() {
    let client = NjallaClient::new("t0k");
    let refused = received("{\"error\":{\"code\":403,\"message\":\"forbidden\"},\"result\":{}}");
    let pendings = vec![
        Pending::Domains,
        Pending::Domain,
        Pending::MarketDomains,
        Pending::Registration,
        Pending::TaskStatus,
        Pending::Records,
        Pending::Record,
        Pending::EditLookup {
            domain: "a.se".to_string(),
            id: "1".to_string(),
            changes: only_content("x"),
        },
        Pending::EditSent,
        Pending::Removal { id: "1".to_string() },
        Pending::Servers,
        Pending::Images,
        Pending::Types,
        Pending::Server,
    ];
    for pending in pendings {
        assert_eq!(
            resume(pending, &client, &refused),
            Step::Fail(Error::Api { code: 403, message: "forbidden".to_string() })
        );
    }
    assert_eq!(
        resume(Pending::Domains, &client, &Reply::Failed("connection refused".to_string())),
        Step::Fail(Error::Http(HttpError::Failed("connection refused".to_string())))
    );
    assert_eq!(
        resume(Pending::Server, &client, &Reply::Received { status: 502, body: vec![] }),
        Step::Fail(Error::Http(HttpError::Status(502)))
    );
    assert_eq!(
        resume(Pending::Server, &client, &received("{\"result\":{\"name\":\"box\"}}")),
        Step::Fail(Error::Json(JsonError::Shape))
    );
    assert_eq!(resume(Pending::EditSent, &client, &received("{}")), Step::Fail(Error::MissingResult));
}

#[test]
fn edit_sends_the_whole_record_with_the_new_content() {
    let client = NjallaClient::new("t0k");
    let first = run_record(
        RecordCmd::Edit {
            domain: "a.se".to_string(),
            id: "2".to_string(),
            changes: only_content("new.a.se"),
        },
        &client,
    );
    let (_, pending) = sent(first);
    let (body, then) = sent(resume(pending, &client, &received(RECORDS)));
    assert_eq!(
        body,
        body_of(
            "edit-record",
            "{\"content\":\"new.a.se\",\"domain\":\"a.se\",\"id\":\"2\",\"name\":\"mail\",\"prio\":10,\"ttl\":120,\"type\":\"MX\"}"
        )
    );
    assert_eq!(then, Pending::EditSent);
    assert_eq!(
        resume(then, &client, &received("{\"result\":{}}")),
        Step::Print(vec!["record updated".to_string()])
    );
}

#[test]
fn edit_overrides_each_supplied_field() {
    let client = NjallaClient::new("t0k");
    let changes = RecordChanges {
        name: Some("www".to_string()),
        record_type: Some("AAAA".to_string()),
        content: None,
        ttl: Some(60),
        priority: Some(1),
    };
    let step = edit_found(&client, "a.se".to_string(), "1".to_string(), changes, &received(RECORDS));
    let (body, then) = sent(step);
    assert_eq!(
        body,
        body_of(
            "edit-record",
            "{\"content\":\"10.0.0.1\",\"domain\":\"a.se\",\"id\":\"1\",\"name\":\"www\",\"prio\":1,\"ttl\":60,\"type\":\"AAAA\"}"
        )
    );
    assert_eq!(then, Pending::EditSent);
}

#[test]
fn edit_of_an_unlisted_record_is_not_found_and_sends_nothing() {
    let client = NjallaClient::new("t0k");
    let pending = Pending::EditLookup {
        domain: "a.se".to_string(),
        id: "3".to_string(),
        changes: only_content("new.a.se"),
    };
    assert_eq!(
        resume(pending, &client, &received(RECORDS)),
        Step::Fail(Error::NotFound("record 3 in a.se".to_string()))
    );
    let pending = Pending::EditLookup {
        domain: "b.se".to_string(),
        id: "1".to_string(),
        changes: only_content("new.a.se"),
    };
    assert_eq!(
        resume(pending, &client, &received("{\"result\":{\"records\":[]}}")),
        Step::Fail(Error::NotFound("record 1 in b.se".to_string()))
    );
}

#[test]
fn edit_is_planned_from_the_records_listed() {
    let client = NjallaClient::new("t0k");
    let records = vec![
        Record {
            id: Some("1".to_string()),
            name: "@".to_string(),
            record_type: "A".to_string(),
            content: "10.0.0.1".to_string(),
            ttl: 3600,
            priority: None,
        },
        Record {
            id: Some("1".to_string()),
            name: "shadowed".to_string(),
            record_type: "TXT".to_string(),
            content: "x".to_string(),
            ttl: 1,
            priority: Some(1),
        },
    ];
    let step =
        edit_listed(&client, "a.se".to_string(), "1".to_string(), only_content("10.0.0.9"), &records);
    let (body, then) = sent(step);
    assert_eq!(
        body,
        body_of(
            "edit-record",
            "{\"content\":\"10.0.0.9\",\"domain\":\"a.se\",\"id\":\"1\",\"name\":\"@\",\"ttl\":3600,\"type\":\"A\"}"
        )
    );
    assert_eq!(then, Pending::EditSent);
    assert_eq!(
        edit_listed(&client, "a.se".to_string(), "2".to_string(), only_content("x"), &records),
        Step::Fail(Error::NotFound("record 2 in a.se".to_string()))
    );
    assert_eq!(
        edit_listed(&client, "a.se".to_string(), "2".to_string(), only_content("x"), &Vec::new()),
        Step::Fail(Error::NotFound("record 2 in a.se".to_string()))
    );
}
