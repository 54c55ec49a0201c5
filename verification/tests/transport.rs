use njalla::client::{finish, resolve, Envelope, NjallaClient, Reply, ENDPOINT, TIMEOUT_SECS};
use njalla::domain::{Domain, DomainsResponse, TaskResponse, TaskStatus};
use njalla::error::{Error, HttpError, JsonError, JsonRpcError};
use njalla::json::Json;
use njalla::payload::{empty_object, Payload};

fn received(body: &str) -> Reply {
    Reply::Received { status: 200, body: body.as_bytes().to_vec() }
}

fn parsed(body: &str) -> Json {
    Json::parse(body.as_bytes()).expect("the test's own JSON")
}

#[test]
fn call_posts_the_envelope_with_the_credential() {
    let client = NjallaClient::new("t0k");
    let call = client.call::<()>("list-domains", empty_object());
    assert_eq!(call.request.url, "https://njal.la/api/1/");
    assert_eq!(call.request.url, ENDPOINT);
    assert_eq!(call.request.authorization, "Njalla t0k");
    assert_eq!(call.request.content_type, "application/json");
    assert_eq!(call.request.timeout_secs, 30);
    assert_eq!(TIMEOUT_SECS, 30);
    assert_eq!(
        call.request.body,
        "{\"jsonrpc\":\"2.0\",\"id\":1,\"method\":\"list-domains\",\"params\":{}}"
    );
}

#[test]
fn call_passes_any_params_through() {
    let client = NjallaClient::new("t0k");
    let params = parsed("{\"b\":[1,true,null],\"a\":{\"x\":\"y\"}}");
    let call = client.call::<()>("m", params);
    assert_eq!(
        call.request.body,
        "{\"jsonrpc\":\"2.0\",\"id\":1,\"method\":\"m\",\"params\":{\"b\":[1,true,null],\"a\":{\"x\":\"y\"}}}"
    );
    let void = client.call_void("m", empty_object());
    assert_eq!(void.request.body, "{\"jsonrpc\":\"2.0\",\"id\":1,\"method\":\"m\",\"params\":{}}");
    assert_eq!(void.request.authorization, "Njalla t0k");
}

#[test]
fn method_and_params_are_escaped_by_the_writer() {
    let client = NjallaClient::new("t0k");
    let call = client.call::<()>("a\"b", Json::object(vec![("k\n".to_string(), Json::text_of("v\\"))]));
    assert_eq!(
        call.request.body,
        "{\"jsonrpc\":\"2.0\",\"id\":1,\"method\":\"a\\\"b\",\"params\":{\"k\\n\":\"v\\\\\"}}"
    );
}

#[test]
fn from_env_needs_a_token() {
    let client = NjallaClient::from_env(Ok("t0k".to_string())).expect("a token was given");
    assert_eq!(client.list_domains().request.authorization, "Njalla t0k");
    let missing = NjallaClient::from_env(Err("environment variable not found".to_string()));
    match missing {
        Err(error) => assert_eq!(error, Error::Env("environment variable not found".to_string())),
        Ok(_) => panic!("a client without a token"),
    }
}

#[test]
fn list_domains_scenario() {
    let reply = received(
        "{\"result\":{\"domains\":[{\"name\":\"example.com\",\"status\":\"active\",\"expiry\":\"2026-01-01\"}]}}",
    );
    let client = NjallaClient::new("t0k");
    let call = client.list_domains();
    let listed = call.finish(&reply).expect("a list of domains");
    assert_eq!(
        listed.domains,
        vec![Domain {
            name: "example.com".to_string(),
            status: "active".to_string(),
            expiry: "2026-01-01".to_string(),
            locked: None,
            mailforwarding: None,
            max_nameservers: None,
        }]
    );
}

#[test]
fn register_domain_scenario() {
    let client = NjallaClient::new("t0k");
    let call = client.register_domain("example.com", 2);
    assert_eq!(
        call.request.body,
        "{\"jsonrpc\":\"2.0\",\"id\":1,\"method\":\"register-domain\",\"params\":{\"domain\":\"example.com\",\"years\":2}}"
    );
    let started = call.finish(&received("{\"result\":{\"task\":\"abc123\"}}")).expect("a task");
    assert_eq!(started.task, "abc123");
}

#[test]
fn any_call_returning_an_error_yields_api_error() {
    let body = "{\"error\":{\"code\":403,\"message\":\"forbidden\"}}";
    let expected = Error::Api { code: 403, message: "forbidden".to_string() };
    assert_eq!(finish::<DomainsResponse>(&received(body)), Err(expected));
    let expected = Error::Api { code: 403, message: "forbidden".to_string() };
    assert_eq!(finish::<TaskResponse>(&received(body)), Err(expected));
    let expected = Error::Api { code: 403, message: "forbidden".to_string() };
    assert_eq!(finish::<()>(&received(body)), Err(expected));
}

#[test]
fn api_error_takes_precedence_over_result() {
    let with_result =
        "{\"result\":{\"task\":\"abc123\"},\"error\":{\"code\":403,\"message\":\"forbidden\"}}";
    assert_eq!(
        finish::<TaskResponse>(&received(with_result)),
        Err(Error::Api { code: 403, message: "forbidden".to_string() })
    );
    let error_first =
        "{\"error\":{\"code\":-32601,\"message\":\"no such method\"},\"result\":{\"task\":\"abc123\"}}";
    assert_eq!(
        finish::<TaskResponse>(&received(error_first)),
        Err(Error::Api { code: -32601, message: "no such method".to_string() })
    );
    assert_eq!(
        finish::<()>(&received(with_result)),
        Err(Error::Api { code: 403, message: "forbidden".to_string() })
    );
}

#[test]
fn response_without_result_or_error_is_missing_result() {
    assert_eq!(finish::<TaskResponse>(&received("{}")), Err(Error::MissingResult));
    assert_eq!(finish::<()>(&received("{}")), Err(Error::MissingResult));
    assert_eq!(finish::<()>(&received("{\"id\":1,\"jsonrpc\":\"2.0\"}")), Err(Error::MissingResult));
}

#[test]
fn null_members_count_as_left_out() {
    assert_eq!(finish::<()>(&received("{\"result\":null}")), Err(Error::MissingResult));
    assert_eq!(
        finish::<()>(&received("{\"result\":null,\"error\":null}")),
        Err(Error::MissingResult)
    );
    assert_eq!(
        finish::<TaskResponse>(&received("{\"result\":{\"task\":\"t\"},\"error\":null}")),
        Ok(TaskResponse { task: "t".to_string() })
    );
}

#[test]
fn result_alone_is_read_or_refused() {
    assert_eq!(
        finish::<TaskStatus>(&received("{\"result\":{\"status\":\"done\"}}")),
        Ok(TaskStatus { status: "done".to_string() })
    );
    assert_eq!(
        finish::<TaskStatus>(&received("{\"result\":{\"state\":\"done\"}}")),
        Err(Error::Json(JsonError::Shape))
    );
    assert_eq!(
        finish::<TaskStatus>(&received("{\"result\":{\"status\":7}}")),
        Err(Error::Json(JsonError::Shape))
    );
    assert_eq!(
        finish::<TaskStatus>(&received("{\"result\":\"done\"}")),
        Err(Error::Json(JsonError::Shape))
    );
}

#[test]
fn void_call_takes_any_result() {
    assert_eq!(finish::<()>(&received("{\"result\":{}}")), Ok(()));
    assert_eq!(finish::<()>(&received("{\"result\":[1,2,3]}")), Ok(()));
    assert_eq!(finish::<()>(&received("{\"result\":false}")), Ok(()));
    assert_eq!(finish::<()>(&received("{\"result\":0}")), Ok(()));
}

#[test]
fn error_member_of_another_shape_is_refused() {
    assert_eq!(
        finish::<()>(&received("{\"result\":1,\"error\":\"boom\"}")),
        Err(Error::Json(JsonError::Shape))
    );
    assert_eq!(
        finish::<()>(&received("{\"result\":1,\"error\":{\"code\":\"403\",\"message\":\"x\"}}")),
        Err(Error::Json(JsonError::Shape))
    );
    assert_eq!(
        finish::<()>(&received("{\"result\":1,\"error\":{\"code\":1}}")),
        Err(Error::Json(JsonError::Shape))
    );
    assert_eq!(
        finish::<()>(&received("{\"result\":1,\"error\":{\"code\":1.5,\"message\":\"x\"}}")),
        Err(Error::Json(JsonError::Shape))
    );
}

#[test]
fn response_that_is_no_envelope_is_refused() {
    assert_eq!(finish::<()>(&received("7")), Err(Error::Json(JsonError::Shape)));
    assert_eq!(finish::<()>(&received("\"ok\"")), Err(Error::Json(JsonError::Shape)));
    assert_eq!(finish::<()>(&received("null")), Err(Error::Json(JsonError::Shape)));
    assert_eq!(finish::<()>(&received("[1]")), Err(Error::Json(JsonError::Shape)));
    assert_eq!(finish::<()>(&received("[1,null,3]")), Err(Error::Json(JsonError::Shape)));
}

#[test]
fn envelope_can_come_as_a_list_of_its_two_members() {
    assert_eq!(
        finish::<TaskResponse>(&received("[{\"task\":\"t\"},null]")),
        Ok(TaskResponse { task: "t".to_string() })
    );
    assert_eq!(
        finish::<TaskResponse>(&received("[{\"task\":\"t\"},[403,\"forbidden\"]]")),
        Err(Error::Api { code: 403, message: "forbidden".to_string() })
    );
    assert_eq!(finish::<TaskResponse>(&received("[null,null]")), Err(Error::MissingResult));
}

#[test]
fn malformed_body_is_a_syntax_error() {
    assert_eq!(
        finish::<()>(&received("")),
        Err(Error::Json(JsonError::Syntax(
            "EOF while parsing a value at line 1 column 0".to_string()
        )))
    );
    assert_eq!(
        finish::<()>(&received("{\"result\":")),
        Err(Error::Json(JsonError::Syntax(
            "EOF while parsing a value at line 1 column 10".to_string()
        )))
    );
    assert_eq!(
        finish::<()>(&received("{\"result\":1} x")),
        Err(Error::Json(JsonError::Syntax("trailing characters at line 1 column 14".to_string())))
    );
    let not_text = Reply::Received { status: 200, body: vec![0xff, 0xfe] };
    assert!(matches!(finish::<()>(&not_text), Err(Error::Json(JsonError::Syntax(_)))));
}

#[test]
fn error_status_fails_whatever_the_body_holds() {
    let good = "{\"result\":{\"task\":\"abc123\"}}";
    for status in [400u16, 401, 403, 404, 499, 500, 503, 599] {
        let reply = Reply::Received { status, body: good.as_bytes().to_vec() };
        assert_eq!(finish::<TaskResponse>(&reply), Err(Error::Http(HttpError::Status(status))));
        let reply = Reply::Received { status, body: b"<html>not json</html>".to_vec() };
        assert_eq!(finish::<TaskResponse>(&reply), Err(Error::Http(HttpError::Status(status))));
    }
}

#[test]
fn other_statuses_are_read() {
    let good = "{\"result\":{\"task\":\"abc123\"}}";
    for status in [100u16, 200, 201, 204, 302, 399, 600, 999] {
        let reply = Reply::Received { status, body: good.as_bytes().to_vec() };
        assert_eq!(
            finish::<TaskResponse>(&reply),
            Ok(TaskResponse { task: "abc123".to_string() })
        );
    }
}

#[test]
fn failed_exchange_is_a_transport_error() {
    let reply = Reply::Failed("operation timed out".to_string());
    assert_eq!(
        finish::<TaskResponse>(&reply),
        Err(Error::Http(HttpError::Failed("operation timed out".to_string())))
    );
}

#[test]
fn same_reply_gives_the_same_result_each_time() {
    let reply = received(
        "{\"result\":{\"domains\":[{\"name\":\"a.se\",\"status\":\"active\",\"expiry\":\"2027-05-05\",\"locked\":true}]}}",
    );
    let client = NjallaClient::new("t0k");
    let first = client.list_domains().finish(&reply);
    let second = client.list_domains().finish(&reply);
    assert_eq!(first, second);
    assert_eq!(first.expect("domains").domains[0].locked, Some(true));
    let other_client = NjallaClient::new("another");
    assert_eq!(other_client.list_domains().finish(&reply), second);
    assert_eq!(client.list_domains().request, client.list_domains().request);
}

#[test]
fn resolve_takes_the_parsed_body() {
    assert_eq!(
        resolve::<TaskResponse>(Ok(parsed("{\"result\":{\"task\":\"t\"}}"))),
        Ok(TaskResponse { task: "t".to_string() })
    );
    assert_eq!(
        resolve::<TaskResponse>(Err("expected value at line 1 column 1".to_string())),
        Err(Error::Json(JsonError::Syntax("expected value at line 1 column 1".to_string())))
    );
    assert_eq!(resolve::<TaskResponse>(Ok(parsed("{}"))), Err(Error::MissingResult));
}

#[test]
fn envelope_is_read_member_by_member() {
    let response = parsed("{\"result\":[1,2],\"id\":1}");
    assert_eq!(
        Envelope::decode(&response),
        Some(Envelope { result: Some(&parsed("[1,2]")), error: None })
    );
    let response = parsed("{\"error\":{\"code\":1,\"message\":\"m\",\"data\":[]},\"result\":0}");
    assert_eq!(
        Envelope::decode(&response),
        Some(Envelope {
            result: Some(&Json::Integer(0)),
            error: Some(JsonRpcError { code: 1, message: "m".to_string() }),
        })
    );
    assert_eq!(
        Envelope::decode(&parsed("{\"result\":null,\"error\":null}")),
        Some(Envelope { result: None, error: None })
    );
    assert_eq!(Envelope::decode(&parsed("{}")), Some(Envelope { result: None, error: None }));
    assert_eq!(
        Envelope::decode(&parsed("[7,[1,\"m\"]]")),
        Some(Envelope {
            result: Some(&Json::Integer(7)),
            error: Some(JsonRpcError { code: 1, message: "m".to_string() }),
        })
    );
    assert_eq!(Envelope::decode(&parsed("{\"error\":true}")), None);
    assert_eq!(Envelope::decode(&parsed("[7]")), None);
    assert_eq!(Envelope::decode(&parsed("\"x\"")), None);
}

#[test]
fn envelope_comes_to_its_error_first() {
    let result = parsed("{\"task\":\"abc123\"}");
    let both = Envelope {
        result: Some(&result),
        error: Some(JsonRpcError { code: 403, message: "forbidden".to_string() }),
    };
    assert_eq!(both.outcome(), Err(Error::Api { code: 403, message: "forbidden".to_string() }));
    let only_error = Envelope {
        result: None,
        error: Some(JsonRpcError { code: 403, message: "forbidden".to_string() }),
    };
    assert_eq!(
        only_error.resolve::<TaskResponse>(),
        Err(Error::Api { code: 403, message: "forbidden".to_string() })
    );
    let neither = Envelope { result: None, error: None };
    assert_eq!(neither.outcome(), Err(Error::MissingResult));
    let only_result = Envelope { result: Some(&result), error: None };
    assert_eq!(only_result.outcome(), Ok(&result));
    let only_result = Envelope { result: Some(&result), error: None };
    assert_eq!(
        only_result.resolve::<TaskResponse>(),
        Ok(TaskResponse { task: "abc123".to_string() })
    );
    let only_result = Envelope { result: Some(&result), error: None };
    assert_eq!(only_result.resolve::<TaskStatus>(), Err(Error::Json(JsonError::Shape)));
}

#[test]
fn rpc_error_becomes_an_api_error_unchanged() {
    let error = JsonRpcError { code: i64::MIN, message: "x".to_string() };
    assert_eq!(Error::from(error), Error::Api { code: i64::MIN, message: "x".to_string() });
    assert_eq!(
        JsonRpcError::decode(&parsed("{\"message\":\"m\",\"code\":9223372036854775807}")),
        Some(JsonRpcError { code: i64::MAX, message: "m".to_string() })
    );
    assert_eq!(
        JsonRpcError::decode(&parsed("{\"message\":\"m\",\"code\":9223372036854775808}")),
        None
    );
}
