use entity_gateway::config::Config;
use entity_gateway::entity::RemoteEntityRecord;
use entity_gateway::error::{ErrorKind, ServiceError};
use entity_gateway::request::{execution_reply, failure_reply, query_from_body};
use entity_gateway::resolver::{Action, Resolution};

const REF: u128 = 0x11111111_1111_1111_1111_111111111111u128;

#[test]
fn query_is_extracted() {
    let body = br#"{"query": "{ entity(reference: \"11111111-1111-1111-1111-111111111111\") { title } }"}"#;
    let q = query_from_body(body.to_vec()).unwrap();
    assert_eq!(q, "{ entity(reference: \"11111111-1111-1111-1111-111111111111\") { title } }");
}

#[test]
fn non_json_body_is_invalid_request() {
    let err = query_from_body(b"this is not json".to_vec()).unwrap_err();
    assert_eq!(err.kind(), ErrorKind::InvalidRequest);
    let again = query_from_body(b"this is not json".to_vec()).unwrap_err();
    assert_eq!(again.kind(), err.kind());
    assert_eq!(again.message(), err.message());
}

#[test]
fn other_invalid_requests() {
    assert_eq!(query_from_body(vec![0xff, 0xfe]).unwrap_err().kind(), ErrorKind::InvalidRequest);
    assert_eq!(query_from_body(b"{\"q\":\"x\"}".to_vec()).unwrap_err().kind(), ErrorKind::InvalidRequest);
    assert_eq!(query_from_body(b"[\"query\"]".to_vec()).unwrap_err().kind(), ErrorKind::InvalidRequest);
}

#[test]
fn replies_are_json() {
    let r = execution_reply("{\"data\":null}".to_string());
    assert_eq!(r.status, 200);
    assert_eq!(r.content_type, "application/json");
    assert_eq!(r.body, "{\"data\":null}");
    let r = failure_reply(&ServiceError::new(ErrorKind::InvalidRequest, "bad \"body\""));
    assert_eq!(r.status, 400);
    assert_eq!(r.body, "{\"errors\":[{\"message\":\"bad \\\"body\\\"\"}]}");
    let r = failure_reply(&ServiceError::new(ErrorKind::DecodeError, "x"));
    assert_eq!(r.status, 500);
}

fn expect_get(a: Action) -> entity_gateway::config::HttpGet {
    match a {
        Action::Get(g) => g,
        other => panic!("expected a GET, got {:?}", other),
    }
}

#[test]
fn full_resolution_carries_the_record() {
    let config = Config::new("https://repo.example".to_string());
    let (state, action) = Resolution::start(REF, Some("sess".to_string()));
    let get = expect_get(action);
    assert_eq!(get.header_value, "sess");
    let secret = "{\"SecretString\":\"{\\\"alice\\\":\\\"pw\\\"}\"}".to_string();
    let (state, action) = state.on_reply(&config, Ok(secret));
    match action {
        Action::Post(p) => assert_eq!(p.fields[0].1, "alice"),
        other => panic!("expected a POST, got {:?}", other),
    }
    let (state, action) = state.on_reply(&config, Ok("{\"token\":\"tok\"}".to_string()));
    let get = expect_get(action);
    assert_eq!(get.header_value, "tok");
    assert_eq!(get.url, "https://repo.example/api/entity/information-objects/11111111-1111-1111-1111-111111111111");
    let (state, action) = state.on_reply(&config, Ok("<EntityResponse/>".to_string()));
    match action {
        Action::Decode(b) => assert_eq!(b, "<EntityResponse/>"),
        other => panic!("expected a decode, got {:?}", other),
    }
    let rec = RemoteEntityRecord {
        reference: "11111111-1111-1111-1111-111111111111".to_string(),
        title: "Report".to_string(),
        security_tag: "open".to_string(),
        parent: "22222222-2222-2222-2222-222222222222".to_string(),
    };
    let (state, action) = state.on_decoded(Ok(rec));
    assert!(matches!(state, Resolution::Finished));
    match action {
        Action::Finish(Ok(e)) => {
            assert_eq!(e.reference, REF);
            assert_eq!(e.title, "Report");
            assert_eq!(e.security_tag, "open");
            assert_eq!(e.parent, 0x22222222_2222_2222_2222_222222222222u128);
        }
        other => panic!("expected an entity, got {:?}", other),
    }
}

#[test]
fn missing_session_token_finishes_at_once() {
    let (state, action) = Resolution::start(REF, None);
    assert!(matches!(state, Resolution::Finished));
    match action {
        Action::Finish(Err(e)) => assert_eq!(e.kind(), ErrorKind::MissingEnvironment),
        other => panic!("expected a failure, got {:?}", other),
    }
}

#[test]
fn keyless_secret_ends_resolution() {
    let config = Config::new("https://repo.example".to_string());
    let (state, _) = Resolution::start(REF, Some("sess".to_string()));
    let (state, action) = state.on_reply(&config, Ok("{\"SecretString\":\"{}\"}".to_string()));
    assert!(matches!(state, Resolution::Finished));
    match action {
        Action::Finish(Err(e)) => assert_eq!(e.kind(), ErrorKind::MalformedSecret),
        other => panic!("expected a failure, got {:?}", other),
    }
}

#[test]
fn fetch_failure_ends_resolution() {
    let config = Config::new("https://repo.example".to_string());
    let (state, _) = Resolution::start(REF, Some("sess".to_string()));
    let secret = "{\"SecretString\":\"{\\\"alice\\\":\\\"pw\\\"}\"}".to_string();
    let (state, _) = state.on_reply(&config, Ok(secret));
    let (state, _) = state.on_reply(&config, Ok("{\"token\":\"tok\"}".to_string()));
    let (state, action) = state.on_reply(&config, Err("connection reset".to_string()));
    assert!(matches!(state, Resolution::Finished));
    match action {
        Action::Finish(Err(e)) => {
            assert_eq!(e.kind(), ErrorKind::FetchTransportError);
            assert_eq!(e.message(), "connection reset");
        }
        other => panic!("expected a failure, got {:?}", other),
    }
}

#[test]
fn tokenless_login_ends_resolution() {
    let config = Config::new("https://repo.example".to_string());
    let (state, _) = Resolution::start(REF, Some("sess".to_string()));
    let secret = "{\"SecretString\":\"{\\\"alice\\\":\\\"pw\\\"}\"}".to_string();
    let (state, _) = state.on_reply(&config, Ok(secret));
    let (state, action) = state.on_reply(&config, Ok("{\"success\":false}".to_string()));
    assert!(matches!(state, Resolution::Finished));
    match action {
        Action::Finish(Err(e)) => assert_eq!(e.kind(), ErrorKind::AuthDecodeError),
        other => panic!("expected a failure, got {:?}", other),
    }
}

#[test]
fn undecodable_envelope_ends_resolution() {
    let (state, action) = Resolution::AwaitingRecord.on_decoded(Err("expected `<`".to_string()));
    assert!(matches!(state, Resolution::Finished));
    match action {
        Action::Finish(Err(e)) => assert_eq!(e.kind(), ErrorKind::DecodeError),
        other => panic!("expected a failure, got {:?}", other),
    }
}
