use allowlist::startup::{is_pong, ping_command};
use allowlist::address::normalize;
use allowlist::member_set::MemberSet;
use allowlist::pipeline::{
    map_error, prepare, respond, serve, CodedSummary, Operation, RequestError, RequestSummary,
    Status, StoreOutcome,
};

fn path(s: &str) -> Result<String, String> {
    Ok(s.to_string())
}

fn normalized(s: &str) -> String {
    match normalize(s) {
        Ok(t) => t,
        Err(e) => panic!("rejected {}: {}", s, e.description),
    }
}

#[test]
fn normalize_short_literal() {
    assert_eq!(normalized("0x1"), "0x1");
}

#[test]
fn normalize_drops_zero_padding() {
    assert_eq!(normalized("0x01"), "0x1");
    assert_eq!(normalized("0x00000000000000000000000000000001"), "0x1");
}

#[test]
fn normalize_lowers_case() {
    assert_eq!(normalized("0xAB"), "0xab");
    assert_eq!(normalized("0x00aB"), "0xab");
}

#[test]
fn normalize_full_width_without_prefix() {
    assert_eq!(normalized("000000000000000000000000000000ff"), "0xff");
    assert_eq!(normalized("10000000000000000000000000000000"), "0x10000000000000000000000000000000");
}

#[test]
fn normalize_zero() {
    assert_eq!(normalized("0x0"), "0x0");
    assert_eq!(normalized("0x"), "0x0");
}

#[test]
fn normalize_rejects_malformed() {
    for bad in ["not-an-address", "", "0X1", "0xg", "1", "0x000000000000000000000000000000001"] {
        match normalize(bad) {
            Ok(t) => panic!("accepted {} as {}", bad, t),
            Err(e) => assert_eq!(e.description, "unable to parse AccoutAddress"),
        }
    }
}

#[test]
fn check_never_added_is_not_found() {
    let mut set = MemberSet::new();
    let r = serve(Operation::Check, path("0x1"), &mut set);
    assert_eq!(r.status, Status::Success);
    assert_eq!(r.status.code(), 200);
    assert_eq!(r.summary.request_address, "0x1");
    assert_eq!(r.summary.parsed_address, Some("0x1".to_string()));
    assert_eq!(r.summary.is_allowed, Some(false));
    assert_eq!(r.summary.message, "Not found in allowlist");
    assert_eq!(set.len(), 0);
}

#[test]
fn add_then_add_again_then_check() {
    let mut set = MemberSet::new();
    let first = serve(Operation::Add, path("0x1"), &mut set);
    assert_eq!(first.status.code(), 200);
    assert_eq!(first.summary.is_allowed, Some(true));
    assert_eq!(first.summary.message, "Added to allowlist");
    let second = serve(Operation::Add, path("0x1"), &mut set);
    assert_eq!(second.status.code(), 200);
    assert_eq!(second.summary.is_allowed, Some(true));
    assert_eq!(second.summary.message, "Already allowed");
    assert_eq!(set.len(), 1);
    let check = serve(Operation::Check, path("0x1"), &mut set);
    assert_eq!(check.status.code(), 200);
    assert_eq!(check.summary.is_allowed, Some(true));
    assert_eq!(check.summary.message, "Found in allowlist");
}

#[test]
fn check_before_and_after_add() {
    let mut set = MemberSet::new();
    let before = serve(Operation::Check, path("0xbeef"), &mut set);
    assert_eq!(before.summary.is_allowed, Some(false));
    serve(Operation::Add, path("0xBEEF"), &mut set);
    let after = serve(Operation::Check, path("0x0000beef"), &mut set);
    assert_eq!(after.summary.is_allowed, Some(true));
    assert_eq!(after.summary.parsed_address, Some("0xbeef".to_string()));
}

#[test]
fn many_adds_of_one_address() {
    let mut set = MemberSet::new();
    let mut added = 0;
    for spelling in ["0x2", "0x02", "0x0002", "0x2", "00000000000000000000000000000002"] {
        let r = serve(Operation::Add, path(spelling), &mut set);
        assert_eq!(r.summary.is_allowed, Some(true));
        if r.summary.message == "Added to allowlist" {
            added += 1;
        } else {
            assert_eq!(r.summary.message, "Already allowed");
        }
    }
    assert_eq!(added, 1);
    assert_eq!(set.len(), 1);
}

#[test]
fn add_malformed_is_bad_request() {
    let mut set = MemberSet::new();
    let r = serve(Operation::Add, path("not-an-address"), &mut set);
    assert_eq!(r.status, Status::BadRequest);
    assert_eq!(r.status.code(), 400);
    assert_eq!(r.summary.request_address, "not-an-address");
    assert_eq!(r.summary.parsed_address, None);
    assert_eq!(r.summary.is_allowed, None);
    assert!(r.summary.message.contains("Could not parse address"));
    assert_eq!(set.len(), 0);
}

#[test]
fn unreadable_path_is_bad_request() {
    let r = match prepare(Err("missing segment".to_string())) {
        Ok(_) => panic!("an unreadable path was accepted"),
        Err(r) => r,
    };
    assert_eq!(r.status.code(), 400);
    assert_eq!(r.summary.request_address, "");
    assert_eq!(r.summary.parsed_address, None);
    assert_eq!(r.summary.message, "Could not parse address request path: missing segment");
}

fn prepared(raw: &str) -> allowlist::pipeline::Prepared {
    match prepare(path(raw)) {
        Ok(p) => p,
        Err(r) => panic!("rejected {}: {}", raw, r.summary.message),
    }
}

#[test]
fn check_with_store_unreachable() {
    let r = respond(
        Operation::Check,
        prepared("0x1"),
        StoreOutcome::ConnectionFailed("connection refused".to_string()),
    );
    assert_eq!(r.status, Status::InternalServerError);
    assert_eq!(r.status.code(), 500);
    assert_eq!(r.summary.request_address, "0x1");
    assert_eq!(r.summary.parsed_address, Some("0x1".to_string()));
    assert_eq!(r.summary.is_allowed, None);
    assert_eq!(r.summary.message, "Redis connection error: connection refused");
}

#[test]
fn add_with_store_unreachable() {
    let r = respond(
        Operation::Add,
        prepared("0x1"),
        StoreOutcome::ConnectionFailed("timed out".to_string()),
    );
    assert_eq!(r.status.code(), 500);
    assert_eq!(r.summary.parsed_address, Some("0x1".to_string()));
    assert_eq!(r.summary.is_allowed, None);
}

#[test]
fn failed_commands_are_server_errors() {
    let check = respond(Operation::Check, prepared("0x1"), StoreOutcome::CommandFailed("boom".to_string()));
    assert_eq!(check.status.code(), 500);
    assert_eq!(check.summary.message, "Is member lookup error: boom");
    assert_eq!(check.summary.is_allowed, None);
    let add = respond(Operation::Add, prepared("0x1"), StoreOutcome::CommandFailed("boom".to_string()));
    assert_eq!(add.status.code(), 500);
    assert_eq!(add.summary.message, "Add member error: boom");
}

#[test]
fn completed_outcomes_map_to_messages() {
    let cases = [
        (Operation::Check, true, true, "Found in allowlist"),
        (Operation::Check, false, false, "Not found in allowlist"),
        (Operation::Add, true, true, "Added to allowlist"),
        (Operation::Add, false, true, "Already allowed"),
    ];
    for (op, hit, allowed, message) in cases {
        let r = respond(op, prepared("0x3"), StoreOutcome::Completed(hit));
        assert_eq!(r.status.code(), 200);
        assert_eq!(r.summary.is_allowed, Some(allowed));
        assert_eq!(r.summary.message, message);
        assert_eq!(r.summary.parsed_address, Some("0x3".to_string()));
    }
}

#[test]
fn error_variants_statuses_and_messages() {
    let cases = [
        (RequestError::AddMember("x".to_string()), 500, "Add member error: x"),
        (RequestError::CouldNotParseAddress("x".to_string()), 400, "Could not parse address: x"),
        (
            RequestError::CouldNotParseRequestPath("x".to_string()),
            400,
            "Could not parse address request path: x",
        ),
        (RequestError::IsMemberLookup("x".to_string()), 500, "Is member lookup error: x"),
        (RequestError::RedisConnection("x".to_string()), 500, "Redis connection error: x"),
    ];
    for (error, code, message) in cases {
        assert_eq!(error.status().code(), code);
        assert_eq!(error.message(), message);
    }
}

#[test]
fn map_error_keeps_earlier_fields() {
    let summary = RequestSummary {
        request_address: "0x01".to_string(),
        parsed_address: Some("0x1".to_string()),
        is_allowed: None,
        message: String::new(),
    };
    let CodedSummary { status, summary } =
        map_error(summary, RequestError::RedisConnection("down".to_string()));
    assert_eq!(status, Status::InternalServerError);
    assert_eq!(summary.request_address, "0x01");
    assert_eq!(summary.parsed_address, Some("0x1".to_string()));
    assert_eq!(summary.is_allowed, None);
    assert_eq!(summary.message, "Redis connection error: down");
}

#[test]
fn liveness_reply() {
    assert_eq!(ping_command(), "PING");
    assert!(is_pong(&"PONG".to_string()));
    assert!(!is_pong(&"pong".to_string()));
    assert!(!is_pong(&String::new()));
}
