use coffee_server::request::parse_request;
use coffee_server::service::{response, IntoResponse, ReadOutcome, Status};

#[test]
fn ping_request_round_trips_to_ok_empty_object() {
    // The bytes of one read: preamble, blank line, `{method, data}` payload.
    let bytes = b"X\r\n\r\n{\"method\":\"Ping\",\"data\":null}";
    let req = match coffee_server::service::handle_read(bytes) {
        ReadOutcome::Dispatch(req) => req,
        _ => panic!("a well-formed call must be dispatched"),
    };
    assert_eq!(req.method, "Ping");
    assert!(req.data.is_null());
    // A handler that answers `Ping` with unit success:
    let frame = response(().into_response());
    let text = String::from_utf8(frame).unwrap();
    assert!(text.starts_with("HTTP/1.1 200 OK"));
    assert!(text.ends_with("\r\n\r\n{}"));
}

#[test]
fn missing_separator_answers_bad_request_and_stays_open() {
    let outcome = coffee_server::service::handle_read(b"{\"method\":\"Ping\"}");
    let resp = match outcome {
        ReadOutcome::Respond(resp) => resp,
        _ => panic!("a chunk without a separator earns a response"),
    };
    assert_eq!(resp.status, Status::BadRequest);
    assert!(resp.body.is_empty());
    let frame = response(resp);
    assert_eq!(
        frame,
        b"HTTP/1.1 400 Bad Request\r\nContent-Type: application/json\r\nContent-Length: 0\r\n\r\n"
            .to_vec()
    );
    // The connection stays open: the next read is handled as usual.
    let next = coffee_server::service::handle_read(b"Y\r\n\r\n{\"method\":\"Ping\"}");
    assert!(matches!(next, ReadOutcome::Dispatch(_)));
}

#[test]
fn invalid_text_answers_bad_request() {
    let outcome = coffee_server::service::handle_read(&[0xff, 13, 10, 13, 10]);
    match outcome {
        ReadOutcome::Respond(resp) => {
            assert_eq!(resp.status, Status::BadRequest);
            assert!(resp.body.is_empty());
        }
        _ => panic!("invalid text earns a response"),
    }
}

#[test]
fn undecodable_payload_aborts_the_connection() {
    let outcome = coffee_server::service::handle_read(b"X\r\n\r\nnot json at all");
    assert!(matches!(outcome, ReadOutcome::Abort));
}

#[test]
fn payload_without_method_aborts_the_connection() {
    let outcome = coffee_server::service::handle_read(b"X\r\n\r\n{\"data\":{\"id\":1}}");
    assert!(matches!(outcome, ReadOutcome::Abort));
}

#[test]
fn empty_method_aborts_the_connection() {
    let outcome = coffee_server::service::handle_read(b"X\r\n\r\n{\"method\":\"\"}");
    assert!(matches!(outcome, ReadOutcome::Abort));
}

#[test]
fn zero_length_read_closes_normally() {
    let outcome = coffee_server::service::handle_read(b"");
    assert!(matches!(outcome, ReadOutcome::Close));
}

#[test]
fn data_defaults_to_null_when_absent() {
    let req = parse_request(b"{\"method\":\"GetRandomCoffee\"}").unwrap();
    assert_eq!(req.method, "GetRandomCoffee");
    assert!(req.data.is_null());
}

#[test]
fn structured_data_is_carried_through() {
    let req = parse_request(b"{\"method\":\"GrabId\",\"data\":{\"roastery\":\"a\"}}").unwrap();
    assert_eq!(req.method, "GrabId");
    assert_eq!(req.data["roastery"], "a");
}

#[test]
fn non_object_payload_is_rejected() {
    assert!(parse_request(b"[1,2,3]").is_err());
    assert!(parse_request(b"\"method\"").is_err());
    assert!(parse_request(b"{\"method\":5}").is_err());
}

#[test]
fn concurrent_connections_keep_their_responses_apart() {
    // Two connections interleaved step by step: each one's response
    // bytes depend only on that connection's own reads.
    let a_bytes = b"A\r\n\r\n{\"method\":\"Ping\"}";
    let b_bytes = b"no separator";
    let a_first = coffee_server::service::handle_read(a_bytes);
    let b_first = coffee_server::service::handle_read(b_bytes);
    let a_second = coffee_server::service::handle_read(a_bytes);
    assert!(matches!(a_first, ReadOutcome::Dispatch(_)));
    assert!(matches!(b_first, ReadOutcome::Respond(_)));
    // Connection A's frame after B was served equals A's frame served alone.
    let alone = response(().into_response());
    let interleaved = response(().into_response());
    assert_eq!(alone, interleaved);
    assert!(matches!(a_second, ReadOutcome::Dispatch(_)));
}

#[test]
fn timed_out_handler_then_next_request_proceeds() {
    // A handler past its deadline earns the timeout response ...
    let resp = coffee_server::service::resolve_dispatch(None);
    let frame = response(resp);
    let text = String::from_utf8(frame).unwrap();
    assert!(text.starts_with("HTTP/1.1 500 Internal Server Error"));
    assert!(text.ends_with("\r\n\r\ntimeout"));
    // ... and the connection handles the next request normally.
    let next = coffee_server::service::handle_read(b"X\r\n\r\n{\"method\":\"Ping\"}");
    assert!(matches!(next, ReadOutcome::Dispatch(_)));
}
