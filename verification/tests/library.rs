use spotflow::dispatch::build_response;
use spotflow::dispatch::method_outcome;
use spotflow::dispatch::worker_response;
use spotflow::dispatch::HandlerExecution;
use spotflow::dispatch::MethodError;
use spotflow::dispatch::MethodReturnValue;
use spotflow::dispatch::ResponseBody;
use spotflow::lease::CloudToDeviceMessage;
use spotflow::lease::CloudToDeviceMessageGuard;
use spotflow::lease::ConsumerAcks;
use spotflow::queue::BoundedQueue;
use spotflow::queue::TrySendOutcome;
use spotflow::remote_access::remote_access_method_name;
use spotflow::remote_access::RemoteAccessMethodHandler;
use spotflow::session::handshake_step;
use spotflow::session::local_to_remote_step;
use spotflow::session::remote_to_local_step;
use spotflow::session::Frame;
use spotflow::session::HandshakeAction;
use spotflow::session::HandshakeEvent;
use spotflow::session::HandshakeState;
use spotflow::session::LegOutcome;
use spotflow::session::LocalToRemoteStep;
use spotflow::session::RemoteToLocalStep;
use spotflow::topic::methods_prefix_str;
use spotflow::topic::parse_method_topic;
use spotflow::tunnel::connect_admission;
use spotflow::tunnel::ConnectionError;
use spotflow::tunnel::TunnelTable;

#[test]
fn prefix_is_the_method_topic_prefix() {
    assert_eq!(methods_prefix_str(), "$iothub/methods/POST/");
    assert_eq!(remote_access_method_name(), "!remote-access");
}

#[test]
fn topic_parsing_recovers_method_with_separators() {
    let parsed = parse_method_topic("$iothub/methods/POST/outer/inner/method/?$rid=abc123")
        .expect("topic should parse");
    assert_eq!(parsed.method_name, "outer/inner/method");
    assert_eq!(parsed.request_id, "abc123");
}

#[test]
fn topic_parsing_simple_method() {
    let parsed = parse_method_topic("$iothub/methods/POST/ping/?$rid=1").expect("should parse");
    assert_eq!(parsed.method_name, "ping");
    assert_eq!(parsed.request_id, "1");
}

#[test]
fn topic_parsing_property_order_is_irrelevant() {
    let a = parse_method_topic("$iothub/methods/POST/m/?foo=1&$rid=9").expect("should parse");
    let b = parse_method_topic("$iothub/methods/POST/m/?$rid=9&foo=1").expect("should parse");
    assert_eq!(a.request_id, "9");
    assert_eq!(b.request_id, "9");
    assert_eq!(a.method_name, "m");
    assert_eq!(b.method_name, "m");
}

#[test]
fn topic_parsing_requires_unique_rid() {
    assert!(parse_method_topic("$iothub/methods/POST/m/?$rid=1&$rid=2").is_none());
}

#[test]
fn topic_parsing_rejects_missing_rid() {
    assert!(parse_method_topic("$iothub/methods/POST/m/?foo=1").is_none());
    assert!(parse_method_topic("$iothub/methods/POST/m/?$rid").is_none());
}

#[test]
fn topic_parsing_rejects_malformed_topics() {
    assert!(parse_method_topic("$iothub/methods/POST/m").is_none());
    assert!(parse_method_topic("$iothub/methods/POST/m/x$rid=1").is_none());
    assert!(parse_method_topic("$iothub/twin/POST/m/?$rid=1").is_none());
    assert!(parse_method_topic("short").is_none());
}

#[test]
fn topic_parsing_value_keeps_embedded_equals() {
    let parsed = parse_method_topic("$iothub/methods/POST/m/?$rid=a=b").expect("should parse");
    assert_eq!(parsed.request_id, "a=b");
}

#[test]
fn missing_handler_is_404() {
    let r = method_outcome(HandlerExecution::Completed(None));
    match r {
        Err(e) => {
            assert_eq!(e.status_code, 404);
            assert_eq!(e.message, "No handler found");
        }
        Ok(_) => panic!("expected an error"),
    }
}

#[test]
fn unknown_panic_is_500() {
    let r = method_outcome(HandlerExecution::Panicked(None));
    match r {
        Err(e) => {
            assert_eq!(e.status_code, 500);
            assert_eq!(e.message, "Unknown panic");
        }
        Ok(_) => panic!("expected an error"),
    }
}

#[test]
fn panicking_handler_yields_500_body_with_text() {
    let outcome = method_outcome(HandlerExecution::Panicked(Some(String::from("kaput"))));
    let resp = build_response(String::from("rid-7"), outcome);
    assert_eq!(resp.status_code, 500);
    assert_eq!(resp.correlation_id, "rid-7");
    assert!(!resp.retain);
    match resp.body {
        ResponseBody::ErrorDetail(s) => {
            assert_eq!(s, "{\"detail\":\"Panic: kaput\"}");
            assert!(s.contains("kaput"));
        }
        ResponseBody::Success(_) => panic!("expected an error body"),
    }
}

#[test]
fn successful_handler_yields_exact_body_bytes() {
    let outcome = HandlerExecution::Completed(Some(Ok(MethodReturnValue::new(
        200,
        Some(vec![1u8, 2, 3]),
    ))));
    let resp = build_response(String::from("c1"), method_outcome(outcome));
    assert_eq!(resp.status_code, 200);
    assert_eq!(resp.correlation_id, "c1");
    match resp.body {
        ResponseBody::Success(b) => assert_eq!(b, vec![1u8, 2, 3]),
        ResponseBody::ErrorDetail(_) => panic!("expected a success body"),
    }
}

#[test]
fn successful_handler_without_body_yields_empty_body() {
    let outcome = HandlerExecution::Completed(Some(Ok(MethodReturnValue::new(200, None))));
    let resp = build_response(String::from("c2"), method_outcome(outcome));
    match resp.body {
        ResponseBody::Success(b) => assert!(b.is_empty()),
        ResponseBody::ErrorDetail(_) => panic!("expected a success body"),
    }
}

#[test]
fn error_body_is_json_escaped() {
    let outcome = Err(MethodError::new(400, String::from("a\"b\\c\nd\u{1}e")));
    let resp = build_response(String::from("c3"), outcome);
    match resp.body {
        ResponseBody::ErrorDetail(s) => {
            assert_eq!(s, "{\"detail\":\"a\\\"b\\\\c\\nd\\u0001e\"}");
        }
        ResponseBody::Success(_) => panic!("expected an error body"),
    }
}

#[test]
fn worker_answers_missing_handler_with_404_detail() {
    let resp = worker_response(String::from("r9"), HandlerExecution::Completed(None));
    assert_eq!(resp.status_code, 404);
    assert_eq!(resp.correlation_id, "r9");
    assert!(!resp.retain);
    match resp.body {
        ResponseBody::ErrorDetail(s) => assert_eq!(s, "{\"detail\":\"No handler found\"}"),
        ResponseBody::Success(_) => panic!("expected an error body"),
    }
}

#[test]
fn queue_beyond_capacity_accepts_exactly_capacity() {
    let mut q: BoundedQueue<u32> = BoundedQueue::new(50);
    let mut accepted = 0;
    let mut dropped = 0;
    for i in 0..51u32 {
        match q.try_send(i) {
            TrySendOutcome::Accepted => accepted += 1,
            TrySendOutcome::Full(item) => {
                assert_eq!(item, i);
                dropped += 1;
            }
            TrySendOutcome::Disconnected(_) => panic!("queue is connected"),
        }
    }
    assert_eq!(accepted, 50);
    assert_eq!(dropped, 1);
    for i in 0..50u32 {
        assert_eq!(q.receive(), Some(i));
    }
    assert_eq!(q.receive(), None);
}

#[test]
fn queue_is_fifo_and_reports_disconnect() {
    let mut q: BoundedQueue<u32> = BoundedQueue::new(2);
    assert!(matches!(q.try_send(1), TrySendOutcome::Accepted));
    assert!(matches!(q.try_send(2), TrySendOutcome::Accepted));
    assert!(matches!(q.try_send(3), TrySendOutcome::Full(3)));
    assert_eq!(q.receive(), Some(1));
    assert_eq!(q.receive(), Some(2));
    q.disconnect();
    assert!(matches!(q.try_send(4), TrySendOutcome::Disconnected(4)));
}

#[test]
fn second_connect_for_live_tunnel_is_rejected() {
    // No entry at all: admitted.
    assert!(connect_admission(false, false, 7).is_none());
    // Entry whose session finished: admitted (lazy overwrite).
    assert!(connect_admission(true, true, 7).is_none());
    // Entry whose session is still live: rejected with the identity.
    match connect_admission(true, false, 7) {
        Some(ConnectionError::PreviousAttemptStillActive(id)) => assert_eq!(id, 7),
        _ => panic!("expected a still-active rejection"),
    }
}

#[test]
fn tunnel_table_tracks_one_entry_per_identity() {
    let mut table: TunnelTable<String> = TunnelTable::new();
    assert!(table.find(7).is_none());
    table.upsert(7, String::from("first"));
    table.upsert(9, String::from("other"));
    assert_eq!(table.find(7), Some(&String::from("first")));
    table.upsert(7, String::from("second"));
    assert_eq!(table.find(7), Some(&String::from("second")));
    assert_eq!(table.find(9), Some(&String::from("other")));
    assert!(table.find(8).is_none());
    let mut all = table.take_all();
    all.sort();
    let ids: Vec<u128> = all.iter().map(|e| e.0).collect();
    assert_eq!(ids, vec![7, 9]);
    assert!(table.find(7).is_none());
}

#[test]
fn refused_local_port_never_reaches_remote_leg() {
    let (s1, a1) = handshake_step(HandshakeState::Start, HandshakeEvent::Begin);
    assert!(matches!(s1, HandshakeState::ConnectingLocal));
    assert!(matches!(a1, HandshakeAction::ConnectLocal { timeout_secs: 5 }));
    let (s2, a2) = handshake_step(
        s1,
        HandshakeEvent::LocalLeg(LegOutcome::Failed(String::from("connection refused"))),
    );
    assert!(matches!(s2, HandshakeState::Ended));
    match a2 {
        HandshakeAction::ReportFailure(ConnectionError::TargetPortConnectionFailed(c)) => {
            assert_eq!(c, "connection refused");
        }
        _ => panic!("expected a target-port failure report"),
    }
    // The session is over: no later event produces any action.
    let (s3, a3) = handshake_step(s2, HandshakeEvent::RemoteLeg(LegOutcome::Connected));
    assert!(matches!(s3, HandshakeState::Ended));
    assert!(matches!(a3, HandshakeAction::Idle));
}

#[test]
fn local_timeout_reports_target_port_failure() {
    let (_, action) = handshake_step(
        HandshakeState::ConnectingLocal,
        HandshakeEvent::LocalLeg(LegOutcome::TimedOut),
    );
    match action {
        HandshakeAction::ReportFailure(ConnectionError::TargetPortConnectionFailed(c)) => {
            assert_eq!(c, "Connection to target port timed out.");
        }
        _ => panic!("expected a target-port failure report"),
    }
}

#[test]
fn successful_handshake_connects_local_then_remote() {
    let (s1, _) = handshake_step(HandshakeState::Start, HandshakeEvent::Begin);
    let (s2, a2) = handshake_step(s1, HandshakeEvent::LocalLeg(LegOutcome::Connected));
    assert!(matches!(s2, HandshakeState::ConnectingRemote));
    assert!(matches!(a2, HandshakeAction::ConnectRemote { timeout_secs: 20 }));
    let (s3, a3) = handshake_step(s2, HandshakeEvent::RemoteLeg(LegOutcome::Connected));
    assert!(matches!(s3, HandshakeState::Established));
    assert!(matches!(a3, HandshakeAction::ReportSuccess));
}

#[test]
fn remote_timeout_reports_server_failure() {
    let (_, action) = handshake_step(
        HandshakeState::ConnectingRemote,
        HandshakeEvent::RemoteLeg(LegOutcome::TimedOut),
    );
    match action {
        HandshakeAction::ReportFailure(ConnectionError::ServerConnectionFailed(c)) => {
            assert_eq!(c, "Connection to WebSocket timed out.");
        }
        _ => panic!("expected a server failure report"),
    }
}

#[test]
fn forwarding_sends_hello_then_close_and_writes_world() {
    // local -> remote: the bytes of "hello" become one binary frame.
    match local_to_remote_step(b"hello".to_vec()) {
        LocalToRemoteStep::Send(Frame::Binary(d)) => assert_eq!(d, b"hello".to_vec()),
        _ => panic!("expected a binary frame"),
    }
    // A zero-length read closes the remote leg.
    assert!(matches!(
        local_to_remote_step(Vec::new()),
        LocalToRemoteStep::SendCloseAndStop
    ));
    // remote -> local: "world" reaches the local socket unchanged.
    match remote_to_local_step(Frame::Binary(b"world".to_vec())) {
        RemoteToLocalStep::Forward(d) => assert_eq!(d, b"world".to_vec()),
        _ => panic!("expected forwarded bytes"),
    }
    match remote_to_local_step(Frame::Text(b"tx".to_vec())) {
        RemoteToLocalStep::Forward(d) => assert_eq!(d, b"tx".to_vec()),
        _ => panic!("expected forwarded bytes"),
    }
    assert!(matches!(remote_to_local_step(Frame::Close), RemoteToLocalStep::Stop));
    assert!(matches!(remote_to_local_step(Frame::Control), RemoteToLocalStep::Ignore));
}

#[test]
fn lease_release_acknowledges_exactly_once() {
    let mut consumer = ConsumerAcks::new();
    let guard = CloudToDeviceMessageGuard::new(CloudToDeviceMessage {
        id: 42,
        content: b"payload".to_vec(),
    });
    assert_eq!(guard.message().content, b"payload".to_vec());
    let msg = guard.release(&mut consumer);
    assert_eq!(msg.id, 42);
    assert_eq!(consumer.acked_count(), 1);
    assert_eq!(consumer.acked_id_at(0), 42);
}

#[test]
fn lease_release_acknowledges_even_when_never_read() {
    let mut consumer = ConsumerAcks::new();
    let guard = CloudToDeviceMessageGuard::new(CloudToDeviceMessage {
        id: 9,
        content: Vec::new(),
    });
    let _ = guard.release(&mut consumer);
    assert_eq!(consumer.acked_count(), 1);
    assert_eq!(consumer.acked_id_at(0), 9);
}

#[test]
fn remote_access_request_parses_into_details() {
    let handler = RemoteAccessMethodHandler::new();
    let payload = "{\"tunnelId\":\"550e8400-e29b-41d4-a716-446655440000\",\"port\":8080,\
                   \"tunnelSecureUri\":\"wss://example.com/tunnel\",\
                   \"traceparentHeader\":\"00-abc-def-01\"}";
    let details = handler
        .prepare_request(payload.as_bytes())
        .expect("payload should be accepted");
    let expected = uuid::Uuid::parse_str("550e8400-e29b-41d4-a716-446655440000")
        .unwrap()
        .as_u128();
    assert_eq!(details.tunnel_id, expected);
    assert_eq!(details.target_port, 8080);
    assert_eq!(details.tunnel_secure_uri, "wss://example.com/tunnel");
    assert_eq!(details.traceparent_header, Some(String::from("00-abc-def-01")));
}

#[test]
fn remote_access_request_null_traceparent_is_absent() {
    let handler = RemoteAccessMethodHandler::new();
    let payload = "{\"tunnelId\":\"550e8400-e29b-41d4-a716-446655440000\",\"port\":1,\
                   \"tunnelSecureUri\":\"wss://example.com/t\",\"traceparentHeader\":null}";
    let details = handler
        .prepare_request(payload.as_bytes())
        .expect("payload should be accepted");
    assert_eq!(details.traceparent_header, None);
}

#[test]
fn remote_access_rejects_invalid_payloads() {
    let handler = RemoteAccessMethodHandler::new();
    for bad in [
        &b"not json"[..],
        b"{\"port\":1,\"tunnelSecureUri\":\"wss://example.com\"}",
        b"{\"tunnelId\":\"not-a-uuid\",\"port\":1,\"tunnelSecureUri\":\"wss://example.com\"}",
        b"{\"tunnelId\":\"550e8400-e29b-41d4-a716-446655440000\",\"port\":70000,\
          \"tunnelSecureUri\":\"wss://example.com\"}",
    ] {
        match handler.prepare_request(bad) {
            Err(e) => {
                assert_eq!(e.status_code, 400);
                assert_eq!(e.message, "Invalid payload");
            }
            Ok(_) => panic!("payload should be rejected"),
        }
    }
}

#[test]
fn remote_access_rejects_invalid_uri() {
    let handler = RemoteAccessMethodHandler::new();
    let payload = "{\"tunnelId\":\"550e8400-e29b-41d4-a716-446655440000\",\"port\":1,\
                   \"tunnelSecureUri\":\"ht tp://bad uri\"}";
    match handler.prepare_request(payload.as_bytes()) {
        Err(e) => {
            assert_eq!(e.status_code, 400);
            assert_eq!(e.message, "Invalid tunnel secure URI");
        }
        Ok(_) => panic!("uri should be rejected"),
    }
}

#[test]
fn connect_outcomes_map_to_status_codes() {
    let handler = RemoteAccessMethodHandler::new();
    match handler.connect_response(Ok(())) {
        Ok(v) => {
            assert_eq!(v.status_code, 200);
            assert!(v.body.is_none());
        }
        Err(_) => panic!("expected success"),
    }
    match handler.connect_response(Err(ConnectionError::PreviousAttemptStillActive(1))) {
        Err(e) => {
            assert_eq!(e.status_code, 409);
            assert_eq!(e.message, "Previous attempt still active.");
        }
        Ok(_) => panic!("expected an error"),
    }
    match handler.connect_response(Err(ConnectionError::TargetPortConnectionFailed(
        String::from("refused"),
    ))) {
        Err(e) => {
            assert_eq!(e.status_code, 500);
            assert_eq!(e.message, "Failed to connect to target port: refused");
        }
        Ok(_) => panic!("expected an error"),
    }
    match handler.connect_response(Err(ConnectionError::ServerConnectionFailed(String::from(
        "handshake failed",
    )))) {
        Err(e) => {
            assert_eq!(e.status_code, 500);
            assert_eq!(e.message, "Failed to connect to remote server: handshake failed");
        }
        Ok(_) => panic!("expected an error"),
    }
}
