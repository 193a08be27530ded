use echoloc::{
    classify_status, events_to_json, CollectorUrl, CorrelationId, EchoError, ErrKind, Event,
    EventType, Exchange, LogLevel, MessageDetail, Payload, Phase, Response, StatusClass, METHOD,
    USER_AGENT,
};

#[test]
fn absent_optional_field_is_omitted() {
    let mut e = Event::default();
    let _ = e.set_host(Some("h")).set_duration(Some(9)).set_response(Some(Response::Success));
    assert_eq!(
        e.to_json(),
        r#"{"routingKey":"","type":"INFO","message":"","host":"h","duration":9,"response":"success"}"#
    );
    let _ = e.set_host(None).set_duration(None).set_response(None);
    let text = e.to_json();
    assert_eq!(text, r#"{"routingKey":"","type":"INFO","message":""}"#);
    assert!(!text.contains("null"));
}

#[test]
fn full_event_keys_follow_schema_order() {
    let mut e = Event::default();
    let _ = e
        .set_correlation_id(Some(CorrelationId::from_octets([0; 16])))
        .set_timestamp(Some(-5))
        .set_message_detail(Some(MessageDetail::new()))
        .set_host(Some("a"))
        .set_application_version(Some("b"))
        .set_data_center(Some("c"))
        .set_client_host_name(Some("d"))
        .set_destination_host_name(Some("e"))
        .set_destination_path(Some("f"))
        .set_start_timestamp(Some(0))
        .set_finish_timestamp(Some(u64::MAX))
        .set_duration(Some(10))
        .set_duration_in_ms(Some(100))
        .set_response_code(Some(u16::MAX))
        .set_response(Some(Response::Success));
    assert_eq!(
        e.to_json(),
        r#"{"routingKey":"","type":"INFO","message":"","correlationId":"00000000-0000-0000-0000-000000000000","timestamp":-5,"messageDetail":{},"host":"a","applicationVersion":"b","dataCenter":"c","clientHostName":"d","destinationHostName":"e","destinationPath":"f","startTimestamp":0,"finishTimestamp":18446744073709551615,"duration":10,"durationInMs":100,"responseCode":65535,"response":"success"}"#
    );
}

#[test]
fn collector_urls_are_distinct_https_addresses() {
    let stage = CollectorUrl::Stage.as_str();
    let prod = CollectorUrl::Prod.as_str();
    assert_eq!(stage, "https://echocollector-stage.kroger.com/echo/messages");
    assert_eq!(prod, "https://echocollector.kroger.com/echo/messages");
    assert_ne!(stage, prod);
    for u in [stage, prod] {
        assert!(u.starts_with("https://"));
        assert!(u.ends_with("/echo/messages"));
    }
    assert_eq!(CollectorUrl::default(), CollectorUrl::Stage);
}

#[test]
fn correlation_id_is_written_in_lowercase() {
    let mut e = Event::default();
    let _ = e.set_routing_key("atlas-dev-promises");
    let _ = e.set_event_type(EventType::System);
    let _ = e.set_message("testing");
    let id = CorrelationId::parse_str("35F3E1D6-D859-4AA0-8C58-2CDFE97A4710").unwrap();
    let _ = e.set_correlation_id(Some(id));
    let _ = e.set_timestamp(Some(196300801666));
    assert_eq!(
        e.to_json(),
        r#"{"routingKey":"atlas-dev-promises","type":"SYSTEM","message":"testing","correlationId":"35f3e1d6-d859-4aa0-8c58-2cdfe97a4710","timestamp":196300801666}"#
    );
    assert_eq!(id.octets()[0], 0x35);
    assert_eq!(id.octets()[15], 0x10);
}

#[test]
fn parse_forms_of_a_uuid() {
    let simple = CorrelationId::parse_str("35f3e1d6d8594aa08c582cdfe97a4710").unwrap();
    assert_eq!(simple.to_hyphenated(), "35f3e1d6-d859-4aa0-8c58-2cdfe97a4710");
    let urn = CorrelationId::parse_str("urn:uuid:35f3e1d6-d859-4aa0-8c58-2cdfe97a4710").unwrap();
    assert_eq!(urn.octets(), simple.octets());
}

#[test]
fn malformed_uuid_is_a_parse_error() {
    let err = CorrelationId::parse_str("not-a-uuid").unwrap_err();
    assert!(matches!(err.kind(), ErrKind::ParseUuid(_)));
    assert!(err.message().starts_with("libechoexec error: invalid length"));
    assert!(CorrelationId::parse_str("").is_err());
    assert!(CorrelationId::parse_str("35F3E1D6-D859-4AA0-8C58-2CDFE97A47G0").is_err());
    assert!(CorrelationId::parse_str("35F3E1D6-D859-4AA0-8C58-2CDFE97A47\u{e9}").is_err());
    assert!(CorrelationId::parse_str("35F3E1D6-D859-4AA0-8C58-2CDFE97A47-0").is_err());
}

#[test]
fn error_messages() {
    let run = EchoError::from(ErrKind::Run);
    assert_eq!(run.description(), "libechoexec error");
    assert_eq!(run.message(), "libechoexec error: An error has occurred during run");
    let text = EchoError::from("boom");
    assert!(matches!(text.kind(), ErrKind::Str(_)));
    assert_eq!(text.message(), "libechoexec error: boom");
    let io = std::io::Error::new(std::io::ErrorKind::Other, "disk");
    assert_eq!(ErrKind::Io(io).description(), "disk");
    let wrapped = EchoError::from(std::io::Error::new(std::io::ErrorKind::Other, "full"));
    assert!(matches!(wrapped.kind(), ErrKind::Io(_)));
    assert_eq!(wrapped.message(), "libechoexec error: full");
}

#[test]
fn strings_are_escaped() {
    let mut e = Event::default();
    let _ = e.set_message("a\"b\\c\nd\te\u{1}f\u{1f}/\u{7f}é");
    assert_eq!(
        e.to_json(),
        "{\"routingKey\":\"\",\"type\":\"INFO\",\"message\":\"a\\\"b\\\\c\\nd\\te\\u0001f\\u001f/\u{7f}é\"}"
    );
    let _ = e.set_message("\u{8}\u{c}\r");
    assert_eq!(
        e.to_json(),
        r#"{"routingKey":"","type":"INFO","message":"\b\f\r"}"#
    );
}

#[test]
fn integer_extremes() {
    let mut e = Event::default();
    let _ = e.set_timestamp(Some(i64::MIN));
    assert_eq!(
        e.to_json(),
        r#"{"routingKey":"","type":"INFO","message":"","timestamp":-9223372036854775808}"#
    );
    let _ = e.set_timestamp(Some(i64::MAX));
    assert_eq!(
        e.to_json(),
        r#"{"routingKey":"","type":"INFO","message":"","timestamp":9223372036854775807}"#
    );
    let _ = e.set_timestamp(Some(0));
    assert_eq!(
        e.to_json(),
        r#"{"routingKey":"","type":"INFO","message":"","timestamp":0}"#
    );
}

#[test]
fn event_type_and_response_names() {
    let kinds = [
        (EventType::Error, "ERROR"),
        (EventType::Info, "INFO"),
        (EventType::Performance, "PERFORMANCE"),
        (EventType::Tracking, "TRACKING"),
        (EventType::System, "SYSTEM"),
    ];
    for (k, n) in kinds {
        assert_eq!(k.name(), n);
    }
    assert_eq!(EventType::default(), EventType::Info);
    assert_eq!(Response::Success.name(), "success");
    assert_eq!(Response::Failure.name(), "failure");
    assert_eq!(Response::default(), Response::Success);
}

#[test]
fn message_detail_replaces_equal_keys() {
    let mut d = MessageDetail::new();
    d.insert("x", "1");
    d.insert("y\"", "2");
    d.insert("x", "3");
    assert_eq!(d.len(), 2);
    assert_eq!(d.entry(0), ("x", "3"));
    assert_eq!(d.entry(1), ("y\"", "2"));
    let mut e = Event::default();
    let _ = e.set_message_detail(Some(d));
    assert_eq!(
        e.to_json(),
        r#"{"routingKey":"","type":"INFO","message":"","messageDetail":{"x":"3","y\"":"2"}}"#
    );
}

#[test]
fn batches_are_json_arrays() {
    assert_eq!(events_to_json(&vec![]), "[]");
    let mut a = Event::default();
    let _ = a.set_message("one");
    let mut b = Event::default();
    let _ = b.set_message("two").set_event_type(EventType::Error);
    assert_eq!(
        events_to_json(&vec![a, b]),
        r#"[{"routingKey":"","type":"INFO","message":"one"},{"routingKey":"","type":"ERROR","message":"two"}]"#
    );
}

#[test]
fn payload_request_carries_headers_and_body() {
    let mut payload: Payload<()> = Payload::default();
    assert_eq!(payload.url(), CollectorUrl::Stage);
    assert!(payload.events().is_empty());
    assert!(payload.logger().is_none());
    assert_eq!(payload.error_count(), 0);
    assert_eq!(payload.retry_count(), 0);
    let mut e = Event::default();
    let _ = e.set_message("é");
    let _ = payload.set_url(CollectorUrl::Prod).set_events(vec![e]).set_logger(Some(()));
    assert!(payload.logger().is_some());
    let req = payload.request();
    assert_eq!(METHOD, "POST");
    assert_eq!(req.url, "https://echocollector.kroger.com/echo/messages");
    assert_eq!(req.body, r#"[{"routingKey":"","type":"INFO","message":"é"}]"#);
    let expected: Vec<(String, String)> = vec![
        ("User-Agent".to_string(), USER_AGENT.to_string()),
        ("Content-Type".to_string(), "application/json".to_string()),
        ("Content-Length".to_string(), req.body.len().to_string()),
    ];
    assert_eq!(req.headers, expected);
    assert_eq!(req.headers[2].1, "48");
    assert_eq!(USER_AGENT, "echoloc/0.1.0");
}

#[test]
fn status_classes() {
    assert_eq!(classify_status(200), StatusClass::Success);
    assert_eq!(classify_status(299), StatusClass::Success);
    assert_eq!(classify_status(300), StatusClass::Unknown);
    assert_eq!(classify_status(100), StatusClass::Unknown);
    assert_eq!(classify_status(400), StatusClass::Client);
    assert_eq!(classify_status(499), StatusClass::Client);
    assert_eq!(classify_status(500), StatusClass::Server);
    assert_eq!(classify_status(599), StatusClass::Server);
    assert_eq!(classify_status(600), StatusClass::Unknown);
    assert_eq!(StatusClass::Server.word(), "Server");
}

#[test]
fn server_error_logs_class_and_body() {
    let mut x = Exchange::new();
    assert_eq!(x.phase(), Phase::Sending);
    let first = x.on_status(500, "500 Internal Server Error");
    assert_eq!(first.len(), 1);
    assert_eq!(first[0].level, LogLevel::Error);
    assert_eq!(first[0].text, "Server error sending Echo Payload: 500 Internal Server Error");
    assert_eq!(x.phase(), Phase::Draining);
    x.on_chunk(b"oo");
    x.on_chunk(b"ps");
    let second = x.on_body_end();
    assert_eq!(second.len(), 1);
    assert_eq!(second[0].level, LogLevel::Error);
    assert_eq!(second[0].text, "oops");
    assert_eq!(x.phase(), Phase::Failed);
    assert!(matches!(x.failure(), Some(ErrKind::Run)));
    assert!(x.is_finished());
    let errors: Vec<_> = first.iter().chain(second.iter()).filter(|l| l.level == LogLevel::Error).collect();
    assert_eq!(errors.iter().filter(|l| l.text.contains("Server")).count(), 1);
    assert_eq!(errors.iter().filter(|l| l.text.contains("oops")).count(), 1);
}

#[test]
fn client_error_body_is_read_lossily() {
    let mut x = Exchange::new();
    let first = x.on_status(404, "404 Not Found");
    assert_eq!(first[0].text, "Client error sending Echo Payload: 404 Not Found");
    x.on_chunk(&[b'a', 0xff, b'b']);
    let second = x.on_body_end();
    assert_eq!(second[0].text, "a\u{fffd}b");
    assert!(matches!(x.failure(), Some(ErrKind::Run)));
}

#[test]
fn success_is_traced() {
    let mut x = Exchange::new();
    let lines = x.on_status(204, "204 No Content");
    assert_eq!(lines.len(), 1);
    assert_eq!(lines[0].level, LogLevel::Trace);
    assert_eq!(lines[0].text, "Successfully sent payload to echo");
    assert_eq!(x.phase(), Phase::Delivered);
    assert!(x.on_status(500, "500 Internal Server Error").is_empty());
    assert!(x.on_body_end().is_empty());
    assert!(x.on_failure(ErrKind::Run).is_empty());
    assert_eq!(x.phase(), Phase::Delivered);
    assert!(x.failure().is_none());
}

#[test]
fn redirect_is_an_unknown_refusal() {
    let mut x = Exchange::new();
    let first = x.on_status(302, "302 Found");
    assert_eq!(first[0].text, "Unknown error sending Echo Payload: 302 Found");
    assert!(x.failure().is_none());
    x.on_chunk(b"moved");
    let second = x.on_body_end();
    assert_eq!(second[0].text, "moved");
    assert!(matches!(x.failure(), Some(ErrKind::Run)));
}

#[test]
fn transport_failure_is_absorbed() {
    let mut x = Exchange::new();
    let refused = std::io::Error::new(std::io::ErrorKind::ConnectionRefused, "connection refused");
    let lines = x.on_failure(ErrKind::Io(refused));
    assert_eq!(lines.len(), 1);
    assert_eq!(lines[0].level, LogLevel::Error);
    assert_eq!(lines[0].text, "connection refused");
    assert_eq!(x.phase(), Phase::Failed);
    assert!(matches!(x.failure(), Some(ErrKind::Io(_))));
    let mut y = Exchange::new();
    let _ = y.on_status(502, "502 Bad Gateway");
    let lines = y.on_failure(ErrKind::Io(std::io::Error::new(
        std::io::ErrorKind::ConnectionReset,
        "reset",
    )));
    assert_eq!(lines[0].text, "reset");
    assert_eq!(y.phase(), Phase::Failed);
    assert!(matches!(y.failure(), Some(ErrKind::Io(_))));
}

#[test]
fn events_compare_by_value() {
    let mut a = Event::default();
    let mut d = MessageDetail::new();
    d.insert("k", "v");
    let _ = a.set_host(Some("h")).set_message_detail(Some(d.clone()));
    let b = a.clone();
    assert!(a == b);
    let mut c = b.clone();
    let _ = c.set_host(Some("other"));
    assert!(a != c);
    let mut e = b.clone();
    let mut d2 = d.clone();
    d2.insert("k", "w");
    let _ = e.set_message_detail(Some(d2));
    assert!(a != e);
    let id = CorrelationId::from_octets([7; 16]);
    assert!(id == CorrelationId::from_octets([7; 16]));
    assert!(id != CorrelationId::from_octets([8; 16]));
    assert!(Event::default() == Event::default());
}
