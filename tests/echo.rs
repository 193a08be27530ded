use chrono::{offset::TimeZone, Utc};
use echoloc::{CorrelationId, EchoError, Event, EventType, MessageDetail, Response};

#[test]
fn serialize_default() -> Result<(), EchoError> {
    let echo_event = Event::default();
    let result = echo_event.to_json();
    assert_eq!(result, r#"{"routingKey":"","type":"INFO","message":""}"#);
    Ok(())
}

#[test]
fn with_message() -> Result<(), EchoError> {
    let mut echo_event = Event::default();
    let _ = echo_event.set_message("testing");
    let result = echo_event.to_json();
    assert_eq!(
        result,
        r#"{"routingKey":"","type":"INFO","message":"testing"}"#
    );
    Ok(())
}

#[test]
fn with_type() -> Result<(), EchoError> {
    let mut echo_event = Event::default();
    let _ = echo_event.set_event_type(EventType::Performance);
    let result = echo_event.to_json();
    assert_eq!(
        result,
        r#"{"routingKey":"","type":"PERFORMANCE","message":""}"#
    );
    Ok(())
}

#[test]
#[allow(deprecated)]
fn full() -> Result<(), EchoError> {
    let mut echo_event = Event::default();
    let _ = echo_event.set_routing_key("atlas-dev-promises");
    let _ = echo_event.set_event_type(EventType::System);
    let _ = echo_event.set_message("testing");
    let _ = echo_event.set_correlation_id(Some(CorrelationId::parse_str(
        "35F3E1D6-D859-4AA0-8C58-2CDFE97A4710",
    )?));
    let _ = echo_event.set_timestamp(Some(
        Utc.ymd(1976, 3, 22)
            .and_hms_milli(0, 0, 1, 666)
            .timestamp_millis(),
    ));
    let mut message_detail = MessageDetail::new();
    message_detail.insert("a", "b");
    let _ = echo_event.set_message_detail(Some(message_detail));
    let _ = echo_event.set_host(Some("host"));
    let _ = echo_event.set_application_version(Some("1.2.3"));
    let _ = echo_event.set_data_center(Some("cdc"));
    let _ = echo_event.set_client_host_name(Some("blah"));
    let _ = echo_event.set_destination_host_name(Some("blah1"));
    let _ = echo_event.set_destination_path(Some("yoda"));
    let _ = echo_event.set_start_timestamp(Some(1));
    let _ = echo_event.set_finish_timestamp(Some(2));
    let _ = echo_event.set_duration(Some(3));
    let _ = echo_event.set_duration_in_ms(Some(4));
    let _ = echo_event.set_response_code(Some(200));
    let _ = echo_event.set_response(Some(Response::Failure));

    let result = echo_event.to_json();
    assert_eq!(
        result,
        r#"{"routingKey":"atlas-dev-promises","type":"SYSTEM","message":"testing","correlationId":"35f3e1d6-d859-4aa0-8c58-2cdfe97a4710","timestamp":196300801666,"messageDetail":{"a":"b"},"host":"host","applicationVersion":"1.2.3","dataCenter":"cdc","clientHostName":"blah","destinationHostName":"blah1","destinationPath":"yoda","startTimestamp":1,"finishTimestamp":2,"duration":3,"durationInMs":4,"responseCode":200,"response":"failure"}"#
    );
    Ok(())
}
