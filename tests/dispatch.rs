use native_host::dispatch::{DispatchState, Dispatcher, Step};
use native_host::metrics::{BatteryStatus, Metrics};
use native_host::pressure::{Level, Reason};
use native_host::request::{parse_request, request_from_tag, Request};
use native_host::state::Response;

#[test]
fn get_state_payload_is_recognised() {
    assert_eq!(parse_request(br#"{"type":"get_state"}"#), Some(Request::GetState));
    assert_eq!(parse_request(br#" { "type" : "get_state", "extra": 1 } "#), Some(Request::GetState));
}

#[test]
fn unknown_or_malformed_payloads_are_rejected() {
    assert_eq!(parse_request(br#"{"type":"get_status"}"#), None);
    assert_eq!(parse_request(br#"{"kind":"get_state"}"#), None);
    assert_eq!(parse_request(br#"{"type":7}"#), None);
    assert_eq!(parse_request(b"not json"), None);
    assert_eq!(parse_request(b""), None);
}

#[test]
fn tags_map_to_requests() {
    assert_eq!(request_from_tag(Some("get_state")), Some(Request::GetState));
    assert_eq!(request_from_tag(Some("GET_STATE")), None);
    assert_eq!(request_from_tag(None), None);
}

#[test]
fn bad_request_then_get_state_on_same_stream() {
    let mut d = Dispatcher::new();
    match d.on_frame(br#"{"type":"bogus"}"#) {
        Step::Reply(Response::Error(m)) => assert_eq!(m, "invalid JSON request"),
        _ => panic!("expected an error reply"),
    }
    assert_eq!(d.state, DispatchState::AwaitingRequest);
    assert!(matches!(d.on_frame(br#"{"type":"get_state"}"#), Step::FetchSnapshot));
    assert_eq!(d.state, DispatchState::AwaitingRequest);
}

#[test]
fn end_of_stream_closes() {
    let mut d = Dispatcher::new();
    d.on_end_of_stream();
    assert_eq!(d.state, DispatchState::Closed);
    assert!(matches!(d.on_frame(br#"{"type":"get_state"}"#), Step::Halt));
    assert!(matches!(d.on_request(None), Step::Halt));
}

#[test]
fn snapshot_becomes_state_response() {
    let d = Dispatcher::new();
    let m = Metrics::from_memory_bytes(16000 * 1_048_576, 15500 * 1_048_576 + 12, 9500);
    assert_eq!((m.total_mb, m.used_mb, m.free_mb), (16000, 15500, 500));
    let b = BatteryStatus::new(true, 4250);
    match d.on_snapshot(&m, Some(b)) {
        Response::State(s) => {
            assert_eq!(s.ram_total_mb, 16000);
            assert_eq!(s.ram_used_mb, 15500);
            assert_eq!(s.ram_free_mb, 500);
            assert_eq!(s.cpu_usage_centi, 9500);
            assert_eq!(s.on_battery, Some(true));
            assert_eq!(s.battery_centi, Some(4250));
            assert_eq!(s.pressure_score, 100);
            assert_eq!(s.pressure_level, Level::High);
            assert_eq!(s.pressure_reasons.len(), 5);
            assert_eq!(s.pressure_reasons[4], Reason::OnBattery);
        }
        Response::Error(_) => panic!("expected a state response"),
    }
}

#[test]
fn missing_battery_gives_absent_fields() {
    let d = Dispatcher::new();
    let m = Metrics::from_memory_bytes(0, 0, 5000);
    match d.on_snapshot(&m, None) {
        Response::State(s) => {
            assert_eq!(s.on_battery, None);
            assert_eq!(s.battery_centi, None);
            assert_eq!(s.pressure_score, 0);
            assert!(s.pressure_reasons.is_empty());
        }
        Response::Error(_) => panic!("expected a state response"),
    }
}

#[test]
fn free_memory_saturates_and_charge_is_capped() {
    let m = Metrics::from_memory_bytes(1_048_576, 3 * 1_048_576, 0);
    assert_eq!((m.total_mb, m.used_mb, m.free_mb), (1, 3, 0));
    assert_eq!(BatteryStatus::new(false, 12000).charge_centi, 10000);
    assert_eq!(BatteryStatus::new(false, 9999).charge_centi, 9999);
}
