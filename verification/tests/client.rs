use prom_eagle::client::{
    interpret_response, parse_reading, process_poll_event, process_poll_event_shared, EagleClient,
    PollError, PollEvent,
};
use prom_eagle::config::Eagle;
use prom_eagle::decode::DecodeError;
use prom_eagle::registry::{MetricRegistry, SharedRegistry};
use prom_eagle::render::render_power;

fn body_with(demand: &str, multiplier: &str, divisor: &str) -> String {
    format!(
        "{{\"InstantaneousDemand\":{{\
            \"DeviceMacId\":\"0xd8d5b9000000103f\",\
            \"MeterMacId\":\"0x00135003007c27a4\",\
            \"TimeStamp\":\"0x21c7a188\",\
            \"Demand\":\"{demand}\",\
            \"Multiplier\":\"{multiplier}\",\
            \"Divisor\":\"{divisor}\",\
            \"DigitsRight\":\"3\",\
            \"DigitsLeft\":\"6\",\
            \"SuppressLeadingZero\":\"Y\"}}}}"
    )
}

#[test]
fn reading_is_parsed_from_the_response_body() {
    let body = body_with("0x00000001", "0x00000001", "0x00000384");
    let reading = parse_reading(&body).unwrap();
    assert_eq!(reading.device_mac_id, "0xd8d5b9000000103f");
    assert_eq!(reading.meter_mac_id, "0x00135003007c27a4");
    assert_eq!(reading.time_stamp, "0x21c7a188");
    assert_eq!(reading.demand, "0x00000001");
    assert_eq!(reading.multiplier, "0x00000001");
    assert_eq!(reading.divisor, "0x00000384");
    assert_eq!(reading.digits_right, "3");
    assert_eq!(reading.digits_left, "6");
    assert_eq!(reading.suppress_leading_zero, "Y");
}

#[test]
fn a_missing_field_is_a_protocol_error() {
    let body = "{\"InstantaneousDemand\":{\"Demand\":\"0x1\"}}";
    assert!(matches!(parse_reading(body), Err(PollError::Protocol)));
}

#[test]
fn a_non_string_field_is_a_protocol_error() {
    let body = body_with("0x00000001", "0x00000001", "0x00000384")
        .replace("\"DigitsRight\":\"3\"", "\"DigitsRight\":3");
    assert!(matches!(parse_reading(&body), Err(PollError::Protocol)));
}

#[test]
fn an_unparsable_body_is_a_protocol_error() {
    assert!(matches!(parse_reading("not json"), Err(PollError::Protocol)));
    assert!(matches!(parse_reading(""), Err(PollError::Protocol)));
    assert!(matches!(parse_reading("{}"), Err(PollError::Protocol)));
}

#[test]
fn a_non_success_status_is_a_protocol_error() {
    let body = body_with("0x00000001", "0x00000001", "0x00000384");
    assert_eq!(interpret_response(401, &body), Err(PollError::Protocol));
    assert_eq!(interpret_response(500, &body), Err(PollError::Protocol));
}

#[test]
fn a_successful_exchange_decodes_to_the_power() {
    let body = body_with("0x0000000A", "0x00000002", "0x000003E8");
    let p = interpret_response(200, &body).unwrap();
    assert_eq!(p.millis(), 20_000);
}

#[test]
fn bad_hex_in_a_parsed_body_is_a_decode_error() {
    let body = body_with("0xZZZZ", "0x00000001", "0x00000384");
    assert_eq!(
        interpret_response(200, &body),
        Err(PollError::Decode(DecodeError::Malformed))
    );
}

#[test]
fn failed_poll_leaves_the_registry_then_a_success_publishes() {
    let mut registry = MetricRegistry::new();

    // First cycle: the request never completes.
    let first = process_poll_event(&mut registry, PollEvent::NetworkFailure);
    assert_eq!(first, Err(PollError::Network));
    assert_eq!(registry.snapshot(), None);

    // Second cycle: 1234 * 1 * (100 / 1000) = 123.4 W.
    let body = body_with("0x4D2", "0x1", "0x64");
    let second = process_poll_event(
        &mut registry,
        PollEvent::Response { status: 200, body },
    );
    let p = second.unwrap();
    assert_eq!(p.millis(), 123_400);
    assert_eq!(p.millis() as f64 / 1000.0, 123.4);
    let published = registry.snapshot().unwrap();
    assert_eq!(published.millis(), 123_400);
    assert_eq!(render_power(published), "123.4");

    // A later failure leaves the published value in place.
    let third = process_poll_event(
        &mut registry,
        PollEvent::Response { status: 503, body: String::new() },
    );
    assert_eq!(third, Err(PollError::Protocol));
    assert_eq!(registry.snapshot().unwrap().millis(), 123_400);
}

#[test]
fn shared_polling_publishes_only_on_success() {
    let shared = SharedRegistry::new();
    let first = process_poll_event_shared(&shared, PollEvent::NetworkFailure);
    assert_eq!(first, Err(PollError::Network));
    assert_eq!(shared.snapshot(), None);

    let body = body_with("0x4D2", "0x1", "0x64");
    let second = process_poll_event_shared(&shared, PollEvent::Response { status: 200, body });
    assert_eq!(second.unwrap().millis(), 123_400);
    assert_eq!(shared.snapshot().unwrap().millis(), 123_400);
}

#[test]
fn the_poll_request_carries_the_configured_identity() {
    let client = EagleClient::new(Eagle {
        user: "someone".to_string(),
        password: "opensesame".to_string(),
        cloud_id: "cloud-17".to_string(),
        update_interval_secs: 15,
    });
    let request = client.request();
    assert_eq!(
        request.url,
        "https://rainforestcloud.com:9445/cgi-bin/post_manager"
    );
    assert_eq!(request.user, "someone");
    assert_eq!(request.password, "opensesame");
    assert_eq!(request.cloud_id, "cloud-17");
    assert_eq!(
        request.command,
        "<Command><Name>get_instantaneous_demand</Name><Format>JSON</Format></Command>"
    );
    assert_eq!(client.update_interval_secs(), 15);
}
