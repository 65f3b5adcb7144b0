//! The bus: routing by contract, correlation, timeouts, and the
//! exactly-once delivery of responses.

use ripple_gateway::caps::CapsRequest;
use ripple_gateway::device_info_request::DeviceInfoRequest;
use ripple_gateway::device_request::DeviceRequest;
use ripple_gateway::extn_client::{ExtnClient, RespondOutcome, DEFAULT_EXTN_TIMEOUT_MS};
use ripple_gateway::extn_client_message::{ExtnEvent, ExtnRequest, ExtnStatus};
use ripple_gateway::ripple_contract::RippleContract;
use ripple_gateway::RippleError;

fn device_info_request() -> ExtnRequest {
    ExtnRequest::Device(DeviceRequest::DeviceInfo(DeviceInfoRequest::GetTimezone))
}

#[test]
fn send_without_provider_fails_with_no_contract() {
    let mut client = ExtnClient::new();
    let r = client.send_extn_request("main".to_string(), device_info_request(), 0);
    assert!(matches!(r, Err(RippleError::NoContract)));
}

#[test]
fn response_is_delivered_exactly_once() {
    let mut client = ExtnClient::new();
    client.register(&"device_extn".to_string(), &vec![RippleContract::DeviceInfo]);
    let msg = client
        .send_extn_request("main".to_string(), device_info_request(), 0)
        .unwrap();
    assert_eq!(msg.callback, Some(msg.id));
    assert!(matches!(msg.target, RippleContract::DeviceInfo));
    // first response reaches the one-shot and removes the entry
    assert!(matches!(client.respond(msg.id), RespondOutcome::Delivered));
    // a duplicate response finds nothing and is dropped
    assert!(matches!(client.respond(msg.id), RespondOutcome::UnknownId));
}

#[test]
fn unknown_correlation_id_is_dropped() {
    let mut client = ExtnClient::new();
    assert!(matches!(client.respond(42), RespondOutcome::UnknownId));
}

#[test]
fn correlation_timeout_then_recovery() {
    let mut client = ExtnClient::new();
    client.register(&"device_extn".to_string(), &vec![RippleContract::DeviceInfo]);
    let msg = client
        .send_extn_request("main".to_string(), device_info_request(), 0)
        .unwrap();
    // nothing expires before the deadline
    assert!(client.reap_expired(DEFAULT_EXTN_TIMEOUT_MS - 1).is_empty());
    // at the deadline the entry is reaped and completed with a timeout
    let expired = client.reap_expired(DEFAULT_EXTN_TIMEOUT_MS);
    assert_eq!(expired, vec![msg.id]);
    assert!(matches!(client.respond(msg.id), RespondOutcome::UnknownId));
    // the bus is not corrupted: a later request succeeds
    let msg2 = client
        .send_extn_request("main".to_string(), device_info_request(), 10_000)
        .unwrap();
    assert_ne!(msg2.id, msg.id);
    assert!(matches!(client.respond(msg2.id), RespondOutcome::Delivered));
}

#[test]
fn per_contract_timeout_overrides_default() {
    let mut client = ExtnClient::new();
    client.register(&"device_extn".to_string(), &vec![RippleContract::DeviceInfo]);
    client.set_timeout(RippleContract::DeviceInfo, 1000);
    let msg = client
        .send_extn_request("main".to_string(), device_info_request(), 0)
        .unwrap();
    assert!(client.reap_expired(999).is_empty());
    assert_eq!(client.reap_expired(1000), vec![msg.id]);
}

#[test]
fn last_registration_wins() {
    let mut client = ExtnClient::new();
    client.register(&"first".to_string(), &vec![RippleContract::Caps]);
    client.register(&"second".to_string(), &vec![RippleContract::Caps]);
    assert_eq!(client.route_for(RippleContract::Caps).unwrap(), "second");
    // the displaced holder no longer receives traffic; other contracts untouched
    assert!(client.route_for(RippleContract::Wifi).is_none());
}

#[test]
fn events_are_fire_and_forget() {
    let mut client = ExtnClient::new();
    client.register(&"events".to_string(), &vec![RippleContract::DeviceEvents]);
    let msg = client
        .event(
            "device_extn".to_string(),
            ExtnEvent::Status(ExtnStatus::Ready),
        )
        .unwrap();
    assert!(msg.callback.is_none());
    assert_eq!(msg.id, 0);
    assert!(matches!(msg.target, RippleContract::DeviceEvents));
}

#[test]
fn transient_requests_install_no_correlation_entry() {
    let mut client = ExtnClient::new();
    client.register(&"caps".to_string(), &vec![RippleContract::Caps]);
    let msg = client
        .request_transient(
            "main".to_string(),
            ExtnRequest::AuthorizedInfo(CapsRequest::Supported(vec![])),
        )
        .unwrap();
    // the response to a transient request is discarded as unknown
    assert!(matches!(client.respond(msg.id), RespondOutcome::UnknownId));
}
