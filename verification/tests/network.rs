use ascot::events::{Event, Events};
use ascot::network::{
    broker_unavailable, check_events_present, forwarded, check_wifi_credentials, connection_round,
    keep_receiving, mdns_service, pause_after_connect, publish_failed, receiver_step,
    stack_seed, DeviceErrorKind, PollOutcome, PublishRefusal, ReceiverStep,
};

#[test]
fn wifi_credentials() {
    let error = check_wifi_credentials("", "secret").unwrap_err();
    assert_eq!(error.kind, DeviceErrorKind::WiFi);
    assert_eq!(error.description, "Missing Wi-Fi SSID");
    let error = check_wifi_credentials("home", "").unwrap_err();
    assert_eq!(error.description, "Missing Wi-Fi password");
    assert!(check_wifi_credentials("home", "secret").is_ok());
}

#[test]
fn seed_from_two_words() {
    assert_eq!(stack_seed(1, 2), (1u64 << 32) | 2);
    assert_eq!(stack_seed(u32::MAX, u32::MAX), u64::MAX);
    assert_eq!(stack_seed(0, 0), 0);
}

static PROPERTIES: [(&str, &str); 1] = [("scheme", "http")];

#[test]
fn mdns_description() {
    let error = mdns_service("ascot", "ascot", &PROPERTIES, None, 80).unwrap_err();
    assert_eq!(error.kind, DeviceErrorKind::MDns);
    assert_eq!(error.description, "Unable to retrieve IPv4 configuration.");
    let service = mdns_service("lamp", "light", &PROPERTIES, Some([192, 168, 1, 4]), 8080).unwrap();
    assert_eq!(service.hostname, "lamp");
    assert_eq!(service.ipv4, [192, 168, 1, 4]);
    assert_eq!(service.ttl_secs, 60);
    assert_eq!(service.name, "light");
    assert_eq!(service.priority, 1);
    assert_eq!(service.weight, 5);
    assert_eq!(service.service, "_https");
    assert_eq!(service.protocol, "_tcp");
    assert_eq!(service.port, 8080);
    assert_eq!(service.properties.len(), 1);
}

#[test]
fn wifi_connection_rounds() {
    let round = connection_round(true, Some(true));
    assert!(round.wait_for_disconnection);
    assert!(!round.start);
    let round = connection_round(false, Some(false));
    assert!(!round.wait_for_disconnection);
    assert!(round.start);
    assert!(connection_round(false, None).start);
    assert!(pause_after_connect(false));
    assert!(!pause_after_connect(true));
}

#[test]
fn events_manager_needs_events() {
    let error = check_events_present(&Events::empty()).unwrap_err();
    assert_eq!(error.kind, DeviceErrorKind::EmptyEventsManager);
    assert_eq!(error.description, "No events in the event manager");
    let mut events = Events::empty();
    events.add_u8_event(Event::u8("level"));
    assert!(check_events_present(&events).is_ok());
    let error = broker_unavailable();
    assert_eq!(error.kind, DeviceErrorKind::Timeout);
    assert_eq!(error.description, "Broker not available");
}

#[test]
fn publishing_refusals() {
    assert!(!publish_failed(PublishRefusal::NoMatchingSubscribers));
    assert!(!publish_failed(PublishRefusal::NoSubscriptionExisted));
    assert!(!publish_failed(PublishRefusal::SharedSubscriptionNotSupported));
    assert!(publish_failed(PublishRefusal::Other));
}

#[test]
fn receiver_steps() {
    assert!(matches!(receiver_step::<Events>(1, PollOutcome::Cancelled), ReceiverStep::Stop));
    assert!(matches!(receiver_step::<Events>(1, PollOutcome::Failed), ReceiverStep::Skip));
    assert!(matches!(receiver_step::<Events>(1, PollOutcome::Outgoing), ReceiverStep::Skip));
    assert!(matches!(receiver_step::<Events>(1, PollOutcome::Incoming), ReceiverStep::Skip));
    assert!(matches!(receiver_step::<Events>(1, PollOutcome::Publish(None)), ReceiverStep::Skip));
    match receiver_step(7, PollOutcome::Publish(Some(Events::empty()))) {
        ReceiverStep::Forward(id, events) => {
            assert_eq!(id, 7);
            let data = forwarded(id, events);
            assert_eq!(data.device_id, 7);
            assert!(data.events.is_empty());
        }
        other => panic!("unexpected {other:?}"),
    }
    assert!(keep_receiving(true));
    assert!(!keep_receiving(false));
}
