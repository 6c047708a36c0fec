//! The decisions a device and a controller take around their network tasks:
//! checking Wi-Fi credentials, seeding the network stack, describing the
//! `mDNS` service, keeping the Wi-Fi connection up, publishing events and
//! receiving them.
use vstd::prelude::*;

use crate::events::{Events, EventsData};

verus! {

/// The kinds of error of a device's network tasks.
#[derive(Debug, Clone, Copy, PartialEq, Eq, Structural)]
pub enum DeviceErrorKind {
    /// Wi-Fi configuration or connection.
    WiFi,
    /// The `mDNS` service.
    MDns,
    /// An events manager without events.
    EmptyEventsManager,
    /// An operation that did not complete in time.
    Timeout,
}

/// An error of a device's network tasks: its kind and a description.
#[derive(Debug, Clone, Copy)]
pub struct DeviceError {
    /// The kind of error.
    pub kind: DeviceErrorKind,
    /// The description of the error.
    pub description: &'static str,
}

/// Checks the credentials of a Wi-Fi access point before connecting: the
/// SSID, then the password, must not be empty.
pub fn check_wifi_credentials(ssid: &str, password: &str) -> (result: Result<(), DeviceError>)
    ensures
        ssid@.len() == 0 ==> (result matches Err(e) && e.kind == DeviceErrorKind::WiFi
            && e.description@ == "Missing Wi-Fi SSID"@),
        ssid@.len() > 0 && password@.len() == 0 ==> (result matches Err(e) && e.kind
            == DeviceErrorKind::WiFi && e.description@ == "Missing Wi-Fi password"@),
        ssid@.len() > 0 && password@.len() > 0 ==> result is Ok,
{
    if ssid.is_empty() {
        return Err(DeviceError { kind: DeviceErrorKind::WiFi, description: "Missing Wi-Fi SSID" });
    }
    if password.is_empty() {
        return Err(
            DeviceError { kind: DeviceErrorKind::WiFi, description: "Missing Wi-Fi password" },
        );
    }
    Ok(())
}

/// The seed of the network stack from two random words: the first in the
/// high half, the second in the low half.
pub fn stack_seed(first: u32, second: u32) -> (seed: u64)
    ensures
        seed == first * 0x1_0000_0000 + second,
{
    let high = first as u64;
    let low = second as u64;
    assert((high << 32u64) | low == high * 0x1_0000_0000 + low) by (bit_vector)
        requires
            high < 0x1_0000_0000,
            low < 0x1_0000_0000,
    ;
    (high << 32) | low
}

/// The `mDNS` service of a device: the host it runs on and the service it
/// announces.
#[derive(Debug, Clone, Copy)]
pub struct MdnsService {
    /// The host name.
    pub hostname: &'static str,
    /// The IPv4 address of the host.
    pub ipv4: [u8; 4],
    /// The time to live of the answers, in seconds.
    pub ttl_secs: u32,
    /// The service name.
    pub name: &'static str,
    /// The service priority.
    pub priority: u16,
    /// The service weight.
    pub weight: u16,
    /// The service type.
    pub service: &'static str,
    /// The service protocol.
    pub protocol: &'static str,
    /// The port of the service, the one of the HTTP server.
    pub port: u16,
    /// The service properties.
    pub properties: &'static [(&'static str, &'static str)],
}

/// Describes the `mDNS` service of a device on the port of its server, once
/// the network stack has an IPv4 configuration.
pub fn mdns_service(
    hostname: &'static str,
    domain_name: &'static str,
    properties: &'static [(&'static str, &'static str)],
    ipv4: Option<[u8; 4]>,
    port: u16,
) -> (result: Result<MdnsService, DeviceError>)
    ensures
        match ipv4 {
            None => result matches Err(e) && e.kind == DeviceErrorKind::MDns && e.description@
                == "Unable to retrieve IPv4 configuration."@,
            Some(address) => result matches Ok(s) && s.hostname == hostname && s.ipv4 == address
                && s.ttl_secs == 60 && s.name == domain_name && s.priority == 1 && s.weight == 5
                && s.service@ == "_https"@ && s.protocol@ == "_tcp"@ && s.port == port
                && s.properties == properties,
        },
{
    match ipv4 {
        None => Err(
            DeviceError {
                kind: DeviceErrorKind::MDns,
                description: "Unable to retrieve IPv4 configuration.",
            },
        ),
        Some(address) => Ok(
            MdnsService {
                hostname,
                ipv4: address,
                ttl_secs: 60,
                name: domain_name,
                priority: 1,
                weight: 5,
                service: "_https",
                protocol: "_tcp",
                port,
                properties,
            },
        ),
    }
}

/// The seconds a device waits before it tries to reconnect to Wi-Fi.
pub const SECONDS_TO_WAIT_FOR_RECONNECTION: u64 = 5;

/// What one round of the Wi-Fi connection task does before it connects.
#[derive(Debug, Clone, Copy, PartialEq, Eq, Structural)]
pub struct ConnectionRound {
    /// Wait for the station to be disconnected, then pause.
    pub wait_for_disconnection: bool,
    /// Start the Wi-Fi controller.
    pub start: bool,
}

/// Plans one round of the Wi-Fi connection task: a connected station is
/// first waited on until it disconnects; a controller that is not known to
/// be started is started; then a connection is attempted.
///
/// `started` is what asking the controller whether it is started returned,
/// [`None`] when asking failed.
pub fn connection_round(connected: bool, started: Option<bool>) -> (round: ConnectionRound)
    ensures
        round.wait_for_disconnection == connected,
        round.start == (started != Some(true)),
{
    let start = match started {
        Some(true) => false,
        _ => true,
    };
    ConnectionRound { wait_for_disconnection: connected, start }
}

/// Whether the Wi-Fi connection task pauses after a connection attempt:
/// only when the attempt failed.
pub fn pause_after_connect(connected: bool) -> (pause: bool)
    ensures
        pause == !connected,
{
    !connected
}

/// Checks that an events manager has events before its network task runs.
pub fn check_events_present(events: &Events) -> (result: Result<(), DeviceError>)
    ensures
        events.holds_none() ==> (result matches Err(e) && e.kind
            == DeviceErrorKind::EmptyEventsManager && e.description@
            == "No events in the event manager"@),
        !events.holds_none() ==> result is Ok,
{
    if events.is_empty() {
        return Err(
            DeviceError {
                kind: DeviceErrorKind::EmptyEventsManager,
                description: "No events in the event manager",
            },
        );
    }
    Ok(())
}

/// The error of a broker connection that did not complete in time.
pub fn broker_unavailable() -> (error: DeviceError)
    ensures
        error.kind == DeviceErrorKind::Timeout,
        error.description@ == "Broker not available"@,
{
    DeviceError { kind: DeviceErrorKind::Timeout, description: "Broker not available" }
}

/// Why a broker refused a published message.
#[derive(Debug, Clone, Copy, PartialEq, Eq, Structural)]
pub enum PublishRefusal {
    /// Nobody is subscribed to the topic.
    NoMatchingSubscribers,
    /// The subscription does not exist.
    NoSubscriptionExisted,
    /// Shared subscriptions are not supported.
    SharedSubscriptionNotSupported,
    /// Any other reason.
    Other,
}

/// Whether a refusal of a published message is an error: a message nobody
/// is subscribed to is only warned about.
pub fn publish_failed(refusal: PublishRefusal) -> (failed: bool)
    ensures
        failed == (refusal == PublishRefusal::Other),
{
    match refusal {
        PublishRefusal::NoMatchingSubscribers | PublishRefusal::NoSubscriptionExisted
        | PublishRefusal::SharedSubscriptionNotSupported => false,
        PublishRefusal::Other => true,
    }
}

/// What an event receiver got from one poll of its broker connection.
#[derive(Debug)]
pub enum PollOutcome<T> {
    /// The receiver was cancelled.
    Cancelled,
    /// Polling failed.
    Failed,
    /// A packet was sent, not received.
    Outgoing,
    /// A packet other than a publication was received.
    Incoming,
    /// A publication was received: the events its payload holds, [`None`]
    /// when the payload is not a valid set of events.
    Publish(Option<T>),
}

/// What an event receiver does after a poll.
#[derive(Debug)]
pub enum ReceiverStep<T> {
    /// Stop receiving.
    Stop,
    /// Discard what was received and poll again.
    Skip,
    /// Send the events, with the identifier of their device, on to the
    /// controller, then poll again.
    Forward(usize, T),
}

/// Decides what an event receiver for the device `id` does after a poll:
/// it stops when cancelled, forwards the events of a valid publication, and
/// discards anything else.
pub fn receiver_step<T>(id: usize, outcome: PollOutcome<T>) -> (step: ReceiverStep<T>)
    ensures
        match outcome {
            PollOutcome::Cancelled => step is Stop,
            PollOutcome::Publish(Some(events)) => step matches ReceiverStep::Forward(device, e)
                && device == id && e == events,
            _ => step is Skip,
        },
{
    match outcome {
        PollOutcome::Cancelled => ReceiverStep::Stop,
        PollOutcome::Failed | PollOutcome::Outgoing | PollOutcome::Incoming => ReceiverStep::Skip,
        PollOutcome::Publish(None) => ReceiverStep::Skip,
        PollOutcome::Publish(Some(events)) => ReceiverStep::Forward(id, events),
    }
}

/// The data an event receiver forwards for a device's events.
pub fn forwarded(id: usize, events: Events) -> (data: EventsData)
    ensures
        data.device_id == id,
        data.events == events,
{
    EventsData::new(id, events)
}

/// Whether an event receiver keeps running after forwarding events: only
/// when the controller took them.
pub fn keep_receiving(sent: bool) -> (keep: bool)
    ensures
        keep == sent,
{
    sent
}

} // verus!
