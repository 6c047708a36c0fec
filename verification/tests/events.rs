use std::time::Duration;

use ascot::events::{Event, Events, EventsData, PeriodicEvent, Topic};

#[test]
fn event_constructors() {
    let event = Event::bool("door").description("Door opened");
    assert_eq!(event.name, "door");
    assert_eq!(event.description, Some("Door opened"));
    assert!(!event.value);
    let mut level = Event::u8("level").description("Water level");
    assert_eq!(level.value, 0);
    level.remove_description();
    assert_eq!(level.description, None);
    level.update_value(7);
    assert_eq!(level.value, 7);
    let periodic = PeriodicEvent::u8(level, Duration::from_secs(3));
    assert_eq!(periodic.interval, Duration::from_secs(3));
    assert_eq!(periodic.event.value, 7);
    let periodic = PeriodicEvent::bool(Event::bool("motion"), Duration::from_millis(500));
    assert_eq!(periodic.event.name, "motion");
}

#[test]
fn topics() {
    assert_eq!(Topic::empty().as_str(), "");
    assert_eq!(Topic::new("light/events".into()).as_str(), "light/events");
}

#[test]
fn events_collection() {
    let mut events = Events::empty();
    assert!(events.is_empty());
    events.add_bool_event(Event::bool("a"));
    events.add_u8_event(Event::u8("b"));
    events.add_periodic_bool_event(PeriodicEvent::bool(Event::bool("c"), Duration::from_secs(1)));
    events.add_periodic_u8_event(PeriodicEvent::u8(Event::u8("d"), Duration::from_secs(2)));
    assert!(!events.is_empty());
    events.update_bool_value(0, true);
    events.update_u8_value(0, 9);
    events.update_periodic_bool_value(0, true);
    events.update_periodic_u8_value(0, 4);
    assert!(events.bool_events_as_slice()[0].value);
    assert_eq!(events.u8_events_as_slice()[0].value, 9);
    assert!(events.periodic_bool_events_as_slice()[0].event.value);
    assert_eq!(events.periodic_u8_events_as_slice()[0].event.value, 4);
    assert_eq!(events.periodic_u8_events_as_slice()[0].interval, Duration::from_secs(2));
}

#[test]
fn events_builders_add_sequences() {
    let events = Events::with_capacity(4)
        .bool_events(vec![Event::bool("x"), Event::bool("y")])
        .u8_events(vec![Event::u8("z")])
        .periodic_bool_events(vec![])
        .periodic_u8_events(vec![PeriodicEvent::u8(Event::u8("w"), Duration::from_secs(1))]);
    assert_eq!(events.bool_events_as_slice().len(), 2);
    assert_eq!(events.u8_events_as_slice()[0].name, "z");
    assert!(events.periodic_bool_events_as_slice().is_empty());
    assert_eq!(events.periodic_u8_events_as_slice().len(), 1);
}

#[test]
fn an_event_name_is_registered_once() {
    let mut events = Events::empty();
    assert_eq!(events.bool_event_slot("door"), Some(0));
    events.add_bool_event(Event::bool("door"));
    assert_eq!(events.bool_event_slot("door"), None);
    assert_eq!(events.bool_event_slot("window"), Some(1));
    assert_eq!(events.u8_event_slot("door"), Some(0));
    events.add_periodic_u8_event(PeriodicEvent::u8(Event::u8("level"), Duration::from_secs(1)));
    assert_eq!(events.periodic_u8_slot("level"), None);
    assert_eq!(events.periodic_bool_slot("level"), Some(0));
}

#[test]
fn events_data() {
    let data = EventsData::new(3, Events::empty());
    assert_eq!(data.device_id, 3);
    assert!(data.events.is_empty());
}

#[test]
fn events_builders_keep_held_events() {
    let mut events = Events::empty();
    events.add_bool_event(Event::bool("a"));
    events.add_u8_event(Event::u8("b"));
    events.add_periodic_bool_event(PeriodicEvent::bool(Event::bool("c"), Duration::from_secs(1)));
    events.add_periodic_u8_event(PeriodicEvent::u8(Event::u8("d"), Duration::from_secs(2)));
    let events = events
        .bool_events(vec![Event::bool("x")])
        .u8_events(vec![Event::u8("y"), Event::u8("z")])
        .periodic_bool_events(vec![PeriodicEvent::bool(Event::bool("p"), Duration::from_secs(3))])
        .periodic_u8_events(vec![]);
    let bools: Vec<&str> = events.bool_events_as_slice().iter().map(|e| e.name).collect();
    assert_eq!(bools, vec!["a", "x"]);
    let u8s: Vec<&str> = events.u8_events_as_slice().iter().map(|e| e.name).collect();
    assert_eq!(u8s, vec!["b", "y", "z"]);
    let periodic_bools: Vec<&str> =
        events.periodic_bool_events_as_slice().iter().map(|e| e.event.name).collect();
    assert_eq!(periodic_bools, vec!["c", "p"]);
    assert_eq!(events.periodic_u8_events_as_slice().len(), 1);
    assert_eq!(events.periodic_u8_events_as_slice()[0].event.name, "d");
}
