//! Events that a device publishes: plain and periodic events carrying a
//! `bool` or an `u8`, the topic they are published on, and the collection
//! that holds them.
use core::time::Duration;
use vstd::prelude::*;

use crate::text::str_eq;

verus! {

/// An event producing a determined type.
#[derive(Debug, Clone, Copy)]
pub struct Event<T: Clone + Copy> {
    /// Event name.
    pub name: &'static str,
    /// Event description.
    pub description: Option<&'static str>,
    /// Event value.
    pub value: T,
}

impl Event<bool> {
    /// Creates an [`Event<bool>`], with value `false` and no description.
    pub fn bool(name: &'static str) -> (event: Self)
        ensures
            event.name == name,
            event.description is None,
            event.value == false,
    {
        Event { name, description: None, value: false }
    }
}

impl Event<u8> {
    /// Creates an [`Event<u8>`], with value `0` and no description.
    pub fn u8(name: &'static str) -> (event: Self)
        ensures
            event.name == name,
            event.description is None,
            event.value == 0,
    {
        Event { name, description: None, value: 0 }
    }
}

impl<T: Clone + Copy> Event<T> {
    /// Sets the event description.
    pub fn description(self, description: &'static str) -> (event: Self)
        ensures
            event.name == self.name,
            event.description == Some(description),
            event.value == self.value,
    {
        Event { name: self.name, description: Some(description), value: self.value }
    }

    /// Removes the event description.
    pub fn remove_description(&mut self)
        ensures
            final(self).name == old(self).name,
            final(self).description is None,
            final(self).value == old(self).value,
    {
        self.description = None;
    }

    /// Updates the event value.
    pub fn update_value(&mut self, value: T)
        ensures
            final(self).name == old(self).name,
            final(self).description == old(self).description,
            final(self).value == value,
    {
        self.value = value;
    }
}

/// A periodic [`Event`]: one checked every time interval.
#[derive(Debug, Copy)]
pub struct PeriodicEvent<T: Clone + Copy> {
    /// The underlying [`Event`].
    pub event: Event<T>,
    /// Time interval to verify whether the event occurred.
    pub interval: Duration,
}

impl<T: Clone + Copy> Clone for PeriodicEvent<T> {
    fn clone(&self) -> (copy: Self)
        ensures
            copy == *self,
    {
        *self
    }
}

impl PeriodicEvent<bool> {
    /// Creates a [`PeriodicEvent<bool>`].
    pub fn bool(event: Event<bool>, interval: Duration) -> (periodic: Self)
        ensures
            periodic.event == event,
            periodic.interval == interval,
    {
        PeriodicEvent { event, interval }
    }
}

impl PeriodicEvent<u8> {
    /// Creates a [`PeriodicEvent<u8>`].
    pub fn u8(event: Event<u8>, interval: Duration) -> (periodic: Self)
        ensures
            periodic.event == event,
            periodic.interval == interval,
    {
        PeriodicEvent { event, interval }
    }
}

/// The topic on which the events are published over the network.
#[derive(Debug)]
pub struct Topic(String);

impl Topic {
    /// The text of the topic.
    pub closed spec fn text(&self) -> Seq<char> {
        self.0@
    }

    /// Creates an empty [`Topic`].
    pub fn empty() -> (topic: Self)
        ensures
            topic.text() == Seq::<char>::empty(),
    {
        Topic(String::new())
    }

    /// Creates a [`Topic`].
    pub fn new(value: String) -> (topic: Self)
        ensures
            topic.text() == value@,
    {
        Topic(value)
    }

    /// Returns the [`Topic`] as a `&str`.
    pub fn as_str(&self) -> (text: &str)
        ensures
            text@ == self.text(),
    {
        self.0.as_str()
    }
}

/// Whether no two events share a name.
pub open spec fn names_unique<T: Clone + Copy>(events: Seq<Event<T>>) -> bool {
    forall|i: int, j: int|
        0 <= i < events.len() && 0 <= j < events.len() && i != j ==> (#[trigger] events[i]).name@
            != (#[trigger] events[j]).name@
}

/// Whether some event has the given name.
pub open spec fn has_name<T: Clone + Copy>(events: Seq<Event<T>>, name: Seq<char>) -> bool {
    exists|i: int| 0 <= i < events.len() && (#[trigger] events[i]).name@ == name
}

/// The underlying events of periodic events.
pub open spec fn inner_events<T: Clone + Copy>(events: Seq<PeriodicEvent<T>>) -> Seq<Event<T>> {
    events.map_values(|e: PeriodicEvent<T>| e.event)
}

/// The events after the value of the one at `index` is replaced.
pub open spec fn with_value<T: Clone + Copy>(events: Seq<Event<T>>, index: int, value: T) -> Seq<
    Event<T>,
> {
    events.update(index, Event { value, ..events[index] })
}

/// The periodic events after the value of the one at `index` is replaced.
pub open spec fn with_periodic_value<T: Clone + Copy>(
    events: Seq<PeriodicEvent<T>>,
    index: int,
    value: T,
) -> Seq<PeriodicEvent<T>> {
    events.update(
        index,
        PeriodicEvent { event: Event { value, ..events[index].event }, ..events[index] },
    )
}

/// The position that a new event takes in a list, or none when an event
/// of the same name is already there: an event is added only once.
pub open spec fn slot<T: Clone + Copy>(events: Seq<Event<T>>, name: Seq<char>) -> Option<usize> {
    if has_name(events, name) {
        None
    } else {
        Some(events.len() as usize)
    }
}

/// Finds the position for a new event named `name`, if no event has it.
fn find_slot<T: Clone + Copy>(events: &[Event<T>], name: &str) -> (position: Option<usize>)
    ensures
        position == slot(events@, name@),
{
    let mut i: usize = 0;
    while i < events.len()
        invariant
            i <= events@.len(),
            forall|j: int| 0 <= j < i ==> (#[trigger] events@[j]).name@ != name@,
        decreases events.len() - i,
    {
        if str_eq(events[i].name, name) {
            proof {
                assert(has_name(events@, name@));
            }
            return None;
        }
        i = i + 1;
    }
    Some(events.len())
}

/// Finds the position for a new periodic event named `name`, if no
/// periodic event has it.
fn find_periodic_slot<T: Clone + Copy>(events: &[PeriodicEvent<T>], name: &str) -> (position:
    Option<usize>)
    ensures
        position == slot(inner_events(events@), name@),
{
    let ghost inner = inner_events(events@);
    let mut i: usize = 0;
    while i < events.len()
        invariant
            i <= events@.len(),
            inner == inner_events(events@),
            forall|j: int| 0 <= j < i ==> (#[trigger] inner[j]).name@ != name@,
        decreases events.len() - i,
    {
        if str_eq(events[i].event.name, name) {
            proof {
                assert(inner[i as int] == events@[i as int].event);
                assert(has_name(inner, name@));
            }
            return None;
        }
        proof {
            assert(inner[i as int] == events@[i as int].event);
        }
        i = i + 1;
    }
    Some(events.len())
}

/// All events of a system.
#[derive(Debug, Clone)]
pub struct Events {
    bool_events: Vec<Event<bool>>,
    u8_events: Vec<Event<u8>>,
    periodic_bool_events: Vec<PeriodicEvent<bool>>,
    periodic_u8_events: Vec<PeriodicEvent<u8>>,
}

impl Events {
    /// The `bool` events, in order.
    pub closed spec fn bools(&self) -> Seq<Event<bool>> {
        self.bool_events@
    }

    /// The `u8` events, in order.
    pub closed spec fn u8s(&self) -> Seq<Event<u8>> {
        self.u8_events@
    }

    /// The periodic `bool` events, in order.
    pub closed spec fn periodic_bools(&self) -> Seq<PeriodicEvent<bool>> {
        self.periodic_bool_events@
    }

    /// The periodic `u8` events, in order.
    pub closed spec fn periodic_u8s(&self) -> Seq<PeriodicEvent<u8>> {
        self.periodic_u8_events@
    }

    /// Whether no event of any sort is held.
    pub open spec fn holds_none(&self) -> bool {
        &&& self.bools().len() == 0
        &&& self.u8s().len() == 0
        &&& self.periodic_bools().len() == 0
        &&& self.periodic_u8s().len() == 0
    }

    /// Creates an empty [`Events`].
    pub fn empty() -> (events: Self)
        ensures
            events.holds_none(),
    {
        Events {
            bool_events: Vec::new(),
            u8_events: Vec::new(),
            periodic_bool_events: Vec::new(),
            periodic_u8_events: Vec::new(),
        }
    }

    /// Creates an empty [`Events`] with room for `size` events of each sort.
    pub fn with_capacity(size: usize) -> (events: Self)
        ensures
            events.holds_none(),
    {
        Events {
            bool_events: Vec::with_capacity(size),
            u8_events: Vec::with_capacity(size),
            periodic_bool_events: Vec::with_capacity(size),
            periodic_u8_events: Vec::with_capacity(size),
        }
    }

    /// Adds a sequence of `bool` events after those already held.
    pub fn bool_events(self, bool_events: Vec<Event<bool>>) -> (events: Self)
        ensures
            events.bools() == self.bools() + bool_events@,
            events.u8s() == self.u8s(),
            events.periodic_bools() == self.periodic_bools(),
            events.periodic_u8s() == self.periodic_u8s(),
    {
        let mut events = self;
        let mut added = bool_events;
        events.bool_events.append(&mut added);
        events
    }

    /// Adds a sequence of `u8` events after those already held.
    pub fn u8_events(self, u8_events: Vec<Event<u8>>) -> (events: Self)
        ensures
            events.bools() == self.bools(),
            events.u8s() == self.u8s() + u8_events@,
            events.periodic_bools() == self.periodic_bools(),
            events.periodic_u8s() == self.periodic_u8s(),
    {
        let mut events = self;
        let mut added = u8_events;
        events.u8_events.append(&mut added);
        events
    }

    /// Adds a sequence of periodic `bool` events after those already held.
    pub fn periodic_bool_events(self, periodic_bool_events: Vec<PeriodicEvent<bool>>) -> (events:
        Self)
        ensures
            events.bools() == self.bools(),
            events.u8s() == self.u8s(),
            events.periodic_bools() == self.periodic_bools() + periodic_bool_events@,
            events.periodic_u8s() == self.periodic_u8s(),
    {
        let mut events = self;
        let mut added = periodic_bool_events;
        events.periodic_bool_events.append(&mut added);
        events
    }

    /// Adds a sequence of periodic `u8` events after those already held.
    pub fn periodic_u8_events(self, periodic_u8_events: Vec<PeriodicEvent<u8>>) -> (events: Self)
        ensures
            events.bools() == self.bools(),
            events.u8s() == self.u8s(),
            events.periodic_bools() == self.periodic_bools(),
            events.periodic_u8s() == self.periodic_u8s() + periodic_u8_events@,
    {
        let mut events = self;
        let mut added = periodic_u8_events;
        events.periodic_u8_events.append(&mut added);
        events
    }

    /// Adds a `bool` event after the others.
    pub fn add_bool_event(&mut self, bool_event: Event<bool>)
        ensures
            final(self).bools() == old(self).bools().push(bool_event),
            final(self).u8s() == old(self).u8s(),
            final(self).periodic_bools() == old(self).periodic_bools(),
            final(self).periodic_u8s() == old(self).periodic_u8s(),
    {
        self.bool_events.push(bool_event);
    }

    /// Adds an `u8` event after the others.
    pub fn add_u8_event(&mut self, u8_event: Event<u8>)
        ensures
            final(self).bools() == old(self).bools(),
            final(self).u8s() == old(self).u8s().push(u8_event),
            final(self).periodic_bools() == old(self).periodic_bools(),
            final(self).periodic_u8s() == old(self).periodic_u8s(),
    {
        self.u8_events.push(u8_event);
    }

    /// Adds a periodic `bool` event after the others.
    pub fn add_periodic_bool_event(&mut self, periodic_bool_event: PeriodicEvent<bool>)
        ensures
            final(self).bools() == old(self).bools(),
            final(self).u8s() == old(self).u8s(),
            final(self).periodic_bools() == old(self).periodic_bools().push(periodic_bool_event),
            final(self).periodic_u8s() == old(self).periodic_u8s(),
    {
        self.periodic_bool_events.push(periodic_bool_event);
    }

    /// Adds a periodic `u8` event after the others.
    pub fn add_periodic_u8_event(&mut self, periodic_u8_event: PeriodicEvent<u8>)
        ensures
            final(self).bools() == old(self).bools(),
            final(self).u8s() == old(self).u8s(),
            final(self).periodic_bools() == old(self).periodic_bools(),
            final(self).periodic_u8s() == old(self).periodic_u8s().push(periodic_u8_event),
    {
        self.periodic_u8_events.push(periodic_u8_event);
    }

    /// Updates the value of the `bool` event at `index`.
    pub fn update_bool_value(&mut self, index: usize, value: bool)
        requires
            index < old(self).bools().len(),
        ensures
            final(self).bools() == with_value(old(self).bools(), index as int, value),
            final(self).u8s() == old(self).u8s(),
            final(self).periodic_bools() == old(self).periodic_bools(),
            final(self).periodic_u8s() == old(self).periodic_u8s(),
    {
        let mut event = self.bool_events[index];
        event.update_value(value);
        self.bool_events.set(index, event);
    }

    /// Updates the value of the `u8` event at `index`.
    pub fn update_u8_value(&mut self, index: usize, value: u8)
        requires
            index < old(self).u8s().len(),
        ensures
            final(self).bools() == old(self).bools(),
            final(self).u8s() == with_value(old(self).u8s(), index as int, value),
            final(self).periodic_bools() == old(self).periodic_bools(),
            final(self).periodic_u8s() == old(self).periodic_u8s(),
    {
        let mut event = self.u8_events[index];
        event.update_value(value);
        self.u8_events.set(index, event);
    }

    /// Updates the value of the periodic `bool` event at `index`.
    pub fn update_periodic_bool_value(&mut self, index: usize, value: bool)
        requires
            index < old(self).periodic_bools().len(),
        ensures
            final(self).bools() == old(self).bools(),
            final(self).u8s() == old(self).u8s(),
            final(self).periodic_bools() == with_periodic_value(
                old(self).periodic_bools(),
                index as int,
                value,
            ),
            final(self).periodic_u8s() == old(self).periodic_u8s(),
    {
        let mut periodic = self.periodic_bool_events[index];
        periodic.event.update_value(value);
        self.periodic_bool_events.set(index, periodic);
    }

    /// Updates the value of the periodic `u8` event at `index`.
    pub fn update_periodic_u8_value(&mut self, index: usize, value: u8)
        requires
            index < old(self).periodic_u8s().len(),
        ensures
            final(self).bools() == old(self).bools(),
            final(self).u8s() == old(self).u8s(),
            final(self).periodic_bools() == old(self).periodic_bools(),
            final(self).periodic_u8s() == with_periodic_value(
                old(self).periodic_u8s(),
                index as int,
                value,
            ),
    {
        let mut periodic = self.periodic_u8_events[index];
        periodic.event.update_value(value);
        self.periodic_u8_events.set(index, periodic);
    }

    /// The `bool` events, in order.
    pub fn bool_events_as_slice(&self) -> (events: &[Event<bool>])
        ensures
            events@ == self.bools(),
    {
        self.bool_events.as_slice()
    }

    /// The `u8` events, in order.
    pub fn u8_events_as_slice(&self) -> (events: &[Event<u8>])
        ensures
            events@ == self.u8s(),
    {
        self.u8_events.as_slice()
    }

    /// The periodic `bool` events, in order.
    pub fn periodic_bool_events_as_slice(&self) -> (events: &[PeriodicEvent<bool>])
        ensures
            events@ == self.periodic_bools(),
    {
        self.periodic_bool_events.as_slice()
    }

    /// The periodic `u8` events, in order.
    pub fn periodic_u8_events_as_slice(&self) -> (events: &[PeriodicEvent<u8>])
        ensures
            events@ == self.periodic_u8s(),
    {
        self.periodic_u8_events.as_slice()
    }

    /// Checks whether no event of any sort is held.
    pub fn is_empty(&self) -> (empty: bool)
        ensures
            empty == self.holds_none(),
    {
        self.bool_events.is_empty() && self.u8_events.is_empty()
            && self.periodic_bool_events.is_empty() && self.periodic_u8_events.is_empty()
    }

    /// The position a new `bool` event named `name` takes, or [`None`]
    /// when a `bool` event already has that name and the new one is to be
    /// discarded.
    pub fn bool_event_slot(&self, name: &str) -> (position: Option<usize>)
        ensures
            position == slot(self.bools(), name@),
    {
        find_slot(self.bool_events.as_slice(), name)
    }

    /// The position a new `u8` event named `name` takes, or [`None`] when
    /// an `u8` event already has that name and the new one is to be
    /// discarded.
    pub fn u8_event_slot(&self, name: &str) -> (position: Option<usize>)
        ensures
            position == slot(self.u8s(), name@),
    {
        find_slot(self.u8_events.as_slice(), name)
    }

    /// The position a new periodic `bool` event named `name` takes, or
    /// [`None`] when a periodic `bool` event already has that name and the
    /// new one is to be discarded.
    pub fn periodic_bool_slot(&self, name: &str) -> (position: Option<usize>)
        ensures
            position == slot(inner_events(self.periodic_bools()), name@),
    {
        find_periodic_slot(self.periodic_bool_events.as_slice(), name)
    }

    /// The position a new periodic `u8` event named `name` takes, or
    /// [`None`] when a periodic `u8` event already has that name and the
    /// new one is to be discarded.
    pub fn periodic_u8_slot(&self, name: &str) -> (position: Option<usize>)
        ensures
            position == slot(inner_events(self.periodic_u8s()), name@),
    {
        find_periodic_slot(self.periodic_u8_events.as_slice(), name)
    }
}

/// Events data transmitted by an event receiver.
#[derive(Debug)]
pub struct EventsData {
    /// Device identifier.
    pub device_id: usize,
    /// Device events.
    pub events: Events,
}

impl EventsData {
    /// Creates an [`EventsData`].
    pub fn new(device_id: usize, events: Events) -> (data: Self)
        ensures
            data.device_id == device_id,
            data.events == events,
    {
        EventsData { device_id, events }
    }
}

} // verus!
