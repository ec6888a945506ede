use vstd::prelude::*;
use crate::bus::{EventBus, EventReceiver};

verus! {

/// Events that this actor system will send
pub trait SystemEvent: Clone + Send + Sync + 'static {}

/// What `publish` makes of the bus's answer: the number of subscribers
/// reached, or none when no one listened and the event was dropped.
pub open spec fn delivered_count<E>(sent: Result<usize, E>) -> nat {
    match sent {
        Ok(n) => n as nat,
        Err(_) => 0,
    }
}

/// The system in which actors live: it carries the event bus.
#[verifier::reject_recursive_types(E)]
pub struct ActorSystem<E: SystemEvent> {
    bus: EventBus<E>,
}

impl<E: SystemEvent> Clone for ActorSystem<E> {
    /// Another handle on the same system and bus.
    fn clone(&self) -> (copy: Self)
        ensures
            copy.event_bus().bus_id() == self.event_bus().bus_id(),
    {
        ActorSystem { bus: self.bus.clone() }
    }
}

impl<E: SystemEvent> ActorSystem<E> {
    /// The bus the system publishes on.
    pub closed spec fn event_bus(&self) -> EventBus<E> {
        self.bus
    }

    /// Publish an event on the actor system's event bus. These events can be
    /// received by other actors in the same actor system. With no listener
    /// the event is dropped.
    pub fn publish(&self, event: E) {
        let sent = self.bus.send(event);
        let _ = Self::publish_outcome(sent);
    }

    /// How many listeners an event reached, given the bus's answer to it.
    pub fn publish_outcome(sent: Result<usize, E>) -> (n: usize)
        ensures
            n == delivered_count(sent),
    {
        match sent {
            Ok(n) => n,
            Err(_) => 0,
        }
    }

    /// Subscribe to events of this actor system.
    pub fn events(&self) -> (r: EventReceiver<E>)
        ensures
            r.bus_id() == self.event_bus().bus_id(),
    {
        self.bus.subscribe()
    }

    /// Create a new actor system on which you can create actors.
    pub fn new(bus: EventBus<E>) -> (system: Self)
        ensures
            system.event_bus() == bus,
    {
        ActorSystem { bus }
    }
}

} // verus!
