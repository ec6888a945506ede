use vstd::prelude::*;
use crate::handles::{open_bus, BusReceiver, BusSender};
use crate::system::SystemEvent;

verus! {

/// Whether `n` is a power of two.
pub open spec fn is_power_of_two(n: nat) -> bool
    decreases n,
{
    if n == 1 {
        true
    } else if n < 2 || n % 2 != 0 {
        false
    } else {
        is_power_of_two(n / 2)
    }
}

/// One subscription to the event bus: it sees the events published after
/// it was taken. It carries the ghost tag of the bus it was taken from.
#[verifier::reject_recursive_types(E)]
pub struct EventReceiver<E: SystemEvent> {
    receiver: BusReceiver<E>,
}

impl<E: SystemEvent> EventReceiver<E> {
    /// The ghost tag of the bus it was taken from; subscriptions and clones
    /// taken from one bus carry the tag that bus was made with.
    pub closed spec fn bus_id(&self) -> int {
        self.receiver.bus_id()
    }

    /// The tokio receiver inside.
    pub closed spec fn receiver(&self) -> tokio::sync::broadcast::Receiver<E> {
        self.receiver.receiver()
    }

    /// Hands out the tokio receiver, to read events from.
    pub fn into_receiver(self) -> (r: tokio::sync::broadcast::Receiver<E>)
        ensures
            r == self.receiver(),
    {
        self.receiver.into_receiver()
    }
}

/// The bus on which system events are broadcast to every subscribed actor.
#[verifier::reject_recursive_types(E)]
pub struct EventBus<E: SystemEvent> {
    sender: BusSender<E>,
}

impl<E: SystemEvent> Clone for EventBus<E> {
    /// Another handle on the same bus.
    fn clone(&self) -> (copy: Self)
        ensures
            copy.bus_id() == self.bus_id(),
            copy.capacity() == self.capacity(),
    {
        EventBus { sender: self.sender.duplicate() }
    }
}

impl<E: SystemEvent> EventBus<E> {
    /// The ghost tag this bus was made with, kept by its clones.
    pub closed spec fn bus_id(&self) -> int {
        self.sender.bus_id()
    }

    /// How many events the bus keeps for each subscriber.
    pub closed spec fn capacity(&self) -> nat {
        self.sender.capacity()
    }

    /// A bus that keeps up to `capacity` events (rounded up to a power of two)
    /// for each subscriber.
    pub fn new(capacity: usize) -> (bus: Self)
        requires
            0 < capacity <= usize::MAX >> 1,
        ensures
            is_power_of_two(bus.capacity()),
            capacity <= bus.capacity() < 2 * capacity,
    {
        EventBus { sender: open_bus(capacity) }
    }

    /// Broadcasts `event` to every current subscriber. Returns how many
    /// subscribers there are, at least one; with none, the event is refused
    /// and handed back.
    pub fn send(&self, event: E) -> (res: Result<usize, E>)
        ensures
            match res {
                Ok(n) => n >= 1,
                Err(e) => e == event,
            },
    {
        self.sender.send(event)
    }

    /// A new subscription to this bus.
    pub fn subscribe(&self) -> (r: EventReceiver<E>)
        ensures
            r.bus_id() == self.bus_id(),
    {
        EventReceiver { receiver: self.sender.subscribe() }
    }
}

/// Every capacity up to `0x7fff_ffff` is accepted by [`EventBus::new`],
/// whatever the width of `usize`.
pub proof fn lemma_bus_capacity_bound()
    ensures
        0x7fff_ffffusize <= usize::MAX >> 1usize,
{
    let max: usize = usize::MAX;
    assert(max >= 0xffff_ffffusize);
    assert(0x7fff_ffffusize <= max >> 1usize) by (bit_vector)
        requires
            max >= 0xffff_ffffusize,
    ;
}

} // verus!
