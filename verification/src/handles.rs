//! Channel handles that carry, as ghost state, what the call that opened
//! their channel said of it. The fields are private to this module, so the
//! ghost state of a handle is always that of the call that made it.
use vstd::prelude::*;
use crate::bus::is_power_of_two;
use crate::channels::{
    broadcast_new, broadcast_send, broadcast_sender_clone, broadcast_subscribe, mpsc_channel,
    mpsc_sender_clone, mpsc_try_send,
};
use crate::error::ActorTrySendError;

verus! {

/// The sending end of a bounded channel.
#[verifier::reject_recursive_types(T)]
pub struct MailboxSender<T> {
    sender: tokio::sync::mpsc::Sender<T>,
    channel: Ghost<int>,
    capacity: Ghost<nat>,
}

/// The receiving end of a bounded channel.
#[verifier::reject_recursive_types(T)]
pub struct MailboxReceiver<T> {
    receiver: tokio::sync::mpsc::Receiver<T>,
    channel: Ghost<int>,
}

/// Opens a bounded channel holding up to `buffer` values: both ends carry
/// the tag of this one call, and the sender the capacity tokio was given.
pub fn open_mailbox<T>(buffer: usize) -> (pair: (MailboxSender<T>, MailboxReceiver<T>))
    requires
        0 < buffer <= usize::MAX >> 3,
    ensures
        pair.0.channel_id() == pair.1.channel_id(),
        pair.0.capacity() == buffer,
{
    let (sender, receiver, channel, capacity) = mpsc_channel(buffer);
    (MailboxSender { sender, channel, capacity }, MailboxReceiver { receiver, channel })
}

impl<T> MailboxSender<T> {
    /// The tokio sender inside.
    pub closed spec fn sender(&self) -> tokio::sync::mpsc::Sender<T> {
        self.sender
    }

    /// The ghost tag of the call that opened this channel.
    pub closed spec fn channel_id(&self) -> int {
        self.channel@
    }

    /// How many values the channel holds, as given to tokio when it was
    /// opened.
    pub closed spec fn capacity(&self) -> nat {
        self.capacity@
    }

    /// Wraps a bare tokio sender; of a channel not opened here nothing is
    /// known, so its tag and capacity are arbitrary.
    pub fn from_sender(sender: tokio::sync::mpsc::Sender<T>) -> (s: Self)
        ensures
            s.sender() == sender,
    {
        MailboxSender {
            sender,
            channel: Ghost(vstd::pervasive::arbitrary()),
            capacity: Ghost(vstd::pervasive::arbitrary()),
        }
    }

    /// Another sender on the same channel.
    pub fn duplicate(&self) -> (copy: Self)
        ensures
            copy.channel_id() == self.channel_id(),
            copy.capacity() == self.capacity(),
    {
        MailboxSender {
            sender: mpsc_sender_clone(&self.sender),
            channel: Ghost(self.channel@),
            capacity: Ghost(self.capacity@),
        }
    }

    /// Offers `message` to the channel without waiting; a refused message
    /// comes back whole.
    pub fn try_send(&self, message: T) -> (res: Result<(), ActorTrySendError<T>>)
        ensures
            match res {
                Ok(()) => true,
                Err(ActorTrySendError::Full(m)) => m == message,
                Err(ActorTrySendError::Closed(m)) => m == message,
                Err(ActorTrySendError::Failed) => false,
            },
    {
        mpsc_try_send(&self.sender, message)
    }
}

impl<T> MailboxReceiver<T> {
    /// The tokio receiver inside.
    pub closed spec fn receiver(&self) -> tokio::sync::mpsc::Receiver<T> {
        self.receiver
    }

    /// The ghost tag of the call that opened this channel.
    pub closed spec fn channel_id(&self) -> int {
        self.channel@
    }

    /// Hands out the tokio receiver.
    pub fn into_receiver(self) -> (r: tokio::sync::mpsc::Receiver<T>)
        ensures
            r == self.receiver(),
    {
        self.receiver
    }
}

/// The sending side of a broadcast bus.
#[verifier::reject_recursive_types(T)]
pub struct BusSender<T> {
    sender: tokio::sync::broadcast::Sender<T>,
    bus: Ghost<int>,
    capacity: Ghost<nat>,
}

/// One subscription to a broadcast bus.
#[verifier::reject_recursive_types(T)]
pub struct BusReceiver<T> {
    receiver: tokio::sync::broadcast::Receiver<T>,
    bus: Ghost<int>,
}

/// Opens a broadcast bus for `capacity` values, rounded up to a power of two.
pub fn open_bus<T>(capacity: usize) -> (bus: BusSender<T>)
    requires
        0 < capacity <= usize::MAX >> 1,
    ensures
        is_power_of_two(bus.capacity()),
        capacity <= bus.capacity() < 2 * capacity,
{
    let (sender, bus, kept) = broadcast_new(capacity);
    BusSender { sender, bus, capacity: kept }
}

impl<T> BusSender<T> {
    /// The ghost tag of the call that opened this bus.
    pub closed spec fn bus_id(&self) -> int {
        self.bus@
    }

    /// How many values the bus keeps for each subscriber.
    pub closed spec fn capacity(&self) -> nat {
        self.capacity@
    }

    /// Another sender on the same bus.
    pub fn duplicate(&self) -> (copy: Self)
        ensures
            copy.bus_id() == self.bus_id(),
            copy.capacity() == self.capacity(),
    {
        BusSender {
            sender: broadcast_sender_clone(&self.sender),
            bus: Ghost(self.bus@),
            capacity: Ghost(self.capacity@),
        }
    }

    /// Broadcasts `value`: the number of subscribers, at least one, or the
    /// value back when there is none.
    pub fn send(&self, value: T) -> (res: Result<usize, T>)
        ensures
            match res {
                Ok(n) => n >= 1,
                Err(v) => v == value,
            },
    {
        broadcast_send(&self.sender, value)
    }

    /// A new subscription to this bus.
    pub fn subscribe(&self) -> (r: BusReceiver<T>)
        ensures
            r.bus_id() == self.bus_id(),
    {
        BusReceiver { receiver: broadcast_subscribe(&self.sender), bus: Ghost(self.bus@) }
    }
}

impl<T> BusReceiver<T> {
    /// The tokio receiver inside.
    pub closed spec fn receiver(&self) -> tokio::sync::broadcast::Receiver<T> {
        self.receiver
    }

    /// The ghost tag of the call that opened the bus.
    pub closed spec fn bus_id(&self) -> int {
        self.bus@
    }

    /// Hands out the tokio receiver.
    pub fn into_receiver(self) -> (r: tokio::sync::broadcast::Receiver<T>)
        ensures
            r == self.receiver(),
    {
        self.receiver
    }
}

} // verus!
