//! The tokio channel types the framework is built on, and the calls into
//! them that the verified code makes.
use vstd::prelude::*;
use crate::error::ActorTrySendError;
use crate::bus::is_power_of_two;

verus! {

/// Declares `tokio::sync::mpsc::Sender`, the sending half of an actor's mailbox.
#[verifier::external_type_specification]
#[verifier::external_body]
#[verifier::reject_recursive_types(T)]
pub struct MpscSender<T>(tokio::sync::mpsc::Sender<T>);

/// Declares `tokio::sync::mpsc::Receiver`, the receiving half of an actor's mailbox.
#[verifier::external_type_specification]
#[verifier::external_body]
#[verifier::reject_recursive_types(T)]
pub struct MpscReceiver<T>(tokio::sync::mpsc::Receiver<T>);

/// Declares `tokio::sync::oneshot::Sender`, over which a reply is handed back.
#[verifier::external_type_specification]
#[verifier::external_body]
#[verifier::reject_recursive_types(T)]
pub struct OneshotSender<T>(tokio::sync::oneshot::Sender<T>);

/// Declares `tokio::sync::oneshot::Receiver`, on which an asker awaits its reply.
#[verifier::external_type_specification]
#[verifier::external_body]
#[verifier::reject_recursive_types(T)]
pub struct OneshotReceiver<T>(tokio::sync::oneshot::Receiver<T>);

/// Declares `tokio::sync::oneshot::error::RecvError`, what an asker gets when no
/// reply will ever come.
#[verifier::external_type_specification]
#[verifier::external_body]
pub struct OneshotRecvError(tokio::sync::oneshot::error::RecvError);

/// Declares `tokio::sync::broadcast::Sender`, the sending side of the event bus.
#[verifier::external_type_specification]
#[verifier::external_body]
#[verifier::reject_recursive_types(T)]
pub struct BroadcastSender<T>(tokio::sync::broadcast::Sender<T>);

/// Declares `tokio::sync::broadcast::Receiver`, one subscription to the event bus.
#[verifier::external_type_specification]
#[verifier::external_body]
#[verifier::reject_recursive_types(T)]
pub struct BroadcastReceiver<T>(tokio::sync::broadcast::Receiver<T>);

/// Calls `tokio::sync::mpsc::channel(buffer)`, which panics unless
/// `0 < buffer <= usize::MAX >> 3`. The channel holds up to `buffer`
/// messages (tokio's `Sender::max_capacity` reports that bound). Beside the
/// two handles it returns a ghost tag of which nothing is claimed: a caller
/// that stores the one tag in both handles can later prove that two handles
/// carrying it came from this one call.
#[verifier::external_body]
pub(crate) fn mpsc_channel<T>(buffer: usize) -> (res: (tokio::sync::mpsc::Sender<T>, tokio::sync::mpsc::Receiver<T>, Ghost<int>, Ghost<nat>))
    requires
        0 < buffer <= usize::MAX >> 3,
    ensures
        res.3@ == buffer,
{
    let (sender, receiver) = tokio::sync::mpsc::channel(buffer);
    (sender, receiver, Ghost(0int), Ghost(buffer as nat))
}

/// Calls `tokio::sync::mpsc::Sender::try_send`. Whether the message is taken
/// depends on the channel's state at the time; when it is refused, tokio hands
/// the very message back inside `TrySendError::Full` or `TrySendError::Closed`,
/// which are mapped one for one onto the variants of the same name.
#[verifier::external_body]
pub(crate) fn mpsc_try_send<T>(sender: &tokio::sync::mpsc::Sender<T>, message: T) -> (res: Result<(), ActorTrySendError<T>>)
    ensures
        match res {
            Ok(()) => true,
            Err(ActorTrySendError::Full(m)) => m == message,
            Err(ActorTrySendError::Closed(m)) => m == message,
            Err(ActorTrySendError::Failed) => false,
        },
{
    match sender.try_send(message) {
        Ok(()) => Ok(()),
        Err(tokio::sync::mpsc::error::TrySendError::Full(m)) => Err(ActorTrySendError::Full(m)),
        Err(tokio::sync::mpsc::error::TrySendError::Closed(m)) => Err(ActorTrySendError::Closed(m)),
    }
}

/// Calls `tokio::sync::mpsc::Sender::clone`: another handle on the same
/// channel; nothing is claimed of it.
#[verifier::external_body]
pub(crate) fn mpsc_sender_clone<T>(sender: &tokio::sync::mpsc::Sender<T>) -> (copy: tokio::sync::mpsc::Sender<T>) {
    sender.clone()
}

/// Calls `tokio::sync::oneshot::channel()`. Beside the two handles it
/// returns a ghost tag of which nothing is claimed, for the caller to store
/// in both ends.
#[verifier::external_body]
pub(crate) fn oneshot_channel<T>() -> (res: (tokio::sync::oneshot::Sender<T>, tokio::sync::oneshot::Receiver<T>, Ghost<int>)) {
    let (sender, receiver) = tokio::sync::oneshot::channel();
    (sender, receiver, Ghost(0int))
}

/// Calls `tokio::sync::oneshot::Sender::send`. Whether the receiver still
/// listens depends on the other task; when it does not, tokio hands the very
/// value back as the error.
#[verifier::external_body]
pub(crate) fn oneshot_send<T>(sender: tokio::sync::oneshot::Sender<T>, value: T) -> (res: Result<(), T>)
    ensures
        match res {
            Ok(()) => true,
            Err(v) => v == value,
        },
{
    sender.send(value)
}

/// Calls `tokio::sync::broadcast::Sender::new(capacity)`, which panics unless
/// `0 < capacity <= usize::MAX >> 1`. tokio rounds the capacity up to the
/// next power of two; that rounded number of events is what the bus keeps
/// for each subscriber, and it is returned as a ghost value. The ghost tag
/// returned beside it is one of which nothing is claimed, for the caller to
/// store in every handle on this bus.
#[verifier::external_body]
pub(crate) fn broadcast_new<T>(capacity: usize) -> (res: (tokio::sync::broadcast::Sender<T>, Ghost<int>, Ghost<nat>))
    requires
        0 < capacity <= usize::MAX >> 1,
    ensures
        is_power_of_two(res.2@),
        capacity <= res.2@ < 2 * capacity,
{
    (tokio::sync::broadcast::Sender::new(capacity), Ghost(0int), Ghost(vstd::pervasive::arbitrary()))
}

/// Calls `tokio::sync::broadcast::Sender::send`. Whether anyone listens
/// depends on the receivers alive at the time: on success tokio returns the
/// number of subscribed receivers, which is at least one; otherwise it hands
/// the very value back inside `SendError`, whose field is moved out here.
#[verifier::external_body]
pub(crate) fn broadcast_send<T>(sender: &tokio::sync::broadcast::Sender<T>, value: T) -> (res: Result<usize, T>)
    ensures
        match res {
            Ok(n) => n >= 1,
            Err(v) => v == value,
        },
{
    match sender.send(value) {
        Ok(n) => Ok(n),
        Err(tokio::sync::broadcast::error::SendError(v)) => Err(v),
    }
}

/// Calls `tokio::sync::broadcast::Sender::subscribe`: a receiver of what is
/// sent after the call; nothing is claimed of it.
#[verifier::external_body]
pub(crate) fn broadcast_subscribe<T>(sender: &tokio::sync::broadcast::Sender<T>) -> (receiver: tokio::sync::broadcast::Receiver<T>) {
    sender.subscribe()
}

/// Calls `tokio::sync::broadcast::Sender::clone`: another handle on the same
/// bus; nothing is claimed of it.
#[verifier::external_body]
pub(crate) fn broadcast_sender_clone<T>(sender: &tokio::sync::broadcast::Sender<T>) -> (copy: tokio::sync::broadcast::Sender<T>) {
    sender.clone()
}

} // verus!
