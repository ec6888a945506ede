use vstd::prelude::*;
use crate::actor::Message;
use crate::channels::{oneshot_channel, oneshot_send};

verus! {

/// Where the reply to an asked message arrives. It carries the ghost tag of
/// the call that made its reply channel.
#[verifier::reject_recursive_types(R)]
pub struct ReplyReceiver<R> {
    receiver: tokio::sync::oneshot::Receiver<R>,
    reply: Ghost<int>,
}

impl<R> ReplyReceiver<R> {
    /// The ghost tag of the call that made this reply channel.
    pub closed spec fn reply_id(&self) -> int {
        self.reply@
    }

    /// The tokio receiver inside.
    pub closed spec fn receiver(&self) -> tokio::sync::oneshot::Receiver<R> {
        self.receiver
    }

    /// Hands out the tokio receiver, to await the reply on.
    pub fn into_receiver(self) -> (r: tokio::sync::oneshot::Receiver<R>)
        ensures
            r == self.receiver(),
    {
        self.receiver
    }
}

/// A message on its way to an actor: the payload, and where the reply goes
/// when the sender asked for one.
pub struct ActorMessage<M: Message> {
    payload: M,
    rsvp: Option<tokio::sync::oneshot::Sender<M::Response>>,
    reply: Ghost<int>,
}

impl<M: Message> ActorMessage<M> {
    /// The payload carried.
    pub closed spec fn message(&self) -> M {
        self.payload
    }

    /// Whether a reply channel is still attached.
    pub closed spec fn awaits_reply(&self) -> bool {
        self.rsvp is Some
    }

    /// The reply channel attached, if any.
    pub closed spec fn reply_channel(&self) -> Option<tokio::sync::oneshot::Sender<M::Response>> {
        self.rsvp
    }

    /// The ghost tag of the call that made the attached reply channel; a
    /// message made by `new` from a bare reply handle has an arbitrary one.
    pub closed spec fn reply_id(&self) -> int {
        self.reply@
    }

    pub fn new(msg: M, rsvp: Option<tokio::sync::oneshot::Sender<M::Response>>) -> (res: Self)
        ensures
            res.message() == msg,
            res.reply_channel() == rsvp,
            res.awaits_reply() == rsvp is Some,
    {
        ActorMessage { payload: msg, rsvp, reply: Ghost(vstd::pervasive::arbitrary()) }
    }

    /// A message that asks for a reply: the envelope carrying `msg` with a
    /// fresh reply channel attached, and the receiver on which the reply
    /// will arrive.
    pub fn ask_envelope(msg: M) -> (res: (Self, ReplyReceiver<M::Response>))
        ensures
            res.0.message() == msg,
            res.0.awaits_reply(),
            res.0.reply_id() == res.1.reply_id(),
    {
        let (sender, receiver, reply) = oneshot_channel();
        (ActorMessage { payload: msg, rsvp: Some(sender), reply }, ReplyReceiver { receiver, reply })
    }

    /// Unwraps the payload.
    pub fn get(self) -> (m: M)
        ensures
            m == self.message(),
    {
        self.payload
    }

    /// A copy of the payload, to hand to a handler.
    pub fn payload(&self) -> (m: M)
        ensures
            vstd::pervasive::cloned(self.message(), m),
    {
        self.payload.clone()
    }

    /// Whether the sender waits for a reply.
    pub fn expects_reply(&self) -> (b: bool)
        ensures
            b == self.awaits_reply(),
    {
        self.rsvp.is_some()
    }

    /// Sends `response` back over the reply channel, if one is attached, and
    /// detaches it: a message is replied to at most once. Returns whether the
    /// reply was handed over; it is not when no reply was asked for or the
    /// asker stopped listening.
    pub fn reply(&mut self, response: M::Response) -> (delivered: bool)
        ensures
            final(self).message() == old(self).message(),
            !final(self).awaits_reply(),
            delivered ==> old(self).awaits_reply(),
    {
        let rsvp = self.rsvp.take();
        match rsvp {
            Some(sender) => oneshot_send(sender, response).is_ok(),
            None => false,
        }
    }
}

} // verus!
