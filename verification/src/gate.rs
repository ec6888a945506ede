use vstd::prelude::*;
use crate::actor::Message;
use crate::handles::{open_mailbox, MailboxReceiver, MailboxSender};
use crate::error::ActorTrySendError;
use crate::handler::{ActorMessage, ReplyReceiver};

verus! {

/// The sending half of an actor's mailbox.
pub type GateSender<M> = tokio::sync::mpsc::Sender<Box<ActorMessage<M>>>;

/// The receiving half of an actor's mailbox. It carries the ghost tag of
/// the call that made its channel.
#[verifier::reject_recursive_types(M)]
pub struct GateReceiver<M: Message> {
    receiver: MailboxReceiver<Box<ActorMessage<M>>>,
}

impl<M: Message> GateReceiver<M> {
    /// The ghost tag of the call that made this receiver's channel.
    pub closed spec fn channel_id(&self) -> int {
        self.receiver.channel_id()
    }

    /// The tokio receiver inside.
    pub closed spec fn receiver(&self) -> tokio::sync::mpsc::Receiver<Box<ActorMessage<M>>> {
        self.receiver.receiver()
    }

    /// Hands out the tokio receiver, for the run loop to read from.
    pub fn into_receiver(self) -> (r: tokio::sync::mpsc::Receiver<Box<ActorMessage<M>>>)
        ensures
            r == self.receiver(),
    {
        self.receiver.into_receiver()
    }
}

/// Access to an actor through the messages of type `M` it handles. Gates of
/// the same message type may sit in one container whatever actor they lead to.
#[verifier::reject_recursive_types(M)]
pub struct Gate<M: Message> {
    sender: MailboxSender<Box<ActorMessage<M>>>,
}

impl<M: Message> Clone for Gate<M> {
    /// Another gate into the same mailbox.
    fn clone(&self) -> (copy: Self)
        ensures
            copy.channel_id() == self.channel_id(),
            copy.capacity() == self.capacity(),
    {
        Gate { sender: self.sender.duplicate() }
    }
}

/// What the asker of a message gets once it has waited for the reply: the
/// reply, or `Failed` when the actor dropped the reply channel unanswered.
pub open spec fn ask_outcome_spec<R, M>(reply: Result<R, tokio::sync::oneshot::error::RecvError>) -> Result<R, ActorTrySendError<M>> {
    match reply {
        Ok(r) => Ok(r),
        Err(_) => Err(ActorTrySendError::Failed),
    }
}

/// What a sender of `M` is answered, given the mailbox's answer to the
/// envelope it offered: accepted, or refused with the payload handed back.
pub open spec fn send_outcome_spec<M: Message>(answer: Result<(), ActorTrySendError<Box<ActorMessage<M>>>>) -> Result<(), ActorTrySendError<M>> {
    match answer {
        Ok(()) => Ok(()),
        Err(ActorTrySendError::Full(b)) => Err(ActorTrySendError::Full(b.message())),
        Err(ActorTrySendError::Closed(b)) => Err(ActorTrySendError::Closed(b.message())),
        Err(ActorTrySendError::Failed) => Err(ActorTrySendError::Failed),
    }
}

/// A refused send hands back the message that was offered, as `Full` or
/// `Closed`; it never reports `Failed`.
pub open spec fn refusal_returns<T, M>(res: Result<T, ActorTrySendError<M>>, msg: M) -> bool {
    match res {
        Ok(_) => true,
        Err(ActorTrySendError::Full(m)) => m == msg,
        Err(ActorTrySendError::Closed(m)) => m == msg,
        Err(ActorTrySendError::Failed) => false,
    }
}

impl<M: Message> Gate<M> {
    /// The sending handle this gate wraps.
    pub closed spec fn sender(&self) -> GateSender<M> {
        self.sender.sender()
    }

    /// The ghost tag of the call that made this gate's channel, kept by its
    /// clones; a gate made by `new` from a bare sender has an arbitrary one.
    pub closed spec fn channel_id(&self) -> int {
        self.sender.channel_id()
    }

    /// How many messages the mailbox holds, as given to tokio when it was
    /// opened.
    pub closed spec fn capacity(&self) -> nat {
        self.sender.capacity()
    }

    pub fn new(sender: GateSender<M>) -> (gate: Self)
        ensures
            gate.sender() == sender,
    {
        Gate { sender: MailboxSender::from_sender(sender) }
    }

    /// A fresh channel with room for `buffer` messages: a gate sending into
    /// it, and the receiving end an actor reads from.
    pub fn channel(buffer: usize) -> (pair: (Self, GateReceiver<M>))
        requires
            0 < buffer <= usize::MAX >> 3,
        ensures
            pair.0.channel_id() == pair.1.channel_id(),
            pair.0.capacity() == buffer,
    {
        let (sender, receiver) = open_mailbox(buffer);
        (Gate { sender }, GateReceiver { receiver })
    }

    /// What a sender is answered, given the mailbox's answer to its envelope.
    pub fn send_outcome(answer: Result<(), ActorTrySendError<Box<ActorMessage<M>>>>) -> (res: Result<(), ActorTrySendError<M>>)
        ensures
            res == send_outcome_spec(answer),
    {
        match answer {
            Ok(()) => Ok(()),
            Err(ActorTrySendError::Closed(b)) => Err(ActorTrySendError::Closed(b.get())),
            Err(ActorTrySendError::Full(b)) => Err(ActorTrySendError::Full(b.get())),
            Err(ActorTrySendError::Failed) => Err(ActorTrySendError::Failed),
        }
    }

    /// Hands `msg` to the actor without waiting for a reply. The message is
    /// refused when the mailbox is full or closed, and then comes back whole.
    pub fn tell(&self, msg: M) -> (res: Result<(), ActorTrySendError<M>>)
        ensures
            refusal_returns(res, msg),
    {
        let message = ActorMessage::<M>::new(msg, None);
        Self::send_outcome(self.sender.try_send(Box::new(message)))
    }

    /// Hands `msg` to the actor together with a reply channel, and returns
    /// where the reply will arrive. The message is refused when the mailbox is
    /// full or closed, and then comes back whole.
    pub fn ask_send(&self, msg: M) -> (res: Result<ReplyReceiver<M::Response>, ActorTrySendError<M>>)
        ensures
            refusal_returns(res, msg),
    {
        let (message, reply) = ActorMessage::<M>::ask_envelope(msg);
        match Self::send_outcome(self.sender.try_send(Box::new(message))) {
            Ok(()) => Ok(reply),
            Err(e) => Err(e),
        }
    }

    /// What an asker is answered once the wait on the reply channel is over.
    pub fn ask_outcome(reply: Result<M::Response, tokio::sync::oneshot::error::RecvError>) -> (res: Result<M::Response, ActorTrySendError<M>>)
        ensures
            res == ask_outcome_spec::<M::Response, M>(reply),
    {
        match reply {
            Ok(r) => Ok(r),
            Err(_) => Err(ActorTrySendError::Failed),
        }
    }
}

/// Every buffer size up to `0x1fff_ffff` is accepted by [`Gate::channel`],
/// whatever the width of `usize`.
pub proof fn lemma_mailbox_buffer_bound()
    ensures
        0x1fff_ffffusize <= usize::MAX >> 3usize,
{
    let max: usize = usize::MAX;
    assert(max >= 0xffff_ffffusize);
    assert(0x1fff_ffffusize <= max >> 3usize) by (bit_vector)
        requires
            max >= 0xffff_ffffusize,
    ;
}

} // verus!
