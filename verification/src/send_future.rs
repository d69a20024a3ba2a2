//! The send and join machinery, modeled as explicit resolution steps. A
//! send has two suspension points: waiting for capacity while a bounded
//! mailbox is full, and waiting for the handler's return value once the
//! message is accepted. Each step is a function from the mailbox state to
//! the next state and outcome, so the surrounding runtime can drive it; a
//! disconnected mailbox always resolves a step at once instead of leaving
//! the sender waiting.

use vstd::prelude::*;

use core::marker::PhantomData;

use crate::mailbox::Mailbox;
use crate::Disconnected;

verus! {

/// A send in its first phase: the message is not yet enqueued. Created by
/// `send` on a channel or an address; bound to that handle's mailbox.
pub struct SendFuture<M, R> {
    mailbox_id: u64,
    message: M,
    _returns: PhantomData<R>,
}

/// The outcome of one enqueue attempt.
pub enum SendPoll<M, R> {
    /// The mailbox accepted the message whole. The runtime now routes the
    /// message to the actor's handler; the sender awaits the return value.
    Accepted(M, ResolveToHandlerReturn<R>),
    /// The mailbox is bounded and full: the sender suspends (backpressure)
    /// and retries later with the unchanged future.
    Full(SendFuture<M, R>),
    /// The receiving side is gone: the send resolves to the error at once,
    /// with nothing enqueued.
    Disconnected,
}

impl<M, R> SendFuture<M, R> {
    /// The mailbox this send is bound to.
    pub closed spec fn spec_mailbox_id(&self) -> u64 {
        self.mailbox_id
    }

    /// The message this send carries, still whole and undelivered.
    pub closed spec fn spec_message(&self) -> M {
        self.message
    }

    pub(crate) fn new(mailbox_id: u64, message: M) -> (f: SendFuture<M, R>)
        ensures
            f.spec_mailbox_id() == mailbox_id,
            f.spec_message() == message,
    {
        SendFuture { mailbox_id, message, _returns: PhantomData }
    }

    /// One attempt to enqueue the message: the first suspension point of a
    /// send. Delivery is all-or-nothing: the message is either accepted
    /// whole (and counted in the mailbox), left untouched under
    /// backpressure, or rejected with `Disconnected`; a disconnected
    /// mailbox resolves the attempt at once rather than suspending it.
    pub fn poll_enqueue(self, mailbox: &mut Mailbox) -> (r: SendPoll<M, R>)
        requires
            self.spec_mailbox_id() == old(mailbox).spec_id(),
            old(mailbox).spec_len() < usize::MAX,
        ensures
            !old(mailbox).spec_connected() ==> r is Disconnected && *final(mailbox) == *old(mailbox),
            old(mailbox).spec_connected() && old(mailbox).spec_is_full() ==> (r matches
                SendPoll::Full(f) && f == self) && *final(mailbox) == *old(mailbox),
            old(mailbox).spec_connected() && !old(mailbox).spec_is_full() ==> (r matches
                SendPoll::Accepted(m, resolve) && m == self.spec_message()
                && resolve.spec_mailbox_id() == self.spec_mailbox_id())
                && final(mailbox).spec_len() == old(mailbox).spec_len() + 1,
            final(mailbox).spec_id() == old(mailbox).spec_id(),
            final(mailbox).spec_capacity() == old(mailbox).spec_capacity(),
            final(mailbox).spec_connected() == old(mailbox).spec_connected(),
            final(mailbox).spec_strong_count() == old(mailbox).spec_strong_count(),
            final(mailbox).spec_sender_count() == old(mailbox).spec_sender_count(),
            final(mailbox).spec_receiver_count() == old(mailbox).spec_receiver_count(),
            old(mailbox).wf() ==> final(mailbox).wf(),
    {
        if !mailbox.is_connected() {
            SendPoll::Disconnected
        } else if mailbox.is_full() {
            SendPoll::Full(self)
        } else {
            mailbox.enqueue();
            SendPoll::Accepted(
                self.message,
                ResolveToHandlerReturn { mailbox_id: self.mailbox_id, _returns: PhantomData },
            )
        }
    }
}

/// A send in its second phase: the message was accepted and the sender
/// awaits the handler's return value, the second suspension point.
pub struct ResolveToHandlerReturn<R> {
    mailbox_id: u64,
    _returns: PhantomData<R>,
}

impl<R> ResolveToHandlerReturn<R> {
    /// The mailbox this pending resolution is bound to.
    pub closed spec fn spec_mailbox_id(&self) -> u64 {
        self.mailbox_id
    }

    /// The handler produced its value: the send resolves to exactly that
    /// value.
    pub fn resolve(self, value: R) -> (r: Result<R, Disconnected>)
        ensures
            r == Ok::<R, Disconnected>(value),
    {
        Ok(value)
    }

    /// The mailbox disconnected while the sender was waiting for the
    /// handler: the send resolves to the error instead of hanging.
    pub fn resolve_disconnected(self, mailbox: &Mailbox) -> (r: Result<R, Disconnected>)
        requires
            self.spec_mailbox_id() == mailbox.spec_id(),
            !mailbox.spec_connected(),
        ensures
            r == Err::<R, Disconnected>(Disconnected),
    {
        Err(Disconnected)
    }
}

/// Waits until the mailbox becomes permanently disconnected. Polling takes
/// only a shared reference: any number of holders may poll, repeatedly and
/// after disconnection, and all of them observe ready once it has happened.
pub struct ActorJoinHandle {
    mailbox_id: u64,
}

impl ActorJoinHandle {
    /// The mailbox this handle waits on.
    pub closed spec fn spec_mailbox_id(&self) -> u64 {
        self.mailbox_id
    }

    pub(crate) fn new(mailbox_id: u64) -> (h: ActorJoinHandle)
        ensures
            h.spec_mailbox_id() == mailbox_id,
    {
        ActorJoinHandle { mailbox_id }
    }

    /// Ready exactly when the mailbox has disconnected; a call after
    /// disconnection is ready immediately.
    pub fn poll(&self, mailbox: &Mailbox) -> (r: bool)
        requires
            self.spec_mailbox_id() == mailbox.spec_id(),
        ensures
            r == !mailbox.spec_connected(),
    {
        !mailbox.is_connected()
    }
}

} // verus!
