//! The typed sending handle: an address knows the concrete actor type it
//! points at and the strength of its reference. A message channel is built
//! from an address and forgets the actor type; the address is where the
//! handler capability (the compile-time proof that the actor can process a
//! given message type) is checked.

use vstd::prelude::*;

use core::marker::PhantomData;

use crate::mailbox::{spec_identity_hash_bytes, identity_hash_bytes, Mailbox};
use crate::refcount::{Either, RefCounter, Strong, Weak};
use crate::send_future::{ActorJoinHandle, SendFuture};

verus! {

/// The handler capability: implementing this trait is the compile-time
/// guarantee that an actor type processes messages of type `M` and yields
/// `Return` to the sender. Message and return type correctness is enforced
/// entirely here; no runtime error of this layer can stand in for it.
pub trait Handler<M>: Sized {
    /// The value a handled message resolves to on the sender's side.
    type Return;

    /// Process one message. What the handler returns is the actor's own
    /// business; this layer only routes it back to the sender.
    fn handle(&mut self, message: M) -> Self::Return;
}

/// A typed sending handle of strength `Rc` to the mailbox of one actor of
/// type `A`.
pub struct Address<A, Rc = Strong> {
    mailbox_id: u64,
    rc: Rc,
    _actor: PhantomData<A>,
}

impl<A, Rc: RefCounter> Address<A, Rc> {
    /// The identity of the mailbox this address points at.
    pub closed spec fn spec_mailbox_id(&self) -> u64 {
        self.mailbox_id
    }

    /// The strength this address carries.
    pub closed spec fn spec_rc(&self) -> Rc {
        self.rc
    }

    /// Whether this address keeps the actor alive.
    pub open spec fn spec_is_strong(&self) -> bool {
        self.spec_rc().spec_is_strong()
    }

    /// Register a new sending handle of the given strength on the mailbox:
    /// the handle is counted, and a strong one is counted toward the
    /// strong-reference count.
    pub fn new(mailbox: &mut Mailbox, rc: Rc) -> (a: Address<A, Rc>)
        requires
            old(mailbox).spec_sender_count() < usize::MAX,
            old(mailbox).spec_strong_count() < usize::MAX,
        ensures
            a.spec_mailbox_id() == old(mailbox).spec_id(),
            a.spec_rc() == rc,
            final(mailbox).spec_sender_count() == old(mailbox).spec_sender_count() + 1,
            final(mailbox).spec_strong_count() == if rc.spec_is_strong() {
                old(mailbox).spec_strong_count() + 1
            } else {
                old(mailbox).spec_strong_count() as int
            },
            final(mailbox).spec_id() == old(mailbox).spec_id(),
            final(mailbox).spec_len() == old(mailbox).spec_len(),
            final(mailbox).spec_capacity() == old(mailbox).spec_capacity(),
            final(mailbox).spec_connected() == old(mailbox).spec_connected(),
            final(mailbox).spec_receiver_count() == old(mailbox).spec_receiver_count(),
            old(mailbox).wf() ==> final(mailbox).wf(),
    {
        let strong = rc.is_strong();
        let id = mailbox.id_of();
        mailbox.register_sender(strong);
        Address { mailbox_id: id, rc, _actor: PhantomData }
    }

    /// Whether the actor is running and accepting messages. Mailbox-wide:
    /// every handle over the same mailbox observes the same value.
    pub fn is_connected(&self, mailbox: &Mailbox) -> (r: bool)
        requires
            self.spec_mailbox_id() == mailbox.spec_id(),
        ensures
            r == mailbox.spec_connected(),
    {
        mailbox.is_connected()
    }

    /// The number of queued messages, all message types together.
    pub fn len(&self, mailbox: &Mailbox) -> (r: usize)
        requires
            self.spec_mailbox_id() == mailbox.spec_id(),
        ensures
            r == mailbox.spec_len(),
    {
        mailbox.len()
    }

    /// The mailbox's total capacity; `None` = unbounded.
    pub fn capacity(&self, mailbox: &Mailbox) -> (r: Option<usize>)
        requires
            self.spec_mailbox_id() == mailbox.spec_id(),
        ensures
            r == mailbox.spec_capacity(),
    {
        mailbox.capacity()
    }

    /// Start a send: the returned future carries the message whole and is
    /// bound to this address's mailbox. The handler capability of `A` for
    /// `M` is what admits the call.
    pub fn send<M, R>(&self, message: M) -> (f: SendFuture<M, R>) where A: Handler<M, Return = R>
        ensures
            f.spec_mailbox_id() == self.spec_mailbox_id(),
            f.spec_message() == message,
    {
        SendFuture::new(self.mailbox_id, message)
    }

    /// A registered duplicate over the same mailbox: identity and strength
    /// preserved, and the mailbox's counters take the strength-appropriate
    /// effect.
    pub fn clone_channel(&self, mailbox: &mut Mailbox) -> (r: Self)
        requires
            self.spec_mailbox_id() == old(mailbox).spec_id(),
            old(mailbox).spec_sender_count() < usize::MAX,
            old(mailbox).spec_strong_count() < usize::MAX,
        ensures
            r.spec_mailbox_id() == self.spec_mailbox_id(),
            r.spec_rc() == self.spec_rc(),
            final(mailbox).spec_sender_count() == old(mailbox).spec_sender_count() + 1,
            final(mailbox).spec_strong_count() == if self.spec_is_strong() {
                old(mailbox).spec_strong_count() + 1
            } else {
                old(mailbox).spec_strong_count() as int
            },
            final(mailbox).spec_id() == old(mailbox).spec_id(),
            final(mailbox).spec_len() == old(mailbox).spec_len(),
            final(mailbox).spec_capacity() == old(mailbox).spec_capacity(),
            final(mailbox).spec_connected() == old(mailbox).spec_connected(),
            final(mailbox).spec_receiver_count() == old(mailbox).spec_receiver_count(),
            old(mailbox).wf() ==> final(mailbox).wf(),
    {
        let strong = self.rc.is_strong();
        mailbox.register_sender(strong);
        Address { mailbox_id: self.mailbox_id, rc: self.rc.duplicate(), _actor: PhantomData }
    }

    /// Give the handle back, with guaranteed effect on every exit path: the
    /// handle leaves the count, and when the last strong reference goes,
    /// the actor's stop is triggered and the mailbox disconnects.
    pub fn release(self, mailbox: &mut Mailbox)
        requires
            self.spec_mailbox_id() == old(mailbox).spec_id(),
            old(mailbox).spec_sender_count() > 0,
            self.spec_is_strong() ==> old(mailbox).spec_strong_count() > 0,
        ensures
            final(mailbox).spec_sender_count() == old(mailbox).spec_sender_count() - 1,
            final(mailbox).spec_strong_count() == if self.spec_is_strong() {
                old(mailbox).spec_strong_count() - 1
            } else {
                old(mailbox).spec_strong_count() as int
            },
            final(mailbox).spec_connected() == (old(mailbox).spec_connected() && !(
            self.spec_is_strong() && old(mailbox).spec_strong_count() == 1)),
            final(mailbox).spec_id() == old(mailbox).spec_id(),
            final(mailbox).spec_len() == old(mailbox).spec_len(),
            final(mailbox).spec_capacity() == old(mailbox).spec_capacity(),
            old(mailbox).wf() ==> final(mailbox).wf(),
    {
        let strong = self.rc.is_strong();
        mailbox.release_sender(strong);
    }

    /// A handle on the mailbox's disconnection, ready once the actor has
    /// stopped for good.
    pub fn join(&self) -> (h: ActorJoinHandle)
        ensures
            h.spec_mailbox_id() == self.spec_mailbox_id(),
    {
        ActorJoinHandle::new(self.mailbox_id)
    }

    /// The stable identity of the shared mailbox, the pointer every handle
    /// to the same actor agrees on.
    pub fn to_inner_ptr(&self) -> (r: u64)
        ensures
            r == self.spec_mailbox_id(),
    {
        self.mailbox_id
    }

    /// The runtime strength flag.
    pub fn is_strong(&self) -> (r: bool)
        ensures
            r == self.spec_is_strong(),
    {
        self.rc.is_strong()
    }

    /// A weak handle over the same mailbox: no count is taken, and the
    /// result never keeps the actor alive.
    pub fn to_weak(&self) -> (r: Address<A, Weak>)
        ensures
            r.spec_mailbox_id() == self.spec_mailbox_id(),
            !r.spec_is_strong(),
    {
        Address { mailbox_id: self.mailbox_id, rc: Weak, _actor: PhantomData }
    }

    /// An `Either`-tagged handle over the same mailbox, wrapping the current
    /// strength; the wrapped strength is fixed from here on.
    pub fn to_either(&self) -> (r: Address<A, Either>)
        ensures
            r.spec_mailbox_id() == self.spec_mailbox_id(),
            r.spec_is_strong() == self.spec_is_strong(),
    {
        Address { mailbox_id: self.mailbox_id, rc: self.rc.to_either(), _actor: PhantomData }
    }

    /// Diagnostic snapshot of the registered sending handles.
    pub fn sender_count(&self, mailbox: &Mailbox) -> (r: usize)
        requires
            self.spec_mailbox_id() == mailbox.spec_id(),
        ensures
            r == mailbox.spec_sender_count(),
    {
        mailbox.sender_count()
    }

    /// Diagnostic snapshot of the receiving ends still present.
    pub fn receiver_count(&self, mailbox: &Mailbox) -> (r: usize)
        requires
            self.spec_mailbox_id() == mailbox.spec_id(),
        ensures
            r == mailbox.spec_receiver_count(),
    {
        mailbox.receiver_count()
    }

    /// Hand over the identity and the strength, as building a channel from
    /// this address does: the reference this address held carries over
    /// unchanged, so no count on the mailbox moves.
    pub(crate) fn into_parts(self) -> (r: (u64, Rc))
        ensures
            r.0 == self.spec_mailbox_id(),
            r.1 == self.spec_rc(),
    {
        (self.mailbox_id, self.rc)
    }

    /// The bytes this handle feeds to a hasher: the mailbox identity, then
    /// the strength flag in a byte of its own.
    pub fn hash_bytes(&self) -> (r: Vec<u8>)
        ensures
            r@ == spec_identity_hash_bytes(self.spec_mailbox_id(), self.spec_is_strong()),
    {
        identity_hash_bytes(self.mailbox_id, self.rc.is_strong())
    }
}

impl<A, Rc: RefCounter> Clone for Address<A, Rc> {
    /// An unregistered duplicate: identity and strength are preserved. The
    /// count bookkeeping lives on the mailbox; `clone_channel` is the
    /// registering duplicate.
    fn clone(&self) -> (r: Self)
        ensures
            r.spec_mailbox_id() == self.spec_mailbox_id(),
            r.spec_rc() == self.spec_rc(),
    {
        Address { mailbox_id: self.mailbox_id, rc: self.rc.duplicate(), _actor: PhantomData }
    }
}

} // verus!
