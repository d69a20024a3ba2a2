//! A message channel is a handle through which one kind of message can be
//! sent to any actor able to handle it. It is like an address, but
//! associated with the message type rather than the actor type: building a
//! channel from an address erases the concrete actor type, keeping only the
//! mailbox identity, the strength of the reference, and the right to send
//! messages of type `M` that resolve to `R`.
//!
//! Identity sees through the erasure: a channel's identity key is the pair
//! of its mailbox identity and its current strength flag, and two channels
//! are equal exactly when their keys match. `same_actor` compares the
//! mailbox identity alone, ignoring strength.

use vstd::prelude::*;

use core::marker::PhantomData;

use crate::address::{Address, Handler};
use crate::mailbox::{
    spec_identity_hash_bytes,
    identity_hash_bytes,
    lemma_identity_hash_injective,
    Mailbox,
};
use crate::refcount::{Either, RefCounter, Strong, Weak};
use crate::send_future::{ActorJoinHandle, SendFuture};
use vstd::std_specs::cmp::PartialEqSpec;

verus! {

/// A channel for messages of type `M` resolving to `R`, of strength `Rc`,
/// to any actor that was proven to handle `M` when the channel was built.
pub struct MessageChannel<M, R, Rc = Strong> {
    mailbox_id: u64,
    rc: Rc,
    _message: PhantomData<M>,
    _returns: PhantomData<R>,
}

impl<M, R, Rc: RefCounter> MessageChannel<M, R, Rc> {
    /// The identity of the mailbox this channel sends into.
    pub closed spec fn spec_mailbox_id(&self) -> u64 {
        self.mailbox_id
    }

    /// The strength this channel carries.
    pub closed spec fn spec_rc(&self) -> Rc {
        self.rc
    }

    /// Whether this channel keeps the actor alive.
    pub open spec fn spec_is_strong(&self) -> bool {
        self.spec_rc().spec_is_strong()
    }

    /// The identity key: mailbox identity and current strength flag. Two
    /// channels are equal exactly when their keys match.
    pub open spec fn spec_key(&self) -> (u64, bool) {
        (self.spec_mailbox_id(), self.spec_is_strong())
    }

    /// Whether this and the other channel address the same actor mailbox,
    /// whatever their strengths.
    pub open spec fn spec_same_actor<Rc2: RefCounter>(
        &self,
        other: &MessageChannel<M, R, Rc2>,
    ) -> bool {
        self.spec_mailbox_id() == other.spec_mailbox_id()
    }

    /// Build a channel from an address whose actor was proven to handle
    /// `M`: the actor type is erased, and the address's identity and
    /// strength carry over unchanged into the channel.
    pub fn new<A>(address: Address<A, Rc>) -> (r: Self) where A: Handler<M, Return = R>
        ensures
            r.spec_mailbox_id() == address.spec_mailbox_id(),
            r.spec_rc() == address.spec_rc(),
    {
        let (mailbox_id, rc) = address.into_parts();
        MessageChannel { mailbox_id, rc, _message: PhantomData, _returns: PhantomData }
    }

    /// Whether the actor is running and accepting messages. Mailbox-wide:
    /// every handle over the same mailbox observes the same value.
    pub fn is_connected(&self, mailbox: &Mailbox) -> (r: bool)
        requires
            self.spec_mailbox_id() == mailbox.spec_id(),
        ensures
            r == mailbox.spec_connected(),
    {
        mailbox.is_connected()
    }

    /// The number of messages in the actor's mailbox: all queued messages
    /// of all message types, not only those sent through this channel.
    pub fn len(&self, mailbox: &Mailbox) -> (r: usize)
        requires
            self.spec_mailbox_id() == mailbox.spec_id(),
        ensures
            r == mailbox.spec_len(),
    {
        mailbox.len()
    }

    /// The total capacity of the actor's mailbox, `None` meaning unbounded;
    /// mailbox-wide, like `len`.
    pub fn capacity(&self, mailbox: &Mailbox) -> (r: Option<usize>)
        requires
            self.spec_mailbox_id() == mailbox.spec_id(),
        ensures
            r == mailbox.spec_capacity(),
    {
        mailbox.capacity()
    }

    /// Whether the actor's mailbox holds no message at all.
    pub fn is_empty(&self, mailbox: &Mailbox) -> (r: bool)
        requires
            self.spec_mailbox_id() == mailbox.spec_id(),
        ensures
            r == (mailbox.spec_len() == 0),
    {
        self.len(mailbox) == 0
    }

    /// Send a message to the actor: the returned future carries the message
    /// whole, is bound to this channel's mailbox, and resolves to the
    /// handler's return value, or to `Disconnected` if the actor is stopped
    /// and not accepting messages.
    pub fn send(&self, message: M) -> (f: SendFuture<M, R>)
        ensures
            f.spec_mailbox_id() == self.spec_mailbox_id(),
            f.spec_message() == message,
    {
        SendFuture::new(self.mailbox_id, message)
    }

    /// A handle that waits until this channel becomes disconnected.
    pub fn join(&self) -> (h: ActorJoinHandle)
        ensures
            h.spec_mailbox_id() == self.spec_mailbox_id(),
    {
        ActorJoinHandle::new(self.mailbox_id)
    }

    /// Whether this and the other channel address the same actor mailbox,
    /// ignoring strength: a strong and a weak channel to one actor are
    /// distinct handles but name the same actor.
    pub fn same_actor<Rc2: RefCounter>(&self, other: &MessageChannel<M, R, Rc2>) -> (r: bool)
        ensures
            r == self.spec_same_actor(other),
    {
        self.mailbox_id == other.to_inner_ptr()
    }

    /// The stable identity of the shared mailbox.
    pub fn to_inner_ptr(&self) -> (r: u64)
        ensures
            r == self.spec_mailbox_id(),
    {
        self.mailbox_id
    }

    /// The runtime strength flag of this channel.
    pub fn is_strong(&self) -> (r: bool)
        ensures
            r == self.spec_is_strong(),
    {
        self.rc.is_strong()
    }

    /// A registered duplicate over the same mailbox: identity and strength
    /// preserved, and the mailbox's counters take the strength-appropriate
    /// effect — a strong channel's duplicate is counted toward the
    /// strong-reference count, a weak one's never is.
    pub fn clone_channel(&self, mailbox: &mut Mailbox) -> (r: Self)
        requires
            self.spec_mailbox_id() == old(mailbox).spec_id(),
            old(mailbox).spec_sender_count() < usize::MAX,
            old(mailbox).spec_strong_count() < usize::MAX,
        ensures
            r.spec_mailbox_id() == self.spec_mailbox_id(),
            r.spec_rc() == self.spec_rc(),
            final(mailbox).spec_sender_count() == old(mailbox).spec_sender_count() + 1,
            final(mailbox).spec_strong_count() == if self.spec_is_strong() {
                old(mailbox).spec_strong_count() + 1
            } else {
                old(mailbox).spec_strong_count() as int
            },
            final(mailbox).spec_id() == old(mailbox).spec_id(),
            final(mailbox).spec_len() == old(mailbox).spec_len(),
            final(mailbox).spec_capacity() == old(mailbox).spec_capacity(),
            final(mailbox).spec_connected() == old(mailbox).spec_connected(),
            final(mailbox).spec_receiver_count() == old(mailbox).spec_receiver_count(),
            old(mailbox).wf() ==> final(mailbox).wf(),
    {
        let strong = self.rc.is_strong();
        mailbox.register_sender(strong);
        MessageChannel {
            mailbox_id: self.mailbox_id,
            rc: self.rc.duplicate(),
            _message: PhantomData,
            _returns: PhantomData,
        }
    }

    /// Give the channel back, with guaranteed effect on every exit path:
    /// the handle leaves the count, and when the last strong reference
    /// goes, the actor's stop is triggered and the mailbox disconnects.
    pub fn release(self, mailbox: &mut Mailbox)
        requires
            self.spec_mailbox_id() == old(mailbox).spec_id(),
            old(mailbox).spec_sender_count() > 0,
            self.spec_is_strong() ==> old(mailbox).spec_strong_count() > 0,
        ensures
            final(mailbox).spec_sender_count() == old(mailbox).spec_sender_count() - 1,
            final(mailbox).spec_strong_count() == if self.spec_is_strong() {
                old(mailbox).spec_strong_count() - 1
            } else {
                old(mailbox).spec_strong_count() as int
            },
            final(mailbox).spec_connected() == (old(mailbox).spec_connected() && !(
            self.spec_is_strong() && old(mailbox).spec_strong_count() == 1)),
            final(mailbox).spec_id() == old(mailbox).spec_id(),
            final(mailbox).spec_len() == old(mailbox).spec_len(),
            final(mailbox).spec_capacity() == old(mailbox).spec_capacity(),
            old(mailbox).wf() ==> final(mailbox).wf(),
    {
        let strong = self.rc.is_strong();
        mailbox.release_sender(strong);
    }

    /// Convert this channel to allow `Either` reference counts: the result
    /// wraps the current strength over the same mailbox, so its identity
    /// key is exactly this channel's key.
    pub fn as_either(&self) -> (r: MessageChannel<M, R, Either>)
        ensures
            r.spec_mailbox_id() == self.spec_mailbox_id(),
            r.spec_is_strong() == self.spec_is_strong(),
            r.spec_key() == self.spec_key(),
    {
        MessageChannel {
            mailbox_id: self.mailbox_id,
            rc: self.rc.to_either(),
            _message: PhantomData,
            _returns: PhantomData,
        }
    }

    /// The bytes this channel feeds to a hasher: a function of the identity
    /// key alone — the mailbox identity, then the strength flag in a byte
    /// of its own.
    pub fn hash_bytes(&self) -> (r: Vec<u8>)
        ensures
            r@ == spec_identity_hash_bytes(self.spec_mailbox_id(), self.spec_is_strong()),
    {
        identity_hash_bytes(self.mailbox_id, self.rc.is_strong())
    }
}

impl<M, R> MessageChannel<M, R, Strong> {
    /// Downgrade to a weak channel: a new handle over the same mailbox that
    /// never keeps the actor alive. No count is taken.
    pub fn downgrade(&self) -> (r: MessageChannel<M, R, Weak>)
        ensures
            r.spec_mailbox_id() == self.spec_mailbox_id(),
            !r.spec_is_strong(),
    {
        MessageChannel {
            mailbox_id: self.mailbox_id,
            rc: Weak,
            _message: PhantomData,
            _returns: PhantomData,
        }
    }
}

impl<M, R> MessageChannel<M, R, Either> {
    /// Downgrade to a weak channel. Available whatever strength the
    /// `Either` wraps: on a weak one it is a no-op that yields an
    /// equal-but-distinct weak handle.
    pub fn downgrade(&self) -> (r: MessageChannel<M, R, Weak>)
        ensures
            r.spec_mailbox_id() == self.spec_mailbox_id(),
            !r.spec_is_strong(),
    {
        MessageChannel {
            mailbox_id: self.mailbox_id,
            rc: Weak,
            _message: PhantomData,
            _returns: PhantomData,
        }
    }
}

impl<M, R, Rc: RefCounter> Clone for MessageChannel<M, R, Rc> {
    /// An unregistered duplicate: identity and strength are preserved, so
    /// the duplicate is equal to the original. The count bookkeeping lives
    /// on the mailbox; `clone_channel` is the registering duplicate.
    fn clone(&self) -> (r: Self)
        ensures
            r.spec_mailbox_id() == self.spec_mailbox_id(),
            r.spec_rc() == self.spec_rc(),
    {
        MessageChannel {
            mailbox_id: self.mailbox_id,
            rc: self.rc.duplicate(),
            _message: PhantomData,
            _returns: PhantomData,
        }
    }
}

/// Building a channel from an address, as `new` does.
impl<A, M, R, Rc: RefCounter> From<Address<A, Rc>> for MessageChannel<M, R, Rc> where A: Handler<M, Return = R> {
    fn from(address: Address<A, Rc>) -> (r: Self) {
        MessageChannel::new(address)
    }
}

impl<A, M, R, Rc: RefCounter> vstd::std_specs::convert::FromSpecImpl<Address<A, Rc>> for MessageChannel<M, R, Rc> where A: Handler<M, Return = R> {
    open spec fn obeys_from_spec() -> bool {
        true
    }

    closed spec fn from_spec(address: Address<A, Rc>) -> Self {
        MessageChannel {
            mailbox_id: address.spec_mailbox_id(),
            rc: address.spec_rc(),
            _message: PhantomData,
            _returns: PhantomData,
        }
    }
}

/// What converting an address gives is what `new` gives: a channel into
/// which the address's identity and strength carried over unchanged.
pub proof fn law_from_preserves_identity<A, M, R, Rc: RefCounter>(
    address: Address<A, Rc>,
    c: MessageChannel<M, R, Rc>,
) where A: Handler<M, Return = R>
    requires
        c == <MessageChannel<M, R, Rc> as vstd::std_specs::convert::FromSpec<
            Address<A, Rc>,
        >>::from_spec(address),
    ensures
        c.spec_mailbox_id() == address.spec_mailbox_id(),
        c.spec_rc() == address.spec_rc(),
{
}

/// Equality is the identity key: this and the other channel address the
/// same actor mailbox and carry the same strength flag. An `Either` channel
/// compares as whichever strength it wraps.
impl<M, R, Rc: RefCounter> PartialEq for MessageChannel<M, R, Rc> {
    fn eq(&self, other: &Self) -> (r: bool) {
        self.same_actor(other) && (self.rc.is_strong() == other.rc.is_strong())
    }
}

impl<M, R, Rc: RefCounter> vstd::std_specs::cmp::PartialEqSpecImpl for MessageChannel<M, R, Rc> {
    open spec fn obeys_eq_spec() -> bool {
        true
    }

    open spec fn eq_spec(&self, other: &Self) -> bool {
        self.spec_key() == other.spec_key()
    }
}

/// Channels over the same mailbox with the same strength are equal, and
/// their hash bytes match.
pub proof fn law_equal_channels_hash_alike<M, R, Rc: RefCounter>(
    c1: MessageChannel<M, R, Rc>,
    c2: MessageChannel<M, R, Rc>,
)
    requires
        c1.spec_key() == c2.spec_key(),
    ensures
        c1.eq_spec(&c2),
        spec_identity_hash_bytes(c1.spec_mailbox_id(), c1.spec_is_strong())
            == spec_identity_hash_bytes(c2.spec_mailbox_id(), c2.spec_is_strong()),
{
}

/// The hash sees exactly the identity key: two channels hash alike when and
/// only when their keys match — the strength flag, standing in a byte of
/// its own, never collides with the identity bytes.
pub proof fn law_hash_is_identity<M, R, Rc: RefCounter, Rc2: RefCounter>(
    c1: MessageChannel<M, R, Rc>,
    c2: MessageChannel<M, R, Rc2>,
)
    ensures
        spec_identity_hash_bytes(c1.spec_mailbox_id(), c1.spec_is_strong())
            == spec_identity_hash_bytes(c2.spec_mailbox_id(), c2.spec_is_strong()) <==> c1.spec_key()
            == c2.spec_key(),
{
    lemma_identity_hash_injective(
        c1.spec_mailbox_id(),
        c1.spec_is_strong(),
        c2.spec_mailbox_id(),
        c2.spec_is_strong(),
    );
}

/// A strong and a weak channel over one mailbox name the same actor, but
/// their identity keys differ: they are not equal.
pub proof fn law_cross_strength<M, R>(
    c1: MessageChannel<M, R, Strong>,
    c2: MessageChannel<M, R, Weak>,
)
    requires
        c1.spec_mailbox_id() == c2.spec_mailbox_id(),
    ensures
        c1.spec_same_actor(&c2),
        c1.spec_key() != c2.spec_key(),
{
}

/// What cloning returns — a channel with the original's identity key — is
/// equal to the original and names the same actor.
pub proof fn law_clone_preserves_identity<M, R, Rc: RefCounter>(
    c: MessageChannel<M, R, Rc>,
    d: MessageChannel<M, R, Rc>,
)
    requires
        d.spec_mailbox_id() == c.spec_mailbox_id(),
        d.spec_rc() == c.spec_rc(),
    ensures
        d.eq_spec(&c),
        d.spec_same_actor(&c),
{
}

/// What downgrading a strong channel returns — a weak channel over the same
/// mailbox — is not strong, names the same actor, and is not equal to the
/// strong original.
pub proof fn law_downgrade<M, R>(
    c: MessageChannel<M, R, Strong>,
    d: MessageChannel<M, R, Weak>,
)
    requires
        d.spec_mailbox_id() == c.spec_mailbox_id(),
    ensures
        !d.spec_is_strong(),
        d.spec_same_actor(&c),
        d.spec_key() != c.spec_key(),
{
}

/// What `as_either` returns — an `Either` channel wrapping the original's
/// strength over the same mailbox — reports the original's strength and has
/// the original's identity key.
pub proof fn law_as_either<M, R, Rc: RefCounter>(
    c: MessageChannel<M, R, Rc>,
    e: MessageChannel<M, R, Either>,
)
    requires
        e.spec_mailbox_id() == c.spec_mailbox_id(),
        e.spec_is_strong() == c.spec_is_strong(),
    ensures
        e.spec_key() == c.spec_key(),
        e.spec_same_actor(&c),
{
}

/// The counters are mailbox-wide, not channel-local: when a send through
/// one channel has enqueued its message, any channel over the same mailbox
/// reads the incremented length and the unchanged capacity, because both
/// channels are bound to the one mailbox the send changed.
pub proof fn law_counters_shared<M, R, Rc: RefCounter, Rc2: RefCounter>(
    a: MessageChannel<M, R, Rc>,
    b: MessageChannel<M, R, Rc2>,
    before: Mailbox,
    after: Mailbox,
)
    requires
        a.spec_mailbox_id() == before.spec_id(),
        b.spec_mailbox_id() == before.spec_id(),
        after.spec_id() == before.spec_id(),
        after.spec_len() == before.spec_len() + 1,
        after.spec_capacity() == before.spec_capacity(),
    ensures
        b.spec_mailbox_id() == after.spec_id(),
        after.spec_len() == before.spec_len() + 1,
        after.spec_capacity() == before.spec_capacity(),
{
}

} // verus!
