//! The shared mailbox state that every address and channel to one actor
//! refers to: a message queue (counted here, its entries routed by the
//! surrounding runtime), an optional capacity bound, the connection-liveness
//! flag and the reference counters. The queue and the counters are
//! mailbox-wide: they cover all queued messages of all message types, not a
//! per-channel sub-queue, so every handle over the same mailbox observes the
//! same live values.
//!
//! The mailbox's identity is a stable number standing for the shared
//! allocation: two handles name the same actor exactly when they carry the
//! same mailbox identity.

use vstd::prelude::*;

verus! {

/// The hash input of a handle's identity key: the mailbox identity in
/// little-endian byte order, then the strength flag as one further byte of
/// its own, so the flag can never run together with the identity bytes.
pub open spec fn spec_identity_hash_bytes(id: u64, strong: bool) -> Seq<u8> {
    seq![
        (id & 0xff) as u8,
        ((id >> 8) & 0xff) as u8,
        ((id >> 16) & 0xff) as u8,
        ((id >> 24) & 0xff) as u8,
        ((id >> 32) & 0xff) as u8,
        ((id >> 40) & 0xff) as u8,
        ((id >> 48) & 0xff) as u8,
        ((id >> 56) & 0xff) as u8,
        if strong {
            1u8
        } else {
            0u8
        },
    ]
}

/// The bytes a handle feeds to a hasher: a function of the identity key
/// alone, so two handles over the same mailbox with the same strength hash
/// alike.
pub fn identity_hash_bytes(id: u64, strong: bool) -> (r: Vec<u8>)
    ensures
        r@ == spec_identity_hash_bytes(id, strong),
{
    let mut r: Vec<u8> = Vec::new();
    r.push((id & 0xff) as u8);
    r.push(((id >> 8) & 0xff) as u8);
    r.push(((id >> 16) & 0xff) as u8);
    r.push(((id >> 24) & 0xff) as u8);
    r.push(((id >> 32) & 0xff) as u8);
    r.push(((id >> 40) & 0xff) as u8);
    r.push(((id >> 48) & 0xff) as u8);
    r.push(((id >> 56) & 0xff) as u8);
    r.push(if strong { 1 } else { 0 });
    proof {
        assert(r@ =~= spec_identity_hash_bytes(id, strong));
    }
    r
}

/// The hash bytes identify the key exactly: two identity keys hash to the
/// same bytes only when the keys are the same. In particular, handles of
/// different strength over one mailbox never collide, because the strength
/// flag stands in a byte of its own.
pub proof fn lemma_identity_hash_injective(id1: u64, strong1: bool, id2: u64, strong2: bool)
    ensures
        spec_identity_hash_bytes(id1, strong1) == spec_identity_hash_bytes(id2, strong2) <==> (id1
            == id2 && strong1 == strong2),
{
    if spec_identity_hash_bytes(id1, strong1) == spec_identity_hash_bytes(id2, strong2) {
        let b1 = spec_identity_hash_bytes(id1, strong1);
        let b2 = spec_identity_hash_bytes(id2, strong2);
        assert(b1[8] == b2[8]);
        assert(strong1 == strong2);
        // Each of the eight identity bytes matches, so the identities match.
        assert((id1 & 0xff) as u8 == (id2 & 0xff) as u8
            && ((id1 >> 8) & 0xff) as u8 == ((id2 >> 8) & 0xff) as u8
            && ((id1 >> 16) & 0xff) as u8 == ((id2 >> 16) & 0xff) as u8
            && ((id1 >> 24) & 0xff) as u8 == ((id2 >> 24) & 0xff) as u8
            && ((id1 >> 32) & 0xff) as u8 == ((id2 >> 32) & 0xff) as u8
            && ((id1 >> 40) & 0xff) as u8 == ((id2 >> 40) & 0xff) as u8
            && ((id1 >> 48) & 0xff) as u8 == ((id2 >> 48) & 0xff) as u8
            && ((id1 >> 56) & 0xff) as u8 == ((id2 >> 56) & 0xff) as u8);
        assert((id1 & 0xff) as u8 == (id2 & 0xff) as u8
            && ((id1 >> 8) & 0xff) as u8 == ((id2 >> 8) & 0xff) as u8
            && ((id1 >> 16) & 0xff) as u8 == ((id2 >> 16) & 0xff) as u8
            && ((id1 >> 24) & 0xff) as u8 == ((id2 >> 24) & 0xff) as u8
            && ((id1 >> 32) & 0xff) as u8 == ((id2 >> 32) & 0xff) as u8
            && ((id1 >> 40) & 0xff) as u8 == ((id2 >> 40) & 0xff) as u8
            && ((id1 >> 48) & 0xff) as u8 == ((id2 >> 48) & 0xff) as u8
            && ((id1 >> 56) & 0xff) as u8 == ((id2 >> 56) & 0xff) as u8 ==> id1 == id2)
            by (bit_vector);
    }
}

/// The shared per-actor state block. One value of this type stands behind
/// all addresses and channels to one actor; operations that change it take
/// it by `&mut`.
pub struct Mailbox {
    /// Stable identity of the shared allocation.
    id: u64,
    /// Messages currently queued, all message types together.
    queued: usize,
    /// `None` = unbounded; `Some(n)` = at most `n` queued messages.
    bound: Option<usize>,
    /// Whether the receiving side is still alive.
    connected: bool,
    /// Strong references currently held; the actor stops when this drops
    /// from one to zero.
    strong: usize,
    /// Diagnostic count of registered sending handles.
    senders: usize,
    /// Diagnostic count of receiving ends (one while the actor runs).
    receivers: usize,
}

impl Mailbox {
    /// The stable identity standing for the shared allocation's address.
    pub closed spec fn spec_id(&self) -> u64 {
        self.id
    }

    /// Queued messages, mailbox-wide.
    pub closed spec fn spec_len(&self) -> usize {
        self.queued
    }

    /// The capacity bound; `None` = unbounded.
    pub closed spec fn spec_capacity(&self) -> Option<usize> {
        self.bound
    }

    /// Whether the receiving side is still alive.
    pub closed spec fn spec_connected(&self) -> bool {
        self.connected
    }

    /// Strong references currently held.
    pub closed spec fn spec_strong_count(&self) -> usize {
        self.strong
    }

    /// Registered sending handles.
    pub closed spec fn spec_sender_count(&self) -> usize {
        self.senders
    }

    /// Receiving ends still present.
    pub closed spec fn spec_receiver_count(&self) -> usize {
        self.receivers
    }

    /// A bounded mailbox never holds more than its bound allows.
    pub open spec fn wf(&self) -> bool {
        self.spec_capacity() matches Some(c) ==> self.spec_len() <= c
    }

    /// No more messages can be accepted right now: the mailbox is bounded
    /// and full. An unbounded mailbox is never full.
    pub open spec fn spec_is_full(&self) -> bool {
        match self.spec_capacity() {
            Some(c) => self.spec_len() >= c,
            None => false,
        }
    }

    /// A fresh connected mailbox without a capacity bound.
    pub fn unbounded(id: u64) -> (m: Mailbox)
        ensures
            m.spec_id() == id,
            m.spec_len() == 0,
            m.spec_capacity() is None,
            m.spec_connected(),
            m.spec_strong_count() == 0,
            m.spec_sender_count() == 0,
            m.spec_receiver_count() == 1,
            m.wf(),
    {
        Mailbox {
            id,
            queued: 0,
            bound: None,
            connected: true,
            strong: 0,
            senders: 0,
            receivers: 1,
        }
    }

    /// A fresh connected mailbox holding at most `capacity` messages.
    pub fn bounded(id: u64, capacity: usize) -> (m: Mailbox)
        ensures
            m.spec_id() == id,
            m.spec_len() == 0,
            m.spec_capacity() == Some(capacity),
            m.spec_connected(),
            m.spec_strong_count() == 0,
            m.spec_sender_count() == 0,
            m.spec_receiver_count() == 1,
            m.wf(),
    {
        Mailbox {
            id,
            queued: 0,
            bound: Some(capacity),
            connected: true,
            strong: 0,
            senders: 0,
            receivers: 1,
        }
    }

    /// The stable identity standing for the shared allocation's address.
    pub fn id_of(&self) -> (r: u64)
        ensures
            r == self.spec_id(),
    {
        self.id
    }

    /// Whether the receiving side is still alive and accepting messages.
    pub fn is_connected(&self) -> (r: bool)
        ensures
            r == self.spec_connected(),
    {
        self.connected
    }

    /// The number of queued messages, all message types together.
    pub fn len(&self) -> (r: usize)
        ensures
            r == self.spec_len(),
    {
        self.queued
    }

    /// The capacity bound, `None` meaning unbounded.
    pub fn capacity(&self) -> (r: Option<usize>)
        ensures
            r == self.spec_capacity(),
    {
        self.bound
    }

    /// Whether a further message would exceed the bound right now.
    pub fn is_full(&self) -> (r: bool)
        ensures
            r == self.spec_is_full(),
    {
        match self.bound {
            Some(c) => self.queued >= c,
            None => false,
        }
    }

    /// Strong references currently held.
    pub fn strong_count(&self) -> (r: usize)
        ensures
            r == self.spec_strong_count(),
    {
        self.strong
    }

    /// Diagnostic snapshot of the registered sending handles.
    pub fn sender_count(&self) -> (r: usize)
        ensures
            r == self.spec_sender_count(),
    {
        self.senders
    }

    /// Diagnostic snapshot of the receiving ends still present.
    pub fn receiver_count(&self) -> (r: usize)
        ensures
            r == self.spec_receiver_count(),
    {
        self.receivers
    }

    /// Accept one message into the queue. Admission is all-or-nothing: this
    /// is called only when the mailbox is connected and not full, and it
    /// then accounts for exactly one more queued message.
    pub fn enqueue(&mut self)
        requires
            old(self).spec_connected(),
            !old(self).spec_is_full(),
            old(self).spec_len() < usize::MAX,
        ensures
            final(self).spec_len() == old(self).spec_len() + 1,
            final(self).spec_id() == old(self).spec_id(),
            final(self).spec_capacity() == old(self).spec_capacity(),
            final(self).spec_connected() == old(self).spec_connected(),
            final(self).spec_strong_count() == old(self).spec_strong_count(),
            final(self).spec_sender_count() == old(self).spec_sender_count(),
            final(self).spec_receiver_count() == old(self).spec_receiver_count(),
            old(self).wf() ==> final(self).wf(),
    {
        self.queued = self.queued + 1;
    }

    /// Remove one message from the queue, as the runtime does when it hands
    /// the message to the actor's handler.
    pub fn dequeue(&mut self)
        requires
            old(self).spec_len() > 0,
        ensures
            final(self).spec_len() == old(self).spec_len() - 1,
            final(self).spec_id() == old(self).spec_id(),
            final(self).spec_capacity() == old(self).spec_capacity(),
            final(self).spec_connected() == old(self).spec_connected(),
            final(self).spec_strong_count() == old(self).spec_strong_count(),
            final(self).spec_sender_count() == old(self).spec_sender_count(),
            final(self).spec_receiver_count() == old(self).spec_receiver_count(),
            old(self).wf() ==> final(self).wf(),
    {
        self.queued = self.queued - 1;
    }

    /// The receiving side goes away for good: the actor has stopped. From
    /// here on the mailbox stays disconnected forever; no operation of this
    /// layer reconnects it.
    pub fn disconnect(&mut self)
        ensures
            !final(self).spec_connected(),
            final(self).spec_receiver_count() == 0,
            final(self).spec_id() == old(self).spec_id(),
            final(self).spec_len() == old(self).spec_len(),
            final(self).spec_capacity() == old(self).spec_capacity(),
            final(self).spec_strong_count() == old(self).spec_strong_count(),
            final(self).spec_sender_count() == old(self).spec_sender_count(),
            old(self).wf() ==> final(self).wf(),
    {
        self.connected = false;
        self.receivers = 0;
    }

    /// Register one more sending handle: every new handle is counted, and a
    /// strong one is also counted toward the strong-reference count.
    pub fn register_sender(&mut self, strong: bool)
        requires
            old(self).spec_sender_count() < usize::MAX,
            old(self).spec_strong_count() < usize::MAX,
        ensures
            final(self).spec_sender_count() == old(self).spec_sender_count() + 1,
            final(self).spec_strong_count() == if strong {
                old(self).spec_strong_count() + 1
            } else {
                old(self).spec_strong_count() as int
            },
            final(self).spec_id() == old(self).spec_id(),
            final(self).spec_len() == old(self).spec_len(),
            final(self).spec_capacity() == old(self).spec_capacity(),
            final(self).spec_connected() == old(self).spec_connected(),
            final(self).spec_receiver_count() == old(self).spec_receiver_count(),
            old(self).wf() ==> final(self).wf(),
    {
        self.senders = self.senders + 1;
        if strong {
            self.strong = self.strong + 1;
        }
    }

    /// Release one sending handle, with guaranteed effect on every exit
    /// path: a strong handle gives its strong count back, and when the last
    /// strong reference goes, the actor's stop is triggered and the mailbox
    /// disconnects.
    pub fn release_sender(&mut self, strong: bool)
        requires
            old(self).spec_sender_count() > 0,
            strong ==> old(self).spec_strong_count() > 0,
        ensures
            final(self).spec_sender_count() == old(self).spec_sender_count() - 1,
            final(self).spec_strong_count() == if strong {
                old(self).spec_strong_count() - 1
            } else {
                old(self).spec_strong_count() as int
            },
            final(self).spec_connected() == (old(self).spec_connected() && !(strong
                && old(self).spec_strong_count() == 1)),
            final(self).spec_receiver_count() == if final(self).spec_connected() {
                old(self).spec_receiver_count()
            } else {
                0usize
            },
            final(self).spec_id() == old(self).spec_id(),
            final(self).spec_len() == old(self).spec_len(),
            final(self).spec_capacity() == old(self).spec_capacity(),
            old(self).wf() ==> final(self).wf(),
    {
        self.senders = self.senders - 1;
        if strong {
            self.strong = self.strong - 1;
            if self.strong == 0 {
                self.connected = false;
            }
        }
        if !self.connected {
            self.receivers = 0;
        }
    }
}

} // verus!
