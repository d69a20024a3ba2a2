//! A message channel is a handle through which one kind of message can be
//! sent to any actor able to handle it, without the sender knowing the
//! actor's concrete type. The channel keeps the actor system's identity,
//! strength (reference-counting) and disconnection semantics: it is bound to
//! one shared mailbox, compares equal to another channel exactly when both
//! name the same mailbox with the same strength, and sending to a mailbox
//! whose receiving side is gone resolves to [`Disconnected`].

use vstd::prelude::*;

pub mod address;
pub mod mailbox;
pub mod message_channel;
pub mod refcount;
pub mod send_future;

verus! {

/// The single error of this layer: the mailbox's receiving side has
/// permanently gone away. It is observed either at the moment of sending or
/// while a send is waiting, and is always surfaced through the `Result` of a
/// send; no other runtime error exists here.
#[derive(Clone, Copy, Debug, PartialEq, Eq, Structural)]
pub struct Disconnected;

} // verus!
