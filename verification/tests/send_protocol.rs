//! Sending, disconnection, backpressure, joining, and the reference-count
//! effects on the shared mailbox, driven the way a runtime would drive them.

use xtra::address::{Address, Handler};
use xtra::mailbox::Mailbox;
use xtra::message_channel::MessageChannel;
use xtra::refcount::{Either, RefCounter, Strong, Weak};
use xtra::send_future::{SendFuture, SendPoll};
use xtra::Disconnected;

struct PingActor;
struct Ping;

impl Handler<Ping> for PingActor {
    type Return = String;

    fn handle(&mut self, _message: Ping) -> Self::Return {
        String::from("pong")
    }
}

struct ActorA;
struct ActorB;
struct Name;

impl Handler<Name> for ActorA {
    type Return = String;

    fn handle(&mut self, _message: Name) -> Self::Return {
        String::from("A-name")
    }
}

impl Handler<Name> for ActorB {
    type Return = String;

    fn handle(&mut self, _message: Name) -> Self::Return {
        String::from("B-name")
    }
}

/// Drive one send to completion against an actor, as the runtime would:
/// enqueue, route the message to the handler, resolve with its return.
fn run_to_completion<A, M>(
    future: SendFuture<M, A::Return>,
    mailbox: &mut Mailbox,
    actor: &mut A,
) -> Result<A::Return, Disconnected>
where
    A: Handler<M>,
{
    match future.poll_enqueue(mailbox) {
        SendPoll::Accepted(message, resolve) => {
            mailbox.dequeue();
            resolve.resolve(actor.handle(message))
        }
        SendPoll::Full(_pending) => panic!("no concurrent sender: the mailbox cannot be full"),
        SendPoll::Disconnected => Err(Disconnected),
    }
}

#[test]
fn send_resolves_to_handler_return_then_disconnected() {
    let mut mb = Mailbox::unbounded(1);
    let mut actor = PingActor;
    let strong: Address<PingActor> = Address::new(&mut mb, Strong);
    let weak: Address<PingActor, Weak> = Address::new(&mut mb, Weak);
    let c = MessageChannel::<Ping, String, Strong>::new(strong);
    let cw = MessageChannel::<Ping, String, Weak>::new(weak);

    let ok = run_to_completion(c.send(Ping), &mut mb, &mut actor);
    assert_eq!(ok, Ok(String::from("pong")));

    // The last strong reference goes away, so the actor stops.
    c.release(&mut mb);
    assert!(!cw.is_connected(&mb));

    let err = run_to_completion(cw.send(Ping), &mut mb, &mut actor);
    assert_eq!(err, Err(Disconnected));

    // Joining after disconnection is ready immediately.
    assert!(cw.join().poll(&mb));
}

#[test]
fn erased_channels_reach_distinct_actor_types() {
    let mut mb_a = Mailbox::unbounded(10);
    let mut mb_b = Mailbox::unbounded(11);
    let mut actor_a = ActorA;
    let mut actor_b = ActorB;
    let channel_a =
        MessageChannel::<Name, String, Strong>::new(Address::<ActorA>::new(&mut mb_a, Strong));
    let channel_b =
        MessageChannel::<Name, String, Strong>::new(Address::<ActorB>::new(&mut mb_b, Strong));

    // One channel type addresses two distinct concrete actor types.
    let channels = [channel_a, channel_b];

    let ra = run_to_completion(channels[0].send(Name), &mut mb_a, &mut actor_a);
    let rb = run_to_completion(channels[1].send(Name), &mut mb_b, &mut actor_b);
    assert_eq!(ra, Ok(String::from("A-name")));
    assert_eq!(rb, Ok(String::from("B-name")));
    assert!(!channels[0].same_actor(&channels[1]));
}

#[test]
fn send_to_disconnected_mailbox_resolves_at_once() {
    let mut mb = Mailbox::unbounded(12);
    let a: Address<PingActor> = Address::new(&mut mb, Strong);
    let c = MessageChannel::<Ping, String, Strong>::new(a);
    mb.disconnect();

    // The poll resolves: it is never left pending on a dead mailbox.
    match c.send(Ping).poll_enqueue(&mut mb) {
        SendPoll::Disconnected => {}
        SendPoll::Accepted(_, _) => panic!("a dead mailbox must not accept"),
        SendPoll::Full(_) => panic!("a dead mailbox must not suspend the sender"),
    }
    assert_eq!(mb.len(), 0, "rejection enqueues nothing: delivery is all-or-nothing");
}

#[test]
fn send_via_one_channel_read_via_another() {
    let mut mb = Mailbox::bounded(13, 4);
    let a: Address<PingActor> = Address::new(&mut mb, Strong);
    let b: Address<PingActor> = Address::new(&mut mb, Strong);
    let ca = MessageChannel::<Ping, String, Strong>::new(a);
    let cb = MessageChannel::<Ping, String, Strong>::new(b);

    assert_eq!(cb.len(&mb), 0);
    match ca.send(Ping).poll_enqueue(&mut mb) {
        SendPoll::Accepted(_message, _resolve) => {}
        _ => panic!("a connected mailbox with room accepts"),
    }
    assert_eq!(cb.len(&mb), 1, "the queue is shared, not per channel");
    assert_eq!(cb.capacity(&mb), Some(4));
    assert!(!cb.is_empty(&mb));
}

#[test]
fn bounded_mailbox_full_suspends_and_retries() {
    let mut mb = Mailbox::bounded(14, 1);
    let a: Address<PingActor> = Address::new(&mut mb, Strong);
    let c = MessageChannel::<Ping, String, Strong>::new(a);

    let first = match c.send(Ping).poll_enqueue(&mut mb) {
        SendPoll::Accepted(_message, resolve) => resolve,
        _ => panic!("the first message fits"),
    };

    // The mailbox is full: the second send suspends, enqueuing nothing...
    let pending = match c.send(Ping).poll_enqueue(&mut mb) {
        SendPoll::Full(f) => f,
        _ => panic!("a full mailbox suspends the sender"),
    };
    assert_eq!(c.len(&mb), 1);

    // ...until the runtime makes room; then the retry is accepted whole.
    mb.dequeue();
    let mut actor = PingActor;
    assert_eq!(first.resolve(actor.handle(Ping)), Ok(String::from("pong")));
    match pending.poll_enqueue(&mut mb) {
        SendPoll::Accepted(_message, _resolve) => {}
        _ => panic!("room again: the retried send is accepted"),
    }
    assert_eq!(c.len(&mb), 1);
}

#[test]
fn disconnection_while_awaiting_handler_resolves_err() {
    let mut mb = Mailbox::unbounded(15);
    let a: Address<PingActor> = Address::new(&mut mb, Strong);
    let c = MessageChannel::<Ping, String, Strong>::new(a);

    let resolve = match c.send(Ping).poll_enqueue(&mut mb) {
        SendPoll::Accepted(_message, resolve) => resolve,
        _ => panic!("a connected unbounded mailbox accepts"),
    };
    mb.disconnect();
    assert_eq!(resolve.resolve_disconnected(&mb), Err(Disconnected));
}

#[test]
fn join_waits_for_disconnection() {
    let mut mb = Mailbox::unbounded(16);
    let a: Address<PingActor> = Address::new(&mut mb, Strong);
    let c = MessageChannel::<Ping, String, Strong>::new(a);
    let handle = c.join();

    assert!(!handle.poll(&mb), "a live mailbox keeps join waiting");
    mb.disconnect();
    assert!(handle.poll(&mb));
    assert!(handle.poll(&mb), "polling again after disconnection is still ready");
    assert!(c.join().poll(&mb), "a join started after disconnection is ready at once");
}

#[test]
fn refcount_effects_on_the_shared_mailbox() {
    let mut mb = Mailbox::unbounded(17);
    assert_eq!(mb.strong_count(), 0);
    assert_eq!(mb.sender_count(), 0);
    assert_eq!(mb.receiver_count(), 1);

    let a: Address<PingActor> = Address::new(&mut mb, Strong);
    assert_eq!(mb.strong_count(), 1);
    assert_eq!(mb.sender_count(), 1);

    let c = MessageChannel::<Ping, String, Strong>::new(a);
    assert_eq!(mb.strong_count(), 1, "building a channel carries the reference over");

    let c2 = c.clone_channel(&mut mb);
    assert_eq!(mb.strong_count(), 2, "a strong duplicate is counted");
    assert_eq!(mb.sender_count(), 2);

    let w = c.downgrade();
    assert_eq!(mb.strong_count(), 2, "downgrading takes no count");
    let w2 = w.clone_channel(&mut mb);
    assert_eq!(mb.strong_count(), 2, "a weak duplicate never touches the strong count");
    assert_eq!(mb.sender_count(), 3);

    c2.release(&mut mb);
    assert!(mb.is_connected(), "one strong reference still holds the actor");
    c.release(&mut mb);
    assert!(!mb.is_connected(), "the last strong release stops the actor");
    assert_eq!(mb.receiver_count(), 0);
    w2.release(&mut mb);
    assert_eq!(mb.sender_count(), 0);
}

#[test]
fn either_wraps_a_fixed_strength() {
    assert!(Either::Strong.is_strong());
    assert!(!Either::Weak.is_strong());
    assert!(Strong.is_strong());
    assert!(!Weak.is_strong());
    assert_eq!(Strong.to_either(), Either::Strong);
    assert_eq!(Weak.to_either(), Either::Weak);
    assert_eq!(Either::Strong.to_either(), Either::Strong);
    assert_eq!(Either::Weak.to_either(), Either::Weak);
}

#[test]
fn hash_bytes_encode_identity_then_strength() {
    let mut mb = Mailbox::unbounded(0x0102030405060708);
    let a: Address<PingActor> = Address::new(&mut mb, Strong);
    let c = MessageChannel::<Ping, String, Strong>::new(a);

    let bytes = c.hash_bytes();
    assert_eq!(
        bytes,
        vec![0x08, 0x07, 0x06, 0x05, 0x04, 0x03, 0x02, 0x01, 1]
    );
    let weak_bytes = c.downgrade().hash_bytes();
    assert_eq!(
        weak_bytes,
        vec![0x08, 0x07, 0x06, 0x05, 0x04, 0x03, 0x02, 0x01, 0]
    );
    assert_eq!(bytes.len(), weak_bytes.len());
    assert_ne!(bytes, weak_bytes, "the strength flag is a byte of its own");
}

#[test]
fn address_probes_match_channel_probes() {
    let mut mb = Mailbox::bounded(18, 2);
    let a: Address<PingActor> = Address::new(&mut mb, Strong);

    assert!(a.is_connected(&mb));
    assert_eq!(a.len(&mb), 0);
    assert_eq!(a.capacity(&mb), Some(2));
    assert_eq!(a.sender_count(&mb), 1);
    assert_eq!(a.receiver_count(&mb), 1);
    assert!(a.is_strong());
    assert!(!a.to_weak().is_strong());
    assert!(a.to_either().is_strong());
    assert_eq!(a.to_inner_ptr(), 18);
    assert_eq!(a.hash_bytes(), vec![18, 0, 0, 0, 0, 0, 0, 0, 1]);

    let a2 = a.clone_channel(&mut mb);
    assert_eq!(mb.strong_count(), 2);
    assert!(!a2.join().poll(&mb));

    let c = MessageChannel::<Ping, String, Strong>::new(a.clone());
    assert_eq!(c.to_inner_ptr(), a.to_inner_ptr());
    a.release(&mut mb);
    a2.release(&mut mb);
    assert!(!mb.is_connected());
}
