//! The channel's identity, equality and hashing behavior, seen from outside.

use xtra::address::{Address, Handler};
use xtra::mailbox::Mailbox;
use xtra::message_channel::MessageChannel;
use xtra::refcount::{Strong, Weak};

struct TestActor;
struct TestMessage;

impl Handler<TestMessage> for TestActor {
    type Return = ();

    fn handle(&mut self, _message: TestMessage) -> Self::Return {}
}

type TestMessageChannel = MessageChannel<TestMessage, ()>;

#[test]
fn hashcode() {
    let mut mb = Mailbox::unbounded(1);
    let a1: Address<TestActor> = Address::new(&mut mb, Strong);
    let c1 = TestMessageChannel::new(a1.clone());

    let h1 = c1.hash_bytes();
    let h2 = c1.clone().hash_bytes();
    let h3 = TestMessageChannel::new(a1).hash_bytes();
    assert!(!h1.is_empty(), "the hash data not be empty");

    assert_eq!(h1, h2, "hashes from cloned channels should match");
    assert_eq!(h1, h3, "hashes channels created against the same address should match");

    let mut mb2 = Mailbox::unbounded(2);
    let a4: Address<TestActor> = Address::new(&mut mb2, Strong);
    let h4 = TestMessageChannel::new(a4).hash_bytes();

    assert_ne!(
        h1, h4,
        "hashes from channels created against different addresses should differ"
    );
}

#[test]
fn partial_eq() {
    let mut mb = Mailbox::unbounded(1);
    let a1: Address<TestActor> = Address::new(&mut mb, Strong);
    let c1 = TestMessageChannel::new(a1.clone());
    let c2 = c1.clone();
    let c3 = TestMessageChannel::new(a1);

    assert!(c1 == c2, "cloned channels should match");
    assert!(c1 == c3, "channels created against the same address should match");

    let mut mb2 = Mailbox::unbounded(2);
    let a4: Address<TestActor> = Address::new(&mut mb2, Strong);
    let c4 = TestMessageChannel::new(a4);

    assert!(c1 != c4, "channels created against different addresses should differ");
}

#[test]
fn cross_strength_same_actor_not_equal() {
    let mut mb = Mailbox::unbounded(3);
    let strong_addr: Address<TestActor> = Address::new(&mut mb, Strong);
    let weak_addr: Address<TestActor, Weak> = Address::new(&mut mb, Weak);
    let c1 = TestMessageChannel::new(strong_addr);
    let c2 = MessageChannel::<TestMessage, (), Weak>::new(weak_addr);

    assert!(c1.same_actor(&c2));
    assert!(c2.same_actor(&c1));
    assert!(c1.as_either() != c2.as_either());
    assert_ne!(c1.hash_bytes(), c2.hash_bytes());
}

#[test]
fn clone_keeps_actor_and_equality() {
    let mut mb = Mailbox::unbounded(4);
    let a: Address<TestActor> = Address::new(&mut mb, Strong);
    let c = TestMessageChannel::new(a);
    let d = c.clone();

    assert!(d.same_actor(&c));
    assert!(d == c);
}

#[test]
fn downgrade_gives_weak_same_actor() {
    let mut mb = Mailbox::unbounded(5);
    let a: Address<TestActor> = Address::new(&mut mb, Strong);
    let c = TestMessageChannel::new(a);
    let d = c.downgrade();

    assert!(!d.is_strong());
    assert!(c.is_strong());
    assert!(d.same_actor(&c));
    assert!(d.as_either() != c.as_either());
}

#[test]
fn downgrade_on_either_wrapping_weak() {
    let mut mb = Mailbox::unbounded(6);
    let a: Address<TestActor, Weak> = Address::new(&mut mb, Weak);
    let e = MessageChannel::<TestMessage, (), Weak>::new(a).as_either();
    let d = e.downgrade();

    assert!(!e.is_strong());
    assert!(!d.is_strong());
    assert!(d.same_actor(&e));
    assert!(d.as_either() == e);
}

#[test]
fn as_either_keeps_strength_and_identity() {
    let mut mb = Mailbox::unbounded(7);
    let a: Address<TestActor> = Address::new(&mut mb, Strong);
    let c = TestMessageChannel::new(a);
    let e = c.as_either();

    assert_eq!(e.is_strong(), c.is_strong());
    assert!(e.same_actor(&c));
    assert_eq!(e.to_inner_ptr(), c.to_inner_ptr());
    assert!(e == c.clone().as_either());
    assert_eq!(e.hash_bytes(), c.hash_bytes());
}

#[test]
fn from_address_builds_the_same_channel() {
    let mut mb = Mailbox::unbounded(9);
    let a: Address<TestActor> = Address::new(&mut mb, Strong);
    let c = TestMessageChannel::new(a.clone());
    let d = TestMessageChannel::from(a);

    assert!(d == c);
    assert!(d.same_actor(&c));
}

#[test]
fn introspection_is_mailbox_wide() {
    let mut mb = Mailbox::bounded(8, 10);
    let a: Address<TestActor> = Address::new(&mut mb, Strong);
    let b: Address<TestActor> = Address::new(&mut mb, Strong);
    let ca = TestMessageChannel::new(a);
    let cb = TestMessageChannel::new(b);

    assert!(ca.is_connected(&mb));
    assert!(ca.is_empty(&mb));
    assert_eq!(ca.len(&mb), 0);
    assert_eq!(ca.capacity(&mb), Some(10));
    assert_eq!(cb.capacity(&mb), Some(10));

    mb.disconnect();
    assert!(!ca.is_connected(&mb));
    assert!(!cb.is_connected(&mb));

    let mut unbounded = Mailbox::unbounded(9);
    let c: Address<TestActor> = Address::new(&mut unbounded, Strong);
    assert_eq!(TestMessageChannel::new(c).capacity(&unbounded), None);
}
