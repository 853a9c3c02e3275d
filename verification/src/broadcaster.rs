//! The topic registry: one fan-out channel per broadcast key, created on the
//! first subscription to that key and kept from then on.
//!
//! A key is a 128-bit identifier (a channel's id). The registry is changed
//! through `&mut self` only, so looking a key up and creating its channel is
//! one step that nothing can interleave with: a driver that shares the
//! registry between connections holds it behind a lock and subscribes under
//! the write half.

use crate::channel::{attach, open_channel, receiver_count, send, try_recv};
use crate::channel::{RecvOutcome, SendOutcome};
use std::collections::HashMap;
use tokio::sync::broadcast::{Receiver, Sender};
use vstd::prelude::*;

verus! {

broadcast use vstd::std_specs::hash::group_hash_axioms;

/// The buffer size every topic channel is opened with.
pub const TOPIC_CAPACITY: usize = 100;

/// A receive-only handle into the channel of one topic.
#[verifier::reject_recursive_types(V)]
pub struct Subscription<V> {
    key: u128,
    receiver: Receiver<V>,
    channel: Ghost<Sender<V>>,
}

impl<V: Clone> Subscription<V> {
    /// The topic this subscription reads from.
    pub closed spec fn key(&self) -> u128 {
        self.key
    }

    /// The channel this subscription was attached to.
    pub closed spec fn channel(&self) -> Sender<V> {
        self.channel@
    }

    /// The topic this subscription reads from.
    pub fn topic(&self) -> (key: u128)
        ensures
            key == self.key(),
    {
        self.key
    }

    /// Reads the next message without waiting. The subscription stays bound
    /// to its topic whatever comes back.
    pub fn try_recv(&mut self) -> (outcome: RecvOutcome<V>)
        ensures
            final(self).key() == old(self).key(),
            final(self).channel() == old(self).channel(),
            outcome matches RecvOutcome::Lagged(n) ==> n >= 1,
    {
        try_recv(&mut self.receiver)
    }
}

/// The number of subscribers a publish counts as addressed, given what the
/// channel answered: the receivers the message was stored for, or none when
/// the channel had no receiver left.
pub open spec fn addressed<V>(outcome: SendOutcome<V>) -> usize {
    match outcome {
        SendOutcome::Delivered(n) => n,
        SendOutcome::NoReceivers(_) => 0,
    }
}

/// Turns the channel's answer to a send into the publish count. A channel
/// without receivers is no failure: the count is zero.
pub fn count_addressed<V>(outcome: SendOutcome<V>) -> (count: usize)
    ensures
        count == addressed(outcome),
{
    match outcome {
        SendOutcome::Delivered(n) => n,
        SendOutcome::NoReceivers(_) => 0,
    }
}

/// The registry after a subscription to `key`: as it was where `key` has a
/// channel, and with `created` as the channel of `key` where it has none.
pub open spec fn registered<C>(topics: Map<u128, C>, key: u128, created: C) -> Map<u128, C> {
    if topics.contains_key(key) {
        topics
    } else {
        topics.insert(key, created)
    }
}

/// Whether `subscription` reads from the channel that `topics` holds for
/// `key`.
pub open spec fn attached<V: Clone>(
    topics: Map<u128, Sender<V>>,
    key: u128,
    subscription: Subscription<V>,
) -> bool {
    topics.contains_key(key) && subscription.channel() == topics[key]
}

/// The registry of topic channels.
#[verifier::reject_recursive_types(V)]
pub struct Broadcaster<V> {
    channels: HashMap<u128, Sender<V>>,
}

impl<V> View for Broadcaster<V> {
    type V = Map<u128, Sender<V>>;

    /// The channel registered under each key.
    closed spec fn view(&self) -> Map<u128, Sender<V>> {
        self.channels@
    }
}

impl<V: Clone> Broadcaster<V> {
    /// A registry without topics.
    pub fn new() -> (broadcaster: Self)
        ensures
            broadcaster@ == Map::<u128, Sender<V>>::empty(),
    {
        Broadcaster { channels: HashMap::new() }
    }

    /// Whether a channel exists for `key`.
    pub fn has_topic(&self, key: u128) -> (present: bool)
        ensures
            present == self@.contains_key(key),
    {
        self.channels.contains_key(&key)
    }

    /// The number of topics.
    pub fn topic_count(&self) -> (count: usize)
        ensures
            count == self@.len(),
    {
        self.channels.len()
    }

    /// Subscribes to `key`, creating its channel if there is none yet. A
    /// channel that exists is never replaced, neither the one for `key` nor
    /// any other. The subscription is attached to the channel that the
    /// registry holds for `key` from now on.
    pub fn subscribe(&mut self, key: u128) -> (subscription: Subscription<V>)
        ensures
            subscription.key() == key,
            final(self)@.contains_key(key),
            subscription.channel() == final(self)@[key],
            final(self)@ == registered(old(self)@, key, final(self)@[key]),
    {
        let ghost channel;
        let receiver = match self.channels.get(&key) {
            Some(sender) => {
                proof {
                    channel = *sender;
                }
                attach(sender)
            },
            None => {
                let sender = open_channel::<V>(TOPIC_CAPACITY);
                proof {
                    channel = sender;
                }
                let receiver = attach(&sender);
                self.channels.insert(key, sender);
                receiver
            },
        };
        proof {
            assert(self@ =~= registered(old(self)@, key, self@[key]));
        }
        Subscription { key, receiver, channel: Ghost(channel) }
    }

    /// Subscribes to every key in turn. The result holds one subscription
    /// per key, in the order of `keys`, each attached to the channel that
    /// the registry holds for its key.
    pub fn subscribe_all(&mut self, keys: &Vec<u128>) -> (subscriptions: Vec<Subscription<V>>)
        ensures
            subscriptions@.len() == keys@.len(),
            forall|i: int| 0 <= i < keys@.len() ==> (#[trigger] subscriptions@[i]).key() == keys@[i],
            forall|i: int|
                0 <= i < keys@.len() ==> attached(final(self)@, keys@[i], #[trigger] subscriptions@[i]),
            final(self)@.dom() == old(self)@.dom().union(keys@.to_set()),
            forall|k: u128| #[trigger]
                old(self)@.contains_key(k) ==> final(self)@[k] == old(self)@[k],
    {
        let mut subscriptions: Vec<Subscription<V>> = Vec::new();
        let mut i: usize = 0;
        while i < keys.len()
            invariant
                0 <= i <= keys@.len(),
                subscriptions@.len() == i,
                forall|j: int| 0 <= j < i ==> (#[trigger] subscriptions@[j]).key() == keys@[j],
                forall|j: int| 0 <= j < i ==> attached(self@, keys@[j], #[trigger] subscriptions@[j]),
                self@.dom() == old(self)@.dom().union(keys@.take(i as int).to_set()),
                forall|k: u128| #[trigger]
                    old(self)@.contains_key(k) ==> self@.contains_key(k) && self@[k] == old(self)@[k],
            decreases keys@.len() - i,
        {
            let subscription = self.subscribe(keys[i]);
            subscriptions.push(subscription);
            proof {
                let taken = keys@.take(i as int);
                let next = keys@.take(i as int + 1);
                assert(next =~= taken.push(keys@[i as int]));
                assert(next.to_set() =~= taken.to_set().insert(keys@[i as int])) by {
                    assert forall|k: u128| next.to_set().contains(k) <==> taken.to_set().insert(
                        keys@[i as int],
                    ).contains(k) by {
                        if next.contains(k) {
                            let j = choose|j: int| 0 <= j < next.len() && next[j] == k;
                            if j < i {
                                assert(taken[j] == k);
                            }
                        }
                        if taken.contains(k) {
                            let j = choose|j: int| 0 <= j < taken.len() && taken[j] == k;
                            assert(next[j] == k);
                        }
                        if k == keys@[i as int] {
                            assert(next[i as int] == k);
                        }
                    }
                }
                assert(self@.dom() =~= old(self)@.dom().union(next.to_set()));
            }
            i = i + 1;
        }
        proof {
            assert(keys@.take(keys@.len() as int) =~= keys@);
        }
        subscriptions
    }

    /// Publishes `message` to the topic `key` and returns the number of
    /// subscribers addressed. A key without a channel addresses nobody and
    /// nothing is sent. The registry itself is never changed by a publish.
    pub fn broadcast(&self, key: u128, message: V) -> (count: usize)
        ensures
            !self@.contains_key(key) ==> count == 0,
    {
        match self.channels.get(&key) {
            Some(sender) => {
                if receiver_count(sender) > 0 {
                    count_addressed(send(sender, message))
                } else {
                    0
                }
            },
            None => 0,
        }
    }
}

/// A subscription creates the channel of its key at most once: whatever
/// channel a second subscription to the same key might have created, the
/// one the first subscription left is kept, and so is every other. Two
/// first subscriptions to one new key therefore end with one channel.
pub proof fn law_channel_is_created_once<C>(
    topics: Map<u128, C>,
    key: u128,
    first: C,
    second: C,
)
    ensures
        registered(registered(topics, key, first), key, second) == registered(topics, key, first),
        registered(topics, key, first).dom() == topics.dom().insert(key),
        forall|k: u128| #[trigger]
            topics.contains_key(k) ==> registered(topics, key, first)[k] == topics[k],
        !topics.contains_key(key) ==> registered(topics, key, first)[key] == first,
{
    assert(registered(topics, key, first).dom() =~= topics.dom().insert(key));
}

/// Subscriptions to different keys do not disturb each other: each key
/// ends with the channel its own first subscription created, in whichever
/// order the two subscribe.
pub proof fn law_subscriptions_commute<C>(topics: Map<u128, C>, a: u128, b: u128, for_a: C, for_b: C)
    requires
        a != b,
    ensures
        registered(registered(topics, a, for_a), b, for_b) == registered(
            registered(topics, b, for_b),
            a,
            for_a,
        ),
{
    assert(registered(registered(topics, a, for_a), b, for_b) =~= registered(
        registered(topics, b, for_b),
        a,
        for_a,
    ));
}

} // verus!
