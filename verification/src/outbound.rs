//! The outbound pump: it owns the subscriptions of one connection, reads
//! them round by round, and hands what it found to the driver to write.

use crate::broadcaster::{Broadcaster, Subscription};
use crate::channel::RecvOutcome;
use vstd::prelude::*;

verus! {

/// How long the pump waits after a round that wrote nothing, in
/// milliseconds.
pub const POLL_INTERVAL_MS: u64 = 10;

/// What the outbound pump does after a round.
#[derive(Debug, Clone, Copy, PartialEq, Eq, Structural)]
pub enum OutboundStep {
    /// Something was written: read the subscriptions again at once.
    PollAgain,
    /// Nothing was written: wait this long, then read again.
    Wait { millis: u64 },
    /// Writing failed: end the pump.
    Stop,
}

/// The messages among `outcomes`, in the order of `outcomes`. A
/// subscription that was empty, closed or lagging contributes nothing to
/// the round.
pub open spec fn ready<V>(outcomes: Seq<RecvOutcome<V>>) -> Seq<V>
    decreases outcomes.len(),
{
    if outcomes.len() == 0 {
        Seq::empty()
    } else {
        match outcomes.last() {
            RecvOutcome::Message(message) => ready(outcomes.drop_last()).push(message),
            _ => ready(outcomes.drop_last()),
        }
    }
}

/// What the pump does after a round in which `written` messages reached
/// the transport.
pub open spec fn round_step(written: usize, write_failed: bool) -> OutboundStep {
    if write_failed {
        OutboundStep::Stop
    } else if written == 0 {
        OutboundStep::Wait { millis: POLL_INTERVAL_MS }
    } else {
        OutboundStep::PollAgain
    }
}

/// Picks the messages out of a round's outcomes, keeping their order.
pub fn ready_messages<V>(outcomes: Vec<RecvOutcome<V>>) -> (messages: Vec<V>)
    ensures
        messages@ == ready(outcomes@),
{
    let mut messages: Vec<V> = Vec::new();
    let ghost all = outcomes@;
    for outcome in it: outcomes
        invariant
            it.seq() == all,
            messages@ == ready(all.take(it.index() as int)),
    {
        proof {
            let seen = all.take(it.index() as int);
            let more = all.take(it.index() as int + 1);
            assert(more.drop_last() =~= seen);
            assert(more.last() == outcome);
        }
        match outcome {
            RecvOutcome::Message(message) => {
                messages.push(message);
            },
            _ => {},
        }
    }
    proof {
        assert(all.take(all.len() as int) =~= all);
    }
    messages
}

/// The subscriptions of one connection, read in a fixed order.
#[verifier::reject_recursive_types(V)]
pub struct OutboundPump<V> {
    subscriptions: Vec<Subscription<V>>,
}

impl<V: Clone> OutboundPump<V> {
    /// The topics this pump reads, in the order it reads them.
    pub closed spec fn topics(&self) -> Seq<u128> {
        Seq::new(self.subscriptions@.len(), |i: int| self.subscriptions@[i].key())
    }

    /// A pump over `subscriptions`, which it reads in the order given.
    pub fn new(subscriptions: Vec<Subscription<V>>) -> (pump: Self)
        ensures
            pump.topics().len() == subscriptions@.len(),
            forall|i: int|
                0 <= i < subscriptions@.len() ==> pump.topics()[i] == (
                #[trigger] subscriptions@[i]).key(),
    {
        OutboundPump { subscriptions }
    }

    /// Opens one subscription per key on `broadcasts`, in the order of
    /// `keys`, and makes a pump over them. A key without a channel gets
    /// one; no channel that exists is replaced.
    pub fn open(broadcasts: &mut Broadcaster<V>, keys: &Vec<u128>) -> (pump: Self)
        ensures
            pump.topics() == keys@,
            final(broadcasts)@.dom() == old(broadcasts)@.dom().union(keys@.to_set()),
            forall|k: u128| #[trigger]
                old(broadcasts)@.contains_key(k) ==> final(broadcasts)@[k] == old(broadcasts)@[k],
    {
        let subscriptions = broadcasts.subscribe_all(keys);
        let pump = OutboundPump { subscriptions };
        proof {
            assert(pump.topics() =~= keys@);
        }
        pump
    }

    /// The number of subscriptions.
    pub fn subscription_count(&self) -> (count: usize)
        ensures
            count == self.topics().len(),
    {
        self.subscriptions.len()
    }

    /// One round: reads each subscription once, in order, without waiting.
    /// The result holds one outcome per subscription. The pump keeps its
    /// subscriptions, whatever they returned.
    pub fn poll(&mut self) -> (outcomes: Vec<RecvOutcome<V>>)
        ensures
            outcomes@.len() == old(self).topics().len(),
            final(self).topics() == old(self).topics(),
            forall|i: int|
                0 <= i < outcomes@.len() ==> ((#[trigger] outcomes@[i]) matches RecvOutcome::Lagged(
                    n,
                ) ==> n >= 1),
    {
        let mut outcomes: Vec<RecvOutcome<V>> = Vec::new();
        let mut i: usize = 0;
        while i < self.subscriptions.len()
            invariant
                0 <= i <= self.subscriptions@.len(),
                outcomes@.len() == i,
                self.topics() =~= old(self).topics(),
                forall|j: int|
                    0 <= j < outcomes@.len() ==> ((#[trigger] outcomes@[j]) matches RecvOutcome::Lagged(
                        n,
                    ) ==> n >= 1),
            decreases self.subscriptions@.len() - i,
        {
            let outcome = self.subscriptions[i].try_recv();
            outcomes.push(outcome);
            i = i + 1;
        }
        outcomes
    }

    /// Decides what the pump does after a round.
    pub fn after_round(written: usize, write_failed: bool) -> (step: OutboundStep)
        ensures
            step == round_step(written, write_failed),
    {
        if write_failed {
            OutboundStep::Stop
        } else if written == 0 {
            OutboundStep::Wait { millis: POLL_INTERVAL_MS }
        } else {
            OutboundStep::PollAgain
        }
    }
}

/// The outbound pump ends after a round if and only if writing failed. An
/// idle round makes it wait, never stop.
pub proof fn law_only_the_transport_stops_outbound(written: usize, write_failed: bool)
    ensures
        round_step(written, write_failed) is Stop <==> write_failed,
        !write_failed && written == 0 ==> round_step(written, write_failed) == (OutboundStep::Wait {
            millis: POLL_INTERVAL_MS,
        }),
{
}

/// A round hands on at most one message per subscription, and exactly the
/// outcomes that are messages.
pub proof fn law_ready_is_bounded<V>(outcomes: Seq<RecvOutcome<V>>)
    ensures
        ready(outcomes).len() <= outcomes.len(),
        (forall|i: int| 0 <= i < outcomes.len() ==> #[trigger] outcomes[i] is Message) ==> ready(
            outcomes,
        ).len() == outcomes.len(),
        (forall|i: int| 0 <= i < outcomes.len() ==> !(#[trigger] outcomes[i] is Message))
            ==> ready(outcomes).len() == 0,
    decreases outcomes.len(),
{
    if outcomes.len() > 0 {
        law_ready_is_bounded(outcomes.drop_last());
    }
}

} // verus!
