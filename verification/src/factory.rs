use vstd::prelude::*;
use vstd::std_specs::cmp::PartialEqSpec;

use crate::envelope::TopicPayload;
use crate::subscription::{FusedTopicSubscription, TopicSubscription};

verus! {

/// The producer-facing handle of a topic-based pub-sub channel.
pub type TopicPublisher<T, M> = tari_broadcast_channel::Publisher<TopicPayload<T, M>>;

/// The consumer-facing handle that the subscription factory wraps.
pub type TopicSubscriber<T, M> = tari_broadcast_channel::Subscriber<TopicPayload<T, M>>;

/// Holds the one base subscriber end of a pub-sub channel and derives new
/// filtered per-topic sequences from it on request. The factory owns no
/// subscriber state itself: every derived sequence gets a brand-new,
/// independently advancing clone of the base cursor, so consuming one derived
/// sequence never touches another.
#[verifier::reject_recursive_types(T)]
#[verifier::reject_recursive_types(M)]
pub struct TopicSubscriptionFactory<T, M> {
    subscriber: TopicSubscriber<T, M>,
}

impl<T, M> TopicSubscriptionFactory<T, M> where
    T: Eq + PartialEqSpec + Clone + Send,
    M: Clone + Send,
 {
    /// The one base receiving-end handle this factory holds, at the spec
    /// level. It is established at construction and never replaced; every
    /// derived sequence starts from a fresh clone of it, taken at the moment
    /// the subscription is requested.
    pub closed spec fn base(self) -> TopicSubscriber<T, M> {
        self.subscriber
    }

    /// Wraps the base subscriber end, established once and never replaced.
    pub fn new(subscriber: TopicSubscriber<T, M>) -> (r: Self)
        ensures
            r.base() == subscriber,
    {
        TopicSubscriptionFactory { subscriber }
    }

    /// Clones the base cursor and composes the topic filter over the clone.
    /// The derived sequence starts with an empty history: it holds nothing
    /// published-and-consumed before it was created, and from here on yields
    /// exactly the matching messages its own cursor takes in.
    pub fn get_subscription(&self, topic: T) -> (r: TopicSubscription<T, M>)
        ensures
            r.wf(),
            r.filter_topic() == topic,
            r.received() == Seq::<TopicPayload<T, M>>::empty(),
            r.delivered() == Seq::<M>::empty(),
    {
        TopicSubscription::attach(self.subscriber.clone(), topic)
    }

    /// The terminating flavor of `get_subscription`: the same filtering, and
    /// once the transport is closed and drained the derived sequence is
    /// permanently exhausted, so downstream consumers need not special-case
    /// repeated end-of-stream queries themselves.
    pub fn get_subscription_fused(&self, topic: T) -> (r: FusedTopicSubscription<T, M>)
        ensures
            r.wf(),
            !r.is_exhausted(),
            r.filter_topic() == topic,
            r.received() == Seq::<TopicPayload<T, M>>::empty(),
            r.delivered() == Seq::<M>::empty(),
    {
        FusedTopicSubscription::attach(self.subscriber.clone(), topic)
    }
}

/// Creates a topic-based pub-sub channel: the underlying bounded transport is
/// sized to `size` envelopes and labelled with `receiver_id` for diagnostics
/// only (the label never affects delivery). Returns the publisher side and a
/// subscription factory wrapping the corresponding base subscriber. The bound
/// on `receiver_id` is a machine limit: the transport scales the label by a
/// constant to derive per-subscriber diagnostic ids, and the bound keeps that
/// arithmetic within `usize` on every path.
pub fn pubsub_channel_with_id<T, M>(size: usize, receiver_id: usize) -> (r: (
    TopicPublisher<T, M>,
    TopicSubscriptionFactory<T, M>,
)) where T: Eq + PartialEqSpec + Clone + Send, M: Clone + Send
    requires
        receiver_id <= usize::MAX / 20_000,
{
    let (publisher, subscriber) = tari_broadcast_channel::bounded(size, receiver_id);
    (publisher, TopicSubscriptionFactory::new(subscriber))
}

/// Creates a topic-based pub-sub channel with a default receiver id of 1.
pub fn pubsub_channel<T, M>(size: usize) -> (
    TopicPublisher<T, M>,
    TopicSubscriptionFactory<T, M>,
) where T: Eq + PartialEqSpec + Clone + Send, M: Clone + Send {
    pubsub_channel_with_id(size, 1)
}

} // verus!
