//! A topic-addressed publish/subscribe layer on top of a bounded
//! multi-consumer broadcast channel. A single producer publishes
//! `(topic, message)` envelopes; any number of consumers may later attach and
//! pull only the messages whose topic matches a filter they choose, each as an
//! independent, ordered, on-demand sequence.

pub mod envelope;
pub mod factory;
pub mod subscription;
pub mod transport;

pub use envelope::TopicPayload;
pub use factory::pubsub_channel;
pub use factory::pubsub_channel_with_id;
pub use factory::TopicPublisher;
pub use factory::TopicSubscriber;
pub use factory::TopicSubscriptionFactory;
pub use subscription::FusedTopicSubscription;
pub use subscription::PullOutcome;
pub use subscription::TopicSubscription;
