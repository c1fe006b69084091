use futures::executor::block_on;
use futures::SinkExt;

use tari_pubsub::{pubsub_channel, pubsub_channel_with_id, PullOutcome, TopicPayload};

#[derive(Debug, Clone)]
struct Dummy {
    a: u32,
    b: String,
}

#[test]
fn topic_pub_sub() {
    let (mut publisher, subscriber_factory) = pubsub_channel(10);

    let messages = vec![
        TopicPayload::new(
            "Topic1",
            Dummy { a: 1u32, b: "one".to_string() },
        ),
        TopicPayload::new(
            "Topic2",
            Dummy { a: 2u32, b: "two".to_string() },
        ),
        TopicPayload::new(
            "Topic1",
            Dummy { a: 3u32, b: "three".to_string() },
        ),
        TopicPayload::new(
            "Topic2",
            Dummy { a: 4u32, b: "four".to_string() },
        ),
        TopicPayload::new(
            "Topic1",
            Dummy { a: 5u32, b: "five".to_string() },
        ),
        TopicPayload::new(
            "Topic2",
            Dummy { a: 6u32, b: "size".to_string() },
        ),
        TopicPayload::new(
            "Topic1",
            Dummy { a: 7u32, b: "seven".to_string() },
        ),
    ];

    block_on(async {
        for m in messages {
            publisher.send(m).await.unwrap();
        }
    });

    let mut sub1 = subscriber_factory.get_subscription_fused("Topic1");

    let topic1a = sub1.drain_available();

    assert_eq!(topic1a.len(), 4);
    assert_eq!(topic1a[0].a, 1);
    assert_eq!(topic1a[1].a, 3);
    assert_eq!(topic1a[2].a, 5);
    assert_eq!(topic1a[3].a, 7);

    let messages2 = vec![
        TopicPayload::new(
            "Topic1",
            Dummy { a: 11u32, b: "one one".to_string() },
        ),
        TopicPayload::new(
            "Topic2",
            Dummy { a: 22u32, b: "two two".to_string() },
        ),
        TopicPayload::new(
            "Topic1",
            Dummy { a: 33u32, b: "three three".to_string() },
        ),
    ];

    block_on(async {
        for m in messages2 {
            publisher.send(m).await.unwrap();
        }
    });
    drop(publisher);

    let topic1b = sub1.drain_available();

    assert_eq!(topic1b.len(), 2);
    assert_eq!(topic1b[0].a, 11);
    assert_eq!(topic1b[1].a, 33);

    let mut sub2 = subscriber_factory.get_subscription("Topic2");

    let topic2 = sub2.drain_available();

    assert_eq!(topic2.len(), 4);
    assert_eq!(topic2[0].a, 2);
    assert_eq!(topic2[1].a, 4);
    assert_eq!(topic2[2].a, 6);
    assert_eq!(topic2[3].a, 22);
}

#[test]
fn envelope_holds_its_parts() {
    let payload = TopicPayload::new(5u64, 77u64);
    assert_eq!(*payload.topic(), 5);
    assert_eq!(*payload.message(), 77);
}

#[test]
fn filtering_yields_only_matching_messages() {
    let (mut publisher, factory) = pubsub_channel::<u64, u64>(16);
    block_on(async {
        publisher.send(TopicPayload::new(1, 10)).await.unwrap();
        publisher.send(TopicPayload::new(2, 20)).await.unwrap();
        publisher.send(TopicPayload::new(1, 30)).await.unwrap();
        publisher.send(TopicPayload::new(3, 40)).await.unwrap();
    });
    let mut sub = factory.get_subscription(1);
    assert_eq!(sub.drain_available(), vec![10, 30]);
}

#[test]
fn order_preserved_under_interleaving() {
    let (mut publisher, factory) = pubsub_channel::<&str, u64>(16);
    block_on(async {
        publisher.send(TopicPayload::new("A", 1)).await.unwrap();
        publisher.send(TopicPayload::new("B", 1)).await.unwrap();
        publisher.send(TopicPayload::new("A", 2)).await.unwrap();
        publisher.send(TopicPayload::new("B", 2)).await.unwrap();
        publisher.send(TopicPayload::new("A", 3)).await.unwrap();
    });
    let mut sub_a = factory.get_subscription("A");
    let mut sub_b = factory.get_subscription("B");
    assert_eq!(sub_a.drain_available(), vec![1, 2, 3]);
    assert_eq!(sub_b.drain_available(), vec![1, 2]);
}

#[test]
fn subscriptions_are_independent() {
    let (mut publisher, factory) = pubsub_channel::<u64, u64>(16);
    block_on(async {
        publisher.send(TopicPayload::new(1, 10)).await.unwrap();
        publisher.send(TopicPayload::new(1, 20)).await.unwrap();
        publisher.send(TopicPayload::new(1, 30)).await.unwrap();
    });
    let mut first = factory.get_subscription(1);
    let mut second = factory.get_subscription(1);
    // Consuming one derived sequence fully must not advance the other's
    // pending items.
    assert_eq!(first.drain_available(), vec![10, 20, 30]);
    assert_eq!(second.drain_available(), vec![10, 20, 30]);
}

#[test]
fn late_subscriber_gets_only_what_is_still_buffered() {
    let (mut publisher, factory) = pubsub_channel::<u64, u64>(2);
    let mut early = factory.get_subscription(1);
    block_on(async {
        publisher.send(TopicPayload::new(1, 10)).await.unwrap();
        publisher.send(TopicPayload::new(1, 20)).await.unwrap();
    });
    assert_eq!(early.drain_available(), vec![10, 20]);
    block_on(async {
        publisher.send(TopicPayload::new(1, 30)).await.unwrap();
        publisher.send(TopicPayload::new(1, 40)).await.unwrap();
    });
    // The transport's buffer holds two envelopes: by the time this
    // subscription is created, the first two have been pushed out, and it
    // must not retroactively receive them.
    let mut late = factory.get_subscription(1);
    drop(publisher);
    assert_eq!(late.drain_available(), vec![30, 40]);
}

#[test]
fn plain_subscription_waits_while_open() {
    let (mut publisher, factory) = pubsub_channel::<u64, u64>(4);
    let mut sub = factory.get_subscription(1);
    assert!(matches!(sub.next(), PullOutcome::Pending));
    block_on(async {
        publisher.send(TopicPayload::new(2, 5)).await.unwrap();
    });
    // A non-matching envelope is discarded, not delivered: the sequence is
    // still waiting.
    assert!(matches!(sub.next(), PullOutcome::Pending));
    block_on(async {
        publisher.send(TopicPayload::new(1, 6)).await.unwrap();
    });
    match sub.next() {
        PullOutcome::Message(m) => assert_eq!(m, 6),
        other => panic!("expected a message, got {:?}", other),
    }
}

#[test]
fn fused_subscription_stays_exhausted() {
    let (mut publisher, factory) = pubsub_channel::<u64, u64>(4);
    let mut sub = factory.get_subscription_fused(1);
    assert!(matches!(sub.next(), PullOutcome::Pending));
    block_on(async {
        publisher.send(TopicPayload::new(1, 9)).await.unwrap();
    });
    drop(publisher);
    match sub.next() {
        PullOutcome::Message(m) => assert_eq!(m, 9),
        _ => panic!("expected the buffered message"),
    }
    // Once the producer side is closed and the backlog drained, every
    // subsequent pull reports exhaustion, deterministically.
    assert!(matches!(sub.next(), PullOutcome::Closed));
    assert!(matches!(sub.next(), PullOutcome::Closed));
    assert!(matches!(sub.next(), PullOutcome::Closed));
    // Draining an exhausted sequence gives back nothing and leaves it be.
    assert!(sub.drain_available().is_empty());
    assert!(matches!(sub.next(), PullOutcome::Closed));
}

#[test]
fn receiver_id_is_diagnostic_only() {
    let (mut publisher, factory) = pubsub_channel_with_id::<u64, u64>(4, 42);
    block_on(async {
        publisher.send(TopicPayload::new(1, 100)).await.unwrap();
    });
    let mut sub = factory.get_subscription(1);
    assert_eq!(sub.drain_available(), vec![100]);
}
