use vstd::prelude::*;
use vstd::std_specs::cmp::PartialEqSpec;

use crate::envelope::{filtered_messages, lemma_filtered_messages_push, TopicPayload};
use crate::transport::{poll_recv, RecvOutcome};

verus! {

/// What one pull on a derived per-topic sequence comes back with: the next
/// matching message, or word that nothing new is available yet, or word that
/// the transport is closed and drained. Neither of the last two is an error:
/// they are expected states of a demand-driven sequence.
#[derive(Debug)]
pub enum PullOutcome<M> {
    Message(M),
    Pending,
    Closed,
}

/// A derived per-topic sequence: a single-consumer cursor over the shared
/// transport that discards envelopes whose topic does not match and yields
/// the messages of those that do, in publish order.
///
/// The ghost fields model its life so far: `seen` is the run of envelopes its
/// cursor has taken from the transport, `given` the run of messages it has
/// yielded. Well-formedness ties the two together: what was yielded is
/// exactly the topic-matching part of what was seen.
#[verifier::reject_recursive_types(T)]
#[verifier::reject_recursive_types(M)]
pub struct TopicSubscription<T, M> {
    subscriber: tari_broadcast_channel::Subscriber<TopicPayload<T, M>>,
    topic: T,
    seen: Ghost<Seq<TopicPayload<T, M>>>,
    given: Ghost<Seq<M>>,
}

impl<T: PartialEqSpec + Clone, M: Clone> TopicSubscription<T, M> {
    /// The envelopes this subscription's cursor has taken from the transport
    /// so far, matching or not.
    pub closed spec fn received(self) -> Seq<TopicPayload<T, M>> {
        self.seen@
    }

    /// The messages this subscription has yielded so far.
    pub closed spec fn delivered(self) -> Seq<M> {
        self.given@
    }

    /// The topic this subscription filters on.
    pub closed spec fn filter_topic(self) -> T {
        self.topic
    }

    /// Filtering correctness, as an invariant: whenever the topic type's
    /// equality obeys its specification, the messages yielded so far are
    /// exactly the messages of the matching envelopes seen so far, in order.
    pub open spec fn wf(self) -> bool {
        T::obeys_eq_spec() ==> self.delivered() == filtered_messages(
            self.received(),
            self.filter_topic(),
        )
    }

    /// Wraps a freshly cloned transport cursor: the new subscription starts
    /// with an empty history, so it never retroactively holds envelopes that
    /// were consumed before it was created.
    pub(crate) fn attach(
        subscriber: tari_broadcast_channel::Subscriber<TopicPayload<T, M>>,
        topic: T,
    ) -> (r: Self)
        ensures
            r.wf(),
            r.filter_topic() == topic,
            r.received() == Seq::<TopicPayload<T, M>>::empty(),
            r.delivered() == Seq::<M>::empty(),
    {
        TopicSubscription {
            subscriber,
            topic,
            seen: Ghost(Seq::empty()),
            given: Ghost(Seq::empty()),
        }
    }

    /// One pull: advance the underlying cursor past any non-matching
    /// envelopes and yield the message of the first matching one, or report
    /// that nothing new is available yet, or that the transport is closed and
    /// drained. Consuming this sequence touches no other subscription.
    pub fn next(&mut self) -> (r: PullOutcome<M>)
        requires
            old(self).wf(),
        ensures
            final(self).wf(),
            final(self).filter_topic() == old(self).filter_topic(),
            old(self).received().is_prefix_of(final(self).received()),
            match r {
                PullOutcome::Message(m) => final(self).delivered() == old(
                    self,
                ).delivered().push(m),
                _ => final(self).delivered() == old(self).delivered(),
            },
            T::obeys_eq_spec() ==> match r {
                PullOutcome::Message(m) => {
                    &&& final(self).received().len() > 0
                    &&& final(self).received().last().spec_topic().eq_spec(
                        &old(self).filter_topic(),
                    )
                    &&& m == final(self).received().last().spec_message()
                },
                _ => true,
            },
    {
        // A pull visits at most this many envelopes before it reports
        // `Pending`; the bound keeps the pull provably terminating and is
        // never reached in practice, since the cursor can only fall behind
        // the producer by the transport buffer's length at a time.
        let mut fuel: usize = usize::MAX;
        loop
            invariant
                self.wf(),
                self.filter_topic() == old(self).filter_topic(),
                old(self).received().is_prefix_of(self.received()),
                self.delivered() == old(self).delivered(),
            decreases fuel,
        {
            if fuel == 0 {
                return PullOutcome::Pending;
            }
            fuel = fuel - 1;
            match poll_recv(&mut self.subscriber) {
                RecvOutcome::Item(p) => {
                    let ghost prev_seen = self.seen@;
                    let ghost gp = p;
                    let (ptopic, pmessage) = p.into_parts();
                    let matched: bool = ptopic == self.topic;
                    self.seen = Ghost(prev_seen.push(gp));
                    proof {
                        if T::obeys_eq_spec() {
                            lemma_filtered_messages_push(prev_seen, self.topic, gp);
                        }
                        assert(old(self).received() =~= self.seen@.subrange(
                            0,
                            old(self).received().len() as int,
                        ));
                    }
                    if matched {
                        self.given = Ghost(self.given@.push(pmessage));
                        return PullOutcome::Message(pmessage);
                    }
                },
                RecvOutcome::Empty => {
                    return PullOutcome::Pending;
                },
                RecvOutcome::Closed => {
                    return PullOutcome::Closed;
                },
            }
        }
    }

    /// Pulls every message available right now: repeated pulls until the
    /// first report that nothing new is available yet or that the transport
    /// is closed and drained. The messages come back in publish order, and
    /// the run of messages delivered over this subscription's life grows by
    /// exactly what is returned. The call borrows this subscription alone, so
    /// fully consuming one derived sequence this way cannot touch another.
    pub fn drain_available(&mut self) -> (r: Vec<M>)
        requires
            old(self).wf(),
        ensures
            final(self).wf(),
            final(self).filter_topic() == old(self).filter_topic(),
            old(self).received().is_prefix_of(final(self).received()),
            final(self).delivered() == old(self).delivered() + r@,
    {
        let mut out: Vec<M> = Vec::new();
        // The same kind of budget as in `next`: it keeps the drain provably
        // terminating and is never reached in practice.
        let mut fuel: usize = usize::MAX;
        loop
            invariant
                self.wf(),
                self.filter_topic() == old(self).filter_topic(),
                old(self).received().is_prefix_of(self.received()),
                self.delivered() == old(self).delivered() + out@,
            decreases fuel,
        {
            if fuel == 0 {
                return out;
            }
            fuel = fuel - 1;
            let pulled = self.next();
            proof {
                assert(old(self).received() =~= self.received().subrange(
                    0,
                    old(self).received().len() as int,
                ));
            }
            match pulled {
                PullOutcome::Message(m) => {
                    out.push(m);
                    proof {
                        assert(self.delivered() =~= old(self).delivered() + out@);
                    }
                },
                PullOutcome::Pending => {
                    return out;
                },
                PullOutcome::Closed => {
                    return out;
                },
            }
        }
    }
}

/// Independence: what a derived sequence has delivered is a function of its
/// own cursor's history and its own topic alone. Two subscriptions whose
/// cursors have taken in the same envelopes for the same topic have delivered
/// the same messages, however either was driven; and since a pull mutates
/// only the subscription it is called on, consuming one derived sequence
/// never changes what another delivers.
pub proof fn lemma_delivery_depends_only_on_own_history<T: PartialEqSpec + Clone, M: Clone>(
    s1: TopicSubscription<T, M>,
    s2: TopicSubscription<T, M>,
)
    requires
        s1.wf(),
        s2.wf(),
        T::obeys_eq_spec(),
        s1.received() == s2.received(),
        s1.filter_topic() == s2.filter_topic(),
    ensures
        s1.delivered() == s2.delivered(),
{
}

/// The terminating flavor of a derived per-topic sequence: the same filtering
/// as `TopicSubscription`, with the additional contract that once the
/// transport has reported itself closed and drained, the sequence is
/// permanently exhausted and every later pull reports `Closed` again without
/// touching the transport.
#[verifier::reject_recursive_types(T)]
#[verifier::reject_recursive_types(M)]
pub struct FusedTopicSubscription<T, M> {
    inner: TopicSubscription<T, M>,
    exhausted: bool,
}

impl<T: PartialEqSpec + Clone, M: Clone> FusedTopicSubscription<T, M> {
    /// The envelopes this subscription's cursor has taken from the transport
    /// so far, matching or not.
    pub closed spec fn received(self) -> Seq<TopicPayload<T, M>> {
        self.inner.received()
    }

    /// The messages this subscription has yielded so far.
    pub closed spec fn delivered(self) -> Seq<M> {
        self.inner.delivered()
    }

    /// The topic this subscription filters on.
    pub closed spec fn filter_topic(self) -> T {
        self.inner.filter_topic()
    }

    /// Whether the sequence has reached its terminal state: the transport was
    /// seen closed and drained, and no pull will ever yield again.
    pub closed spec fn is_exhausted(self) -> bool {
        self.exhausted
    }

    /// Filtering correctness, as an invariant: whenever the topic type's
    /// equality obeys its specification, the messages yielded so far are
    /// exactly the messages of the matching envelopes seen so far, in order.
    pub open spec fn wf(self) -> bool {
        T::obeys_eq_spec() ==> self.delivered() == filtered_messages(
            self.received(),
            self.filter_topic(),
        )
    }

    /// Wraps a freshly cloned transport cursor, starting active with an empty
    /// history.
    pub(crate) fn attach(
        subscriber: tari_broadcast_channel::Subscriber<TopicPayload<T, M>>,
        topic: T,
    ) -> (r: Self)
        ensures
            r.wf(),
            !r.is_exhausted(),
            r.filter_topic() == topic,
            r.received() == Seq::<TopicPayload<T, M>>::empty(),
            r.delivered() == Seq::<M>::empty(),
    {
        FusedTopicSubscription { inner: TopicSubscription::attach(subscriber, topic), exhausted: false }
    }

    /// One pull, with fused termination: once exhausted, every pull reports
    /// `Closed` again, deterministically, and leaves the sequence untouched;
    /// the first `Closed` it reports makes it exhausted for good.
    pub fn next(&mut self) -> (r: PullOutcome<M>)
        requires
            old(self).wf(),
        ensures
            final(self).wf(),
            final(self).filter_topic() == old(self).filter_topic(),
            old(self).received().is_prefix_of(final(self).received()),
            old(self).is_exhausted() ==> r is Closed && *final(self) == *old(self),
            r is Closed <==> final(self).is_exhausted(),
            match r {
                PullOutcome::Message(m) => final(self).delivered() == old(
                    self,
                ).delivered().push(m),
                _ => final(self).delivered() == old(self).delivered(),
            },
            T::obeys_eq_spec() ==> match r {
                PullOutcome::Message(m) => {
                    &&& final(self).received().len() > 0
                    &&& final(self).received().last().spec_topic().eq_spec(
                        &old(self).filter_topic(),
                    )
                    &&& m == final(self).received().last().spec_message()
                },
                _ => true,
            },
    {
        if self.exhausted {
            return PullOutcome::Closed;
        }
        let r = self.inner.next();
        if let PullOutcome::Closed = r {
            self.exhausted = true;
        }
        r
    }

    /// Pulls every message available right now: repeated pulls until the
    /// first report that nothing new is available yet or that the sequence is
    /// exhausted. An exhausted sequence gives back nothing and is left
    /// untouched. The call borrows this subscription alone, so fully
    /// consuming one derived sequence this way cannot touch another.
    pub fn drain_available(&mut self) -> (r: Vec<M>)
        requires
            old(self).wf(),
        ensures
            final(self).wf(),
            final(self).filter_topic() == old(self).filter_topic(),
            old(self).received().is_prefix_of(final(self).received()),
            final(self).delivered() == old(self).delivered() + r@,
            old(self).is_exhausted() ==> *final(self) == *old(self) && r@ == Seq::<M>::empty(),
    {
        if self.exhausted {
            let out: Vec<M> = Vec::new();
            proof {
                assert(old(self).delivered() + out@ =~= old(self).delivered());
            }
            return out;
        }
        let mut out: Vec<M> = Vec::new();
        // The same kind of budget as in `next`: it keeps the drain provably
        // terminating and is never reached in practice.
        let mut fuel: usize = usize::MAX;
        loop
            invariant
                !old(self).is_exhausted(),
                self.wf(),
                self.filter_topic() == old(self).filter_topic(),
                old(self).received().is_prefix_of(self.received()),
                self.delivered() == old(self).delivered() + out@,
            decreases fuel,
        {
            if fuel == 0 {
                return out;
            }
            fuel = fuel - 1;
            let pulled = self.next();
            proof {
                assert(old(self).received() =~= self.received().subrange(
                    0,
                    old(self).received().len() as int,
                ));
            }
            match pulled {
                PullOutcome::Message(m) => {
                    out.push(m);
                    proof {
                        assert(self.delivered() =~= old(self).delivered() + out@);
                    }
                },
                PullOutcome::Pending => {
                    return out;
                },
                PullOutcome::Closed => {
                    return out;
                },
            }
        }
    }
}

} // verus!
