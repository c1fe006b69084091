use vstd::prelude::*;
use vstd::std_specs::cmp::PartialEqSpec;

verus! {

/// The container for a message that is passed along the pub-sub channel: it
/// pairs a routing topic with the message payload itself. Pure data; the
/// fields are private, so an envelope is never mutated after construction.
#[derive(Debug, Clone)]
pub struct TopicPayload<T, M> {
    topic: T,
    message: M,
}

impl<T, M> TopicPayload<T, M> {
    /// The topic, at the spec level.
    pub closed spec fn spec_topic(self) -> T {
        self.topic
    }

    /// The message payload, at the spec level.
    pub closed spec fn spec_message(self) -> M {
        self.message
    }

    pub fn new(topic: T, message: M) -> (r: Self)
        ensures
            r.spec_topic() == topic,
            r.spec_message() == message,
    {
        Self { topic, message }
    }

    pub fn topic(&self) -> (r: &T)
        ensures
            *r == self.spec_topic(),
    {
        &self.topic
    }

    pub fn message(&self) -> (r: &M)
        ensures
            *r == self.spec_message(),
    {
        &self.message
    }

    /// Takes the envelope apart into its topic and its message.
    pub(crate) fn into_parts(self) -> (r: (T, M))
        ensures
            r.0 == self.spec_topic(),
            r.1 == self.spec_message(),
    {
        (self.topic, self.message)
    }
}

/// The messages of exactly those envelopes whose topic equals `topic` (by the
/// topic type's own equality), in publish order. This is the model that every
/// derived per-topic sequence is held to.
pub open spec fn filtered_messages<T: PartialEqSpec, M>(
    envelopes: Seq<TopicPayload<T, M>>,
    topic: T,
) -> Seq<M>
    decreases envelopes.len(),
{
    if envelopes.len() == 0 {
        Seq::empty()
    } else {
        let prefix = filtered_messages(envelopes.drop_last(), topic);
        if envelopes.last().spec_topic().eq_spec(&topic) {
            prefix.push(envelopes.last().spec_message())
        } else {
            prefix
        }
    }
}

/// The filter predicate a derived sequence for `topic` applies to each
/// envelope: does the envelope's topic equal the requested one?
pub open spec fn topic_pred<T: PartialEqSpec, M>(topic: T) -> spec_fn(TopicPayload<T, M>) -> bool {
    |p: TopicPayload<T, M>| p.spec_topic().eq_spec(&topic)
}

/// The projection from an envelope to its message payload.
pub open spec fn message_of<T, M>() -> spec_fn(TopicPayload<T, M>) -> M {
    |p: TopicPayload<T, M>| p.spec_message()
}

/// Filtering correctness: for every sequence of published envelopes and every
/// requested topic, the derived model holds exactly the messages of the
/// envelopes whose topic equals the requested one, in publish order, and none
/// else.
pub proof fn lemma_filtered_messages_correct<T: PartialEqSpec, M>(
    envelopes: Seq<TopicPayload<T, M>>,
    topic: T,
)
    ensures
        filtered_messages(envelopes, topic) == envelopes.filter(topic_pred(topic)).map_values(
            message_of::<T, M>(),
        ),
    decreases envelopes.len(),
{
    reveal(Seq::filter);
    let pred = topic_pred::<T, M>(topic);
    let f = message_of::<T, M>();
    if envelopes.len() == 0 {
        assert(envelopes.filter(pred).map_values(f) =~= Seq::<M>::empty());
    } else {
        let rest = envelopes.drop_last();
        lemma_filtered_messages_correct(rest, topic);
        if pred(envelopes.last()) {
            assert(rest.filter(pred).push(envelopes.last()).map_values(f) =~= rest.filter(
                pred,
            ).map_values(f).push(f(envelopes.last())));
        }
    }
}

/// Appending one envelope extends the derived model by that envelope's message
/// exactly when its topic matches, and leaves it unchanged otherwise.
pub proof fn lemma_filtered_messages_push<T: PartialEqSpec, M>(
    envelopes: Seq<TopicPayload<T, M>>,
    topic: T,
    p: TopicPayload<T, M>,
)
    ensures
        filtered_messages(envelopes.push(p), topic) == if p.spec_topic().eq_spec(&topic) {
            filtered_messages(envelopes, topic).push(p.spec_message())
        } else {
            filtered_messages(envelopes, topic)
        },
{
    assert(envelopes.push(p).drop_last() =~= envelopes);
}

/// Order preservation under interleaving: the matching messages of a run of
/// envelopes followed by another run are the matching messages of the first
/// run followed by those of the second, whatever non-matching envelopes stand
/// between and around them.
pub proof fn lemma_filtered_messages_append<T: PartialEqSpec, M>(
    a: Seq<TopicPayload<T, M>>,
    b: Seq<TopicPayload<T, M>>,
    topic: T,
)
    ensures
        filtered_messages(a + b, topic) == filtered_messages(a, topic) + filtered_messages(
            b,
            topic,
        ),
    decreases b.len(),
{
    if b.len() == 0 {
        assert(a + b =~= a);
        assert(filtered_messages(a, topic) + filtered_messages(b, topic) =~= filtered_messages(
            a,
            topic,
        ));
    } else {
        lemma_filtered_messages_append(a, b.drop_last(), topic);
        assert((a + b).drop_last() =~= a + b.drop_last());
        if b.last().spec_topic().eq_spec(&topic) {
            assert(filtered_messages(a, topic) + filtered_messages(b.drop_last(), topic).push(
                b.last().spec_message(),
            ) =~= (filtered_messages(a, topic) + filtered_messages(b.drop_last(), topic)).push(
                b.last().spec_message(),
            ));
        }
    }
}

} // verus!
