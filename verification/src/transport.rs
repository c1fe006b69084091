use vstd::prelude::*;

verus! {

/// The producer-facing half of the external bounded broadcast transport.
/// Opaque to the library: publishing through it is the producer's business.
#[verifier::external_type_specification]
#[verifier::external_body]
#[verifier::reject_recursive_types(T)]
pub struct ExPublisher<T>(tari_broadcast_channel::Publisher<T>);

/// The consumer-facing half of the external bounded broadcast transport.
/// Opaque to the library: it is only ever cloned and polled through the
/// trusted items below.
#[verifier::external_type_specification]
#[verifier::external_body]
#[verifier::reject_recursive_types(T)]
pub struct ExSubscriber<T>(tari_broadcast_channel::Subscriber<T>);

/// Relies on tari_broadcast_channel::bounded: it constructs a fresh bounded
/// transport of the given capacity, labelled with the given receiver id for
/// diagnostics only, and returns its two halves. Nothing is assumed of the
/// handles themselves. The bound on `receiver_id` is required because the
/// callee unconditionally multiplies the id by 10_000 for its diagnostic
/// labels, which would overflow (and panic, in builds with overflow checks)
/// for larger ids; the factor-two slack keeps the per-clone label offsets
/// that the transport later adds within `usize` as well, since adding enough
/// offsets to pass the remaining headroom would need more live subscriber
/// clones than any machine holds.
pub assume_specification<T>[ tari_broadcast_channel::bounded::<T> ](
    size: usize,
    receiver_id: usize,
) -> (tari_broadcast_channel::Publisher<T>, tari_broadcast_channel::Subscriber<T>)
    requires
        receiver_id <= usize::MAX / 20_000,
;

/// Relies on the transport's `Clone for Subscriber`: the clone is a new,
/// independently advancing cursor over the same published sequence from the
/// point of cloning onward. Nothing is assumed of the returned handle. The
/// clone derives its diagnostic label from the parent's by adding the live
/// clone count; the bound placed on the constructor's receiver id leaves that
/// arithmetic more headroom than any machine's worth of live clones can
/// spend, so it cannot overflow.
pub assume_specification<T>[ <tari_broadcast_channel::Subscriber<T> as Clone>::clone ](
    subscriber: &tari_broadcast_channel::Subscriber<T>,
) -> tari_broadcast_channel::Subscriber<T>;

/// What one pull on a transport cursor comes back with: the next buffered
/// envelope, or word that none is available yet, or word that the producer
/// side is closed and the backlog drained.
pub enum RecvOutcome<E> {
    Item(E),
    Empty,
    Closed,
}

/// Relies on the transport Subscriber's `Stream` implementation: one poll
/// returns the next buffered envelope (shared behind an `Arc`, copied out
/// here), or `Pending` while the producer side is still open and nothing is
/// buffered, or end-of-stream once it is closed and the backlog is drained.
/// Which outcome comes back depends on the shared transport's state, so
/// nothing is assumed of it.
#[verifier::external_body]
pub fn poll_recv<E: Clone>(
    subscriber: &mut tari_broadcast_channel::Subscriber<E>,
) -> RecvOutcome<E> {
    let waker = futures::task::noop_waker();
    let mut cx = std::task::Context::from_waker(&waker);
    match futures::stream::StreamExt::poll_next_unpin(subscriber, &mut cx) {
        std::task::Poll::Ready(Some(item)) => RecvOutcome::Item((*item).clone()),
        std::task::Poll::Ready(None) => RecvOutcome::Closed,
        std::task::Poll::Pending => RecvOutcome::Empty,
    }
}

} // verus!
