//! The distribution bus: a single producer publishes fixed chunks of
//! canonical samples once; any number of independently paced subscribers
//! each see every chunk published after they subscribed, or are told how
//! many chunks they missed when they fall behind their bounded window.
//!
//! Publishing never blocks and never touches a subscriber's state; reading
//! on one subscription never touches another. A subscriber whose backlog
//! exceeds the bus capacity loses exactly the oldest unread chunks, and the
//! loss is counted on that subscriber alone.

use vstd::prelude::*;
use crate::SampleType;

verus! {

/// What one call to `receive` yields for a subscriber.
pub enum RecvOutcome {
    /// The next chunk, in publish order.
    Chunk(Vec<SampleType>),
    /// The subscriber fell behind: this many oldest unread chunks were
    /// dropped for it before the next `receive`.
    Lagged(u64),
    /// Nothing published yet beyond this subscriber's cursor; a live
    /// consumer would suspend here.
    Pending,
    /// The producer is gone and everything published has been read.
    Closed,
}

struct SubscriberState {
    /// Index into the publish history of the next chunk to hand out.
    cursor: usize,
    /// Total chunks dropped for this subscriber so far.
    dropped: u64,
    /// The publish-history length at subscription time.
    start: Ghost<int>,
    /// Every chunk handed out to this subscriber, in the order handed out.
    received: Ghost<Seq<Seq<SampleType>>>,
}

/// The single-producer, multi-consumer chunk bus.
pub struct AudioBus {
    capacity: usize,
    history: Vec<Vec<SampleType>>,
    closed: bool,
    subs: Vec<SubscriberState>,
}

impl AudioBus {
    /// Every chunk ever published, in publish order.
    pub closed spec fn published(self) -> Seq<Seq<SampleType>> {
        self.history@.map_values(|v: Vec<SampleType>| v@)
    }

    /// How many unread chunks one subscriber may have pending before the
    /// oldest are dropped for it.
    pub closed spec fn cap(self) -> int {
        self.capacity as int
    }

    /// Whether the producer side is gone.
    pub closed spec fn is_closed(self) -> bool {
        self.closed
    }

    /// The number of subscriptions handed out.
    pub closed spec fn sub_count(self) -> int {
        self.subs@.len() as int
    }

    /// The publish-history position of the next chunk subscriber `i` will
    /// be handed.
    pub closed spec fn sub_cursor(self, i: int) -> int {
        self.subs@[i].cursor as int
    }

    /// The publish-history length when subscriber `i` subscribed: it sees
    /// no chunk published before that point.
    pub closed spec fn sub_start(self, i: int) -> int {
        self.subs@[i].start@
    }

    /// Every chunk handed to subscriber `i` so far, in the order handed
    /// out.
    pub closed spec fn sub_received(self, i: int) -> Seq<Seq<SampleType>> {
        self.subs@[i].received@
    }

    /// The total number of chunks dropped for subscriber `i`: its lag
    /// counter.
    pub closed spec fn sub_lag(self, i: int) -> int {
        self.subs@[i].dropped as int
    }

    /// The chunks published since subscriber `i`'s cursor, which it has
    /// neither been handed nor lost yet.
    pub open spec fn sub_pending(self, i: int) -> Seq<Seq<SampleType>> {
        self.published().subrange(self.sub_cursor(i), self.published().len() as int)
    }

    /// The full state of subscriber `i`, for stating that it is untouched.
    pub open spec fn sub_state(self, i: int) -> (int, int, Seq<Seq<SampleType>>, int) {
        (self.sub_cursor(i), self.sub_start(i), self.sub_received(i), self.sub_lag(i))
    }

    spec fn sub_ok(s: SubscriberState, chunks: Seq<Seq<SampleType>>) -> bool {
        &&& 0 <= s.start@ <= s.cursor <= chunks.len()
        &&& s.received@.len() + s.dropped == s.cursor - s.start@
        &&& s.dropped == 0 ==> s.received@ =~= chunks.subrange(s.start@, s.cursor as int)
    }

    /// The bus invariant: the capacity is positive and every subscriber's
    /// cursor, lag counter and hand-out record agree with the publish
    /// history; a subscriber that never lagged has been handed exactly the
    /// chunks published since it subscribed, in order.
    pub closed spec fn wf(self) -> bool {
        &&& self.capacity >= 1
        &&& forall|i: int|
            0 <= i < self.subs@.len() ==> Self::sub_ok(#[trigger] self.subs@[i], self.published())
    }

    /// A fresh bus with the given per-subscriber window capacity, nothing
    /// published, the producer live, and no subscribers.
    pub fn new(capacity: usize) -> (bus: AudioBus)
        requires
            capacity >= 1,
        ensures
            bus.wf(),
            bus.cap() == capacity,
            bus.published() =~= Seq::<Seq<SampleType>>::empty(),
            !bus.is_closed(),
            bus.sub_count() == 0,
    {
        AudioBus { capacity, history: Vec::new(), closed: false, subs: Vec::new() }
    }

    /// Opens a new subscription and returns its handle. The subscription
    /// starts at the current end of the publish history: it sees no chunk
    /// published before subscription time.
    pub fn subscribe(&mut self) -> (sub: usize)
        requires
            old(self).wf(),
        ensures
            final(self).wf(),
            sub == old(self).sub_count(),
            final(self).sub_count() == old(self).sub_count() + 1,
            final(self).published() == old(self).published(),
            final(self).cap() == old(self).cap(),
            final(self).is_closed() == old(self).is_closed(),
            subs_preserved(*old(self), *final(self)),
            final(self).sub_cursor(sub as int) == final(self).published().len(),
            final(self).sub_start(sub as int) == final(self).published().len(),
            final(self).sub_received(sub as int) =~= Seq::<Seq<SampleType>>::empty(),
            final(self).sub_lag(sub as int) == 0,
    {
        let sub = self.subs.len();
        let cursor = self.history.len();
        self.subs.push(
            SubscriberState {
                cursor,
                dropped: 0,
                start: Ghost(cursor as int),
                received: Ghost(Seq::empty()),
            },
        );
        sub
    }

    /// Publishes one chunk. The call never blocks and never touches any
    /// subscriber's state: a slow or absent consumer costs the producer
    /// nothing.
    pub fn publish(&mut self, chunk: Vec<SampleType>)
        requires
            old(self).wf(),
            !old(self).is_closed(),
        ensures
            final(self).wf(),
            final(self).published() =~= old(self).published().push(chunk@),
            final(self).cap() == old(self).cap(),
            final(self).is_closed() == old(self).is_closed(),
            final(self).sub_count() == old(self).sub_count(),
            subs_preserved(*old(self), *final(self)),
    {
        self.history.push(chunk);
        proof {
            assert(self.published() =~= old(self).published().push(
                self.history@.last()@,
            ));
        }
    }

    /// Marks the producer side gone. Subscribers drain what is already
    /// published and then see `Closed`.
    pub fn close(&mut self)
        requires
            old(self).wf(),
        ensures
            final(self).wf(),
            final(self).is_closed(),
            final(self).published() == old(self).published(),
            final(self).cap() == old(self).cap(),
            final(self).sub_count() == old(self).sub_count(),
            subs_preserved(*old(self), *final(self)),
    {
        self.closed = true;
    }

    /// Reads the next event for one subscriber, without ever waiting:
    ///
    /// - with more unread chunks than the capacity, the oldest are dropped
    ///   for this subscriber alone and their number is reported once as
    ///   `Lagged`;
    /// - otherwise the next chunk is handed out in publish order;
    /// - with nothing unread, `Closed` if the producer is gone, else
    ///   `Pending`.
    ///
    /// No other subscriber's state changes: one consumer's pace is
    /// invisible to the rest.
    pub fn receive(&mut self, sub: usize) -> (r: RecvOutcome)
        requires
            old(self).wf(),
            0 <= sub < old(self).sub_count(),
        ensures
            final(self).wf(),
            final(self).published() == old(self).published(),
            final(self).cap() == old(self).cap(),
            final(self).is_closed() == old(self).is_closed(),
            final(self).sub_count() == old(self).sub_count(),
            subs_preserved_except(*old(self), *final(self), sub as int),
            final(self).sub_start(sub as int) == old(self).sub_start(sub as int),
            ({
                let backlog = old(self).published().len() - old(self).sub_cursor(sub as int);
                let cap = old(self).cap();
                if backlog > cap {
                    &&& r matches RecvOutcome::Lagged(n) && n == backlog - cap
                    &&& final(self).sub_cursor(sub as int) == old(self).published().len() - cap
                    &&& final(self).sub_lag(sub as int) == old(self).sub_lag(sub as int) + (backlog
                        - cap)
                    &&& final(self).sub_received(sub as int) == old(self).sub_received(sub as int)
                } else if backlog >= 1 {
                    &&& r matches RecvOutcome::Chunk(c) && c@ == old(self).published()[old(
                        self,
                    ).sub_cursor(sub as int)]
                    &&& final(self).sub_cursor(sub as int) == old(self).sub_cursor(sub as int) + 1
                    &&& final(self).sub_lag(sub as int) == old(self).sub_lag(sub as int)
                    &&& final(self).sub_received(sub as int) == old(self).sub_received(
                        sub as int,
                    ).push(old(self).published()[old(self).sub_cursor(sub as int)])
                } else {
                    &&& r is Closed <==> old(self).is_closed()
                    &&& r is Pending <==> !old(self).is_closed()
                    &&& final(self).sub_state(sub as int) == old(self).sub_state(sub as int)
                }
            }),
    {
        let len = self.history.len();
        let cursor = self.subs[sub].cursor;
        let backlog = len - cursor;
        if backlog > self.capacity {
            let n = backlog - self.capacity;
            let new_cursor = len - self.capacity;
            let dropped = self.subs[sub].dropped;
            let ghost start = self.subs@[sub as int].start@;
            let ghost received = self.subs@[sub as int].received@;
            self.subs.set(
                sub,
                SubscriberState {
                    cursor: new_cursor,
                    dropped: dropped + (n as u64),
                    start: Ghost(start),
                    received: Ghost(received),
                },
            );
            RecvOutcome::Lagged(n as u64)
        } else if backlog >= 1 {
            let chunk = copy_chunk(&self.history[cursor]);
            let dropped = self.subs[sub].dropped;
            let ghost start = self.subs@[sub as int].start@;
            let ghost received = self.subs@[sub as int].received@;
            self.subs.set(
                sub,
                SubscriberState {
                    cursor: cursor + 1,
                    dropped,
                    start: Ghost(start),
                    received: Ghost(received.push(chunk@)),
                },
            );
            proof {
                if self.subs@[sub as int].dropped == 0 {
                    assert(self.subs@[sub as int].received@ =~= self.published().subrange(
                        start,
                        cursor + 1,
                    ));
                }
            }
            RecvOutcome::Chunk(chunk)
        } else if self.closed {
            RecvOutcome::Closed
        } else {
            RecvOutcome::Pending
        }
    }
}

/// Every subscriber of `pre` carries over to `post` untouched: cursor,
/// subscription point, hand-out record and lag counter all unchanged.
pub open spec fn subs_preserved(pre: AudioBus, post: AudioBus) -> bool {
    forall|j: int|
        #![trigger post.sub_state(j)]
        #![trigger post.sub_cursor(j)]
        #![trigger post.sub_start(j)]
        #![trigger post.sub_received(j)]
        #![trigger post.sub_lag(j)]
        0 <= j < pre.sub_count() ==> post.sub_state(j) == pre.sub_state(j)
}

/// Every subscriber of `pre` but `except` carries over to `post`
/// untouched.
pub open spec fn subs_preserved_except(pre: AudioBus, post: AudioBus, except: int) -> bool {
    forall|j: int|
        #![trigger post.sub_state(j)]
        #![trigger post.sub_cursor(j)]
        #![trigger post.sub_start(j)]
        #![trigger post.sub_received(j)]
        #![trigger post.sub_lag(j)]
        0 <= j < pre.sub_count() && j != except ==> post.sub_state(j) == pre.sub_state(j)
}

/// A fresh copy of one chunk, sample for sample.
pub fn copy_chunk(v: &Vec<SampleType>) -> (r: Vec<SampleType>)
    ensures
        r@ == v@,
{
    let mut r: Vec<SampleType> = Vec::new();
    let mut i: usize = 0;
    while i < v.len()
        invariant
            i <= v.len(),
            r@ =~= v@.subrange(0, i as int),
        decreases v.len() - i,
    {
        r.push(v[i]);
        i = i + 1;
    }
    proof {
        assert(r@ =~= v@);
    }
    r
}

/// Order preservation: a subscriber that has never lagged has been handed
/// exactly the chunks published since it subscribed, in publish order, with
/// no gap and no reordering.
pub proof fn lemma_order_preservation(bus: AudioBus, i: int)
    requires
        bus.wf(),
        0 <= i < bus.sub_count(),
        bus.sub_lag(i) == 0,
    ensures
        bus.sub_received(i) =~= bus.published().subrange(bus.sub_start(i), bus.sub_cursor(i)),
        bus.sub_received(i).len() == bus.sub_cursor(i) - bus.sub_start(i),
{
}

/// Bus isolation, producer side: one published chunk reaches the pending
/// window of every subscriber alike. The two state on the relation
/// `publish` establishes between the bus before and after the call:
/// whatever a subscriber's pace, publishing appends the chunk to its
/// pending window and touches nothing else of it.
pub proof fn lemma_publish_reaches_every_subscriber(
    pre: AudioBus,
    post: AudioBus,
    chunk: Seq<SampleType>,
)
    requires
        pre.wf(),
        post.published() == pre.published().push(chunk),
        post.sub_count() == pre.sub_count(),
        subs_preserved(pre, post),
    ensures
        forall|j: int|
            0 <= j < post.sub_count() ==> #[trigger] post.sub_pending(j) == pre.sub_pending(
                j,
            ).push(chunk),
{
    assert forall|j: int|
        0 <= j < post.sub_count() implies #[trigger] post.sub_pending(j) == pre.sub_pending(
        j,
    ).push(chunk) by {
        lemma_lag_accounting(pre, j);
        assert(post.sub_state(j) == pre.sub_state(j));
        assert(post.sub_cursor(j) == pre.sub_cursor(j));
        assert(post.sub_pending(j) =~= pre.sub_pending(j).push(chunk));
    }
}

/// Bus isolation, consumer side: a subscriber that stalls pays for it
/// alone. Its backlog and lag are functions of the publish history and
/// its own cursor only, so — as `receive` ensures — reading on one
/// subscription never moves another subscriber's cursor, hand-outs, lag
/// counter or pending window.
pub proof fn lemma_stalled_consumer_is_isolated(pre: AudioBus, post: AudioBus, i: int, j: int)
    requires
        pre.wf(),
        0 <= i < pre.sub_count(),
        0 <= j < pre.sub_count(),
        i != j,
        post.published() == pre.published(),
        post.sub_count() == pre.sub_count(),
        post.sub_state(j) == pre.sub_state(j),
    ensures
        post.sub_pending(j) == pre.sub_pending(j),
        post.sub_received(j) == pre.sub_received(j),
        post.sub_lag(j) == pre.sub_lag(j),
{
    assert(post.sub_pending(j) =~= pre.sub_pending(j));
}

/// Bounded loss: a subscriber's hand-outs and losses exactly account for
/// the published window since it subscribed; loss never exceeds what was
/// published.
pub proof fn lemma_lag_accounting(bus: AudioBus, i: int)
    requires
        bus.wf(),
        0 <= i < bus.sub_count(),
    ensures
        bus.sub_received(i).len() + bus.sub_lag(i) == bus.sub_cursor(i) - bus.sub_start(i),
        0 <= bus.sub_start(i) <= bus.sub_cursor(i) <= bus.published().len(),
        bus.cap() >= 1,
{
}

} // verus!
