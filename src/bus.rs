//! The distribution core: a bus that hands every admitted event to each
//! subscriber attached at the moment of admission.
//!
//! Each subscriber owns a bounded queue. Publishing never waits on a
//! subscriber: when a queue is full the event is dropped for that subscriber
//! alone, and every other subscriber still receives it. Each admitted event
//! carries a sequence number, so a subscriber can tell that it sees events in
//! admission order, and only those admitted after it joined.
use vstd::prelude::*;
use std::collections::VecDeque;
use crate::shot::ShotEvent;

verus! {

/// One admitted event as a subscriber receives it.
#[derive(Clone, Copy, Debug, PartialEq, Eq, Structural)]
pub struct Delivery {
    /// Position of the event in admission order.
    pub seq: u64,
    pub event: ShotEvent,
}

struct Subscription {
    handle: u64,
    start: u64,
    queue: VecDeque<Delivery>,
}

/// What a subscriber is: its handle, the sequence number of the first event
/// it may receive, and the events waiting for it, oldest first.
pub struct SubscriberView {
    pub handle: u64,
    pub start: u64,
    pub queue: Seq<Delivery>,
}

pub struct BusView {
    pub subscribers: Seq<SubscriberView>,
    pub capacity: nat,
    pub next_handle: u64,
    pub next_seq: u64,
}

impl Subscription {
    spec fn view(&self) -> SubscriberView {
        SubscriberView { handle: self.handle, start: self.start, queue: self.queue@ }
    }
}

/// A subscriber after `d` was offered to it: appended if its queue has room.
pub open spec fn offered(s: SubscriberView, capacity: nat, d: Delivery) -> SubscriberView {
    if s.queue.len() < capacity {
        SubscriberView { queue: s.queue.push(d), ..s }
    } else {
        s
    }
}

impl BusView {
    /// Handles are unique and fresh ones are above all of them; queues are
    /// within the bound; each queue holds events admitted after its
    /// subscriber joined, in strictly increasing admission order.
    pub open spec fn wf(self) -> bool {
        &&& forall|i: int, j: int|
            0 <= i < self.subscribers.len() && 0 <= j < self.subscribers.len() && i != j
                ==> #[trigger] self.subscribers[i].handle != #[trigger] self.subscribers[j].handle
        &&& forall|i: int|
            0 <= i < self.subscribers.len() ==> {
                let s = #[trigger] self.subscribers[i];
                &&& s.handle < self.next_handle
                &&& s.start <= self.next_seq
                &&& s.queue.len() <= self.capacity
                &&& forall|k: int|
                    0 <= k < s.queue.len() ==> s.start <= #[trigger] s.queue[k].seq
                        < self.next_seq
                &&& forall|k1: int, k2: int|
                    0 <= k1 < k2 < s.queue.len() ==> #[trigger] s.queue[k1].seq
                        < #[trigger] s.queue[k2].seq
            }
    }

    pub open spec fn has(self, h: u64) -> bool {
        exists|i: int| 0 <= i < self.subscribers.len() && self.subscribers[i].handle == h
    }

    /// The position of subscriber `h`, where `has(h)`.
    pub open spec fn index_of(self, h: u64) -> int {
        choose|i: int| 0 <= i < self.subscribers.len() && self.subscribers[i].handle == h
    }

    /// The state after a subscriber joins, and its handle; none once handles
    /// are exhausted.
    pub open spec fn subscribed(self) -> (BusView, Option<u64>) {
        if self.next_handle == u64::MAX {
            (self, None)
        } else {
            (
                BusView {
                    subscribers: self.subscribers.push(
                        SubscriberView {
                            handle: self.next_handle,
                            start: self.next_seq,
                            queue: Seq::empty(),
                        },
                    ),
                    next_handle: (self.next_handle + 1) as u64,
                    ..self
                },
                Some(self.next_handle),
            )
        }
    }

    /// The state after `e` is admitted, and its sequence number; none once
    /// sequence numbers are exhausted.
    pub open spec fn published(self, e: ShotEvent) -> (BusView, Option<u64>) {
        if self.next_seq == u64::MAX {
            (self, None)
        } else {
            let d = Delivery { seq: self.next_seq, event: e };
            (
                BusView {
                    subscribers: self.subscribers.map_values(
                        |s: SubscriberView| offered(s, self.capacity, d),
                    ),
                    next_seq: (self.next_seq + 1) as u64,
                    ..self
                },
                Some(self.next_seq),
            )
        }
    }

    /// The state after detaching `h`, and whether `h` was attached.
    pub open spec fn unsubscribed(self, h: u64) -> (BusView, bool) {
        if self.has(h) {
            (BusView { subscribers: self.subscribers.remove(self.index_of(h)), ..self }, true)
        } else {
            (self, false)
        }
    }

    /// The state after subscriber `h` takes its oldest waiting event, and that
    /// event; none when `h` is unknown or has nothing waiting.
    pub open spec fn received(self, h: u64) -> (BusView, Option<Delivery>) {
        if self.has(h) && self.subscribers[self.index_of(h)].queue.len() > 0 {
            let i = self.index_of(h);
            let s = self.subscribers[i];
            (
                BusView {
                    subscribers: self.subscribers.update(
                        i,
                        SubscriberView { queue: s.queue.drop_first(), ..s },
                    ),
                    ..self
                },
                Some(s.queue[0]),
            )
        } else {
            (self, None)
        }
    }
}

/// The fan-out bus.
pub struct Bus {
    subs: Vec<Subscription>,
    capacity: usize,
    next_handle: u64,
    next_seq: u64,
}

impl View for Bus {
    type V = BusView;

    closed spec fn view(&self) -> BusView {
        BusView {
            subscribers: self.subs@.map_values(|s: Subscription| s.view()),
            capacity: self.capacity as nat,
            next_handle: self.next_handle,
            next_seq: self.next_seq,
        }
    }
}

impl Bus {
    /// An empty bus whose subscribers each hold at most `capacity` waiting
    /// events.
    pub fn new(capacity: usize) -> (r: Bus)
        ensures
            r@.wf(),
            r@.subscribers.len() == 0,
            r@.capacity == capacity,
            r@.next_handle == 0,
            r@.next_seq == 0,
    {
        let r = Bus { subs: Vec::new(), capacity, next_handle: 0, next_seq: 0 };
        assert(r@.subscribers =~= Seq::empty());
        r
    }

    /// Attaches a new subscriber, which sees only events admitted from now
    /// on; `None` once every handle has been given out.
    pub fn subscribe(&mut self) -> (r: Option<u64>)
        requires
            old(self)@.wf(),
        ensures
            final(self)@.wf(),
            (final(self)@, r) == old(self)@.subscribed(),
    {
        if self.next_handle == u64::MAX {
            return None;
        }
        let h = self.next_handle;
        self.subs.push(Subscription { handle: h, start: self.next_seq, queue: VecDeque::new() });
        self.next_handle = h + 1;
        assert(self@.subscribers =~= old(self)@.subscribed().0.subscribers);
        Some(h)
    }

    /// Admits `e`: every attached subscriber with room in its queue gets it
    /// at the back; a full queue drops it for that subscriber alone. Returns
    /// the event's sequence number; `None`, with nothing changed, once
    /// sequence numbers are exhausted. Each subscriber is visited once and
    /// none is waited on.
    pub fn publish(&mut self, e: ShotEvent) -> (r: Option<u64>)
        requires
            old(self)@.wf(),
        ensures
            final(self)@.wf(),
            (final(self)@, r) == old(self)@.published(e),
    {
        if self.next_seq == u64::MAX {
            return None;
        }
        let ghost before = self@;
        let d = Delivery { seq: self.next_seq, event: e };
        let n = self.subs.len();
        let mut i: usize = 0;
        while i < n
            invariant
                before == old(self)@,
                before.wf(),
                before.next_seq < u64::MAX,
                d == (Delivery { seq: before.next_seq, event: e }),
                n == self.subs.len(),
                n == before.subscribers.len(),
                0 <= i <= n,
                self.capacity == before.capacity,
                self.next_handle == before.next_handle,
                self.next_seq == before.next_seq,
                forall|k: int|
                    0 <= k < i ==> #[trigger] self.subs@[k].view() == offered(
                        before.subscribers[k],
                        before.capacity,
                        d,
                    ),
                forall|k: int| i <= k < n ==> #[trigger] self.subs@[k].view() == before.subscribers[k],
            decreases n - i,
        {
            let ghost prev = self.subs@;
            if self.subs[i].queue.len() < self.capacity {
                self.subs[i].queue.push_back(d);
            }
            assert(forall|k: int| 0 <= k < n && k != i ==> self.subs@[k] == prev[k]);
            assert(before.subscribers[i as int] == prev[i as int].view());
            assert(self.subs@[i as int].view() =~= offered(before.subscribers[i as int], before.capacity, d));
            i = i + 1;
        }
        self.next_seq = self.next_seq + 1;
        assert(self@.subscribers =~= before.published(e).0.subscribers);
        Some(d.seq)
    }

    /// The position of subscriber `h`, if attached.
    fn find(&self, h: u64) -> (r: Option<usize>)
        requires
            self@.wf(),
        ensures
            r is None ==> !self@.has(h),
            r matches Some(i) ==> self@.has(h) && i == self@.index_of(h) && i < self.subs@.len(),
    {
        let n = self.subs.len();
        let mut i: usize = 0;
        while i < n
            invariant
                self@.wf(),
                n == self.subs@.len(),
                0 <= i <= n,
                forall|k: int| 0 <= k < i ==> self.subs@[k].handle != h,
            decreases n - i,
        {
            if self.subs[i].handle == h {
                assert(self@.subscribers[i as int].handle == h);
                assert(self@.has(h));
                let ghost j = self@.index_of(h);
                assert(self@.subscribers[j].handle == h);
                assert(j == i);
                return Some(i);
            }
            i = i + 1;
        }
        assert forall|k: int| 0 <= k < self@.subscribers.len() implies self@.subscribers[k].handle
            != h by {
            assert(self@.subscribers[k] == self.subs@[k].view());
        }
        None
    }

    /// Detaches subscriber `h` and drops what waits for it. Detaching an
    /// unknown or already detached handle changes nothing and is no error;
    /// the result says whether `h` was attached.
    pub fn unsubscribe(&mut self, h: u64) -> (r: bool)
        requires
            old(self)@.wf(),
        ensures
            final(self)@.wf(),
            (final(self)@, r) == old(self)@.unsubscribed(h),
    {
        match self.find(h) {
            None => false,
            Some(i) => {
                let ghost before = self@;
                let _gone = self.subs.remove(i);
                assert(self@.subscribers =~= before.subscribers.remove(i as int));
                true
            },
        }
    }

    /// Hands subscriber `h` its oldest waiting event; `None` when `h` is not
    /// attached or nothing waits for it.
    pub fn receive(&mut self, h: u64) -> (r: Option<Delivery>)
        requires
            old(self)@.wf(),
        ensures
            final(self)@.wf(),
            (final(self)@, r) == old(self)@.received(h),
    {
        match self.find(h) {
            None => None,
            Some(i) => {
                let ghost before = self@;
                let r = self.subs[i].queue.pop_front();
                assert(self@.subscribers =~= before.received(h).0.subscribers);
                r
            },
        }
    }

    /// Whether `h` is attached.
    pub fn is_subscribed(&self, h: u64) -> (r: bool)
        requires
            self@.wf(),
        ensures
            r == self@.has(h),
    {
        self.find(h).is_some()
    }

    /// How many events wait for subscriber `h` (0 when it is not attached).
    pub fn pending(&self, h: u64) -> (r: usize)
        requires
            self@.wf(),
        ensures
            self@.has(h) ==> r == self@.subscribers[self@.index_of(h)].queue.len(),
            !self@.has(h) ==> r == 0,
    {
        match self.find(h) {
            None => 0,
            Some(i) => self.subs[i].queue.len(),
        }
    }

    /// How many subscribers are attached.
    pub fn subscriber_count(&self) -> (r: usize)
        ensures
            r == self@.subscribers.len(),
    {
        self.subs.len()
    }

} // impl

} // verus!

verus! {

/// Every subscriber attached when `e` is admitted, and whose queue has room,
/// finds `e` at the back of its queue, behind what already waited; nothing
/// else about it changes.
pub proof fn lemma_publish_reaches_attached(v: BusView, e: ShotEvent)
    requires
        v.wf(),
        v.next_seq < u64::MAX,
    ensures
        ({
            let (w, s) = v.published(e);
            &&& s == Some(v.next_seq)
            &&& w.subscribers.len() == v.subscribers.len()
            &&& forall|i: int|
                0 <= i < v.subscribers.len() && v.subscribers[i].queue.len() < v.capacity
                    ==> {
                    &&& #[trigger] w.subscribers[i].handle == v.subscribers[i].handle
                    &&& w.subscribers[i].queue == v.subscribers[i].queue.push(
                        Delivery { seq: v.next_seq, event: e },
                    )
                }
        }),
{
}

/// A subscriber whose queue is full loses `e` and is otherwise left as it
/// was, while a subscriber with room still gets `e`: one saturated consumer
/// does not hold back the others.
pub proof fn lemma_full_queue_isolated(v: BusView, e: ShotEvent, slow: int, fast: int)
    requires
        v.wf(),
        v.next_seq < u64::MAX,
        0 <= slow < v.subscribers.len(),
        0 <= fast < v.subscribers.len(),
        v.subscribers[slow].queue.len() >= v.capacity,
        v.subscribers[fast].queue.len() < v.capacity,
    ensures
        v.published(e).0.subscribers[slow] == v.subscribers[slow],
        v.published(e).0.subscribers[fast].queue == v.subscribers[fast].queue.push(
            Delivery { seq: v.next_seq, event: e },
        ),
{
}

/// A subscriber that joins after `e` was admitted starts past `e`'s
/// sequence number, and in every well-formed state a subscriber only holds
/// events numbered from its start on: it never receives `e`.
pub proof fn lemma_late_subscriber_misses(v: BusView, e: ShotEvent)
    requires
        v.wf(),
        v.next_seq < u64::MAX,
        v.next_handle < u64::MAX,
    ensures
        ({
            let (v1, s) = v.published(e);
            let (v2, h) = v1.subscribed();
            &&& s is Some && h is Some
            &&& v2.subscribers.last().handle == h.unwrap()
            &&& v2.subscribers.last().start > s.unwrap()
            &&& v2.subscribers.last().queue.len() == 0
        }),
        forall|w: BusView, i: int, k: int|
            w.wf() && 0 <= i < w.subscribers.len() && 0 <= k
                < #[trigger] w.subscribers[i].queue.len() ==> w.subscribers[i].start
                <= #[trigger] w.subscribers[i].queue[k].seq,
{
}

/// Detaching is idempotent: once `h` is detached, detaching it again
/// reports that it was not attached and changes nothing; an unknown handle
/// likewise changes nothing.
pub proof fn lemma_unsubscribe_idempotent(v: BusView, h: u64)
    requires
        v.wf(),
    ensures
        v.unsubscribed(h).0.unsubscribed(h) == (v.unsubscribed(h).0, false),
        !v.has(h) ==> v.unsubscribed(h) == (v, false),
{
    if v.has(h) {
        let i = v.index_of(h);
        let w = v.unsubscribed(h).0;
        assert forall|k: int| 0 <= k < w.subscribers.len() implies w.subscribers[k].handle != h by {
            if k < i {
                assert(w.subscribers[k] == v.subscribers[k]);
            } else {
                assert(w.subscribers[k] == v.subscribers[k + 1]);
            }
        }
    }
}

} // verus!
