use vstd::prelude::*;

use vstd::multiset::Multiset;

use crate::entity::EntityId;

verus! {

broadcast use vstd::seq_lib::group_to_multiset_ensures;

/// A kind of message that can be dispatched to entities.
pub trait MessageEvent {}

/// A message waiting to be delivered at `dispatch_time` (milliseconds since
/// the Unix epoch) to `receiver`.
pub struct Telegram<T> {
    pub dispatch_time: i64,
    pub receiver: Option<EntityId>,
    pub message: T,
}

/// A message as it is handed to its receiver.
pub struct DispatchedMessageEvent<T> {
    pub receiver: Option<EntityId>,
    pub message: T,
}

impl<T> Telegram<T> {
    pub fn new(dispatch_time: i64, receiver: Option<EntityId>, message: T) -> (t: Self)
        ensures
            t == (Telegram { dispatch_time, receiver, message }),
    {
        Telegram { dispatch_time, receiver, message }
    }

    /// The event that delivers this telegram.
    pub open spec fn event(self) -> DispatchedMessageEvent<T> {
        DispatchedMessageEvent { receiver: self.receiver, message: self.message }
    }
}

/// Every telegram of `s` is due at or after every later one.
pub open spec fn latest_first<T>(s: Seq<Telegram<T>>) -> bool {
    forall|i: int, j: int|
        0 <= i < j < s.len() ==> #[trigger] s[i].dispatch_time >= #[trigger] s[j].dispatch_time
}

/// Every telegram of `q` is due at `now`.
pub open spec fn all_due<T>(q: Seq<Telegram<T>>, now: int) -> bool {
    forall|i: int| 0 <= i < q.len() ==> #[trigger] q[i].dispatch_time <= now
}

/// `order` holds the telegrams of `queue`, each as often as there, latest first.
pub open spec fn is_dispatch_order<T>(queue: Seq<Telegram<T>>, order: Seq<Telegram<T>>) -> bool {
    &&& order.to_multiset() == queue.to_multiset()
    &&& latest_first(order)
}

/// The receivers and messages of a queue of telegrams, in queue order.
pub open spec fn addressed<T>(q: Seq<Telegram<T>>) -> Seq<(Option<EntityId>, T)> {
    q.map_values(|t: Telegram<T>| (t.receiver, t.message))
}

/// The time `delay` milliseconds after `now`, clamped to the range of `i64`.
pub open spec fn delayed(now: int, delay: int) -> int {
    if now + delay > i64::MAX {
        i64::MAX as int
    } else if now + delay < i64::MIN {
        i64::MIN as int
    } else {
        now + delay
    }
}

/// `after` holds the telegrams of `before`, unchanged and in place, followed
/// by telegrams due at `now`.
pub open spec fn sent_at<T>(before: Seq<Telegram<T>>, after: Seq<Telegram<T>>, now: int) -> bool {
    &&& before.len() <= after.len()
    &&& forall|i: int| 0 <= i < before.len() ==> #[trigger] after[i] == before[i]
    &&& forall|i: int| before.len() <= i < after.len() ==> #[trigger] after[i].dispatch_time == now
}

/// Adds a delay to a time, saturating at the bounds of `i64`.
fn delay_time(now: i64, delay_millis: i64) -> (t: i64)
    ensures
        t == delayed(now as int, delay_millis as int),
{
    match now.checked_add(delay_millis) {
        Some(t) => t,
        None => if delay_millis > 0 {
            i64::MAX
        } else {
            i64::MIN
        },
    }
}

/// Holds telegrams until they are due and hands them out, latest first.
pub struct MessageDispatcher<T> {
    queue: Vec<Telegram<T>>,
}

impl<T> View for MessageDispatcher<T> {
    type V = Seq<Telegram<T>>;

    closed spec fn view(&self) -> Seq<Telegram<T>> {
        self.queue@
    }
}

impl<T> MessageDispatcher<T> {
    /// A dispatcher with nothing queued.
    pub fn default() -> (d: Self)
        ensures
            d@.len() == 0,
    {
        MessageDispatcher { queue: Vec::new() }
    }

    /// The number of telegrams waiting.
    pub fn len(&self) -> (n: usize)
        ensures
            n == self@.len(),
    {
        self.queue.len()
    }

    /// The index of the first telegram with the latest dispatch time.
    fn latest_index(&self) -> (idx: usize)
        requires
            self@.len() > 0,
        ensures
            idx < self@.len(),
            forall|j: int|
                0 <= j < self@.len() ==> #[trigger] self@[j].dispatch_time
                    <= self@[idx as int].dispatch_time,
            forall|j: int|
                0 <= j < idx ==> #[trigger] self@[j].dispatch_time
                    < self@[idx as int].dispatch_time,
    {
        let mut best: usize = 0;
        let mut i: usize = 1;
        while i < self.queue.len()
            invariant
                best < i <= self@.len(),
                forall|j: int|
                    0 <= j < i ==> #[trigger] self@[j].dispatch_time
                        <= self@[best as int].dispatch_time,
                forall|j: int|
                    0 <= j < best ==> #[trigger] self@[j].dispatch_time
                        < self@[best as int].dispatch_time,
            decreases self@.len() - i,
        {
            if self.queue[i].dispatch_time > self.queue[best].dispatch_time {
                best = i;
            }
            i = i + 1;
        }
        best
    }

    /// Turns a telegram into the event that delivers it.
    fn discharge(telegram: Telegram<T>) -> (e: DispatchedMessageEvent<T>)
        ensures
            e == telegram.event(),
    {
        DispatchedMessageEvent { receiver: telegram.receiver, message: telegram.message }
    }

    /// Delivers queued telegrams while the latest one is due at `now`.
    /// As the latest telegram goes first, either every telegram is due and
    /// all of them are delivered, latest first, or none is.
    pub fn dispatch_deferred_messages(&mut self, now: i64) -> (events: Vec<DispatchedMessageEvent<T>>)
        ensures
            all_due(old(self)@, now as int) ==> {
                &&& final(self)@.len() == 0
                &&& exists|order: Seq<Telegram<T>>|
                    #[trigger] is_dispatch_order(old(self)@, order) && events@ == order.map_values(
                        |t: Telegram<T>| t.event(),
                    )
            },
            !all_due(old(self)@, now as int) ==> final(self)@ == old(self)@ && events@.len() == 0,
    {
        let ghost original = self@;
        let mut events: Vec<DispatchedMessageEvent<T>> = Vec::new();
        let ghost mut order: Seq<Telegram<T>> = Seq::empty();
        loop
            invariant
                order.to_multiset().add(self@.to_multiset()) == original.to_multiset(),
                latest_first(order),
                forall|i: int, j: int|
                    0 <= i < order.len() && 0 <= j < self@.len() ==> #[trigger] order[i].dispatch_time
                        >= #[trigger] self@[j].dispatch_time,
                forall|i: int| 0 <= i < order.len() ==> #[trigger] order[i].dispatch_time <= now,
                events@ == order.map_values(|t: Telegram<T>| t.event()),
                order.len() == 0 ==> self@ == original,
            ensures
                order.to_multiset().add(self@.to_multiset()) == original.to_multiset(),
                latest_first(order),
                events@ == order.map_values(|t: Telegram<T>| t.event()),
                order.len() == 0 ==> self@ == original,
                self@.len() == 0 || (order.len() == 0 && !all_due(original, now as int)),
            decreases self@.len(),
        {
            if self.queue.len() == 0 {
                break;
            }
            let idx = self.latest_index();
            if self.queue[idx].dispatch_time > now {
                proof {
                    if order.len() > 0 {
                        assert(order[0].dispatch_time >= self@[idx as int].dispatch_time);
                    }
                    assert(self@ == original);
                    assert(original[idx as int].dispatch_time > now);
                }
                break;
            }
            let ghost before = self@;
            let telegram = self.queue.remove(idx);
            proof {
                assert(before.to_multiset().count(telegram) > 0);
                assert(order.push(telegram).to_multiset().add(self@.to_multiset())
                    =~= order.to_multiset().add(before.to_multiset()));
                assert forall|i: int, j: int|
                    0 <= i < order.push(telegram).len() && 0 <= j < self@.len()
                    implies #[trigger] order.push(telegram)[i].dispatch_time
                        >= #[trigger] self@[j].dispatch_time by {
                    if j < idx {
                        assert(self@[j] == before[j]);
                    } else {
                        assert(self@[j] == before[j + 1]);
                    }
                }
                order = order.push(telegram);
            }
            events.push(Self::discharge(telegram));
            proof {
                assert(events@ =~= order.map_values(|t: Telegram<T>| t.event()));
            }
        }
        proof {
            if self@.len() == 0 {
                assert(self@.to_multiset() =~= Multiset::empty());
                assert(order.to_multiset() =~= original.to_multiset());
                assert(is_dispatch_order(original, order));
                assert forall|i: int| 0 <= i < original.len() implies #[trigger] original[i].dispatch_time
                    <= now by {
                    let t = original[i];
                    assert(original.contains(t));
                    assert(order.to_multiset().count(t) > 0);
                    assert(order.contains(t));
                    let k = choose|k: int| 0 <= k < order.len() && order[k] == t;
                    assert(order[k].dispatch_time <= now);
                }
            } else {
                assert(events@.len() == 0);
            }
        }
        events
    }

    /// Queues `message` for `receiver`, due `delay_millis` milliseconds after
    /// `now`; a time beyond the range of `i64` is clamped to it.
    pub fn defer_dispatch_message(
        &mut self,
        now: i64,
        receiver: Option<EntityId>,
        message: T,
        delay_millis: i64,
    )
        ensures
            final(self)@ == old(self)@.push(
                Telegram {
                    dispatch_time: delayed(now as int, delay_millis as int) as i64,
                    receiver,
                    message,
                },
            ),
            addressed(final(self)@) == addressed(old(self)@).push((receiver, message)),
    {
        let dispatch_time = delay_time(now, delay_millis);
        self.queue.push(Telegram::new(dispatch_time, receiver, message));
        proof {
            assert(addressed(self@) =~= addressed(old(self)@).push((receiver, message)));
        }
    }

    /// Queues `message` for `receiver`, due at `now`. Delivery always goes
    /// through the queue, so that a message sent in answer to another reaches
    /// its receiver in a later round.
    pub fn dispatch_message(&mut self, now: i64, receiver: Option<EntityId>, message: T)
        ensures
            final(self)@ == old(self)@.push(Telegram { dispatch_time: now, receiver, message }),
            addressed(final(self)@) == addressed(old(self)@).push((receiver, message)),
            sent_at(old(self)@, final(self)@, now as int),
    {
        self.defer_dispatch_message(now, receiver, message, 0);
    }
}

/// Nothing is lost or duplicated between queueing and delivery: a dispatch
/// order of a queue holds each queued telegram as often as the queue does.
pub proof fn lemma_dispatch_order_keeps_telegrams<T>(
    queue: Seq<Telegram<T>>,
    order: Seq<Telegram<T>>,
    t: Telegram<T>,
)
    requires
        is_dispatch_order(queue, order),
    ensures
        order.len() == queue.len(),
        order.contains(t) <==> queue.contains(t),
{
    assert(order.to_multiset().len() == queue.to_multiset().len());
    assert(order.to_multiset().count(t) == queue.to_multiset().count(t));
}

} // verus!
