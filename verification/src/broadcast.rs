//! The broadcast channel: one event goes to every subscriber that is
//! registered when it is published. A subscriber that joins later sees
//! nothing of what came before, and one that left receives nothing more.
//!
//! Each subscriber has an inbox of bounded length. When an inbox is full the
//! oldest event in it makes room for the new one, so a slow subscriber
//! neither blocks a publisher nor grows without bound. Every event carries a
//! full position, so the newest one for a player is the one that counts.

use vstd::prelude::*;
use crate::entities::{PositionUpdate, PositionUpdateView};
use crate::errors::{AppError, AppErrorView};
use crate::text::owned;

verus! {

/// The number of events that an inbox holds at most.
pub const INBOX_CAPACITY: usize = 64;

/// `inbox` after `event` arrived: appended, at the cost of the oldest event
/// where the inbox was full.
pub open spec fn push_bounded(inbox: Seq<PositionUpdateView>, event: PositionUpdateView) -> Seq<
    PositionUpdateView,
> {
    if inbox.len() < INBOX_CAPACITY as nat {
        inbox.push(event)
    } else {
        inbox.drop_first().push(event)
    }
}

/// The subscribers of a channel after `event` was published to it: the same
/// handles, each inbox with the event delivered.
pub open spec fn delivered(
    subscribers: Map<u64, Seq<PositionUpdateView>>,
    event: PositionUpdateView,
) -> Map<u64, Seq<PositionUpdateView>> {
    Map::new(
        |h: u64| subscribers.dom().contains(h),
        |h: u64| push_bounded(subscribers[h], event),
    )
}

/// The error of a subscription that found every handle issued.
pub open spec fn handles_exhausted() -> AppErrorView {
    AppErrorView::DbError("No subscription handle is left"@)
}

/// One registered subscriber: its handle and the events that wait for it.
struct Subscriber {
    id: u64,
    inbox: Vec<PositionUpdate>,
}

/// The events of an inbox as mathematical values.
spec fn inbox_view(inbox: Seq<PositionUpdate>) -> Seq<PositionUpdateView> {
    inbox.map_values(|u: PositionUpdate| u@)
}

/// Every subscriber stands in the model with its inbox, every handle of the
/// model has a subscriber, no handle is registered twice, every handle was
/// issued before `next_id`, and no inbox is over its capacity.
spec fn subscribers_match(
    subscribers: Seq<Subscriber>,
    next_id: u64,
    model: Map<u64, Seq<PositionUpdateView>>,
) -> bool {
    &&& forall|i: int|
        0 <= i < subscribers.len() ==> {
            &&& model.dom().contains(#[trigger] subscribers[i].id)
            &&& model[subscribers[i].id] == inbox_view(subscribers[i].inbox@)
            &&& subscribers[i].id < next_id
            &&& subscribers[i].inbox@.len() <= INBOX_CAPACITY
        }
    &&& forall|h: u64|
        model.dom().contains(h) ==> exists|i: int|
            0 <= i < subscribers.len() && #[trigger] subscribers[i].id == h
    &&& forall|i: int, j: int|
        0 <= i < j < subscribers.len() ==> #[trigger] subscribers[i].id
            != #[trigger] subscribers[j].id
}

/// A broadcast channel that lives in memory. Its view maps the handle of
/// each registered subscriber to the events that wait in its inbox, oldest
/// first.
pub struct BroadcastChannel {
    subscribers: Vec<Subscriber>,
    next_id: u64,
    model: Ghost<Map<u64, Seq<PositionUpdateView>>>,
}

impl View for BroadcastChannel {
    type V = Map<u64, Seq<PositionUpdateView>>;

    closed spec fn view(&self) -> Map<u64, Seq<PositionUpdateView>> {
        self.model@
    }
}

impl BroadcastChannel {
    #[verifier::type_invariant]
    spec fn well_formed(&self) -> bool {
        subscribers_match(self.subscribers@, self.next_id, self.model@)
    }

    /// The number of handles that the channel has issued so far.
    pub closed spec fn issued(&self) -> int {
        self.next_id as int
    }

    /// A channel without subscribers.
    pub fn new() -> (r: BroadcastChannel)
        ensures
            r@ == Map::<u64, Seq<PositionUpdateView>>::empty(),
            r.issued() == 0,
    {
        BroadcastChannel { subscribers: Vec::new(), next_id: 0, model: Ghost(Map::empty()) }
    }

    /// A channel without subscribers that has issued `issued` handles
    /// already: the first handle that it gives out is `issued`.
    pub fn resumed(issued: u64) -> (r: BroadcastChannel)
        ensures
            r@ == Map::<u64, Seq<PositionUpdateView>>::empty(),
            r.issued() == issued,
    {
        BroadcastChannel { subscribers: Vec::new(), next_id: issued, model: Ghost(Map::empty()) }
    }

    /// The index of the subscriber with the handle `handle`, if it is
    /// registered.
    fn find(&self, handle: u64) -> (r: Option<usize>)
        ensures
            match r {
                Some(i) => i < self.subscribers@.len() && self.subscribers@[i as int].id == handle,
                None => forall|j: int|
                    0 <= j < self.subscribers@.len() ==> #[trigger] self.subscribers@[j].id
                        != handle,
            },
    {
        let mut i: usize = 0;
        while i < self.subscribers.len()
            invariant
                i <= self.subscribers@.len(),
                forall|j: int| 0 <= j < i ==> #[trigger] self.subscribers@[j].id != handle,
            decreases self.subscribers@.len() - i,
        {
            if self.subscribers[i].id == handle {
                return Some(i);
            }
            i += 1;
        }
        None
    }

    /// Whether `handle` is registered.
    pub fn is_subscribed(&self, handle: u64) -> (r: bool)
        ensures
            r == self@.dom().contains(handle),
    {
        proof {
            use_type_invariant(self);
        }
        self.find(handle).is_some()
    }

    /// The number of events that wait for `handle`; 0 for a handle that is
    /// not registered.
    pub fn pending(&self, handle: u64) -> (r: usize)
        ensures
            self@.dom().contains(handle) ==> r as nat == self@[handle].len(),
            !self@.dom().contains(handle) ==> r == 0,
    {
        proof {
            use_type_invariant(self);
        }
        match self.find(handle) {
            Some(i) => self.subscribers[i].inbox.len(),
            None => 0,
        }
    }

    /// Registers a new subscriber with an empty inbox and returns its
    /// handle, which no subscriber had before. It fails only when every
    /// handle has been issued.
    pub fn subscribe(&mut self) -> (r: Result<u64, AppError>)
        ensures
            r is Ok <==> old(self).issued() < u64::MAX,
            match r {
                Ok(handle) => {
                    &&& !old(self)@.dom().contains(handle)
                    &&& final(self)@ == old(self)@.insert(handle, Seq::<PositionUpdateView>::empty())
                    &&& final(self).issued() == old(self).issued() + 1
                },
                Err(e) => {
                    &&& e@ == handles_exhausted()
                    &&& final(self)@ == old(self)@
                    &&& final(self).issued() == old(self).issued()
                },
            },
    {
        let mut taken = BroadcastChannel::new();
        std::mem::swap(self, &mut taken);
        proof {
            use_type_invariant(&taken);
        }
        let BroadcastChannel { subscribers, next_id, model } = taken;
        let mut subscribers = subscribers;
        if next_id == u64::MAX {
            *self = BroadcastChannel { subscribers, next_id, model };
            return Err(AppError::DbError(owned("No subscription handle is left")));
        }
        let ghost before = subscribers@;
        let ghost after_model = model@.insert(next_id, Seq::<PositionUpdateView>::empty());
        assert(!model@.dom().contains(next_id)) by {
            if model@.dom().contains(next_id) {
                let i = choose|i: int| 0 <= i < before.len() && #[trigger] before[i].id == next_id;
                assert(before[i].id < next_id);
            }
        }
        subscribers.push(Subscriber { id: next_id, inbox: Vec::new() });
        assert(inbox_view(Seq::<PositionUpdate>::empty()) =~= Seq::<PositionUpdateView>::empty());
        assert forall|h: u64| after_model.dom().contains(h) implies exists|i: int|
            0 <= i < subscribers@.len() && #[trigger] subscribers@[i].id == h by {
            if h == next_id {
                assert(subscribers@[before.len() as int].id == h);
            } else {
                let i = choose|i: int| 0 <= i < before.len() && #[trigger] before[i].id == h;
                assert(subscribers@[i].id == h);
            }
        }
        assert forall|i: int| 0 <= i < subscribers@.len() implies {
            &&& after_model.dom().contains(#[trigger] subscribers@[i].id)
            &&& after_model[subscribers@[i].id] == inbox_view(subscribers@[i].inbox@)
            &&& subscribers@[i].id < next_id + 1
            &&& subscribers@[i].inbox@.len() <= INBOX_CAPACITY
        } by {
            if i < before.len() {
                assert(before[i].id < next_id);
            }
        }
        assert forall|i: int, j: int| 0 <= i < j < subscribers@.len() implies #[trigger] subscribers@[i].id
            != #[trigger] subscribers@[j].id by {
            if j < before.len() {
                assert(before[i].id != before[j].id);
            } else {
                assert(before[i].id < next_id);
            }
        }
        let following: u64 = next_id + 1;
        assert(subscribers_match(subscribers@, following, after_model));
        *self = BroadcastChannel { subscribers, next_id: following, model: Ghost(after_model) };
        Ok(next_id)
    }

    /// Removes the subscriber `handle` with whatever waits in its inbox, and
    /// says whether it was registered. Nothing is delivered to it afterwards.
    pub fn unsubscribe(&mut self, handle: u64) -> (r: bool)
        ensures
            r == old(self)@.dom().contains(handle),
            final(self)@ == old(self)@.remove(handle),
            final(self).issued() == old(self).issued(),
    {
        let mut taken = BroadcastChannel::new();
        std::mem::swap(self, &mut taken);
        proof {
            use_type_invariant(&taken);
        }
        let found = taken.find(handle);
        let BroadcastChannel { subscribers, next_id, model } = taken;
        let mut subscribers = subscribers;
        let ghost before = subscribers@;
        let ghost after_model = model@.remove(handle);
        match found {
            Some(i) => {
                subscribers.remove(i);
                assert forall|h: u64| after_model.dom().contains(h) implies exists|j: int|
                    0 <= j < subscribers@.len() && #[trigger] subscribers@[j].id == h by {
                    let j = choose|j: int| 0 <= j < before.len() && #[trigger] before[j].id == h;
                    if j < i {
                        assert(subscribers@[j].id == h);
                    } else {
                        assert(subscribers@[j - 1].id == h);
                    }
                }
                assert forall|j: int| 0 <= j < subscribers@.len() implies {
                    &&& after_model.dom().contains(#[trigger] subscribers@[j].id)
                    &&& after_model[subscribers@[j].id] == inbox_view(subscribers@[j].inbox@)
                    &&& subscribers@[j].id < next_id
                    &&& subscribers@[j].inbox@.len() <= INBOX_CAPACITY
                } by {
                    if j < i {
                        assert(subscribers@[j] == before[j]);
                        assert(before[j].id != before[i as int].id);
                    } else {
                        assert(subscribers@[j] == before[j + 1]);
                        assert(before[i as int].id != before[j + 1].id);
                    }
                }
                assert forall|a: int, b: int| 0 <= a < b < subscribers@.len() implies #[trigger] subscribers@[a].id
                    != #[trigger] subscribers@[b].id by {
                    let a0 = if a < i { a } else { a + 1 };
                    let b0 = if b < i { b } else { b + 1 };
                    assert(subscribers@[a] == before[a0]);
                    assert(subscribers@[b] == before[b0]);
                    assert(before[a0].id != before[b0].id);
                }
            },
            None => {
                assert(!model@.dom().contains(handle)) by {
                    if model@.dom().contains(handle) {
                        let j = choose|j: int| 0 <= j < before.len() && #[trigger] before[j].id == handle;
                        assert(before[j].id != handle);
                    }
                }
                assert(after_model =~= model@);
            },
        }
        assert(subscribers_match(subscribers@, next_id, after_model));
        *self = BroadcastChannel { subscribers, next_id, model: Ghost(after_model) };
        found.is_some()
    }

    /// Delivers a copy of `event` to the inbox of every subscriber that is
    /// registered now, and returns how many there are. A full inbox loses
    /// its oldest event. The set of subscribers does not change.
    pub fn publish(&mut self, event: &PositionUpdate) -> (r: usize)
        ensures
            final(self)@ == delivered(old(self)@, event@),
            final(self).issued() == old(self).issued(),
            old(self)@.dom().finite(),
            r as nat == old(self)@.dom().len(),
    {
        let mut taken = BroadcastChannel::new();
        std::mem::swap(self, &mut taken);
        proof {
            use_type_invariant(&taken);
            taken.lemma_domain_size();
        }
        let BroadcastChannel { subscribers, next_id, model } = taken;
        let mut subscribers = subscribers;
        let ghost before = subscribers@;
        let ghost after_model = delivered(model@, event@);
        let mut i: usize = 0;
        while i < subscribers.len()
            invariant
                i <= subscribers@.len(),
                subscribers@.len() == before.len(),
                subscribers_match(before, next_id, model@),
                forall|j: int|
                    0 <= j < i ==> {
                        &&& (#[trigger] subscribers@[j]).id == before[j].id
                        &&& inbox_view(subscribers@[j].inbox@) == push_bounded(
                            inbox_view(before[j].inbox@),
                            event@,
                        )
                        &&& subscribers@[j].inbox@.len() <= INBOX_CAPACITY
                    },
                forall|j: int| i <= j < subscribers@.len() ==> subscribers@[j] == before[j],
            decreases subscribers@.len() - i,
        {
            let ghost inbox_before = subscribers@[i as int].inbox@;
            assert(subscribers@[i as int] == before[i as int]);
            assert(before[i as int].id < next_id);
            assert(inbox_before.len() <= INBOX_CAPACITY);
            if subscribers[i].inbox.len() >= INBOX_CAPACITY {
                subscribers[i].inbox.remove(0);
                assert(subscribers@[i as int].inbox@ =~= inbox_before.drop_first());
            }
            let copy = event.duplicate();
            subscribers[i].inbox.push(copy);
            assert(inbox_view(subscribers@[i as int].inbox@) =~= push_bounded(
                inbox_view(inbox_before),
                event@,
            ));
            i += 1;
        }
        assert forall|h: u64| after_model.dom().contains(h) implies exists|j: int|
            0 <= j < subscribers@.len() && #[trigger] subscribers@[j].id == h by {
            let j = choose|j: int| 0 <= j < before.len() && #[trigger] before[j].id == h;
            assert(subscribers@[j].id == h);
        }
        assert forall|j: int| 0 <= j < subscribers@.len() implies {
            &&& after_model.dom().contains(#[trigger] subscribers@[j].id)
            &&& after_model[subscribers@[j].id] == inbox_view(subscribers@[j].inbox@)
            &&& subscribers@[j].id < next_id
            &&& subscribers@[j].inbox@.len() <= INBOX_CAPACITY
        } by {
            assert(before[j].id == subscribers@[j].id);
            assert(model@.dom().contains(before[j].id));
        }
        assert forall|a: int, b: int| 0 <= a < b < subscribers@.len() implies #[trigger] subscribers@[a].id
            != #[trigger] subscribers@[b].id by {
            assert(before[a].id != before[b].id);
        }
        assert(subscribers_match(subscribers@, next_id, after_model));
        let count = subscribers.len();
        *self = BroadcastChannel { subscribers, next_id, model: Ghost(after_model) };
        count
    }

    /// Takes the oldest event that waits for `handle` out of its inbox.
    /// `None` where nothing waits or the handle is not registered; the
    /// channel is then unchanged.
    pub fn next_event(&mut self, handle: u64) -> (r: Option<PositionUpdate>)
        ensures
            final(self).issued() == old(self).issued(),
            r is Some <==> old(self)@.dom().contains(handle) && old(self)@[handle].len() > 0,
            match r {
                Some(event) => {
                    &&& event@ == old(self)@[handle][0]
                    &&& final(self)@ == old(self)@.insert(handle, old(self)@[handle].drop_first())
                },
                None => final(self)@ == old(self)@,
            },
    {
        let mut taken = BroadcastChannel::new();
        std::mem::swap(self, &mut taken);
        proof {
            use_type_invariant(&taken);
        }
        let found = taken.find(handle);
        let BroadcastChannel { subscribers, next_id, model } = taken;
        let mut subscribers = subscribers;
        let ghost before = subscribers@;
        match found {
            Some(i) => {
                if subscribers[i].inbox.len() == 0 {
                    assert(inbox_view(before[i as int].inbox@).len() == 0);
                    *self = BroadcastChannel { subscribers, next_id, model };
                    return None;
                }
                let ghost inbox_before = subscribers@[i as int].inbox@;
                let ghost after_model = model@.insert(handle, model@[handle].drop_first());
                let event = subscribers[i].inbox.remove(0);
                assert(inbox_view(subscribers@[i as int].inbox@) =~= inbox_view(
                    inbox_before,
                ).drop_first());
                assert(event@ == inbox_view(inbox_before)[0]);
                assert forall|h: u64| after_model.dom().contains(h) implies exists|j: int|
                    0 <= j < subscribers@.len() && #[trigger] subscribers@[j].id == h by {
                    if h == handle {
                        assert(subscribers@[i as int].id == h);
                    } else {
                        let j = choose|j: int| 0 <= j < before.len() && #[trigger] before[j].id == h;
                        assert(subscribers@[j].id == h);
                    }
                }
                assert forall|j: int| 0 <= j < subscribers@.len() implies {
                    &&& after_model.dom().contains(#[trigger] subscribers@[j].id)
                    &&& after_model[subscribers@[j].id] == inbox_view(subscribers@[j].inbox@)
                    &&& subscribers@[j].id < next_id
                    &&& subscribers@[j].inbox@.len() <= INBOX_CAPACITY
                } by {
                    if j != i {
                        assert(subscribers@[j] == before[j]);
                        if j < i {
                            assert(before[j].id != before[i as int].id);
                        } else {
                            assert(before[i as int].id != before[j].id);
                        }
                    } else {
                        assert(before[j].id == handle);
                    }
                }
                assert forall|a: int, b: int| 0 <= a < b < subscribers@.len() implies #[trigger] subscribers@[a].id
                    != #[trigger] subscribers@[b].id by {
                    assert(before[a].id != before[b].id);
                }
                assert(subscribers_match(subscribers@, next_id, after_model));
                *self = BroadcastChannel { subscribers, next_id, model: Ghost(after_model) };
                Some(event)
            },
            None => {
                assert(!model@.dom().contains(handle)) by {
                    if model@.dom().contains(handle) {
                        let j = choose|j: int| 0 <= j < before.len() && #[trigger] before[j].id == handle;
                        assert(before[j].id != handle);
                    }
                }
                *self = BroadcastChannel { subscribers, next_id, model };
                None
            },
        }
    }

    /// The number of registered subscribers.
    pub fn subscriber_count(&self) -> (r: usize)
        ensures
            self@.dom().finite(),
            r as nat == self@.dom().len(),
    {
        proof {
            use_type_invariant(self);
            self.lemma_domain_size();
        }
        self.subscribers.len()
    }

    /// The handles of the model are as many as the subscribers.
    proof fn lemma_domain_size(&self)
        requires
            self.well_formed(),
        ensures
            self.model@.dom().finite(),
            self.model@.dom().len() == self.subscribers@.len(),
    {
        let ids = self.subscribers@.map_values(|s: Subscriber| s.id);
        assert(ids.no_duplicates());
        assert(ids.to_set() =~= self.model@.dom()) by {
            assert forall|h: u64| self.model@.dom().contains(h) implies ids.to_set().contains(h) by {
                let i = choose|i: int|
                    0 <= i < self.subscribers@.len() && #[trigger] self.subscribers@[i].id == h;
                assert(ids[i] == h);
            }
            assert forall|h: u64| ids.to_set().contains(h) implies self.model@.dom().contains(h) by {
                let i = choose|i: int| 0 <= i < ids.len() && ids[i] == h;
                assert(self.subscribers@[i].id == h);
            }
        }
        ids.unique_seq_to_set();
    }
}

/// The subscribers of a channel after the events `events` were published to
/// it, one after the other.
pub open spec fn delivered_all(
    subscribers: Map<u64, Seq<PositionUpdateView>>,
    events: Seq<PositionUpdateView>,
) -> Map<u64, Seq<PositionUpdateView>>
    decreases events.len(),
{
    if events.len() == 0 {
        subscribers
    } else {
        delivered(delivered_all(subscribers, events.drop_last()), events.last())
    }
}

/// An event that is published is the newest event in the inbox of every
/// subscriber that is registered then, and no one else gets an inbox.
pub proof fn lemma_publish_reaches_every_subscriber(
    subscribers: Map<u64, Seq<PositionUpdateView>>,
    event: PositionUpdateView,
    handle: u64,
)
    ensures
        delivered(subscribers, event).dom() == subscribers.dom(),
        subscribers.dom().contains(handle) ==> {
            &&& delivered(subscribers, event)[handle].len() > 0
            &&& delivered(subscribers, event)[handle].last() == event
            &&& delivered(subscribers, event)[handle].len() <= subscribers[handle].len() + 1
        },
{
    assert(delivered(subscribers, event).dom() =~= subscribers.dom());
}

/// Publishing never registers nor removes a subscriber, however many events
/// are published.
pub proof fn lemma_publishing_keeps_the_subscribers(
    subscribers: Map<u64, Seq<PositionUpdateView>>,
    events: Seq<PositionUpdateView>,
)
    ensures
        delivered_all(subscribers, events).dom() == subscribers.dom(),
    decreases events.len(),
{
    if events.len() > 0 {
        lemma_publishing_keeps_the_subscribers(subscribers, events.drop_last());
        assert(delivered(delivered_all(subscribers, events.drop_last()), events.last()).dom()
            =~= delivered_all(subscribers, events.drop_last()).dom());
    }
}

/// Once a subscription is removed, nothing that is published afterwards is
/// delivered to it, and no inbox is left under its handle.
pub proof fn lemma_removed_subscriber_receives_nothing(
    subscribers: Map<u64, Seq<PositionUpdateView>>,
    handle: u64,
    events: Seq<PositionUpdateView>,
)
    ensures
        !delivered_all(subscribers.remove(handle), events).dom().contains(handle),
{
    lemma_publishing_keeps_the_subscribers(subscribers.remove(handle), events);
}

/// A subscriber that registers after an event was published finds nothing
/// of it in its inbox: there is no replay.
pub proof fn lemma_no_replay(
    subscribers: Map<u64, Seq<PositionUpdateView>>,
    event: PositionUpdateView,
    handle: u64,
)
    requires
        !subscribers.dom().contains(handle),
    ensures
        delivered(subscribers, event).insert(handle, Seq::<PositionUpdateView>::empty())[handle].len()
            == 0,
{
}

/// An inbox never holds more than its capacity, and while it is not full
/// nothing is lost.
pub proof fn lemma_inbox_is_bounded(inbox: Seq<PositionUpdateView>, event: PositionUpdateView)
    requires
        inbox.len() <= INBOX_CAPACITY,
    ensures
        push_bounded(inbox, event).len() <= INBOX_CAPACITY,
        push_bounded(inbox, event).last() == event,
        inbox.len() < INBOX_CAPACITY ==> push_bounded(inbox, event) == inbox.push(event),
        inbox.len() == INBOX_CAPACITY ==> push_bounded(inbox, event) == inbox.drop_first().push(event),
{
}

} // verus!
