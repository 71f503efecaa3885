//! Live channels: who listens to which resource, and what is waiting to be
//! sent to whom.
//!
//! A snapshot that is published for a resource is put in line for every
//! subscriber of that resource. What is in line for a subscriber is handed
//! out in the order in which it was published. A subscriber that disconnects
//! is taken out, with what was in line for it; nobody else is touched.
use vstd::prelude::*;
use crate::codec::{
    field_of_with, get_family, get_text, level_names_round_trip, req_family, req_text,
};
use crate::json::{Json, JsonValue};
use crate::permission::ResourceType;
use crate::text::mark;

verus! {

/// What a subscriber listens to: one resource.
#[derive(Debug, PartialEq, Eq)]
pub struct Topic {
    pub family: ResourceType,
    /// The id of the resource.
    pub resource: String,
}

/// A [`Topic`] as plain values.
pub struct TopicView {
    pub family: ResourceType,
    pub resource: Seq<char>,
}

impl View for Topic {
    type V = TopicView;

    open spec fn view(&self) -> TopicView {
        TopicView { family: self.family, resource: self.resource@ }
    }
}

impl Topic {
    /// A copy that reads as `self`.
    pub fn duplicate(&self) -> (copy: Topic)
        ensures
            copy@ == self@,
    {
        Topic { family: self.family, resource: self.resource.clone() }
    }

    /// Whether two topics are the same resource.
    pub fn same_as(&self, other: &Topic) -> (same: bool)
        ensures
            same == (self@ == other@),
    {
        self.family == other.family && self.resource == other.resource
    }
}

impl TopicView {
    /// The topic as a document: the name of the family under `family`, the
    /// id of the resource under `resource`.
    pub open spec fn json(self) -> JsonValue {
        JsonValue::empty().with("family"@, JsonValue::Str(self.family.name_text())).with(
            "resource"@,
            JsonValue::Str(self.resource),
        )
    }

    /// The topic that a document names; none where a field is missing or of
    /// the wrong sort.
    pub open spec fn parsed(j: JsonValue) -> Option<TopicView> {
        match (req_family(j, "family"@), req_text(j, "resource"@)) {
            (Some(family), Some(resource)) => Some(TopicView { family, resource }),
            _ => None,
        }
    }
}

impl Topic {
    /// The topic as a document.
    pub fn to_json(&self) -> (j: Json)
        ensures
            j@ == self@.json(),
    {
        Json::empty_object().with("family", Json::text(self.family.name())).with(
            "resource",
            Json::Str(self.resource.clone()),
        )
    }

    /// The topic that a document names.
    pub fn from_json(j: &Json) -> (r: Option<Topic>)
        ensures
            match r {
                Some(topic) => TopicView::parsed(j@) == Some(topic@),
                None => TopicView::parsed(j@) is None,
            },
    {
        match (get_family(j, "family"), get_text(j, "resource")) {
            (Some(family), Some(resource)) => Some(Topic { family, resource }),
            _ => None,
        }
    }
}

/// A topic that is written as a document and read back is the same topic.
pub proof fn topic_round_trip(topic: TopicView)
    ensures
        TopicView::parsed(topic.json()) == Some(topic),
{
    broadcast use field_of_with;

    reveal_strlit("family");
    reveal_strlit("resource");
    assert(mark("family"@, 0, 0) == (6nat, 'f', 'f'));
    assert(mark("resource"@, 0, 0) == (8nat, 'r', 'r'));
    level_names_round_trip();
}

/// One subscriber listening to one topic.
#[derive(Debug, PartialEq, Eq)]
pub struct Subscription {
    pub subscriber: u64,
    pub topic: Topic,
}

/// A [`Subscription`] as plain values.
pub struct SubscriptionView {
    pub subscriber: u64,
    pub topic: TopicView,
}

impl View for Subscription {
    type V = SubscriptionView;

    open spec fn view(&self) -> SubscriptionView {
        SubscriptionView { subscriber: self.subscriber, topic: self.topic@ }
    }
}

/// A snapshot on its way to one subscriber.
#[derive(Debug, PartialEq, Eq)]
pub struct Delivery {
    pub subscriber: u64,
    pub topic: Topic,
    pub payload: Json,
}

/// A [`Delivery`] as plain values.
pub struct DeliveryView {
    pub subscriber: u64,
    pub topic: TopicView,
    pub payload: JsonValue,
}

impl View for Delivery {
    type V = DeliveryView;

    open spec fn view(&self) -> DeliveryView {
        DeliveryView { subscriber: self.subscriber, topic: self.topic@, payload: self.payload@ }
    }
}

impl DeliveryView {
    /// The delivery as it is sent: the topic under `topic`, the snapshot
    /// under `payload`.
    pub open spec fn json(self) -> JsonValue {
        JsonValue::empty().with("topic"@, self.topic.json()).with("payload"@, self.payload)
    }
}

impl Delivery {
    /// The delivery as it is sent.
    pub fn into_json(self) -> (j: Json)
        ensures
            j@ == self@.json(),
    {
        Json::empty_object().with("topic", self.topic.to_json()).with("payload", self.payload)
    }
}

/// The deliveries of a list as plain values.
pub open spec fn deliveries(items: Seq<Delivery>) -> Seq<DeliveryView> {
    Seq::new(items.len(), |i: int| items[i]@)
}

/// The deliveries that publishing `payload` for `topic` makes: one for each
/// subscription to the topic, in the order of the subscriptions.
pub open spec fn fan_out(subscriptions: Seq<SubscriptionView>, topic: TopicView, payload: JsonValue) -> Seq<
    DeliveryView,
>
    decreases subscriptions.len(),
{
    if subscriptions.len() == 0 {
        Seq::empty()
    } else {
        let rest = fan_out(subscriptions.drop_last(), topic, payload);
        if subscriptions.last().topic == topic {
            rest.push(DeliveryView { subscriber: subscriptions.last().subscriber, topic, payload })
        } else {
            rest
        }
    }
}

/// The deliveries among `pending` that are for `subscriber`, in order.
pub open spec fn addressed_to(pending: Seq<DeliveryView>, subscriber: u64) -> Seq<DeliveryView>
    decreases pending.len(),
{
    if pending.len() == 0 {
        Seq::empty()
    } else {
        let rest = addressed_to(pending.drop_last(), subscriber);
        if pending.last().subscriber == subscriber {
            rest.push(pending.last())
        } else {
            rest
        }
    }
}

/// The deliveries among `pending` that are for anyone but `subscriber`, in
/// order.
pub open spec fn addressed_to_others(pending: Seq<DeliveryView>, subscriber: u64) -> Seq<DeliveryView>
    decreases pending.len(),
{
    if pending.len() == 0 {
        Seq::empty()
    } else {
        let rest = addressed_to_others(pending.drop_last(), subscriber);
        if pending.last().subscriber != subscriber {
            rest.push(pending.last())
        } else {
            rest
        }
    }
}

/// The subscriptions of anyone but `subscriber`, in order.
pub open spec fn subscriptions_of_others(subscriptions: Seq<SubscriptionView>, subscriber: u64) -> Seq<
    SubscriptionView,
>
    decreases subscriptions.len(),
{
    if subscriptions.len() == 0 {
        Seq::empty()
    } else {
        let rest = subscriptions_of_others(subscriptions.drop_last(), subscriber);
        if subscriptions.last().subscriber != subscriber {
            rest.push(subscriptions.last())
        } else {
            rest
        }
    }
}

/// The channels as plain values.
pub struct ChannelsView {
    pub subscriptions: Seq<SubscriptionView>,
    /// What is waiting to be sent, in the order in which it was published.
    pub pending: Seq<DeliveryView>,
}

impl ChannelsView {
    /// Whether `subscriber` listens to `topic`.
    pub open spec fn listens(self, subscriber: u64, topic: TopicView) -> bool {
        self.subscriptions.contains(SubscriptionView { subscriber, topic })
    }

    /// The channels after `subscriber` asked to listen to `topic`: one more
    /// subscription, unless there is that one already.
    pub open spec fn subscribed(self, subscriber: u64, topic: TopicView) -> ChannelsView {
        if self.listens(subscriber, topic) {
            self
        } else {
            ChannelsView {
                subscriptions: self.subscriptions.push(SubscriptionView { subscriber, topic }),
                ..self
            }
        }
    }

    /// The channels after `payload` was published for `topic`: a delivery
    /// for each subscriber of the topic is put behind what is waiting.
    pub open spec fn published(self, topic: TopicView, payload: JsonValue) -> ChannelsView {
        ChannelsView {
            pending: self.pending + fan_out(self.subscriptions, topic, payload),
            ..self
        }
    }

    /// The channels after what waits for `subscriber` was handed out.
    pub open spec fn taken(self, subscriber: u64) -> ChannelsView {
        ChannelsView { pending: addressed_to_others(self.pending, subscriber), ..self }
    }

    /// The channels after `subscriber` went away: its subscriptions are
    /// gone, and so is what waited for it.
    pub open spec fn disconnected(self, subscriber: u64) -> ChannelsView {
        ChannelsView {
            subscriptions: subscriptions_of_others(self.subscriptions, subscriber),
            pending: addressed_to_others(self.pending, subscriber),
        }
    }
}

/// What is in line for a subscriber keeps its order when more is published:
/// the deliveries of what was there come first, those of what was added
/// after them.
pub proof fn addressed_to_keeps_order(first: Seq<DeliveryView>, then: Seq<DeliveryView>, subscriber: u64)
    ensures
        addressed_to(first + then, subscriber) == addressed_to(first, subscriber) + addressed_to(
            then,
            subscriber,
        ),
        addressed_to_others(first + then, subscriber) == addressed_to_others(first, subscriber)
            + addressed_to_others(then, subscriber),
    decreases then.len(),
{
    if then.len() == 0 {
        assert(first + then =~= first);
        assert(addressed_to(first, subscriber) + addressed_to(then, subscriber) =~= addressed_to(
            first,
            subscriber,
        ));
        assert(addressed_to_others(first, subscriber) + addressed_to_others(then, subscriber)
            =~= addressed_to_others(first, subscriber));
    } else {
        addressed_to_keeps_order(first, then.drop_last(), subscriber);
        assert((first + then).drop_last() =~= first + then.drop_last());
        assert((first + then).last() == then.last());
        assert(addressed_to(first + then, subscriber) =~= addressed_to(first, subscriber)
            + addressed_to(then, subscriber));
        assert(addressed_to_others(first + then, subscriber) =~= addressed_to_others(
            first,
            subscriber,
        ) + addressed_to_others(then, subscriber));
    }
}

/// Taking out what is for one subscriber leaves what is for another as it
/// was.
pub proof fn others_are_untouched(pending: Seq<DeliveryView>, gone: u64, other: u64)
    requires
        gone != other,
    ensures
        addressed_to(addressed_to_others(pending, gone), other) == addressed_to(pending, other),
        addressed_to(addressed_to_others(pending, gone), gone).len() == 0,
    decreases pending.len(),
{
    if pending.len() > 0 {
        others_are_untouched(pending.drop_last(), gone, other);
        let rest = addressed_to_others(pending.drop_last(), gone);
        if pending.last().subscriber != gone {
            assert(rest.push(pending.last()).drop_last() =~= rest);
        }
    }
}

/// A snapshot goes to the subscribers of its topic and to nobody else: each
/// delivery is for one who listens to the topic, and carries the topic and
/// the snapshot; and one who listens gets a delivery.
pub proof fn fan_out_reaches_the_subscribers(
    subscriptions: Seq<SubscriptionView>,
    topic: TopicView,
    payload: JsonValue,
    subscriber: u64,
)
    ensures
        forall|i: int|
            0 <= i < fan_out(subscriptions, topic, payload).len() ==> {
                let d = #[trigger] fan_out(subscriptions, topic, payload)[i];
                d.topic == topic && d.payload == payload && subscriptions.contains(
                    SubscriptionView { subscriber: d.subscriber, topic },
                )
            },
        subscriptions.contains(SubscriptionView { subscriber, topic }) ==> addressed_to(
            fan_out(subscriptions, topic, payload),
            subscriber,
        ).len() > 0,
        !subscriptions.contains(SubscriptionView { subscriber, topic }) ==> addressed_to(
            fan_out(subscriptions, topic, payload),
            subscriber,
        ).len() == 0,
    decreases subscriptions.len(),
{
    if subscriptions.len() > 0 {
        let rest = subscriptions.drop_last();
        let last = subscriptions.last();
        fan_out_reaches_the_subscribers(rest, topic, payload, subscriber);
        let out = fan_out(subscriptions, topic, payload);
        let before = fan_out(rest, topic, payload);
        let wanted = SubscriptionView { subscriber, topic };
        assert forall|i: int| 0 <= i < out.len() implies {
            let d = #[trigger] out[i];
            d.topic == topic && d.payload == payload && subscriptions.contains(
                SubscriptionView { subscriber: d.subscriber, topic },
            )
        } by {
            if i < before.len() {
                let d = before[i];
                assert(out[i] == d);
                let s = SubscriptionView { subscriber: d.subscriber, topic };
                assert(rest.contains(s));
                let k = choose|k: int| 0 <= k < rest.len() && rest[k] == s;
                assert(subscriptions[k] == s);
            } else {
                assert(subscriptions[subscriptions.len() - 1] == last);
            }
        }
        if last.topic == topic {
            assert(out.drop_last() =~= before);
        }
        if subscriptions.contains(wanted) {
            let k = choose|k: int| 0 <= k < subscriptions.len() && subscriptions[k] == wanted;
            if k < rest.len() {
                assert(rest[k] == wanted);
                assert(rest.contains(wanted));
            }
        } else {
            if rest.contains(wanted) {
                let k = choose|k: int| 0 <= k < rest.len() && rest[k] == wanted;
                assert(subscriptions[k] == wanted);
            }
            assert(subscriptions[subscriptions.len() - 1] == last);
        }
    }
}

/// One who went away gets nothing of what is published afterwards, and the
/// others get what they would have got.
pub proof fn disconnecting_touches_nobody_else(
    subscriptions: Seq<SubscriptionView>,
    topic: TopicView,
    payload: JsonValue,
    gone: u64,
)
    ensures
        fan_out(subscriptions_of_others(subscriptions, gone), topic, payload)
            == addressed_to_others(fan_out(subscriptions, topic, payload), gone),
    decreases subscriptions.len(),
{
    if subscriptions.len() > 0 {
        disconnecting_touches_nobody_else(subscriptions.drop_last(), topic, payload, gone);
        let rest = subscriptions.drop_last();
        let last = subscriptions.last();
        if last.subscriber != gone {
            assert(subscriptions_of_others(rest, gone).push(last).drop_last()
                =~= subscriptions_of_others(rest, gone));
        }
        if last.topic == topic {
            let d = DeliveryView { subscriber: last.subscriber, topic, payload };
            assert(fan_out(rest, topic, payload).push(d).drop_last() =~= fan_out(
                rest,
                topic,
                payload,
            ));
        }
    }
}

/// The live channels.
#[derive(Debug, PartialEq, Eq)]
pub struct Channels {
    subscriptions: Vec<Subscription>,
    pending: Vec<Delivery>,
}

impl View for Channels {
    type V = ChannelsView;

    closed spec fn view(&self) -> ChannelsView {
        ChannelsView {
            subscriptions: Seq::new(self.subscriptions@.len(), |i: int| self.subscriptions@[i]@),
            pending: deliveries(self.pending@),
        }
    }
}

impl Channels {
    /// Channels that nobody listens to.
    pub fn new() -> (c: Channels)
        ensures
            c@.subscriptions.len() == 0,
            c@.pending.len() == 0,
    {
        Channels { subscriptions: Vec::new(), pending: Vec::new() }
    }

    /// Whether `subscriber` listens to `topic`.
    pub fn listens(&self, subscriber: u64, topic: &Topic) -> (listens: bool)
        ensures
            listens == self@.listens(subscriber, topic@),
    {
        let ghost wanted = SubscriptionView { subscriber, topic: topic@ };
        let mut i: usize = 0;
        while i < self.subscriptions.len()
            invariant
                i <= self.subscriptions.len(),
                self@.subscriptions.len() == self.subscriptions@.len(),
                wanted == (SubscriptionView { subscriber, topic: topic@ }),
                forall|k: int| 0 <= k < i ==> #[trigger] self@.subscriptions[k] != wanted,
            decreases self.subscriptions.len() - i,
        {
            if self.subscriptions[i].subscriber == subscriber && self.subscriptions[i].topic.same_as(
                topic,
            ) {
                assert(self@.subscriptions[i as int] == wanted);
                return true;
            }
            i += 1;
        }
        false
    }

    /// Has `subscriber` listen to `topic`, and says whether that is new.
    pub fn subscribe(&mut self, subscriber: u64, topic: Topic) -> (added: bool)
        ensures
            added == !old(self)@.listens(subscriber, topic@),
            final(self)@ == old(self)@.subscribed(subscriber, topic@),
    {
        if self.listens(subscriber, &topic) {
            false
        } else {
            let ghost before = self@;
            self.subscriptions.push(Subscription { subscriber, topic });
            assert(self@.subscriptions =~= before.subscriptions.push(
                SubscriptionView { subscriber, topic: topic@ },
            ));
            assert(self@.pending =~= before.pending);
            true
        }
    }

    /// Publishes `payload` for `topic`: puts a delivery for each subscriber
    /// of the topic behind what is waiting, and says how many.
    pub fn publish(&mut self, topic: &Topic, payload: &Json) -> (count: usize)
        ensures
            final(self)@ == old(self)@.published(topic@, payload@),
            count == fan_out(old(self)@.subscriptions, topic@, payload@).len(),
    {
        let ghost before = self@;
        let mut count: usize = 0;
        let mut i: usize = 0;
        assert(before.subscriptions.take(0) =~= Seq::empty());
        assert(before.pending + Seq::<DeliveryView>::empty() =~= before.pending);
        while i < self.subscriptions.len()
            invariant
                i <= self.subscriptions.len(),
                self@.subscriptions == before.subscriptions,
                before.subscriptions.len() == self.subscriptions@.len(),
                self@.pending == before.pending + fan_out(
                    before.subscriptions.take(i as int),
                    topic@,
                    payload@,
                ),
                count == fan_out(before.subscriptions.take(i as int), topic@, payload@).len(),
                count <= i,
            decreases self.subscriptions.len() - i,
        {
            let ghost seen = before.subscriptions.take(i as int);
            let ghost next = before.subscriptions.take(i as int + 1);
            assert(next.drop_last() =~= seen);
            assert(next.last() == before.subscriptions[i as int]);
            if self.subscriptions[i].topic.same_as(topic) {
                let ghost waiting = self@.pending;
                let delivery = Delivery {
                    subscriber: self.subscriptions[i].subscriber,
                    topic: topic.duplicate(),
                    payload: payload.duplicate(),
                };
                self.pending.push(delivery);
                assert(self@.pending =~= waiting.push(delivery@));
                assert(self@.pending =~= before.pending + fan_out(next, topic@, payload@));
                assert(self@.subscriptions =~= before.subscriptions);
                count += 1;
            }
            i += 1;
        }
        assert(before.subscriptions.take(i as int) =~= before.subscriptions);
        count
    }

    /// Hands out what waits for `subscriber`, in the order in which it was
    /// published.
    pub fn take(&mut self, subscriber: u64) -> (mine: Vec<Delivery>)
        ensures
            deliveries(mine@) == addressed_to(old(self)@.pending, subscriber),
            final(self)@ == old(self)@.taken(subscriber),
    {
        let ghost before = self@;
        let mut waiting: Vec<Delivery> = Vec::new();
        core::mem::swap(&mut waiting, &mut self.pending);
        let ghost all = deliveries(waiting@);
        assert(all =~= before.pending);
        let mut mine: Vec<Delivery> = Vec::new();
        let mut kept: Vec<Delivery> = Vec::new();
        assert(deliveries(mine@) =~= Seq::empty());
        assert(deliveries(kept@) =~= Seq::empty());
        while waiting.len() > 0
            invariant
                addressed_to(all, subscriber) == addressed_to(deliveries(waiting@), subscriber)
                    + reversed(deliveries(mine@)),
                addressed_to_others(all, subscriber) == addressed_to_others(
                    deliveries(waiting@),
                    subscriber,
                ) + reversed(deliveries(kept@)),
            decreases waiting.len(),
        {
            let ghost left = deliveries(waiting@);
            let ghost got = deliveries(mine@);
            let ghost stay = deliveries(kept@);
            let delivery = waiting.pop().unwrap();
            assert(deliveries(waiting@) =~= left.drop_last());
            assert(left.last() == delivery@);
            if delivery.subscriber == subscriber {
                mine.push(delivery);
                assert(deliveries(mine@) =~= got.push(delivery@));
                assert(reversed(got.push(delivery@)) =~= seq![delivery@] + reversed(got)) by {
                    reversed_push(got, delivery@);
                }
                assert(addressed_to(left.drop_last(), subscriber).push(delivery@) + reversed(got)
                    =~= addressed_to(left.drop_last(), subscriber) + (seq![delivery@] + reversed(
                    got,
                )));
                assert(deliveries(kept@) =~= stay);
            } else {
                kept.push(delivery);
                assert(deliveries(kept@) =~= stay.push(delivery@));
                assert(reversed(stay.push(delivery@)) =~= seq![delivery@] + reversed(stay)) by {
                    reversed_push(stay, delivery@);
                }
                assert(addressed_to_others(left.drop_last(), subscriber).push(delivery@)
                    + reversed(stay) =~= addressed_to_others(left.drop_last(), subscriber) + (
                seq![delivery@] + reversed(stay)));
                assert(deliveries(mine@) =~= got);
            }
        }
        assert(deliveries(waiting@) =~= Seq::empty());
        assert(Seq::<DeliveryView>::empty() + reversed(deliveries(mine@)) =~= reversed(
            deliveries(mine@),
        ));
        assert(Seq::<DeliveryView>::empty() + reversed(deliveries(kept@)) =~= reversed(
            deliveries(kept@),
        ));
        let mine = turned(mine);
        let kept = turned(kept);
        self.pending = kept;
        assert(self@.subscriptions =~= before.subscriptions);
        mine
    }

    /// Takes `subscriber` out: its subscriptions, and what waits for it.
    pub fn disconnect(&mut self, subscriber: u64)
        ensures
            final(self)@ == old(self)@.disconnected(subscriber),
    {
        let ghost before = self@;
        let _ = self.take(subscriber);
        let ghost pending = self@.pending;
        let mut kept: Vec<Subscription> = Vec::new();
        let mut i: usize = 0;
        assert(before.subscriptions.take(0) =~= Seq::empty());
        while i < self.subscriptions.len()
            invariant
                i <= self.subscriptions.len(),
                self@.subscriptions == before.subscriptions,
                self@.pending == pending,
                before.subscriptions.len() == self.subscriptions@.len(),
                Seq::new(kept@.len(), |k: int| kept@[k]@) == subscriptions_of_others(
                    before.subscriptions.take(i as int),
                    subscriber,
                ),
            decreases self.subscriptions.len() - i,
        {
            let ghost seen = before.subscriptions.take(i as int);
            let ghost next = before.subscriptions.take(i as int + 1);
            let ghost held = Seq::new(kept@.len(), |k: int| kept@[k]@);
            assert(next.drop_last() =~= seen);
            assert(next.last() == before.subscriptions[i as int]);
            if self.subscriptions[i].subscriber != subscriber {
                let copy = Subscription {
                    subscriber: self.subscriptions[i].subscriber,
                    topic: self.subscriptions[i].topic.duplicate(),
                };
                kept.push(copy);
                assert(Seq::new(kept@.len(), |k: int| kept@[k]@) =~= held.push(copy@));
            }
            i += 1;
        }
        assert(before.subscriptions.take(i as int) =~= before.subscriptions);
        self.subscriptions = kept;
        assert(self@.pending =~= pending);
    }
}

/// A sequence back to front.
pub open spec fn reversed<T>(items: Seq<T>) -> Seq<T> {
    Seq::new(items.len(), |i: int| items[items.len() - 1 - i])
}

/// A sequence with one more item at its end, back to front, starts with that
/// item.
pub proof fn reversed_push<T>(items: Seq<T>, item: T)
    ensures
        reversed(items.push(item)) == seq![item] + reversed(items),
{
    assert(reversed(items.push(item)) =~= seq![item] + reversed(items));
}

/// The deliveries of `items`, back to front.
fn turned(items: Vec<Delivery>) -> (out: Vec<Delivery>)
    ensures
        deliveries(out@) == reversed(deliveries(items@)),
{
    let ghost all = deliveries(items@);
    let mut items = items;
    let mut out: Vec<Delivery> = Vec::new();
    assert(deliveries(out@) =~= Seq::empty());
    while items.len() > 0
        invariant
            deliveries(items@).len() + deliveries(out@).len() == all.len(),
            forall|k: int| 0 <= k < items@.len() ==> (#[trigger] deliveries(items@)[k]) == all[k],
            forall|k: int|
                0 <= k < out@.len() ==> (#[trigger] deliveries(out@)[k]) == all[all.len() - 1 - k],
        decreases items.len(),
    {
        let ghost left = deliveries(items@);
        let ghost done = deliveries(out@);
        let item = items.pop().unwrap();
        assert(deliveries(items@) =~= left.drop_last());
        assert(left.last() == item@);
        out.push(item);
        assert(deliveries(out@) =~= done.push(item@));
    }
    assert(deliveries(out@) =~= reversed(all));
    out
}

} // verus!
