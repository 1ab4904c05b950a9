//! What holds of the bus whatever state it is in, proved of the model that
//! the contracts of `MessageBus` are stated over.

use crate::bus::model::{
    after_read, after_receive, agents, closed, delivered, ensured, is_subscription, listens_to,
    live_agents, next_delivery, published, received, subscribed, unsubscribed, well_formed,
    with_topic, BusView, DeliveryView, MailboxView, MessageView, TopicView,
};
use vstd::prelude::*;

verus! {

/// The bus after the same topic was ensured `times` times in a row.
pub open spec fn ensured_times(bus: BusView, topic: TopicView, times: nat) -> BusView
    decreases times,
{
    if times == 0 {
        bus
    } else {
        ensured(ensured_times(bus, topic, (times - 1) as nat), topic)
    }
}

/// Ensuring a topic is idempotent: however often it is done, the bus is as
/// after doing it once, and the topic exists exactly once.
pub proof fn law_ensure_topic_idempotent(bus: BusView, topic: TopicView, times: nat)
    requires
        well_formed(bus),
        times >= 1,
    ensures
        ensured_times(bus, topic, times) == ensured(bus, topic),
        well_formed(ensured(bus, topic)),
        ensured(bus, topic).topics.contains(topic),
        forall|i: int, j: int|
            0 <= i < ensured(bus, topic).topics.len() && 0 <= j < ensured(bus, topic).topics.len()
                && ensured(bus, topic).topics[i] == topic && ensured(bus, topic).topics[j]
                == topic ==> i == j,
    decreases times,
{
    let once = ensured(bus, topic);
    lemma_with_topic(bus.topics, topic);
    assert(well_formed(once)) by {
        assert forall|i: int| 0 <= i < once.mailboxes.len() implies once.topics.contains(
            (#[trigger] once.mailboxes[i]).topic,
        ) by {
            lemma_with_topic_keeps(bus.topics, topic, bus.mailboxes[i].topic);
        }
    }
    if times > 1 {
        law_ensure_topic_idempotent(bus, topic, (times - 1) as nat);
        assert(ensured(once, topic) == once);
    } else {
        assert(ensured_times(bus, topic, 0) == bus);
    }
}

/// Once ensured, a topic is there, and no topic is there twice.
pub proof fn lemma_with_topic(topics: Seq<TopicView>, topic: TopicView)
    requires
        topics.no_duplicates(),
    ensures
        with_topic(topics, topic).no_duplicates(),
        with_topic(topics, topic).contains(topic),
{
    let after = with_topic(topics, topic);
    if !topics.contains(topic) {
        assert(after[topics.len() as int] == topic);
        assert forall|i: int, j: int|
            0 <= i < after.len() && 0 <= j < after.len() && i != j implies after[i]
            != after[j] by {
            if i < topics.len() {
                assert(topics.contains(topics[i]));
            }
            if j < topics.len() {
                assert(topics.contains(topics[j]));
            }
        }
    }
}

/// Ensuring a topic takes no topic away.
pub proof fn lemma_with_topic_keeps(topics: Seq<TopicView>, topic: TopicView, other: TopicView)
    requires
        topics.contains(other),
    ensures
        with_topic(topics, topic).contains(other),
{
    let at = choose|i: int| 0 <= i < topics.len() && topics[i] == other;
    assert(with_topic(topics, topic)[at] == other);
}

/// Subscribing, publishing, reading and giving up a subscription keep a bus
/// well formed.
pub proof fn lemma_operations_keep_well_formed(
    bus: BusView,
    agent: Seq<char>,
    topic: TopicView,
    message: MessageView,
    subscription: int,
)
    requires
        well_formed(bus),
    ensures
        well_formed(subscribed(bus, agent, topic)),
        well_formed(published(bus, message)),
        well_formed(after_receive(bus, subscription)),
        well_formed(unsubscribed(bus, subscription)),
{
    lemma_with_topic(bus.topics, topic);
    lemma_with_topic(bus.topics, message.topic);
    let joined = subscribed(bus, agent, topic);
    assert forall|i: int| 0 <= i < joined.mailboxes.len() implies {
        &&& (#[trigger] joined.mailboxes[i]).unread.len() <= joined.capacity
        &&& joined.topics.contains(joined.mailboxes[i].topic)
    } by {
        if i < bus.mailboxes.len() {
            lemma_with_topic_keeps(bus.topics, topic, bus.mailboxes[i].topic);
        }
    }
    let sent = published(bus, message);
    assert forall|i: int| 0 <= i < sent.mailboxes.len() implies {
        &&& (#[trigger] sent.mailboxes[i]).unread.len() <= sent.capacity
        &&& sent.topics.contains(sent.mailboxes[i].topic)
    } by {
        lemma_with_topic_keeps(bus.topics, message.topic, bus.mailboxes[i].topic);
    }
    let read = after_receive(bus, subscription);
    assert forall|i: int| 0 <= i < read.mailboxes.len() implies {
        &&& (#[trigger] read.mailboxes[i]).unread.len() <= read.capacity
        &&& read.topics.contains(read.mailboxes[i].topic)
    } by {
        assert(read.mailboxes[i].topic == bus.mailboxes[i].topic);
        assert(read.mailboxes[i].unread.len() <= bus.mailboxes[i].unread.len());
    }
    let left = unsubscribed(bus, subscription);
    assert forall|i: int| 0 <= i < left.mailboxes.len() implies {
        &&& (#[trigger] left.mailboxes[i]).unread.len() <= left.capacity
        &&& left.topics.contains(left.mailboxes[i].topic)
    } by {
        assert(left.mailboxes[i].topic == bus.mailboxes[i].topic);
        assert(left.mailboxes[i].unread.len() <= bus.mailboxes[i].unread.len());
    }
}

/// An agent that subscribes to a topic before a message is published on it
/// reads that message exactly once: its first read yields the message and its
/// second finds the mailbox empty. An agent that subscribes after the message
/// was published does not read it: its first read finds the mailbox empty.
pub proof fn law_delivered_once_to_earlier_subscribers(
    bus: BusView,
    agent: Seq<char>,
    message: MessageView,
)
    requires
        well_formed(bus),
    ensures
        ({
            let handle = bus.mailboxes.len() as int;
            let sent = published(subscribed(bus, agent, message.topic), message);
            &&& received(sent, handle) == Some(DeliveryView::Message(message))
            &&& received(after_receive(sent, handle), handle) == Some(DeliveryView::Empty)
        }),
        ({
            let handle = bus.mailboxes.len() as int;
            let late = subscribed(published(bus, message), agent, message.topic);
            received(late, handle) == Some(DeliveryView::Empty)
        }),
{
    let handle = bus.mailboxes.len() as int;
    let joined = subscribed(bus, agent, message.topic);
    let sent = published(joined, message);
    assert(joined.mailboxes[handle].unread.len() == 0);
    assert(sent.mailboxes[handle].unread =~= seq![message]);
    let read = after_receive(sent, handle);
    assert(read.mailboxes[handle].unread =~= Seq::<MessageView>::empty());
}

/// Publishing reaches the live subscribers of the topic and nobody else:
/// each of their mailboxes holds the message as its newest, after what it
/// held before, less the oldest if it was full; every other mailbox, the
/// capacity and the order of the subscriptions are as they were.
pub proof fn law_publish_is_per_topic(bus: BusView, message: MessageView, subscription: int)
    requires
        well_formed(bus),
        0 <= subscription < bus.mailboxes.len(),
    ensures
        published(bus, message).mailboxes.len() == bus.mailboxes.len(),
        !listens_to(bus.mailboxes[subscription], message.topic) ==> published(
            bus,
            message,
        ).mailboxes[subscription] == bus.mailboxes[subscription],
        listens_to(bus.mailboxes[subscription], message.topic) ==> {
            let before = bus.mailboxes[subscription];
            let after = published(bus, message).mailboxes[subscription];
            &&& after.unread.last() == message
            &&& after.unread.drop_last() == if before.unread.len() < bus.capacity {
                before.unread
            } else {
                before.unread.drop_first()
            }
            &&& after.agent == before.agent
            &&& after.topic == before.topic
            &&& after.live
        },
{
    let before = bus.mailboxes[subscription];
    let after = delivered(before, message, bus.capacity);
    if before.unread.len() < bus.capacity {
        assert(after.unread.drop_last() =~= before.unread);
    } else {
        assert(after.unread.drop_last() =~= before.unread.drop_first());
    }
}

/// Messages are read in the order in which they were published: of two
/// messages published on a topic, a subscriber with room for both reads the
/// first, then the second, then finds the mailbox empty.
pub proof fn law_read_in_publication_order(
    bus: BusView,
    agent: Seq<char>,
    first: MessageView,
    second: MessageView,
)
    requires
        well_formed(bus),
        bus.capacity >= 2,
        first.topic == second.topic,
    ensures
        ({
            let handle = bus.mailboxes.len() as int;
            let sent = published(
                published(subscribed(bus, agent, first.topic), first),
                second,
            );
            let once = after_receive(sent, handle);
            let twice = after_receive(once, handle);
            &&& received(sent, handle) == Some(DeliveryView::Message(first))
            &&& received(once, handle) == Some(DeliveryView::Message(second))
            &&& received(twice, handle) == Some(DeliveryView::Empty)
        }),
{
    let handle = bus.mailboxes.len() as int;
    let joined = subscribed(bus, agent, first.topic);
    let one = published(joined, first);
    let sent = published(one, second);
    assert(joined.mailboxes[handle].unread.len() == 0);
    assert(one.mailboxes[handle].unread =~= seq![first]);
    assert(sent.mailboxes[handle].unread =~= seq![first, second]);
    let once = after_receive(sent, handle);
    assert(once.mailboxes[handle].unread =~= seq![second]);
    let twice = after_receive(once, handle);
    assert(twice.mailboxes[handle].unread =~= Seq::<MessageView>::empty());
}

/// A subscriber that falls behind is told so. When a message arrives at a
/// full mailbox of which nothing was missed yet, the next read reports one
/// missed message, and the read after it yields what was the second oldest.
pub proof fn law_slow_subscriber_is_told(mailbox: MailboxView, message: MessageView, capacity: nat)
    requires
        capacity >= 2,
        mailbox.unread.len() == capacity,
        mailbox.missed == 0,
    ensures
        ({
            let full = delivered(mailbox, message, capacity);
            &&& full.unread.len() == capacity
            &&& next_delivery(full) == DeliveryView::Lagged(1)
            &&& next_delivery(after_read(full)) == DeliveryView::Message(mailbox.unread[1])
        }),
{
}

/// Publishing on a topic that has no live subscriber succeeds and reaches no
/// mailbox: the topic exists afterwards and every mailbox is as it was.
pub proof fn law_publish_without_subscribers(bus: BusView, message: MessageView)
    requires
        well_formed(bus),
        forall|i: int|
            0 <= i < bus.mailboxes.len() ==> !listens_to(
                #[trigger] bus.mailboxes[i],
                message.topic,
            ),
    ensures
        published(bus, message) == ensured(bus, message.topic),
        well_formed(published(bus, message)),
{
    assert(published(bus, message).mailboxes =~= bus.mailboxes);
    lemma_operations_keep_well_formed(bus, Seq::empty(), message.topic, message, 0);
}

/// A subscriber enters the directory last.
pub proof fn law_subscriber_is_listed(bus: BusView, agent: Seq<char>, topic: TopicView)
    ensures
        agents(subscribed(bus, agent, topic)) == agents(bus).push(agent),
{
    let joined = subscribed(bus, agent, topic);
    assert(joined.mailboxes.drop_last() =~= bus.mailboxes);
}

/// Closing one live mailbox takes one name out of the directory: that of its
/// agent, at the place it had among the live ones.
pub proof fn lemma_live_agents_without(mailboxes: Seq<MailboxView>, at: int)
    requires
        0 <= at < mailboxes.len(),
        mailboxes[at].live,
    ensures
        ({
            let place = live_agents(mailboxes.take(at)).len() as int;
            &&& place < live_agents(mailboxes).len()
            &&& live_agents(mailboxes)[place] == mailboxes[at].agent
            &&& live_agents(mailboxes.update(at, closed(mailboxes[at]))) == live_agents(
                mailboxes,
            ).remove(place)
        }),
    decreases mailboxes.len(),
{
    let changed = mailboxes.update(at, closed(mailboxes[at]));
    let front = mailboxes.drop_last();
    let place = live_agents(mailboxes.take(at)).len() as int;
    if at == mailboxes.len() - 1 {
        assert(changed.drop_last() =~= front);
        assert(mailboxes.take(at) =~= front);
        assert(live_agents(changed) =~= live_agents(mailboxes).remove(place));
    } else {
        lemma_live_agents_without(front, at);
        assert(front.take(at) =~= mailboxes.take(at));
        assert(changed.drop_last() =~= front.update(at, closed(front[at])));
        assert(changed.last() == mailboxes.last());
        assert(live_agents(changed) =~= live_agents(mailboxes).remove(place));
    }
}

/// A subscription that was given up takes in nothing more and leaves the
/// directory. What is published afterwards does not reach its mailbox, a
/// read through its handle yields nothing, its agent is named once less, and
/// every other subscription is as it was.
pub proof fn law_given_up_subscription_is_gone(
    bus: BusView,
    subscription: int,
    message: MessageView,
)
    requires
        well_formed(bus),
        is_subscription(bus, subscription),
    ensures
        ({
            let left = unsubscribed(bus, subscription);
            let place = live_agents(bus.mailboxes.take(subscription)).len() as int;
            &&& !is_subscription(left, subscription)
            &&& received(left, subscription) is None
            &&& published(left, message).mailboxes[subscription] == closed(
                bus.mailboxes[subscription],
            )
            &&& received(published(left, message), subscription) is None
            &&& agents(left) == agents(bus).remove(place)
            &&& agents(bus)[place] == bus.mailboxes[subscription].agent
            &&& forall|other: int|
                0 <= other < bus.mailboxes.len() && other != subscription
                    ==> #[trigger] left.mailboxes[other] == bus.mailboxes[other]
        }),
{
    lemma_live_agents_without(bus.mailboxes, subscription);
}

} // verus!
