//! The bus as a mathematical value, and what each operation makes of it.
//!
//! Every subscription owns a mailbox: the messages that were published on its
//! topic since it subscribed and that it has not read yet, oldest first. A
//! mailbox holds at most `capacity` messages. A message that arrives at a full
//! mailbox pushes the oldest unread one out, and the mailbox counts it as
//! missed, so publishing never waits for a slow subscriber. The next read
//! reports how many were missed before reading goes on with what is left.
//! A subscription that was given up keeps its handle, so that no other
//! subscription ever answers to it, and takes in nothing more.

use serde_json::Value;
use vstd::prelude::*;

verus! {

/// A topic, by value.
pub enum TopicView {
    System,
    Voice,
    Files,
    Network,
    Shell,
    Calendar,
    UI,
    Error,
    Custom(Seq<char>),
}

/// A message, by value.
pub struct MessageView {
    pub id: Seq<char>,
    pub topic: TopicView,
    pub payload: Value,
    pub sender: Seq<char>,
    pub timestamp: u64,
}

/// One subscription: who subscribed, to what, whether it is still live, what
/// waits to be read, and how many messages were pushed out unread since the
/// last report.
pub struct MailboxView {
    pub agent: Seq<char>,
    pub topic: TopicView,
    pub live: bool,
    pub unread: Seq<MessageView>,
    pub missed: u64,
}

/// The bus: the topics that exist, in the order in which they were created,
/// the subscriptions that were ever made, in the order in which they were
/// made, and the number of unread messages that a mailbox may hold.
pub struct BusView {
    pub topics: Seq<TopicView>,
    pub mailboxes: Seq<MailboxView>,
    pub capacity: nat,
}

/// What a read of a mailbox yields.
pub enum DeliveryView {
    /// The oldest unread message.
    Message(MessageView),
    /// This many messages were pushed out of the mailbox before they were read.
    Lagged(u64),
    /// Nothing waits.
    Empty,
}

/// The topics that a new bus starts with.
pub open spec fn well_known_topics() -> Seq<TopicView> {
    seq![
        TopicView::System,
        TopicView::Voice,
        TopicView::Files,
        TopicView::Network,
        TopicView::Shell,
        TopicView::Calendar,
        TopicView::UI,
        TopicView::Error,
    ]
}

/// A bus without subscriptions that holds the well-known topics.
pub open spec fn initial(capacity: nat) -> BusView {
    BusView { topics: well_known_topics(), mailboxes: Seq::empty(), capacity }
}

/// A bus is well formed when mailboxes have room for at least one message, no
/// topic exists twice, and every mailbox is within the capacity and subscribed
/// to a topic that exists.
pub open spec fn well_formed(bus: BusView) -> bool {
    &&& bus.capacity > 0
    &&& bus.topics.no_duplicates()
    &&& forall|i: int|
        0 <= i < bus.mailboxes.len() ==> {
            &&& (#[trigger] bus.mailboxes[i]).unread.len() <= bus.capacity
            &&& bus.topics.contains(bus.mailboxes[i].topic)
        }
}

/// The topics once `topic` exists: created if it was absent, untouched otherwise.
pub open spec fn with_topic(topics: Seq<TopicView>, topic: TopicView) -> Seq<TopicView> {
    if topics.contains(topic) {
        topics
    } else {
        topics.push(topic)
    }
}

/// The bus once `topic` exists.
pub open spec fn ensured(bus: BusView, topic: TopicView) -> BusView {
    BusView { topics: with_topic(bus.topics, topic), ..bus }
}

/// A mailbox that nothing was published to yet.
pub open spec fn fresh_mailbox(agent: Seq<char>, topic: TopicView) -> MailboxView {
    MailboxView { agent, topic, live: true, unread: Seq::empty(), missed: 0 }
}

/// The bus after `agent` subscribed to `topic`: the topic exists and a fresh
/// mailbox comes last. Its position is the handle of the subscription.
pub open spec fn subscribed(bus: BusView, agent: Seq<char>, topic: TopicView) -> BusView {
    BusView {
        topics: with_topic(bus.topics, topic),
        mailboxes: bus.mailboxes.push(fresh_mailbox(agent, topic)),
        capacity: bus.capacity,
    }
}

/// The count of missed messages after one more was pushed out. It stops at
/// the largest value a `u64` holds.
pub open spec fn one_more(missed: u64) -> u64 {
    if missed < u64::MAX {
        (missed + 1) as u64
    } else {
        missed
    }
}

/// A mailbox after `message` arrived.
pub open spec fn delivered(mailbox: MailboxView, message: MessageView, capacity: nat)
    -> MailboxView {
    if mailbox.unread.len() < capacity {
        MailboxView { unread: mailbox.unread.push(message), ..mailbox }
    } else {
        MailboxView {
            unread: mailbox.unread.drop_first().push(message),
            missed: one_more(mailbox.missed),
            ..mailbox
        }
    }
}

/// Whether a message on `topic` is for this mailbox: the subscription is
/// live and it is to that topic.
pub open spec fn listens_to(mailbox: MailboxView, topic: TopicView) -> bool {
    mailbox.live && mailbox.topic == topic
}

/// The bus after `message` was published on its topic: the topic exists, the
/// message arrived once at the mailbox of every live subscription to that
/// topic, and every other mailbox is as it was.
pub open spec fn published(bus: BusView, message: MessageView) -> BusView {
    BusView {
        topics: with_topic(bus.topics, message.topic),
        mailboxes: Seq::new(
            bus.mailboxes.len(),
            |i: int|
                if listens_to(bus.mailboxes[i], message.topic) {
                    delivered(bus.mailboxes[i], message, bus.capacity)
                } else {
                    bus.mailboxes[i]
                },
        ),
        capacity: bus.capacity,
    }
}

/// The bus after `message` was handed to the subscribers of every topic: it
/// arrived once at the mailbox of every live subscription.
pub open spec fn broadcasted(bus: BusView, message: MessageView) -> BusView {
    BusView {
        topics: bus.topics,
        mailboxes: Seq::new(
            bus.mailboxes.len(),
            |i: int|
                if bus.mailboxes[i].live {
                    delivered(bus.mailboxes[i], message, bus.capacity)
                } else {
                    bus.mailboxes[i]
                },
        ),
        capacity: bus.capacity,
    }
}

/// What a read of a mailbox yields.
pub open spec fn next_delivery(mailbox: MailboxView) -> DeliveryView {
    if mailbox.missed > 0 {
        DeliveryView::Lagged(mailbox.missed)
    } else if mailbox.unread.len() > 0 {
        DeliveryView::Message(mailbox.unread.first())
    } else {
        DeliveryView::Empty
    }
}

/// A mailbox after it was read: a report of missed messages clears the count,
/// a message that was read is gone, and an empty mailbox stays as it is.
pub open spec fn after_read(mailbox: MailboxView) -> MailboxView {
    if mailbox.missed > 0 {
        MailboxView { missed: 0, ..mailbox }
    } else if mailbox.unread.len() > 0 {
        MailboxView { unread: mailbox.unread.drop_first(), ..mailbox }
    } else {
        mailbox
    }
}

/// Whether `subscription` is the handle of a live subscription of the bus.
pub open spec fn is_subscription(bus: BusView, subscription: int) -> bool {
    0 <= subscription < bus.mailboxes.len() && bus.mailboxes[subscription].live
}

/// What a read through `subscription` yields; nothing for a handle that the
/// bus never gave out or whose subscription was given up.
pub open spec fn received(bus: BusView, subscription: int) -> Option<DeliveryView> {
    if is_subscription(bus, subscription) {
        Some(next_delivery(bus.mailboxes[subscription]))
    } else {
        None
    }
}

/// The bus after a read through `subscription`: only that mailbox changes.
pub open spec fn after_receive(bus: BusView, subscription: int) -> BusView {
    if is_subscription(bus, subscription) {
        BusView {
            mailboxes: bus.mailboxes.update(
                subscription,
                after_read(bus.mailboxes[subscription]),
            ),
            ..bus
        }
    } else {
        bus
    }
}

/// A mailbox once its subscription was given up: nothing waits in it.
pub open spec fn closed(mailbox: MailboxView) -> MailboxView {
    MailboxView { live: false, unread: Seq::empty(), missed: 0, ..mailbox }
}

/// The bus after `subscription` was given up: its mailbox is closed and
/// emptied. Nothing changes for a handle that is not of a live subscription.
pub open spec fn unsubscribed(bus: BusView, subscription: int) -> BusView {
    if is_subscription(bus, subscription) {
        BusView {
            mailboxes: bus.mailboxes.update(subscription, closed(bus.mailboxes[subscription])),
            ..bus
        }
    } else {
        bus
    }
}

/// The agents of the live subscriptions among `mailboxes`, in order.
pub open spec fn live_agents(mailboxes: Seq<MailboxView>) -> Seq<Seq<char>>
    decreases mailboxes.len(),
{
    if mailboxes.len() == 0 {
        Seq::empty()
    } else if mailboxes.last().live {
        live_agents(mailboxes.drop_last()).push(mailboxes.last().agent)
    } else {
        live_agents(mailboxes.drop_last())
    }
}

/// The names in the directory: the agent of every live subscription, in the
/// order in which they subscribed. An agent with several subscriptions is
/// named once for each.
pub open spec fn agents(bus: BusView) -> Seq<Seq<char>> {
    live_agents(bus.mailboxes)
}

/// The message that the bus itself sends: `sender` is the system identity.
pub open spec fn stamped(topic: TopicView, payload: Value, id: Seq<char>, timestamp: u64)
    -> MessageView {
    MessageView { id, topic, payload, sender: "system"@, timestamp }
}

} // verus!
