//! The message bus: topics, subscribers and per-subscriber mailboxes.

pub mod laws;
pub mod model;

use crate::bus::model::{
    after_receive, agents, broadcasted, delivered, ensured, fresh_mailbox, initial,
    is_subscription, live_agents, published, received, stamped, subscribed, unsubscribed,
    well_formed, BusView, DeliveryView, MailboxView, MessageView, TopicView,
};
use crate::deps::{clock_now, fresh_id, since_epoch, whole_millis};
use crate::model::views;
use serde_json::Value;
use std::collections::VecDeque;
use std::time::SystemTimeError;
use vstd::prelude::*;

verus! {

/// Number of unread messages a subscriber may hold before the oldest is dropped.
pub const DEFAULT_BUFFER_SIZE: usize = 32;

/// Identity of a subscriber. Two subscriptions may carry the same identity.
#[derive(Debug, PartialEq, Eq, Hash)]
pub struct AgentId(pub String);

impl View for AgentId {
    type V = Seq<char>;

    open spec fn view(&self) -> Seq<char> {
        self.0@
    }
}

impl Clone for AgentId {
    fn clone(&self) -> (res: Self)
        ensures
            res == *self,
    {
        AgentId(self.0.clone())
    }
}

/// A named channel for one category of event. The well-known topics exist
/// from the start; any other is made with `Custom` and created on first use.
#[derive(Debug, PartialEq, Eq, Hash)]
pub enum Topic {
    System,
    Voice,
    Files,
    Network,
    Shell,
    Calendar,
    UI,
    Error,
    Custom(String),
}

impl View for Topic {
    type V = TopicView;

    open spec fn view(&self) -> TopicView {
        match self {
            Topic::System => TopicView::System,
            Topic::Voice => TopicView::Voice,
            Topic::Files => TopicView::Files,
            Topic::Network => TopicView::Network,
            Topic::Shell => TopicView::Shell,
            Topic::Calendar => TopicView::Calendar,
            Topic::UI => TopicView::UI,
            Topic::Error => TopicView::Error,
            Topic::Custom(name) => TopicView::Custom(name@),
        }
    }
}

impl Clone for Topic {
    fn clone(&self) -> (res: Self)
        ensures
            res == *self,
    {
        match self {
            Topic::System => Topic::System,
            Topic::Voice => Topic::Voice,
            Topic::Files => Topic::Files,
            Topic::Network => Topic::Network,
            Topic::Shell => Topic::Shell,
            Topic::Calendar => Topic::Calendar,
            Topic::UI => Topic::UI,
            Topic::Error => Topic::Error,
            Topic::Custom(name) => Topic::Custom(name.clone()),
        }
    }
}

impl Topic {
    /// Whether two topics are the same topic.
    pub fn same(&self, other: &Topic) -> (same: bool)
        ensures
            same == (self@ == other@),
    {
        match (self, other) {
            (Topic::System, Topic::System) => true,
            (Topic::Voice, Topic::Voice) => true,
            (Topic::Files, Topic::Files) => true,
            (Topic::Network, Topic::Network) => true,
            (Topic::Shell, Topic::Shell) => true,
            (Topic::Calendar, Topic::Calendar) => true,
            (Topic::UI, Topic::UI) => true,
            (Topic::Error, Topic::Error) => true,
            (Topic::Custom(mine), Topic::Custom(theirs)) => *mine == *theirs,
            _ => false,
        }
    }
}

/// A payload published on a topic. It does not change once it is made.
#[derive(Debug, PartialEq, Eq)]
pub struct Message {
    pub id: String,
    pub topic: Topic,
    pub payload: Value,
    pub sender: AgentId,
    pub timestamp: u64,
}

impl View for Message {
    type V = MessageView;

    open spec fn view(&self) -> MessageView {
        MessageView {
            id: self.id@,
            topic: self.topic@,
            payload: self.payload,
            sender: self.sender@,
            timestamp: self.timestamp,
        }
    }
}

impl Clone for Message {
    fn clone(&self) -> (res: Self)
        ensures
            res == *self,
    {
        Message {
            id: self.id.clone(),
            topic: self.topic.clone(),
            payload: self.payload.clone(),
            sender: self.sender.clone(),
            timestamp: self.timestamp,
        }
    }
}

/// What a read of a subscription yields.
#[derive(Debug, PartialEq, Eq)]
pub enum Delivery {
    /// The oldest unread message.
    Message(Message),
    /// This many messages were pushed out of the mailbox before they were
    /// read. Reading goes on with the oldest message that is left.
    Lagged(u64),
    /// Nothing waits.
    Empty,
}

impl View for Delivery {
    type V = DeliveryView;

    open spec fn view(&self) -> DeliveryView {
        match self {
            Delivery::Message(message) => DeliveryView::Message(message@),
            Delivery::Lagged(missed) => DeliveryView::Lagged(*missed),
            Delivery::Empty => DeliveryView::Empty,
        }
    }
}

/// The view of an optional delivery.
pub open spec fn delivery_view(delivery: Option<Delivery>) -> Option<DeliveryView> {
    match delivery {
        Some(delivery) => Some(delivery@),
        None => None,
    }
}

/// The messages of one subscription that wait to be read.
struct Mailbox {
    agent: AgentId,
    topic: Topic,
    live: bool,
    unread: VecDeque<Message>,
    missed: u64,
}

impl View for Mailbox {
    type V = MailboxView;

    closed spec fn view(&self) -> MailboxView {
        MailboxView {
            agent: self.agent@,
            topic: self.topic@,
            live: self.live,
            unread: views(self.unread@),
            missed: self.missed,
        }
    }
}

impl Mailbox {
    /// Takes in a message, pushing out the oldest unread one when full.
    fn deliver(&mut self, message: Message, capacity: usize)
        requires
            capacity > 0,
            old(self)@.unread.len() <= capacity,
        ensures
            final(self)@ == delivered(old(self)@, message@, capacity as nat),
            final(self)@.unread.len() <= capacity,
    {
        if self.unread.len() >= capacity {
            let _ = self.unread.pop_front();
            if self.missed < u64::MAX {
                self.missed = self.missed + 1;
            }
        }
        self.unread.push_back(message);
        assert(self@.unread =~= delivered(old(self)@, message@, capacity as nat).unread);
    }
}

/// The bus: topics, subscriptions and their mailboxes.
pub struct MessageBus {
    topics: Vec<Topic>,
    mailboxes: Vec<Mailbox>,
    capacity: usize,
}

impl View for MessageBus {
    type V = BusView;

    closed spec fn view(&self) -> BusView {
        BusView {
            topics: views(self.topics@),
            mailboxes: views(self.mailboxes@),
            capacity: self.capacity as nat,
        }
    }
}

impl MessageBus {
    /// Every bus that this module hands out is well formed, and its methods
    /// keep it so.
    pub open spec fn wf(&self) -> bool {
        well_formed(self@)
    }

    /// A bus with the well-known topics, no subscriptions, and mailboxes of
    /// the default capacity.
    pub fn new() -> (bus: MessageBus)
        ensures
            bus.wf(),
            bus@ == initial(DEFAULT_BUFFER_SIZE as nat),
    {
        let mut topics: Vec<Topic> = Vec::new();
        topics.push(Topic::System);
        topics.push(Topic::Voice);
        topics.push(Topic::Files);
        topics.push(Topic::Network);
        topics.push(Topic::Shell);
        topics.push(Topic::Calendar);
        topics.push(Topic::UI);
        topics.push(Topic::Error);
        let bus = MessageBus { topics, mailboxes: Vec::new(), capacity: DEFAULT_BUFFER_SIZE };
        assert(bus@.topics =~= initial(DEFAULT_BUFFER_SIZE as nat).topics);
        assert(bus@.mailboxes =~= initial(DEFAULT_BUFFER_SIZE as nat).mailboxes);
        bus
    }

    /// A bus like a new one whose mailboxes hold `capacity` unread messages.
    /// A mailbox needs room for one message: there is no bus of capacity zero.
    pub fn with_capacity(capacity: usize) -> (made: Option<MessageBus>)
        ensures
            made is Some <==> capacity > 0,
            made matches Some(bus) ==> bus.wf() && bus@ == initial(capacity as nat),
    {
        if capacity == 0 {
            return None;
        }
        let mut bus = MessageBus::new();
        bus.capacity = capacity;
        Some(bus)
    }

    /// The number of unread messages that a mailbox may hold.
    pub fn capacity(&self) -> (capacity: usize)
        ensures
            capacity == self@.capacity,
    {
        self.capacity
    }

    /// The number of topics that exist.
    pub fn topic_count(&self) -> (count: usize)
        ensures
            count == self@.topics.len(),
    {
        self.topics.len()
    }

    /// The number of subscriptions that were ever made, live or given up.
    pub fn subscription_count(&self) -> (count: usize)
        ensures
            count == self@.mailboxes.len(),
    {
        self.mailboxes.len()
    }

    /// Whether the topic exists.
    pub fn has_topic(&self, topic: &Topic) -> (found: bool)
        ensures
            found == self@.topics.contains(topic@),
    {
        let mut at: usize = 0;
        while at < self.topics.len()
            invariant
                at <= self.topics.len(),
                forall|k: int| 0 <= k < at ==> self@.topics[k] != topic@,
            decreases self.topics.len() - at,
        {
            if self.topics[at].same(topic) {
                assert(self@.topics[at as int] == topic@);
                return true;
            }
            at += 1;
        }
        false
    }

    /// Creates the topic if it does not exist yet. Calling this again for the
    /// same topic changes nothing: a topic exists once.
    pub fn ensure_topic(&mut self, topic: Topic)
        requires
            old(self).wf(),
        ensures
            final(self).wf(),
            final(self)@ == ensured(old(self)@, topic@),
    {
        if !self.has_topic(&topic) {
            self.topics.push(topic);
            proof {
                let before = old(self)@.topics;
                let after = self@.topics;
                assert(after =~= before.push(topic@));
                assert forall|i: int, j: int|
                    0 <= i < after.len() && 0 <= j < after.len() && i != j implies after[i]
                    != after[j] by {
                    if i < before.len() {
                        assert(before.contains(before[i]));
                    }
                    if j < before.len() {
                        assert(before.contains(before[j]));
                    }
                }
                assert(self@.mailboxes =~= old(self)@.mailboxes);
                assert forall|i: int| 0 <= i < self@.mailboxes.len() implies after.contains(
                    (#[trigger] self@.mailboxes[i]).topic,
                ) by {
                    let wanted = old(self)@.mailboxes[i].topic;
                    assert(before.contains(wanted));
                    let k = choose|k: int| 0 <= k < before.len() && before[k] == wanted;
                    assert(after[k] == wanted);
                }
            }
        }
    }

    /// Subscribes `agent` to `topic`: the topic is created if need be, the
    /// agent is entered in the directory, and a mailbox is opened that takes
    /// in every message published on the topic from now on. Nothing published
    /// before reaches it. The result is the handle to read the mailbox with.
    pub fn subscribe(&mut self, agent: AgentId, topic: Topic) -> (subscription: usize)
        requires
            old(self).wf(),
        ensures
            final(self).wf(),
            final(self)@ == subscribed(old(self)@, agent@, topic@),
            subscription == old(self)@.mailboxes.len(),
    {
        self.ensure_topic(topic.clone());
        let subscription = self.mailboxes.len();
        let mailbox = Mailbox { agent, topic, live: true, unread: VecDeque::new(), missed: 0 };
        assert(mailbox@ == fresh_mailbox(agent@, topic@)) by {
            assert(mailbox@.unread =~= Seq::<MessageView>::empty());
        }
        self.mailboxes.push(mailbox);
        proof {
            assert(self@.mailboxes =~= old(self)@.mailboxes.push(fresh_mailbox(agent@, topic@)));
            assert(self@.topics.contains(topic@)) by {
                let before = old(self)@.topics;
                if before.contains(topic@) {
                } else {
                    assert(before.push(topic@)[before.len() as int] == topic@);
                }
            }
        }
        subscription
    }

    /// The names in the directory: a snapshot with the agent of every live
    /// subscription, in the order in which they subscribed.
    pub fn list_agents(&self) -> (names: Vec<String>)
        ensures
            views(names@) == agents(self@),
    {
        let mut names: Vec<String> = Vec::new();
        let mut at: usize = 0;
        assert(views(names@) =~= live_agents(self@.mailboxes.take(0)));
        while at < self.mailboxes.len()
            invariant
                at <= self.mailboxes.len(),
                views(names@) == live_agents(self@.mailboxes.take(at as int)),
            decreases self.mailboxes.len() - at,
        {
            proof {
                let next = self@.mailboxes.take(at + 1);
                assert(next.drop_last() =~= self@.mailboxes.take(at as int));
                assert(next.last() == self@.mailboxes[at as int]);
            }
            let ghost so_far = views(names@);
            if self.mailboxes[at].live {
                names.push(self.mailboxes[at].agent.0.clone());
                assert(views(names@) =~= so_far.push(self@.mailboxes[at as int].agent));
            }
            at += 1;
        }
        assert(self@.mailboxes.take(at as int) =~= self@.mailboxes);
        names
    }

    /// Gives up a subscription: its mailbox is emptied and takes in nothing
    /// more, its agent leaves the directory, and reads through the handle
    /// yield nothing. The handle is not given out again. The result tells
    /// whether the handle was that of a live subscription; if not, nothing
    /// changes.
    pub fn unsubscribe(&mut self, subscription: usize) -> (was_live: bool)
        requires
            old(self).wf(),
        ensures
            final(self).wf(),
            final(self)@ == unsubscribed(old(self)@, subscription as int),
            was_live == is_subscription(old(self)@, subscription as int),
    {
        if subscription >= self.mailboxes.len() || !self.mailboxes[subscription].live {
            return false;
        }
        let ghost entering = self@;
        self.mailboxes[subscription].live = false;
        self.mailboxes[subscription].unread.clear();
        self.mailboxes[subscription].missed = 0;
        proof {
            let target = unsubscribed(entering, subscription as int);
            assert(self@.mailboxes[subscription as int].unread
                =~= target.mailboxes[subscription as int].unread);
            assert forall|k: int| 0 <= k < self@.mailboxes.len() implies (
            #[trigger] self@.mailboxes[k]) == target.mailboxes[k] by {
                if k != subscription {
                    assert(self@.mailboxes[k] == entering.mailboxes[k]);
                }
            }
            assert(self@.mailboxes =~= target.mailboxes);
            assert(self@.topics =~= entering.topics);
        }
        true
    }

    /// Hands `message` to the subscribers of its topic. The topic is created
    /// if need be. The mailbox of every live subscription to the topic takes
    /// the message in once; a full mailbox gives up its oldest unread message
    /// for it. This never waits and never fails, with or without subscribers.
    pub fn publish(&mut self, message: Message)
        requires
            old(self).wf(),
        ensures
            final(self).wf(),
            final(self)@ == published(old(self)@, message@),
    {
        self.ensure_topic(message.topic.clone());
        let ghost before = self@;
        let mut at: usize = 0;
        while at < self.mailboxes.len()
            invariant
                at <= self.mailboxes.len(),
                self.wf(),
                self@.topics == before.topics,
                self@.capacity == before.capacity,
                self@.mailboxes.len() == before.mailboxes.len(),
                forall|k: int|
                    0 <= k < at ==> #[trigger] self@.mailboxes[k] == published(
                        before,
                        message@,
                    ).mailboxes[k],
                forall|k: int|
                    at <= k < self@.mailboxes.len() ==> #[trigger] self@.mailboxes[k]
                        == before.mailboxes[k],
            decreases self.mailboxes.len() - at,
        {
            let ghost entering = self@;
            assert(entering.mailboxes[at as int] == before.mailboxes[at as int]);
            if self.mailboxes[at].live && self.mailboxes[at].topic.same(&message.topic) {
                let capacity = self.capacity;
                self.mailboxes[at].deliver(message.clone(), capacity);
            }
            proof {
                assert forall|k: int| 0 <= k < self@.mailboxes.len() && k != at implies (
                #[trigger] self@.mailboxes[k]) == entering.mailboxes[k] by {}
                assert forall|i: int| 0 <= i < self@.mailboxes.len() implies {
                    &&& (#[trigger] self@.mailboxes[i]).unread.len() <= self@.capacity
                    &&& self@.topics.contains(self@.mailboxes[i].topic)
                } by {
                    if i != at {
                        assert(self@.mailboxes[i] == entering.mailboxes[i]);
                    }
                }
            }
            at += 1;
        }
        assert(self@.mailboxes =~= published(old(self)@, message@).mailboxes);
    }

    /// Hands `message` to every live subscriber, whatever topic it subscribed
    /// to. No topic is created.
    pub fn deliver_to_all(&mut self, message: Message)
        requires
            old(self).wf(),
        ensures
            final(self).wf(),
            final(self)@ == broadcasted(old(self)@, message@),
    {
        let ghost before = self@;
        let mut at: usize = 0;
        while at < self.mailboxes.len()
            invariant
                at <= self.mailboxes.len(),
                self.wf(),
                self@.topics == before.topics,
                self@.capacity == before.capacity,
                self@.mailboxes.len() == before.mailboxes.len(),
                forall|k: int|
                    0 <= k < at ==> #[trigger] self@.mailboxes[k] == broadcasted(
                        before,
                        message@,
                    ).mailboxes[k],
                forall|k: int|
                    at <= k < self@.mailboxes.len() ==> #[trigger] self@.mailboxes[k]
                        == before.mailboxes[k],
            decreases self.mailboxes.len() - at,
        {
            let ghost entering = self@;
            assert(entering.mailboxes[at as int] == before.mailboxes[at as int]);
            if self.mailboxes[at].live {
                let capacity = self.capacity;
                self.mailboxes[at].deliver(message.clone(), capacity);
            }
            proof {
                assert forall|k: int| 0 <= k < self@.mailboxes.len() && k != at implies (
                #[trigger] self@.mailboxes[k]) == entering.mailboxes[k] by {}
                assert forall|i: int| 0 <= i < self@.mailboxes.len() implies {
                    &&& (#[trigger] self@.mailboxes[i]).unread.len() <= self@.capacity
                    &&& self@.topics.contains(self@.mailboxes[i].topic)
                } by {
                    if i != at {
                        assert(self@.mailboxes[i] == entering.mailboxes[i]);
                    }
                }
            }
            at += 1;
        }
        assert(self@.mailboxes =~= broadcasted(old(self)@, message@).mailboxes);
    }

    /// Reads the mailbox of `subscription`. A count of missed messages is
    /// reported first and cleared; otherwise the oldest unread message is
    /// taken out; an empty mailbox yields `Empty`. A handle that this bus
    /// never gave out, or whose subscription was given up, yields nothing
    /// and changes nothing.
    pub fn recv(&mut self, subscription: usize) -> (delivery: Option<Delivery>)
        requires
            old(self).wf(),
        ensures
            final(self).wf(),
            final(self)@ == after_receive(old(self)@, subscription as int),
            delivery_view(delivery) == received(old(self)@, subscription as int),
    {
        if subscription >= self.mailboxes.len() || !self.mailboxes[subscription].live {
            return None;
        }
        let ghost entering = self@;
        let delivery = if self.mailboxes[subscription].missed > 0 {
            let missed = self.mailboxes[subscription].missed;
            self.mailboxes[subscription].missed = 0;
            Delivery::Lagged(missed)
        } else {
            match self.mailboxes[subscription].unread.pop_front() {
                Some(message) => Delivery::Message(message),
                None => Delivery::Empty,
            }
        };
        proof {
            let target = after_receive(entering, subscription as int);
            assert(self@.mailboxes[subscription as int].unread =~= target.mailboxes[subscription as int].unread);
            assert forall|k: int| 0 <= k < self@.mailboxes.len() implies (
            #[trigger] self@.mailboxes[k]) == target.mailboxes[k] by {
                if k != subscription {
                    assert(self@.mailboxes[k] == entering.mailboxes[k]);
                }
            }
            assert(self@.mailboxes =~= target.mailboxes);
            assert(self@.topics =~= entering.topics);
        }
        Some(delivery)
    }
}

/// Which failure kept the bus from sending.
#[derive(Clone, Copy, Debug, PartialEq, Eq, Structural)]
pub enum BusError {
    /// The system clock stands before the epoch, so there is no timestamp.
    ClockBeforeEpoch,
}

impl BusError {
    /// The failure in words.
    pub fn message(&self) -> (text: String)
        ensures
            text@ == "system clock is set before the Unix epoch"@,
    {
        match self {
            BusError::ClockBeforeEpoch => "system clock is set before the Unix epoch".to_owned(),
        }
    }
}

/// The timestamp for a count of milliseconds since the epoch: the count
/// itself while it fits in 64 bits, which it does for some hundred million
/// years, and its low 64 bits after that.
pub open spec fn timestamp_of(millis: u128) -> u64 {
    (millis % 0x1_0000_0000_0000_0000) as u64
}

/// Makes the timestamp for a count of milliseconds since the epoch.
pub fn timestamp_from_millis(millis: u128) -> (timestamp: u64)
    ensures
        timestamp == timestamp_of(millis),
{
    (millis % 0x1_0000_0000_0000_0000) as u64
}

/// Makes the message that the bus itself sends: with the given id, payload
/// and timestamp, on the given topic, from the system identity.
pub fn stamp(topic: Topic, payload: Value, id: String, timestamp: u64) -> (message: Message)
    ensures
        message@ == stamped(topic@, payload, id@, timestamp),
{
    Message { id, topic, payload, sender: AgentId("system".to_owned()), timestamp }
}

/// The timestamp for what the clock gave as the time since the epoch: that
/// of the milliseconds counted, or the failure where the clock stands before
/// the epoch.
pub open spec fn timestamp_of_reading(reading: Result<u128, SystemTimeError>) -> Result<
    u64,
    BusError,
> {
    match reading {
        Ok(millis) => Ok(timestamp_of(millis)),
        Err(_) => Err(BusError::ClockBeforeEpoch),
    }
}

/// Makes the timestamp for what the clock gave as the time since the epoch,
/// in milliseconds.
pub fn timestamp_from_reading(reading: Result<u128, SystemTimeError>) -> (now: Result<
    u64,
    BusError,
>)
    ensures
        now == timestamp_of_reading(reading),
{
    match reading {
        Ok(millis) => Ok(timestamp_from_millis(millis)),
        Err(_) => Err(BusError::ClockBeforeEpoch),
    }
}

/// Reads the clock: milliseconds since the epoch as a timestamp, or the
/// failure where the clock stands before the epoch. Which of the two comes
/// out, and which timestamp, is the clock's to say; `timestamp_from_reading`
/// says what is made of each reading.
pub fn current_timestamp() -> (now: Result<u64, BusError>)
    ensures
        now matches Err(error) ==> error == BusError::ClockBeforeEpoch,
{
    let reading = clock_now();
    let since = match since_epoch(&reading) {
        Ok(elapsed) => Ok(whole_millis(&elapsed)),
        Err(error) => Err(error),
    };
    timestamp_from_reading(since)
}

impl MessageBus {
    /// Sends `payload` on `topic` with the id and the reading of the clock
    /// that it is given. With a timestamp the message is stamped and
    /// published as `publish` does, and the send succeeds, whether or not
    /// anyone is subscribed. Without one the failure is handed on and the
    /// bus is as it was.
    pub fn send_stamped(
        &mut self,
        topic: Topic,
        payload: Value,
        id: String,
        now: Result<u64, BusError>,
    ) -> (sent: Result<(), BusError>)
        requires
            old(self).wf(),
        ensures
            final(self).wf(),
            match now {
                Ok(timestamp) => sent is Ok && final(self)@ == published(
                    old(self)@,
                    stamped(topic@, payload, id@, timestamp),
                ),
                Err(error) => sent == Err::<(), BusError>(error) && final(self)@ == old(self)@,
            },
    {
        match now {
            Ok(timestamp) => {
                self.publish(stamp(topic, payload, id, timestamp));
                Ok(())
            },
            Err(error) => Err(error),
        }
    }

    /// Sends `payload` to the subscribers of every topic with the id and the
    /// reading of the clock that it is given. With a timestamp one message,
    /// marked with `topic`, arrives at every live mailbox as `deliver_to_all`
    /// does, and the send succeeds. Without one the failure is handed on and
    /// the bus is as it was.
    pub fn broadcast_stamped(
        &mut self,
        topic: Topic,
        payload: Value,
        id: String,
        now: Result<u64, BusError>,
    ) -> (sent: Result<(), BusError>)
        requires
            old(self).wf(),
        ensures
            final(self).wf(),
            match now {
                Ok(timestamp) => sent is Ok && final(self)@ == broadcasted(
                    old(self)@,
                    stamped(topic@, payload, id@, timestamp),
                ),
                Err(error) => sent == Err::<(), BusError>(error) && final(self)@ == old(self)@,
            },
    {
        match now {
            Ok(timestamp) => {
                self.deliver_to_all(stamp(topic, payload, id, timestamp));
                Ok(())
            },
            Err(error) => Err(error),
        }
    }

    /// Sends `payload` on `topic`: a message with a fresh id, the system
    /// identity as sender and the current time is published as `publish`
    /// does. The only failure is a clock that stands before the epoch; the bus
    /// is then as it was. Whether anyone is subscribed makes no difference.
    /// The id and the time are drawn here; `send_stamped` says what is done
    /// with each.
    pub fn send(&mut self, topic: Topic, payload: Value) -> (sent: Result<(), BusError>)
        requires
            old(self).wf(),
        ensures
            final(self).wf(),
            match sent {
                Ok(()) => exists|id: Seq<char>, timestamp: u64|
                    id.len() == 36 && final(self)@ == published(
                        old(self)@,
                        #[trigger] stamped(topic@, payload, id, timestamp),
                    ),
                Err(error) => error == BusError::ClockBeforeEpoch && final(self)@ == old(self)@,
            },
    {
        let id = fresh_id();
        let now = current_timestamp();
        let ghost drawn = id@;
        let sent = self.send_stamped(topic, payload, id, now);
        proof {
            if let Ok(timestamp) = now {
                assert(self@ == published(old(self)@, stamped(topic@, payload, drawn, timestamp)));
            }
        }
        sent
    }

    /// Sends `payload` to the subscribers of every topic: one message, marked
    /// with `topic`, with a fresh id, the system identity as sender and the
    /// current time, arrives at every mailbox. The only failure is a clock
    /// that stands before the epoch; the bus is then as it was. The id and
    /// the time are drawn here; `broadcast_stamped` says what is done with
    /// each.
    pub fn broadcast(&mut self, topic: Topic, payload: Value) -> (sent: Result<(), BusError>)
        requires
            old(self).wf(),
        ensures
            final(self).wf(),
            match sent {
                Ok(()) => exists|id: Seq<char>, timestamp: u64|
                    id.len() == 36 && final(self)@ == broadcasted(
                        old(self)@,
                        #[trigger] stamped(topic@, payload, id, timestamp),
                    ),
                Err(error) => error == BusError::ClockBeforeEpoch && final(self)@ == old(self)@,
            },
    {
        let id = fresh_id();
        let now = current_timestamp();
        let ghost drawn = id@;
        let sent = self.broadcast_stamped(topic, payload, id, now);
        proof {
            if let Ok(timestamp) = now {
                assert(self@ == broadcasted(
                    old(self)@,
                    stamped(topic@, payload, drawn, timestamp),
                ));
            }
        }
        sent
    }

    /// Subscribes the voice agent, `voice-core`, to the voice topic and hands
    /// out its subscription.
    pub fn start_voice_mode(&mut self) -> (subscription: usize)
        requires
            old(self).wf(),
        ensures
            final(self).wf(),
            final(self)@ == subscribed(old(self)@, "voice-core"@, TopicView::Voice),
            subscription == old(self)@.mailboxes.len(),
    {
        self.subscribe(AgentId("voice-core".to_owned()), Topic::Voice)
    }
}

} // verus!
