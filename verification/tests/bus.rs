use munin_core::bus::{
    current_timestamp, stamp, timestamp_from_millis, timestamp_from_reading, AgentId, BusError,
    Delivery, Message, MessageBus, Topic, DEFAULT_BUFFER_SIZE,
};
use serde_json::Value;

fn text(s: &str) -> Value {
    Value::String(s.to_string())
}

fn agent(name: &str) -> AgentId {
    AgentId(name.to_string())
}

fn message_on(topic: Topic, id: &str, payload: &str) -> Message {
    stamp(topic, text(payload), id.to_string(), 7)
}

fn read_message(bus: &mut MessageBus, subscription: usize) -> Message {
    match bus.recv(subscription) {
        Some(Delivery::Message(message)) => message,
        other => panic!("expected a message, got {:?}", other),
    }
}

#[test]
fn test_bus_creation() {
    let bus = MessageBus::new();
    let agents = bus.list_agents();
    assert!(agents.is_empty());
}

#[test]
fn test_message_send() {
    let mut bus = MessageBus::new();
    let rx = bus.subscribe(AgentId("test-agent".to_string()), Topic::System);

    bus.send(Topic::System, Value::from("test message")).unwrap();

    let received = bus.recv(rx);
    assert!(matches!(received, Some(Delivery::Message(_))));
}

#[test]
fn new_bus_has_the_well_known_topics() {
    let bus = MessageBus::new();
    assert_eq!(bus.topic_count(), 8);
    assert_eq!(bus.subscription_count(), 0);
    assert_eq!(bus.capacity(), DEFAULT_BUFFER_SIZE);
    assert_eq!(DEFAULT_BUFFER_SIZE, 32);
    for topic in [
        Topic::System,
        Topic::Voice,
        Topic::Files,
        Topic::Network,
        Topic::Shell,
        Topic::Calendar,
        Topic::UI,
        Topic::Error,
    ] {
        assert!(bus.has_topic(&topic));
    }
    assert!(!bus.has_topic(&Topic::Custom("weather".to_string())));
}

#[test]
fn there_is_no_bus_of_capacity_zero() {
    assert!(MessageBus::with_capacity(0).is_none());
    let bus = MessageBus::with_capacity(3).unwrap();
    assert_eq!(bus.capacity(), 3);
    assert_eq!(bus.topic_count(), 8);
}

#[test]
fn ensure_topic_creates_a_topic_once() {
    let mut bus = MessageBus::new();
    let weather = Topic::Custom("weather".to_string());
    for _ in 0..5 {
        bus.ensure_topic(weather.clone());
    }
    assert_eq!(bus.topic_count(), 9);
    assert!(bus.has_topic(&weather));
    bus.ensure_topic(Topic::System);
    assert_eq!(bus.topic_count(), 9);
}

#[test]
fn custom_topics_are_told_apart_by_name() {
    let weather = Topic::Custom("weather".to_string());
    assert!(weather.same(&Topic::Custom("weather".to_string())));
    assert!(!weather.same(&Topic::Custom("Weather".to_string())));
    assert!(!Topic::Custom("System".to_string()).same(&Topic::System));
    assert!(Topic::UI.same(&Topic::UI));
    assert!(!Topic::UI.same(&Topic::Error));
}

#[test]
fn earlier_subscriber_reads_the_message_exactly_once() {
    let mut bus = MessageBus::new();
    let early = bus.subscribe(agent("early"), Topic::Files);
    bus.publish(message_on(Topic::Files, "m-1", "saved"));
    let late = bus.subscribe(agent("late"), Topic::Files);

    let got = read_message(&mut bus, early);
    assert_eq!(got.payload, text("saved"));
    assert_eq!(got.id, "m-1");
    assert_eq!(bus.recv(early), Some(Delivery::Empty));
    assert_eq!(bus.recv(late), Some(Delivery::Empty));
}

#[test]
fn publish_reaches_every_subscriber_of_the_topic_and_no_other() {
    let mut bus = MessageBus::new();
    let a = bus.subscribe(agent("a"), Topic::Network);
    let b = bus.subscribe(agent("b"), Topic::Network);
    let other = bus.subscribe(agent("c"), Topic::Shell);
    bus.publish(message_on(Topic::Network, "m-1", "up"));

    assert_eq!(read_message(&mut bus, a).payload, text("up"));
    assert_eq!(read_message(&mut bus, b).payload, text("up"));
    assert_eq!(bus.recv(other), Some(Delivery::Empty));
    assert_eq!(bus.recv(a), Some(Delivery::Empty));
    assert_eq!(bus.recv(b), Some(Delivery::Empty));
}

#[test]
fn messages_are_read_in_the_order_of_publication() {
    let mut bus = MessageBus::new();
    let sub = bus.subscribe(agent("reader"), Topic::Calendar);
    bus.publish(message_on(Topic::Calendar, "m-1", "first"));
    bus.publish(message_on(Topic::Calendar, "m-2", "second"));
    bus.publish(message_on(Topic::Calendar, "m-3", "third"));
    assert_eq!(read_message(&mut bus, sub).id, "m-1");
    assert_eq!(read_message(&mut bus, sub).id, "m-2");
    assert_eq!(read_message(&mut bus, sub).id, "m-3");
    assert_eq!(bus.recv(sub), Some(Delivery::Empty));
}

#[test]
fn publish_without_subscribers_succeeds() {
    let mut bus = MessageBus::new();
    let bystander = bus.subscribe(agent("bystander"), Topic::Voice);
    bus.publish(message_on(Topic::Error, "m-1", "nobody listens"));
    assert!(bus.send(Topic::Error, text("still nobody")).is_ok());
    assert_eq!(bus.recv(bystander), Some(Delivery::Empty));
    assert_eq!(bus.subscription_count(), 1);
}

#[test]
fn publish_creates_a_custom_topic() {
    let mut bus = MessageBus::new();
    let weather = Topic::Custom("weather".to_string());
    bus.publish(message_on(weather.clone(), "m-1", "rain"));
    assert!(bus.has_topic(&weather));
    assert_eq!(bus.topic_count(), 9);
    let sub = bus.subscribe(agent("late"), weather.clone());
    assert_eq!(bus.recv(sub), Some(Delivery::Empty));
    bus.publish(message_on(weather, "m-2", "sun"));
    assert_eq!(read_message(&mut bus, sub).payload, text("sun"));
    assert_eq!(bus.topic_count(), 9);
}

#[test]
fn slow_subscriber_loses_the_oldest_and_is_told() {
    let mut bus = MessageBus::with_capacity(2).unwrap();
    let slow = bus.subscribe(agent("slow"), Topic::System);
    let quick = bus.subscribe(agent("quick"), Topic::System);
    bus.publish(message_on(Topic::System, "m-1", "one"));
    assert_eq!(read_message(&mut bus, quick).id, "m-1");
    bus.publish(message_on(Topic::System, "m-2", "two"));
    assert_eq!(read_message(&mut bus, quick).id, "m-2");
    bus.publish(message_on(Topic::System, "m-3", "three"));
    bus.publish(message_on(Topic::System, "m-4", "four"));

    assert_eq!(bus.recv(slow), Some(Delivery::Lagged(2)));
    assert_eq!(read_message(&mut bus, slow).id, "m-3");
    assert_eq!(read_message(&mut bus, slow).id, "m-4");
    assert_eq!(bus.recv(slow), Some(Delivery::Empty));

    assert_eq!(read_message(&mut bus, quick).id, "m-3");
    assert_eq!(read_message(&mut bus, quick).id, "m-4");
    assert_eq!(bus.recv(quick), Some(Delivery::Empty));
}

#[test]
fn a_full_mailbox_of_capacity_one_keeps_the_newest() {
    let mut bus = MessageBus::with_capacity(1).unwrap();
    let sub = bus.subscribe(agent("reader"), Topic::UI);
    bus.publish(message_on(Topic::UI, "m-1", "one"));
    bus.publish(message_on(Topic::UI, "m-2", "two"));
    bus.publish(message_on(Topic::UI, "m-3", "three"));
    assert_eq!(bus.recv(sub), Some(Delivery::Lagged(2)));
    assert_eq!(read_message(&mut bus, sub).id, "m-3");
    assert_eq!(bus.recv(sub), Some(Delivery::Empty));
}

#[test]
fn recv_on_an_unknown_handle_yields_nothing() {
    let mut bus = MessageBus::new();
    assert_eq!(bus.recv(0), None);
    let sub = bus.subscribe(agent("a"), Topic::System);
    assert_eq!(bus.recv(sub + 1), None);
    assert_eq!(bus.recv(sub), Some(Delivery::Empty));
}

#[test]
fn subscribe_hands_out_handles_in_order() {
    let mut bus = MessageBus::new();
    assert_eq!(bus.subscribe(agent("a"), Topic::System), 0);
    assert_eq!(bus.subscribe(agent("b"), Topic::Voice), 1);
    assert_eq!(bus.subscribe(agent("a"), Topic::Voice), 2);
    assert_eq!(bus.subscription_count(), 3);
    assert_eq!(bus.topic_count(), 8);
}

#[test]
fn directory_names_an_agent_once_for_each_subscription() {
    let mut bus = MessageBus::new();
    bus.subscribe(agent("ui"), Topic::System);
    bus.subscribe(agent("voice"), Topic::Voice);
    bus.subscribe(agent("ui"), Topic::Error);
    assert_eq!(
        bus.list_agents(),
        vec!["ui".to_string(), "voice".to_string(), "ui".to_string()]
    );
}

#[test]
fn send_stamps_the_message() {
    let mut bus = MessageBus::new();
    let sub = bus.subscribe(agent("reader"), Topic::Shell);
    bus.send(Topic::Shell, text("ls")).unwrap();
    bus.send(Topic::Shell, text("pwd")).unwrap();
    let first = read_message(&mut bus, sub);
    let second = read_message(&mut bus, sub);
    assert_eq!(first.payload, text("ls"));
    assert_eq!(second.payload, text("pwd"));
    assert_eq!(first.topic, Topic::Shell);
    assert_eq!(first.sender, agent("system"));
    assert_eq!(first.id.chars().count(), 36);
    assert_eq!(second.id.chars().count(), 36);
    assert_ne!(first.id, second.id);
    assert_eq!(first.id.chars().filter(|c| *c == '-').count(), 4);
    assert!(first.timestamp > 1_600_000_000_000);
    assert!(second.timestamp >= first.timestamp);
}

#[test]
fn broadcast_reaches_the_subscribers_of_every_topic() {
    let mut bus = MessageBus::new();
    let a = bus.subscribe(agent("a"), Topic::Files);
    let b = bus.subscribe(agent("b"), Topic::Calendar);
    bus.broadcast(Topic::System, text("shutdown")).unwrap();
    let got_a = read_message(&mut bus, a);
    let got_b = read_message(&mut bus, b);
    assert_eq!(got_a.payload, text("shutdown"));
    assert_eq!(got_a.topic, Topic::System);
    assert_eq!(got_a, got_b);
    assert_eq!(bus.recv(a), Some(Delivery::Empty));
}

#[test]
fn deliver_to_all_creates_no_topic() {
    let mut bus = MessageBus::new();
    let sub = bus.subscribe(agent("a"), Topic::Files);
    let weather = Topic::Custom("weather".to_string());
    bus.deliver_to_all(message_on(weather.clone(), "m-1", "rain"));
    assert!(!bus.has_topic(&weather));
    assert_eq!(read_message(&mut bus, sub).id, "m-1");
}

#[test]
fn voice_mode_subscribes_the_voice_agent() {
    let mut bus = MessageBus::new();
    let sub = bus.start_voice_mode();
    assert_eq!(sub, 0);
    assert_eq!(bus.list_agents(), vec!["voice-core".to_string()]);
    bus.publish(message_on(Topic::Voice, "m-1", "hello"));
    assert_eq!(read_message(&mut bus, sub).payload, text("hello"));
}

#[test]
fn stamp_fills_in_the_system_identity() {
    let message = stamp(Topic::UI, Value::Bool(true), "id-9".to_string(), 42);
    assert_eq!(
        message,
        Message {
            id: "id-9".to_string(),
            topic: Topic::UI,
            payload: Value::Bool(true),
            sender: AgentId("system".to_string()),
            timestamp: 42,
        }
    );
}

#[test]
fn timestamp_keeps_the_low_64_bits() {
    assert_eq!(timestamp_from_millis(0), 0);
    assert_eq!(timestamp_from_millis(1_700_000_000_123), 1_700_000_000_123);
    assert_eq!(timestamp_from_millis(u64::MAX as u128), u64::MAX);
    assert_eq!(timestamp_from_millis(u64::MAX as u128 + 1), 0);
    assert_eq!(timestamp_from_millis((5u128 << 64) + 17), 17);
}

#[test]
fn clock_reads_a_time_after_2020() {
    let now = current_timestamp().unwrap();
    assert!(now > 1_600_000_000_000);
}

#[test]
fn bus_error_in_words() {
    assert_eq!(
        BusError::ClockBeforeEpoch.message(),
        "system clock is set before the Unix epoch"
    );
}

#[test]
fn clones_are_equal() {
    let message = message_on(Topic::Custom("weather".to_string()), "m-1", "rain");
    assert_eq!(message.clone(), message);
    assert_eq!(agent("a").clone(), agent("a"));
}

#[test]
fn a_subscription_that_was_given_up_takes_in_nothing() {
    let mut bus = MessageBus::new();
    let gone = bus.subscribe(agent("gone"), Topic::Files);
    let stays = bus.subscribe(agent("stays"), Topic::Files);
    bus.publish(message_on(Topic::Files, "m-1", "before"));

    assert!(bus.unsubscribe(gone));
    assert!(!bus.unsubscribe(gone));
    assert!(!bus.unsubscribe(17));
    assert_eq!(bus.recv(gone), None);

    bus.publish(message_on(Topic::Files, "m-2", "after"));
    bus.deliver_to_all(message_on(Topic::System, "m-3", "to all"));
    assert_eq!(bus.recv(gone), None);
    assert_eq!(read_message(&mut bus, stays).id, "m-1");
    assert_eq!(read_message(&mut bus, stays).id, "m-2");
    assert_eq!(read_message(&mut bus, stays).id, "m-3");
    assert_eq!(bus.recv(stays), Some(Delivery::Empty));
}

#[test]
fn the_directory_names_live_subscriptions_only() {
    let mut bus = MessageBus::new();
    let first = bus.subscribe(agent("ui"), Topic::System);
    let second = bus.subscribe(agent("voice"), Topic::Voice);
    let third = bus.subscribe(agent("ui"), Topic::Error);
    assert!(bus.unsubscribe(first));
    assert_eq!(bus.list_agents(), vec!["voice".to_string(), "ui".to_string()]);
    assert!(bus.unsubscribe(third));
    assert_eq!(bus.list_agents(), vec!["voice".to_string()]);
    assert!(bus.unsubscribe(second));
    assert!(bus.list_agents().is_empty());

    let again = bus.subscribe(agent("ui"), Topic::System);
    assert_eq!(again, 3);
    assert_eq!(bus.subscription_count(), 4);
    assert_eq!(bus.list_agents(), vec!["ui".to_string()]);
    assert_eq!(bus.topic_count(), 8);
}

#[test]
fn send_stamped_publishes_with_the_given_id_and_time() {
    let mut bus = MessageBus::new();
    let sub = bus.subscribe(agent("reader"), Topic::Shell);
    assert_eq!(bus.send_stamped(Topic::Shell, text("ls"), "id-1".to_string(), Ok(1234)), Ok(()));
    assert_eq!(
        bus.recv(sub),
        Some(Delivery::Message(Message {
            id: "id-1".to_string(),
            topic: Topic::Shell,
            payload: text("ls"),
            sender: AgentId("system".to_string()),
            timestamp: 1234,
        }))
    );
    assert_eq!(bus.recv(sub), Some(Delivery::Empty));

    let weather = Topic::Custom("weather".to_string());
    assert_eq!(bus.send_stamped(weather.clone(), text("rain"), "id-2".to_string(), Ok(5)), Ok(()));
    assert!(bus.has_topic(&weather));
    assert_eq!(bus.recv(sub), Some(Delivery::Empty));
}

#[test]
fn send_stamped_without_a_timestamp_changes_nothing() {
    let mut bus = MessageBus::new();
    let sub = bus.subscribe(agent("reader"), Topic::Shell);
    let weather = Topic::Custom("weather".to_string());
    assert_eq!(
        bus.send_stamped(Topic::Shell, text("ls"), "id-1".to_string(), Err(BusError::ClockBeforeEpoch)),
        Err(BusError::ClockBeforeEpoch)
    );
    assert_eq!(
        bus.send_stamped(weather.clone(), text("rain"), "id-2".to_string(), Err(BusError::ClockBeforeEpoch)),
        Err(BusError::ClockBeforeEpoch)
    );
    assert_eq!(bus.recv(sub), Some(Delivery::Empty));
    assert!(!bus.has_topic(&weather));
    assert_eq!(bus.topic_count(), 8);
}

#[test]
fn broadcast_stamped_reaches_everyone_or_changes_nothing() {
    let mut bus = MessageBus::new();
    let a = bus.subscribe(agent("a"), Topic::Files);
    let b = bus.subscribe(agent("b"), Topic::Calendar);
    assert_eq!(
        bus.broadcast_stamped(Topic::System, text("lost"), "id-0".to_string(), Err(BusError::ClockBeforeEpoch)),
        Err(BusError::ClockBeforeEpoch)
    );
    assert_eq!(bus.recv(a), Some(Delivery::Empty));
    assert_eq!(bus.recv(b), Some(Delivery::Empty));

    assert_eq!(bus.broadcast_stamped(Topic::System, text("hello"), "id-1".to_string(), Ok(77)), Ok(()));
    let expected = Message {
        id: "id-1".to_string(),
        topic: Topic::System,
        payload: text("hello"),
        sender: AgentId("system".to_string()),
        timestamp: 77,
    };
    assert_eq!(bus.recv(a), Some(Delivery::Message(expected.clone())));
    assert_eq!(bus.recv(b), Some(Delivery::Message(expected)));
    assert_eq!(bus.recv(a), Some(Delivery::Empty));
}

#[test]
fn timestamp_of_a_clock_reading() {
    assert_eq!(timestamp_from_reading(Ok(0)), Ok(0));
    assert_eq!(timestamp_from_reading(Ok(1_700_000_000_123)), Ok(1_700_000_000_123));
    assert_eq!(timestamp_from_reading(Ok((3u128 << 64) + 9)), Ok(9));
    let later = std::time::UNIX_EPOCH + std::time::Duration::from_secs(1);
    let before_epoch = std::time::UNIX_EPOCH.duration_since(later).unwrap_err();
    assert_eq!(timestamp_from_reading(Err(before_epoch)), Err(BusError::ClockBeforeEpoch));
}
