use soccer::entity::EntityId;
use soccer::messaging::MessageDispatcher;
use soccer::player::FieldPlayerMessage;

type Msg = FieldPlayerMessage<(f32, f32)>;

fn id(bits: u64) -> EntityId {
    EntityId::from_bits(bits)
}

#[test]
fn nothing_is_delivered_while_the_latest_is_not_due() {
    let mut d: MessageDispatcher<Msg> = MessageDispatcher::default();
    d.dispatch_message(10, Some(id(1)), FieldPlayerMessage::GoHome);
    d.dispatch_message(50, Some(id(2)), FieldPlayerMessage::Wait);
    let events = d.dispatch_deferred_messages(20);
    assert!(events.is_empty());
    assert_eq!(d.len(), 2);
}

#[test]
fn all_due_telegrams_are_delivered_latest_first() {
    let mut d: MessageDispatcher<Msg> = MessageDispatcher::default();
    d.dispatch_message(10, Some(id(1)), FieldPlayerMessage::GoHome);
    d.dispatch_message(30, Some(id(2)), FieldPlayerMessage::Wait);
    d.dispatch_message(20, None, FieldPlayerMessage::ReceiveBall((1.0, 2.0)));
    let events = d.dispatch_deferred_messages(30);
    assert_eq!(d.len(), 0);
    assert_eq!(events.len(), 3);
    assert_eq!(events[0].receiver, Some(id(2)));
    assert_eq!(events[0].message, FieldPlayerMessage::Wait);
    assert_eq!(events[1].receiver, None);
    assert_eq!(events[1].message, FieldPlayerMessage::ReceiveBall((1.0, 2.0)));
    assert_eq!(events[2].receiver, Some(id(1)));
    assert_eq!(events[2].message, FieldPlayerMessage::GoHome);
}

#[test]
fn empty_dispatcher_delivers_nothing() {
    let mut d: MessageDispatcher<Msg> = MessageDispatcher::default();
    assert!(d.dispatch_deferred_messages(i64::MAX).is_empty());
    assert!(d.dispatch_deferred_messages(i64::MIN).is_empty());
}

#[test]
fn dispatched_message_is_delivered_on_the_next_round() {
    let mut d: MessageDispatcher<Msg> = MessageDispatcher::default();
    d.dispatch_message(1_000, Some(id(7)), FieldPlayerMessage::PassToMe(id(8), (3.0, 4.0)));
    assert_eq!(d.len(), 1);
    let events = d.dispatch_deferred_messages(1_000);
    assert_eq!(events.len(), 1);
    assert_eq!(events[0].receiver, Some(id(7)));
    assert_eq!(events[0].message, FieldPlayerMessage::PassToMe(id(8), (3.0, 4.0)));
    assert_eq!(d.len(), 0);
}

#[test]
fn deferred_message_waits_for_its_delay() {
    let mut d: MessageDispatcher<Msg> = MessageDispatcher::default();
    // an hour after the time it was sent
    d.defer_dispatch_message(1_000, Some(id(1)), FieldPlayerMessage::GoHome, 3_600_000);
    assert!(d.dispatch_deferred_messages(1_000).is_empty());
    assert_eq!(d.len(), 1);
    let events = d.dispatch_deferred_messages(3_601_000);
    assert_eq!(events.len(), 1);
}

#[test]
fn one_late_telegram_holds_back_all_others() {
    let mut d: MessageDispatcher<Msg> = MessageDispatcher::default();
    d.dispatch_message(1_000, Some(id(1)), FieldPlayerMessage::Wait);
    d.defer_dispatch_message(1_000, Some(id(2)), FieldPlayerMessage::GoHome, 3_600_000);
    assert!(d.dispatch_deferred_messages(2_000).is_empty());
    assert_eq!(d.len(), 2);
}

#[test]
fn huge_delay_saturates() {
    let mut d: MessageDispatcher<Msg> = MessageDispatcher::default();
    d.defer_dispatch_message(1_000, Some(id(1)), FieldPlayerMessage::GoHome, i64::MAX);
    assert!(d.dispatch_deferred_messages(i64::MAX - 1).is_empty());
    assert_eq!(d.dispatch_deferred_messages(i64::MAX).len(), 1);
}

#[test]
fn equal_times_are_all_delivered() {
    let mut d: MessageDispatcher<Msg> = MessageDispatcher::default();
    d.dispatch_message(5, Some(id(1)), FieldPlayerMessage::GoHome);
    d.dispatch_message(5, Some(id(2)), FieldPlayerMessage::GoHome);
    let events = d.dispatch_deferred_messages(5);
    assert_eq!(events.len(), 2);
    let mut receivers: Vec<u64> = events.iter().map(|e| e.receiver.unwrap().bits).collect();
    receivers.sort();
    assert_eq!(receivers, vec![1, 2]);
}

#[test]
fn deferred_time_is_now_plus_delay() {
    let mut d: MessageDispatcher<Msg> = MessageDispatcher::default();
    d.defer_dispatch_message(1_000, Some(id(1)), FieldPlayerMessage::GoHome, 250);
    assert!(d.dispatch_deferred_messages(1_249).is_empty());
    let events = d.dispatch_deferred_messages(1_250);
    assert_eq!(events.len(), 1);
    assert_eq!(events[0].receiver, Some(id(1)));
}

#[test]
fn deferred_time_clamps_below() {
    let mut d: MessageDispatcher<Msg> = MessageDispatcher::default();
    d.defer_dispatch_message(-10, None, FieldPlayerMessage::Wait, i64::MIN);
    assert_eq!(d.dispatch_deferred_messages(i64::MIN).len(), 1);
}

#[test]
fn telegrams_due_at_the_earliest_time_are_always_delivered() {
    let mut d: MessageDispatcher<Msg> = MessageDispatcher::default();
    d.dispatch_message(i64::MIN, Some(id(3)), FieldPlayerMessage::Wait);
    let events = d.dispatch_deferred_messages(i64::MIN);
    assert_eq!(events.len(), 1);
    assert_eq!(events[0].receiver, Some(id(3)));
    assert_eq!(d.len(), 0);
}
