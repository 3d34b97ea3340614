use notification_server::message::{LineMessageKind, ScheduledMessage};
use notification_server::schedule::{Moment, ScheduleQueue};

fn at(seconds: i64, nanos: u32) -> Moment {
    Moment { seconds, nanos }
}

fn msg(text: &str, seconds: i64) -> ScheduledMessage {
    ScheduledMessage { message: text.to_string(), send_at: at(seconds, 0) }
}

fn texts(messages: &[ScheduledMessage]) -> Vec<String> {
    messages.iter().map(|m| m.message.clone()).collect()
}

#[test]
fn moments_are_ordered_by_second_then_nanosecond() {
    assert!(at(10, 5).is_not_after(&at(10, 5)));
    assert!(at(10, 5).is_not_after(&at(10, 6)));
    assert!(!at(10, 6).is_not_after(&at(10, 5)));
    assert!(at(9, 999_999_999).is_not_after(&at(10, 0)));
    assert!(!at(11, 0).is_not_after(&at(10, 999_999_999)));
    assert!(at(-1, 0).is_not_after(&at(0, 0)));
}

#[test]
fn take_due_splits_the_queue_in_order() {
    let mut queue = ScheduleQueue::from_messages(vec![msg("a", 100), msg("b", 300), msg("c", 200), msg("d", 50)]);
    let due = queue.take_due(at(200, 0));
    assert_eq!(texts(&due), vec!["a", "c", "d"]);
    assert_eq!(queue.len(), 1);
    let rest = queue.take_due(at(1000, 0));
    assert_eq!(texts(&rest), vec!["b"]);
    assert_eq!(queue.len(), 0);
}

#[test]
fn message_due_at_exactly_now_is_taken() {
    let mut queue = ScheduleQueue::new();
    queue.push(ScheduledMessage { message: "x".to_string(), send_at: at(5, 7) });
    assert!(queue.take_due(at(5, 6)).is_empty());
    assert_eq!(texts(&queue.take_due(at(5, 7))), vec!["x"]);
}

#[test]
fn polling_twice_at_the_same_time_sends_nothing_more() {
    let mut queue = ScheduleQueue::from_messages(vec![msg("a", 1), msg("b", 2), msg("c", 3)]);
    assert_eq!(queue.take_due(at(2, 0)).len(), 2);
    assert!(queue.take_due(at(2, 0)).is_empty());
    assert_eq!(queue.len(), 1);
}

#[test]
fn earlier_then_later_poll_equals_the_later_poll() {
    let make = || ScheduleQueue::from_messages(vec![msg("a", 5), msg("b", 1), msg("c", 9), msg("d", 3)]);
    let mut twice = make();
    let mut first = texts(&twice.take_due(at(2, 0)));
    first.extend(texts(&twice.take_due(at(4, 0))));
    let mut once = make();
    let mut all = texts(&once.take_due(at(4, 0)));
    first.sort();
    all.sort();
    assert_eq!(first, all);
    assert_eq!(twice.len(), once.len());
    assert_eq!(texts(&twice.take_due(at(100, 0))), texts(&once.take_due(at(100, 0))));
}

#[test]
fn every_message_is_either_sent_or_kept() {
    let mut queue = ScheduleQueue::from_messages(vec![msg("a", 5), msg("b", 1), msg("c", 9)]);
    let due = queue.take_due(at(5, 0));
    let kept = queue.take_due(at(i64::MAX, u32::MAX));
    assert_eq!(due.len() + kept.len(), 3);
    let mut all = texts(&due);
    all.extend(texts(&kept));
    all.sort();
    assert_eq!(all, vec!["a", "b", "c"]);
}

#[test]
fn scheduled_message_goes_after_those_already_due() {
    let mut queue = ScheduleQueue::from_messages(vec![msg("a", 1)]);
    queue.push(msg("new", 2));
    assert_eq!(texts(&queue.take_due(at(3, 0))), vec!["a", "new"]);
}

#[test]
fn poll_turns_due_messages_into_notifications() {
    let mut queue = ScheduleQueue::from_messages(vec![msg("first", 1), msg("later", 50), msg("second", 2)]);
    let sent = queue.poll(at(10, 0));
    let sent_texts: Vec<String> = sent
        .iter()
        .map(|k| match k {
            LineMessageKind::Version1(n) => n.message.clone(),
            LineMessageKind::Version2(_) => panic!("a notification was expected"),
        })
        .collect();
    assert_eq!(sent_texts, vec!["first", "second"]);
    assert_eq!(queue.len(), 1);
}

#[test]
fn a_run_of_polls_sends_each_message_once_at_its_first_due_poll() {
    let mut queue = ScheduleQueue::from_messages(vec![msg("a", 3), msg("b", 1), msg("c", 7), msg("d", 3), msg("e", 100)]);
    let mut batches = Vec::new();
    for t in [0, 2, 3, 3, 6, 8, 8] {
        batches.push(texts(&queue.take_due(at(t, 0))));
    }
    let expected: Vec<Vec<&str>> = vec![vec![], vec!["b"], vec!["a", "d"], vec![], vec![], vec!["c"], vec![]];
    assert_eq!(batches, expected);
    assert_eq!(queue.len(), 1);
}
