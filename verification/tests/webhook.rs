use notification_server::model::line_webhook::{
    DeliveryContext, Emoji, EventType, Follow, FollowEvent, GroupSource, Mention, Mentionee, MessageEvent,
    MessageType, SourceType, TextMessage, UnfollowEvent, UserSource, Webhook,
};
use notification_server::router::api::line::{webhook_handler, WebhookAction, UTC_MAX_MILLIS, UTC_MIN_MILLIS};

fn message_event(timestamp: i64) -> EventType {
    EventType::Message(MessageEvent {
        reply_token: "nHuyWiB7yP5Zw52FIkcQobQuGDXCTA".to_string(),
        mode: "active".to_string(),
        timestamp,
        source: Some(SourceType::Group(GroupSource {
            group_id: "Ca56f94637c...".to_string(),
            user_id: Some("U4af4980629...".to_string()),
        })),
        webhook_event_id: "01FZ74A0TDDPYRVKNK77XKC3ZR".to_string(),
        delivery_context: DeliveryContext { is_redelivery: false },
        message: MessageType::Text(TextMessage {
            id: "444573844083572737".to_string(),
            quote_token: "q3Plxr4AgKd...".to_string(),
            text: "@All @example Good Morning!! (love)".to_string(),
            emojis: Some(vec![Emoji {
                index: 29,
                product_id: "5ac1bfd5040ab15980c9b435".to_string(),
                emoji_id: "001".to_string(),
            }]),
            mention: Some(Mention {
                mentionees: vec![
                    Mentionee { index: 0, length: 4, mentionee_type: "all".to_string(), user_id: None },
                    Mentionee {
                        index: 5,
                        length: 8,
                        mentionee_type: "user".to_string(),
                        user_id: Some("U49585cd0d5...".to_string()),
                    },
                ],
            }),
            quoted_message_id: None,
        }),
    })
}

fn follow_event(timestamp: i64) -> EventType {
    EventType::Follow(FollowEvent {
        reply_token: "85cbe770fa8b4f45bbe077b1d4be4a36".to_string(),
        mode: "active".to_string(),
        timestamp,
        source: Some(SourceType::User(UserSource { user_id: "U4af4980629...".to_string() })),
        webhook_event_id: "01FZ74ASS536FW97EX38NKCZQK".to_string(),
        delivery_context: DeliveryContext { is_redelivery: false },
        follow: Follow { is_unblocked: false },
    })
}

fn unfollow_event(timestamp: i64) -> EventType {
    EventType::Unfollow(UnfollowEvent {
        mode: "active".to_string(),
        timestamp,
        source: Some(SourceType::User(UserSource { user_id: "U4af4980629...".to_string() })),
        webhook_event_id: "01FZ74B5Y0F4TNKA5SCAVKPEDM".to_string(),
        delivery_context: DeliveryContext { is_redelivery: false },
    })
}

fn webhook(events: Vec<EventType>) -> Webhook {
    Webhook { destination: "xxxxxxxxxx".to_string(), events }
}

fn log_text(action: &WebhookAction) -> &str {
    match action {
        WebhookAction::Log(line) => line,
        WebhookAction::Reply(_) => panic!("a log line was expected"),
    }
}

#[test]
fn test_webhook_handler() {
    let actions = webhook_handler(webhook(vec![message_event(1462629479859)]));
    assert_eq!(actions.len(), 2);
    match &actions[0] {
        WebhookAction::Reply(reply) => {
            assert_eq!(reply.reply_token, "nHuyWiB7yP5Zw52FIkcQobQuGDXCTA");
            assert_eq!(reply.messages.len(), 1);
            assert_eq!(reply.messages[0].message_type, "text");
            assert_eq!(reply.messages[0].text, "@All @example Good Morning!! (love)");
            let emojis = reply.messages[0].emojis.as_ref().unwrap();
            assert_eq!(emojis.len(), 1);
            assert_eq!(emojis[0].index, 29);
            assert_eq!(emojis[0].product_id, "5ac1bfd5040ab15980c9b435");
            assert_eq!(emojis[0].emoji_id, "001");
        },
        WebhookAction::Log(_) => panic!("a reply was expected first"),
    }
    assert_eq!(log_text(&actions[1]), "[2016-05-07 13:57:59.859 UTC] I got a message");
}

#[test]
fn follow_and_unfollow_are_logged() {
    let actions = webhook_handler(webhook(vec![follow_event(0), unfollow_event(1000)]));
    assert_eq!(actions.len(), 2);
    assert_eq!(log_text(&actions[0]), "[1970-01-01 00:00:00 UTC] followed");
    assert_eq!(log_text(&actions[1]), "[1970-01-01 00:00:01 UTC] unfollowed");
}

#[test]
fn events_out_of_range_log_invalid_time() {
    let actions = webhook_handler(webhook(vec![
        message_event(UTC_MAX_MILLIS + 1),
        follow_event(UTC_MIN_MILLIS - 1),
        unfollow_event(i64::MAX),
        follow_event(i64::MIN),
    ]));
    assert_eq!(actions.len(), 4);
    for action in &actions {
        assert_eq!(log_text(action), "Invalid time");
    }
}

#[test]
fn chrono_range_limits_are_valid_times() {
    let actions = webhook_handler(webhook(vec![follow_event(UTC_MAX_MILLIS), follow_event(UTC_MIN_MILLIS)]));
    assert_eq!(log_text(&actions[0]), "[+262142-12-31 23:59:59.999 UTC] followed");
    assert_eq!(log_text(&actions[1]), "[-262143-01-01 00:00:00 UTC] followed");
}

#[test]
fn one_log_line_per_event_and_replies_only_to_messages() {
    let actions = webhook_handler(webhook(vec![
        follow_event(1),
        message_event(2),
        message_event(UTC_MAX_MILLIS + 1),
        unfollow_event(3),
        message_event(4),
    ]));
    let logs = actions.iter().filter(|a| matches!(a, WebhookAction::Log(_))).count();
    let replies = actions.iter().filter(|a| matches!(a, WebhookAction::Reply(_))).count();
    assert_eq!(logs, 5);
    assert_eq!(replies, 2);
}

#[test]
fn empty_webhook_does_nothing() {
    assert!(webhook_handler(webhook(vec![])).is_empty());
}
