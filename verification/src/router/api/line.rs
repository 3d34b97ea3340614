//! What the LINE webhook route does with the events it receives.

use vstd::prelude::*;
use vstd::string::StringExecFns;
use crate::model::line_webhook::{emojis_view, EventType, MessageEvent, MessageType, Webhook};
use crate::services::line::message::{Message, MessageView, ResponseMessage, ResponseMessageView};

verus! {

/// The earliest time, in milliseconds since the Unix epoch, that chrono can
/// hold (January 1 of year -262143).
pub const UTC_MIN_MILLIS: i64 = -8334601228800000;

/// The latest time, in milliseconds since the Unix epoch, that chrono can
/// hold (December 31 of year 262142, 23:59:59.999).
pub const UTC_MAX_MILLIS: i64 = 8210266876799999;

/// Whether an event timestamp (milliseconds since the Unix epoch) is a time
/// that chrono can hold.
pub open spec fn time_valid(millis: i64) -> bool {
    UTC_MIN_MILLIS <= millis <= UTC_MAX_MILLIS
}

/// How chrono displays the UTC time `millis` milliseconds after the Unix
/// epoch (such as `2016-05-07 13:57:59.859 UTC`).
pub uninterp spec fn utc_millis_text(millis: i64) -> Seq<char>;

/// Calls `chrono::DateTime::from_timestamp_millis` and displays the time it
/// gives. The call gives a time exactly when the day of the timestamp lies
/// between chrono's first and last date; the text is named.
#[verifier::external_body]
fn utc_text_from_millis(millis: i64) -> (res: Option<String>)
    ensures
        res is Some <==> time_valid(millis),
        res matches Some(text) ==> text@ == utc_millis_text(millis),
{
    match chrono::DateTime::from_timestamp_millis(millis) {
        Some(time) => Some(time.to_string()),
        None => None,
    }
}

/// What the webhook route does, in order: reply to an event, or write a line
/// to the log.
#[derive(Debug)]
pub enum WebhookAction {
    Reply(ResponseMessage),
    Log(String),
}

/// The contents of an action.
pub enum ActionView {
    Reply(ResponseMessageView),
    Log(Seq<char>),
}

impl View for WebhookAction {
    type V = ActionView;

    open spec fn view(&self) -> ActionView {
        match self {
            WebhookAction::Reply(r) => ActionView::Reply(r@),
            WebhookAction::Log(line) => ActionView::Log(line@),
        }
    }
}

/// The log line of an event at time `millis`: the time in brackets, then
/// `suffix`.
pub open spec fn log_line(millis: i64, suffix: Seq<char>) -> Seq<char> {
    "["@ + utc_millis_text(millis) + suffix
}

/// The reply to a message event: its text and emojis echoed back as one text
/// message, under the event's reply token.
pub open spec fn echo_reply(e: MessageEvent) -> ResponseMessageView {
    match e.message {
        MessageType::Text(t) => ResponseMessageView {
            reply_token: e.reply_token@,
            messages: seq![MessageView { message_type: "text"@, text: t.text@, emojis: emojis_view(t.emojis) }],
        },
    }
}

/// What the route does for one event. A message event at a valid time is
/// echoed back and logged; follow and unfollow events are logged; an event
/// at a time chrono cannot hold only logs `Invalid time`.
pub open spec fn event_actions(e: EventType) -> Seq<ActionView> {
    match e {
        EventType::Message(m) => if time_valid(m.timestamp) {
            seq![ActionView::Reply(echo_reply(m)), ActionView::Log(log_line(m.timestamp, "] I got a message"@))]
        } else {
            seq![ActionView::Log("Invalid time"@)]
        },
        EventType::Follow(f) => if time_valid(f.timestamp) {
            seq![ActionView::Log(log_line(f.timestamp, "] followed"@))]
        } else {
            seq![ActionView::Log("Invalid time"@)]
        },
        EventType::Unfollow(u) => if time_valid(u.timestamp) {
            seq![ActionView::Log(log_line(u.timestamp, "] unfollowed"@))]
        } else {
            seq![ActionView::Log("Invalid time"@)]
        },
    }
}

/// What the route does for a list of events: the actions of each event, in
/// the order of the events.
pub open spec fn webhook_actions(events: Seq<EventType>) -> Seq<ActionView>
    decreases events.len(),
{
    if events.len() == 0 {
        Seq::empty()
    } else {
        webhook_actions(events.drop_last()) + event_actions(events.last())
    }
}

/// The views of a list of actions.
pub open spec fn action_views(actions: Seq<WebhookAction>) -> Seq<ActionView> {
    actions.map_values(|a: WebhookAction| a@)
}

fn stamped(time_text: String, suffix: &str) -> (line: String)
    ensures
        line@ == "["@ + time_text@ + suffix@,
{
    let mut line = "[".to_string();
    line.append(time_text.as_str());
    line.append(suffix);
    line
}

fn log_at(millis: i64, suffix: &str) -> (line: String)
    ensures
        time_valid(millis) ==> line@ == log_line(millis, suffix@),
        !time_valid(millis) ==> line@ == "Invalid time"@,
{
    match utc_text_from_millis(millis) {
        Some(text) => stamped(text, suffix),
        None => "Invalid time".to_string(),
    }
}

fn event_actions_exec(event: EventType) -> (actions: Vec<WebhookAction>)
    ensures
        action_views(actions@) == event_actions(event),
{
    let mut actions: Vec<WebhookAction> = Vec::new();
    match event {
        EventType::Message(m) => {
            let ghost ev = m;
            match utc_text_from_millis(m.timestamp) {
                Some(text) => {
                    let line = stamped(text, "] I got a message");
                    match m.message {
                        MessageType::Text(t) => {
                            let mut messages: Vec<Message> = Vec::new();
                            messages.push(Message { message_type: "text".to_string(), text: t.text, emojis: t.emojis });
                            let reply = ResponseMessage { reply_token: m.reply_token, messages };
                            assert(reply@.messages =~= echo_reply(ev).messages);
                            actions.push(WebhookAction::Reply(reply));
                        },
                    }
                    actions.push(WebhookAction::Log(line));
                },
                None => {
                    actions.push(WebhookAction::Log("Invalid time".to_string()));
                },
            }
        },
        EventType::Follow(f) => {
            actions.push(WebhookAction::Log(log_at(f.timestamp, "] followed")));
        },
        EventType::Unfollow(u) => {
            actions.push(WebhookAction::Log(log_at(u.timestamp, "] unfollowed")));
        },
    }
    assert(action_views(actions@) =~= event_actions(event));
    actions
}

/// What the webhook route does with a webhook call: for each event in order,
/// the reply to send and the line to log.
pub fn webhook_handler(payload: Webhook) -> (actions: Vec<WebhookAction>)
    ensures
        action_views(actions@) == webhook_actions(payload.events@),
        forall|i: int| 0 <= i < actions@.len() && (#[trigger] actions@[i]) is Reply
            ==> exists|j: int| 0 <= j < payload.events@.len() && echoes(actions@[i]@->Reply_0, #[trigger] payload.events@[j]),
        forall|j: int| 0 <= j < payload.events@.len() && answered(#[trigger] payload.events@[j])
            ==> exists|i: int| 0 <= i < actions@.len() && (#[trigger] actions@[i]) is Reply
                && echoes(actions@[i]@->Reply_0, payload.events@[j]),
{
    let ghost events = payload.events@;
    let mut actions: Vec<WebhookAction> = Vec::new();
    assert(events.take(0) =~= Seq::<EventType>::empty());
    for event in it: payload.events
        invariant
            it.seq() == events,
            action_views(actions@) == webhook_actions(events.take(it.index() as int)),
    {
        let ghost i = it.index() as int;
        let ghost before = actions@;
        let mut more = event_actions_exec(event);
        actions.append(&mut more);
        proof {
            assert(events.take(i + 1).drop_last() =~= events.take(i));
            assert(action_views(actions@) =~= action_views(before) + event_actions(events[i]));
        }
    }
    assert(events.take(events.len() as int) =~= events);
    proof {
        lemma_replies_echo_exactly_the_message_events(events);
        assert forall|i: int| 0 <= i < actions@.len() implies #[trigger] actions@[i]@ == webhook_actions(events)[i] by {
            assert(action_views(actions@)[i] == actions@[i]@);
        }
    }
    actions
}

/// The predicate "is a log line".
pub open spec fn is_log() -> spec_fn(ActionView) -> bool {
    |a: ActionView| a is Log
}

/// The predicate "is a reply".
pub open spec fn is_reply() -> spec_fn(ActionView) -> bool {
    |a: ActionView| a is Reply
}

/// The predicate "is a message event at a time chrono can hold".
pub open spec fn is_answered() -> spec_fn(EventType) -> bool {
    |e: EventType| e matches EventType::Message(m) && time_valid(m.timestamp)
}

/// Each event of a webhook call leaves exactly one log line, and exactly the
/// message events at valid times are answered, each with one reply.
pub proof fn lemma_webhook_action_counts(events: Seq<EventType>)
    ensures
        webhook_actions(events).filter(is_log()).len() == events.len(),
        webhook_actions(events).filter(is_reply()).len() == events.filter(is_answered()).len(),
    decreases events.len(),
{
    reveal_with_fuel(Seq::filter, 3);
    if events.len() > 0 {
        let rest = events.drop_last();
        let e = events.last();
        lemma_webhook_action_counts(rest);
        assert(events =~= rest.push(e));
        rest.lemma_filter_push(e, is_answered());
        Seq::filter_distributes_over_add(webhook_actions(rest), event_actions(e), is_log());
        Seq::filter_distributes_over_add(webhook_actions(rest), event_actions(e), is_reply());
        let ea = event_actions(e);
        assert(ea.filter(is_log()).len() == 1) by {
            assert(ea.len() == 1 || ea.len() == 2);
            if ea.len() == 2 {
                assert(ea.drop_last().drop_last() =~= Seq::<ActionView>::empty());
            } else {
                assert(ea.drop_last() =~= Seq::<ActionView>::empty());
            }
        }
        assert(ea.filter(is_reply()).len() == if is_answered()(e) { 1int } else { 0int }) by {
            if ea.len() == 2 {
                assert(ea.drop_last().drop_last() =~= Seq::<ActionView>::empty());
            } else {
                assert(ea.drop_last() =~= Seq::<ActionView>::empty());
            }
        }
    }
}

/// Whether the reply `r` echoes the event `e`: `e` is a text message event at
/// a valid time, and `r` goes under its reply token with one text message
/// carrying exactly the event's text and emojis.
pub open spec fn echoes(r: ResponseMessageView, e: EventType) -> bool {
    &&& e matches EventType::Message(m)
    &&& time_valid(m.timestamp)
    &&& r.reply_token == m.reply_token@
    &&& r.messages.len() == 1
    &&& r.messages[0].message_type == "text"@
    &&& m.message matches MessageType::Text(t)
    &&& r.messages[0].text == t.text@
    &&& r.messages[0].emojis == emojis_view(t.emojis)
}

/// A text message event at a valid time is answered first with the reply
/// that echoes it (its reply token, its text and its emojis unchanged), then
/// logged.
pub proof fn lemma_reply_echoes_the_event(m: MessageEvent)
    requires
        time_valid(m.timestamp),
    ensures
        event_actions(EventType::Message(m)).len() == 2,
        event_actions(EventType::Message(m))[0] matches ActionView::Reply(r) && echoes(r, EventType::Message(m)),
        event_actions(EventType::Message(m))[1] == ActionView::Log(log_line(m.timestamp, "] I got a message"@)),
{
}

/// Whether an event is a text message event at a valid time.
pub open spec fn answered(e: EventType) -> bool {
    e matches EventType::Message(m) && time_valid(m.timestamp)
}

/// Over a webhook call, every reply echoes one of the call's events, and
/// every text message event at a valid time is echoed by one of the replies.
pub proof fn lemma_replies_echo_exactly_the_message_events(events: Seq<EventType>)
    ensures
        forall|i: int| 0 <= i < webhook_actions(events).len() && (#[trigger] webhook_actions(events)[i]) is Reply
            ==> exists|j: int| 0 <= j < events.len() && echoes(webhook_actions(events)[i]->Reply_0, #[trigger] events[j]),
        forall|j: int| 0 <= j < events.len() && answered(#[trigger] events[j])
            ==> exists|i: int| 0 <= i < webhook_actions(events).len() && (#[trigger] webhook_actions(events)[i]) is Reply
                && echoes(webhook_actions(events)[i]->Reply_0, events[j]),
    decreases events.len(),
{
    if events.len() > 0 {
        let init = events.drop_last();
        let e = events.last();
        lemma_replies_echo_exactly_the_message_events(init);
        let head = webhook_actions(init);
        let tail = event_actions(e);
        let all = webhook_actions(events);
        assert(all == head + tail);
        assert forall|i: int| 0 <= i < all.len() && (#[trigger] all[i]) is Reply implies
            exists|j: int| 0 <= j < events.len() && echoes(all[i]->Reply_0, #[trigger] events[j]) by {
            if i < head.len() {
                assert(all[i] == head[i]);
                let j = choose|j: int| 0 <= j < init.len() && echoes(head[i]->Reply_0, #[trigger] init[j]);
                assert(events[j] == init[j]);
            } else {
                assert(all[i] == tail[i - head.len()]);
                assert(events[events.len() - 1] == e);
                match e {
                    EventType::Message(m) => {
                        if time_valid(m.timestamp) {
                            lemma_reply_echoes_the_event(m);
                            assert(i - head.len() == 0);
                        }
                    },
                    _ => {},
                }
            }
        }
        assert forall|j: int| 0 <= j < events.len() && answered(#[trigger] events[j]) implies
            exists|i: int| 0 <= i < all.len() && (#[trigger] all[i]) is Reply && echoes(all[i]->Reply_0, events[j]) by {
            if j < init.len() {
                assert(events[j] == init[j]);
                let i = choose|i: int| 0 <= i < head.len() && (#[trigger] head[i]) is Reply
                    && echoes(head[i]->Reply_0, init[j]);
                assert(all[i] == head[i]);
            } else {
                assert(events[j] == e);
                if let EventType::Message(m) = e {
                    lemma_reply_echoes_the_event(m);
                    assert(all[head.len() as int] == tail[0]);
                }
            }
        }
    }
}

} // verus!
