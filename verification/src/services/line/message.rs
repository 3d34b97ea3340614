//! Messages to LINE and the requests that deliver them.

use vstd::prelude::*;
use crate::model::line_webhook::{Emoji, EmojiView, emojis_view};
use crate::schedule::Moment;
use crate::http::{form_decode, lemma_form_body_decodes_to_its_pairs, form_pairs, form_urlencode, pair_views, HttpRequest, FORM_CONTENT_TYPE, JSON_CONTENT_TYPE};
use crate::text::{decimal, json_string, json_unquote, lemma_json_string_reads_back, push_char, push_decimal, push_json_string};
use vstd::string::StringExecFns;

verus! {

/// A notification text.
#[derive(Debug)]
pub struct LineSendMessage {
    pub message: String,
}

/// A notification text to be sent at a given local time.
#[derive(Debug)]
pub struct ScheduledMessage {
    pub message: String,
    pub send_at: Moment,
}

/// A reply to a webhook event: the event's reply token and the messages.
#[derive(Debug)]
pub struct ResponseMessage {
    pub reply_token: String,
    pub messages: Vec<Message>,
}

/// One message of a reply.
#[derive(Debug)]
pub struct Message {
    pub message_type: String,
    pub text: String,
    pub emojis: Option<Vec<Emoji>>,
}

/// The contents of a message.
pub struct MessageView {
    pub message_type: Seq<char>,
    pub text: Seq<char>,
    pub emojis: Option<Seq<EmojiView>>,
}

impl View for Message {
    type V = MessageView;

    open spec fn view(&self) -> MessageView {
        MessageView { message_type: self.message_type@, text: self.text@, emojis: emojis_view(self.emojis) }
    }
}

/// The contents of a reply.
pub struct ResponseMessageView {
    pub reply_token: Seq<char>,
    pub messages: Seq<MessageView>,
}

impl View for ResponseMessage {
    type V = ResponseMessageView;

    open spec fn view(&self) -> ResponseMessageView {
        ResponseMessageView {
            reply_token: self.reply_token@,
            messages: self.messages@.map_values(|m: Message| m@),
        }
    }
}

/// What can be sent to LINE: a notification, or a reply to an event.
#[derive(Debug)]
pub enum LineMessageKind {
    Version1(LineSendMessage),
    Version2(ResponseMessage),
}

/// Where notifications are posted.
pub const NOTIFY_ENDPOINT: &'static str = "https://notify-api.line.me/api/notify";

/// Where replies to webhook events are posted.
pub const REPLY_ENDPOINT: &'static str = "https://api.line.me/v2/bot/message/reply";

/// JSON texts separated by commas.
pub open spec fn join_commas(items: Seq<Seq<char>>) -> Seq<char>
    decreases items.len(),
{
    if items.len() == 0 {
        Seq::empty()
    } else if items.len() == 1 {
        items[0]
    } else {
        join_commas(items.drop_last()) + seq![','] + items.last()
    }
}

/// A JSON array of the given JSON texts.
pub open spec fn json_array(items: Seq<Seq<char>>) -> Seq<char> {
    seq!['['] + join_commas(items) + seq![']']
}

/// The JSON object of an emoji.
pub open spec fn emoji_json(e: EmojiView) -> Seq<char> {
    "{\"index\":"@ + decimal(e.index as nat) + ",\"productId\":"@ + json_string(e.product_id)
        + ",\"emojiId\":"@ + json_string(e.emoji_id) + "}"@
}

/// The JSON of an optional list of emojis: `null`, or an array.
pub open spec fn emojis_json(emojis: Option<Seq<EmojiView>>) -> Seq<char> {
    match emojis {
        Some(list) => json_array(list.map_values(|e: EmojiView| emoji_json(e))),
        None => "null"@,
    }
}

/// The JSON object of a reply message.
pub open spec fn message_json(m: MessageView) -> Seq<char> {
    "{\"type\":"@ + json_string(m.message_type) + ",\"text\":"@ + json_string(m.text) + ",\"emojis\":"@
        + emojis_json(m.emojis) + "}"@
}

/// The JSON object of a reply.
pub open spec fn response_json(r: ResponseMessageView) -> Seq<char> {
    "{\"replyToken\":"@ + json_string(r.reply_token) + ",\"messages\":"@
        + json_array(r.messages.map_values(|m: MessageView| message_json(m))) + "}"@
}

/// The form fields of a notification.
pub open spec fn notify_form(text: Seq<char>) -> Seq<(Seq<char>, Seq<char>)> {
    seq![("message"@, text)]
}

/// The JSON of an emoji holds its product and emoji ids as string literals
/// that read back as those ids, and its index in decimal.
pub proof fn lemma_emoji_json_reads_back(e: EmojiView)
    ensures
        exists|p: Seq<char>, q: Seq<char>|
            emoji_json(e) == "{\"index\":"@ + decimal(e.index as nat) + ",\"productId\":"@ + p + ",\"emojiId\":"@ + q + "}"@
            && json_unquote(p) == Some(e.product_id) && json_unquote(q) == Some(e.emoji_id),
{
    lemma_json_string_reads_back(e.product_id);
    lemma_json_string_reads_back(e.emoji_id);
    assert(emoji_json(e) == "{\"index\":"@ + decimal(e.index as nat) + ",\"productId\":"@ + json_string(e.product_id)
        + ",\"emojiId\":"@ + json_string(e.emoji_id) + "}"@);
}

/// The JSON of a reply message holds its type and its text as string
/// literals that read back as that type and that text, unchanged.
pub proof fn lemma_message_json_reads_back(m: MessageView)
    ensures
        exists|t: Seq<char>, x: Seq<char>, rest: Seq<char>|
            message_json(m) == "{\"type\":"@ + t + ",\"text\":"@ + x + ",\"emojis\":"@ + rest + "}"@
            && json_unquote(t) == Some(m.message_type) && json_unquote(x) == Some(m.text),
{
    lemma_json_string_reads_back(m.message_type);
    lemma_json_string_reads_back(m.text);
    assert(message_json(m) == "{\"type\":"@ + json_string(m.message_type) + ",\"text\":"@ + json_string(m.text)
        + ",\"emojis\":"@ + emojis_json(m.emojis) + "}"@);
}

/// The JSON of a reply holds its reply token as a string literal that reads
/// back as that token.
pub proof fn lemma_response_json_reads_back(r: ResponseMessageView)
    ensures
        exists|t: Seq<char>, rest: Seq<char>|
            response_json(r) == "{\"replyToken\":"@ + t + ",\"messages\":"@ + rest + "}"@
            && json_unquote(t) == Some(r.reply_token),
{
    lemma_json_string_reads_back(r.reply_token);
    let rest = json_array(r.messages.map_values(|m: MessageView| message_json(m)));
    assert(response_json(r) == "{\"replyToken\":"@ + json_string(r.reply_token) + ",\"messages\":"@ + rest + "}"@);
}

/// The body of a notification reads back as the one pair `message` = text.
pub proof fn lemma_notification_body_decodes(text: Seq<char>)
    ensures
        form_decode(form_pairs(notify_form(text))) == seq![("message"@, text)],
{
    lemma_form_body_decodes_to_its_pairs(notify_form(text));
}

proof fn lemma_join_commas_push(items: Seq<Seq<char>>, i: int)
    requires
        0 <= i < items.len(),
    ensures
        join_commas(items.take(i + 1)) == if i == 0 {
            items[0]
        } else {
            join_commas(items.take(i)) + seq![','] + items[i]
        },
{
    assert(items.take(i + 1).drop_last() =~= items.take(i));
}

impl Emoji {
    /// Appends the emoji's JSON object to `out`.
    pub fn push_json(&self, out: &mut String)
        ensures
            final(out)@ == old(out)@ + emoji_json(self@),
    {
        out.append("{\"index\":");
        push_decimal(out, self.index as u64);
        out.append(",\"productId\":");
        push_json_string(out, self.product_id.as_str());
        out.append(",\"emojiId\":");
        push_json_string(out, self.emoji_id.as_str());
        out.append("}");
    }
}

/// Appends the JSON of an optional list of emojis to `out`.
pub fn push_emojis_json(out: &mut String, emojis: &Option<Vec<Emoji>>)
    ensures
        final(out)@ == old(out)@ + emojis_json(emojis_view(*emojis)),
{
    match emojis {
        None => out.append("null"),
        Some(list) => {
            let ghost start = out@;
            let ghost items = list@.map_values(|e: Emoji| e@).map_values(|e: EmojiView| emoji_json(e));
            push_char(out, '[');
            for i in 0..list.len()
                invariant
                    items.len() == list@.len(),
                    forall|j: int| 0 <= j < list@.len() ==> #[trigger] items[j] == emoji_json(list@[j]@),
                    out@ == start + seq!['['] + join_commas(items.take(i as int)),
            {
                if i > 0 {
                    push_char(out, ',');
                }
                list[i].push_json(out);
                proof {
                    lemma_join_commas_push(items, i as int);
                    assert(out@ =~= start + seq!['['] + join_commas(items.take(i + 1)));
                }
            }
            push_char(out, ']');
            assert(items.take(list@.len() as int) =~= items);
            assert(out@ =~= start + json_array(items));
        },
    }
}

impl Message {
    /// Appends the message's JSON object to `out`.
    pub fn push_json(&self, out: &mut String)
        ensures
            final(out)@ == old(out)@ + message_json(self@),
    {
        out.append("{\"type\":");
        push_json_string(out, self.message_type.as_str());
        out.append(",\"text\":");
        push_json_string(out, self.text.as_str());
        out.append(",\"emojis\":");
        push_emojis_json(out, &self.emojis);
        out.append("}");
    }
}

impl ResponseMessage {
    /// The reply as a compact JSON object, the body of a reply request.
    pub fn to_json(&self) -> (json: String)
        ensures
            json@ == response_json(self@),
    {
        let mut out = "{\"replyToken\":".to_string();
        push_json_string(&mut out, self.reply_token.as_str());
        out.append(",\"messages\":");
        let ghost start = out@;
        let ghost items = self.messages@.map_values(|m: Message| m@).map_values(|m: MessageView| message_json(m));
        push_char(&mut out, '[');
        for i in 0..self.messages.len()
            invariant
                items.len() == self.messages@.len(),
                forall|j: int| 0 <= j < self.messages@.len() ==> #[trigger] items[j] == message_json(self.messages@[j]@),
                out@ == start + seq!['['] + join_commas(items.take(i as int)),
        {
            if i > 0 {
                push_char(&mut out, ',');
            }
            self.messages[i].push_json(&mut out);
            proof {
                lemma_join_commas_push(items, i as int);
                assert(out@ =~= start + seq!['['] + join_commas(items.take(i + 1)));
            }
        }
        push_char(&mut out, ']');
        assert(items.take(self.messages@.len() as int) =~= items);
        out.append("}");
        out
    }
}

/// Sends messages to LINE with the channel's access token.
#[derive(Debug)]
pub struct LineSender {
    access_token: String,
}

impl View for LineSender {
    type V = Seq<char>;

    /// The access token the sender authenticates with.
    closed spec fn view(&self) -> Seq<char> {
        self.access_token@
    }
}

impl LineSender {
    /// A sender that authenticates with `access_token`.
    pub fn new(access_token: String) -> (sender: Self)
        ensures
            sender@ == access_token@,
    {
        Self { access_token }
    }

    /// The HTTP request that delivers `message`: a notification is posted as
    /// a form with its text to the notify endpoint, a reply as JSON to the
    /// reply endpoint; both carry the access token as bearer token.
    pub fn request_for(&self, message: &LineMessageKind) -> (req: HttpRequest)
        ensures
            req.bearer_token matches Some(token) && token@ == self@,
            message matches LineMessageKind::Version1(n) ==> req.url@ == NOTIFY_ENDPOINT@
                && req.content_type@ == FORM_CONTENT_TYPE@
                && req.body@ == form_pairs(notify_form(n.message@)),
            message matches LineMessageKind::Version1(n) ==> form_decode(req.body@) == seq![("message"@, n.message@)],
            message matches LineMessageKind::Version2(r) ==> req.url@ == REPLY_ENDPOINT@
                && req.content_type@ == JSON_CONTENT_TYPE@
                && req.body@ == response_json(r@),
    {
        match message {
            LineMessageKind::Version1(notification) => {
                let mut params: Vec<(String, String)> = Vec::new();
                params.push(("message".to_string(), notification.message.clone()));
                assert(pair_views(params@) =~= notify_form(notification.message@));
                proof {
                    lemma_notification_body_decodes(notification.message@);
                }
                let body = match form_urlencode(&params) {
                    Ok(body) => body,
                    Err(_) => String::new(),
                };
                HttpRequest {
                    url: NOTIFY_ENDPOINT.to_string(),
                    bearer_token: Some(self.access_token.clone()),
                    content_type: FORM_CONTENT_TYPE.to_string(),
                    body,
                }
            },
            LineMessageKind::Version2(reply) => HttpRequest {
                url: REPLY_ENDPOINT.to_string(),
                bearer_token: Some(self.access_token.clone()),
                content_type: JSON_CONTENT_TYPE.to_string(),
                body: reply.to_json(),
            },
        }
    }
}

} // verus!
