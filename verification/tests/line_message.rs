use notification_server::message::{LineMessageKind, LineSendMessage, LineSender};
use notification_server::model::line_webhook::Emoji;
use notification_server::services::line::message::{push_emojis_json, Message, ResponseMessage};

fn emoji(index: usize, product: &str, id: &str) -> Emoji {
    Emoji { index, product_id: product.to_string(), emoji_id: id.to_string() }
}

#[test]
fn notification_is_posted_as_a_form() {
    let sender = LineSender::new("line-access-token".to_string());
    let request = sender.request_for(&LineMessageKind::Version1(LineSendMessage {
        message: "Hello World こんにちは!*-._~".to_string(),
    }));
    assert_eq!(request.url, "https://notify-api.line.me/api/notify");
    assert_eq!(request.bearer_token.as_deref(), Some("line-access-token"));
    assert_eq!(request.content_type, "application/x-www-form-urlencoded");
    assert_eq!(
        request.body,
        "message=Hello+World+%E3%81%93%E3%82%93%E3%81%AB%E3%81%A1%E3%81%AF%21*-._%7E"
    );
}

#[test]
fn notification_body_agrees_with_serde_urlencoded() {
    let sender = LineSender::new("t".to_string());
    for text in ["", "a=b&c", "100% sure", "line\nbreak", "絵文字"] {
        let request = sender.request_for(&LineMessageKind::Version1(LineSendMessage { message: text.to_string() }));
        assert_eq!(request.body, serde_urlencoded::to_string([("message", text)]).unwrap());
    }
}

#[test]
fn reply_is_posted_as_json() {
    let sender = LineSender::new("line-access-token".to_string());
    let reply = ResponseMessage {
        reply_token: "nHuyWiB7yP5Zw52FIkcQobQuGDXCTA".to_string(),
        messages: vec![Message {
            message_type: "text".to_string(),
            text: "@All @example Good Morning!! (love)".to_string(),
            emojis: Some(vec![emoji(29, "5ac1bfd5040ab15980c9b435", "001")]),
        }],
    };
    let request = sender.request_for(&LineMessageKind::Version2(reply));
    assert_eq!(request.url, "https://api.line.me/v2/bot/message/reply");
    assert_eq!(request.bearer_token.as_deref(), Some("line-access-token"));
    assert_eq!(request.content_type, "application/json");
    assert_eq!(
        request.body,
        "{\"replyToken\":\"nHuyWiB7yP5Zw52FIkcQobQuGDXCTA\",\"messages\":[{\"type\":\"text\",\"text\":\"@All @example Good Morning!! (love)\",\"emojis\":[{\"index\":29,\"productId\":\"5ac1bfd5040ab15980c9b435\",\"emojiId\":\"001\"}]}]}"
    );
}

#[test]
fn reply_json_with_several_messages_and_no_emojis() {
    let reply = ResponseMessage {
        reply_token: "t".to_string(),
        messages: vec![
            Message { message_type: "text".to_string(), text: "one".to_string(), emojis: None },
            Message { message_type: "text".to_string(), text: "two \"2\"".to_string(), emojis: Some(vec![]) },
        ],
    };
    assert_eq!(
        reply.to_json(),
        "{\"replyToken\":\"t\",\"messages\":[{\"type\":\"text\",\"text\":\"one\",\"emojis\":null},{\"type\":\"text\",\"text\":\"two \\\"2\\\"\",\"emojis\":[]}]}"
    );
    let empty = ResponseMessage { reply_token: "t".to_string(), messages: vec![] };
    assert_eq!(empty.to_json(), "{\"replyToken\":\"t\",\"messages\":[]}");
}

#[test]
fn emoji_lists_as_json() {
    let mut out = String::new();
    push_emojis_json(&mut out, &Some(vec![emoji(0, "p", "1"), emoji(12, "q", "2")]));
    assert_eq!(
        out,
        "[{\"index\":0,\"productId\":\"p\",\"emojiId\":\"1\"},{\"index\":12,\"productId\":\"q\",\"emojiId\":\"2\"}]"
    );
    let mut none = String::new();
    push_emojis_json(&mut none, &None);
    assert_eq!(none, "null");
}

#[test]
fn notification_body_reads_back_as_its_text() {
    let sender = LineSender::new("t".to_string());
    for text in ["", "a=b&c", "100% sure", "+ plus", "改行\nあり"] {
        let request = sender.request_for(&LineMessageKind::Version1(LineSendMessage { message: text.to_string() }));
        let pairs: Vec<(String, String)> = serde_urlencoded::from_str(&request.body).unwrap();
        assert_eq!(pairs, vec![("message".to_string(), text.to_string())]);
    }
}
