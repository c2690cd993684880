use mail_to_telegram::json::{json_text_payload, u64_to_dec_string};
use mail_to_telegram::telegram::TelegramSendMessage;

#[test]
fn decimal_formatting() {
    assert_eq!(u64_to_dec_string(0), "0");
    assert_eq!(u64_to_dec_string(5), "5");
    assert_eq!(u64_to_dec_string(10), "10");
    assert_eq!(u64_to_dec_string(4096), "4096");
    assert_eq!(u64_to_dec_string(u64::MAX), "18446744073709551615");
}

#[test]
fn plain_payload() {
    assert_eq!(
        json_text_payload(5, "hello world"),
        "{\"chat_id\":5,\"text\":\"hello world\"}"
    );
}

#[test]
fn escaped_payload() {
    assert_eq!(
        json_text_payload(1, "a\"b\\c\nd"),
        "{\"chat_id\":1,\"text\":\"a\\\"b\\\\c\\nd\"}"
    );
    assert_eq!(
        json_text_payload(1, "\u{1}\u{1f}"),
        "{\"chat_id\":1,\"text\":\"\\u0001\\u001f\"}"
    );
}

#[test]
fn send_message_payload() {
    let msg = TelegramSendMessage::new(77, "hi".to_string());
    assert_eq!(msg.chat_id, 77);
    assert_eq!(msg.to_json(), "{\"chat_id\":77,\"text\":\"hi\"}");
}

#[test]
fn payload_matches_serde_json() {
    let texts = [
        "hello world",
        "",
        "quote \" backslash \\ slash / newline \n tab \t cr \r",
        "backspace \u{8} formfeed \u{c} bell \u{7} unit \u{1f} del \u{7f}",
        "unicode snowman \u{2603} umlaut \u{fc} emoji \u{1f600}",
    ];
    for t in texts {
        let mut m = serde_json::Map::new();
        m.insert("chat_id".to_string(), serde_json::Value::from(99u64));
        m.insert("text".to_string(), serde_json::Value::from(t));
        let expected = serde_json::to_string(&serde_json::Value::Object(m)).unwrap();
        assert_eq!(json_text_payload(99, t), expected);
    }
}
