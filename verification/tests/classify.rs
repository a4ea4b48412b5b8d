use gray_mirror::classify::{classify, ClassifyError, LinkParse};
use gray_mirror::text::{contains_sub, parse_i32, str_eq};
use gray_mirror::types::{Source, SourceType};

fn src() -> Source {
    Source { ty: SourceType::Manual, id: -1 }
}

#[test]
fn classify_chat_message_reference() {
    let raw = String::from("https://t.me/examplechan/42");
    match classify(&raw, src()) {
        Ok(LinkParse::ChatMessage(cm)) => {
            assert_eq!(cm.username, "examplechan");
            assert_eq!(cm.msg_id, 42);
            assert_eq!(cm.source, src());
        }
        other => panic!("expected a chat message, got {:?}", other),
    }
}

#[test]
fn classify_invite_reference() {
    let raw = String::from("https://t.me/+AbCdEf012345");
    match classify(&raw, src()) {
        Ok(LinkParse::Invite(inv)) => {
            assert_eq!(inv.invite_code, "+AbCdEf012345");
            assert_eq!(inv.invite_link, "https://t.me/+AbCdEf012345");
        }
        other => panic!("expected an invite, got {:?}", other),
    }
}

#[test]
fn classify_maybe_channel_reference() {
    let raw = String::from("https://t.me/examplechan");
    match classify(&raw, src()) {
        Ok(LinkParse::MaybeChannel(mc)) => {
            assert_eq!(mc.username, "examplechan");
        }
        other => panic!("expected a channel candidate, got {:?}", other),
    }
}

#[test]
fn classify_malformed_inputs_are_errors_never_panics() {
    let cases = [
        "not a url at all",
        "mailto:user@example.com",
        "https://t.me//42",
        "https://t.me/examplechan/notanumber",
        "",
        "://missing",
    ];
    for c in cases {
        let raw = String::from(c);
        assert!(classify(&raw, src()).is_err(), "{} should not classify", c);
    }
}

#[test]
fn classify_error_kinds() {
    let not_url = String::from("definitely not a url");
    assert!(matches!(classify(&not_url, src()), Err(ClassifyError::NotAUrl)));

    let empty_first = String::from("https://t.me//42");
    assert!(matches!(classify(&empty_first, src()), Err(ClassifyError::EmptyName)));

    let bad_number = String::from("https://t.me/chan/12abc");
    assert!(matches!(classify(&bad_number, src()), Err(ClassifyError::NotItemNumber)));
}

#[test]
fn classify_extra_segments_ignored() {
    let raw = String::from("https://t.me/chan/42/extra/bits");
    match classify(&raw, src()) {
        Ok(LinkParse::ChatMessage(cm)) => {
            assert_eq!(cm.username, "chan");
            assert_eq!(cm.msg_id, 42);
        }
        other => panic!("expected a chat message, got {:?}", other),
    }
}

#[test]
fn classify_negative_item_number() {
    let raw = String::from("https://t.me/chan/-5");
    match classify(&raw, src()) {
        Ok(LinkParse::ChatMessage(cm)) => assert_eq!(cm.msg_id, -5),
        other => panic!("expected a chat message, got {:?}", other),
    }
}

#[test]
fn link_parse_source_accessor() {
    let raw = String::from("https://t.me/chan/1");
    let parsed = classify(&raw, src()).unwrap();
    assert_eq!(parsed.source(), src());
}

#[test]
fn parse_i32_accepts_plain_and_signed() {
    assert_eq!(parse_i32("42"), Some(42));
    assert_eq!(parse_i32("+42"), Some(42));
    assert_eq!(parse_i32("-42"), Some(-42));
    assert_eq!(parse_i32("0"), Some(0));
    assert_eq!(parse_i32("2147483647"), Some(2147483647));
    assert_eq!(parse_i32("-2147483648"), Some(-2147483648));
}

#[test]
fn parse_i32_rejects_malformed_and_overflow() {
    assert_eq!(parse_i32(""), None);
    assert_eq!(parse_i32("-"), None);
    assert_eq!(parse_i32("+"), None);
    assert_eq!(parse_i32("4a2"), None);
    assert_eq!(parse_i32(" 42"), None);
    assert_eq!(parse_i32("2147483648"), None);
    assert_eq!(parse_i32("-2147483649"), None);
    assert_eq!(parse_i32("99999999999999999999999999"), None);
}

#[test]
fn text_helpers() {
    assert!(str_eq("abc", "abc"));
    assert!(!str_eq("abc", "abd"));
    assert!(!str_eq("abc", "abcd"));
    assert!(contains_sub("hello world", "lo wo"));
    assert!(contains_sub("hello", ""));
    assert!(contains_sub("", ""));
    assert!(!contains_sub("hello", "hello!"));
    assert!(contains_sub("关键词：园区", "园区"));
}
