use tataku::chat::{ChatChannel, ChatMessage};

#[test]
fn channel_from_name_with_hash_is_channel() {
    let c = ChatChannel::from_name("#general".to_string());
    assert_eq!(c, ChatChannel::Channel { name: "#general".to_string() });
    assert_eq!(c.get_name(), "##general");
}

#[test]
fn channel_from_name_without_hash_is_user() {
    let c = ChatChannel::from_name("bob".to_string());
    assert_eq!(c, ChatChannel::User { username: "bob".to_string() });
    assert_eq!(c.get_name(), "bob");
}

#[test]
fn message_formatting() {
    let m = ChatMessage::new_at(
        "alice".to_string(),
        ChatChannel::User { username: "bob".to_string() },
        3,
        "hi".to_string(),
        (13 * 3_600_000 + 5 * 60_000) as u64,
    );
    assert_eq!(m.format_time(), "13:05");
    assert_eq!(m.get_formatted_text(), "13:05 alice: hi");
}
