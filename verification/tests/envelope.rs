use telegram_relay::envelope::{
    new_callback_msg, same_text, MessageType, MODULE_INFO_TOPIC_REQUEST,
    MODULE_INFO_TOPIC_RESPONSE, MODULE_NAME, NEW_INCOMING_MESSAGE_TOPIC, RESPONSE_TOPIC,
};

#[test]
fn callback_msg_keeps_its_parts() {
    let envelope = new_callback_msg("hello".to_string(), "42".to_string(), MessageType::Text);
    assert_eq!(envelope.text, "hello");
    assert_eq!(envelope.sender, "42");
    assert_eq!(envelope.message_type, MessageType::Text);
}

#[test]
fn callback_msg_asks_for_replies_on_the_reply_topic() {
    let envelope = new_callback_msg("x".to_string(), "1".to_string(), MessageType::Audio);
    assert_eq!(envelope.response_topics, vec!["telegram".to_string()]);
    assert!(envelope.params.is_empty());
    assert_eq!(envelope.message_type, MessageType::Audio);
}

#[test]
fn callback_msg_accepts_empty_text() {
    let envelope = new_callback_msg(String::new(), "-7".to_string(), MessageType::Text);
    assert_eq!(envelope.text, "");
    assert_eq!(envelope.sender, "-7");
    assert_eq!(envelope.response_topics.len(), 1);
}

#[test]
fn bus_names() {
    assert_eq!(MODULE_NAME, "telegram");
    assert_eq!(RESPONSE_TOPIC, "telegram");
    assert_eq!(NEW_INCOMING_MESSAGE_TOPIC, "new_incoming_message");
    assert_eq!(MODULE_INFO_TOPIC_REQUEST, "module.info.request");
    assert_eq!(MODULE_INFO_TOPIC_RESPONSE, "module.info.response");
}

#[test]
fn same_text_compares_character_by_character() {
    assert!(same_text("", ""));
    assert!(same_text("telegram", "telegram"));
    assert!(same_text("héllo ✓", "héllo ✓"));
    assert!(!same_text("telegram", "telegra"));
    assert!(!same_text("telegra", "telegram"));
    assert!(!same_text("telegram", "telegrax"));
    assert!(!same_text("", "a"));
    assert!(!same_text("a", ""));
    assert!(!same_text("Telegram", "telegram"));
}

#[test]
fn message_type_names() {
    assert_eq!(MessageType::Text.name(), "Text");
    assert_eq!(MessageType::Audio.name(), "Audio");
    assert_eq!(MessageType::Photo.name(), "Photo");
    assert_eq!(MessageType::Unknown.name(), "Unknown");
    assert_eq!(MessageType::ModuleInfo.name(), "ModuleInfo");
}
