use telegram_relay::config::RelayConfig;
use telegram_relay::envelope::{BusEnvelope, MessageType};
use telegram_relay::inbound::{telegram_msg_to_alfred_msg, ChatMessage};
use telegram_relay::outbound::{
    alfred_msg_to_telegram_msg, module_info, outbound_step, ChatSend, DeliveryError, DiscardReason,
    OutboundAction, OutboundEvent, OutboundState,
};
use telegram_relay::staging::Staging;

fn envelope(text: &str, sender: &str, message_type: MessageType) -> BusEnvelope {
    BusEnvelope {
        text: text.to_string(),
        sender: sender.to_string(),
        message_type,
        response_topics: Vec::new(),
        params: Vec::new(),
    }
}

fn received(topic: &str, envelope: BusEnvelope) -> OutboundEvent {
    OutboundEvent::Received { topic: topic.to_string(), envelope }
}

fn malformed(sender: &str) -> DeliveryError {
    DeliveryError::MalformedSender { sender: sender.to_string() }
}

#[test]
fn text_envelope_is_sent_as_text() {
    let send = alfred_msg_to_telegram_msg(envelope("hello", "42", MessageType::Text), true);
    assert_eq!(send, Ok(ChatSend::Text { chat_id: 42, text: "hello".to_string() }));
}

#[test]
fn audio_envelope_is_sent_as_voice() {
    let send = alfred_msg_to_telegram_msg(envelope("/tmp/a.ogg", "-100", MessageType::Audio), true);
    assert_eq!(send, Ok(ChatSend::Voice { chat_id: -100, payload: "/tmp/a.ogg".to_string() }));
}

#[test]
fn photo_envelope_is_sent_as_photo_when_forwarded() {
    let send = alfred_msg_to_telegram_msg(envelope("png", "3", MessageType::Photo), true);
    assert_eq!(send, Ok(ChatSend::Photo { chat_id: 3, payload: "png".to_string() }));
}

#[test]
fn photo_envelope_is_unsupported_when_not_forwarded() {
    let send = alfred_msg_to_telegram_msg(envelope("png", "3", MessageType::Photo), false);
    assert_eq!(send, Err(DeliveryError::Unsupported { message_type: MessageType::Photo }));
}

#[test]
fn unknown_and_module_info_are_unsupported() {
    for message_type in [MessageType::Unknown, MessageType::ModuleInfo] {
        for forward_photos in [true, false] {
            let send = alfred_msg_to_telegram_msg(envelope("x", "3", message_type), forward_photos);
            assert_eq!(send, Err(DeliveryError::Unsupported { message_type }));
        }
    }
}

#[test]
fn malformed_sender_is_never_delivered() {
    for sender in ["", "abc", "12x", "4 2", "9223372036854775808"] {
        for message_type in [
            MessageType::Text,
            MessageType::Audio,
            MessageType::Photo,
            MessageType::Unknown,
            MessageType::ModuleInfo,
        ] {
            let send = alfred_msg_to_telegram_msg(envelope("x", sender, message_type), true);
            assert_eq!(send, Err(malformed(sender)));
        }
    }
}

#[test]
fn module_info_carries_name_and_capabilities() {
    let mut config = RelayConfig::new(None);
    config.capabilities = vec![
        ("event".to_string(), "telegram".to_string()),
        ("voice".to_string(), "ogg".to_string()),
    ];
    let info = module_info(&config);
    assert_eq!(info.text, "telegram");
    assert_eq!(info.message_type, MessageType::ModuleInfo);
    assert_eq!(info.sender, "");
    assert!(info.response_topics.is_empty());
    assert_eq!(info.params, config.capabilities);
}

#[test]
fn reply_topic_text_is_dispatched() {
    let config = RelayConfig::new(None);
    let (state, action) = outbound_step(
        OutboundState::Idle,
        received("telegram", envelope("hello", "42", MessageType::Text)),
        &config,
    );
    assert_eq!(state, OutboundState::Dispatching);
    assert_eq!(action, OutboundAction::Send(ChatSend::Text { chat_id: 42, text: "hello".to_string() }));
    let (state, action) =
        outbound_step(state, OutboundEvent::SendFinished { delivered: true }, &config);
    assert_eq!(state, OutboundState::Idle);
    assert_eq!(action, OutboundAction::Nothing);
}

#[test]
fn reply_with_malformed_sender_is_dropped_and_the_loop_goes_on() {
    let config = RelayConfig::new(None);
    let (state, action) = outbound_step(
        OutboundState::Idle,
        received("telegram", envelope("hello", "not-a-chat", MessageType::Text)),
        &config,
    );
    assert_eq!(state, OutboundState::Idle);
    assert_eq!(action, OutboundAction::Discard(DiscardReason::Undeliverable(malformed("not-a-chat"))));
    let (state, action) = outbound_step(
        state,
        received("telegram", envelope("again", "42", MessageType::Text)),
        &config,
    );
    assert_eq!(state, OutboundState::Dispatching);
    assert_eq!(action, OutboundAction::Send(ChatSend::Text { chat_id: 42, text: "again".to_string() }));
}

#[test]
fn unsupported_type_is_dropped() {
    let config = RelayConfig::new(None);
    let (state, action) = outbound_step(
        OutboundState::Idle,
        received("telegram", envelope("x", "42", MessageType::Unknown)),
        &config,
    );
    assert_eq!(state, OutboundState::Idle);
    assert_eq!(
        action,
        OutboundAction::Discard(DiscardReason::Undeliverable(DeliveryError::Unsupported {
            message_type: MessageType::Unknown
        }))
    );
}

#[test]
fn photo_follows_the_configuration() {
    let mut config = RelayConfig::new(None);
    let (state, action) = outbound_step(
        OutboundState::Idle,
        received("telegram", envelope("img", "8", MessageType::Photo)),
        &config,
    );
    assert_eq!(state, OutboundState::Dispatching);
    assert_eq!(action, OutboundAction::Send(ChatSend::Photo { chat_id: 8, payload: "img".to_string() }));
    config.forward_photos = false;
    let (state, action) = outbound_step(
        OutboundState::Idle,
        received("telegram", envelope("img", "8", MessageType::Photo)),
        &config,
    );
    assert_eq!(state, OutboundState::Idle);
    assert_eq!(
        action,
        OutboundAction::Discard(DiscardReason::Undeliverable(DeliveryError::Unsupported {
            message_type: MessageType::Photo
        }))
    );
}

#[test]
fn unmanaged_topic_is_dropped() {
    let config = RelayConfig::new(None);
    let (state, action) = outbound_step(
        OutboundState::Idle,
        received("weather", envelope("sunny", "42", MessageType::Text)),
        &config,
    );
    assert_eq!(state, OutboundState::Idle);
    assert_eq!(
        action,
        OutboundAction::Discard(DiscardReason::UnmanagedTopic { topic: "weather".to_string() })
    );
}

#[test]
fn failed_send_is_logged_and_the_loop_is_idle_again() {
    let config = RelayConfig::new(None);
    let (state, _) = outbound_step(
        OutboundState::Idle,
        received("telegram", envelope("a", "1", MessageType::Audio)),
        &config,
    );
    assert_eq!(state, OutboundState::Dispatching);
    let (state, action) =
        outbound_step(state, OutboundEvent::SendFinished { delivered: false }, &config);
    assert_eq!(state, OutboundState::Idle);
    assert_eq!(action, OutboundAction::Discard(DiscardReason::SendFailed));
}

#[test]
fn module_info_request_is_answered_in_every_state() {
    let mut config = RelayConfig::new(Some("cb".to_string()));
    config.capabilities = vec![("event".to_string(), "telegram".to_string())];
    for state in [OutboundState::Idle, OutboundState::Dispatching] {
        let (next, action) = outbound_step(
            state,
            received("module.info.request", envelope("", "", MessageType::Unknown)),
            &config,
        );
        assert_eq!(next, state);
        match action {
            OutboundAction::Publish { topic, envelope } => {
                assert_eq!(topic, "module.info.response");
                assert_eq!(envelope.text, "telegram");
                assert_eq!(envelope.message_type, MessageType::ModuleInfo);
                assert_eq!(envelope.params, config.capabilities);
            }
            other => panic!("expected an announcement, got {other:?}"),
        }
    }
}

#[test]
fn message_during_a_send_is_deferred() {
    let config = RelayConfig::new(None);
    for topic in ["telegram", "weather"] {
        let (state, action) = outbound_step(
            OutboundState::Dispatching,
            received(topic, envelope("b", "2", MessageType::Text)),
            &config,
        );
        assert_eq!(state, OutboundState::Dispatching);
        assert_eq!(action, OutboundAction::Defer);
    }
}

#[test]
fn report_without_a_send_is_ignored() {
    let config = RelayConfig::new(None);
    for delivered in [true, false] {
        let (state, action) =
            outbound_step(OutboundState::Idle, OutboundEvent::SendFinished { delivered }, &config);
        assert_eq!(state, OutboundState::Idle);
        assert_eq!(action, OutboundAction::Nothing);
    }
}

#[test]
fn replies_are_sent_in_the_order_received() {
    let config = RelayConfig::new(None);
    let inbox = vec![
        ("telegram", envelope("m1", "100", MessageType::Text), false),
        ("telegram", envelope("bad", "nobody", MessageType::Text), true),
        ("other", envelope("noise", "100", MessageType::Text), true),
        ("telegram", envelope("m2", "200", MessageType::Text), true),
        ("telegram", envelope("m3", "100", MessageType::Audio), true),
    ];
    let mut state = OutboundState::Idle;
    let mut sent = Vec::new();
    for (topic, envelope, delivered) in inbox {
        let (next, action) = outbound_step(state, received(topic, envelope), &config);
        state = next;
        if let OutboundAction::Send(send) = action {
            sent.push(send);
            let (next, _) = outbound_step(state, OutboundEvent::SendFinished { delivered }, &config);
            state = next;
        }
        assert_eq!(state, OutboundState::Idle);
    }
    assert_eq!(
        sent,
        vec![
            ChatSend::Text { chat_id: 100, text: "m1".to_string() },
            ChatSend::Text { chat_id: 200, text: "m2".to_string() },
            ChatSend::Voice { chat_id: 100, payload: "m3".to_string() },
        ]
    );
}

#[test]
fn reply_to_an_inbound_message_reaches_its_conversation() {
    let config = RelayConfig::new(None);
    let msg = ChatMessage { chat_id: -1001234567890, text: Some("ping".to_string()), voice: None };
    let inbound = telegram_msg_to_alfred_msg(msg, Staging::Skipped).unwrap();
    let reply = envelope("pong", &inbound.sender, MessageType::Text);
    let topic = inbound.response_topics[0].clone();
    let (state, action) = outbound_step(OutboundState::Idle, received(&topic, reply), &config);
    assert_eq!(state, OutboundState::Dispatching);
    assert_eq!(
        action,
        OutboundAction::Send(ChatSend::Text { chat_id: -1001234567890, text: "pong".to_string() })
    );
}

#[test]
fn discard_reasons_have_log_lines() {
    assert_eq!(
        DiscardReason::Undeliverable(malformed("not-a-chat")).log_line(),
        "Sender names no conversation: not-a-chat"
    );
    assert_eq!(
        DiscardReason::Undeliverable(DeliveryError::Unsupported {
            message_type: MessageType::ModuleInfo
        })
        .log_line(),
        "Unsupported MessageType ModuleInfo"
    );
    assert_eq!(
        DiscardReason::UnmanagedTopic { topic: "weather".to_string() }.log_line(),
        "Unmanaged topic weather"
    );
    assert_eq!(DiscardReason::SendFailed.log_line(), "Message was not delivered");
}
