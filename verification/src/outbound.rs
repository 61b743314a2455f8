//! From the bus to the chat side: what an envelope on the reply topic is delivered
//! as, and the loop that takes bus messages one at a time.

use crate::chat_id::{lemma_render_then_parse, parse_chat_id, parse_spec};
use crate::config::{RelayConfig, RelayConfigView};
use crate::envelope::{
    message_type_name, same_text, BusEnvelope, EnvelopeView, MessageType,
    MODULE_INFO_TOPIC_REQUEST, MODULE_INFO_TOPIC_RESPONSE, MODULE_NAME, RESPONSE_TOPIC,
};
use crate::inbound::{inbound_envelope, ChatMessageView};
use crate::staging::StagingView;
use vstd::prelude::*;

verus! {

/// One message to be sent to a conversation on the chat side.
#[derive(Clone, Debug, PartialEq, Eq)]
pub enum ChatSend {
    /// A text message with body `text`.
    Text { chat_id: i64, text: String },
    /// A voice message whose content is `payload`.
    Voice { chat_id: i64, payload: String },
    /// An image message whose content is `payload`.
    Photo { chat_id: i64, payload: String },
}

/// The mathematical content of a [`ChatSend`].
pub enum ChatSendView {
    Text { chat_id: i64, text: Seq<char> },
    Voice { chat_id: i64, payload: Seq<char> },
    Photo { chat_id: i64, payload: Seq<char> },
}

impl View for ChatSend {
    type V = ChatSendView;

    open spec fn view(&self) -> ChatSendView {
        match self {
            ChatSend::Text { chat_id, text } => ChatSendView::Text {
                chat_id: *chat_id,
                text: text@,
            },
            ChatSend::Voice { chat_id, payload } => ChatSendView::Voice {
                chat_id: *chat_id,
                payload: payload@,
            },
            ChatSend::Photo { chat_id, payload } => ChatSendView::Photo {
                chat_id: *chat_id,
                payload: payload@,
            },
        }
    }
}

/// Why an envelope on the reply topic is not delivered.
#[derive(Clone, Debug, PartialEq, Eq)]
pub enum DeliveryError {
    /// The sender does not name a conversation.
    MalformedSender { sender: String },
    /// The relay does not deliver envelopes of this type.
    Unsupported { message_type: MessageType },
}

/// The mathematical content of a [`DeliveryError`].
pub enum DeliveryErrorView {
    MalformedSender { sender: Seq<char> },
    Unsupported { message_type: MessageType },
}

impl View for DeliveryError {
    type V = DeliveryErrorView;

    open spec fn view(&self) -> DeliveryErrorView {
        match self {
            DeliveryError::MalformedSender { sender } => DeliveryErrorView::MalformedSender {
                sender: sender@,
            },
            DeliveryError::Unsupported { message_type } => DeliveryErrorView::Unsupported {
                message_type: *message_type,
            },
        }
    }
}

/// What an envelope on the reply topic is delivered as.
///
/// The sender is read first: an envelope whose sender is not the decimal text of a
/// conversation identifier is not delivered, whatever its type. Text, audio and,
/// where photos are forwarded, photo envelopes go to that conversation; every
/// other type is unsupported.
pub open spec fn delivery_spec(envelope: EnvelopeView, forward_photos: bool) -> Result<
    ChatSendView,
    DeliveryErrorView,
> {
    match parse_spec(envelope.sender) {
        None => Err(DeliveryErrorView::MalformedSender { sender: envelope.sender }),
        Some(chat_id) => match envelope.message_type {
            MessageType::Text => Ok(ChatSendView::Text { chat_id, text: envelope.text }),
            MessageType::Audio => Ok(ChatSendView::Voice { chat_id, payload: envelope.text }),
            MessageType::Photo => if forward_photos {
                Ok(ChatSendView::Photo { chat_id, payload: envelope.text })
            } else {
                Err(DeliveryErrorView::Unsupported { message_type: MessageType::Photo })
            },
            MessageType::Unknown => Err(
                DeliveryErrorView::Unsupported { message_type: MessageType::Unknown },
            ),
            MessageType::ModuleInfo => Err(
                DeliveryErrorView::Unsupported { message_type: MessageType::ModuleInfo },
            ),
        },
    }
}

/// The mathematical content of a delivery result.
pub open spec fn delivery_view(result: Result<ChatSend, DeliveryError>) -> Result<
    ChatSendView,
    DeliveryErrorView,
> {
    match result {
        Ok(send) => Ok(send@),
        Err(error) => Err(error@),
    }
}

/// Translates an envelope from the reply topic into the message to send on the
/// chat side.
pub fn alfred_msg_to_telegram_msg(envelope: BusEnvelope, forward_photos: bool) -> (result: Result<
    ChatSend,
    DeliveryError,
>)
    ensures
        delivery_view(result) == delivery_spec(envelope@, forward_photos),
{
    let chat_id = match parse_chat_id(envelope.sender.as_str()) {
        Some(chat_id) => chat_id,
        None => {
            return Err(DeliveryError::MalformedSender { sender: envelope.sender });
        },
    };
    match envelope.message_type {
        MessageType::Text => Ok(ChatSend::Text { chat_id, text: envelope.text }),
        MessageType::Audio => Ok(ChatSend::Voice { chat_id, payload: envelope.text }),
        MessageType::Photo => {
            if forward_photos {
                Ok(ChatSend::Photo { chat_id, payload: envelope.text })
            } else {
                Err(DeliveryError::Unsupported { message_type: MessageType::Photo })
            }
        },
        MessageType::Unknown => Err(
            DeliveryError::Unsupported { message_type: MessageType::Unknown },
        ),
        MessageType::ModuleInfo => Err(
            DeliveryError::Unsupported { message_type: MessageType::ModuleInfo },
        ),
    }
}

/// What the relay tells about itself: its name, and the capabilities it was
/// configured with.
pub open spec fn module_info_spec(capabilities: Seq<(Seq<char>, Seq<char>)>) -> EnvelopeView {
    EnvelopeView {
        text: MODULE_NAME@,
        sender: Seq::empty(),
        message_type: MessageType::ModuleInfo,
        response_topics: Seq::empty(),
        params: capabilities,
    }
}

/// A copy of a list of key/value pairs.
fn copy_pairs(pairs: &Vec<(String, String)>) -> (copy: Vec<(String, String)>)
    ensures
        copy.deep_view() == pairs.deep_view(),
{
    let mut copy: Vec<(String, String)> = Vec::new();
    let mut at: usize = 0;
    while at < pairs.len()
        invariant
            at <= pairs.len(),
            copy.len() == at,
            forall|i: int| 0 <= i < at ==> (#[trigger] copy[i]).deep_view() == pairs[i].deep_view(),
        decreases pairs.len() - at,
    {
        let pair = &pairs[at];
        copy.push((pair.0.clone(), pair.1.clone()));
        at += 1;
    }
    assert(copy.deep_view() =~= pairs.deep_view());
    copy
}

/// Builds the envelope with which the relay identifies itself.
pub fn module_info(config: &RelayConfig) -> (envelope: BusEnvelope)
    ensures
        envelope@ == module_info_spec(config@.capabilities),
{
    let envelope = BusEnvelope {
        text: String::from_str(MODULE_NAME),
        sender: String::new(),
        message_type: MessageType::ModuleInfo,
        response_topics: Vec::new(),
        params: copy_pairs(&config.capabilities),
    };
    assert(envelope.response_topics.deep_view() =~= Seq::empty());
    envelope
}

/// Where the loop that serves the bus stands.
#[derive(Clone, Copy, Debug, PartialEq, Eq, Structural)]
pub enum OutboundState {
    /// Waiting for the next bus message.
    Idle,
    /// A message is on its way to the chat side.
    Dispatching,
}

/// What the loop is told.
#[derive(Clone, Debug, PartialEq, Eq)]
pub enum OutboundEvent {
    /// The bus handed over `envelope`, published on `topic`.
    Received { topic: String, envelope: BusEnvelope },
    /// The send that was under way has ended.
    SendFinished { delivered: bool },
}

/// The mathematical content of an [`OutboundEvent`].
pub enum OutboundEventView {
    Received { topic: Seq<char>, envelope: EnvelopeView },
    SendFinished { delivered: bool },
}

impl View for OutboundEvent {
    type V = OutboundEventView;

    open spec fn view(&self) -> OutboundEventView {
        match self {
            OutboundEvent::Received { topic, envelope } => OutboundEventView::Received {
                topic: topic@,
                envelope: envelope@,
            },
            OutboundEvent::SendFinished { delivered } => OutboundEventView::SendFinished {
                delivered: *delivered,
            },
        }
    }
}

/// Why the loop drops what it was handed.
#[derive(Clone, Debug, PartialEq, Eq)]
pub enum DiscardReason {
    /// The envelope came on the reply topic and cannot be delivered.
    Undeliverable(DeliveryError),
    /// The envelope came on a topic the relay does not serve.
    UnmanagedTopic { topic: String },
    /// The chat side refused or failed the send.
    SendFailed,
}

/// The mathematical content of a [`DiscardReason`].
pub enum DiscardReasonView {
    Undeliverable(DeliveryErrorView),
    UnmanagedTopic { topic: Seq<char> },
    SendFailed,
}

impl View for DiscardReason {
    type V = DiscardReasonView;

    open spec fn view(&self) -> DiscardReasonView {
        match self {
            DiscardReason::Undeliverable(error) => DiscardReasonView::Undeliverable(error@),
            DiscardReason::UnmanagedTopic { topic } => DiscardReasonView::UnmanagedTopic {
                topic: topic@,
            },
            DiscardReason::SendFailed => DiscardReasonView::SendFailed,
        }
    }
}

/// The warning to log for a dropped message.
pub open spec fn discard_line_spec(reason: DiscardReasonView) -> Seq<char> {
    match reason {
        DiscardReasonView::Undeliverable(DeliveryErrorView::MalformedSender { sender }) => {
            "Sender names no conversation: "@ + sender
        },
        DiscardReasonView::Undeliverable(DeliveryErrorView::Unsupported { message_type }) => {
            "Unsupported MessageType "@ + message_type_name(message_type)
        },
        DiscardReasonView::UnmanagedTopic { topic } => "Unmanaged topic "@ + topic,
        DiscardReasonView::SendFailed => "Message was not delivered"@,
    }
}

impl DiscardReason {
    /// The line to log for this reason.
    pub fn log_line(&self) -> (line: String)
        ensures
            line@ == discard_line_spec(self@),
    {
        match self {
            DiscardReason::Undeliverable(DeliveryError::MalformedSender { sender }) => {
                String::from_str("Sender names no conversation: ").concat(sender.as_str())
            },
            DiscardReason::Undeliverable(DeliveryError::Unsupported { message_type }) => {
                String::from_str("Unsupported MessageType ").concat(message_type.name())
            },
            DiscardReason::UnmanagedTopic { topic } => {
                String::from_str("Unmanaged topic ").concat(topic.as_str())
            },
            DiscardReason::SendFailed => String::from_str("Message was not delivered"),
        }
    }
}

/// What the caller of the loop is to do next.
#[derive(Clone, Debug, PartialEq, Eq)]
pub enum OutboundAction {
    /// Send the message to the chat side, then report how the send ended.
    Send(ChatSend),
    /// Publish `envelope` on `topic`.
    Publish { topic: String, envelope: BusEnvelope },
    /// Log a warning; the message is dropped.
    Discard(DiscardReason),
    /// A send is under way: hand the message in again once it has been reported.
    Defer,
    /// Nothing is to be done.
    Nothing,
}

/// The mathematical content of an [`OutboundAction`].
pub enum OutboundActionView {
    Send(ChatSendView),
    Publish { topic: Seq<char>, envelope: EnvelopeView },
    Discard(DiscardReasonView),
    Defer,
    Nothing,
}

impl View for OutboundAction {
    type V = OutboundActionView;

    open spec fn view(&self) -> OutboundActionView {
        match self {
            OutboundAction::Send(send) => OutboundActionView::Send(send@),
            OutboundAction::Publish { topic, envelope } => OutboundActionView::Publish {
                topic: topic@,
                envelope: envelope@,
            },
            OutboundAction::Discard(reason) => OutboundActionView::Discard(reason@),
            OutboundAction::Defer => OutboundActionView::Defer,
            OutboundAction::Nothing => OutboundActionView::Nothing,
        }
    }
}

/// The answer to a request for identification.
pub open spec fn announcement(config: RelayConfigView) -> OutboundActionView {
    OutboundActionView::Publish {
        topic: MODULE_INFO_TOPIC_RESPONSE@,
        envelope: module_info_spec(config.capabilities),
    }
}

/// What is done with a bus message that the idle loop takes up.
pub open spec fn received_action(
    topic: Seq<char>,
    envelope: EnvelopeView,
    config: RelayConfigView,
) -> OutboundActionView {
    if topic == MODULE_INFO_TOPIC_REQUEST@ {
        announcement(config)
    } else if topic == RESPONSE_TOPIC@ {
        match delivery_spec(envelope, config.forward_photos) {
            Ok(send) => OutboundActionView::Send(send),
            Err(error) => OutboundActionView::Discard(DiscardReasonView::Undeliverable(error)),
        }
    } else {
        OutboundActionView::Discard(DiscardReasonView::UnmanagedTopic { topic })
    }
}

/// One transition of the loop.
///
/// The idle loop takes up every message and is dispatching afterwards exactly
/// when there is something to send. A dispatching loop becomes idle when the
/// send is reported, however it ended. A request for identification is answered
/// in either state and leaves the state as it is. While dispatching, any other
/// message is deferred; a report that no send is waiting for is ignored.
pub open spec fn outbound_step_spec(
    state: OutboundState,
    event: OutboundEventView,
    config: RelayConfigView,
) -> (OutboundState, OutboundActionView) {
    match event {
        OutboundEventView::Received { topic, envelope } => {
            if topic == MODULE_INFO_TOPIC_REQUEST@ {
                (state, announcement(config))
            } else if state == OutboundState::Dispatching {
                (OutboundState::Dispatching, OutboundActionView::Defer)
            } else {
                let action = received_action(topic, envelope, config);
                if action is Send {
                    (OutboundState::Dispatching, action)
                } else {
                    (OutboundState::Idle, action)
                }
            }
        },
        OutboundEventView::SendFinished { delivered } => {
            if state == OutboundState::Dispatching && !delivered {
                (OutboundState::Idle, OutboundActionView::Discard(DiscardReasonView::SendFailed))
            } else {
                (OutboundState::Idle, OutboundActionView::Nothing)
            }
        },
    }
}

/// Advances the loop by one event and says what the caller is to do.
pub fn outbound_step(state: OutboundState, event: OutboundEvent, config: &RelayConfig) -> (next: (
    OutboundState,
    OutboundAction,
))
    ensures
        (next.0, next.1@) == outbound_step_spec(state, event@, config@),
{
    match event {
        OutboundEvent::Received { topic, envelope } => {
            if same_text(topic.as_str(), MODULE_INFO_TOPIC_REQUEST) {
                let announcement = OutboundAction::Publish {
                    topic: String::from_str(MODULE_INFO_TOPIC_RESPONSE),
                    envelope: module_info(config),
                };
                (state, announcement)
            } else if state == OutboundState::Dispatching {
                (OutboundState::Dispatching, OutboundAction::Defer)
            } else if same_text(topic.as_str(), RESPONSE_TOPIC) {
                match alfred_msg_to_telegram_msg(envelope, config.forward_photos) {
                    Ok(send) => (OutboundState::Dispatching, OutboundAction::Send(send)),
                    Err(error) => (
                        OutboundState::Idle,
                        OutboundAction::Discard(DiscardReason::Undeliverable(error)),
                    ),
                }
            } else {
                (
                    OutboundState::Idle,
                    OutboundAction::Discard(DiscardReason::UnmanagedTopic { topic }),
                )
            }
        },
        OutboundEvent::SendFinished { delivered } => {
            if state == OutboundState::Dispatching && !delivered {
                (OutboundState::Idle, OutboundAction::Discard(DiscardReason::SendFailed))
            } else {
                (OutboundState::Idle, OutboundAction::Nothing)
            }
        },
    }
}

/// The loop as its caller drives it: starting in `state`, the messages of
/// `received` are handed in one after the other, and where a message leads to a
/// send, the end of that send is reported before the next message is handed in.
/// `delivered[i]` says how the send for message `i` ends, if there is one.
/// The result is the state after the last message and, for every message, what
/// the loop decided on taking it up.
pub open spec fn serve(
    state: OutboundState,
    received: Seq<(Seq<char>, EnvelopeView)>,
    delivered: Seq<bool>,
    config: RelayConfigView,
) -> (OutboundState, Seq<OutboundActionView>)
    decreases received.len(),
{
    if received.len() == 0 {
        (state, Seq::empty())
    } else {
        let taken = outbound_step_spec(
            state,
            OutboundEventView::Received { topic: received[0].0, envelope: received[0].1 },
            config,
        );
        let settled = if taken.0 == OutboundState::Dispatching {
            outbound_step_spec(
                taken.0,
                OutboundEventView::SendFinished { delivered: delivered[0] },
                config,
            ).0
        } else {
            taken.0
        };
        let rest = serve(settled, received.drop_first(), delivered.drop_first(), config);
        (rest.0, seq![taken.1] + rest.1)
    }
}

/// A text envelope on the reply topic is sent to the conversation that its
/// sender names, with the text of the envelope as the body. When the sender names
/// no conversation, nothing is sent and the loop stays idle. Either way the loop
/// is idle again once the send, if any, has been reported, however it ended.
pub proof fn lemma_text_reply(envelope: EnvelopeView, delivered: bool, config: RelayConfigView)
    requires
        envelope.message_type == MessageType::Text,
    ensures
        ({
            let next = outbound_step_spec(
                OutboundState::Idle,
                OutboundEventView::Received { topic: RESPONSE_TOPIC@, envelope },
                config,
            );
            &&& parse_spec(envelope.sender) matches Some(chat_id) ==> next == (
                OutboundState::Dispatching,
                OutboundActionView::Send(ChatSendView::Text { chat_id, text: envelope.text }),
            )
            &&& parse_spec(envelope.sender) is None ==> next == (
                OutboundState::Idle,
                OutboundActionView::Discard(
                    DiscardReasonView::Undeliverable(
                        DeliveryErrorView::MalformedSender { sender: envelope.sender },
                    ),
                ),
            )
            &&& outbound_step_spec(
                next.0,
                OutboundEventView::SendFinished { delivered },
                config,
            ).0 == OutboundState::Idle
        }),
{
    lemma_reserved_topic_differs();
}

/// The topic for identification requests is not the reply topic.
pub proof fn lemma_reserved_topic_differs()
    ensures
        MODULE_INFO_TOPIC_REQUEST@ != RESPONSE_TOPIC@,
{
    reveal_strlit("module.info.request");
    reveal_strlit("telegram");
    assert(MODULE_INFO_TOPIC_REQUEST@.len() != RESPONSE_TOPIC@.len());
}

/// A request for identification is answered with the name of the relay, on the
/// topic for such answers, in whatever state the loop is and whatever the request
/// carries; the state of the loop is left as it was.
pub proof fn lemma_identification_answered(
    state: OutboundState,
    envelope: EnvelopeView,
    config: RelayConfigView,
)
    ensures
        ({
            let next = outbound_step_spec(
                state,
                OutboundEventView::Received { topic: MODULE_INFO_TOPIC_REQUEST@, envelope },
                config,
            );
            &&& next.0 == state
            &&& next.1 matches OutboundActionView::Publish { topic, envelope: answer }
            &&& topic == MODULE_INFO_TOPIC_RESPONSE@
            &&& answer.text == MODULE_NAME@
            &&& answer.message_type == MessageType::ModuleInfo
            &&& answer.params == config.capabilities
        }),
{
}

/// From every state, the loop is idle once the end of a send has been reported:
/// no message and no failed send leaves it unable to take up the next message.
pub proof fn lemma_report_returns_to_idle(
    state: OutboundState,
    delivered: bool,
    config: RelayConfigView,
)
    ensures
        outbound_step_spec(state, OutboundEventView::SendFinished { delivered }, config).0
            == OutboundState::Idle,
{
}

/// Bus messages are handled in the order they were received, each one on its
/// own. Driven from the idle state, the loop decides on every message what the
/// message and the settings alone determine, independent of the messages before
/// and after it and of how any send ended, and it is idle again after the last
/// message.
pub proof fn lemma_served_in_order(
    received: Seq<(Seq<char>, EnvelopeView)>,
    delivered: Seq<bool>,
    config: RelayConfigView,
)
    ensures
        serve(OutboundState::Idle, received, delivered, config).0 == OutboundState::Idle,
        serve(OutboundState::Idle, received, delivered, config).1.len() == received.len(),
        forall|i: int|
            0 <= i < received.len() ==> #[trigger] serve(
                OutboundState::Idle,
                received,
                delivered,
                config,
            ).1[i] == received_action(received[i].0, received[i].1, config),
        forall|i: int|
            0 <= i < received.len() ==> !(#[trigger] serve(
                OutboundState::Idle,
                received,
                delivered,
                config,
            ).1[i] is Defer),
    decreases received.len(),
{
    if received.len() > 0 {
        let rest = received.drop_first();
        lemma_served_in_order(rest, delivered.drop_first(), config);
        let run = serve(OutboundState::Idle, received, delivered, config);
        let tail = serve(OutboundState::Idle, rest, delivered.drop_first(), config);
        assert forall|i: int| 0 <= i < received.len() implies #[trigger] run.1[i]
            == received_action(received[i].0, received[i].1, config) by {
            if i > 0 {
                assert(run.1[i] == tail.1[i - 1]);
                assert(rest[i - 1] == received[i]);
            }
        }
    }
}

/// What the relay puts on the bus finds its way back. The envelope of an inbound
/// message names its conversation in a sender that parses to the identifier of
/// that conversation, and asks for replies on the reply topic; a text reply
/// that carries this sender on that topic is sent to the conversation the message
/// came from.
pub proof fn lemma_reply_reaches_origin(
    msg: ChatMessageView,
    staging: StagingView,
    reply: EnvelopeView,
    config: RelayConfigView,
)
    requires
        inbound_envelope(msg, staging) is Ok,
        reply.sender == inbound_envelope(msg, staging)->Ok_0.sender,
        reply.message_type == MessageType::Text,
    ensures
        parse_spec(inbound_envelope(msg, staging)->Ok_0.sender) == Some(msg.chat_id),
        inbound_envelope(msg, staging)->Ok_0.response_topics == seq![RESPONSE_TOPIC@],
        outbound_step_spec(
            OutboundState::Idle,
            OutboundEventView::Received { topic: RESPONSE_TOPIC@, envelope: reply },
            config,
        ) == (
            OutboundState::Dispatching,
            OutboundActionView::Send(
                ChatSendView::Text { chat_id: msg.chat_id, text: reply.text },
            ),
        ),
{
    lemma_render_then_parse(msg.chat_id);
    lemma_reserved_topic_differs();
}

} // verus!
