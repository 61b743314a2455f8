//! From the chat side to the bus: the envelope for an inbound chat message and
//! the topics it is published on.

use crate::chat_id::{render_chat_id, render_spec};
use crate::config::{RelayConfig, RelayConfigView};
use crate::envelope::{
    callback_envelope, new_callback_msg, BusEnvelope, EnvelopeView, MessageType, MODULE_NAME,
    NEW_INCOMING_MESSAGE_TOPIC, RESPONSE_TOPIC,
};
use crate::staging::{
    first_failure, staging_path_spec, staging_run, Staging, StagingFailure, StagingFailureView,
    StagingStage, StagingView,
};
use vstd::prelude::*;

verus! {

/// What the relay reads of one inbound chat message.
#[derive(Clone, Debug, PartialEq, Eq)]
pub struct ChatMessage {
    /// The conversation the message arrived in.
    pub chat_id: i64,
    /// The text body, if the message has one.
    pub text: Option<String>,
    /// The remote file identifier of the voice attachment, if the message has one.
    pub voice: Option<String>,
}

/// The mathematical content of a [`ChatMessage`].
pub struct ChatMessageView {
    pub chat_id: i64,
    pub text: Option<Seq<char>>,
    pub voice: Option<Seq<char>>,
}

impl View for ChatMessage {
    type V = ChatMessageView;

    open spec fn view(&self) -> ChatMessageView {
        ChatMessageView {
            chat_id: self.chat_id,
            text: self.text.deep_view(),
            voice: self.voice.deep_view(),
        }
    }
}

/// Why an inbound message is dropped instead of published.
#[derive(Clone, Debug, PartialEq, Eq)]
pub enum InboundError {
    /// Staging the voice attachment was attempted and failed.
    StagingFailed { chat_id: i64, file_id: String, failure: StagingFailure },
    /// The message has a voice attachment, but no staged file for it was handed in.
    NotStaged { chat_id: i64, file_id: String },
}

/// The mathematical content of an [`InboundError`].
pub enum InboundErrorView {
    StagingFailed { chat_id: i64, file_id: Seq<char>, failure: StagingFailureView },
    NotStaged { chat_id: i64, file_id: Seq<char> },
}

impl View for InboundError {
    type V = InboundErrorView;

    open spec fn view(&self) -> InboundErrorView {
        match self {
            InboundError::StagingFailed { chat_id, file_id, failure } => {
                InboundErrorView::StagingFailed {
                    chat_id: *chat_id,
                    file_id: file_id@,
                    failure: failure@,
                }
            },
            InboundError::NotStaged { chat_id, file_id } => InboundErrorView::NotStaged {
                chat_id: *chat_id,
                file_id: file_id@,
            },
        }
    }
}

/// The text of a message body that may be absent.
pub open spec fn body_or_empty(text: Option<Seq<char>>) -> Seq<char> {
    match text {
        Some(body) => body,
        None => Seq::empty(),
    }
}

/// The envelope for an inbound chat message, given how staging ended.
///
/// A message without a voice attachment becomes a text envelope with its body
/// (empty when it has none), whatever `staging` says. A message with a voice
/// attachment becomes an audio envelope whose text is the path of the staged
/// file, provided the staged file is the one of this message; otherwise there
/// is no envelope.
pub open spec fn inbound_envelope(msg: ChatMessageView, staging: StagingView) -> Result<
    EnvelopeView,
    InboundErrorView,
> {
    let sender = render_spec(msg.chat_id as int);
    match msg.voice {
        None => Ok(callback_envelope(body_or_empty(msg.text), sender, MessageType::Text)),
        Some(file_id) => match staging {
            StagingView::Stored(attachment) => if attachment.file_id == file_id {
                Ok(callback_envelope(attachment.path(), sender, MessageType::Audio))
            } else {
                Err(InboundErrorView::NotStaged { chat_id: msg.chat_id, file_id })
            },
            StagingView::Failed(failure) => Err(
                InboundErrorView::StagingFailed { chat_id: msg.chat_id, file_id, failure },
            ),
            StagingView::Skipped => Err(
                InboundErrorView::NotStaged { chat_id: msg.chat_id, file_id },
            ),
        },
    }
}

/// The mathematical content of a translation result.
pub open spec fn translation_view(result: Result<BusEnvelope, InboundError>) -> Result<
    EnvelopeView,
    InboundErrorView,
> {
    match result {
        Ok(envelope) => Ok(envelope@),
        Err(error) => Err(error@),
    }
}

/// Translates an inbound chat message into the envelope that is published for it.
///
/// `staging` reports what became of the message's voice attachment; it is not
/// read when the message has none.
pub fn telegram_msg_to_alfred_msg(msg: ChatMessage, staging: Staging) -> (result: Result<
    BusEnvelope,
    InboundError,
>)
    ensures
        translation_view(result) == inbound_envelope(msg@, staging@),
{
    let sender = render_chat_id(msg.chat_id);
    match msg.voice {
        None => {
            let text = match msg.text {
                Some(body) => body,
                None => String::new(),
            };
            Ok(new_callback_msg(text, sender, MessageType::Text))
        },
        Some(file_id) => match staging {
            Staging::Stored(attachment) => {
                if *attachment.file_id() == file_id {
                    Ok(new_callback_msg(attachment.path(), sender, MessageType::Audio))
                } else {
                    Err(InboundError::NotStaged { chat_id: msg.chat_id, file_id })
                }
            },
            Staging::Failed(failure) => Err(
                InboundError::StagingFailed { chat_id: msg.chat_id, file_id, failure },
            ),
            Staging::Skipped => Err(InboundError::NotStaged { chat_id: msg.chat_id, file_id }),
        },
    }
}

/// Where an envelope is published.
#[derive(Clone, Debug, PartialEq, Eq)]
pub enum PublishTarget {
    /// As the event `event` of the module `publisher`.
    Event { publisher: String, event: String },
    /// On the topic `topic` as it is.
    Topic { topic: String },
}

/// The mathematical content of a [`PublishTarget`].
pub enum PublishTargetView {
    Event { publisher: Seq<char>, event: Seq<char> },
    Topic { topic: Seq<char> },
}

impl View for PublishTarget {
    type V = PublishTargetView;

    open spec fn view(&self) -> PublishTargetView {
        match self {
            PublishTarget::Event { publisher, event } => PublishTargetView::Event {
                publisher: publisher@,
                event: event@,
            },
            PublishTarget::Topic { topic } => PublishTargetView::Topic { topic: topic@ },
        }
    }
}

/// The mathematical content of a list of targets.
pub open spec fn targets_view(targets: Seq<PublishTarget>) -> Seq<PublishTargetView> {
    targets.map_values(|target: PublishTarget| target@)
}

/// The event that announces an inbound chat message.
pub open spec fn incoming_event() -> PublishTargetView {
    PublishTargetView::Event { publisher: MODULE_NAME@, event: NEW_INCOMING_MESSAGE_TOPIC@ }
}

/// The targets of an inbound message, in the order they are published: first the
/// event, then the callback topic when one is configured.
pub open spec fn publish_targets_spec(callback_topic: Option<Seq<char>>) -> Seq<
    PublishTargetView,
> {
    match callback_topic {
        Some(topic) => seq![incoming_event(), PublishTargetView::Topic { topic }],
        None => seq![incoming_event()],
    }
}

/// Lists where the envelope of an inbound message is published.
///
/// Every target is to be attempted, in order, whether or not an earlier one
/// failed.
pub fn publish_targets(config: &RelayConfig) -> (targets: Vec<PublishTarget>)
    ensures
        targets_view(targets@) == publish_targets_spec(config@.callback_topic),
{
    let mut targets: Vec<PublishTarget> = Vec::new();
    targets.push(
        PublishTarget::Event {
            publisher: String::from_str(MODULE_NAME),
            event: String::from_str(NEW_INCOMING_MESSAGE_TOPIC),
        },
    );
    match &config.callback_topic {
        Some(topic) => {
            targets.push(PublishTarget::Topic { topic: topic.clone() });
        },
        None => {},
    }
    assert(targets_view(targets@) =~= publish_targets_spec(config@.callback_topic));
    targets
}

/// What is to be done with one inbound chat message.
#[derive(Clone, Debug, PartialEq, Eq)]
pub enum InboundOutcome {
    /// Publish `envelope` on each of `targets`.
    Publish { envelope: BusEnvelope, targets: Vec<PublishTarget> },
    /// Publish nothing, and log why.
    Discard { error: InboundError },
}

/// The mathematical content of an [`InboundOutcome`].
pub enum InboundOutcomeView {
    Publish { envelope: EnvelopeView, targets: Seq<PublishTargetView> },
    Discard { error: InboundErrorView },
}

impl View for InboundOutcome {
    type V = InboundOutcomeView;

    open spec fn view(&self) -> InboundOutcomeView {
        match self {
            InboundOutcome::Publish { envelope, targets } => InboundOutcomeView::Publish {
                envelope: envelope@,
                targets: targets_view(targets@),
            },
            InboundOutcome::Discard { error } => InboundOutcomeView::Discard { error: error@ },
        }
    }
}

/// What is done with an inbound chat message: its envelope goes to every target,
/// or, when there is no envelope, nothing is published at all.
pub open spec fn inbound_outcome(
    msg: ChatMessageView,
    staging: StagingView,
    config: RelayConfigView,
) -> InboundOutcomeView {
    match inbound_envelope(msg, staging) {
        Ok(envelope) => InboundOutcomeView::Publish {
            envelope,
            targets: publish_targets_spec(config.callback_topic),
        },
        Err(error) => InboundOutcomeView::Discard { error },
    }
}

/// Decides what is done with one inbound chat message, once staging has ended.
pub fn handle_chat_message(msg: ChatMessage, staging: Staging, config: &RelayConfig) -> (outcome:
    InboundOutcome)
    ensures
        outcome@ == inbound_outcome(msg@, staging@, config@),
{
    match telegram_msg_to_alfred_msg(msg, staging) {
        Ok(envelope) => InboundOutcome::Publish { envelope, targets: publish_targets(config) },
        Err(error) => InboundOutcome::Discard { error },
    }
}

/// The word for a staging step in a log line.
pub open spec fn stage_name(stage: StagingStage) -> Seq<char> {
    match stage {
        StagingStage::Resolution => "resolution"@,
        StagingStage::Creation => "creation"@,
        StagingStage::Streaming => "streaming"@,
    }
}

/// The log line for a dropped inbound message. It names the conversation and
/// the remote file, so that the drop can be traced.
pub open spec fn log_line_spec(error: InboundErrorView) -> Seq<char> {
    match error {
        InboundErrorView::StagingFailed { chat_id, file_id, failure } => "conversation "@
            + render_spec(chat_id as int) + ": staging voice file "@ + file_id + " failed at "@
            + stage_name(failure.stage) + ": "@ + failure.detail,
        InboundErrorView::NotStaged { chat_id, file_id } => "conversation "@ + render_spec(
            chat_id as int,
        ) + ": voice file "@ + file_id + " was not staged"@,
    }
}

/// Whether `part` occurs in `line` as a run of consecutive characters.
pub open spec fn mentions(line: Seq<char>, part: Seq<char>) -> bool {
    exists|at: int|
        0 <= at && at + part.len() <= line.len() && #[trigger] line.subrange(
            at,
            at + part.len(),
        ) == part
}

impl InboundError {
    /// The conversation whose message was dropped.
    pub fn chat_id(&self) -> (chat_id: i64)
        ensures
            chat_id == match self@ {
                InboundErrorView::StagingFailed { chat_id, .. } => chat_id,
                InboundErrorView::NotStaged { chat_id, .. } => chat_id,
            },
    {
        match self {
            InboundError::StagingFailed { chat_id, .. } => *chat_id,
            InboundError::NotStaged { chat_id, .. } => *chat_id,
        }
    }

    /// The line to log for this error.
    pub fn log_line(&self) -> (line: String)
        ensures
            line@ == log_line_spec(self@),
    {
        let mut line = String::from_str("conversation ");
        match self {
            InboundError::StagingFailed { chat_id, file_id, failure } => {
                line.append(render_chat_id(*chat_id).as_str());
                line.append(": staging voice file ");
                line.append(file_id.as_str());
                line.append(" failed at ");
                line.append(
                    match failure.stage {
                        StagingStage::Resolution => "resolution",
                        StagingStage::Creation => "creation",
                        StagingStage::Streaming => "streaming",
                    },
                );
                line.append(": ");
                line.append(failure.detail.as_str());
            },
            InboundError::NotStaged { chat_id, file_id } => {
                line.append(render_chat_id(*chat_id).as_str());
                line.append(": voice file ");
                line.append(file_id.as_str());
                line.append(" was not staged");
            },
        }
        line
    }
}

/// The log line of a dropped message mentions the conversation, in the form it
/// has on the bus, and the remote file.
pub proof fn lemma_log_line_gives_context(error: InboundErrorView)
    ensures
        mentions(
            log_line_spec(error),
            render_spec(
                match error {
                    InboundErrorView::StagingFailed { chat_id, .. } => chat_id as int,
                    InboundErrorView::NotStaged { chat_id, .. } => chat_id as int,
                },
            ),
        ),
        mentions(
            log_line_spec(error),
            match error {
                InboundErrorView::StagingFailed { file_id, .. } => file_id,
                InboundErrorView::NotStaged { file_id, .. } => file_id,
            },
        ),
{
    let line = log_line_spec(error);
    let lead = "conversation "@;
    match error {
        InboundErrorView::StagingFailed { chat_id, file_id, failure } => {
            let id = render_spec(chat_id as int);
            let mid = ": staging voice file "@;
            let at = lead.len() as int;
            assert(line.subrange(at, at + id.len()) =~= id);
            let at = (lead.len() + id.len() + mid.len()) as int;
            assert(line.subrange(at, at + file_id.len()) =~= file_id);
        },
        InboundErrorView::NotStaged { chat_id, file_id } => {
            let id = render_spec(chat_id as int);
            let mid = ": voice file "@;
            let at = lead.len() as int;
            assert(line.subrange(at, at + id.len()) =~= id);
            let at = (lead.len() + id.len() + mid.len()) as int;
            assert(line.subrange(at, at + file_id.len()) =~= file_id);
        },
    }
}

/// A message without a voice attachment is published as a text envelope: its
/// text is the body of the message, its sender the conversation in decimal, and
/// replies are expected on the relay's own topic. How staging ended plays no
/// part.
pub proof fn lemma_text_message_envelope(msg: ChatMessageView, staging: StagingView)
    requires
        msg.voice is None,
    ensures
        inbound_envelope(msg, staging) == Ok::<EnvelopeView, InboundErrorView>(
            EnvelopeView {
                text: body_or_empty(msg.text),
                sender: render_spec(msg.chat_id as int),
                message_type: MessageType::Text,
                response_topics: seq![RESPONSE_TOPIC@],
                params: Seq::empty(),
            },
        ),
        msg.text matches Some(body) ==> inbound_envelope(msg, staging)->Ok_0.text == body,
{
}

/// A message with a voice attachment is published exactly when the staged file
/// is the one of its attachment. The envelope is then an audio envelope whose
/// text is the path `<working directory>/tmp/<file id>.ogg`.
pub proof fn lemma_voice_message_envelope(msg: ChatMessageView, staging: StagingView)
    requires
        msg.voice is Some,
    ensures
        inbound_envelope(msg, staging) is Ok <==> (staging matches StagingView::Stored(attachment)
            && attachment.file_id == msg.voice->0),
        inbound_envelope(msg, staging) matches Ok(envelope) ==> {
            &&& envelope.message_type == MessageType::Audio
            &&& envelope.text == staging_path_spec(
                staging->Stored_0.working_dir,
                msg.voice->0,
            )
            &&& envelope.sender == render_spec(msg.chat_id as int)
            &&& envelope.response_topics == seq![RESPONSE_TOPIC@]
        },
{
}

/// An inbound message that has an envelope is published once as the event of
/// inbound messages, and once more on the callback topic exactly when one is
/// configured; nothing else is published. A message without an envelope is
/// not published.
pub proof fn lemma_publishes_per_message(
    msg: ChatMessageView,
    staging: StagingView,
    config: RelayConfigView,
)
    ensures
        inbound_envelope(msg, staging) is Err ==> inbound_outcome(msg, staging, config) is Discard,
        inbound_envelope(msg, staging) matches Ok(envelope) ==> {
            &&& inbound_outcome(msg, staging, config) matches InboundOutcomeView::Publish {
                envelope: published,
                targets,
            }
            &&& published == envelope
            &&& targets.len() == 1 + (if config.callback_topic is Some {
                1int
            } else {
                0int
            })
            &&& targets[0] == incoming_event()
            &&& config.callback_topic matches Some(topic) ==> targets[1]
                == (PublishTargetView::Topic { topic })
        },
{
}

/// A voice message whose attachment went through all of staging is published as
/// an audio envelope whose text is `<working directory>/tmp/<file id>.ogg`. When
/// an operation of staging failed, nothing is published for the message, and the
/// error names the conversation, the file and the first failure.
pub proof fn lemma_voice_message_staged(
    msg: ChatMessageView,
    resolved: Result<Seq<char>, Seq<char>>,
    located: Result<Seq<char>, Seq<char>>,
    created: Result<(), Seq<char>>,
    streamed: Result<(), Seq<char>>,
    config: RelayConfigView,
)
    requires
        msg.voice is Some,
    ensures
        staging_run(msg.voice->0, resolved, located, created, streamed) is Done,
        inbound_outcome(
            msg,
            staging_run(msg.voice->0, resolved, located, created, streamed)->Done_0,
            config,
        ) == match first_failure(resolved, located, created, streamed) {
            None => InboundOutcomeView::Publish {
                envelope: callback_envelope(
                    staging_path_spec(located->Ok_0, msg.voice->0),
                    render_spec(msg.chat_id as int),
                    MessageType::Audio,
                ),
                targets: publish_targets_spec(config.callback_topic),
            },
            Some(failure) => InboundOutcomeView::Discard {
                error: InboundErrorView::StagingFailed {
                    chat_id: msg.chat_id,
                    file_id: msg.voice->0,
                    failure,
                },
            },
        },
{
}

} // verus!
