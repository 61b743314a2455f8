//! The envelope that crosses the bus, and the names the relay uses on it.

use vstd::prelude::*;
use vstd::std_specs::iter::IteratorSpec;

verus! {

/// How the payload of an envelope is to be read.
#[derive(Clone, Copy, Debug, PartialEq, Eq, Structural)]
pub enum MessageType {
    Text,
    Audio,
    Photo,
    Unknown,
    ModuleInfo,
}

/// The name of a message type as it appears in log lines.
pub open spec fn message_type_name(message_type: MessageType) -> Seq<char> {
    match message_type {
        MessageType::Text => "Text"@,
        MessageType::Audio => "Audio"@,
        MessageType::Photo => "Photo"@,
        MessageType::Unknown => "Unknown"@,
        MessageType::ModuleInfo => "ModuleInfo"@,
    }
}

impl MessageType {
    /// The name of the message type.
    pub fn name(self) -> (name: &'static str)
        ensures
            name@ == message_type_name(self),
    {
        match self {
            MessageType::Text => "Text",
            MessageType::Audio => "Audio",
            MessageType::Photo => "Photo",
            MessageType::Unknown => "Unknown",
            MessageType::ModuleInfo => "ModuleInfo",
        }
    }
}

/// The canonical message exchanged over the bus.
#[derive(Clone, Debug, PartialEq, Eq)]
pub struct BusEnvelope {
    /// The body of a text message; for audio and photo messages, the payload or a
    /// path to it.
    pub text: String,
    /// The conversation the message belongs to, as decimal text.
    pub sender: String,
    pub message_type: MessageType,
    /// The topics on which replies to this envelope are expected, in order.
    pub response_topics: Vec<String>,
    /// Further key/value pairs; the relay never reads them.
    pub params: Vec<(String, String)>,
}

/// The mathematical content of a [`BusEnvelope`].
pub struct EnvelopeView {
    pub text: Seq<char>,
    pub sender: Seq<char>,
    pub message_type: MessageType,
    pub response_topics: Seq<Seq<char>>,
    pub params: Seq<(Seq<char>, Seq<char>)>,
}

impl View for BusEnvelope {
    type V = EnvelopeView;

    open spec fn view(&self) -> EnvelopeView {
        EnvelopeView {
            text: self.text@,
            sender: self.sender@,
            message_type: self.message_type,
            response_topics: self.response_topics.deep_view(),
            params: self.params.deep_view(),
        }
    }
}

/// The name under which the relay is known on the bus.
pub const MODULE_NAME: &'static str = "telegram";

/// The topic on which the relay receives what is to be delivered to the chat side.
pub const RESPONSE_TOPIC: &'static str = "telegram";

/// The event under which every inbound chat message is published.
pub const NEW_INCOMING_MESSAGE_TOPIC: &'static str = "new_incoming_message";

/// The reserved topic on which modules are asked to identify themselves.
pub const MODULE_INFO_TOPIC_REQUEST: &'static str = "module.info.request";

/// The reserved topic on which modules answer an identification request.
pub const MODULE_INFO_TOPIC_RESPONSE: &'static str = "module.info.response";

/// The envelope the relay originates for `text` from conversation `sender`: replies
/// are expected on the relay's own topic, and no parameters are set.
pub open spec fn callback_envelope(
    text: Seq<char>,
    sender: Seq<char>,
    message_type: MessageType,
) -> EnvelopeView {
    EnvelopeView {
        text,
        sender,
        message_type,
        response_topics: seq![RESPONSE_TOPIC@],
        params: Seq::empty(),
    }
}

/// Builds the envelope for a message that enters the bus through the relay.
pub fn new_callback_msg(text: String, sender: String, message_type: MessageType) -> (envelope:
    BusEnvelope)
    ensures
        envelope@ == callback_envelope(text@, sender@, message_type),
{
    let mut response_topics: Vec<String> = Vec::new();
    response_topics.push(String::from_str(RESPONSE_TOPIC));
    let envelope = BusEnvelope {
        text,
        sender,
        message_type,
        response_topics,
        params: Vec::new(),
    };
    assert(envelope.response_topics.deep_view() =~= seq![RESPONSE_TOPIC@]);
    assert(envelope.params.deep_view() =~= Seq::empty());
    envelope
}

/// Whether two pieces of text are the same.
pub fn same_text(a: &str, b: &str) -> (same: bool)
    ensures
        same == (a@ == b@),
{
    let mut xs = a.chars();
    let mut ys = b.chars();
    let ghost mut common: Seq<char> = Seq::empty();
    assert(a@ =~= common + xs.remaining());
    assert(b@ =~= common + ys.remaining());
    loop
        invariant
            xs.obeys_prophetic_iter_laws(),
            ys.obeys_prophetic_iter_laws(),
            xs.decrease() is Some,
            a@ == common + xs.remaining(),
            b@ == common + ys.remaining(),
        decreases xs.decrease()->0,
    {
        let x = xs.next();
        let y = ys.next();
        match x {
            None => {
                let same = y.is_none();
                assert(a@ =~= common);
                assert(same ==> b@ =~= common);
                assert(!same ==> b@.len() > a@.len());
                return same;
            },
            Some(c) => {
                match y {
                    None => {
                        assert(b@ =~= common);
                        assert(a@.len() > b@.len());
                        return false;
                    },
                    Some(d) => {
                        if c != d {
                            assert(a@[common.len() as int] == c);
                            assert(b@[common.len() as int] == d);
                            return false;
                        }
                        proof {
                            let longer = common.push(c);
                            assert(a@ =~= longer + xs.remaining());
                            assert(b@ =~= longer + ys.remaining());
                            common = longer;
                        }
                    },
                }
            },
        }
    }
}

} // verus!
