//! The settings of a relay, fixed once at startup.

use vstd::prelude::*;

verus! {

/// What a relay is started with.
#[derive(Clone, Debug, PartialEq, Eq)]
pub struct RelayConfig {
    /// A further topic that receives every inbound chat message, if any.
    pub callback_topic: Option<String>,
    /// Whether photo envelopes are delivered to the chat side or treated as
    /// unsupported.
    pub forward_photos: bool,
    /// What the relay reports about itself when asked to identify.
    pub capabilities: Vec<(String, String)>,
}

/// The mathematical content of a [`RelayConfig`].
pub struct RelayConfigView {
    pub callback_topic: Option<Seq<char>>,
    pub forward_photos: bool,
    pub capabilities: Seq<(Seq<char>, Seq<char>)>,
}

impl View for RelayConfig {
    type V = RelayConfigView;

    open spec fn view(&self) -> RelayConfigView {
        RelayConfigView {
            callback_topic: self.callback_topic.deep_view(),
            forward_photos: self.forward_photos,
            capabilities: self.capabilities.deep_view(),
        }
    }
}

impl RelayConfig {
    /// The settings of a relay that forwards photos and reports no capabilities.
    pub fn new(callback_topic: Option<String>) -> (config: RelayConfig)
        ensures
            config@ == (RelayConfigView {
                callback_topic: callback_topic.deep_view(),
                forward_photos: true,
                capabilities: Seq::empty(),
            }),
    {
        let config = RelayConfig { callback_topic, forward_photos: true, capabilities: Vec::new() };
        assert(config.capabilities.deep_view() =~= Seq::empty());
        config
    }
}

} // verus!
