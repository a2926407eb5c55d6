//! The message that travels from a connector to the coordinator.
use vstd::prelude::*;

verus! {

/// The platform a message was read from.
#[allow(non_camel_case_types)]
#[derive(Clone, Copy, Debug, PartialEq, Eq)]
pub enum MessageSource {
    TWITCH,
    DISCORD,
}

impl MessageSource {
    /// The other platform.
    pub open spec fn spec_opposite(self) -> MessageSource {
        match self {
            MessageSource::TWITCH => MessageSource::DISCORD,
            MessageSource::DISCORD => MessageSource::TWITCH,
        }
    }

    /// The platform a message from `self` is relayed to.
    #[verifier::when_used_as_spec(spec_opposite)]
    pub fn opposite(self) -> (other: MessageSource)
        ensures
            other == self.spec_opposite(),
            other != self,
    {
        match self {
            MessageSource::TWITCH => MessageSource::DISCORD,
            MessageSource::DISCORD => MessageSource::TWITCH,
        }
    }
}

/// One chat message, stripped of its platform's framing.
#[derive(Clone, Debug, PartialEq, Eq)]
pub struct ConnectorMessage {
    /// Display name of the sender.
    pub author: String,
    /// The text of the message; may be empty.
    pub message: String,
    /// The platform the message was read from.
    pub source: MessageSource,
}

/// A [`ConnectorMessage`] as contracts see it.
pub struct ConnectorMessageView {
    pub author: Seq<char>,
    pub message: Seq<char>,
    pub source: MessageSource,
}

impl View for ConnectorMessage {
    type V = ConnectorMessageView;

    open spec fn view(&self) -> ConnectorMessageView {
        ConnectorMessageView {
            author: self.author@,
            message: self.message@,
            source: self.source,
        }
    }
}

impl ConnectorMessageView {
    /// A message that a connector may hand on names its sender.
    pub open spec fn wf(self) -> bool {
        self.author.len() > 0
    }
}

/// The view of a message that may be absent.
pub open spec fn message_view(msg: Option<ConnectorMessage>) -> Option<ConnectorMessageView> {
    match msg {
        Some(m) => Some(m@),
        None => None,
    }
}

} // verus!
