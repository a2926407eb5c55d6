//! The Discord side of the relay: which of the messages that Discord
//! delivers are handed to the coordinator.
use crate::connectors::connector_message::message_view;
use crate::connectors::connector_message::ConnectorMessage;
use crate::connectors::connector_message::ConnectorMessageView;
use crate::connectors::connector_message::MessageSource;
use crate::text::str_eq;
use vstd::prelude::*;

verus! {

/// Whether `author` is the relay itself, which speaks on Discord as `name`.
pub open spec fn is_own_identity(author: Seq<char>, name: Seq<char>) -> bool {
    author == name
}

/// The message handed on for a Discord message by `author` with text
/// `content` in `channel`, where `relay_channel` is the channel that is
/// relayed and `name` the name of the relay: none for another channel, for
/// the relay's own messages, and for a sender without a name.
pub open spec fn relayed_message(
    relay_channel: u64,
    name: Seq<char>,
    channel: u64,
    author: Seq<char>,
    content: Seq<char>,
) -> Option<ConnectorMessageView> {
    if channel != relay_channel || is_own_identity(author, name) || author.len() == 0 {
        None
    } else {
        Some(
            ConnectorMessageView {
                author: author,
                message: content,
                source: MessageSource::DISCORD,
            },
        )
    }
}

/// The protocol half of the connection to Discord.
#[derive(Clone, Debug, PartialEq, Eq)]
pub struct DiscordConnector {
    channel: u64,
    name: String,
}

impl DiscordConnector {
    /// The channel that is relayed.
    pub closed spec fn relay_channel(&self) -> u64 {
        self.channel
    }

    /// The name under which the relay speaks on Discord.
    pub closed spec fn name(&self) -> Seq<char> {
        self.name@
    }

    /// A connector that relays the channel with the id `channel` for the
    /// account named `name`.
    pub fn new(channel: u64, name: String) -> (connector: DiscordConnector)
        ensures
            connector.relay_channel() == channel,
            connector.name() == name@,
    {
        DiscordConnector { channel, name }
    }

    /// The id of the channel that is relayed.
    pub fn channel(&self) -> (id: u64)
        ensures
            id == self.relay_channel(),
    {
        self.channel
    }

    /// Decides on one message that Discord delivered: `author` wrote
    /// `content` in `channel`.
    ///
    /// The message is handed on, with its text untouched, exactly where it
    /// was written in the relayed channel by a named sender that is not the
    /// relay itself.
    pub fn message(&self, channel: u64, author: String, content: String) -> (out: Option<
        ConnectorMessage,
    >)
        ensures
            message_view(out) == relayed_message(
                self.relay_channel(),
                self.name(),
                channel,
                author@,
                content@,
            ),
            author@ == self.name() ==> out is None,
            out matches Some(m) ==> (m@.wf() && m.source == MessageSource::DISCORD && m@.author
                != self.name()),
    {
        if channel != self.channel {
            return None;
        }
        if str_eq(author.as_str(), self.name.as_str()) || author.as_str().is_empty() {
            return None;
        }
        Some(ConnectorMessage { author: author, message: content, source: MessageSource::DISCORD })
    }
}

/// The relay never hands on what it said itself: no message whose author is
/// the name of the connector gives a message, whatever the channel, and no
/// message that the connector hands on has that name as its author.
pub proof fn lemma_no_echo(
    connector: DiscordConnector,
    channel: u64,
    author: Seq<char>,
    content: Seq<char>,
)
    ensures
        author == connector.name() ==> relayed_message(
            connector.relay_channel(),
            connector.name(),
            channel,
            author,
            content,
        ) is None,
        relayed_message(connector.relay_channel(), connector.name(), channel, author, content)
            matches Some(m) ==> m.author != connector.name(),
{
}

} // verus!
