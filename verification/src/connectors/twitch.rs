//! The Twitch side of the relay: the lines sent to the IRC server, and what
//! is made of the lines it sends back.
//!
//! The connector here never touches the stream. It formats the lines that
//! its caller writes, and is handed the outcome of every read.
use crate::connectors::connector_message::message_view;
use crate::connectors::connector_message::ConnectorMessage;
use crate::connectors::connector_message::ConnectorMessageView;
use crate::connectors::connector_message::MessageSource;
use crate::connectors::irc_parser::parse_line;
use crate::connectors::irc_parser::IrcMessage;
use crate::connectors::irc_parser::IrcMessageView;
use crate::connectors::irc_parser::IrcParser;
use crate::text::str_eq;
use vstd::prelude::*;
use vstd::string::StrSliceExecFns;
use vstd::string::StringExecFns;

verus! {

/// The name of the Twitch server in the prefix of its own lines.
pub const SERVER_NAME: &'static str = "tmi.twitch.tv";

/// What the server puts behind the relay's nick when it addresses the relay.
pub const SERVER_SUFFIX: &'static str = ".tmi.twitch.tv";

/// The command that carries a chat message.
pub const CHAT_COMMAND: &'static str = "PRIVMSG";

/// What ends every line of the protocol.
pub const TERMINATOR: &'static str = "\r\n";

/// The credentials of the relay's Twitch account.
#[derive(Clone, Copy, Debug, PartialEq, Eq)]
pub struct TwitchConfig {
    pub user: &'static str,
    pub pass: &'static str,
}

/// The line that sends the password.
pub open spec fn pass_line(pass: Seq<char>) -> Seq<char> {
    "PASS "@ + pass + TERMINATOR@
}

/// The line that sends the nick.
pub open spec fn nick_line(user: Seq<char>) -> Seq<char> {
    "NICK "@ + user + TERMINATOR@
}

/// The line that asks for the membership capability.
pub open spec fn cap_req_line() -> Seq<char> {
    "CAP REQ :twitch.tv/membership\r\n"@
}

/// The line that joins `channel`, named without its `#`.
pub open spec fn join_line(channel: Seq<char>) -> Seq<char> {
    "JOIN #"@ + channel + TERMINATOR@
}

/// The line that says `text` to `receiver`.
pub open spec fn privmsg_line(receiver: Seq<char>, text: Seq<char>) -> Seq<char> {
    "PRIVMSG "@ + receiver + " :"@ + text + TERMINATOR@
}

/// Whether `text` ends with the terminator.
pub open spec fn ends_with_terminator(text: Seq<char>) -> bool {
    text.len() >= 2 && text[text.len() - 2] == '\r' && text[text.len() - 1] == '\n'
}

/// `text` without the one terminator that may stand at its end; any other
/// text is left as it is.
pub open spec fn without_terminator(text: Seq<char>) -> Seq<char> {
    if ends_with_terminator(text) {
        text.take(text.len() - 2)
    } else {
        text
    }
}

/// The line to write for a message `msg` to `receiver`: none where nothing
/// is left of `msg` without its terminator.
pub open spec fn send_line(receiver: Seq<char>, msg: Seq<char>) -> Option<Seq<char>> {
    if without_terminator(msg).len() == 0 {
        None
    } else {
        Some(privmsg_line(receiver, without_terminator(msg)))
    }
}

/// Whether `nick` is the relay itself, which logged in as `user`.
pub open spec fn is_own_identity(nick: Seq<char>, user: Seq<char>) -> bool {
    nick == user
}

/// The name under which the server addresses a relay that logged in as
/// `user`.
pub open spec fn bot_server_name(user: Seq<char>) -> Seq<char> {
    user + SERVER_SUFFIX@
}

/// Whether `nick` is one of the names under which the server speaks to a
/// relay that logged in as `user`.
pub open spec fn is_server_identity(nick: Seq<char>, user: Seq<char>) -> bool {
    nick == SERVER_NAME@ || nick == bot_server_name(user)
}

/// The chat message that a parsed line carries for a relay that logged in
/// as `user`, if it carries one: the line is a `PRIVMSG` with a target and a
/// text, from a sender that is named and is neither the relay nor the
/// server. The author is the nick, the text the second parameter.
pub open spec fn chat_message_of(user: Seq<char>, msg: IrcMessageView) -> Option<
    ConnectorMessageView,
> {
    if is_own_identity(msg.nick, user) || is_server_identity(msg.nick, user) || msg.command
        != CHAT_COMMAND@ || msg.nick.len() == 0 || msg.params.len() < 2 {
        None
    } else {
        Some(
            ConnectorMessageView {
                author: msg.nick,
                message: msg.params[1],
                source: MessageSource::TWITCH,
            },
        )
    }
}

/// The message that one line from the server gives rise to, if any, for a
/// relay that logged in as `user`. A line that does not parse gives none.
pub open spec fn reply_of(user: Seq<char>, line: Seq<char>) -> Option<ConnectorMessageView> {
    match parse_line(line) {
        Ok(msg) => chat_message_of(user, msg),
        Err(_) => None,
    }
}

/// What a read on the stream came back with.
#[derive(Clone, Debug, PartialEq, Eq)]
pub enum ReadEvent {
    /// One line, with or without its line ending.
    Line(String),
    /// The server closed the stream.
    Closed,
    /// The read failed.
    Failed,
}

/// What the read loop does next.
#[derive(Clone, Debug, PartialEq, Eq)]
pub enum ReadAction {
    /// Hand the message to the coordinator, then read on.
    Forward(ConnectorMessage),
    /// Nothing to hand on; read on.
    Skip,
    /// Leave the loop and report that the connection is lost.
    Stop,
}

/// A [`ReadAction`] as contracts see it.
pub enum ReadActionView {
    Forward(ConnectorMessageView),
    Skip,
    Stop,
}

impl View for ReadAction {
    type V = ReadActionView;

    open spec fn view(&self) -> ReadActionView {
        match self {
            ReadAction::Forward(msg) => ReadActionView::Forward(msg@),
            ReadAction::Skip => ReadActionView::Skip,
            ReadAction::Stop => ReadActionView::Stop,
        }
    }
}

/// The action with which a relay that logged in as `user` answers `event`:
/// a line is forwarded or skipped, the end of the stream and a failed read
/// stop the loop.
pub open spec fn read_action(user: Seq<char>, event: ReadEvent) -> ReadActionView {
    match event {
        ReadEvent::Line(line) => match reply_of(user, line@) {
            Some(msg) => ReadActionView::Forward(msg),
            None => ReadActionView::Skip,
        },
        ReadEvent::Closed => ReadActionView::Stop,
        ReadEvent::Failed => ReadActionView::Stop,
    }
}

/// The messages handed on while the read loop of a relay that logged in as
/// `user` is fed `events` in order, up to the first event that stops it.
pub open spec fn forwarded(user: Seq<char>, events: Seq<ReadEvent>) -> Seq<ConnectorMessageView>
    decreases events.len(),
{
    if events.len() == 0 {
        Seq::empty()
    } else {
        match read_action(user, events[0]) {
            ReadActionView::Forward(msg) => seq![msg] + forwarded(user, events.drop_first()),
            ReadActionView::Skip => forwarded(user, events.drop_first()),
            ReadActionView::Stop => Seq::empty(),
        }
    }
}

/// `text` without the terminator that may stand at its end.
pub fn strip_terminator(text: &str) -> (body: &str)
    ensures
        body@ == without_terminator(text@),
{
    let n = text.unicode_len();
    if n >= 2 && text.get_char(n - 2) == '\r' && text.get_char(n - 1) == '\n' {
        text.substring_char(0, n - 2)
    } else {
        text
    }
}

/// The protocol half of the connection to Twitch.
pub struct TwitchConnector {
    config: TwitchConfig,
}

impl TwitchConnector {
    /// The nick the connector logs in with.
    pub closed spec fn user(&self) -> Seq<char> {
        self.config.user@
    }

    /// The password the connector logs in with.
    pub closed spec fn pass(&self) -> Seq<char> {
        self.config.pass@
    }

    /// A connector for the account of `config`.
    pub fn new(config: TwitchConfig) -> (connector: TwitchConnector)
        ensures
            connector.user() == config.user@,
            connector.pass() == config.pass@,
    {
        TwitchConnector { config }
    }

    /// The lines that log the relay in, in the order in which they are
    /// written: password, nick, capability request. No answer is waited for.
    pub fn auth_user(&self) -> (lines: Vec<String>)
        ensures
            lines@.len() == 3,
            lines@[0]@ == pass_line(self.pass()),
            lines@[1]@ == nick_line(self.user()),
            lines@[2]@ == cap_req_line(),
    {
        let mut pass = String::from_str("PASS ");
        pass.append(self.config.pass);
        pass.append(TERMINATOR);
        let mut nick = String::from_str("NICK ");
        nick.append(self.config.user);
        nick.append(TERMINATOR);
        let cap = String::from_str("CAP REQ :twitch.tv/membership\r\n");
        let mut lines: Vec<String> = Vec::new();
        lines.push(pass);
        lines.push(nick);
        lines.push(cap);
        lines
    }

    /// The line that joins `channel`, named without its `#`.
    pub fn join_channel(&self, channel: &str) -> (line: String)
        ensures
            line@ == join_line(channel@),
    {
        let mut line = String::from_str("JOIN #");
        line.append(channel);
        line.append(TERMINATOR);
        line
    }

    /// The line that says `msg` to `receiver`, or nothing where there is
    /// nothing to say.
    ///
    /// One terminator at the end of `msg` is taken off before the line is
    /// built, and the line gets its own; the rest of `msg` is sent as it is,
    /// whatever its length. A message that is empty or only a terminator is
    /// not sent at all.
    pub fn send_msg(&self, receiver: &str, msg: &str) -> (line: Option<String>)
        ensures
            line.deep_view() == send_line(receiver@, msg@),
            msg@ == TERMINATOR@ || msg@.len() == 0 ==> line is None,
            !ends_with_terminator(msg@) && msg@.len() > 0 ==> (line matches Some(l) && l@
                == privmsg_line(receiver@, msg@)),
    {
        proof {
            reveal_strlit("\r\n");
        }
        let text = strip_terminator(msg);
        if text.is_empty() {
            return None;
        }
        let mut line = String::from_str("PRIVMSG ");
        line.append(receiver);
        line.append(" :");
        line.append(text);
        line.append(TERMINATOR);
        Some(line)
    }

    /// The chat message that a parsed line carries, if it carries one.
    ///
    /// Gives a message exactly for a `PRIVMSG` with at least two parameters
    /// whose sender is named and is neither the server nor the relay itself,
    /// that is, the nick this connector logs in with.
    pub fn chat_message(&self, msg: &IrcMessage) -> (out: Option<ConnectorMessage>)
        ensures
            message_view(out) == chat_message_of(self.user(), msg@),
            msg@.nick == self.user() ==> out is None,
            out matches Some(m) ==> (m@.wf() && m.source == MessageSource::TWITCH && m@.author
                != self.user()),
    {
        let nick = msg.nick.as_str();
        let mut bot_server = String::from_str(self.config.user);
        bot_server.append(SERVER_SUFFIX);
        if str_eq(nick, self.config.user) || str_eq(nick, SERVER_NAME) || str_eq(
            nick,
            bot_server.as_str(),
        ) {
            return None;
        }
        if !str_eq(msg.command.as_str(), CHAT_COMMAND) || nick.is_empty() || msg.params.len() < 2 {
            return None;
        }
        Some(
            ConnectorMessage {
                author: msg.nick.clone(),
                message: msg.params[1].clone(),
                source: MessageSource::TWITCH,
            },
        )
    }

    /// Reads one line from the server: parses it and gives the chat message
    /// it carries, if any. A line that does not parse gives none.
    pub fn get_reply(&self, parser: &IrcParser, line: String) -> (out: Option<ConnectorMessage>)
        ensures
            message_view(out) == reply_of(self.user(), line@),
            parse_line(line@) is Err ==> out is None,
            (parse_line(line@) matches Ok(msg) && msg.nick == self.user()) ==> out is None,
            out matches Some(m) ==> (m@.wf() && m@.author != self.user()),
    {
        match parser.parse(line) {
            Ok(msg) => self.chat_message(&msg),
            Err(_) => None,
        }
    }

    /// Decides what the read loop does with the outcome of one read.
    ///
    /// A line is forwarded where it carries a chat message and skipped where
    /// it does not, a malformed line included; the loop goes on either way.
    /// The end of the stream and a failed read stop the loop.
    pub fn on_read(&self, parser: &IrcParser, event: ReadEvent) -> (action: ReadAction)
        ensures
            action@ == read_action(self.user(), event),
            action matches ReadAction::Forward(m) ==> (m@.wf() && m@.author != self.user()),
            (event matches ReadEvent::Line(line) && parse_line(line@) is Err) ==> action
                == ReadAction::Skip,
            action is Stop <==> !(event is Line),
    {
        match event {
            ReadEvent::Line(line) => match self.get_reply(parser, line) {
                Some(msg) => ReadAction::Forward(msg),
                None => ReadAction::Skip,
            },
            ReadEvent::Closed => ReadAction::Stop,
            ReadEvent::Failed => ReadAction::Stop,
        }
    }
}

/// A line that does not parse leaves no trace: the read loop hands on the
/// same messages as if the line had never been read, and the lines after it
/// are handled as they would have been.
pub proof fn lemma_malformed_line_is_skipped(
    user: Seq<char>,
    before: Seq<ReadEvent>,
    line: String,
    after: Seq<ReadEvent>,
)
    requires
        parse_line(line@) is Err,
    ensures
        read_action(user, ReadEvent::Line(line)) == ReadActionView::Skip,
        forwarded(user, before + seq![ReadEvent::Line(line)] + after) == forwarded(
            user,
            before + after,
        ),
    decreases before.len(),
{
    let bad = ReadEvent::Line(line);
    let with = before + seq![bad] + after;
    let without = before + after;
    if before.len() == 0 {
        assert(with.drop_first() =~= after);
        assert(without =~= after);
    } else {
        assert(with[0] == before[0]);
        assert(without[0] == before[0]);
        assert(with.drop_first() =~= before.drop_first() + seq![bad] + after);
        assert(without.drop_first() =~= before.drop_first() + after);
        lemma_malformed_line_is_skipped(user, before.drop_first(), line, after);
    }
}

/// The relay never hands on what it said itself: no line whose sender is the
/// nick that the connector logs in with gives a message, and no message that
/// the connector hands on has that nick as its author.
pub proof fn lemma_no_echo(connector: TwitchConnector, msg: IrcMessageView)
    ensures
        msg.nick == connector.user() ==> chat_message_of(connector.user(), msg) is None,
        chat_message_of(connector.user(), msg) matches Some(m) ==> m.author != connector.user(),
{
}

/// What a read loop hands on never has the relay's own nick as its author,
/// whatever it is fed.
pub proof fn lemma_no_echo_forwarded(connector: TwitchConnector, events: Seq<ReadEvent>)
    ensures
        forall|i: int|
            0 <= i < forwarded(connector.user(), events).len() ==> (#[trigger] forwarded(
                connector.user(),
                events,
            )[i]).author != connector.user(),
    decreases events.len(),
{
    let user = connector.user();
    if events.len() > 0 {
        lemma_no_echo_forwarded(connector, events.drop_first());
        let rest = forwarded(user, events.drop_first());
        match read_action(user, events[0]) {
            ReadActionView::Forward(msg) => {
                assert forall|i: int| 0 <= i < forwarded(user, events).len() implies (
                #[trigger] forwarded(user, events)[i]).author != user by {
                    if i > 0 {
                        assert(forwarded(user, events)[i] == rest[i - 1]);
                    }
                }
            },
            ReadActionView::Skip => {},
            ReadActionView::Stop => {},
        }
    }
}

} // verus!
