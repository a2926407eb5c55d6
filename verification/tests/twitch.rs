use twitch_discord_relay::connectors::connector_message::ConnectorMessage;
use twitch_discord_relay::connectors::connector_message::MessageSource;
use twitch_discord_relay::connectors::irc_parser::IrcMessage;
use twitch_discord_relay::connectors::irc_parser::IrcParser;
use twitch_discord_relay::connectors::twitch::strip_terminator;
use twitch_discord_relay::connectors::twitch::ReadAction;
use twitch_discord_relay::connectors::twitch::ReadEvent;
use twitch_discord_relay::connectors::twitch::TwitchConfig;
use twitch_discord_relay::connectors::twitch::TwitchConnector;
use twitch_discord_relay::connectors::twitch::CHAT_COMMAND;
use twitch_discord_relay::connectors::twitch::SERVER_NAME;
use twitch_discord_relay::connectors::twitch::SERVER_SUFFIX;
use twitch_discord_relay::connectors::twitch::TERMINATOR;

fn connector() -> TwitchConnector {
    TwitchConnector::new(TwitchConfig { user: "relaybot", pass: "oauth:secret" })
}

fn connector_named(user: &'static str) -> TwitchConnector {
    TwitchConnector::new(TwitchConfig { user, pass: "oauth:secret" })
}

fn parser() -> IrcParser {
    IrcParser::new().expect("the grammar compiles")
}

fn irc(nick: &str, command: &str, params: &[&str]) -> IrcMessage {
    IrcMessage {
        raw: String::new(),
        prefix: nick.to_string(),
        nick: nick.to_string(),
        username: String::new(),
        hostname: String::new(),
        command: command.to_string(),
        params: params.iter().map(|p| p.to_string()).collect(),
    }
}

fn from_twitch(author: &str, message: &str) -> ConnectorMessage {
    ConnectorMessage {
        author: author.to_string(),
        message: message.to_string(),
        source: MessageSource::TWITCH,
    }
}

#[test]
fn constants_are_those_of_the_protocol() {
    assert_eq!(SERVER_NAME, "tmi.twitch.tv");
    assert_eq!(SERVER_SUFFIX, ".tmi.twitch.tv");
    assert_eq!(CHAT_COMMAND, "PRIVMSG");
    assert_eq!(TERMINATOR, "\r\n");
}

#[test]
fn auth_user_gives_password_nick_and_capability() {
    let lines = connector().auth_user();
    assert_eq!(
        lines,
        vec![
            "PASS oauth:secret\r\n".to_string(),
            "NICK relaybot\r\n".to_string(),
            "CAP REQ :twitch.tv/membership\r\n".to_string(),
        ]
    );
}

#[test]
fn join_channel_gives_the_join_line() {
    assert_eq!(connector().join_channel("arresteverybody"), "JOIN #arresteverybody\r\n");
    assert_eq!(connector().join_channel(""), "JOIN #\r\n");
}

#[test]
fn send_msg_formats_a_chat_line() {
    assert_eq!(
        connector().send_msg("#room", "alice: hi"),
        Some("PRIVMSG #room :alice: hi\r\n".to_string())
    );
}

#[test]
fn send_msg_of_a_terminator_alone_writes_nothing() {
    assert_eq!(connector().send_msg("#room", "\r\n"), None);
}

#[test]
fn send_msg_of_nothing_writes_nothing() {
    assert_eq!(connector().send_msg("#room", ""), None);
}

#[test]
fn send_msg_takes_one_terminator_off() {
    assert_eq!(connector().send_msg("#room", "hello\r\n"), Some("PRIVMSG #room :hello\r\n".to_string()));
    assert_eq!(
        connector().send_msg("#room", "hello\r\n\r\n"),
        Some("PRIVMSG #room :hello\r\n\r\n".to_string())
    );
}

#[test]
fn send_msg_keeps_short_and_unterminated_text_whole() {
    assert_eq!(connector().send_msg("#room", "a"), Some("PRIVMSG #room :a\r\n".to_string()));
    assert_eq!(connector().send_msg("#room", "ab"), Some("PRIVMSG #room :ab\r\n".to_string()));
    assert_eq!(connector().send_msg("#room", "\n"), Some("PRIVMSG #room :\n\r\n".to_string()));
    assert_eq!(connector().send_msg("#room", "\r"), Some("PRIVMSG #room :\r\r\n".to_string()));
    assert_eq!(
        connector().send_msg("#room", "gr\u{fc}\u{df}e \u{1f600}"),
        Some("PRIVMSG #room :gr\u{fc}\u{df}e \u{1f600}\r\n".to_string())
    );
}

#[test]
fn strip_terminator_takes_one_terminator_off() {
    assert_eq!(strip_terminator("abc\r\n"), "abc");
    assert_eq!(strip_terminator("abc"), "abc");
    assert_eq!(strip_terminator("abc\n"), "abc\n");
    assert_eq!(strip_terminator("\r\n"), "");
    assert_eq!(strip_terminator(""), "");
    assert_eq!(strip_terminator("a\r\nb"), "a\r\nb");
    assert_eq!(strip_terminator("\u{1f600}\r\n"), "\u{1f600}");
}

#[test]
fn chat_message_takes_nick_and_second_parameter() {
    assert_eq!(
        connector().chat_message(&irc("alice", "PRIVMSG", &["#room", "hello there"])),
        Some(from_twitch("alice", "hello there"))
    );
    assert_eq!(
        connector().chat_message(&irc("alice", "PRIVMSG", &["#room", "second", "third"])),
        Some(from_twitch("alice", "second"))
    );
}

#[test]
fn chat_message_drops_the_relay_and_the_server() {
    let params = ["#room", "hello"];
    assert_eq!(connector().chat_message(&irc("relaybot", "PRIVMSG", &params)), None);
    assert_eq!(connector().chat_message(&irc("tmi.twitch.tv", "PRIVMSG", &params)), None);
    assert_eq!(connector().chat_message(&irc("relaybot.tmi.twitch.tv", "PRIVMSG", &params)), None);
}

#[test]
fn the_relay_is_whoever_the_connector_logs_in_as() {
    let params = ["#room", "hello"];
    let relay = connector_named("twtichdiscordrelay");
    assert_eq!(relay.chat_message(&irc("twtichdiscordrelay", "PRIVMSG", &params)), None);
    assert_eq!(
        relay.chat_message(&irc("twtichdiscordrelay.tmi.twitch.tv", "PRIVMSG", &params)),
        None
    );
    assert_eq!(
        relay.chat_message(&irc("relaybot", "PRIVMSG", &params)),
        Some(from_twitch("relaybot", "hello"))
    );
    assert_eq!(
        connector().chat_message(&irc("twtichdiscordrelay", "PRIVMSG", &params)),
        Some(from_twitch("twtichdiscordrelay", "hello"))
    );
    assert_eq!(
        connector().chat_message(&irc("twtichdiscordrelay.tmi.twitch.tv", "PRIVMSG", &params)),
        Some(from_twitch("twtichdiscordrelay.tmi.twitch.tv", "hello"))
    );
}

#[test]
fn names_close_to_the_relays_are_other_people_on_twitch() {
    let params = ["#room", "hello"];
    assert_eq!(
        connector().chat_message(&irc("RelayBot", "PRIVMSG", &params)),
        Some(from_twitch("RelayBot", "hello"))
    );
    assert_eq!(
        connector().chat_message(&irc("relaybot2", "PRIVMSG", &params)),
        Some(from_twitch("relaybot2", "hello"))
    );
    assert_eq!(
        connector().chat_message(&irc("relaybot.tmi.twitch.tv.", "PRIVMSG", &params)),
        Some(from_twitch("relaybot.tmi.twitch.tv.", "hello"))
    );
}

#[test]
fn chat_message_keeps_only_chat_commands() {
    let params = ["#room", "hello"];
    assert_eq!(connector().chat_message(&irc("alice", "JOIN", &params)), None);
    assert_eq!(connector().chat_message(&irc("alice", "privmsg", &params)), None);
    assert_eq!(connector().chat_message(&irc("alice", "353", &params)), None);
}

#[test]
fn chat_message_needs_a_sender_and_a_text() {
    assert_eq!(connector().chat_message(&irc("", "PRIVMSG", &["#room", "hello"])), None);
    assert_eq!(connector().chat_message(&irc("alice", "PRIVMSG", &["#room"])), None);
    assert_eq!(connector().chat_message(&irc("alice", "PRIVMSG", &[])), None);
}

#[test]
fn get_reply_reads_a_chat_line() {
    let p = parser();
    assert_eq!(
        connector().get_reply(
            &p,
            ":alice!alice@alice.tmi.twitch.tv PRIVMSG #arresteverybody :hi all\r\n".to_string()
        ),
        Some(from_twitch("alice", "hi all"))
    );
}

#[test]
fn get_reply_never_echoes_the_relay() {
    let p = parser();
    let own = ":relaybot!relaybot@relaybot.tmi.twitch.tv PRIVMSG #arresteverybody :bob: hi";
    assert_eq!(connector().get_reply(&p, own.to_string()), None);
    assert_eq!(connector().get_reply(&p, ":relaybot PRIVMSG #room :x".to_string()), None);
    assert_eq!(
        connector().get_reply(&p, ":relaybot.tmi.twitch.tv PRIVMSG #room :x".to_string()),
        None
    );
    let other = connector_named("someoneelse");
    assert_eq!(other.get_reply(&p, own.to_string()), Some(from_twitch("relaybot", "bob: hi")));
    let their_own = ":someoneelse!someoneelse@someoneelse.tmi.twitch.tv PRIVMSG #room :hi";
    assert_eq!(other.get_reply(&p, their_own.to_string()), None);
    assert_eq!(
        connector().get_reply(&p, their_own.to_string()),
        Some(from_twitch("someoneelse", "hi"))
    );
}

#[test]
fn on_read_never_forwards_the_relays_own_line() {
    let p = parser();
    let own = ":relaybot!relaybot@relaybot.tmi.twitch.tv PRIVMSG #room :alice: hi";
    assert_eq!(connector().on_read(&p, ReadEvent::Line(own.to_string())), ReadAction::Skip);
    assert_eq!(
        connector_named("other").on_read(&p, ReadEvent::Line(own.to_string())),
        ReadAction::Forward(from_twitch("relaybot", "alice: hi"))
    );
}

#[test]
fn get_reply_skips_server_lines() {
    let p = parser();
    assert_eq!(connector().get_reply(&p, "PING :tmi.twitch.tv".to_string()), None);
    assert_eq!(
        connector().get_reply(&p, ":tmi.twitch.tv 001 relay :Welcome, GLHF!".to_string()),
        None
    );
    assert_eq!(
        connector().get_reply(&p, ":alice!alice@alice.tmi.twitch.tv JOIN #room".to_string()),
        None
    );
}

#[test]
fn get_reply_skips_a_chat_line_without_text() {
    let p = parser();
    assert_eq!(connector().get_reply(&p, ":alice PRIVMSG #room :".to_string()), None);
    assert_eq!(connector().get_reply(&p, ":alice PRIVMSG #room".to_string()), None);
}

#[test]
fn get_reply_skips_what_does_not_parse() {
    let p = parser();
    assert_eq!(connector().get_reply(&p, String::new()), None);
    assert_eq!(connector().get_reply(&p, " :alice PRIVMSG #room :hi".to_string()), None);
}

#[test]
fn on_read_forwards_skips_and_stops() {
    let p = parser();
    assert_eq!(
        connector().on_read(&p, ReadEvent::Line(":alice PRIVMSG #room :hi".to_string())),
        ReadAction::Forward(from_twitch("alice", "hi"))
    );
    assert_eq!(
        connector().on_read(&p, ReadEvent::Line("PING :tmi.twitch.tv".to_string())),
        ReadAction::Skip
    );
    assert_eq!(connector().on_read(&p, ReadEvent::Closed), ReadAction::Stop);
    assert_eq!(connector().on_read(&p, ReadEvent::Failed), ReadAction::Stop);
}

#[test]
fn malformed_line_does_not_stop_the_loop() {
    let p = parser();
    let relay = connector();
    let events = vec![
        ReadEvent::Line(":alice PRIVMSG #room :one".to_string()),
        ReadEvent::Line(String::new()),
        ReadEvent::Line(" not a line".to_string()),
        ReadEvent::Line(":bob PRIVMSG #room :two".to_string()),
        ReadEvent::Closed,
        ReadEvent::Line(":carol PRIVMSG #room :never read".to_string()),
    ];
    let mut forwarded = Vec::new();
    let mut skipped = 0;
    for event in events {
        match relay.on_read(&p, event) {
            ReadAction::Forward(msg) => forwarded.push(msg),
            ReadAction::Skip => skipped += 1,
            ReadAction::Stop => break,
        }
    }
    assert_eq!(forwarded, vec![from_twitch("alice", "one"), from_twitch("bob", "two")]);
    assert_eq!(skipped, 2);
}
