//! The grammar of an IRC line, and the parser that reads one.
//!
//! The grammar itself is written down once, as the regular expression
//! [`IRC_PATTERN`], and matched by the `regex` crate. What the match means
//! (which group is the nick, how the middle parameters are told apart, when
//! a line is refused) is decided here.
use crate::text::is_word;
use crate::text::lemma_words_are_words;
use crate::text::lemma_words_of_space_led;
use crate::text::space_led;
use crate::text::split_words;
use crate::text::strings_view;
use crate::text::words;
use regex::Regex;
use vstd::prelude::*;
use vstd::string::StrSliceExecFns;
use vstd::string::StringExecFns;

verus! {

/// A compiled regular expression of the `regex` crate. Nothing of its inside
/// is visible here; it is only compiled and matched.
#[verifier::external_type_specification]
#[verifier::external_body]
pub struct ExRegex(Regex);

/// What `regex::Regex::new` makes of `pattern`: the compiled expression, or
/// nothing where it refuses the pattern.
pub uninterp spec fn regex_compiled(pattern: Seq<char>) -> Option<Regex>;

/// What `regex::Regex::captures` finds when `re` is searched for in `text`:
/// nothing where there is no match, else one entry per capture group of the
/// expression, group 0 (the whole match) first, each holding the text that
/// the group matched, or nothing where the group took no part in the match.
pub uninterp spec fn regex_captures(re: Regex, text: Seq<char>) -> Option<Seq<Option<Seq<char>>>>;

/// Compiles `pattern` with `regex::Regex::new`, dropping the reason of a
/// refusal. Trusted: the outcome depends on the pattern alone.
#[verifier::external_body]
fn compile(pattern: &str) -> (compiled: Option<Regex>)
    ensures
        compiled == regex_compiled(pattern@),
{
    Regex::new(pattern).ok()
}

/// Searches `text` with `regex::Regex::captures` and copies out the text of
/// every capture group, in the order of `regex::Captures::iter`. Trusted:
/// the outcome depends on the expression and the text alone.
#[verifier::external_body]
fn capture_groups(re: &Regex, text: &str) -> (groups: Option<Vec<Option<String>>>)
    ensures
        groups.deep_view() == regex_captures(*re, text@),
{
    re.captures(text).map(|caps| caps.iter().map(|group| group.map(|m| m.as_str().to_string())).collect())
}

/// The grammar of one line, without its line ending:
/// an optional prefix `:nick[[!user]@host]` and a space, the command, up
/// to fourteen middle parameters (each after one space, none starting with a
/// colon), and an optional trailing parameter after a space and an optional
/// colon, which runs to the end of the line and may hold spaces.
///
/// Groups: 1 the prefix, 2 nick, 3 user, 4 host, 5 the command, 6 the middle
/// parameters with their spaces, 7 the trailing parameter.
pub const IRC_PATTERN: &'static str =
    "^(?::(([^@! ]*)(?:(?:!([^@]*))?@([^ ]*))?) )?([^ ]+)((?: [^: ][^ ]*){0,14})(?: :?(.*))?$";

/// The number of capture groups of [`IRC_PATTERN`], the whole match included.
pub const GROUP_COUNT: usize = 8;

/// The most middle parameters a line can have; what follows them is the
/// trailing parameter.
pub const MAX_MIDDLE_PARAMS: usize = 14;

/// The most parameters a line can have, the trailing one included.
pub const MAX_PARAMS: usize = 15;

/// The compiled form of [`IRC_PATTERN`].
pub open spec fn irc_regex() -> Regex {
    regex_compiled(IRC_PATTERN@).unwrap()
}

/// Why a line gave no message.
#[derive(Clone, Copy, Debug, PartialEq, Eq)]
pub enum ParseError {
    /// The line does not match the grammar.
    NoMatch,
    /// The match does not hold the grammar's eight groups.
    Incomplete,
    /// The line names no command.
    EmptyCommand,
    /// More than fourteen middle parameters.
    TooManyParams,
}

/// One line of the protocol, taken apart.
#[derive(Clone, Debug, PartialEq, Eq)]
pub struct IrcMessage {
    /// The line as it was received.
    pub raw: String,
    /// The whole prefix, without its colon; empty where the line has none.
    pub prefix: String,
    /// The nick (or server name) of the prefix; empty where there is none.
    pub nick: String,
    /// The user of the prefix; empty where there is none.
    pub username: String,
    /// The host of the prefix; empty where there is none.
    pub hostname: String,
    /// The command; never empty.
    pub command: String,
    /// The middle parameters in order, then the trailing parameter if the
    /// line has one that is not empty.
    pub params: Vec<String>,
}

/// An [`IrcMessage`] as contracts see it.
pub struct IrcMessageView {
    pub raw: Seq<char>,
    pub prefix: Seq<char>,
    pub nick: Seq<char>,
    pub username: Seq<char>,
    pub hostname: Seq<char>,
    pub command: Seq<char>,
    pub params: Seq<Seq<char>>,
}

impl View for IrcMessage {
    type V = IrcMessageView;

    open spec fn view(&self) -> IrcMessageView {
        IrcMessageView {
            raw: self.raw@,
            prefix: self.prefix@,
            nick: self.nick@,
            username: self.username@,
            hostname: self.hostname@,
            command: self.command@,
            params: strings_view(self.params@),
        }
    }
}

impl IrcMessageView {
    /// What holds of every parsed line: it names a command, it has at most
    /// fifteen parameters, and none of them is empty.
    pub open spec fn wf(self) -> bool {
        &&& self.command.len() > 0
        &&& self.params.len() <= MAX_PARAMS
        &&& forall|i: int| 0 <= i < self.params.len() ==> (#[trigger] self.params[i]).len() > 0
    }
}

/// The view of the outcome of a parse.
pub open spec fn parse_view(res: Result<IrcMessage, ParseError>) -> Result<
    IrcMessageView,
    ParseError,
> {
    match res {
        Ok(msg) => Ok(msg@),
        Err(e) => Err(e),
    }
}

/// The text of a capture group; empty where the group took no part.
pub open spec fn group_text(group: Option<Seq<char>>) -> Seq<char> {
    match group {
        Some(text) => text,
        None => Seq::empty(),
    }
}

/// The trailing parameter as a list: empty where the line has none, or an
/// empty one.
pub open spec fn trailing_param(group: Option<Seq<char>>) -> Seq<Seq<char>> {
    if group_text(group).len() > 0 {
        seq![group_text(group)]
    } else {
        Seq::empty()
    }
}

/// `line` without its line ending: one `"\r\n"` or one `"\n"` at its end.
pub open spec fn line_body(line: Seq<char>) -> Seq<char> {
    if line.len() >= 2 && line[line.len() - 2] == '\r' && line[line.len() - 1] == '\n' {
        line.take(line.len() - 2)
    } else if line.len() >= 1 && line[line.len() - 1] == '\n' {
        line.take(line.len() - 1)
    } else {
        line
    }
}

/// The message that the capture groups of a line stand for.
///
/// `groups` is what matching [`IRC_PATTERN`] gave. The message takes prefix,
/// nick, user, host and command from groups 1 to 5, its middle parameters
/// from the words of group 6, and its trailing parameter from group 7.
pub open spec fn message_of(raw: Seq<char>, groups: Option<Seq<Option<Seq<char>>>>) -> Result<
    IrcMessageView,
    ParseError,
> {
    match groups {
        None => Err(ParseError::NoMatch),
        Some(g) => {
            if g.len() != GROUP_COUNT {
                Err(ParseError::Incomplete)
            } else if group_text(g[5]).len() == 0 {
                Err(ParseError::EmptyCommand)
            } else if words(group_text(g[6])).len() > MAX_MIDDLE_PARAMS {
                Err(ParseError::TooManyParams)
            } else {
                Ok(
                    IrcMessageView {
                        raw: raw,
                        prefix: group_text(g[1]),
                        nick: group_text(g[2]),
                        username: group_text(g[3]),
                        hostname: group_text(g[4]),
                        command: group_text(g[5]),
                        params: words(group_text(g[6])) + trailing_param(g[7]),
                    },
                )
            }
        },
    }
}

/// The parameters of a message are its middle parameters, each whole and in
/// the order in which they stood, and then its trailing parameter.
///
/// Where the capture groups hold a command, and group 6 holds at most
/// fourteen middle parameters, each behind one space, the message has those
/// as its first parameters and nothing else before the trailing one. So with
/// fourteen middle parameters and a trailing parameter the message has
/// fifteen parameters, the last of which is all that group 7 holds, spaces
/// included: there is no fifteenth parameter cut out of it.
pub proof fn lemma_middles_then_trailing(
    raw: Seq<char>,
    groups: Seq<Option<Seq<char>>>,
    middles: Seq<Seq<char>>,
)
    requires
        groups.len() == GROUP_COUNT,
        group_text(groups[5]).len() > 0,
        group_text(groups[6]) == space_led(middles),
        middles.len() <= MAX_MIDDLE_PARAMS,
        forall|i: int| 0 <= i < middles.len() ==> is_word(#[trigger] middles[i]),
    ensures
        message_of(raw, Some(groups)) matches Ok(msg) && msg.params == middles + trailing_param(
            groups[7],
        ) && msg.command == group_text(groups[5]) && msg.wf(),
        group_text(groups[7]).len() > 0 ==> (message_of(raw, Some(groups)) matches Ok(msg)
            && msg.params.len() == middles.len() + 1 && msg.params.take(middles.len() as int)
            == middles && msg.params[middles.len() as int] == group_text(groups[7])),
        group_text(groups[7]).len() == 0 ==> (message_of(raw, Some(groups)) matches Ok(msg)
            && msg.params == middles),
{
    lemma_words_of_space_led(middles);
    let params = middles + trailing_param(groups[7]);
    if group_text(groups[7]).len() > 0 {
        assert(params.take(middles.len() as int) =~= middles);
    } else {
        assert(params =~= middles);
    }
}

/// What parsing `line` gives: the message that the groups of [`IRC_PATTERN`]
/// stand for when the pattern is matched against the line without its line
/// ending.
pub open spec fn parse_line(line: Seq<char>) -> Result<IrcMessageView, ParseError> {
    message_of(line, regex_captures(irc_regex(), line_body(line)))
}

/// The text of a capture group as a string of its own.
fn group_string(group: &Option<String>) -> (text: String)
    ensures
        text@ == group_text(group.deep_view()),
{
    match group {
        Some(t) => t.clone(),
        None => String::new(),
    }
}

/// `line` without its line ending.
pub fn strip_line_ending(line: &str) -> (body: &str)
    ensures
        body@ == line_body(line@),
{
    let n = line.unicode_len();
    if n >= 2 && line.get_char(n - 2) == '\r' && line.get_char(n - 1) == '\n' {
        line.substring_char(0, n - 2)
    } else if n >= 1 && line.get_char(n - 1) == '\n' {
        line.substring_char(0, n - 1)
    } else {
        assert(line@.subrange(0, n as int) =~= line@);
        line
    }
}

impl IrcMessage {
    /// Builds the message that the capture groups of a line stand for;
    /// `raw` is the line they were captured from.
    ///
    /// Refuses, in this order: no match at all; a match without the
    /// grammar's eight groups; an absent or empty command; more than fourteen
    /// middle parameters.
    pub fn from_captures(raw: String, groups: Option<Vec<Option<String>>>) -> (res: Result<
        IrcMessage,
        ParseError,
    >)
        ensures
            parse_view(res) == message_of(raw@, groups.deep_view()),
            res matches Ok(msg) ==> msg@.wf(),
    {
        let groups = match groups {
            Some(g) => g,
            None => {
                return Err(ParseError::NoMatch);
            },
        };
        if groups.len() != GROUP_COUNT {
            return Err(ParseError::Incomplete);
        }
        let command = group_string(&groups[5]);
        if command.as_str().is_empty() {
            return Err(ParseError::EmptyCommand);
        }
        let middle = group_string(&groups[6]);
        let mut params = split_words(middle.as_str());
        if params.len() > MAX_MIDDLE_PARAMS {
            return Err(ParseError::TooManyParams);
        }
        let trailing = group_string(&groups[7]);
        proof {
            lemma_words_are_words(middle@);
        }
        if !trailing.as_str().is_empty() {
            assert(strings_view(params@.push(trailing)) =~= strings_view(params@) + seq![
                trailing@,
            ]);
            params.push(trailing);
        } else {
            assert(strings_view(params@) + Seq::<Seq<char>>::empty() =~= strings_view(params@));
        }
        let msg = IrcMessage {
            raw: raw,
            prefix: group_string(&groups[1]),
            nick: group_string(&groups[2]),
            username: group_string(&groups[3]),
            hostname: group_string(&groups[4]),
            command: command,
            params: params,
        };
        Ok(msg)
    }
}

/// A parser of IRC lines: [`IRC_PATTERN`], compiled once.
pub struct IrcParser {
    regex: Regex,
}

impl IrcParser {
    #[verifier::type_invariant]
    spec fn holds_irc_pattern(self) -> bool {
        regex_compiled(IRC_PATTERN@) == Some(self.regex)
    }

    /// Compiles the grammar. Gives nothing only where the `regex` crate
    /// refuses [`IRC_PATTERN`].
    pub fn new() -> (parser: Option<IrcParser>)
        ensures
            parser is Some <==> regex_compiled(IRC_PATTERN@) is Some,
    {
        match compile(IRC_PATTERN) {
            Some(regex) => Some(IrcParser { regex }),
            None => None,
        }
    }

    /// Parses one line, with or without its line ending.
    ///
    /// The outcome is a function of the line alone. A line that matches the
    /// grammar gives a message with a command; any other line is refused,
    /// never passed on half filled.
    pub fn parse(&self, line: String) -> (res: Result<IrcMessage, ParseError>)
        ensures
            parse_view(res) == parse_line(line@),
            res matches Ok(msg) ==> (msg@.wf() && msg@.raw == line@),
            regex_captures(irc_regex(), line_body(line@)) is None ==> res == Err::<
                IrcMessage,
                ParseError,
            >(ParseError::NoMatch),
    {
        proof {
            use_type_invariant(self);
        }
        let groups = capture_groups(&self.regex, strip_line_ending(line.as_str()));
        IrcMessage::from_captures(line, groups)
    }
}

} // verus!
