//! What can go wrong with a settings file, and where.

use vstd::prelude::*;

verus! {

/// A key of the settings file. Each name belongs to one table of the schema.
#[derive(Clone, Copy, Debug, PartialEq, Eq, Structural)]
pub enum Key {
    Ytarchive,
    ExecutablePath,
    WorkingDirectory,
    Args,
    Quality,
    DelayStart,
    Scraper,
    Rss,
    PollInterval,
    IgnoreOlderThan,
    Notifier,
    Discord,
    WebhookUrl,
    NotifyOn,
    Webserver,
    BindAddress,
    Channel,
    Id,
    Name,
    Filters,
    MatchDescription,
    Outpath,
    PictureUrl,
}

/// The name under which a key stands in the file.
pub open spec fn key_text(key: Key) -> Seq<char> {
    match key {
        Key::Ytarchive => "ytarchive"@,
        Key::ExecutablePath => "executable_path"@,
        Key::WorkingDirectory => "working_directory"@,
        Key::Args => "args"@,
        Key::Quality => "quality"@,
        Key::DelayStart => "delay_start"@,
        Key::Scraper => "scraper"@,
        Key::Rss => "rss"@,
        Key::PollInterval => "poll_interval"@,
        Key::IgnoreOlderThan => "ignore_older_than"@,
        Key::Notifier => "notifier"@,
        Key::Discord => "discord"@,
        Key::WebhookUrl => "webhook_url"@,
        Key::NotifyOn => "notify_on"@,
        Key::Webserver => "webserver"@,
        Key::BindAddress => "bind_address"@,
        Key::Channel => "channel"@,
        Key::Id => "id"@,
        Key::Name => "name"@,
        Key::Filters => "filters"@,
        Key::MatchDescription => "match_description"@,
        Key::Outpath => "outpath"@,
        Key::PictureUrl => "picture_url"@,
    }
}

/// Two keys have two names.
pub proof fn lemma_key_texts_differ()
    ensures
        forall|a: Key, b: Key| a != b ==> #[trigger] key_text(a) != #[trigger] key_text(b),
{
    reveal_strlit("ytarchive");
    reveal_strlit("executable_path");
    reveal_strlit("working_directory");
    reveal_strlit("args");
    reveal_strlit("quality");
    reveal_strlit("delay_start");
    reveal_strlit("scraper");
    reveal_strlit("rss");
    reveal_strlit("poll_interval");
    reveal_strlit("ignore_older_than");
    reveal_strlit("notifier");
    reveal_strlit("discord");
    reveal_strlit("webhook_url");
    reveal_strlit("notify_on");
    reveal_strlit("webserver");
    reveal_strlit("bind_address");
    reveal_strlit("channel");
    reveal_strlit("id");
    reveal_strlit("name");
    reveal_strlit("filters");
    reveal_strlit("match_description");
    reveal_strlit("outpath");
    reveal_strlit("picture_url");
    assert forall|a: Key, b: Key| a != b implies #[trigger] key_text(a) != #[trigger] key_text(
        b,
    ) by {
        if key_text(a) == key_text(b) {
            assert(key_text(a).len() == key_text(b).len());
            assert(key_text(a)[0] == key_text(b)[0]);
            assert(key_text(a)[1] == key_text(b)[1]);
            assert(key_text(a)[2] == key_text(b)[2]);
        }
    }
}

impl Key {
    /// The name under which the key stands in the file.
    pub fn name(self) -> (name: &'static str)
        ensures
            name@ == key_text(self),
    {
        match self {
            Key::Ytarchive => "ytarchive",
            Key::ExecutablePath => "executable_path",
            Key::WorkingDirectory => "working_directory",
            Key::Args => "args",
            Key::Quality => "quality",
            Key::DelayStart => "delay_start",
            Key::Scraper => "scraper",
            Key::Rss => "rss",
            Key::PollInterval => "poll_interval",
            Key::IgnoreOlderThan => "ignore_older_than",
            Key::Notifier => "notifier",
            Key::Discord => "discord",
            Key::WebhookUrl => "webhook_url",
            Key::NotifyOn => "notify_on",
            Key::Webserver => "webserver",
            Key::BindAddress => "bind_address",
            Key::Channel => "channel",
            Key::Id => "id",
            Key::Name => "name",
            Key::Filters => "filters",
            Key::MatchDescription => "match_description",
            Key::Outpath => "outpath",
            Key::PictureUrl => "picture_url",
        }
    }
}

/// Why a text is no configuration.
///
/// `channel` is the position of the channel rule that the key belongs to,
/// counted from zero, and `None` for a key outside the channel rules.
#[derive(Clone, Debug, PartialEq, Eq)]
#[allow(inconsistent_fields)]
pub enum ParseError {
    /// The text nests deeper than the parser is trusted with.
    TooDeep,
    /// The text is not TOML; the parser's own words are in `message`.
    Syntax { message: String },
    /// The document is no table.
    NotATable,
    /// A key that must be there is not.
    MissingField { key: Key, channel: Option<usize> },
    /// A key holds a value of another kind than its setting has.
    WrongKind { key: Key, channel: Option<usize> },
    /// The text under a key is no duration.
    InvalidDuration { key: Key, text: String },
    /// A filter of a channel rule does not compile.
    InvalidPattern { channel: usize, pattern: String },
}

/// Why an operation on the configuration failed.
#[derive(Clone, Debug, PartialEq, Eq)]
pub enum ConfigError {
    /// The settings file could not be read; the reason as the reader gave it.
    ReadFailure(String),
    /// The text is no configuration.
    ParseFailure(ParseError),
    /// The settings file could not be written; the reason as the writer gave
    /// it.
    WriteFailure(String),
}

/// The character of a decimal digit.
pub open spec fn digit_char(digit: nat) -> char {
    if digit == 0 {
        '0'
    } else if digit == 1 {
        '1'
    } else if digit == 2 {
        '2'
    } else if digit == 3 {
        '3'
    } else if digit == 4 {
        '4'
    } else if digit == 5 {
        '5'
    } else if digit == 6 {
        '6'
    } else if digit == 7 {
        '7'
    } else if digit == 8 {
        '8'
    } else {
        '9'
    }
}

/// A number in decimal digits, the highest first, without leading zeros.
pub open spec fn decimal_text(number: nat) -> Seq<char>
    decreases number,
{
    if number < 10 {
        seq![digit_char(number)]
    } else {
        decimal_text(number / 10).push(digit_char(number % 10))
    }
}

/// Where a failure lies: nowhere in words for a key outside the channel
/// rules, else the position of the channel rule.
pub open spec fn place_text(channel: Option<usize>) -> Seq<char> {
    match channel {
        None => Seq::empty(),
        Some(position) => " in channel "@ + decimal_text(position as nat),
    }
}

impl ParseError {
    /// The failure in words.
    pub open spec fn message_text(self) -> Seq<char> {
        match self {
            ParseError::TooDeep => "the text nests too deep"@,
            ParseError::Syntax { message } => "not TOML: "@ + message@,
            ParseError::NotATable => "the document is no table"@,
            ParseError::MissingField { key, channel } => "missing field `"@ + key_text(key) + "`"@
                + place_text(channel),
            ParseError::WrongKind { key, channel } => "invalid type for `"@ + key_text(key) + "`"@
                + place_text(channel),
            ParseError::InvalidDuration { key, text } => "invalid duration for `"@ + key_text(key)
                + "`: "@ + text@,
            ParseError::InvalidPattern { channel, pattern } => "invalid pattern"@ + place_text(
                Some(channel),
            ) + ": "@ + pattern@,
        }
    }

    /// Says the failure in words: what is wrong, under which key, in which
    /// channel rule, and with which text.
    pub fn message(&self) -> (message: String)
        ensures
            message@ == self.message_text(),
    {
        match self {
            ParseError::TooDeep => String::from_str("the text nests too deep"),
            ParseError::Syntax { message } => String::from_str("not TOML: ").concat(
                message.as_str(),
            ),
            ParseError::NotATable => String::from_str("the document is no table"),
            ParseError::MissingField { key, channel } => {
                let text = String::from_str("missing field `").concat(key.name()).concat("`");
                text.concat(place(*channel).as_str())
            },
            ParseError::WrongKind { key, channel } => {
                let text = String::from_str("invalid type for `").concat(key.name()).concat("`");
                text.concat(place(*channel).as_str())
            },
            ParseError::InvalidDuration { key, text } => {
                let head = String::from_str("invalid duration for `").concat(key.name());
                head.concat("`: ").concat(text.as_str())
            },
            ParseError::InvalidPattern { channel, pattern } => {
                let head = String::from_str("invalid pattern").concat(
                    place(Some(*channel)).as_str(),
                );
                head.concat(": ").concat(pattern.as_str())
            },
        }
    }
}

impl ConfigError {
    /// The failure in words.
    pub open spec fn message_text(self) -> Seq<char> {
        match self {
            ConfigError::ReadFailure(reason) => "failed to read the settings file: "@ + reason@,
            ConfigError::ParseFailure(error) => "failed to parse the settings: "@
                + error.message_text(),
            ConfigError::WriteFailure(reason) => "failed to write the settings file: "@ + reason@,
        }
    }

    /// Says the failure in words.
    pub fn message(&self) -> (message: String)
        ensures
            message@ == self.message_text(),
    {
        match self {
            ConfigError::ReadFailure(reason) => String::from_str(
                "failed to read the settings file: ",
            ).concat(reason.as_str()),
            ConfigError::ParseFailure(error) => String::from_str(
                "failed to parse the settings: ",
            ).concat(error.message().as_str()),
            ConfigError::WriteFailure(reason) => String::from_str(
                "failed to write the settings file: ",
            ).concat(reason.as_str()),
        }
    }
}

/// The text of a decimal digit.
fn digit(value: usize) -> (text: &'static str)
    requires
        value < 10,
    ensures
        text@ == seq![digit_char(value as nat)],
{
    proof {
        reveal_strlit("0");
        reveal_strlit("1");
        reveal_strlit("2");
        reveal_strlit("3");
        reveal_strlit("4");
        reveal_strlit("5");
        reveal_strlit("6");
        reveal_strlit("7");
        reveal_strlit("8");
        reveal_strlit("9");
    }
    let text = if value == 0 {
        "0"
    } else if value == 1 {
        "1"
    } else if value == 2 {
        "2"
    } else if value == 3 {
        "3"
    } else if value == 4 {
        "4"
    } else if value == 5 {
        "5"
    } else if value == 6 {
        "6"
    } else if value == 7 {
        "7"
    } else if value == 8 {
        "8"
    } else {
        "9"
    };
    proof {
        assert(text@ =~= seq![digit_char(value as nat)]);
    }
    text
}

/// Writes a number in decimal digits.
fn decimal(number: usize) -> (text: String)
    ensures
        text@ == decimal_text(number as nat),
    decreases number,
{
    if number < 10 {
        String::from_str(digit(number))
    } else {
        let text = decimal(number / 10).concat(digit(number % 10));
        proof {
            assert(text@ =~= decimal_text(number as nat));
        }
        text
    }
}

/// Says where a failure lies.
fn place(channel: Option<usize>) -> (text: String)
    ensures
        text@ == place_text(channel),
{
    match channel {
        None => String::new(),
        Some(position) => String::from_str(" in channel ").concat(decimal(position).as_str()),
    }
}

} // verus!
