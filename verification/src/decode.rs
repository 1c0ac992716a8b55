//! From a document to a configuration: which keys must be there, what is
//! taken for those that may be absent, and what each value must be.

use crate::document::{field, find_field, Item};
use crate::duration::{
    default_delay_start, default_false, default_ignore_older_than, duration_nanos,
    read_duration, text_duration,
};
use crate::error::{key_text, Key, ParseError};
use crate::pattern::{regex_accepts, regex_source, sources};
use crate::schema::{
    channel_views, status_names, texts, ChannelConfig, ChannelView, Config, ConfigView,
    NotifierConfig, NotifierDiscordConfig, NotifierDiscordView, NotifierView, ScraperConfig,
    ScraperRSSConfig, ScraperRSSView, ScraperView, TaskStatus, WebserverConfig,
    WebserverView, YtarchiveConfig, YtarchiveView,
};
use crate::nesting::{peak_nesting, MAX_NESTING};
use crate::toml_text::{parse_document, text_document, toml_document};
use regex::Regex;
use std::time::Duration;
use vstd::prelude::*;

verus! {

/// Nanoseconds of the startup delay of a file that gives none: one second.
pub open spec fn delay_start_default() -> nat {
    1_000_000_000
}

/// Nanoseconds of the age limit of a file that gives none: 24 hours.
pub open spec fn ignore_older_than_default() -> nat {
    86_400_000_000_000
}

/// Whether a result holds the value, or the failure, that is wanted.
pub open spec fn agrees<T: View>(got: Result<T, ParseError>, want: Result<T::V, ParseError>) -> bool {
    match got {
        Ok(value) => want == Ok::<T::V, ParseError>(value@),
        Err(error) => want == Err::<T::V, ParseError>(error),
    }
}

/// The text under a key that must be there.
pub open spec fn text_at(entries: Seq<(String, Item)>, key: Key, channel: Option<usize>) -> Result<
    String,
    ParseError,
> {
    match field(entries, key_text(key)) {
        None => Err(ParseError::MissingField { key, channel }),
        Some(Item::Text(text)) => Ok(text),
        Some(_) => Err(ParseError::WrongKind { key, channel }),
    }
}

/// The text under a key that may be absent.
pub open spec fn optional_text_at(
    entries: Seq<(String, Item)>,
    key: Key,
    channel: Option<usize>,
) -> Result<Option<String>, ParseError> {
    match field(entries, key_text(key)) {
        None => Ok(None),
        Some(Item::Text(text)) => Ok(Some(text)),
        Some(_) => Err(ParseError::WrongKind { key, channel }),
    }
}

/// The flag under a key, or `absent` where the key is not there.
pub open spec fn flag_at(
    entries: Seq<(String, Item)>,
    key: Key,
    channel: Option<usize>,
    absent: bool,
) -> Result<bool, ParseError> {
    match field(entries, key_text(key)) {
        None => Ok(absent),
        Some(Item::Boolean(flag)) => Ok(flag),
        Some(_) => Err(ParseError::WrongKind { key, channel }),
    }
}

/// The entries of the table under a key that may be absent.
pub open spec fn optional_table_at(entries: Seq<(String, Item)>, key: Key) -> Result<
    Option<Seq<(String, Item)>>,
    ParseError,
> {
    match field(entries, key_text(key)) {
        None => Ok(None),
        Some(Item::Table(table)) => Ok(Some(table@)),
        Some(_) => Err(ParseError::WrongKind { key, channel: None }),
    }
}

/// The entries of the table under a key that must be there.
pub open spec fn table_at(entries: Seq<(String, Item)>, key: Key) -> Result<
    Seq<(String, Item)>,
    ParseError,
> {
    match optional_table_at(entries, key) {
        Ok(Some(table)) => Ok(table),
        Ok(None) => Err(ParseError::MissingField { key, channel: None }),
        Err(error) => Err(error),
    }
}

/// The items of the array under a key that must be there.
pub open spec fn array_at(entries: Seq<(String, Item)>, key: Key, channel: Option<usize>) -> Result<
    Seq<Item>,
    ParseError,
> {
    match field(entries, key_text(key)) {
        None => Err(ParseError::MissingField { key, channel }),
        Some(Item::Array(items)) => Ok(items@),
        Some(_) => Err(ParseError::WrongKind { key, channel }),
    }
}

/// Whether every item is a text.
pub open spec fn all_texts(items: Seq<Item>) -> bool {
    forall|i: int| 0 <= i < items.len() ==> (#[trigger] items[i]) is Text
}

/// The strings of items that are texts.
pub open spec fn item_strings(items: Seq<Item>) -> Seq<String> {
    Seq::new(items.len(), |i: int| items[i]->Text_0)
}

/// The strings of the array under a key that must be there.
pub open spec fn strings_at(
    entries: Seq<(String, Item)>,
    key: Key,
    channel: Option<usize>,
) -> Result<Seq<String>, ParseError> {
    match array_at(entries, key, channel) {
        Err(error) => Err(error),
        Ok(items) => if all_texts(items) {
            Ok(item_strings(items))
        } else {
            Err(ParseError::WrongKind { key, channel })
        },
    }
}

/// The duration under a key, in nanoseconds; `None` where the key is not
/// there.
pub open spec fn duration_at(entries: Seq<(String, Item)>, key: Key) -> Result<
    Option<nat>,
    ParseError,
> {
    match field(entries, key_text(key)) {
        None => Ok(None),
        Some(Item::Text(text)) => match text_duration(text@) {
            Some(nanos) => Ok(Some(nanos)),
            None => Err(ParseError::InvalidDuration { key, text }),
        },
        Some(_) => Err(ParseError::WrongKind { key, channel: None }),
    }
}

/// The first of the patterns that does not compile.
pub open spec fn first_rejected(patterns: Seq<String>) -> Option<String>
    decreases patterns.len(),
{
    if patterns.len() == 0 {
        None
    } else {
        match first_rejected(patterns.drop_last()) {
            Some(pattern) => Some(pattern),
            None => if regex_accepts(patterns.last()@) {
                None
            } else {
                Some(patterns.last())
            },
        }
    }
}

/// The filters of a channel rule, as the texts they are compiled from.
pub open spec fn filters_at(entries: Seq<(String, Item)>, channel: usize) -> Result<
    Seq<Seq<char>>,
    ParseError,
> {
    match strings_at(entries, Key::Filters, Some(channel)) {
        Err(error) => Err(error),
        Ok(patterns) => match first_rejected(patterns) {
            Some(pattern) => Err(ParseError::InvalidPattern { channel, pattern }),
            None => Ok(texts(patterns)),
        },
    }
}

/// What the table of the archiving tool says.
pub open spec fn ytarchive_view(entries: Seq<(String, Item)>) -> Result<YtarchiveView, ParseError> {
    match text_at(entries, Key::ExecutablePath, None) {
        Err(error) => Err(error),
        Ok(executable_path) => match text_at(entries, Key::WorkingDirectory, None) {
            Err(error) => Err(error),
            Ok(working_directory) => match strings_at(entries, Key::Args, None) {
                Err(error) => Err(error),
                Ok(args) => match text_at(entries, Key::Quality, None) {
                    Err(error) => Err(error),
                    Ok(quality) => match duration_at(entries, Key::DelayStart) {
                        Err(error) => Err(error),
                        Ok(delay_start) => Ok(
                            YtarchiveView {
                                executable_path: executable_path@,
                                working_directory: working_directory@,
                                args: texts(args),
                                quality: quality@,
                                delay_start: match delay_start {
                                    Some(nanos) => nanos,
                                    None => delay_start_default(),
                                },
                            },
                        ),
                    },
                },
            },
        },
    }
}

/// What the table of the feed poller says.
pub open spec fn rss_view(entries: Seq<(String, Item)>) -> Result<ScraperRSSView, ParseError> {
    match duration_at(entries, Key::PollInterval) {
        Err(error) => Err(error),
        Ok(None) => Err(ParseError::MissingField { key: Key::PollInterval, channel: None }),
        Ok(Some(poll_interval)) => match duration_at(entries, Key::IgnoreOlderThan) {
            Err(error) => Err(error),
            Ok(ignore_older_than) => Ok(
                ScraperRSSView {
                    poll_interval,
                    ignore_older_than: match ignore_older_than {
                        Some(nanos) => nanos,
                        None => ignore_older_than_default(),
                    },
                },
            ),
        },
    }
}

/// What the table of the scraper says.
pub open spec fn scraper_view(entries: Seq<(String, Item)>) -> Result<ScraperView, ParseError> {
    match table_at(entries, Key::Rss) {
        Err(error) => Err(error),
        Ok(table) => match rss_view(table) {
            Err(error) => Err(error),
            Ok(rss) => Ok(ScraperView { rss }),
        },
    }
}

/// What the table of the Discord notifier says.
pub open spec fn discord_view(entries: Seq<(String, Item)>) -> Result<
    NotifierDiscordView,
    ParseError,
> {
    match text_at(entries, Key::WebhookUrl, None) {
        Err(error) => Err(error),
        Ok(webhook_url) => match strings_at(entries, Key::NotifyOn, None) {
            Err(error) => Err(error),
            Ok(notify_on) => Ok(
                NotifierDiscordView { webhook_url: webhook_url@, notify_on: texts(notify_on) },
            ),
        },
    }
}

/// What the table of the notifiers says.
pub open spec fn notifier_view(entries: Seq<(String, Item)>) -> Result<NotifierView, ParseError> {
    match optional_table_at(entries, Key::Discord) {
        Err(error) => Err(error),
        Ok(None) => Ok(NotifierView { discord: None }),
        Ok(Some(table)) => match discord_view(table) {
            Err(error) => Err(error),
            Ok(discord) => Ok(NotifierView { discord: Some(discord) }),
        },
    }
}

/// What the table of the web server says.
pub open spec fn webserver_view(entries: Seq<(String, Item)>) -> Result<WebserverView, ParseError> {
    match text_at(entries, Key::BindAddress, None) {
        Err(error) => Err(error),
        Ok(bind_address) => Ok(WebserverView { bind_address: bind_address@ }),
    }
}

/// What the table of the channel rule at a position says.
pub open spec fn channel_view(entries: Seq<(String, Item)>, channel: usize) -> Result<
    ChannelView,
    ParseError,
> {
    match text_at(entries, Key::Id, Some(channel)) {
        Err(error) => Err(error),
        Ok(id) => match text_at(entries, Key::Name, Some(channel)) {
            Err(error) => Err(error),
            Ok(name) => match filters_at(entries, channel) {
                Err(error) => Err(error),
                Ok(filters) => match flag_at(entries, Key::MatchDescription, Some(channel), false) {
                    Err(error) => Err(error),
                    Ok(match_description) => match text_at(entries, Key::Outpath, Some(channel)) {
                        Err(error) => Err(error),
                        Ok(outpath) => match optional_text_at(
                            entries,
                            Key::PictureUrl,
                            Some(channel),
                        ) {
                            Err(error) => Err(error),
                            Ok(picture_url) => Ok(
                                ChannelView {
                                    id: id@,
                                    name: name@,
                                    filters,
                                    match_description,
                                    outpath: outpath@,
                                    picture_url: match picture_url {
                                        Some(url) => Some(url@),
                                        None => None,
                                    },
                                },
                            ),
                        },
                    },
                },
            },
        },
    }
}

/// What the item at a position of the channel array says.
pub open spec fn channel_item_view(item: Item, channel: usize) -> Result<ChannelView, ParseError> {
    match item {
        Item::Table(table) => channel_view(table@, channel),
        _ => Err(ParseError::WrongKind { key: Key::Channel, channel: Some(channel) }),
    }
}

/// What the items of the channel array say, in their order; the failure of
/// the first that has one.
pub open spec fn channel_list_view(items: Seq<Item>) -> Result<Seq<ChannelView>, ParseError>
    decreases items.len(),
{
    if items.len() == 0 {
        Ok(Seq::empty())
    } else {
        match channel_list_view(items.drop_last()) {
            Err(error) => Err(error),
            Ok(views) => match channel_item_view(items.last(), (items.len() - 1) as usize) {
                Err(error) => Err(error),
                Ok(view) => Ok(views.push(view)),
            },
        }
    }
}

/// What the entries of a document say.
pub open spec fn root_view(entries: Seq<(String, Item)>) -> Result<ConfigView, ParseError> {
    match table_at(entries, Key::Ytarchive) {
        Err(error) => Err(error),
        Ok(ytarchive_table) => match ytarchive_view(ytarchive_table) {
            Err(error) => Err(error),
            Ok(ytarchive) => match table_at(entries, Key::Scraper) {
                Err(error) => Err(error),
                Ok(scraper_table) => match scraper_view(scraper_table) {
                    Err(error) => Err(error),
                    Ok(scraper) => match optional_section(
                        optional_table_at(entries, Key::Notifier),
                        |table: Seq<(String, Item)>| notifier_view(table),
                    ) {
                        Err(error) => Err(error),
                        Ok(notifier) => match optional_section(
                            optional_table_at(entries, Key::Webserver),
                            |table: Seq<(String, Item)>| webserver_view(table),
                        ) {
                            Err(error) => Err(error),
                            Ok(webserver) => match array_at(entries, Key::Channel, None) {
                                Err(error) => Err(error),
                                Ok(items) => match channel_list_view(items) {
                                    Err(error) => Err(error),
                                    Ok(channel) => Ok(
                                        ConfigView {
                                            ytarchive,
                                            scraper,
                                            notifier,
                                            webserver,
                                            channel,
                                        },
                                    ),
                                },
                            },
                        },
                    },
                },
            },
        },
    }
}

/// What a section that may be absent says: nothing where its table is not
/// there.
pub open spec fn optional_section<V>(
    table: Result<Option<Seq<(String, Item)>>, ParseError>,
    section: spec_fn(Seq<(String, Item)>) -> Result<V, ParseError>,
) -> Result<Option<V>, ParseError> {
    match table {
        Err(error) => Err(error),
        Ok(None) => Ok(None),
        Ok(Some(entries)) => match section(entries) {
            Err(error) => Err(error),
            Ok(view) => Ok(Some(view)),
        },
    }
}

/// The configuration that a document holds, or why it holds none.
///
/// The sections are read in the order archiving tool, scraper, notifiers,
/// web server, channel rules, and the keys of each in the order of the
/// schema; the first failure on the way is the one that is given.
pub open spec fn document_config(document: Item) -> Result<ConfigView, ParseError> {
    match document {
        Item::Table(entries) => root_view(entries@),
        _ => Err(ParseError::NotATable),
    }
}

/// A table of the archiving tool that says nothing of the startup delay
/// gives one second, a table of the feed poller that says nothing of the age
/// limit gives 24 hours, and a channel rule that says nothing of
/// descriptions does not match them.
pub proof fn lemma_absent_keys_take_defaults(entries: Seq<(String, Item)>, channel: usize)
    ensures
        field(entries, key_text(Key::DelayStart)) is None ==> (ytarchive_view(entries) matches Ok(
            view,
        ) ==> view.delay_start == 1_000_000_000),
        field(entries, key_text(Key::IgnoreOlderThan)) is None ==> (rss_view(entries) matches Ok(
            view,
        ) ==> view.ignore_older_than == 24 * 60 * 60 * 1_000_000_000),
        field(entries, key_text(Key::MatchDescription)) is None ==> (channel_view(
            entries,
            channel,
        ) matches Ok(view) ==> !view.match_description),
{
}

/// Whether a key is not among the entries of a table.
pub open spec fn lacks(entries: Seq<(String, Item)>, key: Key) -> bool {
    field(entries, key_text(key)) is None
}

/// A table that lacks a key that its section must have holds no settings,
/// and a document with such a table, or without a section that must be
/// there, holds no configuration.
pub proof fn lemma_required_keys(entries: Seq<(String, Item)>, channel: usize)
    ensures
        lacks(entries, Key::ExecutablePath) || lacks(entries, Key::WorkingDirectory) || lacks(
            entries,
            Key::Args,
        ) || lacks(entries, Key::Quality) ==> ytarchive_view(entries) is Err,
        lacks(entries, Key::PollInterval) ==> rss_view(entries) is Err,
        lacks(entries, Key::Rss) ==> scraper_view(entries) is Err,
        lacks(entries, Key::WebhookUrl) || lacks(entries, Key::NotifyOn) ==> discord_view(
            entries,
        ) is Err,
        lacks(entries, Key::BindAddress) ==> webserver_view(entries) is Err,
        lacks(entries, Key::Id) || lacks(entries, Key::Name) || lacks(entries, Key::Filters)
            || lacks(entries, Key::Outpath) ==> channel_view(entries, channel) is Err,
        lacks(entries, Key::Ytarchive) || lacks(entries, Key::Scraper) || lacks(
            entries,
            Key::Channel,
        ) ==> root_view(entries) is Err,
{
}

/// Reads the text under a key that must be there.
fn get_text(entries: &Vec<(String, Item)>, key: Key, channel: Option<usize>) -> (r: Result<
    String,
    ParseError,
>)
    ensures
        r == text_at(entries@, key, channel),
{
    match find_field(entries, key.name()) {
        None => Err(ParseError::MissingField { key, channel }),
        Some(Item::Text(text)) => Ok(text.clone()),
        Some(_) => Err(ParseError::WrongKind { key, channel }),
    }
}

/// Reads the text under a key that may be absent.
fn get_optional_text(entries: &Vec<(String, Item)>, key: Key, channel: Option<usize>) -> (r:
    Result<Option<String>, ParseError>)
    ensures
        r == optional_text_at(entries@, key, channel),
{
    match find_field(entries, key.name()) {
        None => Ok(None),
        Some(Item::Text(text)) => Ok(Some(text.clone())),
        Some(_) => Err(ParseError::WrongKind { key, channel }),
    }
}

/// Reads the flag under a key, or takes `absent` where the key is not there.
fn get_flag(entries: &Vec<(String, Item)>, key: Key, channel: Option<usize>, absent: bool) -> (r:
    Result<bool, ParseError>)
    ensures
        r == flag_at(entries@, key, channel, absent),
{
    match find_field(entries, key.name()) {
        None => Ok(absent),
        Some(Item::Boolean(flag)) => Ok(*flag),
        Some(_) => Err(ParseError::WrongKind { key, channel }),
    }
}

/// Finds the table under a key that may be absent.
fn get_optional_table<'a>(entries: &'a Vec<(String, Item)>, key: Key) -> (r: Result<
    Option<&'a Vec<(String, Item)>>,
    ParseError,
>)
    ensures
        match r {
            Ok(Some(table)) => optional_table_at(entries@, key) == Ok::<
                Option<Seq<(String, Item)>>,
                ParseError,
            >(Some(table@)),
            Ok(None) => optional_table_at(entries@, key) == Ok::<
                Option<Seq<(String, Item)>>,
                ParseError,
            >(None),
            Err(error) => optional_table_at(entries@, key) == Err::<
                Option<Seq<(String, Item)>>,
                ParseError,
            >(error),
        },
{
    match find_field(entries, key.name()) {
        None => Ok(None),
        Some(Item::Table(table)) => Ok(Some(table)),
        Some(_) => Err(ParseError::WrongKind { key, channel: None }),
    }
}

/// Finds the table under a key that must be there.
fn get_table<'a>(entries: &'a Vec<(String, Item)>, key: Key) -> (r: Result<
    &'a Vec<(String, Item)>,
    ParseError,
>)
    ensures
        match r {
            Ok(table) => table_at(entries@, key) == Ok::<Seq<(String, Item)>, ParseError>(table@),
            Err(error) => table_at(entries@, key) == Err::<Seq<(String, Item)>, ParseError>(error),
        },
{
    match get_optional_table(entries, key) {
        Ok(Some(table)) => Ok(table),
        Ok(None) => Err(ParseError::MissingField { key, channel: None }),
        Err(error) => Err(error),
    }
}

/// Finds the array under a key that must be there.
fn get_array<'a>(entries: &'a Vec<(String, Item)>, key: Key, channel: Option<usize>) -> (r: Result<
    &'a Vec<Item>,
    ParseError,
>)
    ensures
        match r {
            Ok(items) => array_at(entries@, key, channel) == Ok::<Seq<Item>, ParseError>(items@),
            Err(error) => array_at(entries@, key, channel) == Err::<Seq<Item>, ParseError>(error),
        },
{
    match find_field(entries, key.name()) {
        None => Err(ParseError::MissingField { key, channel }),
        Some(Item::Array(items)) => Ok(items),
        Some(_) => Err(ParseError::WrongKind { key, channel }),
    }
}

/// Reads the strings of the array under a key that must be there.
fn get_strings(entries: &Vec<(String, Item)>, key: Key, channel: Option<usize>) -> (r: Result<
    Vec<String>,
    ParseError,
>)
    ensures
        match r {
            Ok(strings) => strings_at(entries@, key, channel) == Ok::<Seq<String>, ParseError>(
                strings@,
            ),
            Err(error) => strings_at(entries@, key, channel) == Err::<Seq<String>, ParseError>(
                error,
            ),
        },
{
    let items = match get_array(entries, key, channel) {
        Ok(items) => items,
        Err(error) => {
            return Err(error);
        },
    };
    let mut strings: Vec<String> = Vec::new();
    let mut i: usize = 0;
    while i < items.len()
        invariant
            i <= items.len(),
            strings@.len() == i,
            array_at(entries@, key, channel) == Ok::<Seq<Item>, ParseError>(items@),
            forall|j: int| 0 <= j < i ==> (#[trigger] items@[j]) is Text,
            forall|j: int| 0 <= j < i ==> #[trigger] strings@[j] == items@[j]->Text_0,
        decreases items.len() - i,
    {
        match &items[i] {
            Item::Text(text) => {
                strings.push(text.clone());
            },
            _ => {
                assert(!(items@[i as int] is Text));
                return Err(ParseError::WrongKind { key, channel });
            },
        }
        i = i + 1;
    }
    proof {
        assert(strings@ =~= item_strings(items@));
    }
    Ok(strings)
}

/// Reads the duration under a key; `None` where the key is not there.
fn get_duration(entries: &Vec<(String, Item)>, key: Key) -> (r: Result<
    Option<Duration>,
    ParseError,
>)
    ensures
        match r {
            Ok(Some(d)) => duration_at(entries@, key) == Ok::<Option<nat>, ParseError>(
                Some(duration_nanos(d)),
            ),
            Ok(None) => duration_at(entries@, key) == Ok::<Option<nat>, ParseError>(None),
            Err(error) => duration_at(entries@, key) == Err::<Option<nat>, ParseError>(error),
        },
{
    match find_field(entries, key.name()) {
        None => Ok(None),
        Some(Item::Text(text)) => match read_duration(text.as_str()) {
            Some(d) => Ok(Some(d)),
            None => Err(ParseError::InvalidDuration { key, text: text.clone() }),
        },
        Some(_) => Err(ParseError::WrongKind { key, channel: None }),
    }
}

/// Reads and compiles the filters of the channel rule at a position.
fn get_filters(entries: &Vec<(String, Item)>, channel: usize) -> (r: Result<
    Vec<Regex>,
    ParseError,
>)
    ensures
        match r {
            Ok(filters) => {
                &&& filters_at(entries@, channel) == Ok::<Seq<Seq<char>>, ParseError>(
                    sources(filters@),
                )
                &&& forall|i: int|
                    0 <= i < filters@.len() ==> regex_accepts(
                        regex_source(#[trigger] filters@[i]),
                    )
            },
            Err(error) => filters_at(entries@, channel) == Err::<Seq<Seq<char>>, ParseError>(
                error,
            ),
        },
{
    let patterns = match get_strings(entries, Key::Filters, Some(channel)) {
        Ok(patterns) => patterns,
        Err(error) => {
            return Err(error);
        },
    };
    let mut filters: Vec<Regex> = Vec::new();
    let mut i: usize = 0;
    while i < patterns.len()
        invariant
            i <= patterns.len(),
            filters@.len() == i,
            strings_at(entries@, Key::Filters, Some(channel)) == Ok::<Seq<String>, ParseError>(
                patterns@,
            ),
            first_rejected(patterns@.take(i as int)) is None,
            forall|j: int| 0 <= j < i ==> regex_source(#[trigger] filters@[j]) == patterns@[j]@,
            forall|j: int| 0 <= j < i ==> regex_accepts(regex_source(#[trigger] filters@[j])),
        decreases patterns.len() - i,
    {
        proof {
            assert(patterns@.take(i + 1).drop_last() =~= patterns@.take(i as int));
            assert(patterns@.take(i + 1).last() == patterns@[i as int]);
        }
        match Regex::new(patterns[i].as_str()) {
            Ok(filter) => {
                filters.push(filter);
            },
            Err(_) => {
                proof {
                    assert(first_rejected(patterns@.take(i + 1)) == Some(patterns@[i as int]));
                    lemma_first_rejected_stays(patterns@, i + 1);
                }
                return Err(
                    ParseError::InvalidPattern { channel, pattern: patterns[i].clone() },
                );
            },
        }
        i = i + 1;
    }
    proof {
        assert(patterns@.take(patterns@.len() as int) =~= patterns@);
        assert(sources(filters@) =~= texts(patterns@));
    }
    Ok(filters)
}

/// A pattern that is the first rejected of a part from the start is the
/// first rejected of the whole.
pub proof fn lemma_first_rejected_stays(patterns: Seq<String>, k: int)
    requires
        0 <= k <= patterns.len(),
        first_rejected(patterns.take(k)) is Some,
    ensures
        first_rejected(patterns) == first_rejected(patterns.take(k)),
    decreases patterns.len(),
{
    if k == patterns.len() {
        assert(patterns.take(k) =~= patterns);
    } else {
        assert(patterns.drop_last().take(k) =~= patterns.take(k));
        lemma_first_rejected_stays(patterns.drop_last(), k);
    }
}

/// Reads the table of the archiving tool.
fn decode_ytarchive(entries: &Vec<(String, Item)>) -> (r: Result<YtarchiveConfig, ParseError>)
    ensures
        agrees(r, ytarchive_view(entries@)),
{
    let executable_path = match get_text(entries, Key::ExecutablePath, None) {
        Ok(text) => text,
        Err(error) => {
            return Err(error);
        },
    };
    let working_directory = match get_text(entries, Key::WorkingDirectory, None) {
        Ok(text) => text,
        Err(error) => {
            return Err(error);
        },
    };
    let args = match get_strings(entries, Key::Args, None) {
        Ok(strings) => strings,
        Err(error) => {
            return Err(error);
        },
    };
    let quality = match get_text(entries, Key::Quality, None) {
        Ok(text) => text,
        Err(error) => {
            return Err(error);
        },
    };
    let delay_start = match get_duration(entries, Key::DelayStart) {
        Ok(Some(d)) => d,
        Ok(None) => default_delay_start(),
        Err(error) => {
            return Err(error);
        },
    };
    Ok(YtarchiveConfig { executable_path, working_directory, args, quality, delay_start })
}

/// Reads the table of the feed poller.
fn decode_rss(entries: &Vec<(String, Item)>) -> (r: Result<ScraperRSSConfig, ParseError>)
    ensures
        agrees(r, rss_view(entries@)),
{
    let poll_interval = match get_duration(entries, Key::PollInterval) {
        Ok(Some(d)) => d,
        Ok(None) => {
            return Err(ParseError::MissingField { key: Key::PollInterval, channel: None });
        },
        Err(error) => {
            return Err(error);
        },
    };
    let ignore_older_than = match get_duration(entries, Key::IgnoreOlderThan) {
        Ok(Some(d)) => d,
        Ok(None) => default_ignore_older_than(),
        Err(error) => {
            return Err(error);
        },
    };
    Ok(ScraperRSSConfig { poll_interval, ignore_older_than })
}

/// Reads the table of the scraper.
fn decode_scraper(entries: &Vec<(String, Item)>) -> (r: Result<ScraperConfig, ParseError>)
    ensures
        agrees(r, scraper_view(entries@)),
{
    let table = match get_table(entries, Key::Rss) {
        Ok(table) => table,
        Err(error) => {
            return Err(error);
        },
    };
    match decode_rss(table) {
        Ok(rss) => Ok(ScraperConfig { rss }),
        Err(error) => Err(error),
    }
}

/// Makes statuses of their names.
fn statuses(names: &Vec<String>) -> (list: Vec<TaskStatus>)
    ensures
        status_names(list@) == texts(names@),
{
    let mut list: Vec<TaskStatus> = Vec::new();
    let mut i: usize = 0;
    while i < names.len()
        invariant
            i <= names.len(),
            list@.len() == i,
            forall|j: int| 0 <= j < i ==> (#[trigger] list@[j]).name == names@[j],
        decreases names.len() - i,
    {
        list.push(TaskStatus { name: names[i].clone() });
        i = i + 1;
    }
    proof {
        assert(status_names(list@) =~= texts(names@));
    }
    list
}

/// Reads the table of the Discord notifier.
fn decode_discord(entries: &Vec<(String, Item)>) -> (r: Result<NotifierDiscordConfig, ParseError>)
    ensures
        agrees(r, discord_view(entries@)),
{
    let webhook_url = match get_text(entries, Key::WebhookUrl, None) {
        Ok(text) => text,
        Err(error) => {
            return Err(error);
        },
    };
    let names = match get_strings(entries, Key::NotifyOn, None) {
        Ok(strings) => strings,
        Err(error) => {
            return Err(error);
        },
    };
    Ok(NotifierDiscordConfig { webhook_url, notify_on: statuses(&names) })
}

/// Reads the table of the notifiers.
fn decode_notifier(entries: &Vec<(String, Item)>) -> (r: Result<NotifierConfig, ParseError>)
    ensures
        agrees(r, notifier_view(entries@)),
{
    match get_optional_table(entries, Key::Discord) {
        Err(error) => Err(error),
        Ok(None) => Ok(NotifierConfig { discord: None }),
        Ok(Some(table)) => match decode_discord(table) {
            Ok(discord) => Ok(NotifierConfig { discord: Some(discord) }),
            Err(error) => Err(error),
        },
    }
}

/// Reads the table of the web server.
fn decode_webserver(entries: &Vec<(String, Item)>) -> (r: Result<WebserverConfig, ParseError>)
    ensures
        agrees(r, webserver_view(entries@)),
{
    match get_text(entries, Key::BindAddress, None) {
        Ok(bind_address) => Ok(WebserverConfig { bind_address }),
        Err(error) => Err(error),
    }
}

/// Reads the table of the channel rule at a position.
fn decode_channel(entries: &Vec<(String, Item)>, channel: usize) -> (r: Result<
    ChannelConfig,
    ParseError,
>)
    ensures
        agrees(r, channel_view(entries@, channel)),
        r matches Ok(rule) ==> rule.wf(),
{
    let id = match get_text(entries, Key::Id, Some(channel)) {
        Ok(text) => text,
        Err(error) => {
            return Err(error);
        },
    };
    let name = match get_text(entries, Key::Name, Some(channel)) {
        Ok(text) => text,
        Err(error) => {
            return Err(error);
        },
    };
    let filters = match get_filters(entries, channel) {
        Ok(filters) => filters,
        Err(error) => {
            return Err(error);
        },
    };
    let match_description = match get_flag(
        entries,
        Key::MatchDescription,
        Some(channel),
        default_false(),
    ) {
        Ok(flag) => flag,
        Err(error) => {
            return Err(error);
        },
    };
    let outpath = match get_text(entries, Key::Outpath, Some(channel)) {
        Ok(text) => text,
        Err(error) => {
            return Err(error);
        },
    };
    let picture_url = match get_optional_text(entries, Key::PictureUrl, Some(channel)) {
        Ok(url) => url,
        Err(error) => {
            return Err(error);
        },
    };
    Ok(ChannelConfig { id, name, filters, match_description, outpath, picture_url })
}

/// A failure among the first items of the channel array is the failure of
/// the whole array.
pub proof fn lemma_channel_failure_stays(items: Seq<Item>, k: int)
    requires
        0 <= k <= items.len(),
        channel_list_view(items.take(k)) is Err,
    ensures
        channel_list_view(items) == channel_list_view(items.take(k)),
    decreases items.len(),
{
    if k == items.len() {
        assert(items.take(k) =~= items);
    } else {
        assert(items.drop_last().take(k) =~= items.take(k));
        lemma_channel_failure_stays(items.drop_last(), k);
    }
}

/// The channel rules of a configuration stand in the order of the channel
/// array: the rule at each position is what the item at that position says.
pub proof fn lemma_channels_in_order(items: Seq<Item>)
    requires
        channel_list_view(items) is Ok,
    ensures
        channel_list_view(items)->Ok_0.len() == items.len(),
        forall|i: int|
            0 <= i < items.len() ==> #[trigger] channel_item_view(items[i], i as usize) == Ok::<
                ChannelView,
                ParseError,
            >(channel_list_view(items)->Ok_0[i]),
    decreases items.len(),
{
    if items.len() > 0 {
        let rest = items.drop_last();
        lemma_channels_in_order(rest);
        assert forall|i: int| 0 <= i < items.len() implies #[trigger] channel_item_view(
            items[i],
            i as usize,
        ) == Ok::<ChannelView, ParseError>(channel_list_view(items)->Ok_0[i]) by {
            if i < rest.len() {
                assert(rest[i] == items[i]);
                assert(channel_item_view(rest[i], i as usize) == Ok::<ChannelView, ParseError>(
                    channel_list_view(rest)->Ok_0[i],
                ));
            }
        }
    }
}

/// Reads the channel rules, in the order of the array.
fn decode_channels(items: &Vec<Item>) -> (r: Result<Vec<ChannelConfig>, ParseError>)
    ensures
        match r {
            Ok(rules) => {
                &&& channel_list_view(items@) == Ok::<Seq<ChannelView>, ParseError>(
                    channel_views(rules@),
                )
                &&& forall|i: int| 0 <= i < rules@.len() ==> (#[trigger] rules@[i]).wf()
            },
            Err(error) => channel_list_view(items@) == Err::<Seq<ChannelView>, ParseError>(error),
        },
{
    let mut rules: Vec<ChannelConfig> = Vec::new();
    let mut i: usize = 0;
    proof {
        assert(channel_views(rules@) =~= Seq::<ChannelView>::empty());
    }
    while i < items.len()
        invariant
            i <= items.len(),
            rules@.len() == i,
            channel_list_view(items@.take(i as int)) == Ok::<Seq<ChannelView>, ParseError>(
                channel_views(rules@),
            ),
            forall|j: int| 0 <= j < rules@.len() ==> (#[trigger] rules@[j]).wf(),
        decreases items.len() - i,
    {
        proof {
            assert(items@.take(i + 1).drop_last() =~= items@.take(i as int));
            assert(items@.take(i + 1).last() == items@[i as int]);
        }
        let decoded = match &items[i] {
            Item::Table(table) => decode_channel(table, i),
            _ => Err(ParseError::WrongKind { key: Key::Channel, channel: Some(i) }),
        };
        match decoded {
            Ok(rule) => {
                let ghost before = rules@;
                rules.push(rule);
                proof {
                    assert(channel_views(rules@) =~= channel_views(before).push(rule@));
                }
            },
            Err(error) => {
                proof {
                    lemma_channel_failure_stays(items@, i + 1);
                }
                return Err(error);
            },
        }
        i = i + 1;
    }
    proof {
        assert(items@.take(items@.len() as int) =~= items@);
    }
    Ok(rules)
}

/// Decodes a document into a configuration with no path.
///
/// Succeeds on the documents that hold a configuration, with the
/// configuration that `document_config` describes; on every other it gives
/// the failure that `document_config` names.
pub fn decode_config(document: &Item) -> (r: Result<Config, ParseError>)
    ensures
        agrees(r, document_config(*document)),
        r matches Ok(config) ==> config.wf() && config.path() == Seq::<char>::empty(),
{
    let entries = match document {
        Item::Table(entries) => entries,
        _ => {
            return Err(ParseError::NotATable);
        },
    };
    let ytarchive = match get_table(entries, Key::Ytarchive) {
        Ok(table) => match decode_ytarchive(table) {
            Ok(section) => section,
            Err(error) => {
                return Err(error);
            },
        },
        Err(error) => {
            return Err(error);
        },
    };
    let scraper = match get_table(entries, Key::Scraper) {
        Ok(table) => match decode_scraper(table) {
            Ok(section) => section,
            Err(error) => {
                return Err(error);
            },
        },
        Err(error) => {
            return Err(error);
        },
    };
    let notifier = match get_optional_table(entries, Key::Notifier) {
        Ok(Some(table)) => match decode_notifier(table) {
            Ok(section) => Some(section),
            Err(error) => {
                return Err(error);
            },
        },
        Ok(None) => None,
        Err(error) => {
            return Err(error);
        },
    };
    let webserver = match get_optional_table(entries, Key::Webserver) {
        Ok(Some(table)) => match decode_webserver(table) {
            Ok(section) => Some(section),
            Err(error) => {
                return Err(error);
            },
        },
        Ok(None) => None,
        Err(error) => {
            return Err(error);
        },
    };
    let channel = match get_array(entries, Key::Channel, None) {
        Ok(items) => match decode_channels(items) {
            Ok(rules) => rules,
            Err(error) => {
                return Err(error);
            },
        },
        Err(error) => {
            return Err(error);
        },
    };
    Ok(Config::new(ytarchive, scraper, notifier, webserver, channel))
}

/// Whether a text is a configuration: it is handed to the parser, is TOML,
/// and its document holds a configuration.
pub open spec fn is_config(text: Seq<char>) -> bool {
    text_document(text) matches Some(document) && document_config(document) is Ok
}

/// What a text that is a configuration says.
pub open spec fn config_of(text: Seq<char>) -> ConfigView {
    document_config(text_document(text)->Some_0)->Ok_0
}

/// Whether a failure is the one that a text gives: `TooDeep` for a text that
/// nests too deep, `Syntax` for one that is not TOML, and else the failure of
/// its document.
pub open spec fn is_failure_of(text: Seq<char>, error: ParseError) -> bool {
    if peak_nesting(text) > MAX_NESTING {
        error is TooDeep
    } else {
        match toml_document(text) {
            None => error is Syntax,
            Some(document) => document_config(document) == Err::<ConfigView, ParseError>(error),
        }
    }
}

/// Reads a text as a configuration with no path.
///
/// Succeeds on the texts that are a configuration, and on no other; every
/// other text gives its failure, and never a configuration in part.
pub fn parse_config(text: &str) -> (r: Result<Config, ParseError>)
    ensures
        match r {
            Ok(config) => {
                &&& is_config(text@)
                &&& config@ == config_of(text@)
                &&& config.wf()
                &&& config.path() == Seq::<char>::empty()
            },
            Err(error) => !is_config(text@) && is_failure_of(text@, error),
        },
{
    match parse_document(text) {
        Ok(document) => decode_config(&document),
        Err(error) => Err(error),
    }
}

} // verus!
