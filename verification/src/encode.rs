//! From a configuration back to a document that holds it.

use crate::decode::{
    all_texts, channel_item_view, channel_list_view, channel_view, discord_view,
    document_config, first_rejected, item_strings, notifier_view, rss_view, scraper_view,
    webserver_view, ytarchive_view,
};
use crate::document::{lemma_field_absent, lemma_field_at, Item};
use crate::duration::{duration_nanos, text_duration, writable_nanos, write_duration};
use crate::error::{key_text, lemma_key_texts_differ, Key, ParseError};
use crate::pattern::{regex_accepts, regex_source, sources};
use crate::schema::{
    channel_views, status_names, texts, ChannelConfig, ChannelView, Config, ConfigView,
    NotifierConfig, NotifierDiscordConfig, NotifierDiscordView, NotifierView, ScraperConfig,
    ScraperRSSConfig, ScraperRSSView, ScraperView, TaskStatus, WebserverConfig, WebserverView,
    YtarchiveConfig, YtarchiveView,
};
use regex::Regex;
use std::time::Duration;
use vstd::prelude::*;

verus! {

/// An entry of a table: an item under the name of a key.
fn entry(key: Key, item: Item) -> (e: (String, Item))
    ensures
        e.0@ == key_text(key),
        e.1 == item,
{
    (key.name().to_owned(), item)
}

/// An array of the texts of a list of strings.
fn encode_strings(list: &Vec<String>) -> (item: Item)
    ensures
        item matches Item::Array(items) && all_texts(items@) && item_strings(items@) == list@,
{
    let mut items: Vec<Item> = Vec::new();
    let mut i: usize = 0;
    while i < list.len()
        invariant
            i <= list.len(),
            items@.len() == i,
            forall|j: int| 0 <= j < i ==> #[trigger] items@[j] == Item::Text(list@[j]),
        decreases list.len() - i,
    {
        items.push(Item::Text(list[i].clone()));
        i = i + 1;
    }
    proof {
        assert(item_strings(items@) =~= list@);
    }
    Item::Array(items)
}

/// An array of the names of a list of statuses.
fn encode_statuses(list: &Vec<TaskStatus>) -> (item: Item)
    ensures
        item matches Item::Array(items) && all_texts(items@) && texts(item_strings(items@))
            == status_names(list@),
{
    let mut items: Vec<Item> = Vec::new();
    let mut i: usize = 0;
    while i < list.len()
        invariant
            i <= list.len(),
            items@.len() == i,
            forall|j: int| 0 <= j < i ==> #[trigger] items@[j] == Item::Text(list@[j].name),
        decreases list.len() - i,
    {
        items.push(Item::Text(list[i].name.clone()));
        i = i + 1;
    }
    proof {
        assert(texts(item_strings(items@)) =~= status_names(list@));
    }
    Item::Array(items)
}

/// None of a list of patterns is rejected where each of them compiles.
pub proof fn lemma_none_rejected(patterns: Seq<String>)
    requires
        forall|i: int| 0 <= i < patterns.len() ==> regex_accepts((#[trigger] patterns[i])@),
    ensures
        first_rejected(patterns) is None,
    decreases patterns.len(),
{
    if patterns.len() > 0 {
        let rest = patterns.drop_last();
        assert forall|i: int| 0 <= i < rest.len() implies regex_accepts((#[trigger] rest[i])@) by {
            assert(rest[i] == patterns[i]);
        }
        lemma_none_rejected(rest);
        assert(regex_accepts(patterns[patterns.len() - 1]@));
    }
}

/// An array of the texts that a list of filters was compiled from.
fn encode_filters(filters: &Vec<Regex>) -> (item: Item)
    ensures
        item matches Item::Array(items) && all_texts(items@) && texts(item_strings(items@))
            == sources(filters@),
{
    let mut items: Vec<Item> = Vec::new();
    let mut i: usize = 0;
    while i < filters.len()
        invariant
            i <= filters.len(),
            items@.len() == i,
            forall|j: int|
                0 <= j < i ==> (#[trigger] items@[j]) is Text && items@[j]->Text_0@
                    == regex_source(filters@[j]),
        decreases filters.len() - i,
    {
        items.push(Item::Text(filters[i].as_str().to_owned()));
        i = i + 1;
    }
    proof {
        assert(texts(item_strings(items@)) =~= sources(filters@));
    }
    Item::Array(items)
}

/// The text of a duration.
fn encode_duration(d: &Duration) -> (item: Item)
    ensures
        item matches Item::Text(text) && (duration_nanos(*d) < writable_nanos() ==> text_duration(
            text@,
        ) == Some(duration_nanos(*d))),
{
    Item::Text(write_duration(d))
}

impl YtarchiveConfig {
    /// The table that holds the settings.
    pub fn to_document(&self) -> (document: Item)
        ensures
            document matches Item::Table(entries) && (duration_nanos(self.delay_start)
                < writable_nanos() ==> ytarchive_view(entries@) == Ok::<YtarchiveView, ParseError>(
                self@,
            )),
    {
        let mut entries: Vec<(String, Item)> = Vec::new();
        entries.push(entry(Key::ExecutablePath, Item::Text(self.executable_path.clone())));
        entries.push(entry(Key::WorkingDirectory, Item::Text(self.working_directory.clone())));
        entries.push(entry(Key::Args, encode_strings(&self.args)));
        entries.push(entry(Key::Quality, Item::Text(self.quality.clone())));
        entries.push(entry(Key::DelayStart, encode_duration(&self.delay_start)));
        proof {
            lemma_key_texts_differ();
            lemma_field_at(entries@, key_text(Key::ExecutablePath), 0);
            lemma_field_at(entries@, key_text(Key::WorkingDirectory), 1);
            lemma_field_at(entries@, key_text(Key::Args), 2);
            lemma_field_at(entries@, key_text(Key::Quality), 3);
            lemma_field_at(entries@, key_text(Key::DelayStart), 4);
        }
        Item::Table(entries)
    }
}

impl ScraperRSSConfig {
    /// The table that holds the settings.
    pub fn to_document(&self) -> (document: Item)
        ensures
            document matches Item::Table(entries) && (duration_nanos(self.poll_interval)
                < writable_nanos() && duration_nanos(self.ignore_older_than) < writable_nanos()
                ==> rss_view(entries@) == Ok::<ScraperRSSView, ParseError>(self@)),
    {
        let mut entries: Vec<(String, Item)> = Vec::new();
        entries.push(entry(Key::PollInterval, encode_duration(&self.poll_interval)));
        entries.push(entry(Key::IgnoreOlderThan, encode_duration(&self.ignore_older_than)));
        proof {
            lemma_key_texts_differ();
            lemma_field_at(entries@, key_text(Key::PollInterval), 0);
            lemma_field_at(entries@, key_text(Key::IgnoreOlderThan), 1);
        }
        Item::Table(entries)
    }
}

impl ScraperConfig {
    /// The table that holds the settings.
    pub fn to_document(&self) -> (document: Item)
        ensures
            document matches Item::Table(entries) && (duration_nanos(self.rss.poll_interval)
                < writable_nanos() && duration_nanos(self.rss.ignore_older_than) < writable_nanos()
                ==> scraper_view(entries@) == Ok::<ScraperView, ParseError>(self@)),
    {
        let mut entries: Vec<(String, Item)> = Vec::new();
        entries.push(entry(Key::Rss, self.rss.to_document()));
        proof {
            lemma_field_at(entries@, key_text(Key::Rss), 0);
        }
        Item::Table(entries)
    }
}

impl NotifierDiscordConfig {
    /// The table that holds the settings.
    pub fn to_document(&self) -> (document: Item)
        ensures
            document matches Item::Table(entries) && discord_view(entries@) == Ok::<
                NotifierDiscordView,
                ParseError,
            >(self@),
    {
        let mut entries: Vec<(String, Item)> = Vec::new();
        entries.push(entry(Key::WebhookUrl, Item::Text(self.webhook_url.clone())));
        entries.push(entry(Key::NotifyOn, encode_statuses(&self.notify_on)));
        proof {
            lemma_key_texts_differ();
            lemma_field_at(entries@, key_text(Key::WebhookUrl), 0);
            lemma_field_at(entries@, key_text(Key::NotifyOn), 1);
        }
        Item::Table(entries)
    }
}

impl NotifierConfig {
    /// The table that holds the settings; the Discord table only where there
    /// are Discord settings.
    pub fn to_document(&self) -> (document: Item)
        ensures
            document matches Item::Table(entries) && notifier_view(entries@) == Ok::<
                NotifierView,
                ParseError,
            >(self@),
    {
        let mut entries: Vec<(String, Item)> = Vec::new();
        match &self.discord {
            Some(discord) => {
                entries.push(entry(Key::Discord, discord.to_document()));
                proof {
                    lemma_field_at(entries@, key_text(Key::Discord), 0);
                }
            },
            None => {
                proof {
                    lemma_field_absent(entries@, key_text(Key::Discord));
                }
            },
        }
        Item::Table(entries)
    }
}

impl WebserverConfig {
    /// The table that holds the settings.
    pub fn to_document(&self) -> (document: Item)
        ensures
            document matches Item::Table(entries) && webserver_view(entries@) == Ok::<
                WebserverView,
                ParseError,
            >(self@),
    {
        let mut entries: Vec<(String, Item)> = Vec::new();
        entries.push(entry(Key::BindAddress, Item::Text(self.bind_address.clone())));
        proof {
            lemma_field_at(entries@, key_text(Key::BindAddress), 0);
        }
        Item::Table(entries)
    }
}

impl ChannelConfig {
    /// The table that holds the rule; the picture only where there is one.
    /// Read at any position of the channel array, it gives the rule back.
    pub fn to_document(&self) -> (document: Item)
        ensures
            document matches Item::Table(entries) && (self.wf() ==> forall|channel: usize|
                #[trigger] channel_view(entries@, channel) == Ok::<ChannelView, ParseError>(self@)),
    {
        let mut entries: Vec<(String, Item)> = Vec::new();
        entries.push(entry(Key::Id, Item::Text(self.id.clone())));
        entries.push(entry(Key::Name, Item::Text(self.name.clone())));
        let filters = encode_filters(&self.filters);
        let ghost patterns = item_strings(filters->Array_0@);
        entries.push(entry(Key::Filters, filters));
        entries.push(entry(Key::MatchDescription, Item::Boolean(self.match_description)));
        entries.push(entry(Key::Outpath, Item::Text(self.outpath.clone())));
        proof {
            lemma_key_texts_differ();
        }
        match &self.picture_url {
            Some(url) => {
                entries.push(entry(Key::PictureUrl, Item::Text(url.clone())));
                proof {
                    lemma_field_at(entries@, key_text(Key::PictureUrl), 5);
                }
            },
            None => {
                proof {
                    lemma_field_absent(entries@, key_text(Key::PictureUrl));
                }
            },
        }
        proof {
            lemma_field_at(entries@, key_text(Key::Id), 0);
            lemma_field_at(entries@, key_text(Key::Name), 1);
            lemma_field_at(entries@, key_text(Key::Filters), 2);
            lemma_field_at(entries@, key_text(Key::MatchDescription), 3);
            lemma_field_at(entries@, key_text(Key::Outpath), 4);
            if self.wf() {
                assert(texts(patterns).len() == patterns.len());
                assert(sources(self.filters@).len() == self.filters@.len());
                assert forall|i: int| 0 <= i < patterns.len() implies regex_accepts(
                    (#[trigger] patterns[i])@,
                ) by {
                    assert(texts(patterns)[i] == sources(self.filters@)[i]);
                    assert(regex_accepts(regex_source(self.filters@[i])));
                }
                lemma_none_rejected(patterns);
            }
        }
        Item::Table(entries)
    }
}

/// An array of the tables of a list of channel rules, in their order.
fn encode_channels(list: &Vec<ChannelConfig>) -> (item: Item)
    ensures
        item matches Item::Array(items) && ((forall|i: int|
            0 <= i < list@.len() ==> (#[trigger] list@[i]).wf()) ==> channel_list_view(items@)
            == Ok::<Seq<ChannelView>, ParseError>(channel_views(list@))),
{
    let mut items: Vec<Item> = Vec::new();
    let mut i: usize = 0;
    proof {
        assert(channel_views(list@.take(0)) =~= Seq::<ChannelView>::empty());
    }
    while i < list.len()
        invariant
            i <= list.len(),
            items@.len() == i,
            (forall|j: int| 0 <= j < list@.len() ==> (#[trigger] list@[j]).wf())
                ==> channel_list_view(items@) == Ok::<Seq<ChannelView>, ParseError>(
                channel_views(list@.take(i as int)),
            ),
        decreases list.len() - i,
    {
        let ghost before = items@;
        let table = list[i].to_document();
        items.push(table);
        proof {
            assert(items@.drop_last() =~= before);
            assert(items@.last() == table);
            if forall|j: int| 0 <= j < list@.len() ==> (#[trigger] list@[j]).wf() {
                assert(list@[i as int].wf());
                assert(channel_item_view(table, i) == Ok::<ChannelView, ParseError>(
                    list@[i as int]@,
                ));
                assert(channel_views(list@.take(i + 1)) =~= channel_views(
                    list@.take(i as int),
                ).push(list@[i as int]@));
            }
        }
        i = i + 1;
    }
    proof {
        assert(list@.take(list@.len() as int) =~= list@);
    }
    Item::Array(items)
}

impl Config {
    /// The document that holds the configuration, without its path.
    ///
    /// Decoding the document gives a configuration that says the same: this
    /// holds for every configuration whose filters compile again from their
    /// own text and whose durations are below a thousand million years.
    pub fn to_document(&self) -> (document: Item)
        ensures
            self.wf() && self.writable() ==> document_config(document) == Ok::<
                ConfigView,
                ParseError,
            >(self@),
    {
        let mut entries: Vec<(String, Item)> = Vec::new();
        entries.push(entry(Key::Ytarchive, self.ytarchive.to_document()));
        entries.push(entry(Key::Scraper, self.scraper.to_document()));
        entries.push(entry(Key::Channel, encode_channels(&self.channel)));
        proof {
            lemma_key_texts_differ();
        }
        match &self.notifier {
            Some(notifier) => {
                entries.push(entry(Key::Notifier, notifier.to_document()));
                proof {
                    lemma_field_at(entries@, key_text(Key::Notifier), 3);
                }
            },
            None => {},
        }
        match &self.webserver {
            Some(webserver) => {
                entries.push(entry(Key::Webserver, webserver.to_document()));
                proof {
                    lemma_field_at(
                        entries@,
                        key_text(Key::Webserver),
                        entries@.len() - 1,
                    );
                }
            },
            None => {
                proof {
                    lemma_field_absent(entries@, key_text(Key::Webserver));
                }
            },
        }
        proof {
            lemma_field_at(entries@, key_text(Key::Ytarchive), 0);
            lemma_field_at(entries@, key_text(Key::Scraper), 1);
            lemma_field_at(entries@, key_text(Key::Channel), 2);
            if self.notifier is Some {
                lemma_field_at(entries@, key_text(Key::Notifier), 3);
            } else {
                lemma_field_absent(entries@, key_text(Key::Notifier));
            }
        }
        Item::Table(entries)
    }
}

} // verus!
