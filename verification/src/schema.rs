//! The typed shape of a configuration, and the mathematical view of each of
//! its parts.

use crate::duration::{duration_nanos, writable_nanos};
use crate::pattern::{
    any_match, any_matches, clone_filters, regex_accepts, regex_source, sources,
};
use regex::Regex;
use std::time::Duration;
use vstd::prelude::*;

verus! {

/// The texts of a list of strings.
pub open spec fn texts(list: Seq<String>) -> Seq<Seq<char>> {
    Seq::new(list.len(), |i: int| list[i]@)
}

/// Settings of the archiving tool.
#[derive(Debug)]
pub struct YtarchiveConfig {
    pub executable_path: String,
    pub working_directory: String,
    pub args: Vec<String>,
    pub quality: String,
    pub delay_start: Duration,
}

/// What a `YtarchiveConfig` holds; the delay in nanoseconds.
pub struct YtarchiveView {
    pub executable_path: Seq<char>,
    pub working_directory: Seq<char>,
    pub args: Seq<Seq<char>>,
    pub quality: Seq<char>,
    pub delay_start: nat,
}

impl View for YtarchiveConfig {
    type V = YtarchiveView;

    open spec fn view(&self) -> YtarchiveView {
        YtarchiveView {
            executable_path: self.executable_path@,
            working_directory: self.working_directory@,
            args: texts(self.args@),
            quality: self.quality@,
            delay_start: duration_nanos(self.delay_start),
        }
    }
}

impl Clone for YtarchiveConfig {
    fn clone(&self) -> (copy: YtarchiveConfig)
        ensures
            copy@ == self@,
    {
        let args = self.args.clone();
        proof {
            assert(texts(args@) =~= texts(self.args@));
        }
        YtarchiveConfig {
            executable_path: self.executable_path.clone(),
            working_directory: self.working_directory.clone(),
            args,
            quality: self.quality.clone(),
            delay_start: self.delay_start,
        }
    }
}

/// Settings of the feed poller.
#[derive(Debug)]
pub struct ScraperRSSConfig {
    pub poll_interval: Duration,
    pub ignore_older_than: Duration,
}

/// What a `ScraperRSSConfig` holds, in nanoseconds.
pub struct ScraperRSSView {
    pub poll_interval: nat,
    pub ignore_older_than: nat,
}

impl View for ScraperRSSConfig {
    type V = ScraperRSSView;

    open spec fn view(&self) -> ScraperRSSView {
        ScraperRSSView {
            poll_interval: duration_nanos(self.poll_interval),
            ignore_older_than: duration_nanos(self.ignore_older_than),
        }
    }
}

impl Clone for ScraperRSSConfig {
    fn clone(&self) -> (copy: ScraperRSSConfig)
        ensures
            copy@ == self@,
    {
        ScraperRSSConfig {
            poll_interval: self.poll_interval,
            ignore_older_than: self.ignore_older_than,
        }
    }
}

/// Settings of the scraper.
#[derive(Clone, Debug)]
pub struct ScraperConfig {
    pub rss: ScraperRSSConfig,
}

/// What a `ScraperConfig` holds.
pub struct ScraperView {
    pub rss: ScraperRSSView,
}

impl View for ScraperConfig {
    type V = ScraperView;

    open spec fn view(&self) -> ScraperView {
        ScraperView { rss: self.rss@ }
    }
}

/// A status of a task, as the scheduler names it. The configuration only
/// carries and compares it.
#[derive(Clone, Debug, PartialEq, Eq)]
pub struct TaskStatus {
    pub name: String,
}

/// The names of a list of statuses.
pub open spec fn status_names(list: Seq<TaskStatus>) -> Seq<Seq<char>> {
    Seq::new(list.len(), |i: int| list[i].name@)
}

/// Settings of the Discord notifier.
#[derive(Clone, Debug)]
pub struct NotifierDiscordConfig {
    pub webhook_url: String,
    pub notify_on: Vec<TaskStatus>,
}

/// What a `NotifierDiscordConfig` holds.
pub struct NotifierDiscordView {
    pub webhook_url: Seq<char>,
    pub notify_on: Seq<Seq<char>>,
}

impl View for NotifierDiscordConfig {
    type V = NotifierDiscordView;

    open spec fn view(&self) -> NotifierDiscordView {
        NotifierDiscordView {
            webhook_url: self.webhook_url@,
            notify_on: status_names(self.notify_on@),
        }
    }
}

/// Settings of the notifiers.
#[derive(Clone, Debug)]
pub struct NotifierConfig {
    pub discord: Option<NotifierDiscordConfig>,
}

/// What a `NotifierConfig` holds.
pub struct NotifierView {
    pub discord: Option<NotifierDiscordView>,
}

impl View for NotifierConfig {
    type V = NotifierView;

    open spec fn view(&self) -> NotifierView {
        NotifierView {
            discord: match self.discord {
                Some(discord) => Some(discord@),
                None => None,
            },
        }
    }
}

/// Settings of the web server.
#[derive(Clone, Debug)]
pub struct WebserverConfig {
    pub bind_address: String,
}

/// What a `WebserverConfig` holds.
pub struct WebserverView {
    pub bind_address: Seq<char>,
}

impl View for WebserverConfig {
    type V = WebserverView;

    open spec fn view(&self) -> WebserverView {
        WebserverView { bind_address: self.bind_address@ }
    }
}

/// The watch rule of one channel.
#[derive(Debug)]
pub struct ChannelConfig {
    pub id: String,
    pub name: String,
    pub filters: Vec<Regex>,
    pub match_description: bool,
    pub outpath: String,
    /// If not present, will be fetched during runtime.
    pub picture_url: Option<String>,
}

/// What a `ChannelConfig` holds; each filter as the text it was compiled
/// from.
pub struct ChannelView {
    pub id: Seq<char>,
    pub name: Seq<char>,
    pub filters: Seq<Seq<char>>,
    pub match_description: bool,
    pub outpath: Seq<char>,
    pub picture_url: Option<Seq<char>>,
}

impl View for ChannelConfig {
    type V = ChannelView;

    open spec fn view(&self) -> ChannelView {
        ChannelView {
            id: self.id@,
            name: self.name@,
            filters: sources(self.filters@),
            match_description: self.match_description,
            outpath: self.outpath@,
            picture_url: match self.picture_url {
                Some(url) => Some(url@),
                None => None,
            },
        }
    }
}

impl Clone for ChannelConfig {
    fn clone(&self) -> (copy: ChannelConfig)
        ensures
            copy@ == self@,
            copy.wf() == self.wf(),
            forall|title: Seq<char>, description: Seq<char>| #[trigger]
                copy.accepts(title, description) == self.accepts(title, description),
    {
        let filters = clone_filters(&self.filters);
        let picture_url = match &self.picture_url {
            Some(url) => Some(url.clone()),
            None => None,
        };
        let copy = ChannelConfig {
            id: self.id.clone(),
            name: self.name.clone(),
            filters,
            match_description: self.match_description,
            outpath: self.outpath.clone(),
            picture_url,
        };
        proof {
            assert(sources(copy.filters@).len() == copy.filters@.len());
            assert(sources(self.filters@).len() == self.filters@.len());
            assert forall|i: int| 0 <= i < self.filters@.len() implies regex_source(
                copy.filters@[i],
            ) == regex_source(self.filters@[i]) by {
                assert(sources(copy.filters@)[i] == sources(self.filters@)[i]);
            }
            if copy.wf() {
                assert forall|i: int| 0 <= i < self.filters@.len() implies regex_accepts(
                    regex_source(#[trigger] self.filters@[i]),
                ) by {
                    assert(regex_accepts(regex_source(copy.filters@[i])));
                }
            }
            if self.wf() {
                assert forall|i: int| 0 <= i < copy.filters@.len() implies regex_accepts(
                    regex_source(#[trigger] copy.filters@[i]),
                ) by {
                    assert(regex_accepts(regex_source(self.filters@[i])));
                }
            }
        }
        copy
    }
}

impl ChannelConfig {
    /// Every filter can be compiled again from its own text.
    pub open spec fn wf(&self) -> bool {
        forall|i: int|
            0 <= i < self.filters@.len() ==> regex_accepts(
                regex_source(#[trigger] self.filters@[i]),
            )
    }

    /// Whether a feed entry falls under the rule: one of the filters matches
    /// its title, or descriptions are matched too and one matches its
    /// description.
    pub open spec fn accepts(&self, title: Seq<char>, description: Seq<char>) -> bool {
        any_matches(self.filters@, title) || (self.match_description && any_matches(
            self.filters@,
            description,
        ))
    }

    /// Tells whether a feed entry falls under the rule.
    pub fn matches(&self, title: &str, description: &str) -> (found: bool)
        ensures
            found == self.accepts(title@, description@),
    {
        any_match(&self.filters, title) || (self.match_description && any_match(
            &self.filters,
            description,
        ))
    }
}

/// The views of a list of channel rules.
pub open spec fn channel_views(list: Seq<ChannelConfig>) -> Seq<ChannelView> {
    Seq::new(list.len(), |i: int| list[i]@)
}

/// The path of the file that a configuration was loaded from. Only loading
/// makes one.
#[derive(Clone, Debug)]
pub struct SourcePath {
    path: String,
}

impl View for SourcePath {
    type V = Seq<char>;

    closed spec fn view(&self) -> Seq<char> {
        self.path@
    }
}

impl SourcePath {
    /// Keeps a path.
    pub(crate) fn new(path: String) -> (source: SourcePath)
        ensures
            source@ == path@,
    {
        SourcePath { path }
    }

    /// The path as text.
    pub fn as_str(&self) -> (path: &str)
        ensures
            path@ == self@,
    {
        self.path.as_str()
    }
}

/// The whole configuration, with the path of the file it was loaded from.
#[derive(Clone, Debug)]
pub struct Config {
    pub ytarchive: YtarchiveConfig,
    pub scraper: ScraperConfig,
    pub notifier: Option<NotifierConfig>,
    pub webserver: Option<WebserverConfig>,
    pub channel: Vec<ChannelConfig>,
    pub config_path: SourcePath,
}

/// What the settings file says of a `Config`: all but the path.
pub struct ConfigView {
    pub ytarchive: YtarchiveView,
    pub scraper: ScraperView,
    pub notifier: Option<NotifierView>,
    pub webserver: Option<WebserverView>,
    pub channel: Seq<ChannelView>,
}

impl View for Config {
    type V = ConfigView;

    open spec fn view(&self) -> ConfigView {
        ConfigView {
            ytarchive: self.ytarchive@,
            scraper: self.scraper@,
            notifier: match self.notifier {
                Some(notifier) => Some(notifier@),
                None => None,
            },
            webserver: match self.webserver {
                Some(webserver) => Some(webserver@),
                None => None,
            },
            channel: channel_views(self.channel@),
        }
    }
}

impl Config {
    /// The path of the file that the configuration was loaded from; empty
    /// where it was made from a text alone.
    pub open spec fn path(&self) -> Seq<char> {
        self.config_path@
    }

    /// Every channel rule is well formed.
    pub open spec fn wf(&self) -> bool {
        forall|i: int| 0 <= i < self.channel@.len() ==> (#[trigger] self.channel@[i]).wf()
    }

    /// Every duration is short enough for its text to be read again: below
    /// a thousand million years.
    pub open spec fn writable(&self) -> bool {
        &&& duration_nanos(self.ytarchive.delay_start) < writable_nanos()
        &&& duration_nanos(self.scraper.rss.poll_interval) < writable_nanos()
        &&& duration_nanos(self.scraper.rss.ignore_older_than) < writable_nanos()
    }

    /// Puts the sections together, bound to no file.
    pub fn new(
        ytarchive: YtarchiveConfig,
        scraper: ScraperConfig,
        notifier: Option<NotifierConfig>,
        webserver: Option<WebserverConfig>,
        channel: Vec<ChannelConfig>,
    ) -> (config: Config)
        ensures
            config.ytarchive == ytarchive,
            config.scraper == scraper,
            config.notifier == notifier,
            config.webserver == webserver,
            config.channel == channel,
            config.path() == Seq::<char>::empty(),
    {
        Config {
            ytarchive,
            scraper,
            notifier,
            webserver,
            channel,
            config_path: SourcePath::new(String::new()),
        }
    }

    /// The path of the file that the configuration was loaded from.
    pub fn source_path(&self) -> (path: &str)
        ensures
            path@ == self.path(),
    {
        self.config_path.as_str()
    }
}

} // verus!
