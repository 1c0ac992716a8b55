use archiver_config::{
    decode_config, parse_config, parse_document, ChannelConfig, Config, Item, ParseError,
};
use regex::RegexBuilder;
use std::time::Duration;

const FULL: &str = r#"
[ytarchive]
executable_path = "ytarchive"
working_directory = "temp"
args = ["--vp9", "--output", "%(title)s [%(id)s]"]
quality = "best"
delay_start = "1h 30m"

[scraper.rss]
poll_interval = "30s"
ignore_older_than = "2days 12h"

[notifier.discord]
webhook_url = "https://example.invalid/hook"
notify_on = ["waiting", "recording", "done", "failed"]

[webserver]
bind_address = "0.0.0.0:1104"

[[channel]]
id = "UC1"
name = "First \"quoted\""
filters = ["^Live", "concert", '[\d]+\.']
outpath = "./videos/first"

[[channel]]
id = "UC2"
name = "Second"
filters = []
match_description = true
outpath = "./videos/second"
picture_url = "https://example.invalid/pic.png"
"#;

const SMALL: &str = r#"
[ytarchive]
executable_path = "ytarchive"
working_directory = "temp"
args = []
quality = "best"

[scraper.rss]
poll_interval = "1m"

[[channel]]
id = "UC1"
name = "First"
filters = ["^Live"]
outpath = "out"
"#;

fn value_of(item: &Item) -> toml::Value {
    match item {
        Item::Text(text) => toml::Value::String(text.clone()),
        Item::Integer(number) => toml::Value::Integer(*number),
        Item::Boolean(flag) => toml::Value::Boolean(*flag),
        Item::Array(items) => toml::Value::Array(items.iter().map(value_of).collect()),
        Item::Table(entries) => {
            let mut table = toml::value::Table::new();
            for (key, value) in entries {
                table.insert(key.clone(), value_of(value));
            }
            toml::Value::Table(table)
        }
        Item::Real | Item::Datetime => panic!("no setting is a real number or a date"),
    }
}

fn shown_without_path(config: &Config) -> String {
    format!(
        "{:?} {:?} {:?} {:?} {:?}",
        config.ytarchive, config.scraper, config.notifier, config.webserver, config.channel
    )
}

fn entries_of(item: &Item) -> &Vec<(String, Item)> {
    match item {
        Item::Table(entries) => entries,
        other => panic!("no table: {:?}", other),
    }
}

fn keys_of(item: &Item) -> Vec<&str> {
    entries_of(item).iter().map(|(key, _)| key.as_str()).collect()
}

#[test]
fn document_of_a_configuration_decodes_to_the_same() {
    for text in [FULL, SMALL] {
        let config = parse_config(text).unwrap();
        let again = decode_config(&config.to_document()).unwrap();
        assert_eq!(shown_without_path(&again), shown_without_path(&config));
    }
}

#[test]
fn text_of_a_configuration_parses_to_the_same() {
    for text in [FULL, SMALL] {
        let config = parse_config(text).unwrap();
        let written = toml::to_string(&value_of(&config.to_document())).unwrap();
        let again = parse_config(&written).unwrap();
        assert_eq!(shown_without_path(&again), shown_without_path(&config));
    }
}

#[test]
fn document_of_a_text_and_of_its_configuration_agree() {
    let config = parse_config(FULL).unwrap();
    let written = toml::to_string(&value_of(&config.to_document())).unwrap();
    let first = parse_document(&written).unwrap();
    let second = parse_document(&toml::to_string(&value_of(&first)).unwrap()).unwrap();
    assert_eq!(first, second);
}

#[test]
fn document_names_the_keys_of_the_schema() {
    let config = parse_config(FULL).unwrap();
    let document = config.to_document();
    assert_eq!(
        keys_of(&document),
        vec!["ytarchive", "scraper", "channel", "notifier", "webserver"]
    );
    let ytarchive = &entries_of(&document)[0].1;
    assert_eq!(
        keys_of(ytarchive),
        vec!["executable_path", "working_directory", "args", "quality", "delay_start"]
    );
    assert_eq!(entries_of(ytarchive)[4].1, Item::Text("1h 30m".to_string()));
    let channels = match &entries_of(&document)[2].1 {
        Item::Array(items) => items,
        other => panic!("no array: {:?}", other),
    };
    assert_eq!(
        keys_of(&channels[0]),
        vec!["id", "name", "filters", "match_description", "outpath"]
    );
    assert_eq!(
        keys_of(&channels[1]),
        vec!["id", "name", "filters", "match_description", "outpath", "picture_url"]
    );
    assert_eq!(
        entries_of(&channels[0])[2].1,
        Item::Array(vec![
            Item::Text("^Live".to_string()),
            Item::Text("concert".to_string()),
            Item::Text("[\\d]+\\.".to_string()),
        ])
    );
}

#[test]
fn absent_sections_are_left_out_of_the_document() {
    let config = parse_config(SMALL).unwrap();
    let document = config.to_document();
    assert_eq!(keys_of(&document), vec!["ytarchive", "scraper", "channel"]);
    let scraper = &entries_of(&document)[1].1;
    assert_eq!(keys_of(scraper), vec!["rss"]);
    let rss = &entries_of(scraper)[0].1;
    assert_eq!(
        entries_of(rss),
        &vec![
            ("poll_interval".to_string(), Item::Text("1m".to_string())),
            ("ignore_older_than".to_string(), Item::Text("1day".to_string())),
        ]
    );
}

#[test]
fn sections_decode_from_their_own_documents() {
    let config = parse_config(FULL).unwrap();
    let notifier = config.notifier.as_ref().unwrap();
    assert_eq!(keys_of(&notifier.to_document()), vec!["discord"]);
    let discord = notifier.discord.as_ref().unwrap();
    assert_eq!(keys_of(&discord.to_document()), vec!["webhook_url", "notify_on"]);
    assert_eq!(keys_of(&config.webserver.as_ref().unwrap().to_document()), vec!["bind_address"]);
    assert_eq!(keys_of(&config.scraper.rss.to_document()), vec!["poll_interval", "ignore_older_than"]);
}

#[test]
fn filter_built_with_options_is_written_by_its_text() {
    let mut config = parse_config(SMALL).unwrap();
    config.channel.push(ChannelConfig {
        id: "UC9".to_string(),
        name: "Ninth".to_string(),
        filters: vec![RegexBuilder::new("live").case_insensitive(true).build().unwrap()],
        match_description: false,
        outpath: "out9".to_string(),
        picture_url: None,
    });
    assert!(config.channel[1].matches("LIVE", ""));
    let again = decode_config(&config.to_document()).unwrap();
    assert_eq!(again.channel[1].filters[0].as_str(), "live");
    assert!(!again.channel[1].matches("LIVE", ""));
}

#[test]
fn duration_too_long_to_be_read_again_fails_the_round_trip() {
    let mut config = parse_config(SMALL).unwrap();
    config.ytarchive.delay_start = Duration::from_secs(31_557_600 * 1_000_000_000);
    let result = decode_config(&config.to_document());
    assert_eq!(
        result.err(),
        Some(ParseError::InvalidDuration {
            key: archiver_config::Key::DelayStart,
            text: "1000000000years".to_string()
        })
    );
}
