use archiver_config::{parse_config, ChannelConfig};
use regex::Regex;

fn rule(filters: &[&str], match_description: bool) -> ChannelConfig {
    ChannelConfig {
        id: "UC1".to_string(),
        name: "First".to_string(),
        filters: filters.iter().map(|pattern| Regex::new(pattern).unwrap()).collect(),
        match_description,
        outpath: "out".to_string(),
        picture_url: None,
    }
}

#[test]
fn title_that_matches_a_filter_is_taken() {
    let rule = rule(&["^Live", "concert"], false);
    assert!(rule.matches("Live: concert tonight", ""));
}

#[test]
fn description_is_ignored_when_the_flag_is_false() {
    let rule = rule(&["^Live", "concert"], false);
    assert!(!rule.matches("Replay", "concert"));
}

#[test]
fn description_is_matched_when_the_flag_is_true() {
    let rule = rule(&["^Live", "concert"], true);
    assert!(rule.matches("Replay", "concert"));
    assert!(!rule.matches("Replay", "rehearsal"));
}

#[test]
fn one_matching_filter_is_enough() {
    let rule = rule(&["^Live", "concert"], false);
    assert!(rule.matches("A concert", ""));
    assert!(rule.matches("Live now", ""));
    assert!(!rule.matches("Not Live", ""));
}

#[test]
fn rule_without_filters_takes_nothing() {
    let rule = rule(&[], true);
    assert!(!rule.matches("Live", "Live"));
}

#[test]
fn parsed_rule_matches_by_its_patterns() {
    let text = r#"
[ytarchive]
executable_path = "a"
working_directory = "b"
args = []
quality = "c"
[scraper.rss]
poll_interval = "1s"
[[channel]]
id = "UC1"
name = "First"
filters = ["(?i)karaoke"]
outpath = "out"
"#;
    let config = parse_config(text).unwrap();
    assert!(config.channel[0].matches("KARAOKE night", ""));
    assert!(config.channel[0].matches("weekly Karaoke", "talk"));
    assert!(!config.channel[0].matches("talk", "karaoke"));
}

#[test]
fn clone_of_a_rule_matches_alike() {
    let rule = rule(&["^Live"], true);
    let copy = rule.clone();
    assert_eq!(copy.filters[0].as_str(), "^Live");
    assert!(copy.matches("Live", ""));
    assert!(copy.matches("x", "Live"));
    assert!(!copy.matches("x", "y"));
}
