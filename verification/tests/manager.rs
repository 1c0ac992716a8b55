use archiver_config::{load_config, Config, ConfigError, Key, ParseError, WriteStage, WriteStep};

const FIRST: &str = r#"
[ytarchive]
executable_path = "ytarchive"
working_directory = "temp"
args = ["--vp9"]
quality = "best"

[scraper.rss]
poll_interval = "1m"

[[channel]]
id = "UC1"
name = "First"
filters = ["^Live", "concert"]
outpath = "out"
"#;

const SECOND: &str = r#"
[ytarchive]
executable_path = "ytarchive"
working_directory = "elsewhere"
args = []
quality = "1080p"
delay_start = "5s"

[scraper.rss]
poll_interval = "2m"

[[channel]]
id = "UC1"
name = "First"
filters = ["^Live"]
outpath = "out"
"#;

fn loaded() -> Config {
    load_config("settings.toml", Ok(FIRST.to_string())).unwrap()
}

fn shown(config: &Config) -> String {
    format!("{:?}", config)
}

#[test]
fn load_binds_the_configuration_to_its_path() {
    let config = loaded();
    assert_eq!(config.source_path(), "settings.toml");
    assert_eq!(config.config_path.as_str(), "settings.toml");
    assert_eq!(config.ytarchive.working_directory, "temp");
}

#[test]
fn load_of_an_unreadable_file_is_a_read_failure() {
    let result = load_config("settings.toml", Err("No such file".to_string()));
    assert_eq!(result.err(), Some(ConfigError::ReadFailure("No such file".to_string())));
}

#[test]
fn load_of_a_text_that_is_no_configuration_is_a_parse_failure() {
    let text = FIRST.replace("quality = \"best\"\n", "");
    let result = load_config("settings.toml", Ok(text));
    assert_eq!(
        result.err(),
        Some(ConfigError::ParseFailure(ParseError::MissingField {
            key: Key::Quality,
            channel: None
        }))
    );
}

#[test]
fn reload_replaces_the_whole_configuration() {
    let mut config = loaded();
    assert_eq!(config.reload(Ok(SECOND.to_string())), Ok(()));
    assert_eq!(config.ytarchive.working_directory, "elsewhere");
    assert_eq!(config.ytarchive.quality, "1080p");
    assert_eq!(config.ytarchive.args.len(), 0);
    assert_eq!(config.ytarchive.delay_start, std::time::Duration::from_secs(5));
    assert_eq!(config.channel[0].filters.len(), 1);
    assert_eq!(config.source_path(), "settings.toml");
}

#[test]
fn reload_without_a_required_field_changes_nothing() {
    let mut config = loaded();
    let before = shown(&config);
    let edited = SECOND.replace("poll_interval = \"2m\"\n", "");
    let result = config.reload(Ok(edited));
    assert_eq!(
        result,
        Err(ConfigError::ParseFailure(ParseError::MissingField {
            key: Key::PollInterval,
            channel: None
        }))
    );
    assert_eq!(shown(&config), before);
}

#[test]
fn reload_of_an_unreadable_file_changes_nothing() {
    let mut config = loaded();
    let before = shown(&config);
    let result = config.reload(Err("Permission denied".to_string()));
    assert_eq!(result, Err(ConfigError::ReadFailure("Permission denied".to_string())));
    assert_eq!(shown(&config), before);
}

#[test]
fn source_text_is_handed_on_as_it_was_read() {
    let config = loaded();
    let on_disk = FIRST.to_string() + "   \n\t\n";
    assert_eq!(config.get_source_toml(Ok(on_disk.clone())), Ok(on_disk));
    assert_eq!(config.get_source_toml(Ok("not toml [".to_string())), Ok("not toml [".to_string()));
    assert_eq!(
        config.get_source_toml(Err("gone".to_string())),
        Err(ConfigError::ReadFailure("gone".to_string()))
    );
}

#[test]
fn invalid_text_is_never_to_be_written() {
    let mut config = loaded();
    let before = shown(&config);
    let step = config.set_source_toml("[ytarchive", WriteStage::Proposed);
    match step {
        WriteStep::Finished(Err(ConfigError::ParseFailure(ParseError::Syntax { .. }))) => {}
        other => panic!("unexpected step: {:?}", other),
    }
    let broken = SECOND.replace("\"^Live\"", "\"^Li(ve\"");
    let step = config.set_source_toml(&broken, WriteStage::Proposed);
    assert_eq!(
        step,
        WriteStep::Finished(Err(ConfigError::ParseFailure(ParseError::InvalidPattern {
            channel: 0,
            pattern: "^Li(ve".to_string()
        })))
    );
    assert_eq!(shown(&config), before);
}

#[test]
fn valid_text_is_written_then_read_again() {
    let mut config = loaded();
    let before = shown(&config);
    let step = config.set_source_toml(SECOND, WriteStage::Proposed);
    assert_eq!(
        step,
        WriteStep::Write { path: "settings.toml".to_string(), text: SECOND.to_string() }
    );
    assert_eq!(shown(&config), before);
    let step = config.set_source_toml(SECOND, WriteStage::Written(Ok(())));
    assert_eq!(step, WriteStep::Read { path: "settings.toml".to_string() });
    assert_eq!(shown(&config), before);
    let step = config.set_source_toml(SECOND, WriteStage::Reread(Ok(SECOND.to_string())));
    assert_eq!(step, WriteStep::Finished(Ok(())));
    let sources: Vec<&str> = config.channel[0].filters.iter().map(|f| f.as_str()).collect();
    assert_eq!(sources, vec!["^Live"]);
    assert_eq!(config.ytarchive.working_directory, "elsewhere");
    assert_eq!(config.source_path(), "settings.toml");
}

#[test]
fn failed_write_ends_with_a_write_failure() {
    let mut config = loaded();
    let before = shown(&config);
    let step = config.set_source_toml(SECOND, WriteStage::Written(Err("disk full".to_string())));
    assert_eq!(
        step,
        WriteStep::Finished(Err(ConfigError::WriteFailure("disk full".to_string())))
    );
    assert_eq!(shown(&config), before);
}

#[test]
fn failed_reload_after_a_write_is_passed_on() {
    let mut config = loaded();
    let before = shown(&config);
    let step = config.set_source_toml(SECOND, WriteStage::Reread(Err("gone".to_string())));
    assert_eq!(step, WriteStep::Finished(Err(ConfigError::ReadFailure("gone".to_string()))));
    let step = config.set_source_toml(SECOND, WriteStage::Reread(Ok("x = ".to_string())));
    assert!(matches!(
        step,
        WriteStep::Finished(Err(ConfigError::ParseFailure(ParseError::Syntax { .. })))
    ));
    assert_eq!(shown(&config), before);
}

#[test]
fn file_changed_between_write_and_read_wins() {
    let mut config = loaded();
    let other = SECOND.replace("elsewhere", "third");
    let step = config.set_source_toml(SECOND, WriteStage::Reread(Ok(other)));
    assert_eq!(step, WriteStep::Finished(Ok(())));
    assert_eq!(config.ytarchive.working_directory, "third");
}
