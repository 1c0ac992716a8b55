//! Configuration of a media-monitoring service: the typed schema of its
//! settings file, the decoding of a parsed document into that schema, and the
//! load / reload / validate-then-write protocol of the instance in memory.
//!
//! The library touches no file. Whoever reads and writes the settings file
//! hands over what came of it and is told what to do next.

pub mod decode;
pub mod document;
pub mod duration;
pub mod encode;
pub mod error;
pub mod manager;
pub mod nesting;
pub mod pattern;
pub mod schema;
pub mod toml_text;

pub use decode::{decode_config, parse_config};
pub use document::Item;
pub use duration::{default_delay_start, default_false, default_ignore_older_than};
pub use error::{ConfigError, Key, ParseError};
pub use manager::{load_config, WriteStage, WriteStep};
pub use schema::{
    ChannelConfig, Config, NotifierConfig, NotifierDiscordConfig, ScraperConfig,
    ScraperRSSConfig, SourcePath, TaskStatus, WebserverConfig, YtarchiveConfig,
};
pub use toml_text::parse_document;
