//! The configuration in memory and the file behind it: loading, reloading,
//! reading the file's text, and writing a new text after it was checked.
//!
//! The file itself is read and written by the caller, who hands over what
//! came of it: the text, or the reason why there is none.

use crate::decode::{config_of, is_config, is_failure_of, parse_config};
use crate::error::ConfigError;
use crate::schema::{Config, SourcePath};
use vstd::prelude::*;

verus! {

/// What has happened so far to a text that is to become the settings file.
#[derive(Debug, PartialEq, Eq)]
pub enum WriteStage {
    /// Nothing yet: the text was only proposed.
    Proposed,
    /// The text was written to the file, or could not be, for the reason
    /// given.
    Written(Result<(), String>),
    /// The file was read again and held the text given, or could not be
    /// read, for the reason given.
    Reread(Result<String, String>),
}

/// What is to happen next to a text that is to become the settings file.
#[derive(Debug, PartialEq, Eq)]
pub enum WriteStep {
    /// Write `text` to the file at `path`, all of it, and come back with
    /// `WriteStage::Written`.
    Write { path: String, text: String },
    /// Read the file at `path` and come back with `WriteStage::Reread`.
    Read { path: String },
    /// Nothing more: this is how it ended.
    Finished(Result<(), ConfigError>),
}

/// Whether a result is the configuration of a text under a path, or the
/// failure of a text that is none.
pub open spec fn loaded_from(r: Result<Config, ConfigError>, path: Seq<char>, text: Seq<char>) -> bool {
    match r {
        Ok(config) => {
            &&& is_config(text)
            &&& config@ == config_of(text)
            &&& config.path() == path
            &&& config.wf()
        },
        Err(ConfigError::ParseFailure(error)) => !is_config(text) && is_failure_of(text, error),
        Err(_) => false,
    }
}

/// Makes the configuration of the file at `path`, of which `contents` is
/// what reading it gave.
///
/// A file that could not be read gives `ReadFailure` with the reader's
/// reason, a text that is no configuration gives `ParseFailure` with its
/// failure, and every other text gives its configuration, bound to `path`.
pub fn load_config(path: &str, contents: Result<String, String>) -> (r: Result<
    Config,
    ConfigError,
>)
    ensures
        match contents {
            Ok(text) => loaded_from(r, path@, text@),
            Err(reason) => r == Err::<Config, ConfigError>(ConfigError::ReadFailure(reason)),
        },
{
    let text = match contents {
        Ok(text) => text,
        Err(reason) => {
            return Err(ConfigError::ReadFailure(reason));
        },
    };
    match parse_config(text.as_str()) {
        Ok(config) => {
            let mut config = config;
            config.config_path = SourcePath::new(path.to_owned());
            Ok(config)
        },
        Err(error) => Err(ConfigError::ParseFailure(error)),
    }
}

impl Config {
    /// Replaces the configuration by that of its own file, of which
    /// `contents` is what reading it gave.
    ///
    /// All or nothing: where the file could not be read or its text is no
    /// configuration, the failure is returned and the configuration stays as
    /// it was; else the whole of it is replaced, under the same path.
    pub fn reload(&mut self, contents: Result<String, String>) -> (r: Result<(), ConfigError>)
        ensures
            match contents {
                Ok(text) => if is_config(text@) {
                    &&& r is Ok
                    &&& final(self)@ == config_of(text@)
                    &&& final(self).path() == old(self).path()
                    &&& final(self).wf()
                } else {
                    &&& r matches Err(ConfigError::ParseFailure(error))
                    &&& is_failure_of(text@, error)
                    &&& *final(self) == *old(self)
                },
                Err(reason) => {
                    &&& r == Err::<(), ConfigError>(ConfigError::ReadFailure(reason))
                    &&& *final(self) == *old(self)
                },
            },
    {
        match load_config(self.config_path.as_str(), contents) {
            Ok(config) => {
                *self = config;
                Ok(())
            },
            Err(error) => Err(error),
        }
    }

    /// Hands on the text of the settings file, of which `contents` is what
    /// reading it gave: the text as it was read, whatever the configuration
    /// in memory holds, or `ReadFailure` with the reader's reason.
    pub fn get_source_toml(&self, contents: Result<String, String>) -> (r: Result<
        String,
        ConfigError,
    >)
        ensures
            r == match contents {
                Ok(text) => Ok::<String, ConfigError>(text),
                Err(reason) => Err::<String, ConfigError>(ConfigError::ReadFailure(reason)),
            },
    {
        match contents {
            Ok(text) => Ok(text),
            Err(reason) => Err(ConfigError::ReadFailure(reason)),
        }
    }

    /// Takes a text that is to become the settings file one step further.
    ///
    /// A proposed text is checked first: one that is no configuration ends
    /// with `ParseFailure` and is never written; one that is, is to be
    /// written to the file of the configuration. A write that failed ends
    /// with `WriteFailure`; after one that succeeded the file is to be read
    /// again. What was read replaces the configuration as in `reload`, and
    /// that ends it. Up to that last step the configuration stays as it was.
    pub fn set_source_toml(&mut self, source_toml: &str, stage: WriteStage) -> (step: WriteStep)
        ensures
            match stage {
                WriteStage::Proposed => {
                    &&& *final(self) == *old(self)
                    &&& if is_config(source_toml@) {
                        &&& step matches WriteStep::Write { path, text }
                        &&& path@ == old(self).path()
                        &&& text@ == source_toml@
                    } else {
                        &&& step matches WriteStep::Finished(Err(ConfigError::ParseFailure(error)))
                        &&& is_failure_of(source_toml@, error)
                    }
                },
                WriteStage::Written(Ok(_)) => {
                    &&& *final(self) == *old(self)
                    &&& step matches WriteStep::Read { path }
                    &&& path@ == old(self).path()
                },
                WriteStage::Written(Err(reason)) => {
                    &&& *final(self) == *old(self)
                    &&& step == WriteStep::Finished(Err(ConfigError::WriteFailure(reason)))
                },
                WriteStage::Reread(Ok(text)) => if is_config(text@) {
                    &&& step matches WriteStep::Finished(Ok(_))
                    &&& final(self)@ == config_of(text@)
                    &&& final(self).path() == old(self).path()
                    &&& final(self).wf()
                } else {
                    &&& step matches WriteStep::Finished(Err(ConfigError::ParseFailure(error)))
                    &&& is_failure_of(text@, error)
                    &&& *final(self) == *old(self)
                },
                WriteStage::Reread(Err(reason)) => {
                    &&& step == WriteStep::Finished(Err(ConfigError::ReadFailure(reason)))
                    &&& *final(self) == *old(self)
                },
            },
    {
        match stage {
            WriteStage::Proposed => match parse_config(source_toml) {
                Ok(_) => WriteStep::Write {
                    path: self.config_path.as_str().to_owned(),
                    text: source_toml.to_owned(),
                },
                Err(error) => WriteStep::Finished(Err(ConfigError::ParseFailure(error))),
            },
            WriteStage::Written(Ok(_)) => WriteStep::Read {
                path: self.config_path.as_str().to_owned(),
            },
            WriteStage::Written(Err(reason)) => WriteStep::Finished(
                Err(ConfigError::WriteFailure(reason)),
            ),
            WriteStage::Reread(contents) => WriteStep::Finished(self.reload(contents)),
        }
    }
}

} // verus!
