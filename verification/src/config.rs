//! The bot configuration: transport mode, message templates, the default
//! repeat count and the Telegram token. Loading and decoding a
//! configuration file is a collaborator's job; the core receives an
//! already-built value.

use crate::logger::LogLevel;
use vstd::prelude::*;
use vstd::string::StringExecFns;

verus! {

#[derive(Debug, Clone, PartialEq, Eq, Structural)]
pub enum BotMode {
    Telegram,
    Console,
}

#[derive(Debug, Clone)]
pub struct Config {
    pub mode: BotMode,
    pub help_msg: String,
    pub repeat_msg: String,
    pub default_repeat_number: u8,
    pub log_level: LogLevel,
    pub bot_token: Option<String>,
}

impl Config {
    /// The default repeat count is a positive integer; every consumer of
    /// the configuration may rely on it.
    pub open spec fn wf(&self) -> bool {
        self.default_repeat_number >= 1
    }
}

/// Builds a configuration. The steps that read the process arguments and
/// the configuration file live with the collaborator that performs I/O;
/// the builder itself only carries the chosen path and the file body.
pub struct ConfigBuilder {
    pub file_path: Option<String>,
    pub file_content: Option<String>,
}

impl ConfigBuilder {
    pub fn new() -> (r: Self)
        ensures
            r.file_path matches Some(p) && p@ == "config.yaml"@,
            r.file_content is None,
    {
        ConfigBuilder { file_path: Some("config.yaml".to_owned()), file_content: None }
    }

    /// A ready-made configuration with fixed templates and repeat count
    /// one, for exercising the bot without a configuration file.
    pub fn build_default(mode: BotMode) -> (r: Config)
        ensures
            r.mode == mode,
            r.help_msg@ == "help msg"@,
            r.repeat_msg@ == "repeat msg"@,
            r.default_repeat_number == 1,
            r.bot_token matches Some(t) && t@ == "test"@,
            r.log_level == LogLevel::Debug,
            r.wf(),
    {
        Config {
            mode,
            help_msg: "help msg".to_owned(),
            repeat_msg: "repeat msg".to_owned(),
            default_repeat_number: 1,
            bot_token: Some("test".to_owned()),
            log_level: LogLevel::Debug,
        }
    }
}

} // verus!
