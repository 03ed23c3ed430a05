//! The agent's settings, kept as JSON in the configuration directory of the
//! operating system:
//!
//! - Linux: `~/.config/lesscommerce/print-agent.json`
//! - macOS: `~/Library/Application Support/io.lesscommerce.print-agent/print-agent.json`
//! - Windows: `%APPDATA%\lesscommerce\print-agent.json`

use vstd::prelude::*;
use vstd::string::StringExecFns;

use crate::platform::Platform;
use crate::text::blank;
use crate::text::is_blank;
use crate::text::is_space;
use crate::text::law_trim_empty_iff_blank;
use crate::text::trim;

verus! {

/// The agent's settings.
#[derive(Debug, Clone)]
pub struct AgentConfig {
    /// Base URL of the print server, such as `https://api.lesscommerce.io`.
    pub api_url: String,
    /// Bearer token issued by the admin panel.
    pub printer_token: String,
    /// Name of the system printer that labels are sent to.
    pub system_printer: String,
    /// Friendly name of the printer; see `friendly_name` for where it is not set.
    pub display_name: Option<String>,
    /// Seconds between two polls, until the first heartbeat tells otherwise;
    /// `default_poll_interval` unless it was set.
    pub poll_interval: u64,
    /// Whether the agent starts when the user logs in; false unless it was set.
    pub launch_at_login: bool,
}

/// Seconds between two polls, where the settings name no other cadence.
pub fn default_poll_interval() -> (secs: u64)
    ensures
        secs == 5,
{
    5
}

/// A file below the configuration directory of the operating system, and the
/// permission bits that it is to have, where the system has such bits.
#[derive(Debug, Clone)]
pub struct ConfigPath {
    pub dir: String,
    pub file: String,
    pub mode: Option<u32>,
}

/// The directory below the system's configuration directory that holds the
/// settings.
pub open spec fn settings_dir(platform: Platform) -> Seq<char> {
    match platform {
        Platform::MacOs => "io.lesscommerce.print-agent"@,
        _ => "lesscommerce"@,
    }
}

/// The permission bits of the settings file. It holds the token, so that nobody but
/// the user may read or write it; on Windows the directory sees to that.
pub open spec fn settings_mode(platform: Platform) -> Option<u32> {
    match platform {
        Platform::Windows => None,
        _ => Some(0o600),
    }
}

/// What reading the settings came to. Paths are as they are displayed.
#[derive(Debug)]
pub enum ConfigRead {
    /// The system has no configuration directory.
    NoDirectory,
    /// There is no settings file.
    Missing,
    Unreadable(String),
    Malformed(String),
    Parsed(AgentConfig),
}

/// What writing the settings came to. Paths are as they are displayed.
#[derive(Debug)]
pub enum ConfigWrite {
    /// The system has no configuration directory.
    NoDirectory,
    /// The directory of the settings file could not be made.
    DirectoryNotCreated(String),
    /// The settings could not be written as JSON, for the given reason.
    NotSerialized(String),
    NotWritten(String),
    Written,
}

/// Why settings could not be loaded or saved.
#[derive(Debug, Clone)]
pub enum ConfigError {
    NoDirectory,
    Read(String),
    Parse(String),
    CreateDirectory(String),
    Serialize(String),
    Write(String),
}

impl ConfigError {
    /// The message shown for the error.
    pub open spec fn shown(self) -> Seq<char> {
        match self {
            ConfigError::NoDirectory => "Could not resolve OS config dir for print-agent"@,
            ConfigError::Read(path) => "Failed to read "@ + path@,
            ConfigError::Parse(path) => "Failed to parse "@ + path@ + " — is the JSON valid?"@,
            ConfigError::CreateDirectory(path) => "Failed to create "@ + path@,
            ConfigError::Serialize(reason) => reason@,
            ConfigError::Write(path) => "Failed to write "@ + path@,
        }
    }

    /// The message shown for the error.
    pub fn message(&self) -> (text: String)
        ensures
            text@ == self.shown(),
            text@ == (match *self {
                ConfigError::NoDirectory => "Could not resolve OS config dir for print-agent"@,
                ConfigError::Read(path) => "Failed to read "@ + path@,
                ConfigError::Parse(path) => "Failed to parse "@ + path@ + " — is the JSON valid?"@,
                ConfigError::CreateDirectory(path) => "Failed to create "@ + path@,
                ConfigError::Serialize(reason) => reason@,
                ConfigError::Write(path) => "Failed to write "@ + path@,
            }),
    {
        match self {
            ConfigError::NoDirectory =>
                "Could not resolve OS config dir for print-agent".to_owned(),
            ConfigError::Read(path) => "Failed to read ".to_owned().concat(path.as_str()),
            ConfigError::Parse(path) => "Failed to parse ".to_owned().concat(path.as_str()).concat(
                " — is the JSON valid?",
            ),
            ConfigError::CreateDirectory(path) => "Failed to create ".to_owned().concat(
                path.as_str(),
            ),
            ConfigError::Serialize(reason) => reason.clone(),
            ConfigError::Write(path) => "Failed to write ".to_owned().concat(path.as_str()),
        }
    }
}

impl AgentConfig {
    /// Where the settings are kept, below the configuration directory of the
    /// operating system. There is no such place where the system has no such
    /// directory.
    pub fn config_path(platform: Platform, has_config_dir: bool) -> (path: Result<
        ConfigPath,
        ConfigError,
    >)
        ensures
            path is Ok <==> has_config_dir,
            path is Ok ==> path->Ok_0.dir@ == settings_dir(platform) && path->Ok_0.file@
                == "print-agent.json"@ && path->Ok_0.mode == settings_mode(platform),
            path is Err ==> path->Err_0 is NoDirectory,
            path is Ok ==> path->Ok_0.dir@ == (if platform == Platform::MacOs {
                "io.lesscommerce.print-agent"@
            } else {
                "lesscommerce"@
            }),
            path is Ok ==> path->Ok_0.mode == (if platform == Platform::Windows {
                None::<u32>
            } else {
                Some(0o600u32)
            }),
    {
        if !has_config_dir {
            return Err(ConfigError::NoDirectory);
        }
        let dir = match platform {
            Platform::MacOs => "io.lesscommerce.print-agent".to_owned(),
            _ => "lesscommerce".to_owned(),
        };
        let mode: Option<u32> = match platform {
            Platform::Windows => None,
            _ => Some(0o600),
        };
        Ok(ConfigPath { dir, file: "print-agent.json".to_owned(), mode })
    }

    /// The settings that were read: none where there is no file yet, and an error
    /// where there is one that cannot be read or understood.
    pub fn load(read: ConfigRead) -> (loaded: Result<Option<AgentConfig>, ConfigError>)
        ensures
            loaded == (match read {
                ConfigRead::NoDirectory => Err(ConfigError::NoDirectory),
                ConfigRead::Missing => Ok(None),
                ConfigRead::Unreadable(path) => Err(ConfigError::Read(path)),
                ConfigRead::Malformed(path) => Err(ConfigError::Parse(path)),
                ConfigRead::Parsed(config) => Ok(Some(config)),
            }),
    {
        match read {
            ConfigRead::NoDirectory => Err(ConfigError::NoDirectory),
            ConfigRead::Missing => Ok(None),
            ConfigRead::Unreadable(path) => Err(ConfigError::Read(path)),
            ConfigRead::Malformed(path) => Err(ConfigError::Parse(path)),
            ConfigRead::Parsed(config) => Ok(Some(config)),
        }
    }

    /// Whether the settings were saved, and what kept them from it.
    pub fn save(write: ConfigWrite) -> (saved: Result<(), ConfigError>)
        ensures
            saved == (match write {
                ConfigWrite::NoDirectory => Err(ConfigError::NoDirectory),
                ConfigWrite::DirectoryNotCreated(path) => Err(ConfigError::CreateDirectory(path)),
                ConfigWrite::NotSerialized(reason) => Err(ConfigError::Serialize(reason)),
                ConfigWrite::NotWritten(path) => Err(ConfigError::Write(path)),
                ConfigWrite::Written => Ok(()),
            }),
    {
        match write {
            ConfigWrite::NoDirectory => Err(ConfigError::NoDirectory),
            ConfigWrite::DirectoryNotCreated(path) => Err(ConfigError::CreateDirectory(path)),
            ConfigWrite::NotSerialized(reason) => Err(ConfigError::Serialize(reason)),
            ConfigWrite::NotWritten(path) => Err(ConfigError::Write(path)),
            ConfigWrite::Written => Ok(()),
        }
    }

    /// The friendly name of the printer: the one that was set, or else the one that
    /// the server told with a heartbeat, if it has told one yet.
    pub fn friendly_name(&self, told: &Option<String>) -> (name: Option<String>)
        ensures
            name == (match self.display_name {
                Some(_) => self.display_name,
                None => *told,
            }),
    {
        match (&self.display_name, told) {
            (Some(name), _) => Some(name.clone()),
            (None, Some(name)) => Some(name.clone()),
            (None, None) => None,
        }
    }

    /// Settings that name a server, a token and a printer.
    pub open spec fn complete(self) -> bool {
        &&& !is_blank(self.api_url@)
        &&& !is_blank(self.printer_token@)
        &&& !is_blank(self.system_printer@)
    }

    /// Whether the settings are enough to start polling. A setting that holds
    /// nothing but white space counts as missing.
    pub fn is_complete(&self) -> (yes: bool)
        ensures
            yes == self.complete(),
            yes == {
                &&& exists|i: int|
                    0 <= i < self.api_url@.len() && !is_space(#[trigger] self.api_url@[i])
                &&& exists|i: int|
                    0 <= i < self.printer_token@.len() && !is_space(
                        #[trigger] self.printer_token@[i],
                    )
                &&& exists|i: int|
                    0 <= i < self.system_printer@.len() && !is_space(
                        #[trigger] self.system_printer@[i],
                    )
            },
    {
        !blank(self.api_url.as_str()) && !blank(self.printer_token.as_str()) && !blank(
            self.system_printer.as_str(),
        )
    }
}

/// Settings are complete exactly where none of the three is empty once the white
/// space around it is taken away.
pub proof fn law_complete_settings_survive_trimming(config: AgentConfig)
    ensures
        config.complete() <==> {
            &&& trim(config.api_url@).len() > 0
            &&& trim(config.printer_token@).len() > 0
            &&& trim(config.system_printer@).len() > 0
        },
{
    law_trim_empty_iff_blank(config.api_url@);
    law_trim_empty_iff_blank(config.printer_token@);
    law_trim_empty_iff_blank(config.system_printer@);
}

} // verus!
