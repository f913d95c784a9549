//! Run-time settings of the emulator.

use vstd::prelude::*;
use vstd::string::StringExecFns;

verus! {

/// How much the emulator logs, from nothing to everything.
#[derive(Debug, Clone, Copy, PartialEq, Eq, Structural)]
pub enum LogLevel {
    Off,
    Error,
    Warn,
    Info,
    Debug,
    Trace,
}

/// The settings that a run is started with.
pub struct Config {
    /// Where the program image is read from.
    pub rom_path: String,
    /// How much is logged.
    pub log_level: LogLevel,
    /// Pause between instructions.
    pub step_delay: u64,
    /// Unused
    pub scale_factor: u32,
}

/// The level that a name or a digit stands for. Anything that is neither
/// one of the five names nor one of the digits `1` to `5` turns logging
/// off.
pub open spec fn level_named(name: Seq<char>) -> LogLevel {
    if name == "trace"@ || name == "5"@ {
        LogLevel::Trace
    } else if name == "debug"@ || name == "4"@ {
        LogLevel::Debug
    } else if name == "info"@ || name == "3"@ {
        LogLevel::Info
    } else if name == "warn"@ || name == "2"@ {
        LogLevel::Warn
    } else if name == "error"@ || name == "1"@ {
        LogLevel::Error
    } else {
        LogLevel::Off
    }
}

/// Whether `name` spells `word`.
fn spells(name: &String, word: &str) -> (same: bool)
    ensures
        same == (name@ == word@),
{
    let word = String::from_str(word);
    *name == word
}

impl LogLevel {
    /// The level that `name` stands for.
    pub fn parse(name: &str) -> (level: LogLevel)
        ensures
            level == level_named(name@),
    {
        let name = String::from_str(name);
        if spells(&name, "trace") || spells(&name, "5") {
            LogLevel::Trace
        } else if spells(&name, "debug") || spells(&name, "4") {
            LogLevel::Debug
        } else if spells(&name, "info") || spells(&name, "3") {
            LogLevel::Info
        } else if spells(&name, "warn") || spells(&name, "2") {
            LogLevel::Warn
        } else if spells(&name, "error") || spells(&name, "1") {
            LogLevel::Error
        } else {
            LogLevel::Off
        }
    }
}

impl Config {
    /// The settings that the given arguments ask for.
    pub fn from_args(rom_path: String, log_level: &str, step_delay: u64, scale: u32) -> (config:
        Config)
        ensures
            config.rom_path == rom_path,
            config.log_level == level_named(log_level@),
            config.step_delay == step_delay,
            config.scale_factor == scale,
    {
        let log_level = LogLevel::parse(log_level);
        let scale_factor = scale;
        Config { rom_path, log_level, step_delay, scale_factor }
    }
}

} // verus!
