//! The daemon's configuration as the core consumes it.
//!
//! Finding the configuration file, reading it and parsing it belong to the
//! surrounding process; the core receives the outcome as plain values and
//! supplies the documented defaults where something is absent or malformed.

use vstd::prelude::*;

verus! {

/// Symbol rate used when none is configured.
pub const DEFAULT_BAUD: u32 = 57_600;

/// Heartbeat interval used when none is configured, in milliseconds.
pub const DEFAULT_INTERVAL_MS: u64 = 5_000;

/// Serial-device configuration: an optional explicit device path and an
/// optional symbol rate.
pub struct SerialConfig {
    /// Explicit device path; when absent, discovery scans the host.
    pub path: Option<String>,
    /// Symbol rate; when absent, [`DEFAULT_BAUD`] is used.
    pub baud: Option<u32>,
}

impl SerialConfig {
    /// The symbol rate this configuration asks for.
    pub open spec fn baud_spec(self) -> u32 {
        match self.baud {
            Some(b) => b,
            None => DEFAULT_BAUD,
        }
    }

    /// The configured symbol rate, or the default where none is set.
    pub fn effective_baud(&self) -> (r: u32)
        ensures
            r == self.baud_spec(),
    {
        match self.baud {
            Some(b) => b,
            None => DEFAULT_BAUD,
        }
    }
}

impl Default for SerialConfig {
    /// An empty serial configuration: no explicit path, default rate.
    fn default() -> (r: Self)
        ensures
            r.path is None,
            r.baud is None,
    {
        SerialConfig { path: None, baud: None }
    }
}

/// Whole-daemon configuration.
pub struct Config {
    /// Heartbeat interval in milliseconds; when absent,
    /// [`DEFAULT_INTERVAL_MS`] is used.
    pub interval_ms: Option<u64>,
    /// Heartbeat message; when absent, a fixed greeting is used.
    pub message: Option<String>,
    /// Serial-device section; when absent, an empty one is used.
    pub serial: Option<SerialConfig>,
}

/// Whether a configuration consists of nothing but defaults.
pub open spec fn is_default_config(c: Config) -> bool {
    &&& c.interval_ms is None
    &&& c.message is None
    &&& c.serial is None
}

impl Config {
    /// The heartbeat interval this configuration asks for, in milliseconds.
    pub open spec fn interval_spec(self) -> u64 {
        match self.interval_ms {
            Some(ms) => ms,
            None => DEFAULT_INTERVAL_MS,
        }
    }

    /// The heartbeat interval in milliseconds, or the default where none is
    /// set.
    pub fn interval(&self) -> (r: u64)
        ensures
            r == self.interval_spec(),
    {
        match self.interval_ms {
            Some(ms) => ms,
            None => DEFAULT_INTERVAL_MS,
        }
    }

    /// The heartbeat message this configuration asks for.
    pub open spec fn message_spec(self) -> Seq<char> {
        match self.message {
            Some(m) => m@,
            None => "hello world"@,
        }
    }

    /// The configured heartbeat message, or the default where none is set.
    pub fn message(&self) -> (r: &str)
        ensures
            r@ == self.message_spec(),
    {
        match &self.message {
            Some(m) => m.as_str(),
            None => "hello world",
        }
    }
}

impl Default for Config {
    /// A configuration of nothing but defaults.
    fn default() -> (r: Self)
        ensures
            is_default_config(r),
    {
        Config { interval_ms: None, message: None, serial: None }
    }
}

/// Settles the outcome of the external configuration search and parse:
/// a parsed configuration is taken as it is; a missing file or a parse
/// failure falls back to the all-defaults configuration.
pub fn load_config(parsed: Option<Result<Config, String>>) -> (r: Config)
    ensures
        match parsed {
            Some(Ok(c)) => r == c,
            Some(Err(_)) => is_default_config(r),
            None => is_default_config(r),
        },
{
    match parsed {
        Some(Ok(c)) => c,
        Some(Err(_)) => Config { interval_ms: None, message: None, serial: None },
        None => Config { interval_ms: None, message: None, serial: None },
    }
}

/// Home-directory fallback for hosts whose environment names none; this
/// build has no further source to consult, so there is never a fallback.
pub fn dirs_fallback_home() -> (r: Option<String>)
    ensures
        r is None,
{
    None
}

} // verus!
