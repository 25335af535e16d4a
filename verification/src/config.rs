//! The tunable parameters of a filtering session.
//!
//! A `Config` is built once at startup — by the surrounding program,
//! from a file or from defaults — and is immutable afterwards. The
//! filter consumes only the three durations of [`WheelConfig`]; the
//! device and logging sections belong to the session setup around it.
//! All durations are in milliseconds.

use vstd::prelude::*;

verus! {

/// Default debounce window in milliseconds.
fn default_debounce_time() -> (ms: u64)
    ensures
        ms == 50,
{
    50
}

/// Default suppression timeout in milliseconds.
fn default_scroll_timeout() -> (ms: u64)
    ensures
        ms == 300,
{
    300
}

/// Default log level name.
fn default_log_level() -> (level: String)
    ensures
        level@ == "info"@,
{
    "info".to_owned()
}

/// Which physical device a session should attach to.
#[derive(Debug, Clone)]
pub struct DeviceConfig {
    /// Device path or index, when one is pinned ahead of time.
    pub path: Option<String>,
    /// Substring filter on device names.
    pub name_filter: Option<String>,
}

/// The wheel-debouncing durations, in milliseconds.
#[derive(Debug, Clone)]
pub struct WheelConfig {
    /// Debounce window of the vertical axis.
    pub debounce_time_ms: u64,
    /// Debounce window of the horizontal axis.
    pub h_debounce_time_ms: u64,
    /// Suppression timeout, shared by both axes.
    pub debounce_timeout_ms: u64,
}

/// Logging preferences of the surrounding program.
#[derive(Debug, Clone)]
pub struct LoggingConfig {
    /// Log level name: `error`, `warn`, `info`, `debug` or `trace`.
    pub level: String,
}

/// Everything a filtering session is configured with.
#[derive(Debug, Clone)]
pub struct Config {
    pub device: DeviceConfig,
    pub wheel: WheelConfig,
    pub logging: LoggingConfig,
}

impl Default for DeviceConfig {
    /// No device pinned, no name filter.
    fn default() -> (c: DeviceConfig)
        ensures
            c.path is None,
            c.name_filter is None,
    {
        DeviceConfig { path: None, name_filter: None }
    }
}

impl Default for WheelConfig {
    /// A 50 ms debounce window on both axes and a 300 ms suppression
    /// timeout.
    fn default() -> (c: WheelConfig)
        ensures
            c.debounce_time_ms == 50,
            c.h_debounce_time_ms == 50,
            c.debounce_timeout_ms == 300,
    {
        WheelConfig {
            debounce_time_ms: default_debounce_time(),
            h_debounce_time_ms: default_debounce_time(),
            debounce_timeout_ms: default_scroll_timeout(),
        }
    }
}

impl Default for LoggingConfig {
    /// Log at `info`.
    fn default() -> (c: LoggingConfig)
        ensures
            c.level@ == "info"@,
    {
        LoggingConfig { level: default_log_level() }
    }
}

impl Default for Config {
    /// The defaults of every section.
    fn default() -> (c: Config)
        ensures
            c.device.path is None,
            c.device.name_filter is None,
            c.wheel.debounce_time_ms == 50,
            c.wheel.h_debounce_time_ms == 50,
            c.wheel.debounce_timeout_ms == 300,
            c.logging.level@ == "info"@,
    {
        Config {
            device: DeviceConfig::default(),
            wheel: WheelConfig::default(),
            logging: LoggingConfig::default(),
        }
    }
}

impl Config {
    /// The vertical-axis debounce window, in milliseconds.
    pub fn get_debounce_time(&self) -> (ms: u64)
        ensures
            ms == self.wheel.debounce_time_ms,
    {
        self.wheel.debounce_time_ms
    }

    /// The horizontal-axis debounce window, in milliseconds.
    pub fn get_h_debounce_time(&self) -> (ms: u64)
        ensures
            ms == self.wheel.h_debounce_time_ms,
    {
        self.wheel.h_debounce_time_ms
    }

    /// The suppression timeout, in milliseconds.
    pub fn get_debounce_timeout(&self) -> (ms: u64)
        ensures
            ms == self.wheel.debounce_timeout_ms,
    {
        self.wheel.debounce_timeout_ms
    }
}

} // verus!
