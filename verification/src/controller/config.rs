//! The controller's configuration, read from the environment; what the environment
//! leaves out takes its default.
use crate::controller::logger::LogLevel;
use vstd::prelude::*;

verus! {

/// The default number of worker threads.
pub fn default_treads() -> (n: usize)
    ensures
        n == 4,
{
    4
}

/// The default level of logging.
pub fn default_log_level() -> (level: LogLevel)
    ensures
        level == LogLevel::Info,
{
    LogLevel::default()
}

/// The default address the server listens on.
pub fn default_address() -> (address: String)
    ensures
        address@ == "0.0.0.0:3000"@,
{
    String::from_str("0.0.0.0:3000")
}

/// The controller's configuration.
#[derive(Debug)]
pub struct Config {
    pub num_threads: usize,
    pub log_level: LogLevel,
    pub address: String,
    pub otlp_url: Option<String>,
}

} // verus!
