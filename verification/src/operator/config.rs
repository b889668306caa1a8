//! The operator's configuration.
use crate::controller::logger::LogLevel;
use vstd::prelude::*;

verus! {

/// The operator's configuration.
#[derive(Debug)]
pub struct Config {
    pub _num_threads: usize,
    pub log_level: LogLevel,
    pub address: String,
    pub otlp_url: Option<String>,
}

impl Config {
    /// A configuration from what was given; a missing thread count is 8, a missing level
    /// is info, a missing address is "0.0.0.0:3000".
    pub fn new(
        num_threads: Option<usize>,
        log_level: Option<LogLevel>,
        address: Option<String>,
        otlp_url: Option<String>,
    ) -> (config: Self)
        ensures
            config._num_threads == (match num_threads {
                Some(n) => n,
                None => 8,
            }),
            config.log_level == (match log_level {
                Some(l) => l,
                None => LogLevel::Info,
            }),
            config.address@ == (match address {
                Some(a) => a@,
                None => "0.0.0.0:3000"@,
            }),
            address matches Some(a) ==> config.address == a,
            config.otlp_url == otlp_url,
    {
        Config {
            _num_threads: match num_threads {
                Some(n) => n,
                None => 8,
            },
            log_level: match log_level {
                Some(l) => l,
                None => LogLevel::Info,
            },
            address: match address {
                Some(a) => a,
                None => String::from_str("0.0.0.0:3000"),
            },
            otlp_url,
        }
    }
}

} // verus!
