//! The operator's command line: start the server, or create resources.
use crate::controller::logger::LogLevel;
use crate::operator::config::Config;
use crate::text::{decimal, usize_to_decimal};
use vstd::prelude::*;

verus! {

/// Why the command line was refused.
#[derive(Debug)]
pub enum CliError {
    ThreadLimit(usize),
    InvaidAddress(String),
}

impl CliError {
    /// The text of the error, as it is displayed.
    pub fn message(&self) -> (s: String)
        ensures
            s@ == (match self {
                CliError::ThreadLimit(n) => "Limit of threads exeeded: '"@ + decimal(*n as nat)
                    + "', limit is 8"@,
                CliError::InvaidAddress(a) => "Invalid type of address '"@ + a@ + "'"@,
            }),
    {
        match self {
            CliError::ThreadLimit(n) => {
                let head = String::from_str("Limit of threads exeeded: '");
                let count = usize_to_decimal(*n);
                head.concat(count.as_str()).concat("', limit is 8")
            },
            CliError::InvaidAddress(a) => {
                String::from_str("Invalid type of address '").concat(a.as_str()).concat("'")
            },
        }
    }
}

/// What can be created.
#[derive(Debug, Clone, Copy, PartialEq, Eq, Structural)]
pub enum CreateCommands {
    CRD,
    Application,
}

/// The arguments of the start command.
#[derive(Debug)]
pub struct StartCommandArgs {
    /// Size of the asynchronous thread pool.
    pub num_threads: usize,
    /// Level of logs and traces.
    pub log_level: LogLevel,
    /// Address of the server.
    pub address: String,
    pub otlp_url: Option<String>,
}

/// The commands of the operator.
#[derive(Debug)]
pub enum Cli {
    Start(StartCommandArgs),
    Create(CreateCommands),
}

/// The configuration that the start arguments give: each argument is taken as given.
pub open spec fn start_config(args: StartCommandArgs) -> Config {
    Config {
        _num_threads: args.num_threads,
        log_level: args.log_level,
        address: args.address,
        otlp_url: args.otlp_url,
    }
}

/// The configuration made from start arguments keeps each argument as it was given:
/// the thread count, the level, the address, and the collector's address, set or not.
pub proof fn lemma_start_arguments_are_kept(args: StartCommandArgs)
    ensures
        start_config(args)._num_threads == args.num_threads,
        start_config(args).log_level == args.log_level,
        start_config(args).address == args.address,
        start_config(args).otlp_url == args.otlp_url,
        args.otlp_url is Some ==> start_config(args).otlp_url is Some,
{
}

impl From<StartCommandArgs> for Config {
    fn from(args: StartCommandArgs) -> (config: Config) {
        let config = Config::new(
            Some(args.num_threads),
            Some(args.log_level),
            Some(args.address),
            args.otlp_url,
        );
        config
    }
}

impl vstd::std_specs::convert::FromSpecImpl<StartCommandArgs> for Config {
    open spec fn obeys_from_spec() -> bool {
        true
    }

    open spec fn from_spec(args: StartCommandArgs) -> Config {
        start_config(args)
    }
}

} // verus!
