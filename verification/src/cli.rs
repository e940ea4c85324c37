//! The command line of the gateway, as the plan of what is to be started.

use vstd::prelude::*;

verus! {

/// Where the settings of the service come from.
#[derive(Debug, Clone, PartialEq, Eq)]
pub enum ConfigSource {
    /// The built-in defaults.
    Defaults,
    /// The file at this path.
    File(String),
}

/// What is to be started: the service, with settings from `config`, and with
/// the log targets of the file at `logger_config`, which is watched for
/// changes, if there is one.
#[derive(Debug, Clone, PartialEq, Eq)]
pub struct Launch {
    pub config: ConfigSource,
    pub logger_config: Option<String>,
}

/// The arguments of the command that starts the service.
#[derive(Debug, Clone, PartialEq, Eq)]
pub struct CmdRun {
    /// Path to the service config.
    pub config: Option<String>,
    /// Path to the logger config.
    pub logger_config: Option<String>,
}

/// The commands of the gateway.
#[derive(Debug, Clone, PartialEq, Eq)]
pub enum Cmd {
    /// Start the service.
    Run(CmdRun),
}

/// The parsed command line.
#[derive(Debug, Clone, PartialEq, Eq)]
pub struct App {
    pub cmd: Cmd,
}

impl CmdRun {
    /// The plan of this command: settings from the named file, or the
    /// defaults where none is named; the logger config as given.
    pub open spec fn plan(self) -> Launch {
        Launch {
            config: match self.config {
                Some(path) => ConfigSource::File(path),
                None => ConfigSource::Defaults,
            },
            logger_config: self.logger_config,
        }
    }

    /// Resolves the command into what is to be started.
    pub fn run(self) -> (r: Launch)
        ensures
            r == self.plan(),
    {
        let config = match self.config {
            Some(path) => ConfigSource::File(path),
            None => ConfigSource::Defaults,
        };
        Launch { config, logger_config: self.logger_config }
    }
}

impl Cmd {
    /// The plan of the command.
    pub open spec fn plan(self) -> Launch {
        match self {
            Cmd::Run(cmd) => cmd.plan(),
        }
    }

    /// Resolves the command into what is to be started.
    pub fn run(self) -> (r: Launch)
        ensures
            r == self.plan(),
    {
        match self {
            Cmd::Run(cmd) => cmd.run(),
        }
    }
}

impl App {
    /// Resolves the command line into what is to be started.
    pub fn run(self) -> (r: Launch)
        ensures
            r == self.cmd.plan(),
    {
        self.cmd.run()
    }
}

} // verus!
