//! The options of the command line.

use vstd::prelude::*;
use crate::config::Config;

verus! {

/// The options that say where the configuration comes from and what
/// replaces parts of it.
#[derive(Debug, Clone, PartialEq, Eq)]
pub struct ConfigOpts {
    /// The path of the configuration file.
    pub config: Option<String>,
    /// The source root, in place of the one of the configuration.
    pub src: Option<String>,
    /// The output root, in place of the one of the configuration.
    pub dest: Option<String>,
    /// The URL of the database `default`.
    pub database_url: Option<String>,
    /// The seconds to wait for a connection.
    pub connect_timeout: u64,
    /// Whether a new SQLite database is set to write-ahead logging.
    pub sqlite_create_db_wal: bool,
}

/// What the program is asked to do.
#[derive(Debug, Clone, PartialEq, Eq)]
pub enum Command {
    /// One pass over the source root.
    Run { config_opts: ConfigOpts },
    /// One pass, then one run for each file that changes.
    Watch { config_opts: ConfigOpts },
}

/// The command line.
#[derive(Debug, Clone, PartialEq, Eq)]
pub struct Opt {
    pub command: Command,
}

impl ConfigOpts {
    /// The configuration `config` with what the options replace: the source
    /// root and the output root where the options name them, and the URL of
    /// the database `default` where the options give one.
    pub fn apply_to(self, config: Config) -> (merged: Config)
        ensures
            merged.src == (if self.src is Some {
                self.src
            } else {
                config.src
            }),
            merged.dest == (if self.dest is Some {
                self.dest
            } else {
                config.dest
            }),
            merged.extensions == config.extensions,
            merged.ignore_patterns == config.ignore_patterns,
            merged.config_path == config.config_path,
            merged.databases@ == (match self.database_url {
                Some(url) => config.databases@.insert("default"@, url@),
                None => config.databases@,
            }),
    {
        let mut merged = config;
        match self.src {
            Some(s) => {
                merged.src = Some(s);
            },
            None => {},
        }
        match self.dest {
            Some(d) => {
                merged.dest = Some(d);
            },
            None => {},
        }
        match self.database_url {
            Some(database_url) => {
                merged.databases.insert("default", database_url.as_str());
            },
            None => {},
        }
        merged
    }
}

impl Command {
    /// The options of the command.
    pub fn config_opts(&self) -> (opts: &ConfigOpts)
        ensures
            *opts == match *self {
                Command::Run { config_opts } => config_opts,
                Command::Watch { config_opts } => config_opts,
            },
    {
        match self {
            Command::Run { config_opts } => config_opts,
            Command::Watch { config_opts } => config_opts,
        }
    }
}

} // verus!
