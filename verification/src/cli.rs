//! The command line, as plain values.
use vstd::prelude::*;

verus! {

/// The command line: what to do, the configuration file, the log level, and
/// whether log lines carry timestamps.
#[derive(Debug, Clone, PartialEq, Eq)]
pub struct Cli {
    pub command: Option<Commands>,
    pub config_file: Option<String>,
    pub log_level: Option<LogLevel>,
    pub no_log_timestamp: bool,
}

/// What to do.
#[derive(Debug, Clone, Copy, PartialEq, Eq, Hash)]
pub enum Commands {
    /// Start the HTTP server (the default).
    Serve,
    /// Validate the configuration file.
    Check,
}

/// How much to log.
#[derive(Debug, Clone, Copy, PartialEq, Eq, Hash)]
pub enum LogLevel {
    Trace,
    Debug,
    Info,
    Warn,
    Error,
}

impl LogLevel {
    pub open spec fn name_spec(self) -> Seq<char> {
        match self {
            LogLevel::Trace => "trace"@,
            LogLevel::Debug => "debug"@,
            LogLevel::Info => "info"@,
            LogLevel::Warn => "warn"@,
            LogLevel::Error => "error"@,
        }
    }

    /// The level's name, as log filters spell it.
    pub fn as_str(&self) -> (r: &'static str)
        ensures
            r@ == self.name_spec(),
    {
        match self {
            LogLevel::Trace => "trace",
            LogLevel::Debug => "debug",
            LogLevel::Info => "info",
            LogLevel::Warn => "warn",
            LogLevel::Error => "error",
        }
    }
}

impl Cli {
    /// What to do: the command given, or serving.
    pub fn command_or_default(&self) -> (r: Commands)
        ensures
            r == match self.command {
                Some(c) => c,
                None => Commands::Serve,
            },
    {
        match self.command {
            Some(c) => c,
            None => Commands::Serve,
        }
    }
}

} // verus!
