//! Start-up policy: the version, the log verbosity, the sizing of the
//! runtime and the address to bind, each derived from the configuration.

use std::str::FromStr;
use vstd::prelude::*;
use vstd::string::StringExecFns;
use crate::config::{IbisConfig, Settings};

verus! {

/// How much the log shows, from the least to the most.
#[derive(Clone, Copy, Debug, PartialEq, Eq, Structural)]
pub enum Verbosity {
    Error,
    Warn,
    Info,
    Debug,
    Trace,
}

/// The level that `tracing::Level::from_str` reads from a text, or nothing
/// where the text names no level.
pub uninterp spec fn named_level(text: Seq<char>) -> Option<Verbosity>;

/// Calls `tracing::Level::from_str` and tells the five levels apart.
/// Trusted: the outcome is a function of the text alone, named `named_level`.
#[verifier::external_body]
fn parse_level(text: &str) -> (r: Option<Verbosity>)
    ensures
        r == named_level(text@),
{
    match tracing::Level::from_str(text) {
        Ok(tracing::Level::ERROR) => Some(Verbosity::Error),
        Ok(tracing::Level::WARN) => Some(Verbosity::Warn),
        Ok(tracing::Level::INFO) => Some(Verbosity::Info),
        Ok(tracing::Level::DEBUG) => Some(Verbosity::Debug),
        Ok(tracing::Level::TRACE) => Some(Verbosity::Trace),
        Err(_) => None,
    }
}

/// The verbosity in force: the one that was named, or the most verbose
/// where none was.
pub open spec fn level_in_force(named: Option<Verbosity>) -> Verbosity {
    match named {
        Some(level) => level,
        None => Verbosity::Trace,
    }
}

/// The parameters from which the runtime is built.
#[derive(Debug, PartialEq, Eq)]
pub struct RuntimeSizing {
    pub worker_threads: usize,
    pub blocking_threads: usize,
    pub keep_alive_seconds: u64,
    pub stack_size: usize,
    pub thread_name: String,
}

/// Mathematical value of a `RuntimeSizing`.
pub struct Sizing {
    pub worker_threads: usize,
    pub blocking_threads: usize,
    pub keep_alive_seconds: u64,
    pub stack_size: usize,
    pub thread_name: Seq<char>,
}

impl View for RuntimeSizing {
    type V = Sizing;

    open spec fn view(&self) -> Sizing {
        Sizing {
            worker_threads: self.worker_threads,
            blocking_threads: self.blocking_threads,
            keep_alive_seconds: self.keep_alive_seconds,
            stack_size: self.stack_size,
            thread_name: self.thread_name@,
        }
    }
}

/// The sizing that a configuration asks for: the server section's numbers
/// as they are, and threads named after the application.
pub open spec fn sizing_of(settings: Settings) -> Sizing {
    Sizing {
        worker_threads: settings.server.active().worker_threads,
        blocking_threads: settings.server.active().blocking_threads,
        keep_alive_seconds: settings.server.active().keep_alive,
        stack_size: settings.server.active().stack_size,
        thread_name: settings.app.app_name + "-thread"@,
    }
}

/// The address to bind: the configured address and port, joined by a colon.
pub open spec fn bind_address_of(settings: Settings) -> Seq<char> {
    settings.server.active().address + ":"@ + settings.server.active().port
}

/// Namespace of the start-up policy functions.
pub struct IbisCore {}

impl IbisCore {
    /// The version string of the framework.
    pub open spec fn version() -> Seq<char> {
        "1.0.0"@
    }

    /// Returns the version string of the framework.
    pub fn get_version() -> (r: &'static str)
        ensures
            r@ == Self::version(),
    {
        "1.0.0"
    }

    /// The level that the configured log level names, if it names one.
    pub fn named_log_level(config: &IbisConfig) -> (r: Option<Verbosity>)
        ensures
            r == named_level(config@.logger.active().log_level),
    {
        parse_level(config.get_logger_log_level())
    }

    /// Settles the verbosity: a level that was named stands, and a log
    /// level that names none gives the most verbose one.
    pub fn choose_level(named: Option<Verbosity>) -> (r: Verbosity)
        ensures
            r == level_in_force(named),
    {
        match named {
            Some(level) => level,
            None => Verbosity::Trace,
        }
    }

    /// The verbosity that a configuration asks for.
    pub fn log_level(config: &IbisConfig) -> (r: Verbosity)
        ensures
            r == level_in_force(named_level(config@.logger.active().log_level)),
    {
        Self::choose_level(Self::named_log_level(config))
    }

    /// The parameters of the runtime that a configuration asks for. No
    /// number is checked here: the runtime refuses what it cannot use.
    pub fn runtime_sizing(config: &IbisConfig) -> (r: RuntimeSizing)
        ensures
            r@ == sizing_of(config@),
    {
        RuntimeSizing {
            worker_threads: config.get_server_worker_threads(),
            blocking_threads: config.get_server_blocking_threads(),
            keep_alive_seconds: config.get_server_keep_alive(),
            stack_size: config.get_server_stack_size(),
            thread_name: config.get_app_name().to_owned().concat("-thread"),
        }
    }

    /// The address that the listener binds. The port is not checked here:
    /// one that is no port number fails the bind.
    pub fn bind_address(config: &IbisConfig) -> (r: String)
        ensures
            r@ == bind_address_of(config@),
    {
        config.get_server_address().to_owned().concat(":").concat(config.get_server_port())
    }
}

} // verus!
