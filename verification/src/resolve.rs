//! Configuration resolution: from the bytes of a configuration file to a
//! typed configuration, each section falling back to its compiled-in value
//! on its own, with a note for every fallback taken.

use vstd::prelude::*;
use vstd::utf8::{decode_utf8, valid_utf8};
use crate::config::{
    default_app, default_logger, default_server, default_settings, AppSettings, IbisAppConfig,
    IbisConfig, IbisLoggerTracingConfig, IbisLoggerType, IbisServerTokioConfig, IbisServerType,
    LoggerSettings, ServerSettings, Settings, TokioSettings, TracingSettings,
};
use crate::document::{
    entry, integer_at, lookup, parse_document, parsed_document, read_integer, read_text, text_at,
    tree_of, RawTree,
};

verus! {

/// The top-level sections of the configuration.
#[derive(Clone, Copy, Debug, PartialEq, Eq, Structural)]
pub enum Section {
    Server,
    App,
    Logger,
}

/// A fallback decision taken while resolving, for the operator to see.
#[derive(Clone, Copy, Debug, PartialEq, Eq, Structural)]
pub enum Fallback {
    /// The file could not be read as text; every section has its default.
    Unreadable,
    /// The text is not a well-formed document; every section has its default.
    Malformed,
    /// The section is absent; it has its default.
    MissingSection(Section),
    /// The section names no kind, or not as a text; the known kind is assumed.
    AssumedKind(Section),
    /// The section names a kind that is not known; it has its default.
    UnknownKind(Section),
    /// The section's table lacks a field or holds one of the wrong type; the
    /// section has its default.
    MalformedSection(Section),
}

/// How a section selects its variant.
#[derive(Clone, Copy, Debug, PartialEq, Eq, Structural)]
pub enum KindChoice {
    /// The section names the known kind.
    Named,
    /// The section names no kind as a text.
    Assumed,
    /// The section names another kind.
    Unknown,
}

/// The kind of the one server backend.
pub open spec fn server_kind() -> Seq<char> {
    "pooled-async"@
}

/// The kind of the one logging backend.
pub open spec fn logger_kind() -> Seq<char> {
    "structured-file"@
}

/// The choice that a section makes by its `kind` entry, where `known` is the
/// only kind there is.
pub open spec fn kind_choice(section: RawTree, known: Seq<char>) -> KindChoice {
    match text_at(section, "kind"@) {
        None => KindChoice::Assumed,
        Some(kind) => if kind == known {
            KindChoice::Named
        } else {
            KindChoice::Unknown
        },
    }
}

/// A thread count or byte size: an integer that a `usize` can hold.
pub open spec fn size_of(number: i64) -> Option<usize> {
    if 0 <= number <= usize::MAX {
        Some(number as usize)
    } else {
        None
    }
}

/// A number of seconds: an integer that is not negative.
pub open spec fn seconds_of(number: i64) -> Option<u64> {
    if 0 <= number {
        Some(number as u64)
    } else {
        None
    }
}

/// The size stored directly under `key` of a table.
pub open spec fn size_at(table: RawTree, key: Seq<char>) -> Option<usize> {
    match integer_at(table, key) {
        Some(number) => size_of(number),
        None => None,
    }
}

/// The number of seconds stored directly under `key` of a table.
pub open spec fn seconds_at(table: RawTree, key: Seq<char>) -> Option<u64> {
    match integer_at(table, key) {
        Some(number) => seconds_of(number),
        None => None,
    }
}

/// The typed value of a server backend table: present when all six fields
/// are there with the right types, absent otherwise.
pub open spec fn tokio_of(table: RawTree) -> Option<TokioSettings> {
    if size_at(table, "worker_threads"@) is Some
        && size_at(table, "blocking_threads"@) is Some
        && seconds_at(table, "keep_alive"@) is Some
        && size_at(table, "stack_size"@) is Some
        && text_at(table, "address"@) is Some
        && text_at(table, "port"@) is Some {
        Some(
            TokioSettings {
                worker_threads: size_at(table, "worker_threads"@).unwrap(),
                blocking_threads: size_at(table, "blocking_threads"@).unwrap(),
                keep_alive: seconds_at(table, "keep_alive"@).unwrap(),
                stack_size: size_at(table, "stack_size"@).unwrap(),
                address: text_at(table, "address"@).unwrap(),
                port: text_at(table, "port"@).unwrap(),
            },
        )
    } else {
        None
    }
}

/// The typed value of an application table.
pub open spec fn app_of(table: RawTree) -> Option<AppSettings> {
    if text_at(table, "app_name"@) is Some && text_at(table, "version"@) is Some {
        Some(
            AppSettings {
                app_name: text_at(table, "app_name"@).unwrap(),
                version: text_at(table, "version"@).unwrap(),
            },
        )
    } else {
        None
    }
}

/// The typed value of a logging backend table.
pub open spec fn tracing_of(table: RawTree) -> Option<TracingSettings> {
    if text_at(table, "log_level"@) is Some
        && text_at(table, "logfile_path"@) is Some
        && text_at(table, "logfile_name"@) is Some {
        Some(
            TracingSettings {
                log_level: text_at(table, "log_level"@).unwrap(),
                logfile_path: text_at(table, "logfile_path"@).unwrap(),
                logfile_name: text_at(table, "logfile_name"@).unwrap(),
            },
        )
    } else {
        None
    }
}

/// The typed value of the table stored under `key` of the document, if the
/// document has one there and it is well-formed.
pub open spec fn tokio_at(document: RawTree, key: Seq<char>) -> Option<TokioSettings> {
    match lookup(document, key) {
        Some(table) => tokio_of(table),
        None => None,
    }
}

/// The typed value of the logging table stored under `key` of the document.
pub open spec fn tracing_at(document: RawTree, key: Seq<char>) -> Option<TracingSettings> {
    match lookup(document, key) {
        Some(table) => tracing_of(table),
        None => None,
    }
}

/// The server section that a document resolves to.
pub open spec fn resolved_server(document: RawTree) -> ServerSettings {
    match lookup(document, "server"@) {
        None => default_server(),
        Some(section) => match kind_choice(section, server_kind()) {
            KindChoice::Unknown => default_server(),
            _ => match tokio_at(document, server_kind()) {
                Some(tokio) => ServerSettings::Tokio(tokio),
                None => default_server(),
            },
        },
    }
}

/// The fallbacks taken while resolving the server section, in order.
pub open spec fn server_notes(document: RawTree) -> Seq<Fallback> {
    match lookup(document, "server"@) {
        None => seq![Fallback::MissingSection(Section::Server)],
        Some(section) => match kind_choice(section, server_kind()) {
            KindChoice::Unknown => seq![Fallback::UnknownKind(Section::Server)],
            KindChoice::Assumed => if tokio_at(document, server_kind()) is Some {
                seq![Fallback::AssumedKind(Section::Server)]
            } else {
                seq![
                    Fallback::AssumedKind(Section::Server),
                    Fallback::MalformedSection(Section::Server),
                ]
            },
            KindChoice::Named => if tokio_at(document, server_kind()) is Some {
                Seq::empty()
            } else {
                seq![Fallback::MalformedSection(Section::Server)]
            },
        },
    }
}

/// The application section that a document resolves to.
pub open spec fn resolved_app(document: RawTree) -> AppSettings {
    match lookup(document, "app"@) {
        None => default_app(),
        Some(section) => match app_of(section) {
            Some(app) => app,
            None => default_app(),
        },
    }
}

/// The fallbacks taken while resolving the application section.
pub open spec fn app_notes(document: RawTree) -> Seq<Fallback> {
    match lookup(document, "app"@) {
        None => seq![Fallback::MissingSection(Section::App)],
        Some(section) => if app_of(section) is Some {
            Seq::empty()
        } else {
            seq![Fallback::MalformedSection(Section::App)]
        },
    }
}

/// The logger section that a document resolves to.
pub open spec fn resolved_logger(document: RawTree) -> LoggerSettings {
    match lookup(document, "logger"@) {
        None => default_logger(),
        Some(section) => match kind_choice(section, logger_kind()) {
            KindChoice::Unknown => default_logger(),
            _ => match tracing_at(document, logger_kind()) {
                Some(tracing) => LoggerSettings::Tracing(tracing),
                None => default_logger(),
            },
        },
    }
}

/// The fallbacks taken while resolving the logger section, in order.
pub open spec fn logger_notes(document: RawTree) -> Seq<Fallback> {
    match lookup(document, "logger"@) {
        None => seq![Fallback::MissingSection(Section::Logger)],
        Some(section) => match kind_choice(section, logger_kind()) {
            KindChoice::Unknown => seq![Fallback::UnknownKind(Section::Logger)],
            KindChoice::Assumed => if tracing_at(document, logger_kind()) is Some {
                seq![Fallback::AssumedKind(Section::Logger)]
            } else {
                seq![
                    Fallback::AssumedKind(Section::Logger),
                    Fallback::MalformedSection(Section::Logger),
                ]
            },
            KindChoice::Named => if tracing_at(document, logger_kind()) is Some {
                Seq::empty()
            } else {
                seq![Fallback::MalformedSection(Section::Logger)]
            },
        },
    }
}

/// The configuration that a document resolves to: each section by itself.
pub open spec fn resolved_settings(document: RawTree) -> Settings {
    Settings {
        server: resolved_server(document),
        app: resolved_app(document),
        logger: resolved_logger(document),
    }
}

/// The fallbacks taken while resolving a document: those of the server
/// section, then of the application section, then of the logger section.
pub open spec fn resolved_notes(document: RawTree) -> Seq<Fallback> {
    server_notes(document) + app_notes(document) + logger_notes(document)
}

/// Narrows an integer of the document to a thread count or byte size.
pub fn to_size(number: i64) -> (r: Option<usize>)
    ensures
        r == size_of(number),
{
    if number < 0 {
        None
    } else if number as u64 > usize::MAX as u64 {
        None
    } else {
        Some(number as usize)
    }
}

/// Narrows an integer of the document to a number of seconds.
pub fn to_seconds(number: i64) -> (r: Option<u64>)
    ensures
        r == seconds_of(number),
{
    if number < 0 {
        None
    } else {
        Some(number as u64)
    }
}

/// Reads the size stored under `key` of a table.
pub fn read_size(table: &toml::Value, key: &str) -> (r: Option<usize>)
    ensures
        r == size_at(tree_of(*table), key@),
{
    match read_integer(table, key) {
        Some(number) => to_size(number),
        None => None,
    }
}

/// Reads the number of seconds stored under `key` of a table.
pub fn read_seconds(table: &toml::Value, key: &str) -> (r: Option<u64>)
    ensures
        r == seconds_at(tree_of(*table), key@),
{
    match read_integer(table, key) {
        Some(number) => to_seconds(number),
        None => None,
    }
}

/// Decides which variant a section selects, `known` being the only kind.
pub fn choose_kind(section: &toml::Value, known: &str) -> (r: KindChoice)
    ensures
        r == kind_choice(tree_of(*section), known@),
{
    match read_text(section, "kind") {
        None => KindChoice::Assumed,
        Some(kind) => if kind == known.to_owned() {
            KindChoice::Named
        } else {
            KindChoice::Unknown
        },
    }
}

impl IbisServerTokioConfig {
    /// Extracts the typed settings from a table: all six fields or nothing.
    pub fn from_table(table: &toml::Value) -> (r: Option<Self>)
        ensures
            match r {
                Some(settings) => tokio_of(tree_of(*table)) == Some(settings@),
                None => tokio_of(tree_of(*table)) is None,
            },
    {
        let worker_threads = read_size(table, "worker_threads");
        let blocking_threads = read_size(table, "blocking_threads");
        let keep_alive = read_seconds(table, "keep_alive");
        let stack_size = read_size(table, "stack_size");
        let address = read_text(table, "address");
        let port = read_text(table, "port");
        match (worker_threads, blocking_threads, keep_alive, stack_size, address, port) {
            (
                Some(worker_threads),
                Some(blocking_threads),
                Some(keep_alive),
                Some(stack_size),
                Some(address),
                Some(port),
            ) => Some(
                Self { worker_threads, blocking_threads, keep_alive, stack_size, address, port },
            ),
            _ => None,
        }
    }
}

impl IbisAppConfig {
    /// Extracts the typed settings from a table: both fields or nothing.
    pub fn from_table(table: &toml::Value) -> (r: Option<Self>)
        ensures
            match r {
                Some(settings) => app_of(tree_of(*table)) == Some(settings@),
                None => app_of(tree_of(*table)) is None,
            },
    {
        let app_name = read_text(table, "app_name");
        let version = read_text(table, "version");
        match (app_name, version) {
            (Some(app_name), Some(version)) => Some(Self { app_name, version }),
            _ => None,
        }
    }

    /// Resolves the application section of a document and appends the
    /// fallbacks taken to `notes`.
    pub fn resolve(document: &toml::Value, notes: &mut Vec<Fallback>) -> (r: Self)
        ensures
            r@ == resolved_app(tree_of(*document)),
            final(notes)@ == old(notes)@ + app_notes(tree_of(*document)),
    {
        match entry(document, "app") {
            None => {
                notes.push(Fallback::MissingSection(Section::App));
                IbisAppConfig::default()
            },
            Some(section) => match IbisAppConfig::from_table(section) {
                Some(settings) => settings,
                None => {
                    notes.push(Fallback::MalformedSection(Section::App));
                    IbisAppConfig::default()
                },
            },
        }
    }
}

impl IbisLoggerTracingConfig {
    /// Extracts the typed settings from a table: all three fields or nothing.
    pub fn from_table(table: &toml::Value) -> (r: Option<Self>)
        ensures
            match r {
                Some(settings) => tracing_of(tree_of(*table)) == Some(settings@),
                None => tracing_of(tree_of(*table)) is None,
            },
    {
        let log_level = read_text(table, "log_level");
        let logfile_path = read_text(table, "logfile_path");
        let logfile_name = read_text(table, "logfile_name");
        match (log_level, logfile_path, logfile_name) {
            (Some(log_level), Some(logfile_path), Some(logfile_name)) => Some(
                Self { log_level, logfile_path, logfile_name },
            ),
            _ => None,
        }
    }
}

impl IbisServerType {
    /// Resolves the server section of a document and appends the fallbacks
    /// taken to `notes`.
    pub fn resolve(document: &toml::Value, notes: &mut Vec<Fallback>) -> (r: Self)
        ensures
            r@ == resolved_server(tree_of(*document)),
            final(notes)@ == old(notes)@ + server_notes(tree_of(*document)),
    {
        match entry(document, "server") {
            None => {
                notes.push(Fallback::MissingSection(Section::Server));
                IbisServerType::default()
            },
            Some(section) => match choose_kind(section, "pooled-async") {
                KindChoice::Unknown => {
                    notes.push(Fallback::UnknownKind(Section::Server));
                    IbisServerType::default()
                },
                choice => {
                    if let KindChoice::Assumed = choice {
                        notes.push(Fallback::AssumedKind(Section::Server));
                    }
                    let settings = match entry(document, "pooled-async") {
                        Some(table) => IbisServerTokioConfig::from_table(table),
                        None => None,
                    };
                    match settings {
                        Some(settings) => IbisServerType::Tokio(settings),
                        None => {
                            notes.push(Fallback::MalformedSection(Section::Server));
                            IbisServerType::default()
                        },
                    }
                },
            },
        }
    }
}

impl IbisLoggerType {
    /// Resolves the logger section of a document and appends the fallbacks
    /// taken to `notes`.
    pub fn resolve(document: &toml::Value, notes: &mut Vec<Fallback>) -> (r: Self)
        ensures
            r@ == resolved_logger(tree_of(*document)),
            final(notes)@ == old(notes)@ + logger_notes(tree_of(*document)),
    {
        match entry(document, "logger") {
            None => {
                notes.push(Fallback::MissingSection(Section::Logger));
                IbisLoggerType::default()
            },
            Some(section) => match choose_kind(section, "structured-file") {
                KindChoice::Unknown => {
                    notes.push(Fallback::UnknownKind(Section::Logger));
                    IbisLoggerType::default()
                },
                choice => {
                    if let KindChoice::Assumed = choice {
                        notes.push(Fallback::AssumedKind(Section::Logger));
                    }
                    let settings = match entry(document, "structured-file") {
                        Some(table) => IbisLoggerTracingConfig::from_table(table),
                        None => None,
                    };
                    match settings {
                        Some(settings) => IbisLoggerType::Tracing(settings),
                        None => {
                            notes.push(Fallback::MalformedSection(Section::Logger));
                            IbisLoggerType::default()
                        },
                    }
                },
            },
        }
    }
}

/// A resolved configuration together with the fallbacks taken to reach it.
#[derive(Debug, PartialEq, Eq)]
pub struct Resolution {
    pub config: IbisConfig,
    pub notes: Vec<Fallback>,
}

/// What a text resolves to: the result of its document, or the full default
/// where the text is not a well-formed document.
pub open spec fn settings_of_text(text: Seq<char>) -> Settings {
    match parsed_document(text) {
        Some(document) => resolved_settings(document),
        None => default_settings(),
    }
}

/// The fallbacks taken while resolving a text.
pub open spec fn notes_of_text(text: Seq<char>) -> Seq<Fallback> {
    match parsed_document(text) {
        Some(document) => resolved_notes(document),
        None => seq![Fallback::Malformed],
    }
}

/// What the content of a configuration file resolves to, where `None`
/// stands for a file that could not be read: the result of its text, or the
/// full default where there is no content or it is not UTF-8.
pub open spec fn settings_of(content: Option<Seq<u8>>) -> Settings {
    match content {
        Some(bytes) => if valid_utf8(bytes) {
            settings_of_text(decode_utf8(bytes))
        } else {
            default_settings()
        },
        None => default_settings(),
    }
}

/// The fallbacks taken while resolving the content of a configuration file.
pub open spec fn notes_of(content: Option<Seq<u8>>) -> Seq<Fallback> {
    match content {
        Some(bytes) => if valid_utf8(bytes) {
            notes_of_text(decode_utf8(bytes))
        } else {
            seq![Fallback::Unreadable]
        },
        None => seq![Fallback::Unreadable],
    }
}

/// The bytes of a file's content, where there is one.
pub open spec fn bytes_of(content: Option<&[u8]>) -> Option<Seq<u8>> {
    match content {
        Some(bytes) => Some(bytes@),
        None => None,
    }
}

/// Calls `std::str::from_utf8`. Trusted: it succeeds exactly on the byte
/// sequences that are valid UTF-8, and then gives the text they encode.
#[verifier::external_body]
fn decode_text(bytes: &[u8]) -> (r: Option<&str>)
    ensures
        match r {
            Some(text) => valid_utf8(bytes@) && text@ == decode_utf8(bytes@),
            None => !valid_utf8(bytes@),
        },
{
    match std::str::from_utf8(bytes) {
        Ok(text) => Some(text),
        Err(_) => None,
    }
}

/// The path of the configuration file where none is given.
pub open spec fn default_file_path() -> Seq<char> {
    "config/config.toml"@
}

impl IbisConfig {
    /// The path of the configuration file where none is given.
    pub fn default_file() -> (r: &'static str)
        ensures
            r@ == default_file_path(),
    {
        "config/config.toml"
    }

    /// The fully default configuration, with `reason` as the one fallback.
    fn fallen_back(reason: Fallback) -> (r: Resolution)
        ensures
            r.config@ == default_settings(),
            r.notes@ == seq![reason],
    {
        let mut notes = Vec::new();
        notes.push(reason);
        Resolution { config: IbisConfig::default(), notes }
    }

    /// Resolves a parsed document: each of the three sections by itself.
    pub fn from_document(document: &toml::Value) -> (r: Resolution)
        ensures
            r.config@ == resolved_settings(tree_of(*document)),
            r.notes@ == resolved_notes(tree_of(*document)),
    {
        let mut notes = Vec::new();
        let server_config = IbisServerType::resolve(document, &mut notes);
        let app_config = IbisAppConfig::resolve(document, &mut notes);
        let logger_config = IbisLoggerType::resolve(document, &mut notes);
        Resolution { config: IbisConfig { server_config, app_config, logger_config }, notes }
    }

    /// Resolves the text of a configuration file. A text that is not a
    /// well-formed document gives the fully default configuration.
    pub fn from_text(text: &str) -> (r: Resolution)
        ensures
            r.config@ == settings_of_text(text@),
            r.notes@ == notes_of_text(text@),
    {
        match parse_document(text) {
            Some(document) => IbisConfig::from_document(&document),
            None => IbisConfig::fallen_back(Fallback::Malformed),
        }
    }

    /// Resolves the content of a configuration file, `None` standing for a
    /// file that could not be read. Never fails: whatever cannot be used
    /// degrades to the compiled-in values, with a note.
    pub fn resolve(content: Option<&[u8]>) -> (r: Resolution)
        ensures
            r.config@ == settings_of(bytes_of(content)),
            r.notes@ == notes_of(bytes_of(content)),
    {
        match content {
            Some(bytes) => match decode_text(bytes) {
                Some(text) => IbisConfig::from_text(text),
                None => IbisConfig::fallen_back(Fallback::Unreadable),
            },
            None => IbisConfig::fallen_back(Fallback::Unreadable),
        }
    }
}

} // verus!
