//! Typed configuration: the three sections, their compiled-in defaults and
//! the accessors over the active variants.

use vstd::prelude::*;

verus! {

/// Settings of the pooled asynchronous server backend.
#[derive(Debug, PartialEq, Eq)]
pub struct IbisServerTokioConfig {
    pub worker_threads: usize,
    pub blocking_threads: usize,
    pub keep_alive: u64,
    pub stack_size: usize,
    pub address: String,
    pub port: String,
}

/// Mathematical value of an `IbisServerTokioConfig`.
pub struct TokioSettings {
    pub worker_threads: usize,
    pub blocking_threads: usize,
    pub keep_alive: u64,
    pub stack_size: usize,
    pub address: Seq<char>,
    pub port: Seq<char>,
}

impl View for IbisServerTokioConfig {
    type V = TokioSettings;

    open spec fn view(&self) -> TokioSettings {
        TokioSettings {
            worker_threads: self.worker_threads,
            blocking_threads: self.blocking_threads,
            keep_alive: self.keep_alive,
            stack_size: self.stack_size,
            address: self.address@,
            port: self.port@,
        }
    }
}

/// The compiled-in settings of the pooled asynchronous backend.
pub open spec fn default_tokio() -> TokioSettings {
    TokioSettings {
        worker_threads: 5,
        blocking_threads: 50,
        keep_alive: 60,
        stack_size: 3145728,
        address: "127.0.0.1"@,
        port: "8000"@,
    }
}

impl Default for IbisServerTokioConfig {
    fn default() -> (r: Self)
        ensures
            r@ == default_tokio(),
    {
        Self {
            worker_threads: 5,
            blocking_threads: 50,
            keep_alive: 60,
            stack_size: 3145728,
            address: "127.0.0.1".to_owned(),
            port: "8000".to_owned(),
        }
    }
}

/// The server section: one variant for each backend.
#[derive(Debug, PartialEq, Eq)]
pub enum IbisServerType {
    Tokio(IbisServerTokioConfig),
}

/// Mathematical value of an `IbisServerType`.
pub enum ServerSettings {
    Tokio(TokioSettings),
}

impl View for IbisServerType {
    type V = ServerSettings;

    open spec fn view(&self) -> ServerSettings {
        match self {
            IbisServerType::Tokio(tokio_config) => ServerSettings::Tokio(tokio_config@),
        }
    }
}

/// The compiled-in server section.
pub open spec fn default_server() -> ServerSettings {
    ServerSettings::Tokio(default_tokio())
}

impl Default for IbisServerType {
    fn default() -> (r: Self)
        ensures
            r@ == default_server(),
    {
        Self::Tokio(IbisServerTokioConfig::default())
    }
}

/// The application section.
#[derive(Debug, PartialEq, Eq)]
pub struct IbisAppConfig {
    pub app_name: String,
    pub version: String,
}

/// Mathematical value of an `IbisAppConfig`.
pub struct AppSettings {
    pub app_name: Seq<char>,
    pub version: Seq<char>,
}

impl View for IbisAppConfig {
    type V = AppSettings;

    open spec fn view(&self) -> AppSettings {
        AppSettings { app_name: self.app_name@, version: self.version@ }
    }
}

/// The compiled-in application section.
pub open spec fn default_app() -> AppSettings {
    AppSettings { app_name: "xxx"@, version: "1.0.0"@ }
}

impl Default for IbisAppConfig {
    fn default() -> (r: Self)
        ensures
            r@ == default_app(),
    {
        Self { app_name: "xxx".to_owned(), version: "1.0.0".to_owned() }
    }
}

/// Settings of the structured file logger.
#[derive(Debug, PartialEq, Eq)]
pub struct IbisLoggerTracingConfig {
    pub log_level: String,
    pub logfile_path: String,
    pub logfile_name: String,
}

/// Mathematical value of an `IbisLoggerTracingConfig`.
pub struct TracingSettings {
    pub log_level: Seq<char>,
    pub logfile_path: Seq<char>,
    pub logfile_name: Seq<char>,
}

impl View for IbisLoggerTracingConfig {
    type V = TracingSettings;

    open spec fn view(&self) -> TracingSettings {
        TracingSettings {
            log_level: self.log_level@,
            logfile_path: self.logfile_path@,
            logfile_name: self.logfile_name@,
        }
    }
}

/// The compiled-in settings of the structured file logger.
pub open spec fn default_tracing() -> TracingSettings {
    TracingSettings {
        log_level: "debug"@,
        logfile_path: "./output/logs"@,
        logfile_name: "app_log"@,
    }
}

impl Default for IbisLoggerTracingConfig {
    fn default() -> (r: Self)
        ensures
            r@ == default_tracing(),
    {
        Self {
            log_level: "debug".to_owned(),
            logfile_path: "./output/logs".to_owned(),
            logfile_name: "app_log".to_owned(),
        }
    }
}

/// The logger section: one variant for each logging backend.
#[derive(Debug, PartialEq, Eq)]
pub enum IbisLoggerType {
    Tracing(IbisLoggerTracingConfig),
}

/// Mathematical value of an `IbisLoggerType`.
pub enum LoggerSettings {
    Tracing(TracingSettings),
}

impl View for IbisLoggerType {
    type V = LoggerSettings;

    open spec fn view(&self) -> LoggerSettings {
        match self {
            IbisLoggerType::Tracing(tracing_config) => LoggerSettings::Tracing(tracing_config@),
        }
    }
}

/// The compiled-in logger section.
pub open spec fn default_logger() -> LoggerSettings {
    LoggerSettings::Tracing(default_tracing())
}

impl Default for IbisLoggerType {
    fn default() -> (r: Self)
        ensures
            r@ == default_logger(),
    {
        Self::Tracing(IbisLoggerTracingConfig::default())
    }
}

/// The resolved configuration: built once at start-up and only read after.
#[derive(Debug, PartialEq, Eq)]
pub struct IbisConfig {
    pub server_config: IbisServerType,
    pub app_config: IbisAppConfig,
    pub logger_config: IbisLoggerType,
}

/// Mathematical value of an `IbisConfig`.
pub struct Settings {
    pub server: ServerSettings,
    pub app: AppSettings,
    pub logger: LoggerSettings,
}

impl View for IbisConfig {
    type V = Settings;

    open spec fn view(&self) -> Settings {
        Settings {
            server: self.server_config@,
            app: self.app_config@,
            logger: self.logger_config@,
        }
    }
}

/// The configuration in which every section has its compiled-in value.
pub open spec fn default_settings() -> Settings {
    Settings { server: default_server(), app: default_app(), logger: default_logger() }
}

impl Default for IbisConfig {
    fn default() -> (r: Self)
        ensures
            r@ == default_settings(),
    {
        Self {
            server_config: IbisServerType::default(),
            app_config: IbisAppConfig::default(),
            logger_config: IbisLoggerType::default(),
        }
    }
}

impl ServerSettings {
    /// The settings of the active backend.
    pub open spec fn active(self) -> TokioSettings {
        match self {
            ServerSettings::Tokio(tokio) => tokio,
        }
    }
}

impl LoggerSettings {
    /// The settings of the active logging backend.
    pub open spec fn active(self) -> TracingSettings {
        match self {
            LoggerSettings::Tracing(tracing) => tracing,
        }
    }
}

impl IbisConfig {
    /// The application's name.
    pub fn get_app_name(&self) -> (r: &str)
        ensures
            r@ == self@.app.app_name,
    {
        self.app_config.app_name.as_str()
    }

    /// The application's version.
    pub fn get_app_version(&self) -> (r: &str)
        ensures
            r@ == self@.app.version,
    {
        self.app_config.version.as_str()
    }

    /// The address the server listens on.
    pub fn get_server_address(&self) -> (r: &str)
        ensures
            r@ == self@.server.active().address,
    {
        match &self.server_config {
            IbisServerType::Tokio(tokio_config) => tokio_config.address.as_str(),
        }
    }

    /// The port the server listens on, as written in the configuration.
    pub fn get_server_port(&self) -> (r: &str)
        ensures
            r@ == self@.server.active().port,
    {
        match &self.server_config {
            IbisServerType::Tokio(tokio_config) => tokio_config.port.as_str(),
        }
    }

    /// The number of worker threads.
    pub fn get_server_worker_threads(&self) -> (r: usize)
        ensures
            r == self@.server.active().worker_threads,
    {
        match &self.server_config {
            IbisServerType::Tokio(tokio_config) => tokio_config.worker_threads,
        }
    }

    /// The ceiling of the auxiliary threads for blocking work.
    pub fn get_server_blocking_threads(&self) -> (r: usize)
        ensures
            r == self@.server.active().blocking_threads,
    {
        match &self.server_config {
            IbisServerType::Tokio(tokio_config) => tokio_config.blocking_threads,
        }
    }

    /// The seconds an idle auxiliary thread is kept alive.
    pub fn get_server_keep_alive(&self) -> (r: u64)
        ensures
            r == self@.server.active().keep_alive,
    {
        match &self.server_config {
            IbisServerType::Tokio(tokio_config) => tokio_config.keep_alive,
        }
    }

    /// The stack size of each thread, in bytes.
    pub fn get_server_stack_size(&self) -> (r: usize)
        ensures
            r == self@.server.active().stack_size,
    {
        match &self.server_config {
            IbisServerType::Tokio(tokio_config) => tokio_config.stack_size,
        }
    }

    /// The configured log level, as written in the configuration.
    pub fn get_logger_log_level(&self) -> (r: &str)
        ensures
            r@ == self@.logger.active().log_level,
    {
        match &self.logger_config {
            IbisLoggerType::Tracing(tracing_config) => tracing_config.log_level.as_str(),
        }
    }

    /// The directory of the log files.
    pub fn get_logger_logfile_path(&self) -> (r: &str)
        ensures
            r@ == self@.logger.active().logfile_path,
    {
        match &self.logger_config {
            IbisLoggerType::Tracing(tracing_config) => tracing_config.logfile_path.as_str(),
        }
    }

    /// The file name prefix of the log files.
    pub fn get_logger_logfile_name(&self) -> (r: &str)
        ensures
            r@ == self@.logger.active().logfile_name,
    {
        match &self.logger_config {
            IbisLoggerType::Tracing(tracing_config) => tracing_config.logfile_name.as_str(),
        }
    }
}

} // verus!
