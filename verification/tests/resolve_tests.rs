use ibis::config::{
    IbisAppConfig, IbisConfig, IbisLoggerTracingConfig, IbisLoggerType, IbisServerTokioConfig,
    IbisServerType,
};
use ibis::resolve::{Fallback, Resolution, Section};

const FULL: &str = r#"
[server]
kind = "pooled-async"

[pooled-async]
worker_threads = 10
blocking_threads = 20
keep_alive = 30
stack_size = 4096
address = "0.0.0.0"
port = "9000"

[app]
app_name = "demo"
version = "2.3.4"

[logger]
kind = "structured-file"

[structured-file]
log_level = "info"
logfile_path = "/var/log/demo"
logfile_name = "demo_log"
"#;

fn resolve_text(text: &str) -> Resolution {
    IbisConfig::resolve(Some(text.as_bytes()))
}

fn full_server() -> IbisServerType {
    IbisServerType::Tokio(IbisServerTokioConfig {
        worker_threads: 10,
        blocking_threads: 20,
        keep_alive: 30,
        stack_size: 4096,
        address: "0.0.0.0".to_string(),
        port: "9000".to_string(),
    })
}

fn full_app() -> IbisAppConfig {
    IbisAppConfig { app_name: "demo".to_string(), version: "2.3.4".to_string() }
}

fn full_logger() -> IbisLoggerType {
    IbisLoggerType::Tracing(IbisLoggerTracingConfig {
        log_level: "info".to_string(),
        logfile_path: "/var/log/demo".to_string(),
        logfile_name: "demo_log".to_string(),
    })
}

fn all_missing() -> Vec<Fallback> {
    vec![
        Fallback::MissingSection(Section::Server),
        Fallback::MissingSection(Section::App),
        Fallback::MissingSection(Section::Logger),
    ]
}

fn assert_documented_defaults(config: &IbisConfig) {
    assert_eq!(config.get_server_worker_threads(), 5);
    assert_eq!(config.get_server_blocking_threads(), 50);
    assert_eq!(config.get_server_keep_alive(), 60);
    assert_eq!(config.get_server_stack_size(), 3145728);
    assert_eq!(config.get_server_address(), "127.0.0.1");
    assert_eq!(config.get_server_port(), "8000");
    assert_eq!(config.get_app_name(), "xxx");
    assert_eq!(config.get_app_version(), "1.0.0");
    assert_eq!(config.get_logger_log_level(), "debug");
    assert_eq!(config.get_logger_logfile_path(), "./output/logs");
    assert_eq!(config.get_logger_logfile_name(), "app_log");
}

#[test]
fn default_has_the_documented_literals() {
    assert_documented_defaults(&IbisConfig::default());
}

#[test]
fn default_file_is_fixed() {
    assert_eq!(IbisConfig::default_file(), "config/config.toml");
}

#[test]
fn absent_file_gives_the_defaults() {
    let resolution = IbisConfig::resolve(None);
    assert_documented_defaults(&resolution.config);
    assert_eq!(resolution.config, IbisConfig::default());
    assert_eq!(resolution.notes, vec![Fallback::Unreadable]);
}

#[test]
fn empty_file_gives_the_defaults() {
    let resolution = IbisConfig::resolve(Some(b""));
    assert_documented_defaults(&resolution.config);
    assert_eq!(resolution.notes, all_missing());
}

#[test]
fn well_formed_file_is_carried_through() {
    let resolution = resolve_text(FULL);
    let config = &resolution.config;
    assert_eq!(config.get_server_worker_threads(), 10);
    assert_eq!(config.get_server_blocking_threads(), 20);
    assert_eq!(config.get_server_keep_alive(), 30);
    assert_eq!(config.get_server_stack_size(), 4096);
    assert_eq!(config.get_server_address(), "0.0.0.0");
    assert_eq!(config.get_server_port(), "9000");
    assert_eq!(config.get_app_name(), "demo");
    assert_eq!(config.get_app_version(), "2.3.4");
    assert_eq!(config.get_logger_log_level(), "info");
    assert_eq!(config.get_logger_logfile_path(), "/var/log/demo");
    assert_eq!(config.get_logger_logfile_name(), "demo_log");
    assert_eq!(resolution.notes, Vec::<Fallback>::new());
}

#[test]
fn partial_server_table_falls_back_as_a_whole() {
    let resolution = resolve_text(
        "[server]\nkind = \"pooled-async\"\n\n[pooled-async]\nworker_threads = 10\n",
    );
    assert_eq!(resolution.config.get_server_worker_threads(), 5);
    assert_eq!(resolution.config.server_config, IbisServerType::default());
    assert_eq!(
        resolution.notes,
        vec![
            Fallback::MalformedSection(Section::Server),
            Fallback::MissingSection(Section::App),
            Fallback::MissingSection(Section::Logger),
        ]
    );
}

#[test]
fn broken_logger_leaves_server_and_app() {
    let text = FULL.replace("log_level = \"info\"", "log_level = 7");
    let resolution = resolve_text(&text);
    assert_eq!(resolution.config.server_config, full_server());
    assert_eq!(resolution.config.app_config, full_app());
    assert_eq!(resolution.config.logger_config, IbisLoggerType::default());
    assert_eq!(resolution.notes, vec![Fallback::MalformedSection(Section::Logger)]);
}

#[test]
fn broken_server_leaves_app_and_logger() {
    let text = FULL.replace("port = \"9000\"", "port = 9000");
    let resolution = resolve_text(&text);
    assert_eq!(resolution.config.server_config, IbisServerType::default());
    assert_eq!(resolution.config.app_config, full_app());
    assert_eq!(resolution.config.logger_config, full_logger());
    assert_eq!(resolution.notes, vec![Fallback::MalformedSection(Section::Server)]);
}

#[test]
fn broken_app_leaves_server_and_logger() {
    let text = FULL.replace("version = \"2.3.4\"", "");
    let resolution = resolve_text(&text);
    assert_eq!(resolution.config.server_config, full_server());
    assert_eq!(resolution.config.app_config, IbisAppConfig::default());
    assert_eq!(resolution.config.logger_config, full_logger());
    assert_eq!(resolution.notes, vec![Fallback::MalformedSection(Section::App)]);
}

#[test]
fn missing_sections_fall_back_one_by_one() {
    let resolution = resolve_text("[app]\napp_name = \"demo\"\nversion = \"2.3.4\"\n");
    assert_eq!(resolution.config.server_config, IbisServerType::default());
    assert_eq!(resolution.config.app_config, full_app());
    assert_eq!(resolution.config.logger_config, IbisLoggerType::default());
    assert_eq!(
        resolution.notes,
        vec![
            Fallback::MissingSection(Section::Server),
            Fallback::MissingSection(Section::Logger),
        ]
    );
}

#[test]
fn unknown_server_kind_gives_the_default_variant() {
    let text = FULL.replace("kind = \"pooled-async\"", "kind = \"threaded\"");
    let resolution = resolve_text(&text);
    assert_eq!(resolution.config.server_config, IbisServerType::default());
    assert_eq!(resolution.config.logger_config, full_logger());
    assert_eq!(resolution.notes, vec![Fallback::UnknownKind(Section::Server)]);
}

#[test]
fn unknown_logger_kind_gives_the_default_variant() {
    let text = FULL.replace("kind = \"structured-file\"", "kind = \"syslog\"");
    let resolution = resolve_text(&text);
    assert_eq!(resolution.config.server_config, full_server());
    assert_eq!(resolution.config.logger_config, IbisLoggerType::default());
    assert_eq!(resolution.notes, vec![Fallback::UnknownKind(Section::Logger)]);
}

#[test]
fn absent_kind_assumes_the_known_one() {
    let text = FULL.replace("kind = \"pooled-async\"", "").replace(
        "kind = \"structured-file\"",
        "",
    );
    let resolution = resolve_text(&text);
    assert_eq!(resolution.config.server_config, full_server());
    assert_eq!(resolution.config.logger_config, full_logger());
    assert_eq!(
        resolution.notes,
        vec![Fallback::AssumedKind(Section::Server), Fallback::AssumedKind(Section::Logger)]
    );
}

#[test]
fn kind_that_is_no_text_assumes_the_known_one() {
    let text = FULL.replace("kind = \"pooled-async\"", "kind = 3");
    let resolution = resolve_text(&text);
    assert_eq!(resolution.config.server_config, full_server());
    assert_eq!(resolution.notes, vec![Fallback::AssumedKind(Section::Server)]);
}

#[test]
fn assumed_kind_with_a_missing_table_notes_both() {
    let resolution = resolve_text("[server]\n[app]\napp_name = \"a\"\nversion = \"b\"\n[logger]\n");
    assert_eq!(resolution.config.server_config, IbisServerType::default());
    assert_eq!(resolution.config.logger_config, IbisLoggerType::default());
    assert_eq!(
        resolution.notes,
        vec![
            Fallback::AssumedKind(Section::Server),
            Fallback::MalformedSection(Section::Server),
            Fallback::AssumedKind(Section::Logger),
            Fallback::MalformedSection(Section::Logger),
        ]
    );
}

#[test]
fn section_that_is_no_table_assumes_the_kind() {
    let text = "server = 5\n".to_string() + &FULL.replace("[server]\nkind = \"pooled-async\"\n", "");
    let resolution = resolve_text(&text);
    assert_eq!(resolution.config.server_config, full_server());
    assert_eq!(resolution.notes, vec![Fallback::AssumedKind(Section::Server)]);
}

#[test]
fn negative_thread_count_is_the_wrong_type() {
    let text = FULL.replace("worker_threads = 10", "worker_threads = -1");
    let resolution = resolve_text(&text);
    assert_eq!(resolution.config.server_config, IbisServerType::default());
    assert_eq!(resolution.notes, vec![Fallback::MalformedSection(Section::Server)]);
}

#[test]
fn negative_keep_alive_is_the_wrong_type() {
    let text = FULL.replace("keep_alive = 30", "keep_alive = -30");
    let resolution = resolve_text(&text);
    assert_eq!(resolution.config.server_config, IbisServerType::default());
}

#[test]
fn fractional_number_is_the_wrong_type() {
    let text = FULL.replace("stack_size = 4096", "stack_size = 4096.5");
    let resolution = resolve_text(&text);
    assert_eq!(resolution.config.server_config, IbisServerType::default());
    assert_eq!(resolution.notes, vec![Fallback::MalformedSection(Section::Server)]);
}

#[test]
fn zero_and_large_numbers_are_carried_through() {
    let text = FULL.replace("worker_threads = 10", "worker_threads = 0").replace(
        "keep_alive = 30",
        "keep_alive = 9223372036854775807",
    );
    let resolution = resolve_text(&text);
    assert_eq!(resolution.config.get_server_worker_threads(), 0);
    assert_eq!(resolution.config.get_server_keep_alive(), 9223372036854775807);
}

#[test]
fn undeclared_fields_are_ignored() {
    let text = FULL.replace("port = \"9000\"", "port = \"9000\"\nbacklog = 128");
    let resolution = resolve_text(&text);
    assert_eq!(resolution.config.server_config, full_server());
    assert_eq!(resolution.notes, Vec::<Fallback>::new());
}

#[test]
fn truncated_syntax_gives_the_defaults() {
    let resolution = resolve_text("[server\nkind = \"pooled-as");
    assert_eq!(resolution.config, IbisConfig::default());
    assert_eq!(resolution.notes, vec![Fallback::Malformed]);
}

#[test]
fn bytes_that_are_not_utf8_give_the_defaults() {
    let resolution = IbisConfig::resolve(Some(&[0x5b, 0xff, 0xfe, 0x5d]));
    assert_eq!(resolution.config, IbisConfig::default());
    assert_eq!(resolution.notes, vec![Fallback::Unreadable]);
}

#[test]
fn text_beyond_ascii_is_carried_through() {
    let text = FULL.replace("app_name = \"demo\"", "app_name = \"caf\u{e9} \u{1f980}\"");
    let resolution = resolve_text(&text);
    assert_eq!(resolution.config.get_app_name(), "caf\u{e9} \u{1f980}");
}

#[test]
fn deeply_nested_input_gives_the_defaults() {
    let text = "a = ".to_string() + &"[".repeat(100000);
    let resolution = resolve_text(&text);
    assert_eq!(resolution.config, IbisConfig::default());
    assert_eq!(resolution.notes, vec![Fallback::Malformed]);
}

#[test]
fn from_text_agrees_with_resolve() {
    assert_eq!(IbisConfig::from_text(FULL), resolve_text(FULL));
    assert_eq!(IbisConfig::from_text("= ="), resolve_text("= ="));
}

#[test]
fn from_document_reads_a_built_tree() {
    let mut server = toml::map::Map::new();
    server.insert("kind".to_string(), toml::Value::String("pooled-async".to_string()));
    let mut table = toml::map::Map::new();
    table.insert("worker_threads".to_string(), toml::Value::Integer(10));
    table.insert("blocking_threads".to_string(), toml::Value::Integer(20));
    table.insert("keep_alive".to_string(), toml::Value::Integer(30));
    table.insert("stack_size".to_string(), toml::Value::Integer(4096));
    table.insert("address".to_string(), toml::Value::String("0.0.0.0".to_string()));
    table.insert("port".to_string(), toml::Value::String("9000".to_string()));
    let mut document = toml::map::Map::new();
    document.insert("server".to_string(), toml::Value::Table(server));
    document.insert("pooled-async".to_string(), toml::Value::Table(table));
    let resolution = IbisConfig::from_document(&toml::Value::Table(document));
    assert_eq!(resolution.config.server_config, full_server());
    assert_eq!(
        resolution.notes,
        vec![Fallback::MissingSection(Section::App), Fallback::MissingSection(Section::Logger)]
    );
}

#[test]
fn from_document_of_a_value_that_is_no_table() {
    let resolution = IbisConfig::from_document(&toml::Value::Integer(1));
    assert_eq!(resolution.config, IbisConfig::default());
    assert_eq!(resolution.notes, all_missing());
}
