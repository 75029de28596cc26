use synthehol::config::ConfigError as PathError;
use synthehol::monitor::MonitorResult;
use synthehol::reporters::postgresql::{
    to_count, to_port, PostgresqlReporter, PostgresqlReporterArgs,
};
use synthehol::reporters::splunk::{SplunkReporter, SplunkReporterArgs};
use synthehol::reporters::util::{get_int_or_else, get_str_or_else, ConfigError};

const NOT_FOUND: &str = "config item not found and no default provided";
const NOT_A_TEXT: &str = "invalid type, expected String";
const NOT_AN_INTEGER: &str = "invalid type, expected Integer";
const NOT_IN_RANGE: &str = "unable to convert config value to specified integer type (out of range integral type conversion attempted)";

fn table(entries: &[(&str, toml::Value)]) -> toml::Table {
    let mut table = toml::Table::new();
    for (key, value) in entries {
        table.insert(key.to_string(), value.clone());
    }
    table
}

fn text(value: &str) -> toml::Value {
    toml::Value::String(value.to_string())
}

fn result() -> MonitorResult {
    MonitorResult {
        name: "disk".to_string(),
        level_name: "warn".to_string(),
        start_time: 1_700_000_000_000,
        target: "/usr/bin/check".to_string(),
        args: "-w,80".to_string(),
        stdout: "91%".to_string(),
        stderr: "".to_string(),
        duration: 2500,
        status: 2,
    }
}

#[test]
fn text_setting_is_read() {
    let config = table(&[("endpoint", text("https://example"))]);
    assert_eq!(get_str_or_else(&config, "endpoint", None).unwrap(), "https://example");
    assert_eq!(get_str_or_else(&config, "endpoint", Some("other")).unwrap(), "https://example");
}

#[test]
fn text_setting_falls_back_to_default() {
    let config = table(&[("endpoint", text("https://example"))]);
    assert_eq!(get_str_or_else(&config, "index", Some("main")).unwrap(), "main");
}

#[test]
fn text_setting_without_default_is_an_error() {
    let config = toml::Table::new();
    assert_eq!(get_str_or_else(&config, "index", None).unwrap_err().message, NOT_FOUND);
}

#[test]
fn text_setting_of_other_kind_is_an_error() {
    let config = table(&[("index", toml::Value::Integer(3)), ("flag", toml::Value::Boolean(true))]);
    assert_eq!(get_str_or_else(&config, "index", Some("main")).unwrap_err().message, NOT_A_TEXT);
    assert_eq!(get_str_or_else(&config, "flag", None).unwrap_err().message, NOT_A_TEXT);
}

#[test]
fn integer_setting_is_read() {
    let config = table(&[("port", toml::Value::Integer(6543))]);
    assert_eq!(get_int_or_else(&config, "port", Some(5432)).unwrap(), 6543);
    assert_eq!(get_int_or_else(&config, "conn_count", Some(5)).unwrap(), 5);
    assert_eq!(get_int_or_else(&config, "conn_count", None).unwrap_err().message, NOT_FOUND);
}

#[test]
fn integer_setting_of_other_kind_is_an_error() {
    let config = table(&[("port", text("5432"))]);
    assert_eq!(get_int_or_else(&config, "port", Some(1)).unwrap_err().message, NOT_AN_INTEGER);
}

#[test]
fn config_error_text_has_prefix() {
    assert_eq!(ConfigError::from("broken").message, "broken");
    assert_eq!(ConfigError::from("broken").to_text(), "config error: broken");
}

#[test]
fn path_error_text_names_the_path() {
    let error = PathError::InvalidPath("/no/such".to_string());
    assert_eq!(error.to_text(), "invalid config path provided (/no/such)");
}

#[test]
fn path_error_text_shows_read_error() {
    let inner = std::io::Error::new(std::io::ErrorKind::Other, "disk on fire");
    let error = PathError::Io(inner);
    assert_eq!(error.to_text(), "IO error encountered (disk on fire)");
}

#[test]
fn path_error_text_shows_document_error() {
    let inner = match "= broken".parse::<toml::Table>() {
        Err(e) => e,
        Ok(_) => panic!("the document must not parse"),
    };
    let expected = format!("Toml error encountered ({})", inner);
    assert_eq!(PathError::Toml(inner).to_text(), expected);
}

#[test]
fn splunk_reads_all_three_settings() {
    let config = table(&[
        ("endpoint", text("https://splunk:8088")),
        ("index", text("main")),
        ("hec_token", text("abc")),
    ]);
    let reporter = SplunkReporter::from_toml(&config).unwrap();
    assert_eq!(reporter.endpoint, "https://splunk:8088");
    assert_eq!(reporter.index, "main");
    assert_eq!(reporter.hec_token, "abc");
    assert_eq!(reporter.authorization(), "Splunk abc");
}

#[test]
fn splunk_reports_first_missing_setting() {
    let none = toml::Table::new();
    assert_eq!(SplunkReporter::from_toml(&none).unwrap_err().message, NOT_FOUND);
    let wrong = table(&[
        ("endpoint", text("https://splunk:8088")),
        ("index", toml::Value::Integer(1)),
    ]);
    assert_eq!(SplunkReporter::from_toml(&wrong).unwrap_err().message, NOT_A_TEXT);
    let partial = table(&[("endpoint", text("e")), ("index", text("i"))]);
    assert_eq!(SplunkReporter::from_toml(&partial).unwrap_err().message, NOT_FOUND);
}

#[test]
fn splunk_event_carries_the_result() {
    let reporter = SplunkReporterArgs {
        endpoint: "https://splunk".to_string(),
        index: "synthetic".to_string(),
        hec_token: "t".to_string(),
    }
    .build();
    let msg = reporter.format(&result());
    assert_eq!(msg.source, "Synthehol");
    assert_eq!(msg.index, "synthetic");
    assert_eq!(msg.sourcetype, "_json");
    assert_eq!(msg.event.name, "disk");
    assert_eq!(msg.event.level, "warn");
    assert_eq!(msg.event.target, "/usr/bin/check");
    assert_eq!(msg.event.arguments, "-w,80");
    assert_eq!(msg.event.stdout, "91%");
    assert_eq!(msg.event.stderr, "");
    assert_eq!(msg.event.duration, 2500);
    assert_eq!(msg.event.status, 2);
}

#[test]
fn postgresql_reads_settings_with_defaults() {
    let config = table(&[
        ("host", text("db.local")),
        ("user", text("synth")),
        ("password", text("secret")),
        ("db", text("monitoring")),
    ]);
    let reporter = PostgresqlReporter::from_toml(&config).unwrap();
    assert_eq!(reporter.host, "db.local");
    assert_eq!(reporter.port, 5432);
    assert_eq!(reporter.user, "synth");
    assert_eq!(reporter.password, "secret");
    assert_eq!(reporter.db, "monitoring");
    assert_eq!(reporter.conn_count, 5);
}

#[test]
fn postgresql_reads_configured_numbers() {
    let config = table(&[
        ("host", text("db.local")),
        ("port", toml::Value::Integer(6543)),
        ("user", text("synth")),
        ("password", text("secret")),
        ("db", text("monitoring")),
        ("conn_count", toml::Value::Integer(12)),
    ]);
    let reporter = PostgresqlReporter::from_toml(&config).unwrap();
    assert_eq!(reporter.port, 6543);
    assert_eq!(reporter.conn_count, 12);
}

#[test]
fn postgresql_refuses_numbers_out_of_range() {
    let base = [
        ("host", text("db.local")),
        ("user", text("synth")),
        ("password", text("secret")),
        ("db", text("monitoring")),
    ];
    let mut wide_port = table(&base);
    wide_port.insert("port".to_string(), toml::Value::Integer(40000));
    assert_eq!(PostgresqlReporter::from_toml(&wide_port).unwrap_err().message, NOT_IN_RANGE);
    let mut negative = table(&base);
    negative.insert("conn_count".to_string(), toml::Value::Integer(-1));
    assert_eq!(PostgresqlReporter::from_toml(&negative).unwrap_err().message, NOT_IN_RANGE);
    let mut wrong_kind = table(&base);
    wrong_kind.insert("port".to_string(), text("5432"));
    assert_eq!(PostgresqlReporter::from_toml(&wrong_kind).unwrap_err().message, NOT_AN_INTEGER);
}

#[test]
fn postgresql_reports_first_missing_setting() {
    let config = table(&[("port", toml::Value::Integer(40000))]);
    assert_eq!(PostgresqlReporter::from_toml(&config).unwrap_err().message, NOT_FOUND);
}

#[test]
fn port_and_count_bounds() {
    assert_eq!(to_port(32767).unwrap(), 32767);
    assert_eq!(to_port(-32768).unwrap(), -32768);
    assert_eq!(to_port(32768).unwrap_err().message, NOT_IN_RANGE);
    assert_eq!(to_port(-32769).unwrap_err().message, NOT_IN_RANGE);
    assert_eq!(to_count(0).unwrap(), 0);
    assert_eq!(to_count(4294967295).unwrap(), 4294967295);
    assert_eq!(to_count(4294967296).unwrap_err().message, NOT_IN_RANGE);
    assert_eq!(to_count(-1).unwrap_err().message, NOT_IN_RANGE);
}

#[test]
fn postgresql_args_build_with_defaults() {
    let reporter = PostgresqlReporterArgs {
        host: "h".to_string(),
        port: None,
        user: "u".to_string(),
        password: "p".to_string(),
        db: "d".to_string(),
        conn_count: Some(2),
    }
    .build()
    .unwrap();
    assert_eq!(reporter.port, 5432);
    assert_eq!(reporter.conn_count, 2);
    let refused = PostgresqlReporterArgs {
        host: "h".to_string(),
        port: Some(70000),
        user: "u".to_string(),
        password: "p".to_string(),
        db: "d".to_string(),
        conn_count: None,
    }
    .build();
    assert_eq!(refused.unwrap_err().message, NOT_IN_RANGE);
}

#[test]
fn postgresql_row_carries_the_result() {
    let row = PostgresqlReporter::row(&result());
    assert_eq!(row.name, "disk");
    assert_eq!(row.level_name, "warn");
    assert_eq!(row.start_time, 1_700_000_000_000);
    assert_eq!(row.target, "/usr/bin/check");
    assert_eq!(row.args, "-w,80");
    assert_eq!(row.stdout, "91%");
    assert_eq!(row.stderr, "");
    assert_eq!(row.duration, 2500);
    assert_eq!(row.status, 2);
}
