use synthehol::config::{
    merge_files, parse_config, sorts_before, Config, ConfigError, ConfigFile, ConfigSource,
};
use synthehol::escalation::LevelArgs;
use synthehol::monitor::MonitorArgs;
use synthehol::reporters::slack::SlackReporterArgs;
use synthehol::reporters::splunk::SplunkReporterArgs;
use synthehol::target::TargetArgs;

fn monitor(name: &str, interval: u64) -> MonitorArgs {
    MonitorArgs {
        name: name.to_string(),
        interval,
        level: vec![LevelArgs {
            name: "base".to_string(),
            errors_to_escalate: None,
            successes_to_clear: None,
            reporters: Vec::new(),
        }],
        target: TargetArgs { path: "true".to_string(), args: None, env: None },
    }
}

fn empty() -> Config {
    Config {
        log_level: None,
        use_db_persistence: None,
        monitor: None,
        splunk: None,
        slack: None,
        pagerduty: None,
        postgresql: None,
    }
}

fn with_log_level(level: &str) -> Config {
    Config { log_level: Some(level.to_string()), ..empty() }
}

fn with_monitors(list: Vec<MonitorArgs>) -> Config {
    Config { monitor: Some(list), ..empty() }
}

fn file(name: &str, config: Option<Config>) -> ConfigFile {
    ConfigFile { name: name.to_string(), config }
}

fn summary(config: &Config) -> Vec<(String, u64)> {
    config
        .monitor
        .as_ref()
        .map(|list| list.iter().map(|m| (m.name.clone(), m.interval)).collect())
        .unwrap_or_default()
}

fn splunk(index: &str) -> SplunkReporterArgs {
    SplunkReporterArgs {
        endpoint: "https://splunk".to_string(),
        index: index.to_string(),
        hec_token: "token".to_string(),
    }
}

#[test]
fn new_config_has_empty_monitor_list() {
    let config = Config::new();
    assert_eq!(config.log_level, None);
    assert_eq!(config.use_db_persistence, None);
    assert!(config.monitor.unwrap().is_empty());
    assert!(config.splunk.is_none());
    assert!(config.slack.is_none());
    assert!(config.pagerduty.is_none());
    assert!(config.postgresql.is_none());
}

#[test]
fn first_file_name_wins_log_level() {
    let files = vec![
        file("01.toml", Some(with_log_level("debug"))),
        file("02.toml", Some(with_log_level("info"))),
    ];
    assert_eq!(merge_files(files).log_level, Some("debug".to_string()));
}

#[test]
fn read_order_does_not_matter() {
    let files = vec![
        file("02.toml", Some(with_log_level("info"))),
        file("01.toml", Some(with_log_level("debug"))),
    ];
    assert_eq!(merge_files(files).log_level, Some("debug".to_string()));
}

#[test]
fn first_file_name_wins_monitor() {
    let files = vec![
        file("01.toml", Some(with_monitors(vec![monitor("a", 10)]))),
        file("02.toml", Some(with_monitors(vec![monitor("a", 30)]))),
    ];
    assert_eq!(summary(&merge_files(files)), vec![("a".to_string(), 10)]);
}

#[test]
fn monitors_of_other_names_are_kept() {
    let files = vec![
        file("b.toml", Some(with_monitors(vec![monitor("x", 1), monitor("y", 2)]))),
        file("a.toml", Some(with_monitors(vec![monitor("y", 20), monitor("z", 30)]))),
    ];
    assert_eq!(
        summary(&merge_files(files)),
        vec![("x".to_string(), 1), ("y".to_string(), 20), ("z".to_string(), 30)]
    );
}

#[test]
fn unreadable_file_is_passed_over() {
    let files = vec![
        file("01.toml", None),
        file("02.toml", Some(with_log_level("info"))),
        file("03.toml", None),
    ];
    let merged = merge_files(files);
    assert_eq!(merged.log_level, Some("info".to_string()));
    assert!(merged.monitor.unwrap().is_empty());
}

#[test]
fn empty_directory_gives_empty_config() {
    let merged = merge_files(Vec::new());
    assert_eq!(merged.log_level, None);
    assert!(merged.monitor.unwrap().is_empty());
}

#[test]
fn sections_are_replaced_whole() {
    let mut base = Config::new();
    base.overlay(Config {
        use_db_persistence: Some(true),
        splunk: Some(splunk("main")),
        slack: Some(SlackReporterArgs {
            webhook_url: "https://hooks".to_string(),
            report_tmpl: Some("r".to_string()),
            clear_tmpl: None,
        }),
        ..empty()
    });
    base.overlay(Config {
        use_db_persistence: Some(false),
        splunk: Some(splunk("other")),
        ..empty()
    });
    assert_eq!(base.use_db_persistence, Some(false));
    assert_eq!(base.splunk.unwrap().index, "other");
    let slack = base.slack.unwrap();
    assert_eq!(slack.webhook_url, "https://hooks");
    assert_eq!(slack.report_tmpl, Some("r".to_string()));
    assert_eq!(base.log_level, None);
}

#[test]
fn overlay_moves_redefined_monitor_to_the_end() {
    let mut base = with_monitors(vec![monitor("a", 1), monitor("b", 2), monitor("c", 3)]);
    base.overlay(with_monitors(vec![monitor("a", 10), monitor("d", 4)]));
    assert_eq!(
        summary(&base),
        vec![
            ("b".to_string(), 2),
            ("c".to_string(), 3),
            ("a".to_string(), 10),
            ("d".to_string(), 4),
        ]
    );
}

#[test]
fn overlay_without_monitor_section_keeps_monitors() {
    let mut base = with_monitors(vec![monitor("a", 1)]);
    base.overlay(with_log_level("warn"));
    assert_eq!(summary(&base), vec![("a".to_string(), 1)]);
    assert_eq!(base.log_level, Some("warn".to_string()));
}

#[test]
fn overlay_onto_missing_monitor_section_creates_it() {
    let mut base = empty();
    base.overlay(with_monitors(vec![monitor("a", 1), monitor("a", 2)]));
    assert_eq!(summary(&base), vec![("a".to_string(), 2)]);
}

#[test]
fn overlay_removes_every_monitor_of_the_name() {
    let mut base = with_monitors(vec![monitor("a", 1), monitor("b", 2), monitor("a", 3)]);
    base.overlay(with_monitors(vec![monitor("a", 9)]));
    assert_eq!(summary(&base), vec![("b".to_string(), 2), ("a".to_string(), 9)]);
}

#[test]
fn names_sort_by_bytes() {
    assert!(sorts_before("01.toml", "02.toml"));
    assert!(!sorts_before("02.toml", "01.toml"));
    assert!(!sorts_before("same", "same"));
    assert!(sorts_before("", "a"));
    assert!(!sorts_before("a", ""));
    assert!(sorts_before("a", "ab"));
    assert!(sorts_before("Z", "a"));
    assert!(sorts_before("10.toml", "9.toml"));
    assert!(sorts_before("z", "\u{e9}"));
}

#[test]
fn three_files_apply_from_last_name_to_first() {
    let files = vec![
        file("20.toml", Some(Config { splunk: Some(splunk("twenty")), ..with_log_level("b") })),
        file("30.toml", Some(Config { use_db_persistence: Some(true), ..with_log_level("c") })),
        file("10.toml", Some(with_monitors(vec![monitor("m", 5)]))),
    ];
    let merged = merge_files(files);
    assert_eq!(merged.log_level, Some("b".to_string()));
    assert_eq!(merged.use_db_persistence, Some(true));
    assert_eq!(summary(&merged), vec![("m".to_string(), 5)]);
    assert_eq!(merged.splunk.unwrap().index, "twenty");
}

#[test]
fn single_file_is_taken_verbatim() {
    let content = Config {
        monitor: Some(vec![monitor("a", 1), monitor("a", 2)]),
        ..with_log_level("trace")
    };
    let parsed = parse_config("conf.toml", ConfigSource::File(Ok(content))).unwrap();
    assert_eq!(parsed.log_level, Some("trace".to_string()));
    assert_eq!(summary(&parsed), vec![("a".to_string(), 1), ("a".to_string(), 2)]);
}

#[test]
fn single_file_without_monitors_has_no_monitor_section() {
    let parsed = parse_config("conf.toml", ConfigSource::File(Ok(empty()))).unwrap();
    assert!(parsed.monitor.is_none());
}

#[test]
fn directory_is_merged() {
    let files = vec![
        file("01.toml", Some(with_log_level("debug"))),
        file("02.toml", Some(with_log_level("info"))),
    ];
    let parsed = parse_config("conf.d", ConfigSource::Directory(files)).unwrap();
    assert_eq!(parsed.log_level, Some("debug".to_string()));
}

#[test]
fn invalid_path_is_refused() {
    match parse_config("/no/such", ConfigSource::Neither) {
        Err(ConfigError::InvalidPath(path)) => assert_eq!(path, "/no/such"),
        _ => panic!("an invalid path must be refused"),
    }
}

#[test]
fn unreadable_single_file_is_an_error() {
    let failure = std::io::Error::new(std::io::ErrorKind::NotFound, "gone");
    match parse_config("conf.toml", ConfigSource::File(Err(ConfigError::Io(failure)))) {
        Err(ConfigError::Io(e)) => assert_eq!(e.kind(), std::io::ErrorKind::NotFound),
        _ => panic!("the read error must be passed on"),
    }
}

#[test]
fn unparseable_single_file_is_an_error() {
    let failure = "monitor = 3".parse::<toml::Table>().map(|_| ()).and_then(|_| {
        "= broken".parse::<toml::Table>().map(|_| ())
    });
    let error = match "= broken".parse::<toml::Table>() {
        Err(e) => e,
        Ok(_) => panic!("the document must not parse"),
    };
    assert!(failure.is_err());
    match parse_config("conf.toml", ConfigSource::File(Err(ConfigError::Toml(error)))) {
        Err(ConfigError::Toml(_)) => {}
        _ => panic!("the parse error must be passed on"),
    }
}
