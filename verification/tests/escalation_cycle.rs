use std::sync::{Arc, Mutex};

use synthehol::escalation::{Level, LevelArgs, MonitorState};
use synthehol::monitor::{join_args, Cycle, Monitor, MonitorArgs, MonitorResult};
use synthehol::reporters::Reporter;
use synthehol::target::{TargetArgs, TargetOutput};

type Log = Arc<Mutex<Vec<String>>>;

struct Recorder {
    tag: String,
    log: Log,
}

impl Reporter for Recorder {
    fn report(&mut self, result: &MonitorResult) {
        self.log.lock().unwrap().push(format!("{}:report:{}", self.tag, result.level_name));
    }

    fn clear(&mut self, result: &MonitorResult) {
        self.log.lock().unwrap().push(format!("{}:clear:{}", self.tag, result.level_name));
    }

    fn get_state(&self) -> Option<Vec<u8>> {
        None
    }

    fn load_state(&mut self, _: Vec<u8>) {}
}

fn level(name: &str, up: Option<u64>, down: Option<u64>, reporters: &[&str]) -> LevelArgs {
    LevelArgs {
        name: name.to_string(),
        errors_to_escalate: up,
        successes_to_clear: down,
        reporters: reporters.iter().map(|r| r.to_string()).collect(),
    }
}

fn ladder(levels: Vec<LevelArgs>) -> (Monitor<Recorder>, Log) {
    let args = MonitorArgs {
        name: "disk".to_string(),
        interval: 30,
        level: levels,
        target: TargetArgs {
            path: "/usr/bin/check".to_string(),
            args: Some(vec!["-w".to_string(), "80".to_string()]),
            env: None,
        },
    };
    let log: Log = Arc::new(Mutex::new(Vec::new()));
    let mut monitor = Monitor::from_args(args);
    for tag in ["log", "chat", "pager"] {
        monitor.register_reporter(tag, Recorder { tag: tag.to_string(), log: log.clone() });
    }
    (monitor, log)
}

fn three_tiers() -> (Monitor<Recorder>, Log) {
    ladder(vec![
        level("base", Some(2), None, &["Log"]),
        level("warn", Some(3), Some(2), &["log", "CHAT"]),
        level("page", None, Some(3), &["pager", "nobody"]),
    ])
}

fn finished(status: i32) -> Result<TargetOutput, String> {
    Ok(TargetOutput {
        stdout: "out".to_string(),
        stderr: "err".to_string(),
        duration: 1500,
        status: Some(status),
    })
}

fn state(level_index: usize, failure_tally: u64, success_tally: u64) -> MonitorState {
    MonitorState { level_index, failure_tally, success_tally }
}

fn taken(log: &Log) -> Vec<String> {
    std::mem::take(&mut *log.lock().unwrap())
}

fn fail(monitor: &mut Monitor<Recorder>) -> Cycle {
    monitor.run(finished(2), 1000)
}

fn pass(monitor: &mut Monitor<Recorder>) -> Cycle {
    monitor.run(finished(0), 1000)
}

#[test]
fn level_thresholds_default_to_one() {
    let built = Level::from_args(level("base", None, None, &["a", "b"]));
    assert_eq!(built.name, "base");
    assert_eq!(built.errors_to_escalate, 1);
    assert_eq!(built.successes_to_clear, 1);
    assert_eq!(built.reporters, vec!["a".to_string(), "b".to_string()]);
    let set = Level::from_args(level("warn", Some(4), Some(0), &[]));
    assert_eq!(set.errors_to_escalate, 4);
    assert_eq!(set.successes_to_clear, 0);
}

#[test]
fn new_monitor_starts_at_baseline() {
    let (monitor, _) = three_tiers();
    assert_eq!(monitor.name, "disk");
    assert_eq!(monitor.interval, 30);
    assert_eq!(monitor.save_monitor(), state(0, 0, 0));
}

#[test]
fn baseline_successes_keep_tally_at_one() {
    let (mut monitor, log) = three_tiers();
    for _ in 0..7 {
        let cycle = pass(&mut monitor);
        assert_eq!(cycle.state, state(0, 0, 1));
        assert!(cycle.cleared.is_empty());
        assert_eq!(cycle.reported, vec!["log".to_string()]);
    }
    assert_eq!(monitor.save_monitor(), state(0, 0, 1));
    assert!(taken(&log).iter().all(|entry| entry == "log:report:base"));
}

#[test]
fn failures_reach_threshold_then_escalate() {
    let (mut monitor, log) = three_tiers();
    let first = fail(&mut monitor);
    assert_eq!(first.state, state(0, 1, 0));
    assert_eq!(first.reported, vec!["log".to_string()]);
    assert_eq!(taken(&log), vec!["log:report:base".to_string()]);
    let second = fail(&mut monitor);
    assert_eq!(second.state, state(1, 2, 0));
    assert_eq!(second.reported, vec!["log".to_string(), "chat".to_string()]);
    assert!(second.cleared.is_empty());
    assert_eq!(second.outcome.unwrap().level_name, "warn");
    assert_eq!(taken(&log), vec!["log:report:warn".to_string(), "chat:report:warn".to_string()]);
}

#[test]
fn failure_tally_carries_over_to_next_tier() {
    let (mut monitor, _) = three_tiers();
    fail(&mut monitor);
    fail(&mut monitor);
    let third = fail(&mut monitor);
    assert_eq!(third.state, state(2, 3, 0));
    assert_eq!(third.reported, vec!["pager".to_string()]);
}

#[test]
fn last_tier_failure_keeps_cursor_and_reports_again() {
    let (mut monitor, log) = three_tiers();
    monitor.load_monitor(Some(state(2, 3, 0)));
    taken(&log);
    let cycle = fail(&mut monitor);
    assert_eq!(cycle.state, state(2, 4, 0));
    assert_eq!(cycle.reported, vec!["pager".to_string()]);
    assert_eq!(cycle.outcome.unwrap().level_name, "page");
    assert_eq!(taken(&log), vec!["pager:report:page".to_string()]);
    let again = fail(&mut monitor);
    assert_eq!(again.state, state(2, 5, 0));
    assert_eq!(again.reported, vec!["pager".to_string()]);
}

#[test]
fn successes_clear_at_threshold() {
    let (mut monitor, log) = three_tiers();
    monitor.load_monitor(Some(state(1, 2, 0)));
    let first = pass(&mut monitor);
    assert_eq!(first.state, state(1, 0, 1));
    assert!(first.cleared.is_empty());
    assert_eq!(first.reported, vec!["log".to_string(), "chat".to_string()]);
    taken(&log);
    let second = pass(&mut monitor);
    assert_eq!(second.state, state(0, 0, 0));
    assert_eq!(second.cleared, vec!["log".to_string(), "chat".to_string()]);
    assert_eq!(second.reported, vec!["log".to_string()]);
    assert_eq!(second.outcome.unwrap().level_name, "base");
    assert_eq!(
        taken(&log),
        vec!["log:clear:".to_string(), "chat:clear:".to_string(), "log:report:base".to_string()]
    );
    let third = pass(&mut monitor);
    assert_eq!(third.state, state(0, 0, 1));
    assert!(third.cleared.is_empty());
}

#[test]
fn failure_resets_success_tally() {
    let (mut monitor, _) = three_tiers();
    monitor.load_monitor(Some(state(2, 3, 2)));
    let cycle = fail(&mut monitor);
    assert_eq!(cycle.state, state(2, 4, 0));
    let next = pass(&mut monitor);
    assert_eq!(next.state, state(2, 0, 1));
}

#[test]
fn full_failure_tally_stays_full() {
    let (mut monitor, _) = three_tiers();
    monitor.load_monitor(Some(state(1, u64::MAX, 0)));
    let cycle = fail(&mut monitor);
    assert_eq!(cycle.state, state(2, u64::MAX, 0));
    let again = fail(&mut monitor);
    assert_eq!(again.state, state(2, u64::MAX, 0));
    assert_eq!(again.reported, vec!["pager".to_string()]);
}

#[test]
fn full_success_tally_clears() {
    let (mut monitor, _) = three_tiers();
    monitor.load_monitor(Some(state(2, 0, u64::MAX)));
    let cycle = pass(&mut monitor);
    assert_eq!(cycle.state, state(0, 0, 0));
    assert_eq!(cycle.cleared, vec!["pager".to_string()]);
}

#[test]
fn clear_comes_before_report_with_bare_result() {
    let (mut monitor, log) = ladder(vec![
        level("base", None, None, &["log"]),
        level("warn", None, Some(1), &["log", "chat", "log"]),
    ]);
    fail(&mut monitor);
    taken(&log);
    let cycle = pass(&mut monitor);
    assert_eq!(cycle.cleared, vec!["log".to_string(), "chat".to_string(), "log".to_string()]);
    assert_eq!(cycle.reported, vec!["log".to_string()]);
    assert_eq!(
        taken(&log),
        vec![
            "log:clear:".to_string(),
            "chat:clear:".to_string(),
            "log:clear:".to_string(),
            "log:report:base".to_string(),
        ]
    );
}

#[test]
fn zero_clear_threshold_clears_on_first_success() {
    let (mut monitor, _) = ladder(vec![
        level("base", None, None, &["log"]),
        level("warn", None, Some(0), &["chat"]),
    ]);
    let up = fail(&mut monitor);
    assert_eq!(up.state, state(1, 1, 0));
    let down = pass(&mut monitor);
    assert_eq!(down.state, state(0, 0, 0));
    assert_eq!(down.cleared, vec!["chat".to_string()]);
}

#[test]
fn single_level_monitor_never_leaves_baseline() {
    let (mut monitor, _) = ladder(vec![level("only", None, None, &["log"])]);
    let cycle = fail(&mut monitor);
    assert_eq!(cycle.state, state(0, 1, 0));
    assert_eq!(cycle.reported, vec!["log".to_string()]);
    let next = pass(&mut monitor);
    assert_eq!(next.state, state(0, 0, 1));
    assert!(next.cleared.is_empty());
}

#[test]
fn launch_failure_changes_nothing() {
    let (mut monitor, log) = three_tiers();
    monitor.load_monitor(Some(state(1, 2, 1)));
    let cycle = monitor.run(Err("failed to run target (no such file)".to_string()), 5);
    assert_eq!(cycle.outcome.unwrap_err(), "failed to run target (no such file)");
    assert_eq!(cycle.state, state(1, 2, 1));
    assert!(cycle.cleared.is_empty());
    assert!(cycle.reported.is_empty());
    assert!(taken(&log).is_empty());
    assert_eq!(monitor.save_monitor(), state(1, 2, 1));
}

#[test]
fn run_describes_the_execution() {
    let (mut monitor, _) = three_tiers();
    let cycle = monitor.run(
        Ok(TargetOutput {
            stdout: "fine".to_string(),
            stderr: String::new(),
            duration: 420,
            status: Some(0),
        }),
        1_700_000_000_123,
    );
    let result = cycle.outcome.unwrap();
    assert_eq!(result.name, "disk");
    assert_eq!(result.level_name, "base");
    assert_eq!(result.start_time, 1_700_000_000_123);
    assert_eq!(result.target, "/usr/bin/check");
    assert_eq!(result.args, "-w,80");
    assert_eq!(result.stdout, "fine");
    assert_eq!(result.stderr, "");
    assert_eq!(result.duration, 420);
    assert_eq!(result.status, 0);
    assert!(!cycle.persist);
}

#[test]
fn missing_exit_code_counts_as_failure() {
    let (mut monitor, _) = three_tiers();
    let cycle = monitor.run(
        Ok(TargetOutput { stdout: String::new(), stderr: String::new(), duration: 1, status: None }),
        0,
    );
    assert_eq!(cycle.outcome.unwrap().status, -1);
    assert_eq!(cycle.state, state(0, 1, 0));
}

#[test]
fn execute_leaves_level_name_empty() {
    let (monitor, _) = three_tiers();
    let result = monitor.execute(finished(3), 77).unwrap();
    assert_eq!(result.level_name, "");
    assert_eq!(result.status, 3);
    assert_eq!(result.start_time, 77);
    assert_eq!(result.args, "-w,80");
    assert_eq!(monitor.execute(Err("boom".to_string()), 1).unwrap_err(), "boom");
}

#[test]
fn execute_without_arguments_gives_empty_text() {
    let args = MonitorArgs {
        name: "ping".to_string(),
        interval: 5,
        level: vec![level("base", None, None, &[])],
        target: TargetArgs { path: "ping".to_string(), args: None, env: None },
    };
    let monitor: Monitor<Recorder> = Monitor::from_args(args);
    assert_eq!(monitor.execute(finished(0), 1).unwrap().args, "");
}

#[test]
fn join_args_separates_with_commas() {
    assert_eq!(join_args(&vec![]), "");
    assert_eq!(join_args(&vec!["one".to_string()]), "one");
    assert_eq!(join_args(&vec!["a".to_string(), String::new(), "c".to_string()]), "a,,c");
}

#[test]
fn reporters_are_found_in_lower_case() {
    let (mut monitor, log) = ladder(vec![level("base", None, None, &["PAGER", "Pager", "ghost"])]);
    let cycle = pass(&mut monitor);
    assert_eq!(cycle.reported, vec!["pager".to_string(), "pager".to_string()]);
    assert_eq!(taken(&log), vec!["pager:report:base".to_string(), "pager:report:base".to_string()]);
}

#[test]
fn registering_a_name_again_replaces_the_reporter() {
    let (mut monitor, log) = ladder(vec![level("base", None, None, &["chat"])]);
    monitor.register_reporter("CHAT", Recorder { tag: "second".to_string(), log: log.clone() });
    let cycle = pass(&mut monitor);
    assert_eq!(cycle.reported, vec!["chat".to_string()]);
    assert_eq!(taken(&log), vec!["second:report:base".to_string()]);
}

#[test]
fn register_db_turns_persistence_on() {
    let (mut monitor, _) = three_tiers();
    assert!(!pass(&mut monitor).persist);
    monitor.register_db();
    let cycle = pass(&mut monitor);
    assert!(cycle.persist);
    assert_eq!(cycle.state, state(0, 0, 1));
}
