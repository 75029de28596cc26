use synthehol::db::{
    latest_monitor_state, latest_reporter_state, stale_results, state_records, stored_state,
    MonitorStateRow, ReporterState, HISTORY_LIMIT,
};
use synthehol::escalation::{LevelArgs, MonitorState};
use synthehol::monitor::{Monitor, MonitorArgs, MonitorResult, Wake};
use synthehol::reporters::Reporter;
use synthehol::target::{TargetArgs, TargetOutput};

struct Keeper {
    token: Option<Vec<u8>>,
}

impl Reporter for Keeper {
    fn report(&mut self, result: &MonitorResult) {
        self.token = Some(result.name.clone().into_bytes());
    }

    fn clear(&mut self, _: &MonitorResult) {
        self.token = None;
    }

    fn get_state(&self) -> Option<Vec<u8>> {
        self.token.clone()
    }

    fn load_state(&mut self, state: Vec<u8>) {
        self.token = Some(state);
    }
}

fn monitor_with(interval: u64, levels: usize) -> Monitor<Keeper> {
    let level = (0..levels)
        .map(|i| LevelArgs {
            name: format!("tier{}", i),
            errors_to_escalate: None,
            successes_to_clear: None,
            reporters: vec!["first".to_string(), "second".to_string()],
        })
        .collect();
    let mut monitor = Monitor::from_args(MonitorArgs {
        name: "web".to_string(),
        interval,
        level,
        target: TargetArgs { path: "curl".to_string(), args: None, env: None },
    });
    monitor.register_reporter("first", Keeper { token: None });
    monitor.register_reporter("second", Keeper { token: Some(vec![7, 8]) });
    monitor.register_reporter("third", Keeper { token: Some(Vec::new()) });
    monitor
}

fn record(monitor: &str, reporter: &str, state: &[u8]) -> ReporterState {
    ReporterState {
        monitor_name: monitor.to_string(),
        reporter_name: reporter.to_string(),
        state: state.to_vec(),
    }
}

fn keys(records: &[ReporterState]) -> Vec<(String, String, Vec<u8>)> {
    records
        .iter()
        .map(|r| (r.monitor_name.clone(), r.reporter_name.clone(), r.state.clone()))
        .collect()
}

fn state(level_index: usize, failure_tally: u64, success_tally: u64) -> MonitorState {
    MonitorState { level_index, failure_tally, success_tally }
}

#[test]
fn history_limit_is_five_hundred() {
    assert_eq!(HISTORY_LIMIT, 500);
}

#[test]
fn stale_results_counts_rows_beyond_limit() {
    assert_eq!(stale_results(0), 0);
    assert_eq!(stale_results(499), 0);
    assert_eq!(stale_results(500), 0);
    assert_eq!(stale_results(501), 1);
    assert_eq!(stale_results(600), 100);
    assert_eq!(stale_results(u64::MAX), u64::MAX - 500);
}

#[test]
fn six_hundred_inserts_leave_latest_five_hundred() {
    let mut rows: Vec<u64> = Vec::new();
    for id in 0..600u64 {
        rows.push(id);
        let stale = stale_results(rows.len() as u64) as usize;
        rows.drain(..stale);
    }
    assert_eq!(rows.len(), 500);
    assert_eq!(rows, (100..600u64).collect::<Vec<u64>>());
}

#[test]
fn latest_monitor_state_is_last_row() {
    assert_eq!(latest_monitor_state(&vec![]), None);
    let rows = vec![
        MonitorStateRow { name: "web".to_string(), state: state(1, 2, 0) },
        MonitorStateRow { name: "web".to_string(), state: state(2, 5, 1) },
    ];
    assert_eq!(latest_monitor_state(&rows), Some(state(2, 5, 1)));
}

#[test]
fn latest_reporter_state_tells_no_row_from_empty_state() {
    assert_eq!(latest_reporter_state(&vec![]), None);
    assert_eq!(latest_reporter_state(&vec![record("web", "pager", b"")]), Some(Vec::new()));
    let rows = vec![record("web", "pager", b"old"), record("web", "pager", b"new")];
    assert_eq!(latest_reporter_state(&rows), Some(b"new".to_vec()));
}

#[test]
fn state_records_skip_reporters_without_state() {
    let names = vec!["a".to_string(), "b".to_string(), "c".to_string()];
    let states = vec![Some(vec![1u8]), None, Some(Vec::new())];
    let records = state_records(&"web".to_string(), &names, states);
    assert_eq!(
        keys(&records),
        vec![
            ("web".to_string(), "a".to_string(), vec![1u8]),
            ("web".to_string(), "c".to_string(), Vec::new()),
        ]
    );
}

#[test]
fn save_reporters_lists_states_in_registration_order() {
    let monitor = monitor_with(10, 1);
    assert_eq!(
        keys(&monitor.save_reporters()),
        vec![
            ("web".to_string(), "second".to_string(), vec![7u8, 8]),
            ("web".to_string(), "third".to_string(), Vec::new()),
        ]
    );
}

#[test]
fn cycle_carries_reporter_states_after_dispatch() {
    let mut monitor = monitor_with(10, 1);
    let cycle = monitor.run(
        Ok(TargetOutput {
            stdout: String::new(),
            stderr: String::new(),
            duration: 1,
            status: Some(1),
        }),
        0,
    );
    assert_eq!(cycle.reported, vec!["first".to_string(), "second".to_string()]);
    assert_eq!(
        keys(&cycle.reporter_states),
        vec![
            ("web".to_string(), "first".to_string(), b"web".to_vec()),
            ("web".to_string(), "second".to_string(), b"web".to_vec()),
            ("web".to_string(), "third".to_string(), Vec::new()),
        ]
    );
}

#[test]
fn load_reporters_restores_by_monitor_and_reporter() {
    let mut monitor = monitor_with(10, 1);
    let saved = vec![
        record("web", "first", b"one"),
        record("other", "second", b"not mine"),
        record("web", "third", b"early"),
        record("web", "third", b"late"),
        record("web", "unknown", b"x"),
    ];
    let restored = monitor.load_reporters(&saved);
    assert_eq!(restored, vec!["first".to_string(), "third".to_string()]);
    assert_eq!(
        keys(&monitor.save_reporters()),
        vec![
            ("web".to_string(), "first".to_string(), b"one".to_vec()),
            ("web".to_string(), "second".to_string(), vec![7u8, 8]),
            ("web".to_string(), "third".to_string(), b"late".to_vec()),
        ]
    );
}

#[test]
fn snapshot_then_restore_gives_same_snapshot() {
    let source = monitor_with(10, 1);
    let saved = source.save_reporters();
    let mut fresh = monitor_with(10, 1);
    fresh.load_reporters(&saved);
    assert_eq!(keys(&fresh.save_reporters()), keys(&saved));
}

#[test]
fn load_monitor_takes_valid_state() {
    let mut monitor = monitor_with(10, 3);
    monitor.load_monitor(Some(state(2, 9, 4)));
    assert_eq!(monitor.save_monitor(), state(2, 9, 4));
}

#[test]
fn load_monitor_keeps_state_without_row() {
    let mut monitor = monitor_with(10, 3);
    monitor.load_monitor(Some(state(1, 1, 0)));
    monitor.load_monitor(None);
    assert_eq!(monitor.save_monitor(), state(1, 1, 0));
}

#[test]
fn load_monitor_refuses_cursor_past_levels() {
    let mut monitor = monitor_with(10, 3);
    monitor.load_monitor(Some(state(3, 9, 4)));
    assert_eq!(monitor.save_monitor(), state(0, 0, 0));
}

#[test]
fn start_restores_and_stop_ends_the_loop() {
    let mut monitor = monitor_with(10, 2);
    let restored = monitor.start(Some(state(1, 3, 0)), &vec![record("web", "second", b"k")]);
    assert_eq!(restored, vec!["second".to_string()]);
    assert_eq!(monitor.save_monitor(), state(1, 3, 0));
    assert!(monitor.wake(Wake::Timer));
    assert!(monitor.wake(Wake::Timer));
    monitor.stop();
    assert!(!monitor.wake(Wake::Timer));
}

#[test]
fn cancellation_stops_without_new_cycle() {
    let mut monitor = monitor_with(10, 2);
    monitor.start(None, &vec![]);
    assert!(!monitor.wake(Wake::Cancelled));
    assert!(!monitor.wake(Wake::Timer));
    assert_eq!(monitor.save_monitor(), state(0, 0, 0));
}

#[test]
fn monitor_that_was_not_started_runs_no_cycle() {
    let mut monitor = monitor_with(10, 2);
    assert!(!monitor.wake(Wake::Timer));
}

#[test]
fn next_wait_is_interval_less_last_duration() {
    let monitor = monitor_with(30, 1);
    assert_eq!(monitor.next_wait(0), 30_000_000);
    assert_eq!(monitor.next_wait(1_250_000), 28_750_000);
    assert_eq!(monitor.next_wait(30_000_000), 0);
    assert_eq!(monitor.next_wait(30_000_001), 0);
    assert_eq!(monitor.next_wait(u64::MAX), 0);
}

#[test]
fn cycle_and_wait_add_up_to_the_interval() {
    let monitor = monitor_with(10, 1);
    for took in [0u64, 1, 4_999_999, 5_000_000, 9_999_999, 10_000_000] {
        assert_eq!(took as u128 + monitor.next_wait(took), 10_000_000);
    }
    for took in [10_000_001u64, 25_000_000] {
        assert_eq!(monitor.next_wait(took), 0);
    }
}

#[test]
fn stored_state_is_the_last_record_of_the_pair() {
    let web = "web".to_string();
    let saved = vec![
        record("web", "pager", b"first"),
        record("api", "pager", b"other monitor"),
        record("web", "chat", b"other reporter"),
        record("web", "pager", b"last"),
        record("api", "chat", b"neither"),
    ];
    assert_eq!(stored_state(&saved, &web, &"pager".to_string()), Some(b"last".to_vec()));
    assert_eq!(stored_state(&saved, &web, &"chat".to_string()), Some(b"other reporter".to_vec()));
    assert_eq!(stored_state(&saved, &web, &"none".to_string()), None);
    assert_eq!(stored_state(&saved, &"db".to_string(), &"pager".to_string()), None);
    assert_eq!(stored_state(&Vec::new(), &web, &"pager".to_string()), None);
    let empty = vec![record("web", "pager", b"")];
    assert_eq!(stored_state(&empty, &web, &"pager".to_string()), Some(Vec::new()));
}

#[test]
fn next_wait_has_room_for_longest_interval() {
    let monitor = monitor_with(u64::MAX, 1);
    assert_eq!(monitor.next_wait(1), (u64::MAX as u128) * 1_000_000 - 1);
}
