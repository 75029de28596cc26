//! The records that the state store keeps for a monitor, and how rows read
//! back from it are understood.

use crate::escalation::MonitorState;
use vstd::prelude::*;

verus! {

/// How many run results the store keeps: after every insert all but the most
/// recently inserted `HISTORY_LIMIT` rows are removed.
pub const HISTORY_LIMIT: u64 = 500;

/// How many of `total` rows of run history are to be removed: all but
/// `HISTORY_LIMIT`.
pub open spec fn stale_count(total: nat) -> nat {
    if total > HISTORY_LIMIT {
        (total - HISTORY_LIMIT) as nat
    } else {
        0
    }
}

/// A run history, oldest row first, after a prune: without its oldest rows
/// beyond the limit.
pub open spec fn pruned<T>(history: Seq<T>) -> Seq<T> {
    history.skip(stale_count(history.len()) as int)
}

/// A run history after `row` has been inserted and the history pruned.
pub open spec fn recorded<T>(history: Seq<T>, row: T) -> Seq<T> {
    pruned(history.push(row))
}

/// A run history after `rows` have been inserted one after the other, each
/// insert followed by a prune.
pub open spec fn recorded_all<T>(history: Seq<T>, rows: Seq<T>) -> Seq<T>
    decreases rows.len(),
{
    if rows.len() == 0 {
        history
    } else {
        recorded(recorded_all(history, rows.drop_last()), rows.last())
    }
}

/// Inserts with a prune after each keep the most recently inserted rows: a
/// history within the limit, after any rows have been recorded, holds the
/// last `HISTORY_LIMIT` of all its rows in the order of insertion, or all of
/// them if they are fewer.
pub proof fn history_keeps_most_recent<T>(history: Seq<T>, rows: Seq<T>)
    requires
        history.len() <= HISTORY_LIMIT,
    ensures
        recorded_all(history, rows) == pruned(history + rows),
        recorded_all(history, rows).len() == if history.len() + rows.len() > HISTORY_LIMIT {
            HISTORY_LIMIT as nat
        } else {
            history.len() + rows.len()
        },
    decreases rows.len(),
{
    if rows.len() == 0 {
        assert(history + rows =~= history);
        assert(pruned(history) =~= history);
    } else {
        history_keeps_most_recent(history, rows.drop_last());
        assert(history + rows =~= (history + rows.drop_last()).push(rows.last()));
        assert(recorded_all(history, rows) =~= pruned(history + rows));
    }
}

/// How many of the oldest rows of a run history of `total` rows a prune
/// removes.
pub fn stale_results(total: u64) -> (stale: u64)
    ensures
        stale == stale_count(total as nat),
{
    if total > HISTORY_LIMIT {
        total - HISTORY_LIMIT
    } else {
        0
    }
}

/// The private state of one reporter of one monitor, as it is stored. The
/// pair of names is the key.
#[derive(Clone, Debug)]
pub struct ReporterState {
    pub monitor_name: String,
    pub reporter_name: String,
    pub state: Vec<u8>,
}

/// A row of stored escalation state; the monitor's name is the key.
#[derive(Clone, Debug)]
pub struct MonitorStateRow {
    pub name: String,
    pub state: MonitorState,
}

/// A stored reporter state as mathematics.
pub struct ReporterStateView {
    pub monitor_name: Seq<char>,
    pub reporter_name: Seq<char>,
    pub state: Seq<u8>,
}

impl View for ReporterState {
    type V = ReporterStateView;

    open spec fn view(&self) -> ReporterStateView {
        ReporterStateView {
            monitor_name: self.monitor_name@,
            reporter_name: self.reporter_name@,
            state: self.state@,
        }
    }
}

/// The views of a list of stored reporter states.
pub open spec fn state_views(records: Seq<ReporterState>) -> Seq<ReporterStateView> {
    records.map_values(|r: ReporterState| r@)
}

/// The records to store for a monitor's reporters: one for each reporter
/// that handed out a state, in the order of the reporters.
pub open spec fn records_of(
    monitor: Seq<char>,
    reporters: Seq<Seq<char>>,
    states: Seq<Option<Seq<u8>>>,
) -> Seq<ReporterStateView>
    recommends
        reporters.len() == states.len(),
    decreases reporters.len(),
{
    if reporters.len() == 0 || states.len() == 0 {
        Seq::empty()
    } else {
        let before = records_of(monitor, reporters.drop_last(), states.drop_last());
        match states.last() {
            Some(bytes) => before.push(
                ReporterStateView {
                    monitor_name: monitor,
                    reporter_name: reporters.last(),
                    state: bytes,
                },
            ),
            None => before,
        }
    }
}

/// The views of the states that reporters handed out.
pub open spec fn snapshot_views(states: Seq<Option<Vec<u8>>>) -> Seq<Option<Seq<u8>>> {
    states.map_values(|s: Option<Vec<u8>>| bytes_view(s))
}

/// Pairs the states that a monitor's reporters handed out with the keys
/// under which they are stored. A reporter without a state gets no record.
pub fn state_records(monitor: &String, reporters: &Vec<String>, states: Vec<Option<Vec<u8>>>) -> (records:
    Vec<ReporterState>)
    requires
        reporters@.len() == states@.len(),
    ensures
        state_views(records@) == records_of(
            monitor@,
            reporters@.map_values(|s: String| s@),
            snapshot_views(states@),
        ),
{
    let ghost names = reporters@.map_values(|s: String| s@);
    let ghost snaps = snapshot_views(states@);
    let mut records: Vec<ReporterState> = Vec::new();
    let mut i: usize = 0;
    while i < reporters.len()
        invariant
            i <= reporters.len(),
            reporters@.len() == states@.len(),
            names == reporters@.map_values(|s: String| s@),
            snaps == snapshot_views(states@),
            state_views(records@) == records_of(monitor@, names.take(i as int), snaps.take(i as int)),
        decreases reporters.len() - i,
    {
        proof {
            assert(names.take(i + 1).drop_last() == names.take(i as int));
            assert(snaps.take(i + 1).drop_last() == snaps.take(i as int));
        }
        match &states[i] {
            Some(bytes) => {
                let copy = bytes.clone();
                assert(copy@ =~= bytes@);
                let record = ReporterState {
                    monitor_name: monitor.clone(),
                    reporter_name: reporters[i].clone(),
                    state: copy,
                };
                records.push(record);
                assert(state_views(records@) =~= records_of(
                    monitor@,
                    names.take(i + 1),
                    snaps.take(i + 1),
                ));
            },
            None => {},
        }
        i += 1;
    }
    proof {
        assert(names.take(reporters@.len() as int) == names);
        assert(snaps.take(reporters@.len() as int) == snaps);
    }
    records
}

/// The bytes that a reporter handed out, or took back, as mathematics.
pub open spec fn bytes_view(state: Option<Vec<u8>>) -> Option<Seq<u8>> {
    match state {
        Some(bytes) => Some(bytes@),
        None => None,
    }
}

/// The state that `saved` holds for the reporter `reporter` of the monitor
/// `monitor`: the bytes of the last record under that pair of names, if
/// there is one.
pub open spec fn last_record(
    saved: Seq<ReporterState>,
    monitor: Seq<char>,
    reporter: Seq<char>,
) -> Option<Seq<u8>>
    decreases saved.len(),
{
    if saved.len() == 0 {
        None
    } else if saved.last().monitor_name@ == monitor && saved.last().reporter_name@ == reporter {
        Some(saved.last().state@)
    } else {
        last_record(saved.drop_last(), monitor, reporter)
    }
}

/// The state to hand back to the reporter `reporter` of the monitor
/// `monitor`: a copy of the bytes of the last record kept under that pair
/// of names, and `None` when no record is.
pub fn stored_state(saved: &Vec<ReporterState>, monitor: &String, reporter: &String) -> (state:
    Option<Vec<u8>>)
    ensures
        bytes_view(state) == last_record(saved@, monitor@, reporter@),
{
    let mut i: usize = saved.len();
    proof {
        assert(saved@.take(i as int) == saved@);
    }
    while i > 0
        invariant
            i <= saved@.len(),
            last_record(saved@, monitor@, reporter@) == last_record(
                saved@.take(i as int),
                monitor@,
                reporter@,
            ),
        decreases i,
    {
        proof {
            assert(saved@.take(i as int).drop_last() == saved@.take(i - 1));
            assert(saved@.take(i as int).last() == saved@[i - 1]);
        }
        i -= 1;
        if saved[i].monitor_name == *monitor && saved[i].reporter_name == *reporter {
            let copy = saved[i].state.clone();
            assert(copy@ =~= saved@[i as int].state@);
            return Some(copy);
        }
    }
    None
}

/// The escalation state that the store holds for a monitor: the last of the
/// rows read for its name, if any was read.
pub fn latest_monitor_state(rows: &Vec<MonitorStateRow>) -> (state: Option<MonitorState>)
    ensures
        state == if rows@.len() == 0 {
            None
        } else {
            Some(rows@.last().state)
        },
{
    if rows.len() == 0 {
        None
    } else {
        Some(rows[rows.len() - 1].state)
    }
}

/// The state that the store holds for a reporter: the bytes of the last of
/// the rows read for its key, if any was read. No row is not the same as a
/// row with no bytes.
pub fn latest_reporter_state(rows: &Vec<ReporterState>) -> (state: Option<Vec<u8>>)
    ensures
        match state {
            Some(bytes) => rows@.len() > 0 && bytes@ == rows@.last().state@,
            None => rows@.len() == 0,
        },
{
    if rows.len() == 0 {
        None
    } else {
        let copy = rows[rows.len() - 1].state.clone();
        assert(copy@ =~= rows@.last().state@);
        Some(copy)
    }
}

} // verus!
