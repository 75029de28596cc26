//! A monitor: a probe, an escalation ladder and the reporters it drives.

use crate::db::{
    last_record, records_of, snapshot_views, state_records, state_views, stored_state,
    ReporterState,
};
use crate::escalation::{
    cleared_tier, counted, dispatch_names, level_of, lowercase, next_state, reported_tier,
    tier_above, to_lowercase, valid_state, Level, LevelArgs, MonitorState,
};
use crate::reporters::Heard;
pub use crate::reporters::Reporter;
pub use crate::target::TargetArgs;
use crate::target::{Target, TargetOutput};
use vstd::prelude::*;

verus! {

/// The outcome of one completed run of a monitor's target.
#[derive(Clone, Debug)]
pub struct MonitorResult {
    pub name: String,
    pub level_name: String,
    pub start_time: u64,
    pub target: String,
    pub args: String,
    pub stdout: String,
    pub stderr: String,
    pub duration: u64,
    pub status: i32,
}

/// A result as mathematics.
pub struct MonitorResultView {
    pub name: Seq<char>,
    pub level_name: Seq<char>,
    pub start_time: u64,
    pub target: Seq<char>,
    pub args: Seq<char>,
    pub stdout: Seq<char>,
    pub stderr: Seq<char>,
    pub duration: u64,
    pub status: i32,
}

impl View for MonitorResult {
    type V = MonitorResultView;

    open spec fn view(&self) -> MonitorResultView {
        MonitorResultView {
            name: self.name@,
            level_name: self.level_name@,
            start_time: self.start_time,
            target: self.target@,
            args: self.args@,
            stdout: self.stdout@,
            stderr: self.stderr@,
            duration: self.duration,
            status: self.status,
        }
    }
}

/// The configured form of a [`Monitor`].
#[derive(Clone, Debug)]
pub struct MonitorArgs {
    pub name: String,
    pub interval: u64,
    pub level: Vec<LevelArgs>,
    pub target: TargetArgs,
}

/// The settings of a reporter as a configuration document holds them.
pub type ReporterArgs = toml::Table;

/// The exit code that stands for a process that ended without one.
pub const NO_EXIT_CODE: i32 = -1;

/// What woke a monitor's scheduling loop from its wait.
#[derive(Clone, Copy, Debug, PartialEq, Eq, Structural)]
pub enum Wake {
    /// The timer of the next cycle ran out.
    Timer,
    /// The shutdown signal was seen.
    Cancelled,
}

/// What one cycle of a monitor did and what is to be written to the state
/// store after it.
#[derive(Debug)]
pub struct Cycle {
    /// The completed run, stamped with the tier that the monitor arrived at;
    /// or why the probe could not be launched.
    pub outcome: Result<MonitorResult, String>,
    /// The reporters that were told to clear, in order.
    pub cleared: Vec<String>,
    /// The reporters that were given the result, in order.
    pub reported: Vec<String>,
    /// Whether a state store is attached. If so, a completed run is added to
    /// the run history, and `state` and `reporter_states` are stored.
    pub persist: bool,
    /// The escalation state after the cycle.
    pub state: MonitorState,
    /// The reporters' own states after the cycle.
    pub reporter_states: Vec<ReporterState>,
}

/// The status of a run: the exit code, or `NO_EXIT_CODE` without one.
pub open spec fn status_code(status: Option<i32>) -> i32 {
    match status {
        Some(code) => code,
        None => NO_EXIT_CODE,
    }
}

/// The parts of a text list written one after the other with `sep` between
/// each two.
pub open spec fn joined(parts: Seq<Seq<char>>, sep: Seq<char>) -> Seq<char>
    decreases parts.len(),
{
    if parts.len() == 0 {
        Seq::empty()
    } else if parts.len() == 1 {
        parts[0]
    } else {
        joined(parts.drop_last(), sep) + sep + parts.last()
    }
}

/// The arguments of a target as a run result shows them: separated by commas,
/// empty when none are configured.
pub open spec fn args_text(target: Target) -> Seq<char> {
    match target.args {
        Some(list) => joined(texts(list@), seq![',']),
        None => Seq::empty(),
    }
}

/// `result` describes the run `out` of `target` for the monitor `name`,
/// started at `now` and stamped with `level_name`.
pub open spec fn describes(
    result: MonitorResult,
    name: String,
    target: Target,
    out: TargetOutput,
    now: u64,
    level_name: Seq<char>,
) -> bool {
    &&& result.name@ == name@
    &&& result.level_name@ == level_name
    &&& result.start_time == now
    &&& result.target@ == target.path@
    &&& result.args@ == args_text(target)
    &&& result.stdout@ == out.stdout@
    &&& result.stderr@ == out.stderr@
    &&& result.duration == out.duration
    &&& result.status == status_code(out.status)
}

/// Microseconds in a second.
pub const MICROS_PER_SECOND: u128 = 1_000_000;

/// The wait from the end of a cycle to the start of the next, in
/// microseconds, for a monitor whose cycles start `interval` seconds apart
/// and whose cycle took `duration` microseconds: what is left of the
/// interval, and nothing when the cycle took longer than that.
pub open spec fn wait_micros(interval: u64, duration: u64) -> int {
    if interval * MICROS_PER_SECOND >= duration {
        interval * MICROS_PER_SECOND - duration
    } else {
        0
    }
}

/// A state read back from the store can be taken over: its cursor points at
/// one of the monitor's levels.
pub open spec fn restorable_state(levels: Seq<Level>, saved: Option<MonitorState>) -> bool {
    saved matches Some(s) && valid_state(levels, s)
}

/// The reporters among `registered` for which `saved` holds a state of the
/// monitor `monitor`, in the order of `registered`.
pub open spec fn restored_names(
    registered: Seq<Seq<char>>,
    saved: Seq<ReporterState>,
    monitor: Seq<char>,
) -> Seq<Seq<char>>
    decreases registered.len(),
{
    if registered.len() == 0 {
        Seq::empty()
    } else {
        let before = restored_names(registered.drop_last(), saved, monitor);
        if last_record(saved, monitor, registered.last()) is Some {
            before.push(registered.last())
        } else {
            before
        }
    }
}

/// A result before it is stamped with the name of a tier.
pub open spec fn unstamped(result: MonitorResultView) -> MonitorResultView {
    MonitorResultView { level_name: Seq::empty(), ..result }
}

/// How often `name` stands in `told`.
pub open spec fn times(told: Seq<Seq<char>>, name: Seq<char>) -> nat
    decreases told.len(),
{
    if told.len() == 0 {
        0
    } else {
        times(told.drop_last(), name) + if told.last() == name {
            1nat
        } else {
            0nat
        }
    }
}

/// `entry`, `n` times over.
pub open spec fn repeated(entry: Heard, n: nat) -> Seq<Heard> {
    Seq::new(n, |i: int| entry)
}

/// The states that the reporters hand out when asked now.
pub open spec fn snapshots<R: Reporter>(reporters: Seq<R>) -> Seq<Option<Seq<u8>>> {
    reporters.map_values(|r: R| r.snapshot())
}

/// Of the reporters `before`, which go by the names `registered`, only those
/// named in `told` may differ in `after`.
pub open spec fn only_told_differ<R>(
    before: Seq<R>,
    after: Seq<R>,
    registered: Seq<Seq<char>>,
    told: Seq<Seq<char>>,
) -> bool {
    &&& after.len() == before.len()
    &&& forall|i: int|
        0 <= i < before.len() && i < registered.len() && !told.contains(registered[i])
            ==> #[trigger] after[i] == before[i]
}

/// Each of the reporters `before`, which go by the names `registered`, has
/// in `after` heard what it had heard, and then `entry` once for each time
/// that its name stands in `told`.
pub open spec fn each_heard<R: Reporter>(
    before: Seq<R>,
    after: Seq<R>,
    registered: Seq<Seq<char>>,
    told: Seq<Seq<char>>,
    entry: Heard,
) -> bool {
    &&& after.len() == before.len()
    &&& forall|i: int|
        0 <= i < before.len() && i < registered.len() ==> (#[trigger] after[i]).heard()
            == before[i].heard() + repeated(entry, times(told, registered[i]))
}

/// Each of the reporters has in `after` heard what it had heard, then to
/// clear with the result not yet stamped, once for each time that its name
/// stands in `cleared`, then the stamped result to report, once for each
/// time that its name stands in `reported`.
pub open spec fn heard_in_cycle<R: Reporter>(
    before: Seq<R>,
    after: Seq<R>,
    registered: Seq<Seq<char>>,
    cleared: Seq<Seq<char>>,
    reported: Seq<Seq<char>>,
    result: MonitorResultView,
) -> bool {
    &&& after.len() == before.len()
    &&& forall|i: int|
        0 <= i < before.len() && i < registered.len() ==> (#[trigger] after[i]).heard()
            == before[i].heard() + repeated(
            Heard::Cleared(unstamped(result)),
            times(cleared, registered[i]),
        ) + repeated(Heard::Reported(result), times(reported, registered[i]))
}

/// Each of the reporters has in `after` heard what it had heard, and then
/// was handed the state that `saved` holds for it under the monitor
/// `monitor`, if it holds one.
pub open spec fn each_restored<R: Reporter>(
    before: Seq<R>,
    after: Seq<R>,
    registered: Seq<Seq<char>>,
    saved: Seq<ReporterState>,
    monitor: Seq<char>,
) -> bool {
    &&& after.len() == before.len()
    &&& forall|i: int|
        0 <= i < before.len() && i < registered.len() ==> (#[trigger] after[i]).heard()
            == before[i].heard() + match last_record(saved, monitor, registered[i]) {
            Some(bytes) => seq![Heard::Loaded(bytes)],
            None => Seq::empty(),
        }
}

/// One more name told counts once more for that name and for no other.
pub proof fn times_push(told: Seq<Seq<char>>, next: Seq<char>, name: Seq<char>)
    ensures
        times(told.push(next), name) == times(told, name) + if next == name {
            1nat
        } else {
            0nat
        },
{
    assert(told.push(next).drop_last() == told);
}

/// The names listed on a tier in lower case.
pub open spec fn lowered(listed: Seq<Seq<char>>) -> Seq<Seq<char>> {
    listed.map_values(|name: Seq<char>| lowercase(name))
}

/// A dispatch to a tier tells a registered reporter as often as its name
/// is listed on the tier, in whatever case, and no other reporter at all.
pub proof fn dispatch_tells_as_listed(
    listed: Seq<Seq<char>>,
    registered: Seq<Seq<char>>,
    name: Seq<char>,
)
    ensures
        times(dispatch_names(listed, registered), name) == if registered.contains(name) {
            times(lowered(listed), name)
        } else {
            0
        },
    decreases listed.len(),
{
    if listed.len() > 0 {
        let shorter = listed.drop_last();
        let key = lowercase(listed.last());
        dispatch_tells_as_listed(shorter, registered, name);
        assert(lowered(listed).drop_last() =~= lowered(shorter));
        assert(lowered(listed).last() == key);
        times_push(dispatch_names(shorter, registered), key, name);
    } else {
        assert(lowered(listed).len() == 0);
    }
}

/// Among names that are all different, a name stands once if it stands at
/// all.
pub proof fn times_of_distinct(names: Seq<Seq<char>>, name: Seq<char>)
    requires
        names.no_duplicates(),
    ensures
        times(names, name) == if names.contains(name) {
            1nat
        } else {
            0nat
        },
    decreases names.len(),
{
    if names.len() > 0 {
        let shorter = names.drop_last();
        assert forall|i: int, j: int| 0 <= i < j < shorter.len() implies shorter[i]
            != shorter[j] by {
            assert(shorter[i] == names[i] && shorter[j] == names[j]);
        }
        times_of_distinct(shorter, name);
        if shorter.contains(name) {
            let at = choose|at: int| 0 <= at < shorter.len() && shorter[at] == name;
            assert(names[at] == name);
            assert(names.last() != name);
        } else if names.contains(name) {
            let at = choose|at: int| 0 <= at < names.len() && names[at] == name;
            if at < shorter.len() {
                assert(shorter[at] == name);
            }
        }
        if names.last() == name {
            assert(names[names.len() - 1] == name);
        }
    }
}

/// A monitor's cycles start one interval apart: the time that a cycle took
/// and the wait that follows it add up to the interval, unless the cycle
/// took longer, and then the next cycle follows at once.
pub proof fn cycles_start_one_interval_apart(interval: u64, duration: u64)
    ensures
        duration <= interval * MICROS_PER_SECOND ==> duration + wait_micros(interval, duration)
            == interval * MICROS_PER_SECOND,
        duration > interval * MICROS_PER_SECOND ==> wait_micros(interval, duration) == 0,
{
}

/// Writes the parts one after the other with a comma between each two.
pub fn join_args(parts: &Vec<String>) -> (text: String)
    ensures
        text@ == joined(texts(parts@), seq![',']),
{
    let ghost all = texts(parts@);
    let mut text = String::new();
    let mut i: usize = 0;
    while i < parts.len()
        invariant
            i <= parts.len(),
            all == texts(parts@),
            text@ == joined(all.take(i as int), seq![',']),
        decreases parts.len() - i,
    {
        proof {
            reveal_strlit(",");
            assert(all.take(i + 1).drop_last() == all.take(i as int));
            assert(","@ =~= seq![',']);
        }
        if i > 0 {
            text.append(",");
        }
        text.append(parts[i].as_str());
        assert(text@ =~= joined(all.take(i + 1), seq![',']));
        i += 1;
    }
    proof {
        assert(all.take(parts@.len() as int) == all);
    }
    text
}

/// The texts that a list of strings holds.
pub open spec fn texts(list: Seq<String>) -> Seq<Seq<char>> {
    list.map_values(|s: String| s@)
}

/// A monitor executes its target once per cycle, moves along its levels as
/// the outcomes ask, and tells the reporters of the tier it arrives at.
pub struct Monitor<R: Reporter> {
    pub name: String,
    pub interval: u64,
    levels: Vec<Level>,
    reporter_names: Vec<String>,
    reporters: Vec<R>,
    level_index: usize,
    failure_tally: u64,
    success_tally: u64,
    target: Target,
    running: bool,
    has_db: bool,
}

impl<R: Reporter> Monitor<R> {
    /// The monitor's name, the key of everything that is stored for it.
    pub closed spec fn label(&self) -> String {
        self.name
    }

    /// The seconds from the start of one cycle to the start of the next.
    pub closed spec fn period(&self) -> u64 {
        self.interval
    }

    /// The escalation ladder, baseline first.
    pub closed spec fn levels(&self) -> Seq<Level> {
        self.levels@
    }

    /// The cursor and the two tallies.
    pub closed spec fn state(&self) -> MonitorState {
        MonitorState {
            level_index: self.level_index,
            failure_tally: self.failure_tally,
            success_tally: self.success_tally,
        }
    }

    /// The names under which reporters are registered, oldest first.
    pub closed spec fn registered(&self) -> Seq<Seq<char>> {
        texts(self.reporter_names@)
    }

    /// The registered reporters; the one at a position goes by the name at
    /// the same position of `registered`.
    pub closed spec fn reporters(&self) -> Seq<R> {
        self.reporters@
    }

    /// The probe.
    pub closed spec fn target(&self) -> Target {
        self.target
    }

    /// The scheduling loop of this monitor is in its running state.
    pub closed spec fn is_running(&self) -> bool {
        self.running
    }

    /// A state store is attached, so every cycle ends with writes to it.
    pub closed spec fn persists(&self) -> bool {
        self.has_db
    }

    /// The invariant of every monitor: each registered reporter has one
    /// name, no name is taken twice, and the cursor points at a level if
    /// there is any.
    pub closed spec fn inv(&self) -> bool {
        &&& self.reporter_names.len() == self.reporters.len()
        &&& forall|i: int, j: int|
            0 <= i < j < self.reporter_names.len() ==> self.reporter_names[i]@
                != self.reporter_names[j]@
        &&& self.levels.len() > 0 ==> self.level_index < self.levels.len()
    }

    /// The monitor can run: its invariant holds and it has at least one level.
    pub open spec fn wf(&self) -> bool {
        self.inv() && self.levels().len() > 0
    }

    /// Everything but the escalation state and the reporters' own insides is
    /// as it was in `before`.
    pub open spec fn keeps_setup(&self, before: &Monitor<R>) -> bool {
        &&& self.label() == before.label()
        &&& self.period() == before.period()
        &&& self.levels() == before.levels()
        &&& self.registered() == before.registered()
        &&& self.reporters().len() == before.reporters().len()
        &&& self.target() == before.target()
        &&& self.is_running() == before.is_running()
        &&& self.persists() == before.persists()
    }

    /// A monitor that can run has a valid state, among no more levels than a
    /// list can hold, and one reporter per name.
    pub proof fn wf_facts(&self)
        requires
            self.wf(),
        ensures
            0 < self.levels().len() <= usize::MAX,
            valid_state(self.levels(), self.state()),
            self.registered().len() == self.reporters().len(),
            self.registered().no_duplicates(),
    {
    }

    /// Builds a monitor at the baseline, with both tallies at zero, no
    /// reporter, no state store, and its loop not yet running. The monitor
    /// can run if at least one level is configured.
    pub fn from_args(args: MonitorArgs) -> (monitor: Monitor<R>)
        ensures
            monitor.label() == args.name,
            monitor.period() == args.interval,
            monitor.levels() == args.level@.map_values(|a: LevelArgs| level_of(a)),
            monitor.state() == (MonitorState {
                level_index: 0,
                failure_tally: 0,
                success_tally: 0,
            }),
            monitor.registered().len() == 0,
            monitor.reporters().len() == 0,
            monitor.target() == (Target {
                path: args.target.path,
                args: args.target.args,
                env: args.target.env,
            }),
            !monitor.is_running(),
            !monitor.persists(),
            monitor.inv(),
    {
        let ghost configured = args.level@;
        let mut levels: Vec<Level> = Vec::new();
        for l in it: args.level
            invariant
                it.seq() == configured,
                levels@ == configured.take(it.index() as int).map_values(|a: LevelArgs| level_of(a)),
        {
            let level = Level::from_args(l);
            proof {
                assert(configured.take(it.index() + 1).drop_last() == configured.take(it.index() as int));
            }
            levels.push(level);
            assert(levels@ =~= configured.take(it.index() + 1).map_values(|a: LevelArgs| level_of(a)));
        }
        assert(configured.take(configured.len() as int) == configured);
        Monitor {
            name: args.name,
            interval: args.interval,
            levels,
            reporter_names: Vec::new(),
            reporters: Vec::new(),
            level_index: 0,
            failure_tally: 0,
            success_tally: 0,
            target: Target::from_args(args.target),
            running: false,
            has_db: false,
        }
    }

    /// The position of the reporter registered under `key`, if there is one.
    fn find_reporter(&self, key: &String) -> (found: Option<usize>)
        ensures
            match found {
                Some(at) => at < self.reporter_names.len() && self.reporter_names[at as int]@
                    == key@,
                None => !self.registered().contains(key@) && forall|k: int|
                    0 <= k < self.reporter_names.len() ==> self.reporter_names[k]@ != key@,
            },
    {
        let mut i: usize = 0;
        while i < self.reporter_names.len()
            invariant
                i <= self.reporter_names.len(),
                forall|k: int| 0 <= k < i ==> self.reporter_names[k]@ != key@,
            decreases self.reporter_names.len() - i,
        {
            if self.reporter_names[i] == *key {
                return Some(i);
            }
            i += 1;
        }
        None
    }

    /// Registers a reporter under the lower-case form of `name`. A reporter
    /// that was registered under that name before is replaced.
    pub fn register_reporter(&mut self, name: &str, rep: R)
        requires
            old(self).inv(),
        ensures
            final(self).inv(),
            final(self).label() == old(self).label(),
            final(self).period() == old(self).period(),
            final(self).levels() == old(self).levels(),
            final(self).state() == old(self).state(),
            final(self).target() == old(self).target(),
            final(self).is_running() == old(self).is_running(),
            final(self).persists() == old(self).persists(),
            match old(self).registered().index_of_first(lowercase(name@)) {
                Some(at) => {
                    &&& final(self).registered() == old(self).registered()
                    &&& final(self).reporters() == old(self).reporters().update(at, rep)
                },
                None => {
                    &&& final(self).registered() == old(self).registered().push(lowercase(name@))
                    &&& final(self).reporters() == old(self).reporters().push(rep)
                },
            },
    {
        let key = to_lowercase(name);
        proof {
            old(self).registered().index_of_first_ensures(key@);
        }
        match self.find_reporter(&key) {
            Some(at) => {
                assert(old(self).registered()[at as int] == key@);
                assert(old(self).registered().index_of_first(key@) == Some(at as int));
                self.reporters.set(at, rep);
            },
            None => {
                self.reporter_names.push(key);
                self.reporters.push(rep);
                assert forall|i: int, j: int| 0 <= i < j < self.reporter_names.len() implies self.reporter_names[i]@
                    != self.reporter_names[j]@ by {
                    assert(self.reporter_names[i] == old(self).reporter_names[i]);
                    if j < old(self).reporter_names.len() {
                        assert(self.reporter_names[j] == old(self).reporter_names[j]);
                    }
                }
                assert(final(self).registered() =~= old(self).registered().push(lowercase(name@)));
            },
        }
    }

    /// Attaches the state store: from now on every cycle ends with the writes
    /// that keep the store current.
    pub fn register_db(&mut self)
        ensures
            final(self).persists(),
            final(self).label() == old(self).label(),
            final(self).period() == old(self).period(),
            final(self).levels() == old(self).levels(),
            final(self).state() == old(self).state(),
            final(self).registered() == old(self).registered(),
            final(self).reporters() == old(self).reporters(),
            final(self).target() == old(self).target(),
            final(self).is_running() == old(self).is_running(),
            final(self).inv() == old(self).inv(),
    {
        self.has_db = true;
    }

    /// The names of the reporters listed on the tier `tier` of this monitor.
    pub open spec fn listed(&self, tier: int) -> Seq<Seq<char>> {
        texts(self.levels()[tier].reporters@)
    }

    /// Describes a run of the target for the result's readers, or passes on
    /// why the probe could not be launched. The level name is left empty: it
    /// is known only after the run has been counted.
    pub fn execute(&self, probe: Result<TargetOutput, String>, now: u64) -> (executed: Result<
        MonitorResult,
        String,
    >)
        ensures
            match probe {
                Ok(out) => executed matches Ok(result) && describes(
                    result,
                    self.label(),
                    self.target(),
                    out,
                    now,
                    Seq::empty(),
                ),
                Err(why) => executed == Err::<MonitorResult, String>(why),
            },
    {
        match probe {
            Ok(out) => {
                let args = match &self.target.args {
                    Some(list) => join_args(list),
                    None => String::new(),
                };
                let status = match out.status {
                    Some(code) => code,
                    None => NO_EXIT_CODE,
                };
                Ok(
                    MonitorResult {
                        name: self.name.clone(),
                        level_name: String::new(),
                        start_time: now,
                        target: self.target.path.clone(),
                        args,
                        stdout: out.stdout,
                        stderr: out.stderr,
                        duration: out.duration,
                        status,
                    },
                )
            },
            Err(why) => Err(why),
        }
    }

    /// Tells the reporters of the current tier about `result`: to clear if
    /// `clearing`, to report otherwise. Each name listed on the tier is taken
    /// in lower case; a name under which no reporter is registered is passed
    /// over. Returns the names of the reporters told, in order.
    fn dispatch(&mut self, result: &MonitorResult, clearing: bool) -> (told: Vec<String>)
        requires
            old(self).wf(),
        ensures
            final(self).wf(),
            final(self).keeps_setup(old(self)),
            final(self).state() == old(self).state(),
            texts(told@) == dispatch_names(
                old(self).listed(old(self).state().level_index as int),
                old(self).registered(),
            ),
            only_told_differ(
                old(self).reporters(),
                final(self).reporters(),
                old(self).registered(),
                texts(told@),
            ),
            each_heard(
                old(self).reporters(),
                final(self).reporters(),
                old(self).registered(),
                texts(told@),
                if clearing {
                    Heard::Cleared(result@)
                } else {
                    Heard::Reported(result@)
                },
            ),
    {
        let ghost names = self.listed(self.level_index as int);
        let ghost registered = self.registered();
        let ghost at_first = self.reporters();
        let ghost entry = if clearing {
            Heard::Cleared(result@)
        } else {
            Heard::Reported(result@)
        };
        let mut told: Vec<String> = Vec::new();
        let count = self.levels[self.level_index].reporters.len();
        let mut i: usize = 0;
        proof {
            assert forall|k: int| 0 <= k < at_first.len() && k < registered.len() implies (
            #[trigger] self.reporters()[k]).heard() == at_first[k].heard() + repeated(
                entry,
                times(texts(told@), registered[k]),
            ) by {
                assert(at_first[k].heard() + repeated(entry, 0) =~= at_first[k].heard());
            }
        }
        while i < count
            invariant
                self.wf(),
                self.keeps_setup(old(self)),
                self.state() == old(self).state(),
                names == self.listed(self.level_index as int),
                registered == self.registered(),
                at_first == old(self).reporters(),
                entry == if clearing {
                    Heard::Cleared(result@)
                } else {
                    Heard::Reported(result@)
                },
                count == self.levels[self.level_index as int].reporters.len(),
                i <= count,
                texts(told@) == dispatch_names(names.take(i as int), registered),
                only_told_differ(at_first, self.reporters(), registered, texts(told@)),
                each_heard(at_first, self.reporters(), registered, texts(told@), entry),
            decreases count - i,
        {
            let key = to_lowercase(self.levels[self.level_index].reporters[i].as_str());
            proof {
                assert(names.take(i + 1).drop_last() == names.take(i as int));
                assert(names.take(i + 1).last() == names[i as int]);
            }
            match self.find_reporter(&key) {
                Some(at) => {
                    assert(registered[at as int] == key@);
                    let ghost midway = self.reporters();
                    if clearing {
                        self.reporters[at].clear(result);
                    } else {
                        self.reporters[at].report(result);
                    }
                    let ghost told_before = texts(told@);
                    told.push(key);
                    let ghost now = texts(told@);
                    assert(now =~= dispatch_names(names.take(i + 1), registered));
                    assert(now =~= told_before.push(registered[at as int]));
                    assert forall|k: int|
                        0 <= k < at_first.len() && k < registered.len() && !now.contains(
                            registered[k],
                        ) implies #[trigger] self.reporters()[k] == at_first[k] by {
                        assert(now.last() == registered[at as int]);
                        assert(k != at);
                        if told_before.contains(registered[k]) {
                            let w = choose|w: int|
                                0 <= w < told_before.len() && told_before[w] == registered[k];
                            assert(now[w] == registered[k]);
                        }
                    }
                    assert forall|k: int|
                        0 <= k < at_first.len() && k < registered.len() implies (
                    #[trigger] self.reporters()[k]).heard() == at_first[k].heard() + repeated(
                        entry,
                        times(now, registered[k]),
                    ) by {
                        times_push(told_before, registered[at as int], registered[k]);
                        let had = times(told_before, registered[k]);
                        assert(midway[k].heard() == at_first[k].heard() + repeated(entry, had));
                        if k == at {
                            assert(self.reporters()[k].heard() == midway[k].heard().push(entry));
                            assert((at_first[k].heard() + repeated(entry, had)).push(entry)
                                =~= at_first[k].heard() + repeated(entry, had + 1));
                        } else {
                            assert(self.reporter_names[k]@ != self.reporter_names[at as int]@);
                            assert(self.reporters()[k] == midway[k]);
                        }
                    }
                },
                None => {},
            }
            i += 1;
        }
        proof {
            assert(names.take(count as int) == names);
        }
        told
    }

    /// Gives `result` to the reporters of the current tier, to report.
    fn report(&mut self, result: &MonitorResult) -> (told: Vec<String>)
        requires
            old(self).wf(),
        ensures
            final(self).wf(),
            final(self).keeps_setup(old(self)),
            final(self).state() == old(self).state(),
            texts(told@) == dispatch_names(
                old(self).listed(old(self).state().level_index as int),
                old(self).registered(),
            ),
            only_told_differ(
                old(self).reporters(),
                final(self).reporters(),
                old(self).registered(),
                texts(told@),
            ),
            each_heard(
                old(self).reporters(),
                final(self).reporters(),
                old(self).registered(),
                texts(told@),
                Heard::Reported(result@),
            ),
    {
        self.dispatch(result, false)
    }

    /// Tells the reporters of the current tier that the alert is over.
    fn clear(&mut self, result: &MonitorResult) -> (told: Vec<String>)
        requires
            old(self).wf(),
        ensures
            final(self).wf(),
            final(self).keeps_setup(old(self)),
            final(self).state() == old(self).state(),
            texts(told@) == dispatch_names(
                old(self).listed(old(self).state().level_index as int),
                old(self).registered(),
            ),
            only_told_differ(
                old(self).reporters(),
                final(self).reporters(),
                old(self).registered(),
                texts(told@),
            ),
            each_heard(
                old(self).reporters(),
                final(self).reporters(),
                old(self).registered(),
                texts(told@),
                Heard::Cleared(result@),
            ),
    {
        self.dispatch(result, true)
    }

    /// The escalation state to store.
    pub fn save_monitor(&self) -> (state: MonitorState)
        ensures
            state == self.state(),
    {
        MonitorState {
            level_index: self.level_index,
            failure_tally: self.failure_tally,
            success_tally: self.success_tally,
        }
    }

    /// Takes over the escalation state that the store held for this monitor.
    /// Without one, or with one whose cursor points past the levels, the
    /// monitor keeps the state it has.
    pub fn load_monitor(&mut self, saved: Option<MonitorState>)
        requires
            old(self).inv(),
        ensures
            final(self).inv(),
            final(self).keeps_setup(old(self)),
            final(self).reporters() == old(self).reporters(),
            final(self).state() == if restorable_state(old(self).levels(), saved) {
                saved->0
            } else {
                old(self).state()
            },
    {
        if let Some(s) = saved {
            if s.level_index < self.levels.len() {
                self.level_index = s.level_index;
                self.failure_tally = s.failure_tally;
                self.success_tally = s.success_tally;
            }
        }
    }

    /// Asks each reporter for its state, in the order of registration.
    fn ask_states(&self) -> (states: Vec<Option<Vec<u8>>>)
        requires
            self.inv(),
        ensures
            states@.len() == self.registered().len(),
            snapshot_views(states@) == snapshots(self.reporters()),
    {
        let mut states: Vec<Option<Vec<u8>>> = Vec::new();
        let mut i: usize = 0;
        while i < self.reporters.len()
            invariant
                i <= self.reporters.len(),
                states@.len() == i,
                forall|k: int|
                    0 <= k < i ==> crate::db::bytes_view(#[trigger] states@[k])
                        == self.reporters()[k].snapshot(),
            decreases self.reporters.len() - i,
        {
            let state = self.reporters[i].get_state();
            states.push(state);
            i += 1;
        }
        proof {
            assert(snapshot_views(states@) =~= snapshots(self.reporters()));
        }
        states
    }

    /// The reporter states to store: each reporter is asked for its state,
    /// in the order of registration, and each state handed out gives one
    /// record under this monitor's name and the reporter's.
    pub fn save_reporters(&self) -> (records: Vec<ReporterState>)
        requires
            self.inv(),
        ensures
            state_views(records@) == records_of(
                self.label()@,
                self.registered(),
                snapshots(self.reporters()),
            ),
    {
        let states = self.ask_states();
        state_records(&self.name, &self.reporter_names, states)
    }

    /// Hands each reporter the state that the store held for it under this
    /// monitor's name, the last of the records kept for the pair; a reporter
    /// without a record is left alone. Returns the names of the reporters
    /// that got their state back, in order.
    pub fn load_reporters(&mut self, saved: &Vec<ReporterState>) -> (restored: Vec<String>)
        requires
            old(self).inv(),
        ensures
            final(self).inv(),
            final(self).keeps_setup(old(self)),
            final(self).state() == old(self).state(),
            texts(restored@) == restored_names(old(self).registered(), saved@, old(self).label()@),
            only_told_differ(
                old(self).reporters(),
                final(self).reporters(),
                old(self).registered(),
                texts(restored@),
            ),
            each_restored(
                old(self).reporters(),
                final(self).reporters(),
                old(self).registered(),
                saved@,
                old(self).label()@,
            ),
    {
        let ghost registered = self.registered();
        let ghost at_first = self.reporters();
        let mut restored: Vec<String> = Vec::new();
        let mut i: usize = 0;
        while i < self.reporters.len()
            invariant
                self.inv(),
                self.keeps_setup(old(self)),
                self.state() == old(self).state(),
                registered == self.registered(),
                at_first == old(self).reporters(),
                i <= self.reporters.len(),
                texts(restored@) == restored_names(registered.take(i as int), saved@, self.label()@),
                only_told_differ(at_first, self.reporters(), registered, texts(restored@)),
                forall|k: int| i <= k < at_first.len() ==> self.reporters()[k] == at_first[k],
                forall|k: int|
                    0 <= k < i ==> (#[trigger] self.reporters()[k]).heard() == at_first[k].heard()
                        + match last_record(saved@, self.label()@, registered[k]) {
                        Some(bytes) => seq![Heard::Loaded(bytes)],
                        None => Seq::empty(),
                    },
            decreases self.reporters.len() - i,
        {
            proof {
                assert(registered.take(i + 1).drop_last() == registered.take(i as int));
                assert(registered.take(i + 1).last() == self.reporter_names[i as int]@);
            }
            let ghost midway = self.reporters();
            match stored_state(saved, &self.name, &self.reporter_names[i]) {
                Some(bytes) => {
                    let name = self.reporter_names[i].clone();
                    let ghost handed = bytes@;
                    self.reporters[i].load_state(bytes);
                    let ghost restored_before = texts(restored@);
                    restored.push(name);
                    let ghost now = texts(restored@);
                    assert(now =~= restored_names(registered.take(i + 1), saved@, self.label()@));
                    assert(now =~= restored_before.push(registered[i as int]));
                    assert forall|k: int|
                        0 <= k < at_first.len() && k < registered.len() && !now.contains(
                            registered[k],
                        ) implies #[trigger] self.reporters()[k] == at_first[k] by {
                        assert(now.last() == registered[i as int]);
                        assert(k != i);
                        if restored_before.contains(registered[k]) {
                            let w = choose|w: int|
                                0 <= w < restored_before.len() && restored_before[w]
                                    == registered[k];
                            assert(now[w] == registered[k]);
                        }
                    }
                    assert(self.reporters()[i as int].heard() == at_first[i as int].heard().push(
                        Heard::Loaded(handed),
                    ));
                    assert(at_first[i as int].heard().push(Heard::Loaded(handed))
                        =~= at_first[i as int].heard() + seq![Heard::Loaded(handed)]);
                    assert forall|k: int| 0 <= k < i implies (#[trigger] self.reporters()[
                        k
                    ]).heard() == at_first[k].heard() + match last_record(
                        saved@,
                        self.label()@,
                        registered[k],
                    ) {
                        Some(bytes) => seq![Heard::Loaded(bytes)],
                        None => Seq::empty(),
                    } by {
                        assert(self.reporters()[k] == midway[k]);
                    }
                },
                None => {
                    assert(at_first[i as int].heard() + Seq::<Heard>::empty()
                        =~= at_first[i as int].heard());
                },
            }
            i += 1;
        }
        proof {
            assert(registered.take(self.reporters.len() as int) == registered);
        }
        restored
    }

    /// Enters the running state of the scheduling loop with what the store
    /// held: see `load_monitor` and `load_reporters`.
    pub fn start(&mut self, saved: Option<MonitorState>, saved_reporters: &Vec<ReporterState>) -> (restored:
        Vec<String>)
        requires
            old(self).inv(),
        ensures
            final(self).inv(),
            final(self).is_running(),
            final(self).label() == old(self).label(),
            final(self).period() == old(self).period(),
            final(self).levels() == old(self).levels(),
            final(self).registered() == old(self).registered(),
            final(self).reporters().len() == old(self).reporters().len(),
            final(self).target() == old(self).target(),
            final(self).persists() == old(self).persists(),
            final(self).state() == if restorable_state(old(self).levels(), saved) {
                saved->0
            } else {
                old(self).state()
            },
            texts(restored@) == restored_names(
                old(self).registered(),
                saved_reporters@,
                old(self).label()@,
            ),
            only_told_differ(
                old(self).reporters(),
                final(self).reporters(),
                old(self).registered(),
                texts(restored@),
            ),
            each_restored(
                old(self).reporters(),
                final(self).reporters(),
                old(self).registered(),
                saved_reporters@,
                old(self).label()@,
            ),
    {
        self.running = true;
        self.load_monitor(saved);
        self.load_reporters(saved_reporters)
    }

    /// Leaves the running state; nothing else changes.
    pub fn stop(&mut self)
        ensures
            !final(self).is_running(),
            final(self).inv() == old(self).inv(),
            final(self).label() == old(self).label(),
            final(self).period() == old(self).period(),
            final(self).levels() == old(self).levels(),
            final(self).state() == old(self).state(),
            final(self).registered() == old(self).registered(),
            final(self).reporters() == old(self).reporters(),
            final(self).target() == old(self).target(),
            final(self).persists() == old(self).persists(),
    {
        self.running = false;
    }

    /// The wait from the end of a cycle that took `duration` microseconds
    /// to the start of the next, in microseconds. The timer is set to it
    /// when the cycle has ended, so that cycles start one interval apart,
    /// and at once after a cycle that took longer than the interval.
    pub fn next_wait(&self, duration: u64) -> (micros: u128)
        ensures
            micros == wait_micros(self.period(), duration),
    {
        let whole: u128 = (self.interval as u128) * MICROS_PER_SECOND;
        if whole >= duration as u128 {
            whole - duration as u128
        } else {
            0
        }
    }

    /// Decides what the scheduling loop does when its wait ends: whether a
    /// cycle is due. On the shutdown signal the loop stops and no further
    /// cycle starts. When the timer ran out, a cycle is due if the loop is
    /// running.
    pub fn wake(&mut self, by: Wake) -> (due: bool)
        ensures
            final(self).inv() == old(self).inv(),
            final(self).label() == old(self).label(),
            final(self).period() == old(self).period(),
            final(self).levels() == old(self).levels(),
            final(self).state() == old(self).state(),
            final(self).registered() == old(self).registered(),
            final(self).reporters() == old(self).reporters(),
            final(self).target() == old(self).target(),
            final(self).persists() == old(self).persists(),
            final(self).is_running() == (old(self).is_running() && by == Wake::Timer),
            due == final(self).is_running(),
    {
        match by {
            Wake::Cancelled => {
                self.stop();
                false
            },
            Wake::Timer => self.running,
        }
    }

    /// One cycle of the monitor, given what the probe produced and the time
    /// at which the run is taken to have started.
    ///
    /// A probe that could not be launched changes nothing and reaches no
    /// reporter. A completed run is counted: a failure may move the monitor up
    /// one tier, a success above the baseline may clear the alert, in which
    /// case the reporters of the tier that is left are told to clear, with
    /// the result not yet stamped, before the monitor returns to the
    /// baseline. The result is then stamped with the name of the tier
    /// arrived at and given to that tier's reporters. Last, each reporter is
    /// asked for its state, and the states to store are collected.
    pub fn run(&mut self, probe: Result<TargetOutput, String>, now: u64) -> (cycle: Cycle)
        requires
            old(self).wf(),
        ensures
            final(self).wf(),
            final(self).keeps_setup(old(self)),
            cycle.persist == old(self).persists(),
            cycle.state == final(self).state(),
            only_told_differ(
                old(self).reporters(),
                final(self).reporters(),
                old(self).registered(),
                texts(cycle.cleared@) + texts(cycle.reported@),
            ),
            state_views(cycle.reporter_states@) == records_of(
                old(self).label()@,
                old(self).registered(),
                snapshots(final(self).reporters()),
            ),
            match probe {
                Err(why) => {
                    &&& cycle.outcome == Err::<MonitorResult, String>(why)
                    &&& final(self).state() == old(self).state()
                    &&& final(self).reporters() == old(self).reporters()
                    &&& cycle.cleared@.len() == 0
                    &&& cycle.reported@.len() == 0
                },
                Ok(out) => {
                    let status = status_code(out.status);
                    let before = old(self).state();
                    let after = next_state(old(self).levels(), before, status);
                    &&& final(self).state() == after
                    &&& cycle.outcome matches Ok(result) && describes(
                        result,
                        old(self).label(),
                        old(self).target(),
                        out,
                        now,
                        old(self).levels()[after.level_index as int].name@,
                    ) && heard_in_cycle(
                        old(self).reporters(),
                        final(self).reporters(),
                        old(self).registered(),
                        texts(cycle.cleared@),
                        texts(cycle.reported@),
                        result@,
                    )
                    &&& texts(cycle.cleared@) == match cleared_tier(
                        old(self).levels(),
                        before,
                        status,
                    ) {
                        Some(tier) => dispatch_names(
                            old(self).listed(tier as int),
                            old(self).registered(),
                        ),
                        None => Seq::empty(),
                    }
                    &&& texts(cycle.reported@) == dispatch_names(
                        old(self).listed(
                            reported_tier(old(self).levels(), before, status) as int,
                        ),
                        old(self).registered(),
                    )
                },
            },
    {
        let ghost at_first = self.reporters();
        let ghost names = self.registered();
        let mut cleared: Vec<String> = Vec::new();
        let mut reported: Vec<String> = Vec::new();
        let outcome = match self.execute(probe, now) {
            Ok(mut result) => {
                let ghost bare = result@;
                if result.status != 0 {
                    self.incr_failure();
                    if self.levels[self.level_index].errors_to_escalate <= self.failure_tally {
                        self.escalate();
                    }
                } else {
                    let armed = self.level_index > 0;
                    self.incr_success();
                    if armed && self.levels[self.level_index].successes_to_clear
                        <= self.success_tally {
                        cleared = self.clear(&result);
                        self.reset_level();
                    }
                }
                let ghost midway = self.reporters();
                proof {
                    assert forall|i: int| 0 <= i < at_first.len() && i < names.len() implies (
                    #[trigger] midway[i]).heard() == at_first[i].heard() + repeated(
                        Heard::Cleared(bare),
                        times(texts(cleared@), names[i]),
                    ) by {
                        if texts(cleared@).len() == 0 {
                            assert(at_first[i].heard() + repeated(Heard::Cleared(bare), 0)
                                =~= at_first[i].heard());
                        }
                    }
                }
                result.level_name = self.levels[self.level_index].name.clone();
                reported = self.report(&result);
                proof {
                    assert(unstamped(result@) == bare);
                    let both = texts(cleared@) + texts(reported@);
                    assert forall|i: int|
                        0 <= i < midway.len() && i < names.len() && !both.contains(
                            names[i],
                        ) implies #[trigger] self.reporters()[i] == at_first[i] by {
                        if texts(cleared@).contains(names[i]) {
                            let w = choose|w: int|
                                0 <= w < texts(cleared@).len() && texts(cleared@)[w] == names[i];
                            assert(both[w] == names[i]);
                        }
                        if texts(reported@).contains(names[i]) {
                            let w = choose|w: int|
                                0 <= w < texts(reported@).len() && texts(reported@)[w]
                                    == names[i];
                            assert(both[texts(cleared@).len() + w] == names[i]);
                        }
                    }
                    assert forall|i: int| 0 <= i < at_first.len() && i < names.len() implies (
                    #[trigger] self.reporters()[i]).heard() == at_first[i].heard() + repeated(
                        Heard::Cleared(unstamped(result@)),
                        times(texts(cleared@), names[i]),
                    ) + repeated(Heard::Reported(result@), times(texts(reported@), names[i])) by {
                        assert(self.reporters()[i].heard() == midway[i].heard() + repeated(
                            Heard::Reported(result@),
                            times(texts(reported@), names[i]),
                        ));
                    }
                }
                Ok(result)
            },
            Err(why) => Err(why),
        };
        let state = self.save_monitor();
        let reporter_states = self.save_reporters();
        Cycle { outcome, cleared, reported, persist: self.has_db, state, reporter_states }
    }

    /// Counts a failure: the run of successes ends, the run of failures
    /// grows by one, up to the largest number that the tally holds.
    fn incr_failure(&mut self)
        ensures
            final(self).success_tally == 0,
            final(self).failure_tally == counted(old(self).failure_tally),
            final(self).level_index == old(self).level_index,
            final(self).inv() == old(self).inv(),
            final(self).keeps_setup(old(self)),
            final(self).reporters() == old(self).reporters(),
    {
        self.success_tally = 0;
        if self.failure_tally < u64::MAX {
            self.failure_tally += 1;
        }
    }

    /// Counts a success: the run of failures ends. At the baseline the run
    /// of successes is held at 1, so that it cannot grow without bound on a
    /// monitor that never fails. Above the baseline it grows by one, up to
    /// the largest number that the tally holds.
    fn incr_success(&mut self)
        ensures
            final(self).failure_tally == 0,
            final(self).success_tally == if old(self).level_index == 0 {
                1
            } else {
                counted(old(self).success_tally)
            },
            final(self).level_index == old(self).level_index,
            final(self).inv() == old(self).inv(),
            final(self).keeps_setup(old(self)),
            final(self).reporters() == old(self).reporters(),
    {
        self.failure_tally = 0;
        if self.level_index == 0 {
            self.success_tally = 1;
            return ;
        }
        if self.success_tally < u64::MAX {
            self.success_tally += 1;
        }
    }

    /// Moves to the next tier; on the last tier nothing changes.
    fn escalate(&mut self)
        requires
            old(self).wf(),
        ensures
            final(self).wf(),
            final(self).level_index == tier_above(old(self).levels(), old(self).level_index),
            final(self).failure_tally == old(self).failure_tally,
            final(self).success_tally == old(self).success_tally,
            final(self).keeps_setup(old(self)),
            final(self).reporters() == old(self).reporters(),
    {
        if self.level_index < self.levels.len() - 1 {
            self.level_index += 1;
        }
    }

    /// Returns to the baseline with both tallies at zero.
    fn reset_level(&mut self)
        requires
            old(self).wf(),
        ensures
            final(self).wf(),
            final(self).state() == (MonitorState {
                level_index: 0,
                failure_tally: 0,
                success_tally: 0,
            }),
            final(self).keeps_setup(old(self)),
            final(self).reporters() == old(self).reporters(),
    {
        self.level_index = 0;
        self.failure_tally = 0;
        self.success_tally = 0;
    }
}

} // verus!
