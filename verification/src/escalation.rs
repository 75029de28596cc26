//! The escalation ladder as mathematics: what the cursor and the two tallies
//! become after a probe, and which reporters of a tier are reached.

use vstd::prelude::*;

verus! {

/// One rung of the ladder: how many failures move a monitor past it, how many
/// successes in a row bring a monitor back from it to the baseline, and the
/// reporters that are active on it.
#[derive(Debug)]
pub struct Level {
    pub name: String,
    pub errors_to_escalate: u64,
    pub successes_to_clear: u64,
    pub reporters: Vec<String>,
}

/// The configured form of a [`Level`]; a threshold left out counts as 1.
#[derive(Clone, Debug)]
pub struct LevelArgs {
    pub name: String,
    pub errors_to_escalate: Option<u64>,
    pub successes_to_clear: Option<u64>,
    pub reporters: Vec<String>,
}

/// The mutable part of a monitor: the cursor into its levels and the two
/// counters of consecutive outcomes. Tier 0 is the baseline.
#[derive(Clone, Copy, Debug, PartialEq, Eq, Structural)]
pub struct MonitorState {
    pub level_index: usize,
    pub failure_tally: u64,
    pub success_tally: u64,
}

/// The level that a configured level stands for.
pub open spec fn level_of(args: LevelArgs) -> Level {
    Level {
        name: args.name,
        errors_to_escalate: match args.errors_to_escalate {
            Some(n) => n,
            None => 1,
        },
        successes_to_clear: match args.successes_to_clear {
            Some(n) => n,
            None => 1,
        },
        reporters: args.reporters,
    }
}

/// The state has a tier to point at, among no more levels than a list can
/// hold.
pub open spec fn valid_state(levels: Seq<Level>, s: MonitorState) -> bool {
    s.level_index < levels.len() <= usize::MAX
}

/// A failure now would reach the escalation threshold of the current tier.
pub open spec fn escalates(levels: Seq<Level>, s: MonitorState) -> bool {
    s.failure_tally + 1 >= levels[s.level_index as int].errors_to_escalate
}

/// The tier above `i`, or `i` itself when it is the last one.
pub open spec fn tier_above(levels: Seq<Level>, i: usize) -> usize {
    if i + 1 < levels.len() {
        (i + 1) as usize
    } else {
        i
    }
}

/// A tally with one more counted; the largest number a tally can hold
/// stays as it is.
pub open spec fn counted(tally: u64) -> u64 {
    if tally < u64::MAX {
        (tally + 1) as u64
    } else {
        tally
    }
}

/// The state after a failed probe: the success tally is lost, the failure
/// tally grows by one, and the cursor moves up one tier when the tally has
/// reached the threshold of the tier it was on.
pub open spec fn after_failure(levels: Seq<Level>, s: MonitorState) -> MonitorState {
    MonitorState {
        level_index: if escalates(levels, s) {
            tier_above(levels, s.level_index)
        } else {
            s.level_index
        },
        failure_tally: counted(s.failure_tally),
        success_tally: 0,
    }
}

/// A success now would clear the alert: the monitor is above the baseline and
/// the success would reach the clearing threshold of its tier.
pub open spec fn clears(levels: Seq<Level>, s: MonitorState) -> bool {
    s.level_index > 0 && s.success_tally + 1 >= levels[s.level_index as int].successes_to_clear
}

/// The state after a successful probe. At the baseline the success tally is
/// held at 1. Above it the tally grows by one, and the whole state returns to
/// zero when the tally has reached the clearing threshold.
pub open spec fn after_success(levels: Seq<Level>, s: MonitorState) -> MonitorState {
    if s.level_index == 0 {
        MonitorState { level_index: 0, failure_tally: 0, success_tally: 1 }
    } else if clears(levels, s) {
        MonitorState { level_index: 0, failure_tally: 0, success_tally: 0 }
    } else {
        MonitorState {
            level_index: s.level_index,
            failure_tally: 0,
            success_tally: counted(s.success_tally),
        }
    }
}

/// The state after a completed probe that ended with `status`; 0 is success.
pub open spec fn next_state(levels: Seq<Level>, s: MonitorState, status: i32) -> MonitorState {
    if status != 0 {
        after_failure(levels, s)
    } else {
        after_success(levels, s)
    }
}

/// The tier whose reporters are told to clear by a completed probe that ended
/// with `status`, if the probe clears the alert: the tier that the monitor
/// is on before it returns to the baseline.
pub open spec fn cleared_tier(levels: Seq<Level>, s: MonitorState, status: i32) -> Option<usize> {
    if status == 0 && clears(levels, s) {
        Some(s.level_index)
    } else {
        None
    }
}

/// The tier whose reporters are given the result of a completed probe that
/// ended with `status`: the tier that the monitor arrives at.
pub open spec fn reported_tier(levels: Seq<Level>, s: MonitorState, status: i32) -> usize {
    next_state(levels, s, status).level_index
}

/// The state after `n` successful probes in a row.
pub open spec fn after_successes(levels: Seq<Level>, s: MonitorState, n: nat) -> MonitorState
    decreases n,
{
    if n == 0 {
        s
    } else {
        after_success(levels, after_successes(levels, s, (n - 1) as nat))
    }
}

/// The state after `n` failed probes in a row.
pub open spec fn after_failures(levels: Seq<Level>, s: MonitorState, n: nat) -> MonitorState
    decreases n,
{
    if n == 0 {
        s
    } else {
        after_failure(levels, after_failures(levels, s, (n - 1) as nat))
    }
}

/// A completed probe leaves the cursor on one of the levels.
pub proof fn next_state_is_valid(levels: Seq<Level>, s: MonitorState, status: i32)
    requires
        valid_state(levels, s),
    ensures
        valid_state(levels, next_state(levels, s, status)),
{
}

/// One success at the baseline, whatever the tallies were, leaves the
/// monitor at the baseline with no failure counted and one success counted,
/// and tells no reporter to clear.
pub proof fn baseline_success_pins_tally(levels: Seq<Level>, s: MonitorState)
    requires
        s.level_index == 0,
    ensures
        next_state(levels, s, 0) == (MonitorState {
            level_index: 0,
            failure_tally: 0,
            success_tally: 1,
        }),
        cleared_tier(levels, s, 0) is None,
{
}

/// Above the baseline a success that reaches the clearing threshold of the
/// tier returns the monitor to the baseline with both tallies at zero, and
/// tells the reporters of the tier that is left to clear.
pub proof fn success_at_threshold_clears(levels: Seq<Level>, s: MonitorState)
    requires
        valid_state(levels, s),
        s.level_index > 0,
        s.success_tally + 1 >= levels[s.level_index as int].successes_to_clear,
    ensures
        next_state(levels, s, 0) == (MonitorState {
            level_index: 0,
            failure_tally: 0,
            success_tally: 0,
        }),
        cleared_tier(levels, s, 0) == Some(s.level_index),
        reported_tier(levels, s, 0) == 0,
{
}

/// A failure that reaches the escalation threshold of the tier moves the
/// monitor one tier up, or leaves it on the last tier; it counts as one
/// more failure, ends the run of successes, is reported to the tier arrived
/// at and tells no reporter to clear.
pub proof fn failure_at_threshold_escalates(levels: Seq<Level>, s: MonitorState, status: i32)
    requires
        valid_state(levels, s),
        s.failure_tally + 1 >= levels[s.level_index as int].errors_to_escalate,
        status != 0,
    ensures
        next_state(levels, s, status) == (MonitorState {
            level_index: if s.level_index + 1 <= levels.len() - 1 {
                (s.level_index + 1) as usize
            } else {
                (levels.len() - 1) as usize
            },
            failure_tally: counted(s.failure_tally),
            success_tally: 0,
        }),
        reported_tier(levels, s, status) == next_state(levels, s, status).level_index,
        cleared_tier(levels, s, status) is None,
{
}

/// At the baseline the success tally never grows past 1: after any number of
/// successes in a row, and at least one, a monitor that was at the baseline
/// is at the baseline with no failure counted and one success counted, and
/// none of those successes tells a reporter to clear.
pub proof fn baseline_successes_hold_at_one(levels: Seq<Level>, s: MonitorState, n: nat)
    requires
        s.level_index == 0,
        n >= 1,
    ensures
        after_successes(levels, s, n) == (MonitorState {
            level_index: 0,
            failure_tally: 0,
            success_tally: 1,
        }),
        cleared_tier(levels, after_successes(levels, s, (n - 1) as nat), 0) is None,
    decreases n,
{
    if n > 1 {
        baseline_successes_hold_at_one(levels, s, (n - 1) as nat);
    }
}

/// Above the baseline, with no success counted yet, the tally of successes
/// in a row grows one by one below the clearing threshold of the tier, and
/// none of those successes tells a reporter to clear.
pub proof fn successes_below_threshold(levels: Seq<Level>, s: MonitorState, n: nat)
    requires
        valid_state(levels, s),
        s.level_index > 0,
        s.success_tally == 0,
        n < levels[s.level_index as int].successes_to_clear,
    ensures
        after_successes(levels, s, n) == (MonitorState {
            level_index: s.level_index,
            failure_tally: if n == 0 {
                s.failure_tally
            } else {
                0
            },
            success_tally: n as u64,
        }),
        n >= 1 ==> cleared_tier(levels, after_successes(levels, s, (n - 1) as nat), 0) is None,
    decreases n,
{
    if n > 0 {
        successes_below_threshold(levels, s, (n - 1) as nat);
    }
}

/// Above the baseline, as many successes in a row as the tier's clearing
/// threshold asks for return the monitor to the baseline with both tallies
/// at zero. Exactly one of them tells reporters to clear, the last one, and
/// it tells those of the tier that the monitor was on. The count starts from
/// a success tally of zero, as a failure leaves it, and the threshold is at
/// least 1.
pub proof fn successes_clear(levels: Seq<Level>, s: MonitorState)
    requires
        valid_state(levels, s),
        s.level_index > 0,
        s.success_tally == 0,
        levels[s.level_index as int].successes_to_clear >= 1,
    ensures
        ({
            let k = levels[s.level_index as int].successes_to_clear as nat;
            &&& after_successes(levels, s, k) == (MonitorState {
                level_index: 0,
                failure_tally: 0,
                success_tally: 0,
            })
            &&& cleared_tier(levels, after_successes(levels, s, (k - 1) as nat), 0) == Some(
                s.level_index,
            )
            &&& forall|m: nat|
                m < k - 1 ==> cleared_tier(levels, #[trigger] after_successes(levels, s, m), 0)
                    is None
        }),
{
    let k = levels[s.level_index as int].successes_to_clear as nat;
    successes_below_threshold(levels, s, (k - 1) as nat);
    assert forall|m: nat| m < k - 1 implies cleared_tier(
        levels,
        #[trigger] after_successes(levels, s, m),
        0,
    ) is None by {
        successes_below_threshold(levels, s, m + 1);
    }
}

/// With no failure counted yet, the tally of failures in a row grows one by
/// one below the escalation threshold of the tier, the monitor stays on its
/// tier, and each of those failures is reported to that tier.
pub proof fn failures_below_threshold(levels: Seq<Level>, s: MonitorState, n: nat, status: i32)
    requires
        valid_state(levels, s),
        s.failure_tally == 0,
        n < levels[s.level_index as int].errors_to_escalate,
        status != 0,
    ensures
        after_failures(levels, s, n) == (MonitorState {
            level_index: s.level_index,
            failure_tally: n as u64,
            success_tally: if n == 0 {
                s.success_tally
            } else {
                0
            },
        }),
        n >= 1 ==> reported_tier(levels, after_failures(levels, s, (n - 1) as nat), status)
            == s.level_index,
    decreases n,
{
    if n > 0 {
        failures_below_threshold(levels, s, (n - 1) as nat, status);
    }
}

/// As many failures in a row as the tier's escalation threshold asks for
/// move the monitor to the tier above, or leave it where it is on the last
/// tier. The failure that reaches the threshold is reported to the tier
/// arrived at, so not to the tier left unless that is the last one; the
/// failures before it are reported to the tier the monitor was on and tell
/// no reporter to clear. The count starts from a failure tally of zero, as a
/// success leaves it, and the threshold is at least 1.
pub proof fn failures_escalate(levels: Seq<Level>, s: MonitorState, status: i32)
    requires
        valid_state(levels, s),
        s.failure_tally == 0,
        levels[s.level_index as int].errors_to_escalate >= 1,
        status != 0,
    ensures
        ({
            let k = levels[s.level_index as int].errors_to_escalate as nat;
            let arrived = tier_above(levels, s.level_index);
            &&& after_failures(levels, s, k) == (MonitorState {
                level_index: arrived,
                failure_tally: k as u64,
                success_tally: 0,
            })
            &&& arrived == if s.level_index + 1 <= levels.len() - 1 {
                s.level_index + 1
            } else {
                levels.len() - 1
            }
            &&& reported_tier(levels, after_failures(levels, s, (k - 1) as nat), status)
                == arrived
            &&& s.level_index + 1 < levels.len() ==> arrived != s.level_index
            &&& forall|m: nat|
                m <= k - 1 ==> cleared_tier(levels, #[trigger] after_failures(levels, s, m), status)
                    is None
            &&& forall|m: nat|
                m < k - 1 ==> reported_tier(levels, #[trigger] after_failures(levels, s, m), status)
                    == s.level_index
        }),
{
    let k = levels[s.level_index as int].errors_to_escalate as nat;
    failures_below_threshold(levels, s, (k - 1) as nat, status);
    assert forall|m: nat| m < k - 1 implies reported_tier(
        levels,
        #[trigger] after_failures(levels, s, m),
        status,
    ) == s.level_index by {
        failures_below_threshold(levels, s, m + 1, status);
    }
}

/// On the last tier a failure leaves the cursor where it is, whatever the
/// tallies are, and is still reported to the reporters of that tier.
pub proof fn last_tier_failure_stays(levels: Seq<Level>, s: MonitorState, status: i32)
    requires
        valid_state(levels, s),
        s.level_index == levels.len() - 1,
        status != 0,
    ensures
        next_state(levels, s, status).level_index == s.level_index,
        reported_tier(levels, s, status) == s.level_index,
        cleared_tier(levels, s, status) is None,
{
}

/// The lower-case form of a text, as `str::to_lowercase` of the standard
/// library computes it.
pub uninterp spec fn lowercase(s: Seq<char>) -> Seq<char>;

/// `str::to_lowercase`: returns the lower-case form of `s` as a new string.
/// The contract only gives that result its name.
#[verifier::external_body]
pub(crate) fn to_lowercase(s: &str) -> (lower: String)
    ensures
        lower@ == lowercase(s@),
{
    s.to_lowercase()
}

/// The reporters that a dispatch to a tier reaches, in the order of the
/// tier's list: each listed name in lower case, as often as it is listed,
/// where a reporter is registered under that name.
pub open spec fn dispatch_names(listed: Seq<Seq<char>>, registered: Seq<Seq<char>>) -> Seq<
    Seq<char>,
>
    decreases listed.len(),
{
    if listed.len() == 0 {
        Seq::empty()
    } else {
        let before = dispatch_names(listed.drop_last(), registered);
        let key = lowercase(listed.last());
        if registered.contains(key) {
            before.push(key)
        } else {
            before
        }
    }
}

impl Level {
    /// Builds a level from its configured form; a missing threshold is 1.
    pub fn from_args(args: LevelArgs) -> (level: Level)
        ensures
            level == level_of(args),
    {
        Level {
            name: args.name,
            errors_to_escalate: match args.errors_to_escalate {
                Some(n) => n,
                None => 1,
            },
            successes_to_clear: match args.successes_to_clear {
                Some(n) => n,
                None => 1,
            },
            reporters: args.reporters,
        }
    }
}

} // verus!
