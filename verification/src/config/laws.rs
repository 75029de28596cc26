//! What holds of every merged configuration.

use crate::config::{
    empty_config, merge_monitors, merged, name_before, overlaid, overlaid_all, overlaid_file,
    overlay_order, overlay_order_is_sorted, without_name, ConfigFile, ConfigView,
};
use crate::monitor::MonitorArgs;
use vstd::prelude::*;

verus! {

/// No two monitors of the list go by the same name.
pub open spec fn unique_names(list: Seq<MonitorArgs>) -> bool {
    forall|i: int, j: int| 0 <= i < j < list.len() ==> list[i].name@ != list[j].name@
}

/// The configuration has a monitor list, and no two of its monitors go by
/// the same name.
pub open spec fn monitors_unique(config: ConfigView) -> bool {
    config.monitor matches Some(list) && unique_names(list)
}

/// The position of the last file of `order` that `sets` singles out, or -1
/// if there is none.
pub open spec fn last_setter(order: Seq<ConfigFile>, sets: spec_fn(ConfigFile) -> bool) -> int
    decreases order.len(),
{
    if order.len() == 0 {
        -1
    } else if sets(order.last()) {
        order.len() - 1
    } else {
        last_setter(order.drop_last(), sets)
    }
}

/// A part of a configuration, read by `read`, is decided file by file: a
/// file that `sets` singles out gives it the value `value` of the file,
/// whatever it was, and any other file leaves it as it is.
pub open spec fn decided_by<T>(
    read: spec_fn(ConfigView) -> T,
    sets: spec_fn(ConfigFile) -> bool,
    value: spec_fn(ConfigFile) -> T,
) -> bool {
    forall|base: ConfigView, file: ConfigFile| #[trigger]
        read(overlaid_file(base, file)) == if sets(file) {
            value(file)
        } else {
            read(base)
        }
}

/// The monitors of `list` that go by `name`.
pub open spec fn named(list: Seq<MonitorArgs>, name: Seq<char>) -> Seq<MonitorArgs> {
    list.filter(|m: MonitorArgs| m.name@ == name)
}

/// The monitors of a configuration that go by `name`.
pub open spec fn monitors_named(config: ConfigView, name: Seq<char>) -> Seq<MonitorArgs> {
    match config.monitor {
        Some(list) => named(list, name),
        None => Seq::empty(),
    }
}

/// The file defines a monitor that goes by `name`.
pub open spec fn defines(file: ConfigFile, name: Seq<char>) -> bool {
    file.config matches Some(config) && monitors_named(config@, name).len() > 0
}

/// The monitor by which a file that defines `name` is heard: the last of
/// its monitors of that name.
pub open spec fn definition(file: ConfigFile, name: Seq<char>) -> Seq<MonitorArgs> {
    seq![monitors_named(file.config->0@, name).last()]
}

/// Removing the monitors of a name leaves monitors of the list, none of
/// that name, and no two of one name if the list had no such two.
pub proof fn without_name_keeps_unique(list: Seq<MonitorArgs>, name: Seq<char>)
    ensures
        unique_names(list) ==> unique_names(without_name(list, name)),
        forall|k: int|
            0 <= k < without_name(list, name).len() ==> (#[trigger] without_name(
                list,
                name,
            )[k]).name@ != name && list.contains(without_name(list, name)[k]),
    decreases list.len(),
{
    reveal(Seq::filter);
    if list.len() > 0 {
        let shorter = list.drop_last();
        without_name_keeps_unique(shorter, name);
        let rest = without_name(shorter, name);
        let kept = without_name(list, name);
        assert forall|k: int| 0 <= k < kept.len() implies (#[trigger] kept[k]).name@ != name
            && list.contains(kept[k]) by {
            if k < rest.len() {
                assert(kept[k] == rest[k]);
                let at = choose|at: int| 0 <= at < shorter.len() && shorter[at] == rest[k];
                assert(list[at] == kept[k]);
            } else {
                assert(kept[k] == list.last());
                assert(list[list.len() - 1] == kept[k]);
            }
        }
        if unique_names(list) {
            assert(unique_names(shorter)) by {
                assert forall|i: int, j: int| 0 <= i < j < shorter.len() implies shorter[i].name@
                    != shorter[j].name@ by {
                    assert(shorter[i] == list[i] && shorter[j] == list[j]);
                }
            }
            assert forall|i: int, j: int| 0 <= i < j < kept.len() implies kept[i].name@
                != kept[j].name@ by {
                if j < rest.len() {
                    assert(kept[i] == rest[i] && kept[j] == rest[j]);
                } else {
                    assert(kept[j] == list.last());
                    assert(kept[i] == rest[i]);
                    let at = choose|at: int| 0 <= at < shorter.len() && shorter[at] == rest[i];
                    assert(list[at] == kept[i]);
                }
            }
        }
    }
}

/// Merging monitors by name into a list without two monitors of one name
/// gives such a list.
pub proof fn merge_keeps_unique(base: Seq<MonitorArgs>, over: Seq<MonitorArgs>)
    requires
        unique_names(base),
    ensures
        unique_names(merge_monitors(base, over)),
    decreases over.len(),
{
    if over.len() > 0 {
        merge_keeps_unique(base, over.drop_last());
        let before = merge_monitors(base, over.drop_last());
        let name = over.last().name@;
        without_name_keeps_unique(before, name);
        let kept = without_name(before, name);
        let after = kept.push(over.last());
        assert forall|i: int, j: int| 0 <= i < j < after.len() implies after[i].name@
            != after[j].name@ by {
            assert(after[i] == kept[i]);
            if j < kept.len() {
                assert(after[j] == kept[j]);
            }
        }
    }
}

/// Laying a configuration over one whose monitors have unique names gives
/// one whose monitors have unique names.
pub proof fn overlay_keeps_unique(base: ConfigView, over: ConfigView)
    requires
        monitors_unique(base),
    ensures
        monitors_unique(overlaid(base, over)),
{
    if over.monitor is Some {
        merge_keeps_unique(base.monitor->0, over.monitor->0);
    }
}

/// Laying files over a configuration whose monitors have unique names gives
/// one whose monitors have unique names.
pub proof fn overlay_all_keeps_unique(base: ConfigView, files: Seq<ConfigFile>)
    requires
        monitors_unique(base),
    ensures
        monitors_unique(overlaid_all(base, files)),
    decreases files.len(),
{
    if files.len() > 0 {
        if files[0].config is Some {
            overlay_keeps_unique(base, files[0].config->0@);
        }
        overlay_all_keeps_unique(overlaid_file(base, files[0]), files.drop_first());
    }
}

/// The monitors of a merged directory are unique by name, whatever the
/// files hold.
pub proof fn merged_monitors_are_unique(files: Seq<ConfigFile>)
    ensures
        monitors_unique(merged(files)),
{
    overlay_all_keeps_unique(empty_config(), overlay_order(files));
}

/// Laying files over a configuration one after the other is laying the
/// last file over what the others give.
pub proof fn overlaid_all_ends_with_last(base: ConfigView, order: Seq<ConfigFile>)
    requires
        order.len() > 0,
    ensures
        overlaid_all(base, order) == overlaid_file(
            overlaid_all(base, order.drop_last()),
            order.last(),
        ),
    decreases order.len(),
{
    if order.len() == 1 {
        assert(order.drop_first().len() == 0);
        assert(order.drop_last().len() == 0);
    } else {
        let first = overlaid_file(base, order[0]);
        overlaid_all_ends_with_last(first, order.drop_first());
        assert(order.drop_first().drop_last() =~= order.drop_last().drop_first());
        assert(order.drop_last()[0] == order[0]);
    }
}

/// A part that is decided file by file is decided by the last file of
/// those laid over that sets it, and is left as it was if none does.
pub proof fn last_setter_decides<T>(
    base: ConfigView,
    order: Seq<ConfigFile>,
    read: spec_fn(ConfigView) -> T,
    sets: spec_fn(ConfigFile) -> bool,
    value: spec_fn(ConfigFile) -> T,
)
    requires
        decided_by(read, sets, value),
    ensures
        -1 <= last_setter(order, sets) < order.len(),
        last_setter(order, sets) >= 0 ==> sets(order[last_setter(order, sets)]) && read(
            overlaid_all(base, order),
        ) == value(order[last_setter(order, sets)]),
        last_setter(order, sets) < 0 ==> read(overlaid_all(base, order)) == read(base),
        forall|q: int| last_setter(order, sets) < q < order.len() ==> !sets(order[q]),
    decreases order.len(),
{
    if order.len() > 0 {
        overlaid_all_ends_with_last(base, order);
        last_setter_decides(base, order.drop_last(), read, sets, value);
        let before = overlaid_all(base, order.drop_last());
        assert(read(overlaid_file(before, order.last())) == if sets(order.last()) {
            value(order.last())
        } else {
            read(before)
        });
        if !sets(order.last()) {
            assert forall|q: int| last_setter(order, sets) < q < order.len() implies !sets(
                order[q],
            ) by {
                if q < order.len() - 1 {
                    assert(order[q] == order.drop_last()[q]);
                }
            }
        }
    }
}

/// The file whose name sorts first decides. For a part of the
/// configuration that is decided file by file: if a file sets the part and
/// its name sorts before the name of every other file that sets it, the
/// merged configuration has the part as that file gives it.
pub proof fn first_name_decides<T>(
    files: Seq<ConfigFile>,
    i: int,
    read: spec_fn(ConfigView) -> T,
    sets: spec_fn(ConfigFile) -> bool,
    value: spec_fn(ConfigFile) -> T,
)
    requires
        decided_by(read, sets, value),
        0 <= i < files.len(),
        sets(files[i]),
        forall|j: int|
            0 <= j < files.len() && j != i && sets(#[trigger] files[j]) ==> name_before(
                files[i].name@,
                files[j].name@,
            ),
    ensures
        read(merged(files)) == value(files[i]),
{
    let order = overlay_order(files);
    overlay_order_is_sorted(files);
    last_setter_decides(empty_config(), order, read, sets, value);
    order.to_multiset_ensures();
    files.to_multiset_ensures();
    assert(files.contains(files[i]));
    assert(files.to_multiset().count(files[i]) > 0);
    assert(order.to_multiset().count(files[i]) > 0);
    assert(order.contains(files[i]));
    let at = choose|at: int| 0 <= at < order.len() && order[at] == files[i];
    let last = last_setter(order, sets);
    assert(last >= at);
    if order[last] != files[i] {
        assert(order.contains(order[last]));
        assert(order.to_multiset().count(order[last]) > 0);
        assert(files.to_multiset().count(order[last]) > 0);
        assert(files.contains(order[last]));
        let j = choose|j: int| 0 <= j < files.len() && files[j] == order[last];
        assert(sets(files[j]));
        assert(name_before(files[i].name@, files[j].name@));
        assert(at < last);
        assert(!name_before(order[at].name@, order[last].name@));
    }
}

/// Of the files that set the log level, the one whose name sorts first
/// gives the merged configuration its log level.
pub proof fn first_name_decides_log_level(files: Seq<ConfigFile>, i: int)
    requires
        0 <= i < files.len(),
        files[i].config matches Some(config) && config.log_level is Some,
        forall|j: int|
            0 <= j < files.len() && j != i && ((#[trigger] files[j]).config matches Some(config)
                && config.log_level is Some) ==> name_before(files[i].name@, files[j].name@),
    ensures
        merged(files).log_level == files[i].config->0.log_level,
{
    let read = |c: ConfigView| c.log_level;
    let sets = |f: ConfigFile| f.config matches Some(config) && config.log_level is Some;
    let value = |f: ConfigFile| f.config->0.log_level;
    assert(decided_by(read, sets, value));
    first_name_decides(files, i, read, sets, value);
}

/// Of the files that set the persistence toggle, the one whose name sorts
/// first gives the merged configuration its toggle.
pub proof fn first_name_decides_persistence(files: Seq<ConfigFile>, i: int)
    requires
        0 <= i < files.len(),
        files[i].config matches Some(config) && config.use_db_persistence is Some,
        forall|j: int|
            0 <= j < files.len() && j != i && ((#[trigger] files[j]).config matches Some(config)
                && config.use_db_persistence is Some) ==> name_before(
                files[i].name@,
                files[j].name@,
            ),
    ensures
        merged(files).use_db_persistence == files[i].config->0.use_db_persistence,
{
    let read = |c: ConfigView| c.use_db_persistence;
    let sets = |f: ConfigFile| f.config matches Some(config) && config.use_db_persistence is Some;
    let value = |f: ConfigFile| f.config->0.use_db_persistence;
    assert(decided_by(read, sets, value));
    first_name_decides(files, i, read, sets, value);
}

/// Of the files that have a section for a reporter, the one whose name
/// sorts first gives the merged configuration that section, as a whole:
/// stated for each of the four reporters under its own condition.
pub proof fn first_name_decides_reporters(files: Seq<ConfigFile>, i: int)
    requires
        0 <= i < files.len(),
        files[i].config is Some,
    ensures
        (files[i].config->0.splunk is Some && forall|j: int|
            0 <= j < files.len() && j != i && ((#[trigger] files[j]).config matches Some(config)
                && config.splunk is Some) ==> name_before(files[i].name@, files[j].name@))
            ==> merged(files).splunk == files[i].config->0.splunk,
        (files[i].config->0.slack is Some && forall|j: int|
            0 <= j < files.len() && j != i && ((#[trigger] files[j]).config matches Some(config)
                && config.slack is Some) ==> name_before(files[i].name@, files[j].name@))
            ==> merged(files).slack == files[i].config->0.slack,
        (files[i].config->0.pagerduty is Some && forall|j: int|
            0 <= j < files.len() && j != i && ((#[trigger] files[j]).config matches Some(config)
                && config.pagerduty is Some) ==> name_before(files[i].name@, files[j].name@))
            ==> merged(files).pagerduty == files[i].config->0.pagerduty,
        (files[i].config->0.postgresql is Some && forall|j: int|
            0 <= j < files.len() && j != i && ((#[trigger] files[j]).config matches Some(config)
                && config.postgresql is Some) ==> name_before(files[i].name@, files[j].name@))
            ==> merged(files).postgresql == files[i].config->0.postgresql,
{
    if files[i].config->0.splunk is Some && forall|j: int|
        0 <= j < files.len() && j != i && ((#[trigger] files[j]).config matches Some(config)
            && config.splunk is Some) ==> name_before(files[i].name@, files[j].name@) {
        let read = |c: ConfigView| c.splunk;
        let sets = |f: ConfigFile| f.config matches Some(config) && config.splunk is Some;
        let value = |f: ConfigFile| f.config->0.splunk;
        assert(decided_by(read, sets, value));
        first_name_decides(files, i, read, sets, value);
    }
    if files[i].config->0.slack is Some && forall|j: int|
        0 <= j < files.len() && j != i && ((#[trigger] files[j]).config matches Some(config)
            && config.slack is Some) ==> name_before(files[i].name@, files[j].name@) {
        let read = |c: ConfigView| c.slack;
        let sets = |f: ConfigFile| f.config matches Some(config) && config.slack is Some;
        let value = |f: ConfigFile| f.config->0.slack;
        assert(decided_by(read, sets, value));
        first_name_decides(files, i, read, sets, value);
    }
    if files[i].config->0.pagerduty is Some && forall|j: int|
        0 <= j < files.len() && j != i && ((#[trigger] files[j]).config matches Some(config)
            && config.pagerduty is Some) ==> name_before(files[i].name@, files[j].name@) {
        let read = |c: ConfigView| c.pagerduty;
        let sets = |f: ConfigFile| f.config matches Some(config) && config.pagerduty is Some;
        let value = |f: ConfigFile| f.config->0.pagerduty;
        assert(decided_by(read, sets, value));
        first_name_decides(files, i, read, sets, value);
    }
    if files[i].config->0.postgresql is Some && forall|j: int|
        0 <= j < files.len() && j != i && ((#[trigger] files[j]).config matches Some(config)
            && config.postgresql is Some) ==> name_before(files[i].name@, files[j].name@) {
        let read = |c: ConfigView| c.postgresql;
        let sets = |f: ConfigFile| f.config matches Some(config) && config.postgresql is Some;
        let value = |f: ConfigFile| f.config->0.postgresql;
        assert(decided_by(read, sets, value));
        first_name_decides(files, i, read, sets, value);
    }
}

/// Removing the monitors of one name removes all of that name and none of
/// another.
pub proof fn without_name_by_name(list: Seq<MonitorArgs>, removed: Seq<char>, name: Seq<char>)
    ensures
        named(without_name(list, removed), name) == if name == removed {
            Seq::empty()
        } else {
            named(list, name)
        },
    decreases list.len(),
{
    reveal(Seq::filter);
    if list.len() > 0 {
        without_name_by_name(list.drop_last(), removed, name);
        let rest = without_name(list.drop_last(), removed);
        if list.last().name@ != removed {
            assert(rest.push(list.last()).drop_last() == rest);
        }
    }
}

/// After a merge by name, the monitors of a name are the last monitor of
/// that name that was merged in, and those of the base if none was.
pub proof fn merge_by_name(base: Seq<MonitorArgs>, over: Seq<MonitorArgs>, name: Seq<char>)
    ensures
        named(merge_monitors(base, over), name) == if named(over, name).len() > 0 {
            seq![named(over, name).last()]
        } else {
            named(base, name)
        },
    decreases over.len(),
{
    reveal(Seq::filter);
    if over.len() > 0 {
        merge_by_name(base, over.drop_last(), name);
        let before = merge_monitors(base, over.drop_last());
        let kept = without_name(before, over.last().name@);
        without_name_by_name(before, over.last().name@, name);
        assert(kept.push(over.last()).drop_last() == kept);
        if over.last().name@ == name {
            assert(named(merge_monitors(base, over), name) =~= seq![over.last()]);
        }
    }
}

/// Of the files that define a monitor of a name, the one whose name sorts
/// first decides: the merged configuration has exactly one monitor of that
/// name, the last one of that name in that file.
pub proof fn first_name_decides_monitor(files: Seq<ConfigFile>, i: int, name: Seq<char>)
    requires
        0 <= i < files.len(),
        defines(files[i], name),
        forall|j: int|
            0 <= j < files.len() && j != i && defines(#[trigger] files[j], name) ==> name_before(
                files[i].name@,
                files[j].name@,
            ),
    ensures
        monitors_named(merged(files), name) == definition(files[i], name),
{
    let read = |c: ConfigView| monitors_named(c, name);
    let sets = |f: ConfigFile| defines(f, name);
    let value = |f: ConfigFile| definition(f, name);
    assert forall|base: ConfigView, file: ConfigFile| #[trigger]
        read(overlaid_file(base, file)) == if sets(file) {
            value(file)
        } else {
            read(base)
        } by {
        if file.config is Some && file.config->0@.monitor is Some {
            let own = match base.monitor {
                Some(list) => list,
                None => Seq::empty(),
            };
            merge_by_name(own, file.config->0@.monitor->0, name);
            if base.monitor is None {
                reveal(Seq::filter);
                assert(named(own, name) =~= Seq::<MonitorArgs>::empty());
            }
        }
    }
    first_name_decides(files, i, read, sets, value);
}

} // verus!
