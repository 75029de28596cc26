//! The effective configuration: one file taken as it is, or the files of a
//! directory laid over each other.

pub mod laws;

use crate::monitor::MonitorArgs;
use crate::reporters::pagerduty::PagerdutyReporterArgs;
use crate::reporters::postgresql::PostgresqlReporterArgs;
use crate::reporters::slack::SlackReporterArgs;
use crate::reporters::splunk::SplunkReporterArgs;
use vstd::prelude::*;
use vstd::utf8::encode_utf8;

verus! {

/// A configuration document. Every section may be left out.
#[derive(Debug, Default)]
pub struct Config {
    pub log_level: Option<String>,
    pub use_db_persistence: Option<bool>,
    pub monitor: Option<Vec<MonitorArgs>>,
    pub splunk: Option<SplunkReporterArgs>,
    pub slack: Option<SlackReporterArgs>,
    pub pagerduty: Option<PagerdutyReporterArgs>,
    pub postgresql: Option<PostgresqlReporterArgs>,
}

/// A configuration as mathematics: the monitors as a sequence.
pub struct ConfigView {
    pub log_level: Option<String>,
    pub use_db_persistence: Option<bool>,
    pub monitor: Option<Seq<MonitorArgs>>,
    pub splunk: Option<SplunkReporterArgs>,
    pub slack: Option<SlackReporterArgs>,
    pub pagerduty: Option<PagerdutyReporterArgs>,
    pub postgresql: Option<PostgresqlReporterArgs>,
}

impl View for Config {
    type V = ConfigView;

    open spec fn view(&self) -> ConfigView {
        ConfigView {
            log_level: self.log_level,
            use_db_persistence: self.use_db_persistence,
            monitor: match self.monitor {
                Some(list) => Some(list@),
                None => None,
            },
            splunk: self.splunk,
            slack: self.slack,
            pagerduty: self.pagerduty,
            postgresql: self.postgresql,
        }
    }
}

/// One file of a configuration directory: its name and what was read from
/// it, `None` when it could not be read as a configuration.
#[derive(Debug)]
pub struct ConfigFile {
    pub name: String,
    pub config: Option<Config>,
}

/// What was found at the path that a configuration is to be read from.
#[derive(Debug)]
pub enum ConfigSource {
    /// A directory, with its files in any order.
    Directory(Vec<ConfigFile>),
    /// A single file, with what reading it gave.
    File(Result<Config, ConfigError>),
    /// Neither a file nor a directory.
    Neither,
}

/// The error of a file that could not be read.
#[verifier::external_type_specification]
#[verifier::external_body]
pub struct ExIoError(std::io::Error);

/// The error of a document that is not a configuration.
#[verifier::external_type_specification]
#[verifier::external_body]
pub struct ExTomlError(toml::de::Error);

/// Why no configuration could be produced.
#[derive(Debug)]
pub enum ConfigError {
    /// The path is neither a file nor a directory.
    InvalidPath(String),
    /// The file could not be read.
    Io(std::io::Error),
    /// The file's content is not a configuration.
    Toml(toml::de::Error),
}

/// How the text of a refused path begins.
pub open spec fn invalid_path_text() -> Seq<char> {
    "invalid config path provided ("@
}

/// How the text of a read error begins.
pub open spec fn io_text() -> Seq<char> {
    "IO error encountered ("@
}

/// How the text of a document error begins.
pub open spec fn toml_text() -> Seq<char> {
    "Toml error encountered ("@
}

/// `detail` between `opening` and a closing bracket.
fn bracketed(opening: &str, detail: &str) -> (text: String)
    ensures
        text@ == opening@ + detail@ + ")"@,
{
    let mut text = opening.to_owned();
    text.append(detail);
    text.append(")");
    text
}

impl ConfigError {
    /// The text to show for the error: what went wrong, then in brackets
    /// the path, or the reason that the system or the parser gave.
    pub fn to_text(&self) -> (text: String)
        ensures
            match self {
                ConfigError::InvalidPath(path) => text@ == invalid_path_text() + path@ + ")"@,
                ConfigError::Io(_) => io_text().is_prefix_of(text@) && text@.last() == ')',
                ConfigError::Toml(_) => toml_text().is_prefix_of(text@) && text@.last() == ')',
            },
    {
        proof {
            reveal_strlit(")");
        }
        match self {
            ConfigError::InvalidPath(path) => bracketed(
                "invalid config path provided (",
                path.as_str(),
            ),
            ConfigError::Io(error) => {
                let detail = error.to_string();
                let text = bracketed("IO error encountered (", detail.as_str());
                assert(io_text().is_prefix_of(text@));
                text
            },
            ConfigError::Toml(error) => {
                let detail = error.to_string();
                let text = bracketed("Toml error encountered (", detail.as_str());
                assert(toml_text().is_prefix_of(text@));
                text
            },
        }
    }
}

/// The configuration that nothing has been laid over yet: an empty list of
/// monitors and no other section.
pub open spec fn empty_config() -> ConfigView {
    ConfigView {
        log_level: None,
        use_db_persistence: None,
        monitor: Some(Seq::empty()),
        splunk: None,
        slack: None,
        pagerduty: None,
        postgresql: None,
    }
}

/// The monitors of `list` that do not go by `name`.
pub open spec fn without_name(list: Seq<MonitorArgs>, name: Seq<char>) -> Seq<MonitorArgs> {
    list.filter(|m: MonitorArgs| m.name@ != name)
}

/// The monitor list `base` with the monitors of `over` merged in by name,
/// one after the other: a monitor replaces those of its name and goes last.
pub open spec fn merge_monitors(base: Seq<MonitorArgs>, over: Seq<MonitorArgs>) -> Seq<MonitorArgs>
    decreases over.len(),
{
    if over.len() == 0 {
        base
    } else {
        without_name(merge_monitors(base, over.drop_last()), over.last().name@).push(over.last())
    }
}

/// `base` with `over` laid over it: a section that `over` has replaces the
/// section of `base` as a whole; the monitors are merged by name.
pub open spec fn overlaid(base: ConfigView, over: ConfigView) -> ConfigView {
    ConfigView {
        log_level: if over.log_level is Some {
            over.log_level
        } else {
            base.log_level
        },
        use_db_persistence: if over.use_db_persistence is Some {
            over.use_db_persistence
        } else {
            base.use_db_persistence
        },
        monitor: match over.monitor {
            Some(list) => Some(
                merge_monitors(
                    match base.monitor {
                        Some(own) => own,
                        None => Seq::empty(),
                    },
                    list,
                ),
            ),
            None => base.monitor,
        },
        splunk: if over.splunk is Some {
            over.splunk
        } else {
            base.splunk
        },
        slack: if over.slack is Some {
            over.slack
        } else {
            base.slack
        },
        pagerduty: if over.pagerduty is Some {
            over.pagerduty
        } else {
            base.pagerduty
        },
        postgresql: if over.postgresql is Some {
            over.postgresql
        } else {
            base.postgresql
        },
    }
}

/// `a` comes before `b` in the lexicographic order of bytes, looking only at
/// the bytes from position `from` on.
pub open spec fn bytes_before(a: Seq<u8>, b: Seq<u8>, from: int) -> bool
    decreases a.len() - from,
{
    if from < 0 || from >= b.len() {
        false
    } else if from >= a.len() {
        true
    } else if a[from] != b[from] {
        a[from] < b[from]
    } else {
        bytes_before(a, b, from + 1)
    }
}

/// The file name `a` sorts before the file name `b`: the lexicographic
/// order of their bytes.
pub open spec fn name_before(a: Seq<char>, b: Seq<char>) -> bool {
    bytes_before(encode_utf8(a), encode_utf8(b), 0)
}

/// The position of the file that is laid over first: one whose name sorts
/// after all others'; of two with the same name, the earlier.
pub open spec fn last_name_at(files: Seq<ConfigFile>) -> int
    decreases files.len(),
{
    if files.len() <= 1 {
        0
    } else {
        let at = last_name_at(files.drop_last());
        if name_before(files[at].name@, files.last().name@) {
            files.len() - 1
        } else {
            at
        }
    }
}

/// The files in the order in which they are laid over: from the name that
/// sorts last to the name that sorts first.
pub open spec fn overlay_order(files: Seq<ConfigFile>) -> Seq<ConfigFile>
    decreases files.len(),
    via overlay_order_ends
{
    if files.len() == 0 {
        Seq::empty()
    } else {
        let at = last_name_at(files);
        seq![files[at]] + overlay_order(files.remove(at))
    }
}

/// The position of the file that is laid over first is a position.
pub proof fn last_name_in_range(files: Seq<ConfigFile>)
    requires
        files.len() > 0,
    ensures
        0 <= last_name_at(files) < files.len(),
    decreases files.len(),
{
    if files.len() > 1 {
        last_name_in_range(files.drop_last());
    }
}

#[via_fn]
proof fn overlay_order_ends(files: Seq<ConfigFile>) {
    if files.len() > 0 {
        last_name_in_range(files);
    }
}

/// `base` with one file laid over it; a file that could not be read changes
/// nothing.
pub open spec fn overlaid_file(base: ConfigView, file: ConfigFile) -> ConfigView {
    match file.config {
        Some(config) => overlaid(base, config@),
        None => base,
    }
}

/// `base` with the files laid over it one after the other, so that a later
/// file takes precedence over an earlier one.
pub open spec fn overlaid_all(base: ConfigView, files: Seq<ConfigFile>) -> ConfigView
    decreases files.len(),
{
    if files.len() == 0 {
        base
    } else {
        overlaid_all(overlaid_file(base, files[0]), files.drop_first())
    }
}

/// The effective configuration of a directory: its files laid over the
/// empty configuration, the file whose name sorts first taking precedence.
pub open spec fn merged(files: Seq<ConfigFile>) -> ConfigView {
    overlaid_all(empty_config(), overlay_order(files))
}

/// The order of bytes is transitive.
pub proof fn bytes_before_transitive(a: Seq<u8>, b: Seq<u8>, c: Seq<u8>, from: int)
    requires
        bytes_before(a, b, from),
        bytes_before(b, c, from),
    ensures
        bytes_before(a, c, from),
    decreases a.len() - from,
{
    if from < a.len() && a[from] == b[from] && b[from] == c[from] {
        bytes_before_transitive(a, b, c, from + 1);
    }
}

/// No name sorts before itself.
pub proof fn bytes_before_irreflexive(a: Seq<u8>, from: int)
    ensures
        !bytes_before(a, a, from),
    decreases a.len() - from,
{
    if 0 <= from < a.len() {
        bytes_before_irreflexive(a, from + 1);
    }
}

/// The name of the file that is laid over first sorts before no other
/// file's name.
pub proof fn last_name_sorts_last(files: Seq<ConfigFile>, k: int)
    requires
        0 <= k < files.len(),
    ensures
        !name_before(files[last_name_at(files)].name@, files[k].name@),
    decreases files.len(),
{
    if files.len() <= 1 {
        bytes_before_irreflexive(encode_utf8(files[0].name@), 0);
    } else {
        let shorter = files.drop_last();
        let at = last_name_at(shorter);
        last_name_in_range(shorter);
        if k < files.len() - 1 {
            last_name_sorts_last(shorter, k);
            if name_before(files[at].name@, files.last().name@) && name_before(
                files.last().name@,
                files[k].name@,
            ) {
                bytes_before_transitive(
                    encode_utf8(files[at].name@),
                    encode_utf8(files.last().name@),
                    encode_utf8(files[k].name@),
                    0,
                );
            }
        } else {
            bytes_before_irreflexive(encode_utf8(files.last().name@), 0);
        }
    }
}

/// The order in which files are laid over is the files themselves, each as
/// often as it was given, sorted by name from last to first: no file is laid
/// over before a file whose name sorts after its own.
pub proof fn overlay_order_is_sorted(files: Seq<ConfigFile>)
    ensures
        overlay_order(files).to_multiset() == files.to_multiset(),
        overlay_order(files).len() == files.len(),
        forall|i: int, j: int|
            0 <= i < j < files.len() ==> !name_before(
                #[trigger] overlay_order(files)[i].name@,
                #[trigger] overlay_order(files)[j].name@,
            ),
    decreases files.len(),
{
    broadcast use vstd::seq_lib::to_multiset_remove, vstd::seq_lib::lemma_multiset_commutative;
    broadcast use vstd::multiset::group_multiset_axioms;

    let order = overlay_order(files);
    if files.len() == 0 {
        assert(order =~= files);
    } else {
        let at = last_name_at(files);
        last_name_in_range(files);
        let rest = files.remove(at);
        let tail = overlay_order(rest);
        overlay_order_is_sorted(rest);
        assert(order == seq![files[at]] + tail);
        assert(order =~= tail.insert(0, files[at]));
        vstd::seq_lib::to_multiset_insert(tail, 0, files[at]);
        files.to_multiset_ensures();
        assert(files.contains(files[at]));
        assert(files.to_multiset().count(files[at]) > 0);
        assert(order.to_multiset() =~= files.to_multiset());
        assert forall|i: int, j: int| 0 <= i < j < files.len() implies !name_before(
            #[trigger] order[i].name@,
            #[trigger] order[j].name@,
        ) by {
            if i == 0 {
                let later = tail[j - 1];
                tail.to_multiset_ensures();
                rest.to_multiset_ensures();
                assert(tail.contains(later));
                assert(tail.to_multiset().count(later) > 0);
                assert(rest.to_multiset().count(later) > 0);
                assert(rest.contains(later));
                let k = choose|k: int| 0 <= k < rest.len() && rest[k] == later;
                let position = if k < at {
                    k
                } else {
                    k + 1
                };
                assert(files[position] == later);
                last_name_sorts_last(files, position);
            } else {
                assert(order[i] == tail[i - 1]);
                assert(order[j] == tail[j - 1]);
            }
        }
    }
}

/// Whether the name `a` sorts before the name `b`.
pub fn sorts_before(a: &str, b: &str) -> (before: bool)
    ensures
        before == name_before(a@, b@),
{
    let x = a.as_bytes();
    let y = b.as_bytes();
    let mut i: usize = 0;
    while i < x.len() && i < y.len()
        invariant
            x@ == encode_utf8(a@),
            y@ == encode_utf8(b@),
            i <= x@.len(),
            i <= y@.len(),
            bytes_before(x@, y@, 0) == bytes_before(x@, y@, i as int),
        decreases x@.len() - i,
    {
        if x[i] != y[i] {
            return x[i] < y[i];
        }
        i += 1;
    }
    i < y.len()
}

/// The monitors of `list` that do not go by `name`, in their order.
fn remove_named(list: Vec<MonitorArgs>, name: &String) -> (kept: Vec<MonitorArgs>)
    ensures
        kept@ == without_name(list@, name@),
{
    let ghost all = list@;
    let mut kept: Vec<MonitorArgs> = Vec::new();
    for m in it: list
        invariant
            it.seq() == all,
            kept@ == without_name(all.take(it.index() as int), name@),
    {
        proof {
            let ghost keep = |m: MonitorArgs| m.name@ != name@;
            assert(all.take(it.index() + 1).drop_last() == all.take(it.index() as int));
            assert(all.take(it.index() + 1) == all.take(it.index() as int).push(m));
            all.take(it.index() as int).lemma_filter_push(m, keep);
        }
        if m.name != *name {
            kept.push(m);
        }
    }
    proof {
        assert(all.take(all.len() as int) == all);
    }
    kept
}

impl Config {
    /// The configuration that nothing has been laid over yet.
    pub fn new() -> (config: Config)
        ensures
            config@ == empty_config(),
    {
        Config {
            log_level: None,
            use_db_persistence: None,
            monitor: Some(Vec::new()),
            splunk: None,
            slack: None,
            pagerduty: None,
            postgresql: None,
        }
    }

    /// Lays `other` over this configuration. A section that `other` has
    /// replaces the section here as a whole. The monitors are merged by
    /// name: each monitor of `other`, in order, removes the monitors of its
    /// name and is put last.
    pub fn overlay(&mut self, other: Config)
        ensures
            final(self)@ == overlaid(old(self)@, other@),
    {
        if other.log_level.is_some() {
            self.log_level = other.log_level;
        }
        if other.use_db_persistence.is_some() {
            self.use_db_persistence = other.use_db_persistence;
        }
        if other.splunk.is_some() {
            self.splunk = other.splunk;
        }
        if other.slack.is_some() {
            self.slack = other.slack;
        }
        if other.pagerduty.is_some() {
            self.pagerduty = other.pagerduty;
        }
        if other.postgresql.is_some() {
            self.postgresql = other.postgresql;
        }
        if let Some(incoming) = other.monitor {
            let ghost base = match old(self).monitor {
                Some(own) => own@,
                None => Seq::empty(),
            };
            let ghost over = incoming@;
            let mut merged: Vec<MonitorArgs> = match self.monitor.take() {
                Some(own) => own,
                None => Vec::new(),
            };
            for m in it: incoming
                invariant
                    it.seq() == over,
                    merged@ == merge_monitors(base, over.take(it.index() as int)),
            {
                proof {
                    assert(over.take(it.index() + 1).drop_last() == over.take(it.index() as int));
                }
                merged = remove_named(merged, &m.name);
                merged.push(m);
            }
            proof {
                assert(over.take(over.len() as int) == over);
            }
            self.monitor = Some(merged);
        }
    }
}

/// The position of the file of `files` that is laid over first.
fn last_name(files: &Vec<ConfigFile>) -> (at: usize)
    requires
        files@.len() > 0,
    ensures
        at == last_name_at(files@),
        at < files@.len(),
{
    let mut at: usize = 0;
    let mut i: usize = 1;
    assert(files@.take(1).drop_last().len() == 0);
    while i < files.len()
        invariant
            1 <= i <= files@.len(),
            at < i,
            at == last_name_at(files@.take(i as int)),
        decreases files@.len() - i,
    {
        proof {
            assert(files@.take(i + 1).drop_last() == files@.take(i as int));
        }
        if sorts_before(files[at].name.as_str(), files[i].name.as_str()) {
            at = i;
        }
        i += 1;
    }
    proof {
        assert(files@.take(files@.len() as int) == files@);
    }
    at
}

/// The effective configuration of a directory. The files are laid over the
/// empty configuration from the name that sorts last to the name that sorts
/// first, so that of two files that set the same section the one whose name
/// sorts first decides; a file that could not be read is passed over.
pub fn merge_files(files: Vec<ConfigFile>) -> (config: Config)
    ensures
        config@ == merged(files@),
{
    let mut config = Config::new();
    let mut rest = files;
    while rest.len() > 0
        invariant
            overlaid_all(config@, overlay_order(rest@)) == merged(files@),
        decreases rest@.len(),
    {
        let at = last_name(&rest);
        let ghost before = rest@;
        let file = rest.remove(at);
        proof {
            assert(overlay_order(before).drop_first() =~= overlay_order(before.remove(at as int)));
        }
        if let Some(c) = file.config {
            config.overlay(c);
        }
    }
    config
}

/// The configuration at the path `p`, given what was found there. A
/// directory gives the merge of its files, a single file its content as it
/// is, without any merge. A file that could not be read, or whose content is
/// not a configuration, gives that error, and a path that is neither a file
/// nor a directory is refused.
pub fn parse_config(p: &str, found: ConfigSource) -> (parsed: Result<Config, ConfigError>)
    ensures
        match found {
            ConfigSource::Directory(files) => parsed matches Ok(config) && config@ == merged(
                files@,
            ),
            ConfigSource::File(read) => parsed == read,
            ConfigSource::Neither => parsed matches Err(ConfigError::InvalidPath(path))
                && path@ == p@,
        },
{
    match found {
        ConfigSource::Directory(files) => Ok(merge_files(files)),
        ConfigSource::File(read) => read,
        ConfigSource::Neither => Err(ConfigError::InvalidPath(p.to_owned())),
    }
}

} // verus!
