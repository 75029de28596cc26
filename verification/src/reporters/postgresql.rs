//! The relational-database channel: every result becomes one row.

use crate::monitor::MonitorResult;
use crate::reporters::util::{
    get_int_or_else, get_str_or_else, integer_setting, table_settings, text_setting, ConfigError,
    SettingView,
};
use vstd::prelude::*;

verus! {

/// The port of the database when none is configured.
pub const DEFAULT_PORT: i64 = 5432;

/// The number of connections when none is configured.
pub const DEFAULT_CONN_COUNT: i64 = 5;

/// The settings of the database channel.
#[derive(Debug)]
pub struct PostgresqlReporter {
    pub host: String,
    pub port: i16,
    pub user: String,
    pub password: String,
    pub db: String,
    pub conn_count: u32,
}

/// The configured form of a [`PostgresqlReporter`].
#[derive(Clone, Debug)]
pub struct PostgresqlReporterArgs {
    pub host: String,
    pub port: Option<i64>,
    pub user: String,
    pub password: String,
    pub db: String,
    pub conn_count: Option<i64>,
}

/// One result as the table of results stores it.
#[derive(Debug)]
pub struct ResultRow {
    pub name: String,
    pub level_name: String,
    pub start_time: i64,
    pub target: String,
    pub args: String,
    pub stdout: String,
    pub stderr: String,
    pub duration: i64,
    pub status: i32,
}

/// A database reporter as mathematics.
pub struct PostgresqlView {
    pub host: Seq<char>,
    pub port: i16,
    pub user: Seq<char>,
    pub password: Seq<char>,
    pub db: Seq<char>,
    pub conn_count: u32,
}

impl View for PostgresqlReporter {
    type V = PostgresqlView;

    open spec fn view(&self) -> PostgresqlView {
        PostgresqlView {
            host: self.host@,
            port: self.port,
            user: self.user@,
            password: self.password@,
            db: self.db@,
            conn_count: self.conn_count,
        }
    }
}

/// How the message for a number that does not fit its setting begins; the
/// reason that the conversion gave follows in brackets.
pub open spec fn conversion_refused() -> Seq<char> {
    "unable to convert config value to specified integer type ("@
}

/// A configured port as a port, if it is one.
pub open spec fn port_of(number: i64) -> Option<i16> {
    if i16::MIN <= number <= i16::MAX {
        Some(number as i16)
    } else {
        None
    }
}

/// A configured number of connections as a count, if it is one.
pub open spec fn count_of(number: i64) -> Option<u32> {
    if 0 <= number <= u32::MAX {
        Some(number as u32)
    } else {
        None
    }
}

/// Why settings give no reporter.
pub enum Refusal {
    /// A setting cannot be read; the message says why.
    Message(Seq<char>),
    /// A number does not fit its setting.
    NotInRange,
}

/// A setting that was read, or the refusal for its message.
pub open spec fn read_or_refuse<T>(read: Result<T, Seq<char>>) -> Result<T, Refusal> {
    match read {
        Ok(value) => Ok(value),
        Err(message) => Err(Refusal::Message(message)),
    }
}

/// A number that fits, or the refusal for one that does not.
pub open spec fn fit_or_refuse<T>(fit: Option<T>) -> Result<T, Refusal> {
    match fit {
        Some(value) => Ok(value),
        None => Err(Refusal::NotInRange),
    }
}

/// The reporter that the settings of a table give, or the refusal for the
/// first setting that cannot be read or does not fit: `host`, `port`,
/// `user`, `password`, `db`, `conn_count`, in this order.
pub open spec fn postgresql_settings(settings: Map<Seq<char>, SettingView>) -> Result<
    PostgresqlView,
    Refusal,
> {
    match read_or_refuse(text_setting(settings, "host"@, None)) {
        Err(refusal) => Err(refusal),
        Ok(host) => match read_or_refuse(integer_setting(settings, "port"@, Some(DEFAULT_PORT))) {
            Err(refusal) => Err(refusal),
            Ok(port_number) => match fit_or_refuse(port_of(port_number)) {
                Err(refusal) => Err(refusal),
                Ok(port) => match read_or_refuse(text_setting(settings, "user"@, None)) {
                    Err(refusal) => Err(refusal),
                    Ok(user) => match read_or_refuse(text_setting(settings, "password"@, None)) {
                        Err(refusal) => Err(refusal),
                        Ok(password) => match read_or_refuse(
                            text_setting(settings, "db"@, None),
                        ) {
                            Err(refusal) => Err(refusal),
                            Ok(db) => match read_or_refuse(
                                integer_setting(
                                    settings,
                                    "conn_count"@,
                                    Some(DEFAULT_CONN_COUNT),
                                ),
                            ) {
                                Err(refusal) => Err(refusal),
                                Ok(count_number) => match fit_or_refuse(count_of(count_number)) {
                                    Err(refusal) => Err(refusal),
                                    Ok(conn_count) => Ok(
                                        PostgresqlView {
                                            host,
                                            port,
                                            user,
                                            password,
                                            db,
                                            conn_count,
                                        },
                                    ),
                                },
                            },
                        },
                    },
                },
            },
        },
    }
}

/// What `built` says of a reporter to build.
pub open spec fn builds(built: Result<PostgresqlReporter, ConfigError>, expected: Result<
    PostgresqlView,
    Refusal,
>) -> bool {
    match expected {
        Ok(view) => built matches Ok(reporter) && reporter@ == view,
        Err(Refusal::Message(message)) => built matches Err(e) && e.message@ == message,
        Err(Refusal::NotInRange) => built matches Err(e) && conversion_refused().is_prefix_of(
            e.message@,
        ),
    }
}

/// The reporter that configured settings give.
pub open spec fn postgresql_args(args: PostgresqlReporterArgs) -> Result<PostgresqlView, Refusal> {
    match fit_or_refuse(
        port_of(
            match args.port {
                Some(number) => number,
                None => DEFAULT_PORT,
            },
        ),
    ) {
        Err(refusal) => Err(refusal),
        Ok(port) => match fit_or_refuse(
            count_of(
                match args.conn_count {
                    Some(number) => number,
                    None => DEFAULT_CONN_COUNT,
                },
            ),
        ) {
            Err(refusal) => Err(refusal),
            Ok(conn_count) => Ok(
                PostgresqlView {
                    host: args.host@,
                    port,
                    user: args.user@,
                    password: args.password@,
                    db: args.db@,
                    conn_count,
                },
            ),
        },
    }
}

/// The error of a number that does not fit its setting, with the reason
/// that the conversion gave.
fn range_error(reason: &str) -> (error: ConfigError)
    ensures
        conversion_refused().is_prefix_of(error.message@),
{
    let mut message = "unable to convert config value to specified integer type (".to_owned();
    message.append(reason);
    message.append(")");
    assert(conversion_refused().is_prefix_of(message@));
    ConfigError { message }
}

/// A configured port as a port, if it is one.
pub fn to_port(number: i64) -> (port: Result<i16, ConfigError>)
    ensures
        match port_of(number) {
            Some(p) => port == Ok::<i16, ConfigError>(p),
            None => port matches Err(e) && conversion_refused().is_prefix_of(e.message@),
        },
{
    match i16::try_from(number) {
        Ok(p) => Ok(p),
        Err(error) => {
            let reason = error.to_string();
            Err(range_error(reason.as_str()))
        },
    }
}

/// A configured number of connections as a count, if it is one.
pub fn to_count(number: i64) -> (count: Result<u32, ConfigError>)
    ensures
        match count_of(number) {
            Some(c) => count == Ok::<u32, ConfigError>(c),
            None => count matches Err(e) && conversion_refused().is_prefix_of(e.message@),
        },
{
    match u32::try_from(number) {
        Ok(c) => Ok(c),
        Err(error) => {
            let reason = error.to_string();
            Err(range_error(reason.as_str()))
        },
    }
}

impl PostgresqlReporterArgs {
    /// The reporter for these settings; the port defaults to 5432 and the
    /// number of connections to 5, and both must fit their settings.
    pub fn build(self) -> (built: Result<PostgresqlReporter, ConfigError>)
        ensures
            builds(built, postgresql_args(self)),
    {
        let port = match to_port(
            match self.port {
                Some(number) => number,
                None => DEFAULT_PORT,
            },
        ) {
            Ok(p) => p,
            Err(e) => {
                return Err(e);
            },
        };
        let conn_count = match to_count(
            match self.conn_count {
                Some(number) => number,
                None => DEFAULT_CONN_COUNT,
            },
        ) {
            Ok(c) => c,
            Err(e) => {
                return Err(e);
            },
        };
        Ok(
            PostgresqlReporter {
                host: self.host,
                port,
                user: self.user,
                password: self.password,
                db: self.db,
                conn_count,
            },
        )
    }
}

impl PostgresqlReporter {
    /// Reads the reporter's settings from a table. `host`, `user`,
    /// `password` and `db` are required texts; `port` defaults to 5432 and
    /// `conn_count` to 5, and both must be integers that fit.
    pub fn from_toml(config: &toml::Table) -> (built: Result<PostgresqlReporter, ConfigError>)
        ensures
            builds(built, postgresql_settings(table_settings(*config))),
    {
        let host = match get_str_or_else(config, "host", None) {
            Ok(text) => text,
            Err(e) => {
                return Err(e);
            },
        };
        let port_number = match get_int_or_else(config, "port", Some(DEFAULT_PORT)) {
            Ok(number) => number,
            Err(e) => {
                return Err(e);
            },
        };
        let port = match to_port(port_number) {
            Ok(p) => p,
            Err(e) => {
                return Err(e);
            },
        };
        let user = match get_str_or_else(config, "user", None) {
            Ok(text) => text,
            Err(e) => {
                return Err(e);
            },
        };
        let password = match get_str_or_else(config, "password", None) {
            Ok(text) => text,
            Err(e) => {
                return Err(e);
            },
        };
        let db = match get_str_or_else(config, "db", None) {
            Ok(text) => text,
            Err(e) => {
                return Err(e);
            },
        };
        let count_number = match get_int_or_else(config, "conn_count", Some(DEFAULT_CONN_COUNT)) {
            Ok(number) => number,
            Err(e) => {
                return Err(e);
            },
        };
        let conn_count = match to_count(count_number) {
            Ok(c) => c,
            Err(e) => {
                return Err(e);
            },
        };
        Ok(PostgresqlReporter { host, port, user, password, db, conn_count })
    }

    /// The row to insert for a result. The start time and the duration must
    /// fit the signed integers of the table.
    pub fn row(output: &MonitorResult) -> (row: ResultRow)
        requires
            output.start_time <= i64::MAX,
            output.duration <= i64::MAX,
        ensures
            row.name@ == output.name@,
            row.level_name@ == output.level_name@,
            row.start_time == output.start_time,
            row.target@ == output.target@,
            row.args@ == output.args@,
            row.stdout@ == output.stdout@,
            row.stderr@ == output.stderr@,
            row.duration == output.duration,
            row.status == output.status,
    {
        ResultRow {
            name: output.name.clone(),
            level_name: output.level_name.clone(),
            start_time: output.start_time as i64,
            target: output.target.clone(),
            args: output.args.clone(),
            stdout: output.stdout.clone(),
            stderr: output.stderr.clone(),
            duration: output.duration as i64,
            status: output.status,
        }
    }
}

} // verus!
