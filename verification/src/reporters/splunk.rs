//! The log-indexing channel: every result becomes one event for the index.

use crate::monitor::MonitorResult;
use crate::reporters::util::{get_str_or_else, table_settings, text_setting, ConfigError, SettingView};
use vstd::prelude::*;

verus! {

/// The settings of the log-indexing channel: where events are posted, the
/// index they go to, and the token that authorises the post.
#[derive(Debug)]
pub struct SplunkReporter {
    pub endpoint: String,
    pub index: String,
    pub hec_token: String,
}

/// The configured form of a [`SplunkReporter`].
#[derive(Clone, Debug)]
pub struct SplunkReporterArgs {
    pub endpoint: String,
    pub index: String,
    pub hec_token: String,
}

/// One result as the index stores it.
#[derive(Debug)]
pub struct SplunkEvent {
    pub name: String,
    pub level: String,
    pub target: String,
    pub arguments: String,
    pub stdout: String,
    pub stderr: String,
    pub duration: u64,
    pub status: i32,
}

/// An event with its envelope.
#[derive(Debug)]
pub struct SplunkMsg {
    pub source: String,
    pub index: String,
    pub sourcetype: String,
    pub event: SplunkEvent,
}

/// The reporter that the settings of a table give, or the message of the
/// first setting that is missing or not a text: `endpoint`, `index` and
/// `hec_token`, in this order.
pub open spec fn splunk_settings(settings: Map<Seq<char>, SettingView>) -> Result<
    (Seq<char>, Seq<char>, Seq<char>),
    Seq<char>,
> {
    match text_setting(settings, "endpoint"@, None) {
        Err(message) => Err(message),
        Ok(endpoint) => match text_setting(settings, "index"@, None) {
            Err(message) => Err(message),
            Ok(index) => match text_setting(settings, "hec_token"@, None) {
                Err(message) => Err(message),
                Ok(hec_token) => Ok((endpoint, index, hec_token)),
            },
        },
    }
}

/// `msg` is the event for `output`, addressed to `index`.
pub open spec fn is_event_of(msg: SplunkMsg, index: Seq<char>, output: MonitorResult) -> bool {
    &&& msg.source@ == "Synthehol"@
    &&& msg.index@ == index
    &&& msg.sourcetype@ == "_json"@
    &&& msg.event.name@ == output.name@
    &&& msg.event.level@ == output.level_name@
    &&& msg.event.target@ == output.target@
    &&& msg.event.arguments@ == output.args@
    &&& msg.event.stdout@ == output.stdout@
    &&& msg.event.stderr@ == output.stderr@
    &&& msg.event.duration == output.duration
    &&& msg.event.status == output.status
}

impl SplunkReporterArgs {
    /// The reporter for these settings.
    pub fn build(self) -> (reporter: SplunkReporter)
        ensures
            reporter.endpoint == self.endpoint,
            reporter.index == self.index,
            reporter.hec_token == self.hec_token,
    {
        SplunkReporter { endpoint: self.endpoint, index: self.index, hec_token: self.hec_token }
    }
}

impl SplunkReporter {
    /// Reads the reporter's settings from a table. All three are required
    /// and must be texts.
    pub fn from_toml(config: &toml::Table) -> (built: Result<SplunkReporter, ConfigError>)
        ensures
            match splunk_settings(table_settings(*config)) {
                Ok(settings) => built matches Ok(reporter) && reporter.endpoint@ == settings.0
                    && reporter.index@ == settings.1 && reporter.hec_token@ == settings.2,
                Err(message) => built matches Err(e) && e.message@ == message,
            },
    {
        let endpoint = match get_str_or_else(config, "endpoint", None) {
            Ok(text) => text,
            Err(e) => {
                return Err(e);
            },
        };
        let index = match get_str_or_else(config, "index", None) {
            Ok(text) => text,
            Err(e) => {
                return Err(e);
            },
        };
        let hec_token = match get_str_or_else(config, "hec_token", None) {
            Ok(text) => text,
            Err(e) => {
                return Err(e);
            },
        };
        Ok(SplunkReporter { endpoint, index, hec_token })
    }

    /// The event to post for a result.
    pub fn format(&self, output: &MonitorResult) -> (msg: SplunkMsg)
        ensures
            is_event_of(msg, self.index@, *output),
    {
        let event = SplunkEvent {
            name: output.name.clone(),
            level: output.level_name.clone(),
            target: output.target.clone(),
            arguments: output.args.clone(),
            stdout: output.stdout.clone(),
            stderr: output.stderr.clone(),
            duration: output.duration,
            status: output.status,
        };
        SplunkMsg {
            source: "Synthehol".to_owned(),
            index: self.index.clone(),
            sourcetype: "_json".to_owned(),
            event,
        }
    }

    /// The value of the header that authorises a post.
    pub fn authorization(&self) -> (header: String)
        ensures
            header@ == "Splunk "@ + self.hec_token@,
    {
        let mut header = "Splunk ".to_owned();
        header.append(self.hec_token.as_str());
        header
    }
}

} // verus!
