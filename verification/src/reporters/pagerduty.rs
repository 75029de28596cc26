//! The incident-paging channel: a failure opens or updates an incident, a
//! clearing resolves it. The key of the open incident is the reporter's
//! state.

use crate::monitor::MonitorResult;
use crate::reporters::template::{
    check_template, compiles, fields_of, render_result, renderable, rendered, root_key,
};
use crate::reporters::util::{get_str_or_else, table_settings, text_setting, ConfigError, SettingView};
use vstd::prelude::*;
use vstd::utf8::{decode_utf8, encode_utf8, valid_utf8};

verus! {

/// The template of an incident's summary when none is configured.
pub const DEF_REPORT_TEMPLATE: &'static str =
    "Monitor: {{res.name}} triggered [level: {{res.level_name}}] \ncommand: {{ res.target }} \nargs: {{ res.args }} \nresult: {{ res.status }} \nduration: {{ res.duration }} \u{ce}\u{bc}s";

/// The status of a response that accepts an event.
pub const ACCEPTED: u16 = 202;

/// The settings of the paging channel and the key of the incident that is
/// open, if one is.
#[derive(Debug)]
pub struct PagerdutyReporter {
    pub endpoint: String,
    pub routing_key: String,
    pub dedup_key: Option<String>,
    pub source: Option<String>,
    pub component: Option<String>,
    pub client: Option<String>,
    pub group: Option<String>,
    pub class: Option<String>,
    pub report_tmpl: String,
}

/// The configured form of a [`PagerdutyReporter`].
#[derive(Clone, Debug)]
pub struct PagerdutyReporterArgs {
    pub routing_key: String,
    pub endpoint: String,
    pub source: Option<String>,
    pub component: Option<String>,
    pub client: Option<String>,
    pub group: Option<String>,
    pub class: Option<String>,
    pub template: Option<String>,
}

/// How severe an incident is.
#[derive(Clone, Copy, Debug, PartialEq, Eq, Structural)]
pub enum Severity {
    Error,
}

/// What an event does to an incident.
#[derive(Clone, Copy, Debug, PartialEq, Eq, Structural)]
pub enum Action {
    Trigger,
    Resolve,
}

/// The description of an incident.
#[derive(Debug)]
pub struct PagerdutyPayload {
    pub summary: String,
    pub timestamp: Option<String>,
    pub severity: Severity,
    pub source: Option<String>,
    pub component: Option<String>,
    pub group: Option<String>,
    pub class: Option<String>,
}

/// An event for the paging service.
#[derive(Debug)]
pub struct PagerdutyMsg {
    pub payload: Option<PagerdutyPayload>,
    pub routing_key: String,
    pub event_action: Action,
    pub dedup_key: Option<String>,
    pub client: Option<String>,
}

/// What the paging service answers to an accepted event.
#[derive(Debug)]
pub struct PagerdutyResponse {
    pub dedup_key: Option<String>,
}

/// An optional text as mathematics.
pub open spec fn text_view(text: Option<String>) -> Option<Seq<char>> {
    match text {
        Some(t) => Some(t@),
        None => None,
    }
}

/// A paging reporter as mathematics.
pub struct PagerdutyView {
    pub endpoint: Seq<char>,
    pub routing_key: Seq<char>,
    pub dedup_key: Option<Seq<char>>,
    pub source: Option<Seq<char>>,
    pub component: Option<Seq<char>>,
    pub client: Option<Seq<char>>,
    pub group: Option<Seq<char>>,
    pub class: Option<Seq<char>>,
    pub report_tmpl: Seq<char>,
}

impl View for PagerdutyReporter {
    type V = PagerdutyView;

    open spec fn view(&self) -> PagerdutyView {
        PagerdutyView {
            endpoint: self.endpoint@,
            routing_key: self.routing_key@,
            dedup_key: text_view(self.dedup_key),
            source: text_view(self.source),
            component: text_view(self.component),
            client: text_view(self.client),
            group: text_view(self.group),
            class: text_view(self.class),
            report_tmpl: self.report_tmpl@,
        }
    }
}

/// The bytes that a reporter with the incident key `key` hands out as its
/// state: the key in UTF-8, and nothing without a key.
pub open spec fn kept_state(key: Option<Seq<char>>) -> Option<Seq<u8>> {
    match key {
        Some(text) => Some(encode_utf8(text)),
        None => None,
    }
}

/// The incident key that a reporter has after it was given `state` back:
/// the text that the bytes spell in UTF-8, and none if they spell none.
pub open spec fn restored_key(state: Seq<u8>) -> Option<Seq<char>> {
    if valid_utf8(state) {
        Some(decode_utf8(state))
    } else {
        None
    }
}

/// A reporter that was given `state` back.
pub open spec fn with_state(reporter: PagerdutyView, state: Seq<u8>) -> PagerdutyView {
    PagerdutyView { dedup_key: restored_key(state), ..reporter }
}

/// A state that a reporter handed out restores its incident key.
pub proof fn state_restores_key(key: Seq<char>)
    ensures
        restored_key(kept_state(Some(key))->0) == Some(key),
{
    vstd::utf8::encode_utf8_valid_utf8(key);
    vstd::utf8::encode_utf8_decode_utf8(key);
}

/// A reporter with the same settings as `before` that is given the state
/// which `before` handed out is the same as `before`: its events for any
/// result are the same, and so is the state it hands out.
pub proof fn restored_reporter_is_the_same(before: PagerdutyView, fresh: PagerdutyView)
    requires
        before.dedup_key is Some,
        fresh == (PagerdutyView { dedup_key: fresh.dedup_key, ..before }),
    ensures
        with_state(fresh, kept_state(before.dedup_key)->0) == before,
{
    state_restores_key(before.dedup_key->0);
}

/// An optional text setting of a table: the text under the key, or the
/// default, and none where the setting cannot be read.
pub open spec fn optional_setting(
    settings: Map<Seq<char>, SettingView>,
    field: Seq<char>,
    default: Option<Seq<char>>,
) -> Option<Seq<char>> {
    match text_setting(settings, field, default) {
        Ok(text) => Some(text),
        Err(_) => None,
    }
}

/// The reporter that the settings of a table give on a host named
/// `hostname`, as far as they decide; or the message of the first required
/// setting that cannot be read: `routing_key`, `endpoint`, `template`.
pub open spec fn pagerduty_settings(
    settings: Map<Seq<char>, SettingView>,
    hostname: Option<Seq<char>>,
) -> Result<PagerdutyView, Seq<char>> {
    match text_setting(settings, "routing_key"@, None) {
        Err(message) => Err(message),
        Ok(routing_key) => match text_setting(settings, "endpoint"@, None) {
            Err(message) => Err(message),
            Ok(endpoint) => match text_setting(
                settings,
                "template"@,
                Some(DEF_REPORT_TEMPLATE@),
            ) {
                Err(message) => Err(message),
                Ok(report_tmpl) => Ok(
                    PagerdutyView {
                        endpoint,
                        routing_key,
                        dedup_key: None,
                        source: optional_setting(settings, "source"@, hostname),
                        component: optional_setting(settings, "component"@, None),
                        client: optional_setting(settings, "client"@, None),
                        group: optional_setting(settings, "group"@, None),
                        class: optional_setting(settings, "class"@, None),
                        report_tmpl,
                    },
                ),
            },
        },
    }
}

/// What a failed rendering of a summary is reported as.
pub open spec fn pagerduty_failure() -> Seq<char> {
    "error rendering pagerduty template "@
}

/// How the message of a template that does not compile begins.
pub open spec fn template_refused() -> Seq<char> {
    "failed to register pagerduty template ("@
}

/// How the message of a response that does not accept an event begins.
pub open spec fn response_refused() -> Seq<char> {
    "non-successful pagerduty response received ("@
}

/// `msg` is the event with which `reporter` does `action` to its incident,
/// summarised as `summary`.
pub open spec fn is_event_of(
    msg: PagerdutyMsg,
    reporter: PagerdutyView,
    action: Action,
    summary: Seq<char>,
) -> bool {
    &&& msg.payload matches Some(payload) && {
        &&& payload.summary@ == summary
        &&& payload.timestamp is None
        &&& payload.severity == Severity::Error
        &&& text_view(payload.source) == reporter.source
        &&& text_view(payload.component) == reporter.component
        &&& text_view(payload.group) == reporter.group
        &&& text_view(payload.class) == reporter.class
    }
    &&& msg.routing_key@ == reporter.routing_key
    &&& msg.event_action == action
    &&& text_view(msg.dedup_key) == reporter.dedup_key
    &&& text_view(msg.client) == reporter.client
}

/// What `event` says of the event for `output`: the event with the rendered
/// summary, or the failure of the rendering.
pub open spec fn formats(
    event: Result<PagerdutyMsg, String>,
    reporter: PagerdutyView,
    action: Action,
    output: MonitorResult,
) -> bool {
    match rendered(reporter.report_tmpl, root_key(), fields_of(output)) {
        Some(summary) => event matches Ok(msg) && is_event_of(msg, reporter, action, summary),
        None => event matches Err(why) && pagerduty_failure().is_prefix_of(why@),
    }
}

/// The host's name as `gethostname::gethostname` reports it, where it is
/// valid Unicode. It depends on the machine, so nothing is claimed of it.
#[verifier::external_body]
pub(crate) fn hostname() -> Option<String> {
    gethostname::gethostname().into_string().ok()
}

/// The error of bytes that are not a text: `std::string::FromUtf8Error`.
#[verifier::external_type_specification]
#[verifier::external_body]
pub struct ExFromUtf8Error(std::string::FromUtf8Error);

/// `String::from_utf8`: the text that the bytes spell in UTF-8, and an
/// error exactly where they are not valid UTF-8.
#[verifier::external_body]
pub(crate) fn text_from_utf8(bytes: Vec<u8>) -> (text: Result<String, std::string::FromUtf8Error>)
    ensures
        match text {
            Ok(t) => valid_utf8(bytes@) && t@ == decode_utf8(bytes@),
            Err(_) => !valid_utf8(bytes@),
        },
{
    String::from_utf8(bytes)
}

/// A copy of an optional text.
fn copy_text(text: &Option<String>) -> (copy: Option<String>)
    ensures
        text_view(copy) == text_view(*text),
{
    match text {
        Some(t) => Some(t.clone()),
        None => None,
    }
}

/// The text of an optional setting.
fn optional(read: Result<String, ConfigError>) -> (text: Option<String>)
    ensures
        text == match read {
            Ok(t) => Some(t),
            Err(_) => None,
        },
{
    match read {
        Ok(t) => Some(t),
        Err(_) => None,
    }
}

/// `parts` written one after the other.
fn concat3(first: &str, second: &str, third: &str) -> (text: String)
    ensures
        text@ == first@ + second@ + third@,
{
    let mut text = first.to_owned();
    text.append(second);
    text.append(third);
    text
}

/// What `built` says of the reporter for configured settings on a host
/// named `hostname`: the reporter, with no incident open, where the
/// template compiles, the configured one or else the built-in one; and
/// else an error that names the reason. The source is the configured one,
/// or else the host's name.
pub open spec fn builds_on(
    built: Result<PagerdutyReporter, ConfigError>,
    args: PagerdutyReporterArgs,
    hostname: Option<Seq<char>>,
) -> bool {
    let report_tmpl = match args.template {
        Some(text) => text@,
        None => DEF_REPORT_TEMPLATE@,
    };
    if compiles(report_tmpl) {
        built matches Ok(reporter) && reporter@ == (PagerdutyView {
            endpoint: args.endpoint@,
            routing_key: args.routing_key@,
            dedup_key: None,
            source: match args.source {
                Some(text) => Some(text@),
                None => hostname,
            },
            component: text_view(args.component),
            client: text_view(args.client),
            group: text_view(args.group),
            class: text_view(args.class),
            report_tmpl,
        })
    } else {
        built matches Err(e) && template_refused().is_prefix_of(e.message@)
    }
}

impl PagerdutyReporterArgs {
    /// The reporter for these settings on this host: see `build_on`, which
    /// is given the host's name where it has one that is valid Unicode.
    pub fn build(self) -> (built: Result<PagerdutyReporter, ConfigError>)
        ensures
            exists|hostname: Option<Seq<char>>| #[trigger] builds_on(built, self, hostname),
    {
        let name = hostname();
        let ghost seen = text_view(name);
        let built = self.build_on(name);
        assert(builds_on(built, self, seen));
        built
    }

    /// The reporter for these settings on a host named `hostname`, with no
    /// incident open. A source that is not configured is the host's name.
    /// The template, the configured one or else the built-in one, must
    /// compile.
    pub fn build_on(self, hostname: Option<String>) -> (built: Result<
        PagerdutyReporter,
        ConfigError,
    >)
        ensures
            builds_on(built, self, text_view(hostname)),
    {
        let source = match self.source {
            Some(text) => Some(text),
            None => hostname,
        };
        let report_tmpl = match self.template {
            Some(text) => text,
            None => DEF_REPORT_TEMPLATE.to_owned(),
        };
        let checked = check_template(report_tmpl.as_str());
        PagerdutyReporter::assemble(
            PagerdutyReporter {
                endpoint: self.endpoint,
                routing_key: self.routing_key,
                dedup_key: None,
                source,
                component: self.component,
                client: self.client,
                group: self.group,
                class: self.class,
                report_tmpl,
            },
            checked,
        )
    }
}

impl PagerdutyReporter {
    /// The reporter, given what the check of its template found: the
    /// reporter itself if the template compiles, else an error that names
    /// the reason.
    pub fn assemble(reporter: PagerdutyReporter, checked: Result<(), upon::Error>) -> (built:
        Result<PagerdutyReporter, ConfigError>)
        ensures
            match checked {
                Ok(_) => built == Ok::<PagerdutyReporter, ConfigError>(reporter),
                Err(_) => built matches Err(e) && template_refused().is_prefix_of(e.message@),
            },
    {
        match checked {
            Ok(_) => Ok(reporter),
            Err(error) => {
                let reason = error.to_string();
                let message = concat3("failed to register pagerduty template (", reason.as_str(), ")");
                assert(template_refused().is_prefix_of(message@));
                Err(ConfigError { message })
            },
        }
    }

    /// Reads the reporter's settings from a table, for a host named
    /// `hostname`. `routing_key` and `endpoint` are required. `template`
    /// defaults to the built-in template and `source` to the host's name;
    /// `group`, `class`, `component` and `client` may be left out, and one
    /// that is not a text counts as left out. The template must compile.
    pub fn from_settings(config: &toml::Table, hostname: Option<String>) -> (built: Result<
        PagerdutyReporter,
        ConfigError,
    >)
        ensures
            match pagerduty_settings(table_settings(*config), text_view(hostname)) {
                Err(message) => built matches Err(e) && e.message@ == message,
                Ok(expected) => if compiles(expected.report_tmpl) {
                    built matches Ok(reporter) && reporter@ == expected
                } else {
                    built matches Err(e) && template_refused().is_prefix_of(e.message@)
                },
            },
    {
        let routing_key = match get_str_or_else(config, "routing_key", None) {
            Ok(text) => text,
            Err(e) => {
                return Err(e);
            },
        };
        let endpoint = match get_str_or_else(config, "endpoint", None) {
            Ok(text) => text,
            Err(e) => {
                return Err(e);
            },
        };
        let group = optional(get_str_or_else(config, "group", None));
        let class = optional(get_str_or_else(config, "class", None));
        let component = optional(get_str_or_else(config, "component", None));
        let client = optional(get_str_or_else(config, "client", None));
        let source = match &hostname {
            Some(name) => optional(get_str_or_else(config, "source", Some(name.as_str()))),
            None => optional(get_str_or_else(config, "source", None)),
        };
        let report_tmpl = match get_str_or_else(config, "template", Some(DEF_REPORT_TEMPLATE)) {
            Ok(text) => text,
            Err(e) => {
                return Err(e);
            },
        };
        let checked = check_template(report_tmpl.as_str());
        PagerdutyReporter::assemble(
            PagerdutyReporter {
                endpoint,
                routing_key,
                dedup_key: None,
                source,
                component,
                client,
                group,
                class,
                report_tmpl,
            },
            checked,
        )
    }

    /// Reads the reporter's settings from a table on this host: see
    /// `from_settings`, which is given the host's name where it has one
    /// that is valid Unicode.
    pub fn from_toml(config: &toml::Table) -> (built: Result<PagerdutyReporter, ConfigError>)
        ensures
            exists|hostname: Option<Seq<char>>|
                match #[trigger] pagerduty_settings(table_settings(*config), hostname) {
                    Err(message) => built matches Err(e) && e.message@ == message,
                    Ok(expected) => if compiles(expected.report_tmpl) {
                        built matches Ok(reporter) && reporter@ == expected
                    } else {
                        built matches Err(e) && template_refused().is_prefix_of(e.message@)
                    },
                },
    {
        let name = hostname();
        let ghost seen = text_view(name);
        let built = PagerdutyReporter::from_settings(config, name);
        assert(match pagerduty_settings(table_settings(*config), seen) {
            Err(message) => built matches Err(e) && e.message@ == message,
            Ok(expected) => if compiles(expected.report_tmpl) {
                built matches Ok(reporter) && reporter@ == expected
            } else {
                built matches Err(e) && template_refused().is_prefix_of(e.message@)
            },
        });
        built
    }

    /// The event that does `action` to the incident, with the summary
    /// `summary`.
    pub fn event(&self, action: Action, summary: String) -> (msg: PagerdutyMsg)
        ensures
            is_event_of(msg, self@, action, summary@),
    {
        let payload = PagerdutyPayload {
            summary,
            timestamp: None,
            severity: Severity::Error,
            source: copy_text(&self.source),
            component: copy_text(&self.component),
            group: copy_text(&self.group),
            class: copy_text(&self.class),
        };
        PagerdutyMsg {
            payload: Some(payload),
            routing_key: self.routing_key.clone(),
            event_action: action,
            dedup_key: copy_text(&self.dedup_key),
            client: copy_text(&self.client),
        }
    }

    /// The event that triggers an incident for a result: the template
    /// rendered over the result is its summary.
    pub fn format(&self, output: &MonitorResult) -> (event: Result<PagerdutyMsg, String>)
        requires
            renderable(*output),
        ensures
            formats(event, self@, Action::Trigger, *output),
    {
        match render_result(
            self.report_tmpl.as_str(),
            output,
            "error rendering pagerduty template ",
        ) {
            Ok(summary) => Ok(self.event(Action::Trigger, summary)),
            Err(why) => Err(why),
        }
    }

    /// The event to send for a result to report: it triggers the incident.
    pub fn report_event(&self, output: &MonitorResult) -> (event: Result<PagerdutyMsg, String>)
        requires
            renderable(*output),
        ensures
            formats(event, self@, Action::Trigger, *output),
    {
        match self.format(output) {
            Ok(mut msg) => {
                msg.event_action = Action::Trigger;
                Ok(msg)
            },
            Err(why) => Err(why),
        }
    }

    /// The event to send for an alert to clear: it resolves the incident.
    pub fn clear_event(&self, output: &MonitorResult) -> (event: Result<PagerdutyMsg, String>)
        requires
            renderable(*output),
        ensures
            formats(event, self@, Action::Resolve, *output),
    {
        match self.format(output) {
            Ok(mut msg) => {
                msg.event_action = Action::Resolve;
                Ok(msg)
            },
            Err(why) => Err(why),
        }
    }

    /// Whether the service accepted an event: the body of the response if
    /// its status is 202, else an error that shows the body.
    pub fn check_response(status: u16, body: String) -> (accepted: Result<String, String>)
        ensures
            match accepted {
                Ok(text) => status == ACCEPTED && text == body,
                Err(why) => status != ACCEPTED && why@ == response_refused() + body@ + ")"@,
            },
    {
        if status != ACCEPTED {
            Err(concat3("non-successful pagerduty response received (", body.as_str(), ")"))
        } else {
            Ok(body)
        }
    }

    /// Takes note of the answer to a reported event: the incident's key is
    /// the one that the service named, or none.
    pub fn reported(&mut self, response: PagerdutyResponse)
        ensures
            final(self)@ == (PagerdutyView { dedup_key: text_view(response.dedup_key), ..old(self)@ }),
    {
        self.dedup_key = response.dedup_key;
    }

    /// Takes note that the incident was resolved: no incident is open.
    pub fn cleared(&mut self)
        ensures
            final(self)@ == (PagerdutyView { dedup_key: None, ..old(self)@ }),
    {
        self.dedup_key = None;
    }

    /// The state to keep across a restart: the key of the open incident.
    pub fn get_state(&self) -> (state: Option<Vec<u8>>)
        ensures
            match kept_state(self@.dedup_key) {
                Some(bytes) => state matches Some(got) && got@ == bytes,
                None => state is None,
            },
    {
        match &self.dedup_key {
            Some(key) => Some(key.as_str().as_bytes_vec()),
            None => None,
        }
    }

    /// Takes back a state from before a restart: the incident's key is the
    /// text that the bytes spell, and none if they spell none.
    pub fn load_state(&mut self, state: Vec<u8>)
        ensures
            final(self)@ == with_state(old(self)@, state@),
    {
        self.dedup_key = match text_from_utf8(state) {
            Ok(key) => Some(key),
            Err(_) => None,
        };
    }
}

} // verus!
