//! The chat channel: results and clearings become messages for a webhook.

use crate::monitor::MonitorResult;
use crate::reporters::template::{
    check_template, compiles, fields_of, render_failure, render_result, renderable, rendered,
    root_key,
};
use crate::reporters::util::{table_get, table_settings, Setting, SettingView};
use vstd::prelude::*;

verus! {

/// The template of a report when none is configured.
pub const DEF_REPORT_TEMPLATE: &'static str =
    "*Monitor: {{res.name}} [level: {{res.level_name}}*] \n*command:* {{ res.target }} \n*args:* {{ res.args }} \n*stdout:* {{ res.stdout }} \n*stderr:* {{ res.stderr }} \n*result:*{{ res.status }} \n*duration:* {{ res.duration }} \u{ce}\u{bc}s";

/// The template of a clearing when none is configured.
pub const DEF_CLEAR_TEMPLATE: &'static str = "*Monitor: {{res.name}} returned to baseline*";

/// The settings of the chat channel: the webhook and the two templates.
#[derive(Debug)]
pub struct SlackReporter {
    pub webhook_url: String,
    pub report_tmpl: String,
    pub clear_tmpl: String,
}

/// The configured form of a [`SlackReporter`]; a template left out is
/// replaced by the built-in one.
#[derive(Clone, Debug)]
pub struct SlackReporterArgs {
    pub webhook_url: String,
    pub report_tmpl: Option<String>,
    pub clear_tmpl: Option<String>,
}

/// A block of text; `kind` says how the text is marked up.
#[derive(Debug)]
pub struct SlackTextBlock {
    pub kind: String,
    pub text: String,
}

/// A section of a message.
#[derive(Debug)]
pub struct SlackSectionBlock {
    pub kind: String,
    pub text: SlackTextBlock,
}

/// A message for the webhook.
#[derive(Debug)]
pub struct SlackMessage {
    pub blocks: Vec<SlackSectionBlock>,
}

/// The template that is used: the configured one, or the built-in one.
pub open spec fn template_or(configured: Option<String>, built_in: Seq<char>) -> Seq<char> {
    match configured {
        Some(text) => text@,
        None => built_in,
    }
}

/// `message` is one section of marked-up text that reads `body`.
pub open spec fn is_section_of(message: SlackMessage, body: Seq<char>) -> bool {
    &&& message.blocks@.len() == 1
    &&& message.blocks@[0].kind@ == "section"@
    &&& message.blocks@[0].text.kind@ == "mrkdwn"@
    &&& message.blocks@[0].text.text@ == body
}

/// What a failed rendering of a message is reported as.
pub open spec fn slack_failure() -> Seq<char> {
    "error rendering slack template "@
}

/// The message for a webhook setting that is not a text.
pub open spec fn no_webhook() -> Seq<char> {
    "missing Slack webhook_url config item"@
}

/// The message for a template setting that is not a text.
pub open spec fn no_template() -> Seq<char> {
    "parse to convert Slack template top string"@
}

/// How the message of a template that does not compile begins.
pub open spec fn template_refused() -> Seq<char> {
    "failed to register slack template ("@
}

/// The webhook and the report template that the settings of a table give,
/// or the message of the first of the two that is not a text. The template
/// defaults to the built-in one.
pub open spec fn slack_settings(settings: Map<Seq<char>, SettingView>) -> Result<
    (Seq<char>, Seq<char>),
    Seq<char>,
>
    recommends
        settings.contains_key("webhook_url"@),
{
    match settings["webhook_url"@] {
        SettingView::Text(webhook_url) => if settings.contains_key("template"@) {
            match settings["template"@] {
                SettingView::Text(template) => Ok((webhook_url, template)),
                _ => Err(no_template()),
            }
        } else {
            Ok((webhook_url, DEF_REPORT_TEMPLATE@))
        },
        _ => Err(no_webhook()),
    }
}

/// What `built` says of the reporter that the settings of a table give.
pub open spec fn builds_from(built: Result<SlackReporter, String>, settings: Map<
    Seq<char>,
    SettingView,
>) -> bool {
    match slack_settings(settings) {
        Err(message) => built matches Err(why) && why@ == message,
        Ok(found) => if compiles(found.1) && compiles(DEF_CLEAR_TEMPLATE@) {
            built matches Ok(reporter) && reporter.webhook_url@ == found.0
                && reporter.report_tmpl@ == found.1 && reporter.clear_tmpl@
                == DEF_CLEAR_TEMPLATE@
        } else {
            built matches Err(why) && template_refused().is_prefix_of(why@)
        },
    }
}

/// The chat reporter for the settings of a table, which may be without a
/// webhook: that is an error here.
pub fn initialize_slack(args: &toml::Table) -> (built: Result<SlackReporter, String>)
    ensures
        if table_settings(*args).contains_key("webhook_url"@) {
            builds_from(built, table_settings(*args))
        } else {
            built matches Err(why) && why@ == no_webhook()
        },
{
    match table_get(args, "webhook_url") {
        Some(_) => SlackReporter::from_toml(args),
        None => Err("missing Slack webhook_url config item".to_owned()),
    }
}

impl SlackReporterArgs {
    /// The reporter for these settings. Both templates must compile; the
    /// error is that of the report template if it does not, else that of
    /// the clear template.
    pub fn build(self) -> (built: Result<SlackReporter, upon::Error>)
        ensures
            built is Ok <==> compiles(template_or(self.report_tmpl, DEF_REPORT_TEMPLATE@))
                && compiles(template_or(self.clear_tmpl, DEF_CLEAR_TEMPLATE@)),
            built matches Ok(reporter) ==> {
                &&& reporter.webhook_url == self.webhook_url
                &&& reporter.report_tmpl@ == template_or(self.report_tmpl, DEF_REPORT_TEMPLATE@)
                &&& reporter.clear_tmpl@ == template_or(self.clear_tmpl, DEF_CLEAR_TEMPLATE@)
            },
    {
        let report_tmpl = match self.report_tmpl {
            Some(text) => text,
            None => DEF_REPORT_TEMPLATE.to_owned(),
        };
        let clear_tmpl = match self.clear_tmpl {
            Some(text) => text,
            None => DEF_CLEAR_TEMPLATE.to_owned(),
        };
        SlackReporter::initialize(self.webhook_url, report_tmpl, clear_tmpl)
    }
}

impl SlackReporter {
    /// The reporter with the given webhook and templates, once both
    /// templates are found to compile.
    pub fn initialize(webhook_url: String, report_tmpl: String, clear_tmpl: String) -> (built:
        Result<SlackReporter, upon::Error>)
        ensures
            built is Ok <==> compiles(report_tmpl@) && compiles(clear_tmpl@),
            built matches Ok(reporter) ==> reporter.webhook_url == webhook_url
                && reporter.report_tmpl == report_tmpl && reporter.clear_tmpl == clear_tmpl,
    {
        let report_checked = check_template(report_tmpl.as_str());
        let clear_checked = check_template(clear_tmpl.as_str());
        SlackReporter::assemble(webhook_url, report_tmpl, clear_tmpl, report_checked, clear_checked)
    }

    /// The reporter with the given webhook and templates, given what the
    /// check of each template found: the reporter if both passed, else the
    /// error of the first that did not.
    pub fn assemble(
        webhook_url: String,
        report_tmpl: String,
        clear_tmpl: String,
        report_checked: Result<(), upon::Error>,
        clear_checked: Result<(), upon::Error>,
    ) -> (built: Result<SlackReporter, upon::Error>)
        ensures
            match (report_checked, clear_checked) {
                (Err(error), _) => built == Err::<SlackReporter, upon::Error>(error),
                (Ok(_), Err(error)) => built == Err::<SlackReporter, upon::Error>(error),
                (Ok(_), Ok(_)) => built == Ok::<SlackReporter, upon::Error>(
                    SlackReporter { webhook_url, report_tmpl, clear_tmpl },
                ),
            },
    {
        match report_checked {
            Err(error) => Err(error),
            Ok(_) => match clear_checked {
                Err(error) => Err(error),
                Ok(_) => Ok(SlackReporter { webhook_url, report_tmpl, clear_tmpl }),
            },
        }
    }

    /// Reads the reporter's settings from a table that has a `webhook_url`,
    /// which must be a text. `template`, if it is there, must be a text and
    /// is the report template. Both templates must compile.
    pub fn from_toml(config: &toml::Table) -> (built: Result<SlackReporter, String>)
        requires
            table_settings(*config).contains_key("webhook_url"@),
        ensures
            builds_from(built, table_settings(*config)),
    {
        let webhook_url = match table_get(config, "webhook_url") {
            Some(Setting::Text(text)) => text,
            _ => {
                return Err("missing Slack webhook_url config item".to_owned());
            },
        };
        let report_tmpl = match table_get(config, "template") {
            Some(Setting::Text(text)) => text,
            Some(_) => {
                return Err("parse to convert Slack template top string".to_owned());
            },
            None => DEF_REPORT_TEMPLATE.to_owned(),
        };
        let clear_tmpl = DEF_CLEAR_TEMPLATE.to_owned();
        match SlackReporter::initialize(webhook_url, report_tmpl, clear_tmpl) {
            Ok(reporter) => Ok(reporter),
            Err(error) => {
                let reason = error.to_string();
                let mut why = render_failure("failed to register slack template (", reason.as_str());
                why.append(")");
                assert(template_refused().is_prefix_of(why@));
                Err(why)
            },
        }
    }

    /// The message that reads `body`.
    pub fn section(body: String) -> (message: SlackMessage)
        ensures
            is_section_of(message, body@),
    {
        let block = SlackSectionBlock {
            kind: "section".to_owned(),
            text: SlackTextBlock { kind: "mrkdwn".to_owned(), text: body },
        };
        let mut blocks: Vec<SlackSectionBlock> = Vec::new();
        blocks.push(block);
        SlackMessage { blocks }
    }

    /// The source of the template that goes by `template`.
    pub open spec fn source_of(&self, template: Seq<char>) -> Seq<char> {
        if template == "report"@ {
            self.report_tmpl@
        } else {
            self.clear_tmpl@
        }
    }

    /// The message for a result: the template named `template`, which is
    /// `report` or `clear`, rendered over the result, whose numbers must be
    /// within a template's integers.
    pub fn format(&self, template: &str, output: &MonitorResult) -> (message: Result<
        SlackMessage,
        String,
    >)
        requires
            template@ == "report"@ || template@ == "clear"@,
            renderable(*output),
        ensures
            match rendered(self.source_of(template@), root_key(), fields_of(*output)) {
                Some(body) => message matches Ok(built) && is_section_of(built, body),
                None => message matches Err(why) && slack_failure().is_prefix_of(why@),
            },
    {
        let source = if template.to_owned() == "report".to_owned() {
            &self.report_tmpl
        } else {
            &self.clear_tmpl
        };
        match render_result(source.as_str(), output, "error rendering slack template ") {
            Ok(body) => Ok(SlackReporter::section(body)),
            Err(why) => Err(why),
        }
    }
}

} // verus!
