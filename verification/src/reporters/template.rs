//! Message templates: a result's fields as a template sees them, and the
//! rendering of a template over them.

use crate::monitor::MonitorResult;
use std::collections::BTreeMap;
use vstd::prelude::*;

verus! {

/// The error of a template that does not compile or does not render:
/// `upon::Error`.
#[verifier::external_type_specification]
#[verifier::external_body]
pub struct ExUponError(upon::Error);

/// A value that a template can show.
#[derive(Debug)]
pub enum TemplateValue {
    Text(String),
    Integer(i64),
}

/// A named value; a template reaches it by its key.
#[derive(Debug)]
pub struct TemplateField {
    pub key: String,
    pub value: TemplateValue,
}

/// A template value as mathematics.
pub enum TemplateValueView {
    Text(Seq<char>),
    Integer(i64),
}

/// A named value as mathematics.
pub struct TemplateFieldView {
    pub key: Seq<char>,
    pub value: TemplateValueView,
}

impl View for TemplateValue {
    type V = TemplateValueView;

    open spec fn view(&self) -> TemplateValueView {
        match self {
            TemplateValue::Text(text) => TemplateValueView::Text(text@),
            TemplateValue::Integer(number) => TemplateValueView::Integer(*number),
        }
    }
}

impl View for TemplateField {
    type V = TemplateFieldView;

    open spec fn view(&self) -> TemplateFieldView {
        TemplateFieldView { key: self.key@, value: self.value@ }
    }
}

/// The views of a list of fields.
pub open spec fn field_views(fields: Seq<TemplateField>) -> Seq<TemplateFieldView> {
    fields.map_values(|f: TemplateField| f@)
}

/// A text field.
pub open spec fn text_field(key: Seq<char>, text: Seq<char>) -> TemplateFieldView {
    TemplateFieldView { key, value: TemplateValueView::Text(text) }
}

/// An integer field.
pub open spec fn integer_field(key: Seq<char>, number: int) -> TemplateFieldView {
    TemplateFieldView { key, value: TemplateValueView::Integer(number as i64) }
}

/// A template can hold the numbers of the result: the start time and the
/// duration are within its integers.
pub open spec fn renderable(output: MonitorResult) -> bool {
    output.start_time <= i64::MAX && output.duration <= i64::MAX
}

/// The fields of a result as a template sees them.
pub open spec fn fields_of(output: MonitorResult) -> Seq<TemplateFieldView>
    recommends
        renderable(output),
{
    seq![
        text_field("name"@, output.name@),
        text_field("level_name"@, output.level_name@),
        integer_field("start_time"@, output.start_time as int),
        text_field("target"@, output.target@),
        text_field("args"@, output.args@),
        text_field("stdout"@, output.stdout@),
        text_field("stderr"@, output.stderr@),
        integer_field("duration"@, output.duration as int),
        integer_field("status"@, output.status as int),
    ]
}

/// The key under which a template finds the fields of a result.
pub open spec fn root_key() -> Seq<char> {
    "res"@
}

/// Whether a template source compiles with the default syntax of `upon`.
pub uninterp spec fn compiles(source: Seq<char>) -> bool;

/// The text that `upon` renders from a template source, with the default
/// syntax and formatter, over the map that holds `fields` under the key
/// `root`; `None` when the source does not compile or the rendering fails.
pub uninterp spec fn rendered(source: Seq<char>, root: Seq<char>, fields: Seq<TemplateFieldView>) -> Option<
    Seq<char>,
>;

/// `upon::Engine::compile` on a new engine: whether the source compiles. The
/// contract only gives the answer its name.
#[verifier::external_body]
pub(crate) fn check_template(source: &str) -> (checked: Result<(), upon::Error>)
    ensures
        checked is Ok <==> compiles(source@),
{
    upon::Engine::new().compile(source).map(|_| ())
}

/// `upon::Template::render_from` and `upon::Renderer::to_string`, on the
/// source compiled by a new engine: the rendering of the source over the map
/// that holds the fields under `root`. The contract only gives the result
/// its name.
#[verifier::external_body]
pub(crate) fn render_template(source: &str, root: &str, fields: Vec<TemplateField>) -> (text:
    Result<String, upon::Error>)
    ensures
        match text {
            Ok(body) => rendered(source@, root@, field_views(fields@)) == Some(body@),
            Err(_) => rendered(source@, root@, field_views(fields@)) is None,
        },
{
    let engine = upon::Engine::new();
    let values: BTreeMap<String, upon::Value> = fields.into_iter().map(
        |f| (f.key, match f.value {
            TemplateValue::Text(text) => upon::Value::String(text),
            TemplateValue::Integer(number) => upon::Value::Integer(number),
        }),
    ).collect();
    let context = upon::Value::Map(BTreeMap::from([(root.to_string(), upon::Value::Map(values))]));
    engine.compile(source)?.render_from(&engine, &context).to_string()
}

/// A text field with a copy of `text`.
fn text_of(key: &str, text: &String) -> (field: TemplateField)
    ensures
        field@ == text_field(key@, text@),
{
    TemplateField { key: key.to_owned(), value: TemplateValue::Text(text.clone()) }
}

/// An integer field.
fn integer_of(key: &str, number: i64) -> (field: TemplateField)
    ensures
        field@ == integer_field(key@, number as int),
{
    TemplateField { key: key.to_owned(), value: TemplateValue::Integer(number) }
}

/// The fields of a result for a template, under the names of the result's
/// parts. The start time and the duration must be within a template's
/// integers.
pub fn result_fields(output: &MonitorResult) -> (list: Vec<TemplateField>)
    requires
        renderable(*output),
    ensures
        field_views(list@) == fields_of(*output),
{
    let mut list: Vec<TemplateField> = Vec::new();
    list.push(text_of("name", &output.name));
    list.push(text_of("level_name", &output.level_name));
    list.push(integer_of("start_time", output.start_time as i64));
    list.push(text_of("target", &output.target));
    list.push(text_of("args", &output.args));
    list.push(text_of("stdout", &output.stdout));
    list.push(text_of("stderr", &output.stderr));
    list.push(integer_of("duration", output.duration as i64));
    list.push(integer_of("status", output.status as i64));
    assert(field_views(list@) =~= fields_of(*output));
    list
}

/// The message of a rendering that failed: what was being rendered, then
/// the reason.
pub fn render_failure(what: &str, reason: &str) -> (message: String)
    ensures
        message@ == what@ + reason@,
{
    let mut message = what.to_owned();
    message.append(reason);
    message
}

/// Renders a template source over a result, which the template finds under
/// `res`. A failure is reported as `what` followed by the text of the error
/// that the rendering gave. The numbers of the result must be within a
/// template's integers.
pub fn render_result(source: &str, output: &MonitorResult, what: &str) -> (text: Result<
    String,
    String,
>)
    requires
        renderable(*output),
    ensures
        match rendered(source@, root_key(), fields_of(*output)) {
            Some(body) => text matches Ok(got) && got@ == body,
            None => text matches Err(message) && what@.is_prefix_of(message@),
        },
{
    match render_template(source, "res", result_fields(output)) {
        Ok(body) => Ok(body),
        Err(error) => {
            let reason = error.to_string();
            let message = render_failure(what, reason.as_str());
            assert(what@.is_prefix_of(message@));
            Err(message)
        },
    }
}

} // verus!
