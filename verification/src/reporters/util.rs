//! Reading a reporter's settings out of a configuration table.

use vstd::prelude::*;

verus! {

/// A table of a configuration document: `toml::Table`, which is
/// `toml::map::Map` from strings to values.
#[verifier::external_type_specification]
#[verifier::external_body]
#[verifier::reject_recursive_types(K)]
#[verifier::reject_recursive_types(V)]
pub struct ExTomlMap<K, V>(toml::map::Map<K, V>);

/// A value of a configuration document: `toml::Value`.
#[verifier::external_type_specification]
#[verifier::external_body]
pub struct ExTomlValue(toml::Value);

/// Why a reporter could not be set up from its settings.
#[derive(Debug)]
pub struct ConfigError {
    pub message: String,
}

/// What a table holds under a key, as far as settings go: a text, an
/// integer, or a value of another kind.
#[derive(Debug)]
pub enum Setting {
    Text(String),
    Integer(i64),
    Other,
}

/// A setting as mathematics.
pub enum SettingView {
    Text(Seq<char>),
    Integer(i64),
    Other,
}

impl View for Setting {
    type V = SettingView;

    open spec fn view(&self) -> SettingView {
        match self {
            Setting::Text(text) => SettingView::Text(text@),
            Setting::Integer(number) => SettingView::Integer(*number),
            Setting::Other => SettingView::Other,
        }
    }
}

/// What a table holds: for each of its keys the setting under it.
pub uninterp spec fn table_settings(table: toml::Table) -> Map<Seq<char>, SettingView>;

/// `toml::map::Map::get`, with the value found told apart by its variant:
/// the setting that the table holds under `field`, or `None` when the table
/// has no such key.
#[verifier::external_body]
pub(crate) fn table_get(table: &toml::Table, field: &str) -> (found: Option<Setting>)
    ensures
        match found {
            Some(setting) => table_settings(*table).contains_key(field@) && table_settings(
                *table,
            )[field@] == setting@,
            None => !table_settings(*table).contains_key(field@),
        },
{
    match table.get(field) {
        Some(toml::Value::String(text)) => Some(Setting::Text(text.clone())),
        Some(toml::Value::Integer(number)) => Some(Setting::Integer(*number)),
        Some(_) => Some(Setting::Other),
        None => None,
    }
}

/// The message for a setting that is not a text.
pub open spec fn not_a_text() -> Seq<char> {
    "invalid type, expected String"@
}

/// The message for a setting that is not an integer.
pub open spec fn not_an_integer() -> Seq<char> {
    "invalid type, expected Integer"@
}

/// The message for a setting that is missing and has no default.
pub open spec fn not_found() -> Seq<char> {
    "config item not found and no default provided"@
}

/// The text setting `field` of a table with the given settings: the text
/// under the key; the default when the key is missing; and otherwise the
/// message of the error.
pub open spec fn text_setting(
    settings: Map<Seq<char>, SettingView>,
    field: Seq<char>,
    default: Option<Seq<char>>,
) -> Result<Seq<char>, Seq<char>> {
    if settings.contains_key(field) {
        match settings[field] {
            SettingView::Text(text) => Ok(text),
            _ => Err(not_a_text()),
        }
    } else {
        match default {
            Some(text) => Ok(text),
            None => Err(not_found()),
        }
    }
}

/// The integer setting `field` of a table with the given settings, in the
/// same way.
pub open spec fn integer_setting(
    settings: Map<Seq<char>, SettingView>,
    field: Seq<char>,
    default: Option<i64>,
) -> Result<i64, Seq<char>> {
    if settings.contains_key(field) {
        match settings[field] {
            SettingView::Integer(number) => Ok(number),
            _ => Err(not_an_integer()),
        }
    } else {
        match default {
            Some(number) => Ok(number),
            None => Err(not_found()),
        }
    }
}

/// What `read` says of a text setting: the same text, or an error with the
/// same message.
pub open spec fn reads_text(read: Result<String, ConfigError>, expected: Result<Seq<char>, Seq<char>>) -> bool {
    match expected {
        Ok(text) => read matches Ok(got) && got@ == text,
        Err(message) => read matches Err(e) && e.message@ == message,
    }
}

/// What `read` says of an integer setting.
pub open spec fn reads_integer(read: Result<i64, ConfigError>, expected: Result<i64, Seq<char>>) -> bool {
    match expected {
        Ok(number) => read == Ok::<i64, ConfigError>(number),
        Err(message) => read matches Err(e) && e.message@ == message,
    }
}

impl ConfigError {
    /// The error with the given message.
    pub fn from(value: &str) -> (error: ConfigError)
        ensures
            error.message@ == value@,
    {
        ConfigError { message: value.to_owned() }
    }

    /// The text to show for the error.
    pub fn to_text(&self) -> (text: String)
        ensures
            text@ == "config error: "@ + self.message@,
    {
        let mut text = "config error: ".to_owned();
        text.append(self.message.as_str());
        text
    }
}

/// The text that a table holds under `field`, or `default` when it has no
/// such key. A value that is not a text is an error, and so is a missing
/// key without a default.
pub fn get_str_or_else(c: &toml::Table, field: &str, default: Option<&str>) -> (read: Result<
    String,
    ConfigError,
>)
    ensures
        reads_text(
            read,
            text_setting(
                table_settings(*c),
                field@,
                match default {
                    Some(text) => Some(text@),
                    None => None,
                },
            ),
        ),
{
    match table_get(c, field) {
        Some(Setting::Text(text)) => Ok(text),
        Some(_) => Err(ConfigError::from("invalid type, expected String")),
        None => match default {
            Some(text) => Ok(text.to_owned()),
            None => Err(ConfigError::from("config item not found and no default provided")),
        },
    }
}

/// The integer that a table holds under `field`, or `default` when it has
/// no such key. A value that is not an integer is an error, and so is a
/// missing key without a default.
pub fn get_int_or_else(c: &toml::Table, field: &str, default: Option<i64>) -> (read: Result<
    i64,
    ConfigError,
>)
    ensures
        reads_integer(read, integer_setting(table_settings(*c), field@, default)),
{
    match table_get(c, field) {
        Some(Setting::Integer(number)) => Ok(number),
        Some(_) => Err(ConfigError::from("invalid type, expected Integer")),
        None => match default {
            Some(number) => Ok(number),
            None => Err(ConfigError::from("config item not found and no default provided")),
        },
    }
}

} // verus!
