//! The configuration record: one credential and five path strings, and how it
//! is read from a JSON document.

use vstd::prelude::*;
use crate::dispatch::Command;

verus! {

/// The settings of one run. Read once at startup and never changed.
///
/// The five path strings may hold `~` and `$VAR` references; they are expanded
/// when they are used, with [`crate::paths::expand_config_path`].
#[derive(Debug, PartialEq, Eq)]
pub struct BamBamConfig {
    /// The credential handed to both detection engines.
    pub access_key: String,
    /// Path of the wake-word model.
    pub ppn_file: String,
    /// Path of the intent-context model.
    pub rhn_file: String,
    /// Path of the script that locks the door.
    pub lock_door: String,
    /// Path of the script that turns the kitchen light yellow.
    pub kitchen_light_yellow: String,
    /// Path of the script that turns the kitchen light purple.
    pub kitchen_light_purple: String,
}

/// The six fields that a configuration document must hold, in the order in
/// which they are looked for.
#[derive(Clone, Copy, Debug, PartialEq, Eq)]
pub enum ConfigField {
    AccessKey,
    PpnFile,
    RhnFile,
    LockDoor,
    KitchenLightYellow,
    KitchenLightPurple,
}

/// Why a document is not a configuration.
#[derive(Debug, PartialEq, Eq)]
pub enum ConfigParseError {
    /// The text is not JSON. Carries the parser's message.
    Syntax(String),
    /// The document has no string under the name of this field: the field is
    /// missing, holds something other than a string, or the document is not
    /// an object at all.
    Field(ConfigField),
}

/// Why no configuration could be loaded.
#[derive(Debug, PartialEq, Eq)]
pub enum ConfigError {
    /// The file could not be opened or read. Carries the reader's message.
    Read(String),
    /// The file was read, but what it holds is not a configuration.
    Parse(ConfigParseError),
}

/// What a document holds under each of the six field names: the string, or
/// nothing where the document has no string under that name.
#[derive(Debug, PartialEq, Eq)]
pub struct ConfigFields {
    pub access_key: Option<String>,
    pub ppn_file: Option<String>,
    pub rhn_file: Option<String>,
    pub lock_door: Option<String>,
    pub kitchen_light_yellow: Option<String>,
    pub kitchen_light_purple: Option<String>,
}

/// The name under which a field stands in the document.
pub open spec fn field_name(field: ConfigField) -> Seq<char> {
    match field {
        ConfigField::AccessKey => "access_key"@,
        ConfigField::PpnFile => "ppn_file"@,
        ConfigField::RhnFile => "rhn_file"@,
        ConfigField::LockDoor => "lock_door"@,
        ConfigField::KitchenLightYellow => "kitchen_light_yellow"@,
        ConfigField::KitchenLightPurple => "kitchen_light_purple"@,
    }
}

/// The first of the six fields that `fields` lacks, if it lacks any.
pub open spec fn first_absent(fields: ConfigFields) -> Option<ConfigField> {
    if fields.access_key is None {
        Some(ConfigField::AccessKey)
    } else if fields.ppn_file is None {
        Some(ConfigField::PpnFile)
    } else if fields.rhn_file is None {
        Some(ConfigField::RhnFile)
    } else if fields.lock_door is None {
        Some(ConfigField::LockDoor)
    } else if fields.kitchen_light_yellow is None {
        Some(ConfigField::KitchenLightYellow)
    } else if fields.kitchen_light_purple is None {
        Some(ConfigField::KitchenLightPurple)
    } else {
        None
    }
}

/// The configuration that `fields` amounts to: every field as it stands, or
/// the first field that is absent.
pub open spec fn config_of(fields: ConfigFields) -> Result<BamBamConfig, ConfigParseError> {
    match first_absent(fields) {
        Some(field) => Err(ConfigParseError::Field(field)),
        None => Ok(
            BamBamConfig {
                access_key: fields.access_key->Some_0,
                ppn_file: fields.ppn_file->Some_0,
                rhn_file: fields.rhn_file->Some_0,
                lock_door: fields.lock_door->Some_0,
                kitchen_light_yellow: fields.kitchen_light_yellow->Some_0,
                kitchen_light_purple: fields.kitchen_light_purple->Some_0,
            },
        ),
    }
}

/// The first of the six fields with no string under its name in `members`.
pub open spec fn first_missing(members: Map<Seq<char>, Seq<char>>) -> Option<ConfigField> {
    if !members.contains_key(field_name(ConfigField::AccessKey)) {
        Some(ConfigField::AccessKey)
    } else if !members.contains_key(field_name(ConfigField::PpnFile)) {
        Some(ConfigField::PpnFile)
    } else if !members.contains_key(field_name(ConfigField::RhnFile)) {
        Some(ConfigField::RhnFile)
    } else if !members.contains_key(field_name(ConfigField::LockDoor)) {
        Some(ConfigField::LockDoor)
    } else if !members.contains_key(field_name(ConfigField::KitchenLightYellow)) {
        Some(ConfigField::KitchenLightYellow)
    } else if !members.contains_key(field_name(ConfigField::KitchenLightPurple)) {
        Some(ConfigField::KitchenLightPurple)
    } else {
        None
    }
}

/// Every field of `config` is the string that `members` holds under its name.
pub open spec fn holds_members(config: BamBamConfig, members: Map<Seq<char>, Seq<char>>) -> bool {
    &&& config.access_key@ == members[field_name(ConfigField::AccessKey)]
    &&& config.ppn_file@ == members[field_name(ConfigField::PpnFile)]
    &&& config.rhn_file@ == members[field_name(ConfigField::RhnFile)]
    &&& config.lock_door@ == members[field_name(ConfigField::LockDoor)]
    &&& config.kitchen_light_yellow@ == members[field_name(ConfigField::KitchenLightYellow)]
    &&& config.kitchen_light_purple@ == members[field_name(ConfigField::KitchenLightPurple)]
}

/// Whether `result` is what parsing `text` as a configuration gives.
///
/// Text that is not JSON gives a syntax error. A document with a string under
/// each of the six names gives the configuration that holds exactly those
/// strings. Any other document gives the first field it has no string for.
pub open spec fn is_parse_of(
    text: Seq<char>,
    result: Result<BamBamConfig, ConfigParseError>,
) -> bool {
    match json_document(text) {
        None => result matches Err(ConfigParseError::Syntax(_)),
        Some(members) => match first_missing(members) {
            Some(field) => result == Err::<BamBamConfig, ConfigParseError>(
                ConfigParseError::Field(field),
            ),
            None => result matches Ok(config) && holds_members(config, members),
        },
    }
}

/// Whether `result` is what loading gives when reading the file came to `read`.
pub open spec fn is_load_of(
    read: Result<String, String>,
    result: Result<BamBamConfig, ConfigError>,
) -> bool {
    match read {
        Err(message) => result == Err::<BamBamConfig, ConfigError>(ConfigError::Read(message)),
        Ok(contents) => match result {
            Ok(config) => is_parse_of(contents@, Ok(config)),
            Err(ConfigError::Parse(error)) => is_parse_of(contents@, Err(error)),
            Err(ConfigError::Read(_)) => false,
        },
    }
}

#[verifier::external_type_specification]
#[verifier::external_body]
pub struct ExJsonValue(serde_json::Value);

/// The members of a JSON value that are strings, by name. A value that is not
/// an object has none.
pub uninterp spec fn json_strings(document: serde_json::Value) -> Map<Seq<char>, Seq<char>>;

/// The string members of the JSON document that `text` holds, or `None` where
/// `text` is not JSON.
pub uninterp spec fn json_document(text: Seq<char>) -> Option<Map<Seq<char>, Seq<char>>>;

/// Calls `serde_json::from_str` for a `serde_json::Value`.
///
/// Trusted, not proved: the call succeeds exactly on the texts that
/// [`json_document`] knows, and the value it gives has the string members that
/// [`json_document`] names. On failure the parser's message comes back.
#[verifier::external_body]
fn parse_json(text: &str) -> (document: Result<serde_json::Value, String>)
    ensures
        match document {
            Ok(value) => json_document(text@) == Some(json_strings(value)),
            Err(_) => json_document(text@) is None,
        },
{
    match serde_json::from_str::<serde_json::Value>(text) {
        Ok(value) => Ok(value),
        Err(error) => Err(error.to_string()),
    }
}

/// Calls `serde_json::Value::get` with `name` and `serde_json::Value::as_str`
/// on what it finds.
///
/// Trusted, not proved: the result is the string that `document` holds under
/// `name`, and `None` where `document` is not an object, has no such member,
/// or has one that is not a string.
#[verifier::external_body]
fn string_member(document: &serde_json::Value, name: &str) -> (member: Option<String>)
    ensures
        member is Some <==> json_strings(*document).contains_key(name@),
        member matches Some(text) ==> text@ == json_strings(*document)[name@],
{
    document.get(name).and_then(serde_json::Value::as_str).map(str::to_owned)
}

impl ConfigField {
    /// The name under which the field stands in the document.
    pub fn name(self) -> (name: &'static str)
        ensures
            name@ == field_name(self),
    {
        match self {
            ConfigField::AccessKey => "access_key",
            ConfigField::PpnFile => "ppn_file",
            ConfigField::RhnFile => "rhn_file",
            ConfigField::LockDoor => "lock_door",
            ConfigField::KitchenLightYellow => "kitchen_light_yellow",
            ConfigField::KitchenLightPurple => "kitchen_light_purple",
        }
    }
}

impl BamBamConfig {
    /// The path string configured for `command`.
    pub open spec fn action_path_of(&self, command: Command) -> String {
        match command {
            Command::LockDoor => self.lock_door,
            Command::KitchenLightYellow => self.kitchen_light_yellow,
            Command::KitchenLightPurple => self.kitchen_light_purple,
        }
    }

    /// The path string configured for `command`, not yet expanded.
    pub fn action_path(&self, command: Command) -> (path: &String)
        ensures
            *path == self.action_path_of(command),
    {
        match command {
            Command::LockDoor => &self.lock_door,
            Command::KitchenLightYellow => &self.kitchen_light_yellow,
            Command::KitchenLightPurple => &self.kitchen_light_purple,
        }
    }
}

/// Builds the configuration from the six fields of a document: all six must
/// be there, and the first that is not is reported.
pub fn config_from_fields(fields: ConfigFields) -> (result: Result<BamBamConfig, ConfigParseError>)
    ensures
        result == config_of(fields),
{
    let access_key = match fields.access_key {
        Some(text) => text,
        None => return Err(ConfigParseError::Field(ConfigField::AccessKey)),
    };
    let ppn_file = match fields.ppn_file {
        Some(text) => text,
        None => return Err(ConfigParseError::Field(ConfigField::PpnFile)),
    };
    let rhn_file = match fields.rhn_file {
        Some(text) => text,
        None => return Err(ConfigParseError::Field(ConfigField::RhnFile)),
    };
    let lock_door = match fields.lock_door {
        Some(text) => text,
        None => return Err(ConfigParseError::Field(ConfigField::LockDoor)),
    };
    let kitchen_light_yellow = match fields.kitchen_light_yellow {
        Some(text) => text,
        None => return Err(ConfigParseError::Field(ConfigField::KitchenLightYellow)),
    };
    let kitchen_light_purple = match fields.kitchen_light_purple {
        Some(text) => text,
        None => return Err(ConfigParseError::Field(ConfigField::KitchenLightPurple)),
    };
    Ok(
        BamBamConfig {
            access_key,
            ppn_file,
            rhn_file,
            lock_door,
            kitchen_light_yellow,
            kitchen_light_purple,
        },
    )
}

/// Parses the text of a configuration document.
pub fn parse_bambam_config(contents: &str) -> (result: Result<BamBamConfig, ConfigParseError>)
    ensures
        is_parse_of(contents@, result),
{
    match parse_json(contents) {
        Err(message) => Err(ConfigParseError::Syntax(message)),
        Ok(document) => {
            let fields = ConfigFields {
                access_key: string_member(&document, ConfigField::AccessKey.name()),
                ppn_file: string_member(&document, ConfigField::PpnFile.name()),
                rhn_file: string_member(&document, ConfigField::RhnFile.name()),
                lock_door: string_member(&document, ConfigField::LockDoor.name()),
                kitchen_light_yellow: string_member(
                    &document,
                    ConfigField::KitchenLightYellow.name(),
                ),
                kitchen_light_purple: string_member(
                    &document,
                    ConfigField::KitchenLightPurple.name(),
                ),
            };
            config_from_fields(fields)
        },
    }
}

/// Loads the configuration from what reading its file came to: the contents
/// of the file, or the message of the failure to read it.
pub fn load_bambam_config(read: Result<String, String>) -> (result: Result<
    BamBamConfig,
    ConfigError,
>)
    ensures
        is_load_of(read, result),
{
    match read {
        Err(message) => Err(ConfigError::Read(message)),
        Ok(contents) => match parse_bambam_config(contents.as_str()) {
            Ok(config) => Ok(config),
            Err(error) => Err(ConfigError::Parse(error)),
        },
    }
}

/// A document that holds a string under each of the six names parses, and
/// every field of the configuration is the string under its name. A document
/// that lacks any one of them fails to parse, and so does text that is not
/// JSON: no configuration is made up from defaults.
pub proof fn lemma_parse_needs_all_six(
    text: Seq<char>,
    result: Result<BamBamConfig, ConfigParseError>,
    field: ConfigField,
)
    requires
        is_parse_of(text, result),
    ensures
        json_document(text) is None ==> result is Err,
        json_document(text) matches Some(members) ==> {
            &&& !members.contains_key(field_name(field)) ==> result is Err
            &&& result matches Ok(config) ==> members.contains_key(field_name(field))
                && holds_members(config, members)
            &&& first_missing(members) is None ==> result is Ok
        },
{
}

/// A file that cannot be read gives a read error with the reader's message,
/// and only such a file does; a file that was read gives what parsing its
/// contents gives.
pub proof fn lemma_load_errors(
    read: Result<String, String>,
    result: Result<BamBamConfig, ConfigError>,
)
    requires
        is_load_of(read, result),
    ensures
        read is Err <==> result matches Err(ConfigError::Read(_)),
        read matches Err(message) ==> result == Err::<BamBamConfig, ConfigError>(
            ConfigError::Read(message),
        ),
        read matches Ok(contents) ==> (json_document(contents@) is None ==> result matches Err(
            ConfigError::Parse(ConfigParseError::Syntax(_)),
        )),
{
}

} // verus!
