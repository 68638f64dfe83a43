//! The configuration option table: each row edits one named field of the
//! configuration, shows its current value as text, and applies operator
//! input to it. The rows are bound to explicit fields, not to callbacks.

use vstd::prelude::*;
use vstd::string::StringExecFns;
use crate::config::Config;
use crate::config::ServiceProvider;
use crate::decimal::dec_chars;
use crate::decimal::spec_parse_u32_chars;
use crate::decimal::parse_u32_str;
use crate::decimal::u32_to_dec;

verus! {

/// How a row is edited: toggled in place, or through the input popup.
#[derive(Debug, Clone, Copy, PartialEq, Eq)]
pub enum ConfigOptType {
    Switch,
    PopupInput,
}

/// Which configuration value a row edits.
#[derive(Debug, Clone, Copy, PartialEq, Eq)]
pub enum ConfigField {
    SerialFile,
    MaxMovement,
    Throw,
    MaxAcceleration,
    WebsocketUri,
    Provider,
}

/// Why operator input could not be applied to a row.
#[derive(Debug, Clone, Copy, PartialEq, Eq)]
pub enum ConfigParseError {
    /// The input is not an unsigned decimal number that fits.
    InvalidNumber,
}

/// The text a row shows for its field under a given configuration.
pub open spec fn spec_field_repr(field: ConfigField, c: Config) -> Seq<char> {
    match field {
        ConfigField::SerialFile => c.machine_config.file@,
        ConfigField::MaxMovement => dec_chars(c.machine_config.max_movement as nat) + " mm"@,
        ConfigField::Throw => dec_chars(c.machine_config.throw as nat) + " mm"@,
        ConfigField::MaxAcceleration => dec_chars(c.machine_config.max_acceleration as nat)
            + " mm/s"@,
        ConfigField::WebsocketUri => c.websocket_config.ws@,
        ConfigField::Provider => if c.websocket_config.provider is INTI {
            "INTI"@
        } else {
            "EXTOY"@
        },
    }
}

/// Whether a field accepts the given input: numeric fields need a decimal
/// number, text fields and the provider switch accept anything.
pub open spec fn spec_field_accepts(field: ConfigField, input: Seq<char>) -> bool {
    match field {
        ConfigField::MaxMovement | ConfigField::Throw | ConfigField::MaxAcceleration
            => spec_parse_u32_chars(input) is Some,
        _ => true,
    }
}

/// How applying input to a field relates the old configuration to the new
/// one: the named field takes the input's value, every other field keeps
/// its own; input a field rejects leaves the whole configuration as it
/// was. The provider switch ignores the input and toggles.
pub open spec fn spec_field_applied(
    field: ConfigField,
    old_c: Config,
    new_c: Config,
    input: Seq<char>,
) -> bool {
    let same_file = new_c.machine_config.file == old_c.machine_config.file;
    let same_throw = new_c.machine_config.throw == old_c.machine_config.throw;
    let same_max_movement = new_c.machine_config.max_movement
        == old_c.machine_config.max_movement;
    let same_max_acceleration = new_c.machine_config.max_acceleration
        == old_c.machine_config.max_acceleration;
    let same_ws = new_c.websocket_config.ws == old_c.websocket_config.ws;
    let same_provider = new_c.websocket_config.provider == old_c.websocket_config.provider;
    match field {
        ConfigField::SerialFile => new_c.machine_config.file@ == input && same_throw
            && same_max_movement && same_max_acceleration && same_ws && same_provider,
        ConfigField::MaxMovement => (match spec_parse_u32_chars(input) {
            Some(v) => new_c.machine_config.max_movement == v,
            None => same_max_movement,
        }) && same_file && same_throw && same_max_acceleration && same_ws && same_provider,
        ConfigField::Throw => (match spec_parse_u32_chars(input) {
            Some(v) => new_c.machine_config.throw == v,
            None => same_throw,
        }) && same_file && same_max_movement && same_max_acceleration && same_ws && same_provider,
        ConfigField::MaxAcceleration => (match spec_parse_u32_chars(input) {
            Some(v) => new_c.machine_config.max_acceleration == v,
            None => same_max_acceleration,
        }) && same_file && same_throw && same_max_movement && same_ws && same_provider,
        ConfigField::WebsocketUri => new_c.websocket_config.ws@ == input && same_file
            && same_throw && same_max_movement && same_max_acceleration && same_provider,
        ConfigField::Provider => new_c.websocket_config.provider == (if old_c.websocket_config.provider is INTI {
            ServiceProvider::EXTOY
        } else {
            ServiceProvider::INTI
        }) && same_file && same_throw && same_max_movement && same_max_acceleration && same_ws,
    }
}

/// One row of the options table: how it is edited, its label, the text it
/// currently shows, and the configuration field it edits.
#[derive(Debug, Clone)]
pub struct ConfigOption {
    pub typ: ConfigOptType,
    pub label: String,
    pub string_repr: String,
    pub field: ConfigField,
}

impl ConfigOption {
    /// Build one row.
    pub fn new(typ: ConfigOptType, label: &str, initial_repr: &str, field: ConfigField) -> (o:
        ConfigOption)
        ensures
            o.typ == typ,
            o.label@ == label@,
            o.string_repr@ == initial_repr@,
            o.field == field,
    {
        ConfigOption {
            typ,
            label: String::from_str(label),
            string_repr: String::from_str(initial_repr),
            field,
        }
    }

    /// Apply operator input to this row's field, then refresh the shown
    /// text from the configuration. Rejected input leaves the
    /// configuration unchanged and is reported; the shown text is
    /// refreshed either way.
    pub fn handle(&mut self, config: &mut Config, input_string: &str) -> (r: Result<
        (),
        ConfigParseError,
    >)
        ensures
            r is Ok <==> spec_field_accepts(old(self).field, input_string@),
            spec_field_applied(old(self).field, *old(config), *final(config), input_string@),
            final(self).string_repr@ == spec_field_repr(old(self).field, *final(config)),
            final(self).typ == old(self).typ,
            final(self).label == old(self).label,
            final(self).field == old(self).field,
    {
        let r: Result<(), ConfigParseError> = match self.field {
            ConfigField::SerialFile => {
                config.machine_config.file = String::from_str(input_string);
                Ok(())
            },
            ConfigField::MaxMovement => match parse_u32_str(input_string) {
                Some(v) => {
                    config.machine_config.max_movement = v;
                    Ok(())
                },
                None => Err(ConfigParseError::InvalidNumber),
            },
            ConfigField::Throw => match parse_u32_str(input_string) {
                Some(v) => {
                    config.machine_config.throw = v;
                    Ok(())
                },
                None => Err(ConfigParseError::InvalidNumber),
            },
            ConfigField::MaxAcceleration => match parse_u32_str(input_string) {
                Some(v) => {
                    config.machine_config.max_acceleration = v;
                    Ok(())
                },
                None => Err(ConfigParseError::InvalidNumber),
            },
            ConfigField::WebsocketUri => {
                config.websocket_config.ws = String::from_str(input_string);
                Ok(())
            },
            ConfigField::Provider => {
                config.websocket_config.provider = config.websocket_config.provider.toggled();
                Ok(())
            },
        };
        self.string_repr = field_repr(self.field, config);
        r
    }
}

/// Render the text a row shows for its field.
fn field_repr(field: ConfigField, config: &Config) -> (s: String)
    ensures
        s@ == spec_field_repr(field, *config),
{
    match field {
        ConfigField::SerialFile => config.machine_config.file.clone(),
        ConfigField::MaxMovement => u32_to_dec(config.machine_config.max_movement).concat(" mm"),
        ConfigField::Throw => u32_to_dec(config.machine_config.throw).concat(" mm"),
        ConfigField::MaxAcceleration => u32_to_dec(config.machine_config.max_acceleration).concat(
            " mm/s",
        ),
        ConfigField::WebsocketUri => config.websocket_config.ws.clone(),
        ConfigField::Provider => {
            let label = config.websocket_config.provider.label();
            String::from_str(label)
        },
    }
}

/// The six rows of the options table, bound to their fields and showing
/// the given configuration's current values.
pub fn default_options(config: &Config) -> (rows: Vec<ConfigOption>)
    ensures
        rows@.len() == 6,
        rows@[0].field == ConfigField::SerialFile && rows@[0].typ == ConfigOptType::PopupInput
            && rows@[0].label@ == "Serial File"@,
        rows@[1].field == ConfigField::MaxMovement && rows@[1].typ == ConfigOptType::PopupInput
            && rows@[1].label@ == "Movement distance"@,
        rows@[2].field == ConfigField::Throw && rows@[2].typ == ConfigOptType::PopupInput
            && rows@[2].label@ == "Max throw"@,
        rows@[3].field == ConfigField::MaxAcceleration && rows@[3].typ
            == ConfigOptType::PopupInput && rows@[3].label@ == "Max acceleration"@,
        rows@[4].field == ConfigField::WebsocketUri && rows@[4].typ == ConfigOptType::PopupInput
            && rows@[4].label@ == "Websocket URI"@,
        rows@[5].field == ConfigField::Provider && rows@[5].typ == ConfigOptType::Switch
            && rows@[5].label@ == "Service Provider"@,
        forall|i: int|
            0 <= i < 6 ==> (#[trigger] rows@[i]).string_repr@ == spec_field_repr(
                rows@[i].field,
                *config,
            ),
{
    let mut rows: Vec<ConfigOption> = Vec::new();
    let mut row = row_for(config, ConfigOptType::PopupInput, "Serial File", ConfigField::SerialFile);
    rows.push(row);
    row = row_for(config, ConfigOptType::PopupInput, "Movement distance", ConfigField::MaxMovement);
    rows.push(row);
    row = row_for(config, ConfigOptType::PopupInput, "Max throw", ConfigField::Throw);
    rows.push(row);
    row = row_for(config, ConfigOptType::PopupInput, "Max acceleration", ConfigField::MaxAcceleration);
    rows.push(row);
    row = row_for(config, ConfigOptType::PopupInput, "Websocket URI", ConfigField::WebsocketUri);
    rows.push(row);
    row = row_for(config, ConfigOptType::Switch, "Service Provider", ConfigField::Provider);
    rows.push(row);
    rows
}

/// One row, showing the configuration's current value for its field.
fn row_for(config: &Config, typ: ConfigOptType, label: &str, field: ConfigField) -> (o:
    ConfigOption)
    ensures
        o.typ == typ,
        o.label@ == label@,
        o.field == field,
        o.string_repr@ == spec_field_repr(field, *config),
{
    ConfigOption { typ, label: String::from_str(label), string_repr: field_repr(field, config), field }
}


} // verus!
