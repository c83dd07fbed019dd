//! The settings tool: reads or changes a configuration value (simulated).

use vstd::prelude::*;

verus! {

/// Arguments of the settings tool; `value` is the new value as JSON text.
pub struct ConfigArgs {
    pub setting: String,
    pub value: Option<String>,
}

/// The reply for reading (`None`) or setting a value.
pub open spec fn config_reply(setting: Seq<char>, value: Option<Seq<char>>) -> Seq<char> {
    match value {
        Some(v) => "Successfully updated configuration '"@ + setting + "' to '"@ + v + "'."@,
        None => "Configuration '"@ + setting + "' is currently set to a default/mock value."@,
    }
}

/// Schema of the settings tool's arguments (JSON text).
pub const CONFIG_SCHEMA: &'static str = "{\"type\":\"object\",\"properties\":{\"setting\":{\"type\":\"string\",\"description\":\"The configuration key to read or update (e.g., 'theme', 'permissions.defaultMode')\"},\"value\":{\"description\":\"The new value to set. Omit this field to simply read the current value.\"}},\"required\":[\"setting\"]}";

/// Reads or modifies configuration settings.
pub struct ConfigTool;

impl ConfigTool {
    pub fn new() -> Self {
        ConfigTool
    }

    pub fn name(&self) -> (r: &'static str)
        ensures
            r@ == "Config"@,
    {
        "Config"
    }

    pub fn description(&self) -> (r: &'static str)
        ensures
            r@ == "Read or modify Assistant Code configuration settings and preferences (e.g. theme, models, etc). If value is provided, it updates the setting; otherwise, it reads the current value."@,
    {
        "Read or modify Assistant Code configuration settings and preferences (e.g. theme, models, etc). If value is provided, it updates the setting; otherwise, it reads the current value."
    }

    pub fn input_schema(&self) -> (r: &'static str)
        ensures
            r@ == CONFIG_SCHEMA@,
    {
        CONFIG_SCHEMA
    }

    /// Updates the setting when a value is given, otherwise reads it.
    pub fn execute(&self, args: &ConfigArgs) -> (r: Result<String, String>)
        ensures
            r is Ok,
            r->Ok_0@ == config_reply(args.setting@, crate::text::opt_view(args.value)),
    {
        match &args.value {
            Some(v) => {
                let mut s = String::from_str("Successfully updated configuration '");
                s.append(args.setting.as_str());
                s.append("' to '");
                s.append(v.as_str());
                s.append("'.");
                Ok(s)
            },
            None => {
                let mut s = String::from_str("Configuration '");
                s.append(args.setting.as_str());
                s.append("' is currently set to a default/mock value.");
                Ok(s)
            },
        }
    }
}

} // verus!
