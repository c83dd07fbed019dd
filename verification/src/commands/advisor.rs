//! The `/advisor` command: shows, sets or unsets the advisor model.

use vstd::prelude::*;
use crate::text::{contains_seq, lowercase_of, str_contains, str_eq, to_lowercase, trim, trim_seq};

verus! {

/// View of an optional string slice.
pub open spec fn opt_str_view(o: Option<&str>) -> Option<Seq<char>> {
    match o {
        Some(s) => Some(s@),
        None => None,
    }
}

/// The main model can consult an advisor.
pub open spec fn supports_advisor(base_model: Seq<char>) -> bool {
    contains_seq(base_model, "sonnet"@)
}

/// The argument names a known model family.
pub open spec fn known_model(arg: Seq<char>) -> bool {
    ||| contains_seq(arg, "assistant"@)
    ||| contains_seq(arg, "opus"@)
    ||| contains_seq(arg, "haiku"@)
    ||| contains_seq(arg, "sonnet"@)
}

/// The full model name for a shorthand.
pub open spec fn normalized_model(arg: Seq<char>) -> Seq<char> {
    if arg == "opus"@ {
        "assistant-3-opus-20240229"@
    } else if arg == "haiku"@ {
        "assistant-3-5-haiku-20241022"@
    } else {
        arg
    }
}

/// The reply to `/advisor` and the advisor model afterwards, given the
/// already trimmed and lowercased argument.
pub open spec fn advisor_outcome(arg: Seq<char>, current: Option<Seq<char>>, base_model: Seq<char>) -> (Seq<char>, Option<Seq<char>>) {
    let supports = supports_advisor(base_model);
    if arg.len() == 0 {
        match current {
            Some(c) => if !supports {
                ("Advisor: "@ + c + " (inactive)\nThe current model ("@ + base_model + ") does not support advisors."@, Some(c))
            } else {
                ("Advisor: "@ + c + "\nUse \"/advisor unset\" to disable or \"/advisor <model>\" to change."@, Some(c))
            },
            None => ("Advisor: not set\nUse \"/advisor <model>\" to enable (e.g. \"/advisor opus\")."@, None),
        }
    } else if arg == "unset"@ || arg == "off"@ {
        match current {
            Some(p) => ("Advisor disabled (was "@ + p + ")."@, None),
            None => ("Advisor already unset."@, None),
        }
    } else if !known_model(arg) {
        ("Invalid or unknown advisor model: "@ + arg, current)
    } else {
        let m = normalized_model(arg);
        if !supports {
            (
                "Advisor set to "@ + m + ".\nNote: Your current model ("@ + base_model
                    + ") does not support advisors. Switch to a supported model to use the advisor."@,
                Some(m),
            )
        } else {
            ("Advisor set to "@ + m + "."@, Some(m))
        }
    }
}

/// View of an optional owned string.
pub open spec fn opt_string_view(o: Option<String>) -> Option<Seq<char>> {
    match o {
        Some(s) => Some(s@),
        None => None,
    }
}

/// Handles `/advisor`.
pub struct AdvisorCommand;

impl AdvisorCommand {
    /// Handles `/advisor <arg>`: returns the message to show and the advisor
    /// model to keep (`None` when it is unset). The argument is trimmed and
    /// lowercased first; a blank argument asks for the current setting.
    pub fn handle_advisor(arg: &str, current_advisor: Option<&str>, base_model: &str) -> (r: Result<(String, Option<String>), String>)
        ensures
            r is Ok,
            (r->Ok_0.0@, opt_string_view(r->Ok_0.1)) == advisor_outcome(
                if trim_seq(arg@).len() == 0 { Seq::empty() } else { lowercase_of(trim_seq(arg@)) },
                opt_str_view(current_advisor),
                base_model@,
            ),
    {
        let trimmed = trim(arg);
        proof {
            reveal_strlit("");
            assert(""@ =~= Seq::<char>::empty());
        }
        if str_eq(trimmed.as_str(), "") {
            return Ok(Self::reply_for("", current_advisor, base_model));
        }
        assert(trimmed@.len() != 0) by {
            if trimmed@.len() == 0 {
                assert(trimmed@ =~= ""@);
            }
        }
        let lowered = to_lowercase(trimmed.as_str());
        Ok(Self::reply_for(lowered.as_str(), current_advisor, base_model))
    }

    /// The reply and resulting advisor for an argument that is already
    /// trimmed and lowercased.
    pub fn reply_for(arg: &str, current_advisor: Option<&str>, base_model: &str) -> (r: (String, Option<String>))
        ensures
            (r.0@, opt_string_view(r.1)) == advisor_outcome(arg@, opt_str_view(current_advisor), base_model@),
    {
        let supports = str_contains(base_model, "sonnet");
        if arg.is_empty() {
            match current_advisor {
                Some(current) => {
                    let mut msg = String::from_str("Advisor: ");
                    msg.append(current);
                    if !supports {
                        msg.append(" (inactive)\nThe current model (");
                        msg.append(base_model);
                        msg.append(") does not support advisors.");
                    } else {
                        msg.append("\nUse \"/advisor unset\" to disable or \"/advisor <model>\" to change.");
                    }
                    return (msg, Some(String::from_str(current)));
                },
                None => {
                    return (
                        String::from_str("Advisor: not set\nUse \"/advisor <model>\" to enable (e.g. \"/advisor opus\")."),
                        None,
                    );
                },
            }
        }
        if str_eq(arg, "unset") || str_eq(arg, "off") {
            match current_advisor {
                Some(prev) => {
                    let mut msg = String::from_str("Advisor disabled (was ");
                    msg.append(prev);
                    msg.append(").");
                    return (msg, None);
                },
                None => {
                    return (String::from_str("Advisor already unset."), None);
                },
            }
        }
        let known = str_contains(arg, "assistant") || str_contains(arg, "opus") || str_contains(arg, "haiku")
            || str_contains(arg, "sonnet");
        if !known {
            let mut msg = String::from_str("Invalid or unknown advisor model: ");
            msg.append(arg);
            let kept = match current_advisor {
                Some(c) => Some(String::from_str(c)),
                None => None,
            };
            return (msg, kept);
        }
        let normalized = if str_eq(arg, "opus") {
            String::from_str("assistant-3-opus-20240229")
        } else if str_eq(arg, "haiku") {
            String::from_str("assistant-3-5-haiku-20241022")
        } else {
            String::from_str(arg)
        };
        let mut msg = String::from_str("Advisor set to ");
        msg.append(normalized.as_str());
        if !supports {
            msg.append(".\nNote: Your current model (");
            msg.append(base_model);
            msg.append(") does not support advisors. Switch to a supported model to use the advisor.");
        } else {
            msg.append(".");
        }
        (msg, Some(normalized))
    }
}

} // verus!
