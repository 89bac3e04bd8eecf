//! What follows a change of the settings.

use crate::text::same_text;
use vstd::prelude::*;
use vstd::string::StringExecFns;

verus! {

/// The transcription model for loopback audio where the settings name none.
pub open spec fn default_loopback_model() -> Seq<char> {
    "small"@
}

/// The model that settings stand for: the one they name, or the default.
pub open spec fn spec_model_or_default(model: Option<Seq<char>>) -> Seq<char> {
    match model {
        Some(m) => m,
        None => default_loopback_model(),
    }
}

/// The model to load after the settings were saved, if any. With earlier
/// settings the model is loaded anew where it has changed, a missing name
/// counting as the default. Without earlier settings the named model is
/// loaded, and none where no model is named.
pub open spec fn spec_model_to_reload(
    had_settings: bool,
    old_model: Option<Seq<char>>,
    new_model: Option<Seq<char>>,
) -> Option<Seq<char>> {
    if had_settings {
        if spec_model_or_default(old_model) != spec_model_or_default(new_model) {
            Some(spec_model_or_default(new_model))
        } else {
            None
        }
    } else {
        new_model
    }
}

/// The model to load after the settings were saved, if any.
pub fn model_to_reload(had_settings: bool, old_model: Option<&str>, new_model: Option<&str>) -> (r:
    Option<String>)
    ensures
        match r {
            Some(m) => spec_model_to_reload(
                had_settings,
                match old_model {
                    Some(s) => Some(s@),
                    None => None,
                },
                match new_model {
                    Some(s) => Some(s@),
                    None => None,
                },
            ) == Some(m@),
            None => spec_model_to_reload(
                had_settings,
                match old_model {
                    Some(s) => Some(s@),
                    None => None,
                },
                match new_model {
                    Some(s) => Some(s@),
                    None => None,
                },
            ) is None,
        },
{
    if had_settings {
        let old = match old_model {
            Some(m) => m,
            None => "small",
        };
        let new = match new_model {
            Some(m) => m,
            None => "small",
        };
        if !same_text(old, new) {
            Some(String::from_str(new))
        } else {
            None
        }
    } else {
        match new_model {
            Some(m) => Some(String::from_str(m)),
            None => None,
        }
    }
}

} // verus!
