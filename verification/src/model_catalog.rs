//! The model picker entries offered for a detected local provider.

use vstd::prelude::*;

use crate::provider_config::DetectedProviderModel;
use crate::text::{push_signed_decimal, signed_decimal, string_of, chars_of, extend_chars};

verus! {

/// A model picker entry for a local provider model.
pub struct LocalModelPreset {
    pub id: String,
    pub model: String,
    pub display_name: String,
    pub description: String,
    pub is_default: bool,
    pub show_in_picker: bool,
    pub supported_in_api: bool,
    pub supports_personality: bool,
}

/// What the picker says of tool support.
pub open spec fn tool_label(supports_tools: Option<bool>) -> Seq<char> {
    match supports_tools {
        Some(true) => "tools enabled"@,
        Some(false) => "tools unavailable"@,
        None => "tool support unknown"@,
    }
}

/// The description of a local provider model.
pub open spec fn spec_local_provider_model_description(model: DetectedProviderModel) -> Seq<char> {
    match model.context_window {
        Some(cw) => "Local provider model; "@ + tool_label(model.supports_tools) + "; "@
            + signed_decimal(cw as int) + " context tokens"@,
        None => "Local provider model; "@ + tool_label(model.supports_tools),
    }
}

/// Describes a local provider model by its tool support and context size.
pub fn local_provider_model_description(model: &DetectedProviderModel) -> (r: String)
    ensures
        r@ == spec_local_provider_model_description(*model),
{
    let label = match model.supports_tools {
        Some(true) => "tools enabled",
        Some(false) => "tools unavailable",
        None => "tool support unknown",
    };
    let mut s = String::from_str("Local provider model; ");
    s.append(label);
    match model.context_window {
        Some(cw) => {
            s.append("; ");
            let mut digits: Vec<char> = Vec::new();
            push_signed_decimal(&mut digits, cw);
            assert(digits@ =~= signed_decimal(cw as int));
            let d = string_of(&digits);
            s.append(d.as_str());
            s.append(" context tokens");
            s
        },
        None => s,
    }
}

/// The picker entries for the detected models: each model under its own id,
/// the first one the default.
pub fn local_provider_model_presets(models: &Vec<DetectedProviderModel>) -> (r: Vec<
    LocalModelPreset,
>)
    ensures
        r@.len() == models@.len(),
        forall|i: int|
            0 <= i < r@.len() ==> {
                &&& (#[trigger] r@[i]).id@ == models@[i].id@
                &&& r@[i].model@ == models@[i].id@
                &&& r@[i].display_name@ == models@[i].id@
                &&& r@[i].description@ == spec_local_provider_model_description(models@[i])
                &&& r@[i].is_default == (i == 0)
                &&& r@[i].show_in_picker
                &&& r@[i].supported_in_api
                &&& !r@[i].supports_personality
            },
{
    let mut out: Vec<LocalModelPreset> = Vec::new();
    let n = models.len();
    let mut i: usize = 0;
    while i < n
        invariant
            n == models@.len(),
            i <= n,
            out@.len() == i,
            forall|k: int|
                0 <= k < i ==> {
                    &&& (#[trigger] out@[k]).id@ == models@[k].id@
                    &&& out@[k].model@ == models@[k].id@
                    &&& out@[k].display_name@ == models@[k].id@
                    &&& out@[k].description@ == spec_local_provider_model_description(models@[k])
                    &&& out@[k].is_default == (k == 0)
                    &&& out@[k].show_in_picker
                    &&& out@[k].supported_in_api
                    &&& !out@[k].supports_personality
                },
        decreases n - i,
    {
        let m = &models[i];
        out.push(
            LocalModelPreset {
                id: m.id.clone(),
                model: m.id.clone(),
                display_name: m.id.clone(),
                description: local_provider_model_description(m),
                is_default: i == 0,
                show_in_picker: true,
                supported_in_api: true,
                supports_personality: false,
            },
        );
        i = i + 1;
    }
    out
}

} // verus!
