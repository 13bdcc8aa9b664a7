//! Where the agent keeps its configuration.

use vstd::prelude::*;

verus! {

/// The variable that names the configuration directory.
pub const MIDCODER_HOME_ENV_VAR: &'static str = "MIDCODER_HOME";

/// The directory under the home directory used when the variable is unset.
pub const DEFAULT_MIDCODER_HOME_DIR: &'static str = ".midCoder";

/// The configured directory: the value of `MIDCODER_HOME` when it is set to
/// a non-empty value; otherwise none, and the default directory is used.
pub open spec fn spec_codex_home_env(primary: Option<String>) -> Option<String> {
    match primary {
        Some(p) if p@.len() > 0 => Some(p),
        _ => None,
    }
}

/// Chooses the configured directory from the value of `MIDCODER_HOME`.
pub fn select_codex_home_env(primary: Option<String>) -> (r: Option<String>)
    ensures
        r == spec_codex_home_env(primary),
{
    match primary {
        Some(p) => if !p.as_str().is_empty() {
            Some(p)
        } else {
            None
        },
        None => None,
    }
}

} // verus!
