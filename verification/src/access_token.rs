//! Telling personal access tokens from agent identity tokens.

use vstd::prelude::*;

use crate::text::{chars_of, is_prefix_of, starts_with};

verus! {

/// The prefix of personal access tokens.
pub const PERSONAL_ACCESS_TOKEN_PREFIX: &'static str = "at-";

/// A bearer token, by kind.
pub enum SolaiAgentAccessToken<'a> {
    PersonalAccessToken(&'a str),
    AgentIdentityJwt(&'a str),
}

/// Classifies a token: personal access tokens start with `at-`, anything
/// else is taken for an agent identity JWT.
pub fn classify_codex_access_token(access_token: &str) -> (r: SolaiAgentAccessToken<'_>)
    ensures
        match r {
            SolaiAgentAccessToken::PersonalAccessToken(t) => t == access_token && is_prefix_of(
                PERSONAL_ACCESS_TOKEN_PREFIX@,
                access_token@,
            ),
            SolaiAgentAccessToken::AgentIdentityJwt(t) => t == access_token && !is_prefix_of(
                PERSONAL_ACCESS_TOKEN_PREFIX@,
                access_token@,
            ),
        },
{
    let cs = chars_of(access_token);
    if starts_with(&cs, &chars_of(PERSONAL_ACCESS_TOKEN_PREFIX)) {
        SolaiAgentAccessToken::PersonalAccessToken(access_token)
    } else {
        SolaiAgentAccessToken::AgentIdentityJwt(access_token)
    }
}

} // verus!
