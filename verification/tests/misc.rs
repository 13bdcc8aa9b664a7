use solai_coder::access_token::classify_codex_access_token;
use solai_coder::access_token::SolaiAgentAccessToken;
use solai_coder::bedrock::bedrock_user_message;
use solai_coder::bedrock::BEDROCK_EXPIRED_SIGNATURE_MESSAGE;
use solai_coder::home_dir::select_codex_home_env;

#[test]
fn personal_access_tokens_start_with_at() {
    assert!(matches!(
        classify_codex_access_token("at-123"),
        SolaiAgentAccessToken::PersonalAccessToken("at-123")
    ));
    assert!(matches!(
        classify_codex_access_token("eyJhbGciOi.x.y"),
        SolaiAgentAccessToken::AgentIdentityJwt("eyJhbGciOi.x.y")
    ));
    assert!(matches!(
        classify_codex_access_token("AT-1"),
        SolaiAgentAccessToken::AgentIdentityJwt(_)
    ));
}

#[test]
fn expired_signature_gets_an_explanation() {
    assert_eq!(
        bedrock_user_message(401, "{\"message\":\"Signature expired: 20240101T000000Z\"}"),
        Some(BEDROCK_EXPIRED_SIGNATURE_MESSAGE)
    );
    assert_eq!(bedrock_user_message(403, "Signature expired: x"), None);
    assert_eq!(bedrock_user_message(401, "access denied"), None);
}

#[test]
fn home_env_is_the_non_empty_primary_variable() {
    assert_eq!(select_codex_home_env(Some("/a".to_string())), Some("/a".to_string()));
    assert_eq!(select_codex_home_env(Some(String::new())), None);
    assert_eq!(select_codex_home_env(None), None);
}
