use solai_coder::request_options::chat_request;
use solai_coder::request_options::generate_request;
use solai_coder::request_options::request_options_for_config;
use solai_coder::request_options::request_options_for_provider;
use solai_coder::request_options::skip_empty_options;
use solai_coder::request_options::Config;
use solai_coder::request_options::OllamaRequestOptions;

#[test]
fn generate_request_includes_num_ctx_when_configured() {
    let body = generate_request(
        "qwen30",
        "responda apenas: ok",
        Some(OllamaRequestOptions {
            num_ctx: Some(32_768),
        }),
    );
    assert_eq!(body.model, "qwen30");
    assert_eq!(body.prompt, "responda apenas: ok");
    assert!(!skip_empty_options(&body.options));
    assert_eq!(
        body.options,
        Some(OllamaRequestOptions {
            num_ctx: Some(32_768)
        })
    );
}

#[test]
fn chat_request_includes_num_ctx_when_configured() {
    let message: serde_json::Value =
        serde_json::from_str(r#"{"role": "user", "content": "responda apenas: ok"}"#)
            .expect("message parses");
    let messages = vec![message.clone()];
    let body = chat_request(
        "qwen30",
        &messages,
        Some(OllamaRequestOptions {
            num_ctx: Some(32_768),
        }),
    );
    assert_eq!(body.model, "qwen30");
    assert_eq!(body.messages, &[message][..]);
    assert!(!skip_empty_options(&body.options));
    assert_eq!(
        body.options,
        Some(OllamaRequestOptions {
            num_ctx: Some(32_768)
        })
    );
}

#[test]
fn request_options_omits_num_ctx_when_unset() {
    let body = generate_request(
        "qwen30",
        "responda apenas: ok",
        Some(OllamaRequestOptions::default()),
    );
    assert_eq!(body.model, "qwen30");
    assert_eq!(body.prompt, "responda apenas: ok");
    assert!(skip_empty_options(&body.options));
}

#[test]
fn request_options_return_none_for_other_providers() {
    assert_eq!(request_options_for_provider("llamacpp", Some(32_768)), None);
}

#[test]
fn request_options_return_num_ctx_only_for_ollama() {
    assert_eq!(
        request_options_for_provider("ollama", Some(32_768)),
        Some(OllamaRequestOptions {
            num_ctx: Some(32_768)
        })
    );
}

#[test]
fn absent_options_are_skipped_too() {
    assert!(skip_empty_options(&None));
    assert!(OllamaRequestOptions::default().is_empty());
}

#[test]
fn options_from_config_follow_the_provider() {
    let ollama = Config {
        model_provider_id: "ollama".to_string(),
        ollama_num_ctx: None,
    };
    assert_eq!(
        request_options_for_config(&ollama),
        Some(OllamaRequestOptions { num_ctx: None })
    );
    let other = Config {
        model_provider_id: "Ollama".to_string(),
        ollama_num_ctx: Some(8192),
    };
    assert_eq!(request_options_for_config(&other), None);
}
