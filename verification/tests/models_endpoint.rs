use solai_coder::models_endpoint::tags_status_error;
use solai_coder::models_endpoint::ollama_catalog;
use solai_coder::models_endpoint::ollama_host_root;
use solai_coder::models_endpoint::ollama_model_info;
use solai_coder::models_endpoint::ollama_tags_endpoint;
use solai_coder::models_endpoint::ModelsEndpointProvider;
use solai_coder::models_endpoint::ToolMode;
use solai_coder::models_endpoint::OLLAMA_MODEL_DESCRIPTION;

#[test]
fn ollama_models_mark_tool_capable_entries_with_code_mode() {
    let model = ollama_model_info(Some("ollama-tool-model")).expect("model should parse");
    assert_eq!(model.tool_mode, Some(ToolMode::CodeMode));
    assert!(!model.used_fallback_model_metadata);
}

#[test]
fn ollama_models_default_to_code_mode_even_without_tools_capability() {
    let model = ollama_model_info(Some("gemma3:4b")).expect("model should parse");
    assert_eq!(model.tool_mode, Some(ToolMode::CodeMode));
    assert_eq!(model.slug, "gemma3:4b");
}

#[test]
fn ollama_models_strip_latest_alias() {
    let model = ollama_model_info(Some("custom-local-model:latest")).expect("model should parse");
    assert_eq!(model.slug, "custom-local-model");
    assert_eq!(model.display_name, "custom-local-model");
    assert_eq!(model.tool_mode, Some(ToolMode::CodeMode));
}

#[test]
fn entries_without_a_name_are_skipped() {
    assert!(ollama_model_info(None).is_none());
}

#[test]
fn catalog_numbers_named_entries_in_order() {
    let catalog = ollama_catalog(vec![
        Some("qwen3:latest".to_string()),
        None,
        Some("llama3.1:8b".to_string()),
    ]);
    assert_eq!(catalog.len(), 2);
    assert_eq!(catalog[0].slug, "qwen3");
    assert_eq!(catalog[0].priority, 0);
    assert_eq!(catalog[1].slug, "llama3.1:8b");
    assert_eq!(catalog[1].display_name, "llama3.1:8b");
    assert_eq!(catalog[1].priority, 1);
    assert_eq!(catalog[1].description, OLLAMA_MODEL_DESCRIPTION);
    assert_eq!(catalog[1].description, "Modelo instalado no Ollama configurado");
}

#[test]
fn ollama_catalog_is_used_for_ollama_providers() {
    let by_name = ModelsEndpointProvider {
        name: "Local OLLAMA".to_string(),
        base_url: None,
    };
    assert!(by_name.has_ollama_catalog());
    assert!(by_name.has_provider_catalog());
    assert!(by_name.provider_catalog_is_authoritative());
    let by_port = ModelsEndpointProvider {
        name: "gpu box".to_string(),
        base_url: Some("http://10.0.0.2:11434/v1".to_string()),
    };
    assert!(by_port.has_ollama_catalog());
    let other = ModelsEndpointProvider {
        name: "vllm".to_string(),
        base_url: Some("http://10.0.0.2:8000/v1".to_string()),
    };
    assert!(!other.has_ollama_catalog());
    assert!(!other.provider_catalog_is_authoritative());
}

#[test]
fn tags_endpoint_is_on_the_host_root() {
    assert_eq!(ollama_host_root("  http://127.0.0.1:11434/v1/ "), "http://127.0.0.1:11434");
    assert_eq!(
        ollama_tags_endpoint(Some("http://127.0.0.1:11434/v1")),
        Ok("http://127.0.0.1:11434/api/tags".to_string())
    );
    assert_eq!(
        ollama_tags_endpoint(Some("http://h//v1")),
        Ok("http://h/api/tags".to_string())
    );
    assert_eq!(
        ollama_tags_endpoint(None),
        Err("Ollama base_url is required".to_string())
    );
}

#[test]
fn catalog_status_outside_2xx_is_an_error_with_the_status_text() {
    assert_eq!(tags_status_error(200, Some("OK")), None);
    assert_eq!(tags_status_error(299, None), None);
    assert_eq!(
        tags_status_error(404, Some("Not Found")),
        Some("failed to list Ollama models: HTTP 404 Not Found".to_string())
    );
    assert_eq!(
        tags_status_error(599, None),
        Some("failed to list Ollama models: HTTP 599 <unknown status code>".to_string())
    );
}

#[test]
fn catalog_status_error_reads_as_the_status_is_displayed() {
    for code in [204u16, 404, 500, 599] {
        let status = reqwest::StatusCode::from_u16(code).expect("valid status");
        let expected = if status.is_success() {
            None
        } else {
            Some(format!("failed to list Ollama models: HTTP {}", status))
        };
        assert_eq!(tags_status_error(status.as_u16(), status.canonical_reason()), expected);
    }
}
