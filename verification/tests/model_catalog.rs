use solai_coder::model_catalog::local_provider_model_description;
use solai_coder::model_catalog::local_provider_model_presets;
use solai_coder::provider_config::DetectedProviderModel;

fn model(id: &str, supports_tools: Option<bool>, context_window: Option<i64>) -> DetectedProviderModel {
    DetectedProviderModel {
        id: id.to_string(),
        supports_tools,
        context_window,
    }
}

#[test]
fn description_names_tool_support_and_context() {
    assert_eq!(
        local_provider_model_description(&model("a", Some(true), Some(131072))),
        "Local provider model; tools enabled; 131072 context tokens"
    );
    assert_eq!(
        local_provider_model_description(&model("a", Some(false), None)),
        "Local provider model; tools unavailable"
    );
    assert_eq!(
        local_provider_model_description(&model("a", None, Some(-5))),
        "Local provider model; tool support unknown; -5 context tokens"
    );
}

#[test]
fn presets_keep_order_and_mark_the_first_default() {
    let presets = local_provider_model_presets(&vec![
        model("llama3.1:8b", Some(true), Some(32768)),
        model("gemma3:4b", None, None),
    ]);
    assert_eq!(presets.len(), 2);
    assert_eq!(presets[0].id, "llama3.1:8b");
    assert_eq!(presets[0].model, "llama3.1:8b");
    assert_eq!(presets[0].display_name, "llama3.1:8b");
    assert!(presets[0].is_default);
    assert!(!presets[1].is_default);
    assert!(presets[1].show_in_picker);
    assert!(presets[1].supported_in_api);
    assert!(!presets[1].supports_personality);
    assert_eq!(presets[1].description, "Local provider model; tool support unknown");
    assert!(local_provider_model_presets(&Vec::new()).is_empty());
}
