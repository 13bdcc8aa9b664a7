use solai_coder::client::compact_ollama_base_instructions;
use solai_coder::client::compact_solai_base_instructions_for_ollama;
use solai_coder::client::instructions_for_model_request;
use solai_coder::client::is_ollama_provider;
use solai_coder::client::is_solai_model;
use solai_coder::client::ollama_context_model_alias;
use solai_coder::client::ollama_chat_url;
use solai_coder::client::ollama_host_root;
use solai_coder::client::truncate_chars;
use solai_coder::client::uses_compact_ollama_prompt;
use solai_coder::client::uses_native_ollama_chat;
use solai_coder::client::uses_ollama_responses_compat;
use solai_coder::client::ApiProvider;
use solai_coder::client::ModelInstructionsSetting;
use solai_coder::client::OllamaSmartContextSetting;
use solai_coder::client::EMBEDDED_MODEL_INSTRUCTIONS_STUB;
use solai_coder::client::OLLAMA_COMPACT_BASE_INSTRUCTIONS;
use solai_coder::request_options::OllamaRequestOptions;
use solai_coder::client::context_alias_plan;
use solai_coder::client::responses_request_shape;
use solai_coder::client::ModelShape;
use solai_coder::client::PromptShape;
use solai_coder::client::RequestPrefixItem;
use solai_coder::client::compaction_request_plan;

const STOCK: &str = "You are a coding agent running in the terminal.";

fn provider(name: &str, base_url: &str) -> ApiProvider {
    ApiProvider {
        name: name.to_string(),
        base_url: base_url.to_string(),
    }
}

#[test]
fn ollama_provider_is_recognised_by_name_or_port() {
    assert!(is_ollama_provider(&provider("My OLLAMA box", "http://gpu:8080/v1")));
    assert!(is_ollama_provider(&provider("local", "http://127.0.0.1:11434/v1")));
    assert!(!is_ollama_provider(&provider("LM Studio", "http://127.0.0.1:1234/v1")));
}

#[test]
fn solai_models_start_with_solai_in_any_case() {
    assert!(is_solai_model("SolaiAgent-30B-tools"));
    assert!(is_solai_model("solai"));
    assert!(!is_solai_model("qwen3-coder:30b"));
    assert!(!is_solai_model("my-solai"));
}

#[test]
fn host_root_strips_one_v1() {
    assert_eq!(ollama_host_root("http://127.0.0.1:11434/v1/"), "http://127.0.0.1:11434");
    assert_eq!(ollama_host_root("http://h/v1/v1"), "http://h/v1");
    assert_eq!(ollama_host_root("http://h"), "http://h");
}

#[test]
fn context_alias_drops_the_tag() {
    assert_eq!(ollama_context_model_alias("qwen3:30b", 32768), "qwen3_ctx32768");
    assert_eq!(ollama_context_model_alias("qwen3", 4096), "qwen3_ctx4096");
    assert_eq!(
        ollama_context_model_alias("registry:5000/org/model", 8192),
        "registry:5000/org/model_ctx8192"
    );
    assert_eq!(ollama_context_model_alias("a:b:c", -1), "a:b_ctx-1");
}

#[test]
fn truncation_marks_the_cut() {
    assert_eq!(truncate_chars("abc", 3), "abc");
    assert_eq!(truncate_chars("abcdef", 3), "abc\n[truncated]");
    assert_eq!(truncate_chars("ééé", 2), "éé\n[truncated]");
    assert_eq!(truncate_chars("", 0), "");
}

#[test]
fn compact_prompt_replaces_stock_instructions() {
    assert_eq!(
        compact_ollama_base_instructions(STOCK, STOCK),
        OLLAMA_COMPACT_BASE_INSTRUCTIONS
    );
    let marked = "You are a coding agent running in X. Your capabilities: Y. Emit function calls Z.";
    assert_eq!(
        compact_ollama_base_instructions(marked, STOCK),
        OLLAMA_COMPACT_BASE_INSTRUCTIONS
    );
    assert_eq!(
        compact_ollama_base_instructions("Be brief.", STOCK),
        format!("{OLLAMA_COMPACT_BASE_INSTRUCTIONS}\n\nUser configured base instructions:\nBe brief.")
    );
}

#[test]
fn compact_prompt_cuts_long_custom_instructions() {
    let long = "x".repeat(2500);
    let compact = compact_ollama_base_instructions(&long, STOCK);
    let expected = format!(
        "{OLLAMA_COMPACT_BASE_INSTRUCTIONS}\n\nUser configured base instructions:\n{}\n[truncated]",
        "x".repeat(2000)
    );
    assert_eq!(compact, expected);
}

#[test]
fn compat_path_and_compact_prompt_selection() {
    let ollama = provider("ollama", "http://127.0.0.1:11434/v1");
    let other = provider("vllm", "http://127.0.0.1:8000/v1");
    let small = OllamaRequestOptions { num_ctx: Some(8192) };
    let large = OllamaRequestOptions { num_ctx: Some(8193) };
    assert!(uses_ollama_responses_compat(&ollama, None));
    assert!(uses_ollama_responses_compat(&other, Some(&large)));
    assert!(!uses_ollama_responses_compat(&other, None));
    assert!(uses_compact_ollama_prompt(&other, Some(&small)));
    assert!(!uses_compact_ollama_prompt(&ollama, Some(&large)));
    assert!(!uses_compact_ollama_prompt(&ollama, None));
}

#[test]
fn native_chat_only_for_ollama_with_smart_context_or_tools() {
    let ollama = provider("ollama", "http://127.0.0.1:11434/v1");
    let other = provider("vllm", "http://127.0.0.1:8000/v1");
    let tool: serde_json::Value = serde_json::from_str(r#"{"type":"function"}"#).expect("json");
    assert!(uses_native_ollama_chat(&ollama, &None, OllamaSmartContextSetting::Enabled));
    assert!(uses_native_ollama_chat(&ollama, &Some(vec![tool.clone()]), OllamaSmartContextSetting::Disabled));
    assert!(!uses_native_ollama_chat(&ollama, &Some(Vec::new()), OllamaSmartContextSetting::Disabled));
    assert!(!uses_native_ollama_chat(&other, &Some(vec![tool]), OllamaSmartContextSetting::Enabled));
}

#[test]
fn embedded_instructions_only_for_solai_models_on_ollama() {
    let ollama = provider("ollama", "http://127.0.0.1:11434/v1");
    let other = provider("vllm", "http://127.0.0.1:8000/v1");
    assert_eq!(
        instructions_for_model_request(
            &ollama,
            "SolaiAgent-30B-tools",
            STOCK,
            true,
            ModelInstructionsSetting::from_embedded(true),
            STOCK
        ),
        EMBEDDED_MODEL_INSTRUCTIONS_STUB
    );
    assert_eq!(
        instructions_for_model_request(
            &other,
            "SolaiAgent-30B-tools",
            "custom",
            false,
            ModelInstructionsSetting::EmbeddedInModel,
            STOCK
        ),
        "custom"
    );
    assert_eq!(
        instructions_for_model_request(
            &ollama,
            "qwen3",
            STOCK,
            true,
            ModelInstructionsSetting::SendBaseInstructions,
            STOCK
        ),
        OLLAMA_COMPACT_BASE_INSTRUCTIONS
    );
}

#[test]
fn solai_instructions_are_compacted_only_with_smart_context() {
    let mut instructions = STOCK.to_string();
    compact_solai_base_instructions_for_ollama(
        "solai-7b",
        &mut instructions,
        OllamaSmartContextSetting::from_enabled(false),
        STOCK,
    );
    assert_eq!(instructions, STOCK);
    compact_solai_base_instructions_for_ollama(
        "solai-7b",
        &mut instructions,
        OllamaSmartContextSetting::Enabled,
        STOCK,
    );
    assert_eq!(instructions, OLLAMA_COMPACT_BASE_INSTRUCTIONS);
    let mut stub = EMBEDDED_MODEL_INSTRUCTIONS_STUB.to_string();
    compact_solai_base_instructions_for_ollama(
        "solai-7b",
        &mut stub,
        OllamaSmartContextSetting::Enabled,
        STOCK,
    );
    assert_eq!(stub, EMBEDDED_MODEL_INSTRUCTIONS_STUB);
    let mut blank = "   ".to_string();
    compact_solai_base_instructions_for_ollama(
        "solai-7b",
        &mut blank,
        OllamaSmartContextSetting::Enabled,
        STOCK,
    );
    assert_eq!(blank, "   ");
}

#[test]
fn context_alias_is_planned_for_ollama_requests_with_a_context_size() {
    let ollama = provider("ollama", "http://127.0.0.1:11434/v1/");
    let options = OllamaRequestOptions { num_ctx: Some(16384) };
    let plan = context_alias_plan(&ollama, "qwen3:30b", Some(&options)).expect("alias planned");
    assert_eq!(plan.create_url, "http://127.0.0.1:11434/api/create");
    assert_eq!(plan.from, "qwen3:30b");
    assert_eq!(plan.alias, "qwen3_ctx16384");
    assert_eq!(plan.num_ctx, 16384);
    assert!(context_alias_plan(&ollama, "qwen3", None).is_none());
    assert!(context_alias_plan(&ollama, "qwen3", Some(&OllamaRequestOptions { num_ctx: None })).is_none());
    let other = provider("vllm", "http://127.0.0.1:8000/v1");
    assert!(context_alias_plan(&other, "qwen3", Some(&options)).is_none());
}

#[test]
fn native_chat_url_is_on_the_host_root() {
    assert_eq!(ollama_chat_url("http://127.0.0.1:11434/v1"), "http://127.0.0.1:11434/api/chat");
    assert_eq!(ollama_chat_url("http://gpu:11434//"), "http://gpu:11434/api/chat");
}

fn prompt(base: &str, parallel: bool) -> PromptShape {
    PromptShape {
        base_instructions: base.to_string(),
        parallel_tool_calls: parallel,
    }
}

fn model(slug: &str, lite: bool, reasoning: bool) -> ModelShape {
    ModelShape {
        slug: slug.to_string(),
        use_responses_lite: lite,
        supports_reasoning_summaries: reasoning,
    }
}

#[test]
fn responses_request_carries_instructions_and_tools_in_their_fields() {
    let shape = responses_request_shape(
        &provider("openai", "https://api.openai.com/v1"),
        None,
        false,
        &prompt(STOCK, true),
        &model("gpt-5", false, true),
        ModelInstructionsSetting::SendBaseInstructions,
        STOCK,
    );
    assert_eq!(shape.model, "gpt-5");
    assert_eq!(shape.instructions, STOCK);
    assert!(shape.tools_in_field);
    assert!(!shape.function_tools_only);
    assert!(shape.input_prefix.is_empty());
    assert_eq!(shape.tool_choice, "auto");
    assert!(shape.parallel_tool_calls);
    assert!(shape.reasoning);
    assert_eq!(shape.extra_outputs, vec!["reasoning.encrypted_content".to_string()]);
    assert!(!shape.store);
    assert!(shape.stream);
}

#[test]
fn responses_lite_request_moves_tools_and_instructions_into_the_input() {
    let ollama = provider("ollama", "http://localhost:11434/v1");
    let options = OllamaRequestOptions { num_ctx: Some(4096) };
    let shape = responses_request_shape(
        &ollama,
        Some(&options),
        true,
        &prompt(STOCK, true),
        &model("qwen3", true, false),
        ModelInstructionsSetting::SendBaseInstructions,
        STOCK,
    );
    let expected = instructions_for_model_request(
        &ollama,
        "qwen3",
        STOCK,
        true,
        ModelInstructionsSetting::SendBaseInstructions,
        STOCK,
    );
    assert_eq!(expected, OLLAMA_COMPACT_BASE_INSTRUCTIONS);
    assert_eq!(shape.instructions, "");
    assert!(!shape.tools_in_field);
    assert!(shape.function_tools_only);
    assert_eq!(shape.input_prefix.len(), 2);
    assert!(matches!(shape.input_prefix[0], RequestPrefixItem::AdditionalTools));
    match &shape.input_prefix[1] {
        RequestPrefixItem::DeveloperInstructions(text) => assert_eq!(text, &expected),
        RequestPrefixItem::AdditionalTools => panic!("expected the instructions"),
    }
    assert!(!shape.parallel_tool_calls);
    assert!(!shape.reasoning);
    assert!(shape.extra_outputs.is_empty());
    assert!(shape.store);
    assert!(shape.stream);
}

#[test]
fn responses_lite_request_without_instructions_has_only_the_tools_item() {
    let shape = responses_request_shape(
        &provider("openai", "https://api.openai.com/v1"),
        None,
        false,
        &prompt("", true),
        &model("gpt-5-lite", true, true),
        ModelInstructionsSetting::SendBaseInstructions,
        STOCK,
    );
    assert_eq!(shape.input_prefix.len(), 1);
    assert!(matches!(shape.input_prefix[0], RequestPrefixItem::AdditionalTools));
    assert!(!shape.parallel_tool_calls);
    assert!(shape.reasoning);
}

#[test]
fn compaction_of_an_empty_conversation_sends_nothing() {
    let plan = compaction_request_plan(
        0,
        &provider("openai", "https://api.openai.com/v1"),
        None,
        false,
        &prompt(STOCK, true),
        &model("gpt-5", false, true),
        STOCK,
        300,
        0,
    );
    assert!(plan.is_none());
}

#[test]
fn compaction_request_uses_base_instructions_and_four_idle_timeouts() {
    let ollama = provider("ollama", "http://localhost:11434/v1");
    let plan = compaction_request_plan(
        3,
        &ollama,
        None,
        false,
        &prompt(STOCK, true),
        &model("solai-agent:latest", false, false),
        STOCK,
        300,
        250_000_000,
    )
    .expect("a plan for a non-empty conversation");
    assert_eq!(plan.endpoint, "/responses/compact");
    assert_eq!(plan.request.instructions, STOCK);
    assert_eq!(plan.request.model, "solai-agent:latest");
    assert!(plan.request.function_tools_only);
    assert_eq!((plan.timeout_secs, plan.timeout_nanos), (1201, 0));
    let saturated = compaction_request_plan(
        1,
        &ollama,
        None,
        false,
        &prompt(STOCK, true),
        &model("m", false, false),
        STOCK,
        u64::MAX,
        0,
    )
    .expect("a plan");
    assert_eq!((saturated.timeout_secs, saturated.timeout_nanos), (u64::MAX, 999_999_999));
}
