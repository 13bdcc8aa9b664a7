//! How model requests are shaped for Ollama providers: detecting Ollama,
//! choosing and compacting instructions, naming context-size model
//! aliases, and turning conversation items into native chat messages.

use vstd::prelude::*;

use crate::request_options::OllamaRequestOptions;
use crate::text::{
    ascii_lower, ascii_lower_vec, chars_eq, chars_of, contains, contains_seq, ends_with,
    extend_chars, has_char, is_prefix_of, push_signed_decimal, rfind_char, signed_decimal,
    starts_with, string_of, strip_suffix, sub_chars, trim_end_char, trim_end_char_vec, trim_ws,
    trim_ws_vec,
};

verus! {

/// Context sizes at or below this use the compact Ollama prompt.
pub const OLLAMA_COMPACT_CONTEXT_THRESHOLD: i64 = 8192;

/// Custom base instructions are cut to this many characters in the compact prompt.
pub const OLLAMA_CUSTOM_INSTRUCTIONS_MAX_CHARS: usize = 2000;

/// The compact base instructions used for small-context Ollama models.
pub const OLLAMA_COMPACT_BASE_INSTRUCTIONS: &'static str = "You are SolaiAgent, a concise coding agent in a terminal. Follow user and repository instructions. Use tools when needed, explain actions briefly, edit carefully, preserve user changes, and verify with focused commands. On Windows, prefer PowerShell-safe commands. Do not download models unless explicitly asked.";

/// The short pointer sent instead of base instructions to models that
/// embed them.
pub const EMBEDDED_MODEL_INSTRUCTIONS_STUB: &'static str = "Follow the instructions embedded in the selected SolaiAgent model.
Use the supplied tools, current conversation context, repository instructions, and runtime state.
For coding tasks, keep working autonomously until the requested deliverable is complete: inspect relevant files, make the necessary edits, verify them with focused commands, and report the result.
When the user asks to fix, correct, implement, or update code, treat diagnosis as an intermediate step, not the final answer.
Do not stop after stating intent, after reading files, or after naming a likely cause when more tool work is needed and can safely continue.
Only stop before editing when required information is missing, the target files cannot be found, or the change is risky enough to need user confirmation.";

/// Whether Ollama smart context is on.
#[derive(Clone, Copy, Debug, PartialEq, Eq, Structural)]
pub enum OllamaSmartContextSetting {
    Disabled,
    Enabled,
}

impl OllamaSmartContextSetting {
    pub fn from_enabled(enabled: bool) -> (r: Self)
        ensures
            r == (if enabled {
                OllamaSmartContextSetting::Enabled
            } else {
                OllamaSmartContextSetting::Disabled
            }),
    {
        if enabled {
            Self::Enabled
        } else {
            Self::Disabled
        }
    }
}

/// Whether the model already embeds the base instructions.
#[derive(Clone, Copy, Debug, PartialEq, Eq, Structural)]
pub enum ModelInstructionsSetting {
    SendBaseInstructions,
    EmbeddedInModel,
}

impl ModelInstructionsSetting {
    pub fn from_embedded(enabled: bool) -> (r: Self)
        ensures
            r == (if enabled {
                ModelInstructionsSetting::EmbeddedInModel
            } else {
                ModelInstructionsSetting::SendBaseInstructions
            }),
    {
        if enabled {
            Self::EmbeddedInModel
        } else {
            Self::SendBaseInstructions
        }
    }
}

/// The name and base URL of the provider a request goes to.
pub struct ApiProvider {
    pub name: String,
    pub base_url: String,
}

/// The provider is Ollama: its name mentions `ollama` or its base URL uses
/// port 11434 (case-insensitively).
pub open spec fn spec_is_ollama_provider(name: Seq<char>, base_url: Seq<char>) -> bool {
    contains_seq(ascii_lower(name), "ollama"@) || contains_seq(ascii_lower(base_url), ":11434"@)
}

/// Whether the provider is an Ollama server.
pub fn is_ollama_provider(provider: &ApiProvider) -> (r: bool)
    ensures
        r == spec_is_ollama_provider(provider.name@, provider.base_url@),
{
    let name = ascii_lower_vec(&chars_of(provider.name.as_str()));
    let base_url = ascii_lower_vec(&chars_of(provider.base_url.as_str()));
    contains(&name, &chars_of("ollama")) || contains(&base_url, &chars_of(":11434"))
}

/// The model is a SolaiAgent model (its name starts with `solai`, in any ASCII case).
pub open spec fn spec_is_solai_model(model: Seq<char>) -> bool {
    is_prefix_of("solai"@, ascii_lower(model))
}

/// Whether the model is a SolaiAgent model.
pub fn is_solai_model(model: &str) -> (r: bool)
    ensures
        r == spec_is_solai_model(model@),
{
    let lowered = ascii_lower_vec(&chars_of(model));
    starts_with(&lowered, &chars_of("solai"))
}

/// The Ollama host root of a base URL: trailing slashes and one trailing
/// `/v1` removed.
pub open spec fn spec_client_ollama_host_root(base_url: Seq<char>) -> Seq<char> {
    let trimmed = trim_end_char(base_url, '/');
    match strip_suffix(trimmed, "/v1"@) {
        Some(s) => s,
        None => trimmed,
    }
}

/// The Ollama host root of a base URL.
pub fn ollama_host_root(base_url: &str) -> (r: String)
    ensures
        r@ == spec_client_ollama_host_root(base_url@),
{
    let trimmed = trim_end_char_vec(&chars_of(base_url), '/');
    let v1 = chars_of("/v1");
    if ends_with(&trimmed, &v1) {
        let k = trimmed.len() - v1.len();
        let t = sub_chars(&trimmed, 0, k);
        assert(trimmed@.subrange(0, k as int) =~= trimmed@.take(k as int));
        string_of(&t)
    } else {
        string_of(&trimmed)
    }
}

/// The model name without its tag (the part after the last `:`, unless that
/// part contains `/`).
pub open spec fn model_without_tag(model: Seq<char>) -> Seq<char> {
    if has_char(model, ':') {
        let i = choose|i: int|
            0 <= i < model.len() && model[i] == ':' && forall|j: int|
                i < j < model.len() ==> model[j] != ':';
        if has_char(model.skip(i + 1), '/') {
            model
        } else {
            model.take(i)
        }
    } else {
        model
    }
}

/// The alias of a model with a fixed context size: `<name>_ctx<num_ctx>`.
pub open spec fn spec_ollama_context_model_alias(model: Seq<char>, num_ctx: i64) -> Seq<char> {
    model_without_tag(model) + "_ctx"@ + signed_decimal(num_ctx as int)
}

/// The name of the Ollama model alias that fixes the context size.
pub fn ollama_context_model_alias(model: &str, num_ctx: i64) -> (r: String)
    ensures
        r@ == spec_ollama_context_model_alias(model@, num_ctx),
{
    let m = chars_of(model);
    let mut out: Vec<char> = match rfind_char(&m, ':') {
        Some(i) => {
            proof {
                let c = choose|c: int|
                    0 <= c < m@.len() && m@[c] == ':' && forall|j: int|
                        c < j < m@.len() ==> m@[j] != ':';
                assert(m@[i as int] == ':');
                if c < i {
                } else if i < c {
                }
                assert(c == i);
            }
            assert(m@.len() == m.len());
            let tag = sub_chars(&m, i + 1, m.len());
            assert(tag@ =~= m@.skip(i + 1));
            match crate::text::find_char(&tag, '/') {
                Some(_) => sub_chars(&m, 0, m.len()),
                None => sub_chars(&m, 0, i),
            }
        },
        None => sub_chars(&m, 0, m.len()),
    };
    assert(out@ =~= model_without_tag(model@));
    let suffix = chars_of("_ctx");
    extend_chars(&mut out, &suffix);
    push_signed_decimal(&mut out, num_ctx);
    assert(out@ =~= spec_ollama_context_model_alias(model@, num_ctx));
    string_of(&out)
}

/// `text` if it has at most `max_chars` characters, else its first
/// `max_chars` characters followed by a `[truncated]` line.
pub open spec fn spec_truncate_chars(text: Seq<char>, max_chars: usize) -> Seq<char> {
    if text.len() <= max_chars {
        text
    } else {
        text.take(max_chars as int) + "\n[truncated]"@
    }
}

/// Cuts `text` to `max_chars` characters, marking the cut.
pub fn truncate_chars(text: &str, max_chars: usize) -> (r: String)
    ensures
        r@ == spec_truncate_chars(text@, max_chars),
{
    let cs = chars_of(text);
    if cs.len() <= max_chars {
        return String::from_str(text);
    }
    let head = sub_chars(&cs, 0, max_chars);
    let mut s = string_of(&head);
    s.append("\n[truncated]");
    assert(cs@.subrange(0, max_chars as int) =~= cs@.take(max_chars as int));
    s
}

/// The base instructions are the stock ones: equal to `default_instructions`,
/// or carrying the three markers of the stock text.
pub open spec fn is_default_base_instructions(
    base: Seq<char>,
    default_instructions: Seq<char>,
) -> bool {
    base == default_instructions || (contains_seq(base, "You are a coding agent running in"@)
        && contains_seq(base, "Your capabilities:"@) && contains_seq(base, "Emit function calls"@))
}

/// The compact instructions for a small-context Ollama model: the compact
/// text alone for stock instructions, else the compact text followed by the
/// user's instructions cut to the limit.
pub open spec fn spec_compact_ollama_base_instructions(
    base: Seq<char>,
    default_instructions: Seq<char>,
) -> Seq<char> {
    if is_default_base_instructions(base, default_instructions) {
        OLLAMA_COMPACT_BASE_INSTRUCTIONS@
    } else {
        OLLAMA_COMPACT_BASE_INSTRUCTIONS@ + "\n\nUser configured base instructions:\n"@
            + spec_truncate_chars(base, OLLAMA_CUSTOM_INSTRUCTIONS_MAX_CHARS)
    }
}

/// The compact base instructions for `base_instructions`, where
/// `default_instructions` is the stock text shipped with the agent.
pub fn compact_ollama_base_instructions(base_instructions: &str, default_instructions: &str) -> (r:
    String)
    ensures
        r@ == spec_compact_ollama_base_instructions(base_instructions@, default_instructions@),
{
    let base = chars_of(base_instructions);
    let stock = chars_of(default_instructions);
    let is_default = chars_eq(&base, &stock) || (contains(
        &base,
        &chars_of("You are a coding agent running in"),
    ) && contains(&base, &chars_of("Your capabilities:")) && contains(
        &base,
        &chars_of("Emit function calls"),
    ));
    if is_default {
        return String::from_str(OLLAMA_COMPACT_BASE_INSTRUCTIONS);
    }
    let custom = truncate_chars(base_instructions, OLLAMA_CUSTOM_INSTRUCTIONS_MAX_CHARS);
    let mut s = String::from_str(OLLAMA_COMPACT_BASE_INSTRUCTIONS);
    s.append("\n\nUser configured base instructions:\n");
    s.append(custom.as_str());
    s
}

/// The request uses the Ollama compatibility path: it carries Ollama
/// options, or goes to an Ollama provider.
pub open spec fn spec_uses_ollama_responses_compat(
    provider: ApiProvider,
    options: Option<OllamaRequestOptions>,
) -> bool {
    options is Some || spec_is_ollama_provider(provider.name@, provider.base_url@)
}

/// Whether the request uses the Ollama compatibility path.
pub fn uses_ollama_responses_compat(
    provider: &ApiProvider,
    provider_request_options: Option<&OllamaRequestOptions>,
) -> (r: bool)
    ensures
        r == spec_uses_ollama_responses_compat(
            *provider,
            match provider_request_options {
                Some(o) => Some(*o),
                None => None,
            },
        ),
{
    if provider_request_options.is_some() {
        return true;
    }
    is_ollama_provider(provider)
}

/// Whether the request uses the compact Ollama prompt: the compatibility
/// path with a context size of at most the threshold.
pub fn uses_compact_ollama_prompt(
    provider: &ApiProvider,
    provider_request_options: Option<&OllamaRequestOptions>,
) -> (r: bool)
    ensures
        r == (spec_uses_ollama_responses_compat(
            *provider,
            match provider_request_options {
                Some(o) => Some(*o),
                None => None,
            },
        ) && match provider_request_options {
            Some(o) => match o.num_ctx {
                Some(n) => n <= OLLAMA_COMPACT_CONTEXT_THRESHOLD,
                None => false,
            },
            None => false,
        }),
{
    uses_ollama_responses_compat(provider, provider_request_options) && match provider_request_options {
        Some(o) => match o.num_ctx {
            Some(n) => n <= OLLAMA_COMPACT_CONTEXT_THRESHOLD,
            None => false,
        },
        None => false,
    }
}

/// Whether the request goes through Ollama's native `/api/chat`: only for
/// Ollama providers, when smart context is on or the request has tools.
pub fn uses_native_ollama_chat(
    provider: &ApiProvider,
    request_tools: &Option<Vec<serde_json::Value>>,
    ollama_smart_context: OllamaSmartContextSetting,
) -> (r: bool)
    ensures
        r == (spec_is_ollama_provider(provider.name@, provider.base_url@) && (ollama_smart_context
            == OllamaSmartContextSetting::Enabled || match request_tools {
            Some(t) => t@.len() > 0,
            None => false,
        })),
{
    if !is_ollama_provider(provider) {
        return false;
    }
    ollama_smart_context == OllamaSmartContextSetting::Enabled || match request_tools {
        Some(t) => t.len() > 0,
        None => false,
    }
}

/// The instructions sent with a request.
pub open spec fn spec_instructions_for_model_request(
    provider: ApiProvider,
    model: Seq<char>,
    base_instructions: Seq<char>,
    compact_ollama_prompt: bool,
    model_instructions: ModelInstructionsSetting,
    default_instructions: Seq<char>,
) -> Seq<char> {
    if model_instructions == ModelInstructionsSetting::EmbeddedInModel && spec_is_ollama_provider(
        provider.name@,
        provider.base_url@,
    ) && spec_is_solai_model(model) {
        EMBEDDED_MODEL_INSTRUCTIONS_STUB@
    } else if compact_ollama_prompt {
        spec_compact_ollama_base_instructions(base_instructions, default_instructions)
    } else {
        base_instructions
    }
}

/// The instructions sent with a request: the embedded-instructions pointer
/// for SolaiAgent models on Ollama that embed them, the compact text when
/// asked for, else the base instructions.
pub fn instructions_for_model_request(
    provider: &ApiProvider,
    model: &str,
    base_instructions: &str,
    compact_ollama_prompt: bool,
    model_instructions: ModelInstructionsSetting,
    default_instructions: &str,
) -> (r: String)
    ensures
        r@ == spec_instructions_for_model_request(
            *provider,
            model@,
            base_instructions@,
            compact_ollama_prompt,
            model_instructions,
            default_instructions@,
        ),
{
    if model_instructions == ModelInstructionsSetting::EmbeddedInModel && is_ollama_provider(
        provider,
    ) && is_solai_model(model) {
        return String::from_str(EMBEDDED_MODEL_INSTRUCTIONS_STUB);
    }
    if compact_ollama_prompt {
        compact_ollama_base_instructions(base_instructions, default_instructions)
    } else {
        String::from_str(base_instructions)
    }
}

/// The instructions after the SolaiAgent compaction for Ollama: compacted
/// only with smart context on, for a SolaiAgent model, with non-blank
/// instructions that are not the embedded-instructions pointer.
pub open spec fn spec_compact_solai_instructions(
    model: Seq<char>,
    instructions: Seq<char>,
    ollama_smart_context: OllamaSmartContextSetting,
    default_instructions: Seq<char>,
) -> Seq<char> {
    if ollama_smart_context != OllamaSmartContextSetting::Enabled || !spec_is_solai_model(model)
        || trim_ws(instructions).len() == 0 || instructions == EMBEDDED_MODEL_INSTRUCTIONS_STUB@ {
        instructions
    } else {
        spec_compact_ollama_base_instructions(instructions, default_instructions)
    }
}

/// Compacts the SolaiAgent base instructions of a request bound for Ollama.
pub fn compact_solai_base_instructions_for_ollama(
    model: &str,
    instructions: &mut String,
    ollama_smart_context: OllamaSmartContextSetting,
    default_instructions: &str,
)
    ensures
        final(instructions)@ == spec_compact_solai_instructions(
            model@,
            old(instructions)@,
            ollama_smart_context,
            default_instructions@,
        ),
{
    let current = chars_of(instructions.as_str());
    let trimmed = trim_ws_vec(&current);
    let stub = chars_of(EMBEDDED_MODEL_INSTRUCTIONS_STUB);
    if ollama_smart_context != OllamaSmartContextSetting::Enabled || !is_solai_model(model)
        || trimmed.len() == 0 || chars_eq(&current, &stub) {
        return;
    }
    let compacted = compact_ollama_base_instructions(instructions.as_str(), default_instructions);
    *instructions = compacted;
}

/// The Ollama request that creates the context-size alias of a model: the
/// create endpoint, the source model, the alias and the context size.
pub struct ContextAliasPlan {
    pub create_url: String,
    pub from: String,
    pub alias: String,
    pub num_ctx: i64,
}

/// The alias to create before a request: only for Ollama providers, when
/// the request fixes a context size and the alias differs from the model;
/// it is created at `<host root>/api/create`.
pub open spec fn spec_context_alias_plan(
    provider: ApiProvider,
    model: Seq<char>,
    options: Option<OllamaRequestOptions>,
) -> Option<(Seq<char>, Seq<char>, Seq<char>, i64)> {
    if !spec_is_ollama_provider(provider.name@, provider.base_url@) {
        None
    } else {
        match options {
            Some(o) => match o.num_ctx {
                Some(n) => {
                    let alias = spec_ollama_context_model_alias(model, n);
                    if alias == model {
                        None
                    } else {
                        Some(
                            (
                                trim_end_char(spec_client_ollama_host_root(provider.base_url@), '/')
                                    + "/api/create"@,
                                model,
                                alias,
                                n,
                            ),
                        )
                    }
                },
                None => None,
            },
            None => None,
        }
    }
}

/// Decides whether a request needs an Ollama context-size alias, and how to
/// create it.
pub fn context_alias_plan(
    provider: &ApiProvider,
    model: &str,
    options: Option<&OllamaRequestOptions>,
) -> (r: Option<ContextAliasPlan>)
    ensures
        match spec_context_alias_plan(
            *provider,
            model@,
            match options {
                Some(o) => Some(*o),
                None => None,
            },
        ) {
            Some(t) => r matches Some(p) && p.create_url@ == t.0 && p.from@ == t.1 && p.alias@
                == t.2 && p.num_ctx == t.3,
            None => r is None,
        },
{
    if !is_ollama_provider(provider) {
        return None;
    }
    let num_ctx = match options {
        Some(o) => match o.num_ctx {
            Some(n) => n,
            None => {
                return None;
            },
        },
        None => {
            return None;
        },
    };
    let alias = ollama_context_model_alias(model, num_ctx);
    if chars_eq(&chars_of(alias.as_str()), &chars_of(model)) {
        return None;
    }
    let root = ollama_host_root(provider.base_url.as_str());
    let trimmed = trim_end_char_vec(&chars_of(root.as_str()), '/');
    let mut create_url = string_of(&trimmed);
    create_url.append("/api/create");
    Some(ContextAliasPlan { create_url, from: String::from_str(model), alias, num_ctx })
}

/// The URL of Ollama's native chat endpoint for a provider base URL.
pub fn ollama_chat_url(base_url: &str) -> (r: String)
    ensures
        r@ == trim_end_char(spec_client_ollama_host_root(base_url@), '/') + "/api/chat"@,
{
    let root = ollama_host_root(base_url);
    let trimmed = trim_end_char_vec(&chars_of(root.as_str()), '/');
    let mut url = string_of(&trimmed);
    url.append("/api/chat");
    url
}

// ------------------------------------------------------------------
// The Responses request
// ------------------------------------------------------------------

/// What a Responses request is built from, of the prompt.
pub struct PromptShape {
    pub base_instructions: String,
    pub parallel_tool_calls: bool,
}

/// What a Responses request is built from, of the model.
pub struct ModelShape {
    pub slug: String,
    /// The model takes its tools and instructions in the input
    /// (Responses Lite).
    pub use_responses_lite: bool,
    /// The model reports reasoning summaries, so the request asks for reasoning.
    pub supports_reasoning_summaries: bool,
}

/// An item put before the conversation in a Responses Lite request.
pub enum RequestPrefixItem {
    /// The developer message that carries the request's tools.
    AdditionalTools,
    /// The developer message that carries the instructions.
    DeveloperInstructions(String),
}

/// The shape of a Responses request: everything but the conversation and
/// the tool definitions themselves.
pub struct ResponsesRequestShape {
    pub model: String,
    pub instructions: String,
    /// The tools go in the request's `tools` field (else in the input prefix).
    pub tools_in_field: bool,
    /// Only function tools are kept (the Ollama compatibility path).
    pub function_tools_only: bool,
    pub input_prefix: Vec<RequestPrefixItem>,
    pub tool_choice: String,
    pub parallel_tool_calls: bool,
    /// The request asks for reasoning.
    pub reasoning: bool,
    pub store: bool,
    pub stream: bool,
    /// The extra outputs the request asks for.
    pub extra_outputs: Vec<String>,
}

/// The request uses the compact Ollama prompt.
pub open spec fn spec_uses_compact_ollama_prompt(
    provider: ApiProvider,
    options: Option<OllamaRequestOptions>,
) -> bool {
    spec_uses_ollama_responses_compat(provider, options) && match options {
        Some(o) => match o.num_ctx {
            Some(n) => n <= OLLAMA_COMPACT_CONTEXT_THRESHOLD,
            None => false,
        },
        None => false,
    }
}

/// The instructions a Responses request is built with.
pub open spec fn spec_request_instructions(
    provider: ApiProvider,
    options: Option<OllamaRequestOptions>,
    prompt: PromptShape,
    model: ModelShape,
    model_instructions: ModelInstructionsSetting,
    default_instructions: Seq<char>,
) -> Seq<char> {
    spec_instructions_for_model_request(
        provider,
        model.slug@,
        prompt.base_instructions@,
        spec_uses_compact_ollama_prompt(provider, options),
        model_instructions,
        default_instructions,
    )
}

/// `r` is the shape of the Responses request for the given provider,
/// options, endpoint kind, prompt, model and instructions setting.
pub open spec fn is_responses_request_shape(
    r: ResponsesRequestShape,
    provider: ApiProvider,
    options: Option<OllamaRequestOptions>,
    is_azure_responses_endpoint: bool,
    prompt: PromptShape,
    model: ModelShape,
    model_instructions: ModelInstructionsSetting,
    default_instructions: Seq<char>,
) -> bool {
    let compat = spec_uses_ollama_responses_compat(provider, options);
    let instructions = spec_request_instructions(
        provider,
        options,
        prompt,
        model,
        model_instructions,
        default_instructions,
    );
    &&& r.model@ == model.slug@
    &&& model.use_responses_lite ==> {
        &&& r.instructions@ == Seq::<char>::empty()
        &&& !r.tools_in_field
        &&& r.input_prefix@.len() == if instructions.len() > 0 {
            2int
        } else {
            1int
        }
        &&& r.input_prefix@[0] is AdditionalTools
        &&& instructions.len() > 0 ==> (r.input_prefix@[1] matches RequestPrefixItem::DeveloperInstructions(t)
            && t@ == instructions)
    }
    &&& !model.use_responses_lite ==> {
        &&& r.instructions@ == instructions
        &&& r.tools_in_field
        &&& r.input_prefix@.len() == 0
    }
    &&& r.function_tools_only == compat
    &&& r.tool_choice@ == "auto"@
    &&& r.parallel_tool_calls == (prompt.parallel_tool_calls && !model.use_responses_lite
        && !compat)
    &&& r.reasoning == model.supports_reasoning_summaries
    &&& r.extra_outputs@.len() == if model.supports_reasoning_summaries {
        1int
    } else {
        0int
    }
    &&& model.supports_reasoning_summaries ==> r.extra_outputs@[0]@
        == "reasoning.encrypted_content"@
    &&& r.store == is_azure_responses_endpoint
    &&& r.stream
}

/// The shape of the Responses request for a prompt and model: the model's
/// slug; for Responses Lite, empty instructions and no `tools` field, with
/// the tools and then the non-empty instructions as developer messages
/// before the conversation, else the instructions and tools in their fields;
/// only function tools on the Ollama compatibility path; tool choice
/// `auto`; parallel tool calls only when the prompt allows them, outside
/// Responses Lite and the compatibility path; reasoning, and the encrypted
/// reasoning content, exactly when the model reports reasoning summaries;
/// stored only on an Azure Responses endpoint; always streamed.
pub fn responses_request_shape(
    provider: &ApiProvider,
    provider_request_options: Option<&OllamaRequestOptions>,
    is_azure_responses_endpoint: bool,
    prompt: &PromptShape,
    model: &ModelShape,
    model_instructions: ModelInstructionsSetting,
    default_instructions: &str,
) -> (r: ResponsesRequestShape)
    ensures
        is_responses_request_shape(
            r,
            *provider,
            match provider_request_options {
                Some(o) => Some(*o),
                None => None,
            },
            is_azure_responses_endpoint,
            *prompt,
            *model,
            model_instructions,
            default_instructions@,
        ),
{
    let compat = uses_ollama_responses_compat(provider, provider_request_options);
    let compact = uses_compact_ollama_prompt(provider, provider_request_options);
    let request_instructions = instructions_for_model_request(
        provider,
        model.slug.as_str(),
        prompt.base_instructions.as_str(),
        compact,
        model_instructions,
        default_instructions,
    );
    let mut input_prefix: Vec<RequestPrefixItem> = Vec::new();
    let (instructions, tools_in_field) = if model.use_responses_lite {
        input_prefix.push(RequestPrefixItem::AdditionalTools);
        if !request_instructions.as_str().is_empty() {
            input_prefix.push(RequestPrefixItem::DeveloperInstructions(request_instructions));
        }
        (String::new(), false)
    } else {
        (request_instructions, true)
    };
    let mut extra_outputs: Vec<String> = Vec::new();
    if model.supports_reasoning_summaries {
        extra_outputs.push(String::from_str("reasoning.encrypted_content"));
    }
    ResponsesRequestShape {
        model: model.slug.clone(),
        instructions,
        tools_in_field,
        function_tools_only: compat,
        input_prefix,
        tool_choice: String::from_str("auto"),
        parallel_tool_calls: prompt.parallel_tool_calls && !model.use_responses_lite && !compat,
        reasoning: model.supports_reasoning_summaries,
        store: is_azure_responses_endpoint,
        stream: true,
        extra_outputs,
    }
}

/// The compaction request's timeout, in multiples of the stream idle timeout.
pub const COMPACT_REQUEST_TIMEOUT_IDLE_MULTIPLIER: u32 = 4;

/// `Duration::saturating_mul` on the duration of `secs` seconds and `nanos`
/// nanoseconds: the product by `k`, or `Duration::MAX` (`u64::MAX` seconds
/// and 999_999_999 nanoseconds) when it overflows.
pub open spec fn spec_duration_saturating_mul(secs: u64, nanos: u32, k: u32) -> (u64, u32) {
    let total = (secs * 1_000_000_000 + nanos) * k;
    if total / 1_000_000_000 <= u64::MAX {
        ((total / 1_000_000_000) as u64, (total % 1_000_000_000) as u32)
    } else {
        (u64::MAX, 999_999_999u32)
    }
}

/// `std::time::Duration::saturating_mul`: the contract claims what its
/// documentation says, the product or `Duration::MAX` on overflow, in
/// whole seconds and the nanoseconds of the last second. `Duration::new`
/// does not panic here, as the nanoseconds are below a second.
#[verifier::external_body]
fn duration_saturating_mul(secs: u64, nanos: u32, k: u32) -> (r: (u64, u32))
    requires
        nanos < 1_000_000_000,
    ensures
        r == spec_duration_saturating_mul(secs, nanos, k),
{
    let product = std::time::Duration::new(secs, nanos).saturating_mul(k);
    (product.as_secs(), product.subsec_nanos())
}

/// The compaction request for a conversation that is not empty.
pub struct CompactionRequestPlan {
    /// The request the compaction payload is built from: always with the
    /// base instructions; the payload takes its model, instructions, tools,
    /// parallel tool calls and reasoning.
    pub request: ResponsesRequestShape,
    /// The endpoint the payload goes to.
    pub endpoint: String,
    /// The request's timeout: the stream idle timeout times
    /// [`COMPACT_REQUEST_TIMEOUT_IDLE_MULTIPLIER`], saturating.
    pub timeout_secs: u64,
    pub timeout_nanos: u32,
}

/// Plans the compaction of a conversation of `input_len` items: none for
/// an empty conversation, whose compacted history is empty; else the
/// request built as for a turn but with the base instructions, sent to
/// `/responses/compact` with four times the stream idle timeout.
pub fn compaction_request_plan(
    input_len: usize,
    provider: &ApiProvider,
    provider_request_options: Option<&OllamaRequestOptions>,
    is_azure_responses_endpoint: bool,
    prompt: &PromptShape,
    model: &ModelShape,
    default_instructions: &str,
    idle_timeout_secs: u64,
    idle_timeout_nanos: u32,
) -> (r: Option<CompactionRequestPlan>)
    requires
        idle_timeout_nanos < 1_000_000_000,
    ensures
        r is None <==> input_len == 0,
        r matches Some(plan) ==> {
            &&& is_responses_request_shape(
                plan.request,
                *provider,
                match provider_request_options {
                    Some(o) => Some(*o),
                    None => None,
                },
                is_azure_responses_endpoint,
                *prompt,
                *model,
                ModelInstructionsSetting::SendBaseInstructions,
                default_instructions@,
            )
            &&& plan.endpoint@ == "/responses/compact"@
            &&& (plan.timeout_secs, plan.timeout_nanos) == spec_duration_saturating_mul(
                idle_timeout_secs,
                idle_timeout_nanos,
                COMPACT_REQUEST_TIMEOUT_IDLE_MULTIPLIER,
            )
        },
{
    if input_len == 0 {
        return None;
    }
    let request = responses_request_shape(
        provider,
        provider_request_options,
        is_azure_responses_endpoint,
        prompt,
        model,
        ModelInstructionsSetting::SendBaseInstructions,
        default_instructions,
    );
    let (timeout_secs, timeout_nanos) = duration_saturating_mul(
        idle_timeout_secs,
        idle_timeout_nanos,
        COMPACT_REQUEST_TIMEOUT_IDLE_MULTIPLIER,
    );
    Some(
        CompactionRequestPlan {
            request,
            endpoint: String::from_str("/responses/compact"),
            timeout_secs,
            timeout_nanos,
        },
    )
}

} // verus!
