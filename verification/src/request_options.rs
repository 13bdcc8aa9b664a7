//! Native request options for Ollama's `/api/chat` and `/api/generate`.

use vstd::prelude::*;

use crate::text::{chars_eq, chars_of};

verus! {

/// `serde_json::Value`, carried through the library as an opaque value.
#[verifier::external_type_specification]
#[verifier::external_body]
pub struct ExJsonValue(serde_json::Value);

/// The provider id of the built-in Ollama provider.
pub const OLLAMA_OSS_PROVIDER_ID: &'static str = "ollama";

/// Native request options supported by Ollama's `/api/chat` and `/api/generate`.
#[derive(Clone, Copy, Debug, PartialEq, Eq, Structural)]
pub struct OllamaRequestOptions {
    pub num_ctx: Option<i64>,
}

impl OllamaRequestOptions {
    /// No option is set.
    pub fn is_empty(&self) -> (r: bool)
        ensures
            r == (self.num_ctx is None),
    {
        self.num_ctx.is_none()
    }
}

impl Default for OllamaRequestOptions {
    fn default() -> (r: Self)
        ensures
            r.num_ctx is None,
    {
        OllamaRequestOptions { num_ctx: None }
    }
}

/// The options are left out of a request body: absent, or with nothing set.
pub open spec fn spec_skip_empty_options(options: Option<OllamaRequestOptions>) -> bool {
    match options {
        Some(o) => o.num_ctx is None,
        None => true,
    }
}

/// Whether the options are left out of a request body.
pub fn skip_empty_options(options: &Option<OllamaRequestOptions>) -> (r: bool)
    ensures
        r == spec_skip_empty_options(*options),
{
    match options {
        Some(o) => o.is_empty(),
        None => true,
    }
}

/// Native Ollama request body for `/api/generate`.
pub struct OllamaGenerateRequest<'a> {
    pub model: &'a str,
    pub prompt: &'a str,
    pub options: Option<OllamaRequestOptions>,
}

/// Native Ollama request body for `/api/chat`.
pub struct OllamaChatRequest<'a> {
    pub model: &'a str,
    pub messages: &'a [serde_json::Value],
    pub options: Option<OllamaRequestOptions>,
}

/// Request options for a provider: the context size for Ollama, nothing for
/// any other provider.
pub open spec fn spec_request_options_for_provider(
    provider_id: Seq<char>,
    num_ctx: Option<i64>,
) -> Option<OllamaRequestOptions> {
    if provider_id == OLLAMA_OSS_PROVIDER_ID@ {
        Some(OllamaRequestOptions { num_ctx })
    } else {
        None
    }
}

/// Return native Ollama request options when the selected provider is Ollama.
pub fn request_options_for_provider(provider_id: &str, num_ctx: Option<i64>) -> (r: Option<
    OllamaRequestOptions,
>)
    ensures
        r == spec_request_options_for_provider(provider_id@, num_ctx),
{
    let id = chars_of(provider_id);
    let ollama = chars_of(OLLAMA_OSS_PROVIDER_ID);
    if !chars_eq(&id, &ollama) {
        return None;
    }
    Some(OllamaRequestOptions { num_ctx })
}

/// The parts of a resolved configuration that request options depend on.
pub struct Config {
    pub model_provider_id: String,
    pub ollama_num_ctx: Option<i64>,
}

/// Return native Ollama request options from a resolved config.
pub fn request_options_for_config(config: &Config) -> (r: Option<OllamaRequestOptions>)
    ensures
        r == spec_request_options_for_provider(config.model_provider_id@, config.ollama_num_ctx),
{
    request_options_for_provider(config.model_provider_id.as_str(), config.ollama_num_ctx)
}

/// The request body for `/api/generate`.
pub fn generate_request<'a>(
    model: &'a str,
    prompt: &'a str,
    options: Option<OllamaRequestOptions>,
) -> (r: OllamaGenerateRequest<'a>)
    ensures
        r.model == model,
        r.prompt == prompt,
        r.options == options,
{
    OllamaGenerateRequest { model, prompt, options }
}

/// The request body for `/api/chat`.
pub fn chat_request<'a>(
    model: &'a str,
    messages: &'a [serde_json::Value],
    options: Option<OllamaRequestOptions>,
) -> (r: OllamaChatRequest<'a>)
    ensures
        r.model == model,
        r.messages == messages,
        r.options == options,
{
    OllamaChatRequest { model, messages, options }
}

} // verus!
