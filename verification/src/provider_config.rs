//! Turning a user-entered provider address into a local provider
//! configuration, and deciding the outcome of probing that provider.

use vstd::prelude::*;

use crate::text::{
    ascii_lower_char, ascii_lower_char_exec, chars_eq, chars_of, contains, contains_seq, decimal,
    is_ascii_alnum, is_ascii_alnum_exec, push_decimal, string_of, trim_end_char, trim_end_char_vec,
    trim_ws, trim_ws_vec, ends_with, sub_chars, strip_suffix,
};
use crate::weburl::{
    url_clear_fragment_result, url_clear_query_result, url_host_str_result, url_parse_result,
    url_path_result, url_port_or_known_default_result, url_set_path_result, WebUrl,
};

verus! {

/// A model offered by a probed provider.
#[derive(Clone, Debug, PartialEq, Eq)]
pub struct DetectedProviderModel {
    pub id: String,
    pub supports_tools: Option<bool>,
    pub context_window: Option<i64>,
}

/// The abstract value of a [`DetectedProviderModel`].
pub ghost struct DetectedModelView {
    pub id: Seq<char>,
    pub supports_tools: Option<bool>,
    pub context_window: Option<i64>,
}

impl View for DetectedProviderModel {
    type V = DetectedModelView;

    open spec fn view(&self) -> DetectedModelView {
        DetectedModelView {
            id: self.id@,
            supports_tools: self.supports_tools,
            context_window: self.context_window,
        }
    }
}

/// The abstract values of a list of models.
pub open spec fn models_view(models: Seq<DetectedProviderModel>) -> Seq<DetectedModelView> {
    models.map_values(|m: DetectedProviderModel| m@)
}

/// The configuration derived from a provider that answered a probe.
#[derive(Clone, Debug, PartialEq, Eq)]
pub struct DetectedProviderConfig {
    pub provider_id: String,
    pub provider_name: String,
    pub base_url: String,
    pub model: String,
    pub models: Vec<DetectedProviderModel>,
}

/// The abstract value of a [`DetectedProviderConfig`].
pub ghost struct DetectedConfigView {
    pub provider_id: Seq<char>,
    pub provider_name: Seq<char>,
    pub base_url: Seq<char>,
    pub model: Seq<char>,
    pub models: Seq<DetectedModelView>,
}

impl View for DetectedProviderConfig {
    type V = DetectedConfigView;

    open spec fn view(&self) -> DetectedConfigView {
        DetectedConfigView {
            provider_id: self.provider_id@,
            provider_name: self.provider_name@,
            base_url: self.base_url@,
            model: self.model@,
            models: models_view(self.models@),
        }
    }
}

/// Why a provider address could not be configured.
#[derive(Clone, Debug, PartialEq, Eq)]
pub enum ProviderConfigError {
    EmptyAddress,
    InvalidAddress(String),
    NoModels,
    ProbeFailed { base_url: String, message: String },
}

/// The abstract value of a [`ProviderConfigError`].
pub ghost enum ProviderConfigErrorView {
    EmptyAddress,
    InvalidAddress(Seq<char>),
    NoModels,
    ProbeFailed { base_url: Seq<char>, message: Seq<char> },
}

impl View for ProviderConfigError {
    type V = ProviderConfigErrorView;

    open spec fn view(&self) -> ProviderConfigErrorView {
        match self {
            ProviderConfigError::EmptyAddress => ProviderConfigErrorView::EmptyAddress,
            ProviderConfigError::InvalidAddress(m) => ProviderConfigErrorView::InvalidAddress(m@),
            ProviderConfigError::NoModels => ProviderConfigErrorView::NoModels,
            ProviderConfigError::ProbeFailed { base_url, message } =>
                ProviderConfigErrorView::ProbeFailed { base_url: base_url@, message: message@ },
        }
    }
}

/// The text shown for an error.
pub open spec fn spec_error_message(e: ProviderConfigErrorView) -> Seq<char> {
    match e {
        ProviderConfigErrorView::EmptyAddress =>
            "Enter a provider address like 127.0.0.1:11434 or http://127.0.0.1:1234"@,
        ProviderConfigErrorView::InvalidAddress(m) => "Invalid provider address: "@ + m,
        ProviderConfigErrorView::NoModels =>
            "Provider did not return any models from /v1/models or /api/tags"@,
        ProviderConfigErrorView::ProbeFailed { base_url, message } =>
            "Could not connect to provider at "@ + base_url + ": "@ + message,
    }
}

impl ProviderConfigError {
    /// The message for this error.
    pub fn message(&self) -> (r: String)
        ensures
            r@ == spec_error_message(self@),
    {
        match self {
            ProviderConfigError::EmptyAddress => String::from_str(
                "Enter a provider address like 127.0.0.1:11434 or http://127.0.0.1:1234",
            ),
            ProviderConfigError::InvalidAddress(m) => {
                let mut s = String::from_str("Invalid provider address: ");
                s.append(m.as_str());
                s
            },
            ProviderConfigError::NoModels => String::from_str(
                "Provider did not return any models from /v1/models or /api/tags",
            ),
            ProviderConfigError::ProbeFailed { base_url, message } => {
                let mut s = String::from_str("Could not connect to provider at ");
                s.append(base_url.as_str());
                s.append(": ");
                s.append(message.as_str());
                s
            },
        }
    }
}

/// A provider address after normalisation.
#[derive(Clone, Debug, PartialEq, Eq)]
pub struct NormalizedProviderAddress {
    pub provider_id: String,
    pub provider_name: String,
    pub base_url: String,
    pub root_url: String,
}

/// The abstract value of a [`NormalizedProviderAddress`].
pub ghost struct NormalizedAddressView {
    pub provider_id: Seq<char>,
    pub provider_name: Seq<char>,
    pub base_url: Seq<char>,
    pub root_url: Seq<char>,
}

impl View for NormalizedProviderAddress {
    type V = NormalizedAddressView;

    open spec fn view(&self) -> NormalizedAddressView {
        NormalizedAddressView {
            provider_id: self.provider_id@,
            provider_name: self.provider_name@,
            base_url: self.base_url@,
            root_url: self.root_url@,
        }
    }
}

/// The character used for `c` in a provider id.
pub open spec fn provider_id_char(c: char) -> char {
    if is_ascii_alnum(c) {
        ascii_lower_char(c)
    } else {
        '-'
    }
}

/// `local`, the host with each non-alphanumeric character replaced by `-`
/// and letters lowered, then `-port` when there is a port.
pub open spec fn spec_provider_id_for(host: Seq<char>, port: Option<u16>) -> Seq<char> {
    "local"@ + Seq::new(host.len(), |i: int| provider_id_char(host[i])) + match port {
        Some(p) => seq!['-'] + decimal(p as nat),
        None => Seq::<char>::empty(),
    }
}

/// The display name of a local provider: the two well-known ports have
/// names, other providers are described by host and port.
pub open spec fn spec_provider_name_for(host: Seq<char>, port: Option<u16>) -> Seq<char> {
    match port {
        Some(p) => if p == 11434 {
            "Ollama"@
        } else if p == 1234 {
            "LM Studio"@
        } else {
            "Local provider ("@ + host + ":"@ + decimal(p as nat) + ")"@
        },
        None => "Local provider ("@ + host + ")"@,
    }
}

/// The address with an `http://` scheme added when it has none.
pub open spec fn with_default_scheme(address: Seq<char>) -> Seq<char> {
    if contains_seq(address, "://"@) {
        address
    } else {
        "http://"@ + address
    }
}

/// The serialization used for the OpenAI-compatible base URL: a bare root
/// path becomes `/v1`.
pub open spec fn base_serialization(parsed: Seq<char>) -> Seq<char> {
    if url_path_result(parsed) == "/"@ {
        url_set_path_result(parsed, "/v1"@)
    } else {
        parsed
    }
}

/// The serialization of the server root: no path, query or fragment.
pub open spec fn root_serialization(parsed: Seq<char>) -> Seq<char> {
    url_clear_fragment_result(
        url_clear_query_result(url_set_path_result(base_serialization(parsed), Seq::empty())),
    )
}

/// The outcome of normalising a user-entered provider address.
pub open spec fn spec_normalize_provider_address(address: Seq<char>) -> Result<
    NormalizedAddressView,
    ProviderConfigErrorView,
> {
    let address = trim_ws(address);
    if address.len() == 0 {
        Err(ProviderConfigErrorView::EmptyAddress)
    } else {
        match url_parse_result(with_default_scheme(address)) {
            Err(e) => Err(ProviderConfigErrorView::InvalidAddress(e)),
            Ok(parsed) => match url_host_str_result(parsed) {
                None => Err(ProviderConfigErrorView::InvalidAddress("missing host"@)),
                Some(host) => {
                    let port = url_port_or_known_default_result(parsed);
                    Ok(
                        NormalizedAddressView {
                            provider_id: spec_provider_id_for(host, port),
                            provider_name: spec_provider_name_for(host, port),
                            base_url: trim_end_char(base_serialization(parsed), '/'),
                            root_url: trim_end_char(root_serialization(parsed), '/'),
                        },
                    )
                },
            },
        }
    }
}

/// The id under which a local provider at `host` and `port` is configured.
pub fn provider_id_for(host: &str, port: Option<u16>) -> (r: String)
    ensures
        r@ == spec_provider_id_for(host@, port),
{
    let h = chars_of(host);
    let mut id: Vec<char> = vec!['l', 'o', 'c', 'a', 'l'];
    let n = h.len();
    let mut i: usize = 0;
    while i < n
        invariant
            n == h@.len(),
            i <= n,
            id@ =~= seq!['l', 'o', 'c', 'a', 'l'] + Seq::new(
                i as nat,
                |k: int| provider_id_char(h@[k]),
            ),
        decreases n - i,
    {
        let ch = h[i];
        if is_ascii_alnum_exec(ch) {
            id.push(ascii_lower_char_exec(ch));
        } else {
            id.push('-');
        }
        i = i + 1;
    }
    if let Some(p) = port {
        id.push('-');
        push_decimal(&mut id, p as u64);
    }
    proof {
        reveal_strlit("local");
        assert(id@ =~= spec_provider_id_for(host@, port));
    }
    string_of(&id)
}

/// The display name of a local provider at `host` and `port`.
pub fn provider_name_for(host: &str, port: Option<u16>) -> (r: String)
    ensures
        r@ == spec_provider_name_for(host@, port),
{
    match port {
        Some(11434) => String::from_str("Ollama"),
        Some(1234) => String::from_str("LM Studio"),
        Some(p) => {
            let mut s = String::from_str("Local provider (");
            s.append(host);
            s.append(":");
            let mut digits: Vec<char> = Vec::new();
            push_decimal(&mut digits, p as u64);
            assert(digits@ =~= decimal(p as nat));
            let d = string_of(&digits);
            s.append(d.as_str());
            s.append(")");
            s
        },
        None => {
            let mut s = String::from_str("Local provider (");
            s.append(host);
            s.append(")");
            s
        },
    }
}

fn with_default_scheme_string(address: &[char]) -> (r: String)
    ensures
        r@ == with_default_scheme(address@),
{
    let sep = chars_of("://");
    if contains(address, &sep) {
        string_of(address)
    } else {
        let mut s = String::from_str("http://");
        let rest = string_of(address);
        s.append(rest.as_str());
        s
    }
}

fn trimmed_serialization(url: WebUrl) -> (r: String)
    ensures
        r@ == trim_end_char(url.serialization(), '/'),
{
    let text = url.into_string();
    let cs = chars_of(text.as_str());
    let t = trim_end_char_vec(&cs, '/');
    string_of(&t)
}

/// Normalises a user-entered provider address (`host:port` or a URL) into
/// the provider id, display name, OpenAI-compatible base URL and server
/// root URL.
pub fn normalize_provider_address(address: &str) -> (r: Result<
    NormalizedProviderAddress,
    ProviderConfigError,
>)
    ensures
        match spec_normalize_provider_address(address@) {
            Ok(v) => r matches Ok(a) && a@ == v,
            Err(e) => r matches Err(x) && x@ == e,
        },
{
    let raw = chars_of(address);
    let trimmed = trim_ws_vec(&raw);
    if trimmed.len() == 0 {
        return Err(ProviderConfigError::EmptyAddress);
    }
    let with_scheme = with_default_scheme_string(&trimmed);
    let mut url = match WebUrl::parse(with_scheme.as_str()) {
        Ok(u) => u,
        Err(message) => {
            return Err(ProviderConfigError::InvalidAddress(message));
        },
    };
    let ghost parsed = url.serialization();
    let host = match url.host_str() {
        Some(h) => h,
        None => {
            return Err(ProviderConfigError::InvalidAddress(String::from_str("missing host")));
        },
    };
    let port = url.port_or_known_default();
    let path = url.path();
    let path_chars = chars_of(path.as_str());
    let root_path = vec!['/'];
    let is_root = chars_eq(&path_chars, &root_path);
    assert(path_chars@ == url_path_result(parsed));
    assert(root_path@ == seq!['/']);
    if is_root {
        proof {
            reveal_strlit("/v1");
        }
        url.set_path("/v1");
        assert(url.serialization() == url_set_path_result(parsed, "/v1"@));
    }
    proof {
        reveal_strlit("/");
        assert("/"@ =~= seq!['/']);
        assert(url.serialization() == base_serialization(parsed));
    }
    let base_text = chars_of(url.as_str());
    let base_trimmed = trim_end_char_vec(&base_text, '/');
    let base_url = string_of(&base_trimmed);
    proof {
        reveal_strlit("");
    }
    url.set_path("");
    url.clear_query();
    url.clear_fragment();
    proof {
        assert(""@ =~= Seq::<char>::empty()) by {
            reveal_strlit("");
        }
    }
    let root_url = trimmed_serialization(url);
    let provider_id = provider_id_for(host.as_str(), port);
    let provider_name = provider_name_for(host.as_str(), port);
    Ok(NormalizedProviderAddress { provider_id, provider_name, base_url, root_url })
}

/// The index of the model a detected configuration selects: the first one
/// known to support tools, else the first one.
pub open spec fn preferred_model_index(models: Seq<DetectedModelView>) -> int {
    if exists|i: int| 0 <= i < models.len() && models[i].supports_tools == Some(true) {
        choose|i: int|
            0 <= i < models.len() && models[i].supports_tools == Some(true) && forall|j: int|
                0 <= j < i ==> models[j].supports_tools != Some(true)
    } else {
        0
    }
}

/// The configuration built from a normalised address and a non-empty model list.
pub open spec fn spec_into_detected(
    address: NormalizedAddressView,
    models: Seq<DetectedModelView>,
) -> DetectedConfigView {
    DetectedConfigView {
        provider_id: address.provider_id,
        provider_name: address.provider_name,
        base_url: address.base_url,
        model: models[preferred_model_index(models)].id,
        models: models,
    }
}

fn first_tool_capable(models: &Vec<DetectedProviderModel>) -> (r: Option<usize>)
    ensures
        r matches Some(k) ==> k < models@.len() && models_view(models@)[k as int].supports_tools
            == Some(true) && forall|j: int|
            0 <= j < k ==> models_view(models@)[j].supports_tools != Some(true),
        r is None ==> forall|j: int|
            0 <= j < models@.len() ==> models_view(models@)[j].supports_tools != Some(true),
{
    let n = models.len();
    let mut i: usize = 0;
    while i < n
        invariant
            n == models@.len(),
            i <= n,
            forall|j: int| 0 <= j < i ==> models_view(models@)[j].supports_tools != Some(true),
        decreases n - i,
    {
        match models[i].supports_tools {
            Some(true) => {
                return Some(i);
            },
            _ => {},
        }
        i = i + 1;
    }
    None
}

impl NormalizedProviderAddress {
    /// The configuration for this address with the given models; the
    /// selected model is the first tool-capable one, else the first one.
    pub fn into_detected(self, models: Vec<DetectedProviderModel>) -> (r: DetectedProviderConfig)
        requires
            models@.len() > 0,
        ensures
            r@ == spec_into_detected(self@, models_view(models@)),
    {
        let ghost mv = models_view(models@);
        let pick = match first_tool_capable(&models) {
            Some(k) => {
                proof {
                    let c = preferred_model_index(mv);
                    assert(mv[k as int].supports_tools == Some(true));
                    assert(0 <= c < mv.len() && mv[c].supports_tools == Some(true));
                    if c < k {
                        assert(mv[c].supports_tools != Some(true));
                    } else if k < c {
                        assert(mv[k as int].supports_tools != Some(true));
                    }
                }
                k
            },
            None => 0,
        };
        let model = models[pick].id.clone();
        DetectedProviderConfig {
            provider_id: self.provider_id,
            provider_name: self.provider_name,
            base_url: self.base_url,
            model,
            models,
        }
    }
}

/// A model id with a trailing `:latest` tag removed.
pub open spec fn spec_normalize_ollama_model_name(name: Seq<char>) -> Seq<char> {
    match strip_suffix(name, ":latest"@) {
        Some(s) => s,
        None => name,
    }
}

/// Strips the default `:latest` tag from an Ollama model name.
pub fn normalize_ollama_model_name(model_name: &str) -> (r: String)
    ensures
        r@ == spec_normalize_ollama_model_name(model_name@),
{
    let s = chars_of(model_name);
    let tag = chars_of(":latest");
    if ends_with(&s, &tag) {
        let k = s.len() - tag.len();
        let t = sub_chars(&s, 0, k);
        assert(s@.subrange(0, k as int) =~= s@.take(k as int));
        string_of(&t)
    } else {
        string_of(&s)
    }
}

/// The list of capabilities names `tools`.
pub open spec fn lists_tools(capabilities: Seq<String>) -> bool {
    exists|i: int| 0 <= i < capabilities.len() && capabilities[i]@ == "tools"@
}

/// What a capability list says of tool support (nothing when absent).
pub open spec fn tools_support(capabilities: Option<Vec<String>>) -> Option<bool> {
    match capabilities {
        Some(c) => Some(lists_tools(c@)),
        None => None,
    }
}

fn capabilities_support_tools(capabilities: &Option<Vec<String>>) -> (r: Option<bool>)
    ensures
        r == tools_support(*capabilities),
{
    match capabilities {
        Some(caps) => {
            let tools = chars_of("tools");
            let n = caps.len();
            let mut i: usize = 0;
            while i < n
                invariant
                    n == caps@.len(),
                    i <= n,
                    tools@ == "tools"@,
                    *capabilities == Some(*caps),
                    forall|j: int| 0 <= j < i ==> caps@[j]@ != "tools"@,
                decreases n - i,
            {
                let c = chars_of(caps[i].as_str());
                if chars_eq(&c, &tools) {
                    assert(caps@[i as int]@ == "tools"@);
                    assert(lists_tools(caps@));
                    return Some(true);
                }
                i = i + 1;
            }
            Some(false)
        },
        None => None,
    }
}

/// One entry of an OpenAI-compatible `/v1/models` listing.
#[derive(Clone, Debug, PartialEq, Eq)]
pub struct OpenAiModel {
    pub id: String,
    pub capabilities: Option<Vec<String>>,
}

/// Details of an entry of an Ollama `/api/tags` listing.
#[derive(Clone, Debug, PartialEq, Eq)]
pub struct OllamaModelDetails {
    pub context_length: Option<i64>,
}

/// One entry of an Ollama `/api/tags` listing.
#[derive(Clone, Debug, PartialEq, Eq)]
pub struct OllamaModel {
    pub name: String,
    pub details: Option<OllamaModelDetails>,
    pub capabilities: Option<Vec<String>>,
}

/// The detected model for an OpenAI-compatible listing entry.
pub open spec fn spec_model_from_openai(m: OpenAiModel) -> DetectedModelView {
    DetectedModelView {
        id: m.id@,
        supports_tools: tools_support(m.capabilities),
        context_window: None,
    }
}

/// The detected model for an Ollama listing entry.
pub open spec fn spec_model_from_ollama(m: OllamaModel) -> DetectedModelView {
    DetectedModelView {
        id: spec_normalize_ollama_model_name(m.name@),
        supports_tools: tools_support(m.capabilities),
        context_window: match m.details {
            Some(d) => d.context_length,
            None => None,
        },
    }
}

/// The detected models for an OpenAI-compatible listing.
pub open spec fn openai_listing_view(data: Seq<OpenAiModel>) -> Seq<DetectedModelView> {
    data.map_values(|m: OpenAiModel| spec_model_from_openai(m))
}

/// The detected models for an Ollama listing.
pub open spec fn ollama_listing_view(models: Seq<OllamaModel>) -> Seq<DetectedModelView> {
    models.map_values(|m: OllamaModel| spec_model_from_ollama(m))
}

/// The models of an OpenAI-compatible `/v1/models` listing.
pub fn models_from_openai_listing(data: Vec<OpenAiModel>) -> (r: Vec<DetectedProviderModel>)
    ensures
        models_view(r@) == openai_listing_view(data@),
{
    let mut out: Vec<DetectedProviderModel> = Vec::new();
    let n = data.len();
    let mut i: usize = 0;
    while i < n
        invariant
            n == data@.len(),
            i <= n,
            out@.len() == i,
            forall|k: int| 0 <= k < i ==> (#[trigger] out@[k])@ == spec_model_from_openai(data@[k]),
        decreases n - i,
    {
        let entry = &data[i];
        let supports_tools = capabilities_support_tools(&entry.capabilities);
        out.push(DetectedProviderModel { id: entry.id.clone(), supports_tools, context_window: None });
        i = i + 1;
    }
    assert(models_view(out@) =~= openai_listing_view(data@));
    out
}

/// The models of an Ollama `/api/tags` listing.
pub fn models_from_ollama_tags(models: Vec<OllamaModel>) -> (r: Vec<DetectedProviderModel>)
    ensures
        models_view(r@) == ollama_listing_view(models@),
{
    let mut out: Vec<DetectedProviderModel> = Vec::new();
    let n = models.len();
    let mut i: usize = 0;
    while i < n
        invariant
            n == models@.len(),
            i <= n,
            out@.len() == i,
            forall|k: int| 0 <= k < i ==> (#[trigger] out@[k])@ == spec_model_from_ollama(models@[k]),
        decreases n - i,
    {
        let entry = &models[i];
        let supports_tools = capabilities_support_tools(&entry.capabilities);
        let id = normalize_ollama_model_name(entry.name.as_str());
        let context_window = match &entry.details {
            Some(d) => d.context_length,
            None => None,
        };
        out.push(DetectedProviderModel { id, supports_tools, context_window });
        i = i + 1;
    }
    assert(models_view(out@) =~= ollama_listing_view(models@));
    out
}

/// `{base}/{suffix}` with trailing slashes of `base` removed.
pub open spec fn join_endpoint(base: Seq<char>, suffix: Seq<char>) -> Seq<char> {
    trim_end_char(base, '/') + suffix
}

fn join_endpoint_exec(base: &str, suffix: &str) -> (r: String)
    ensures
        r@ == join_endpoint(base@, suffix@),
{
    let b = chars_of(base);
    let t = trim_end_char_vec(&b, '/');
    let mut s = string_of(&t);
    s.append(suffix);
    s
}

/// The model listing URL of an OpenAI-compatible base URL.
pub fn openai_models_url(base_url: &str) -> (r: String)
    ensures
        r@ == join_endpoint(base_url@, "/models"@),
{
    join_endpoint_exec(base_url, "/models")
}

/// The model listing URL of an Ollama server root.
pub fn ollama_tags_url(root_url: &str) -> (r: String)
    ensures
        r@ == join_endpoint(root_url@, "/api/tags"@),
{
    join_endpoint_exec(root_url, "/api/tags")
}

/// What to do after the Ollama `/api/tags` probe.
pub enum DetectionStep {
    /// The provider is configured.
    Detected(DetectedProviderConfig),
    /// Probe the OpenAI-compatible `/v1/models` listing next, remembering
    /// the error of the first probe, if any.
    ProbeOpenAiModels { address: NormalizedProviderAddress, ollama_error: Option<String> },
}

/// Decides the outcome of the Ollama probe: a non-empty listing configures
/// the provider, anything else moves on to the OpenAI-compatible probe.
pub fn after_ollama_probe(
    address: NormalizedProviderAddress,
    ollama: Result<Vec<DetectedProviderModel>, String>,
) -> (r: DetectionStep)
    ensures
        match ollama {
            Ok(models) => if models@.len() > 0 {
                r matches DetectionStep::Detected(c) && c@ == spec_into_detected(
                    address@,
                    models_view(models@),
                )
            } else {
                r matches DetectionStep::ProbeOpenAiModels { address: a, ollama_error: None }
                    && a@ == address@
            },
            Err(e) => r matches DetectionStep::ProbeOpenAiModels {
                address: a,
                ollama_error: Some(m),
            } && a@ == address@ && m@ == e@,
        },
{
    match ollama {
        Ok(models) => {
            if models.len() > 0 {
                DetectionStep::Detected(address.into_detected(models))
            } else {
                DetectionStep::ProbeOpenAiModels { address, ollama_error: None }
            }
        },
        Err(e) => DetectionStep::ProbeOpenAiModels { address, ollama_error: Some(e) },
    }
}

/// The error text reported when the OpenAI-compatible probe fails.
pub open spec fn probe_failure_message(ollama_error: Option<Seq<char>>, error: Seq<char>) -> Seq<
    char,
> {
    match ollama_error {
        Some(first) => first + "; "@ + error,
        None => error,
    }
}

/// Decides the outcome of the OpenAI-compatible probe.
pub fn after_openai_probe(
    address: NormalizedProviderAddress,
    ollama_error: Option<String>,
    openai: Result<Vec<DetectedProviderModel>, String>,
) -> (r: Result<DetectedProviderConfig, ProviderConfigError>)
    ensures
        match openai {
            Ok(models) => if models@.len() > 0 {
                r matches Ok(c) && c@ == spec_into_detected(address@, models_view(models@))
            } else {
                r matches Err(ProviderConfigError::NoModels)
            },
            Err(e) => r matches Err(x) && x@ == ProviderConfigErrorView::ProbeFailed {
                base_url: address.base_url@,
                message: probe_failure_message(
                    match ollama_error {
                        Some(m) => Some(m@),
                        None => None,
                    },
                    e@,
                ),
            },
        },
{
    match openai {
        Ok(models) => {
            if models.len() > 0 {
                Ok(address.into_detected(models))
            } else {
                Err(ProviderConfigError::NoModels)
            }
        },
        Err(e) => {
            let message = match ollama_error {
                Some(first) => {
                    let mut m = first;
                    m.append("; ");
                    m.append(e.as_str());
                    m
                },
                None => e,
            };
            Err(ProviderConfigError::ProbeFailed { base_url: address.base_url, message })
        },
    }
}

} // verus!
