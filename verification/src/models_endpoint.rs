//! The model catalog of a provider: when Ollama's own catalog is used, where
//! it is fetched from, and the entries it yields.

use vstd::prelude::*;

use crate::provider_config::{normalize_ollama_model_name, spec_normalize_ollama_model_name};
use crate::text::{
    ascii_lower, ascii_lower_vec, chars_of, contains, decimal, extend_chars, push_decimal, contains_seq, ends_with, string_of,
    strip_suffix, sub_chars, trim_end_char, trim_end_char_vec, trim_ws, trim_ws_vec,
};

verus! {

/// The description given to every model of an Ollama catalog.
pub const OLLAMA_MODEL_DESCRIPTION: &'static str = "Modelo instalado no Ollama configurado";

/// The provider whose models are listed.
pub struct ModelsEndpointProvider {
    pub name: String,
    pub base_url: Option<String>,
}

/// The provider is served from Ollama's catalog: its name mentions
/// `ollama` (any ASCII case) or its base URL uses port 11434.
pub open spec fn spec_has_ollama_catalog(provider: ModelsEndpointProvider) -> bool {
    contains_seq(ascii_lower(provider.name@), "ollama"@) || match provider.base_url {
        Some(u) => contains_seq(u@, ":11434"@),
        None => false,
    }
}

impl ModelsEndpointProvider {
    /// Whether the models come from Ollama's own catalog.
    pub fn has_ollama_catalog(&self) -> (r: bool)
        ensures
            r == spec_has_ollama_catalog(*self),
    {
        let name = ascii_lower_vec(&chars_of(self.name.as_str()));
        if contains(&name, &chars_of("ollama")) {
            return true;
        }
        match &self.base_url {
            Some(u) => contains(&chars_of(u.as_str()), &chars_of(":11434")),
            None => false,
        }
    }

    /// The provider has its own catalog (Ollama's).
    pub fn has_provider_catalog(&self) -> (r: bool)
        ensures
            r == spec_has_ollama_catalog(*self),
    {
        self.has_ollama_catalog()
    }

    /// The provider's catalog is authoritative (Ollama's is).
    pub fn provider_catalog_is_authoritative(&self) -> (r: bool)
        ensures
            r == spec_has_ollama_catalog(*self),
    {
        self.has_ollama_catalog()
    }
}

/// The Ollama host root of a base URL: surrounding whitespace and trailing
/// slashes removed, then one trailing `/v1`.
pub open spec fn spec_ollama_host_root(base_url: Seq<char>) -> Seq<char> {
    let trimmed = trim_end_char(trim_ws(base_url), '/');
    match strip_suffix(trimmed, "/v1"@) {
        Some(s) => s,
        None => trimmed,
    }
}

/// The Ollama host root of a base URL.
pub fn ollama_host_root(base_url: &str) -> (r: String)
    ensures
        r@ == spec_ollama_host_root(base_url@),
{
    let trimmed = trim_end_char_vec(&trim_ws_vec(&chars_of(base_url)), '/');
    let v1 = chars_of("/v1");
    if ends_with(&trimmed, &v1) {
        let k = trimmed.len() - v1.len();
        let t = sub_chars(&trimmed, 0, k);
        assert(trimmed@.subrange(0, k as int) =~= trimmed@.take(k as int));
        string_of(&t)
    } else {
        string_of(&trimmed)
    }
}

/// Where Ollama's catalog is fetched from, or the error when the provider
/// has no base URL.
pub open spec fn spec_ollama_tags_endpoint(base_url: Option<Seq<char>>) -> Result<
    Seq<char>,
    Seq<char>,
> {
    match base_url {
        Some(u) => Ok(trim_end_char(spec_ollama_host_root(u), '/') + "/api/tags"@),
        None => Err("Ollama base_url is required"@),
    }
}

/// The URL of Ollama's model catalog for the provider's base URL.
pub fn ollama_tags_endpoint(base_url: Option<&str>) -> (r: Result<String, String>)
    ensures
        match spec_ollama_tags_endpoint(
            match base_url {
                Some(u) => Some(u@),
                None => None,
            },
        ) {
            Ok(u) => r matches Ok(s) && s@ == u,
            Err(e) => r matches Err(s) && s@ == e,
        },
{
    match base_url {
        Some(u) => {
            let root = ollama_host_root(u);
            let t = trim_end_char_vec(&chars_of(root.as_str()), '/');
            let mut s = string_of(&t);
            s.append("/api/tags");
            Ok(s)
        },
        None => Err(String::from_str("Ollama base_url is required")),
    }
}

/// How the agent drives a model's tools.
#[derive(Clone, Copy, Debug, PartialEq, Eq, Structural)]
pub enum ToolMode {
    /// Tools are called through code.
    CodeMode,
}

/// One model of an Ollama catalog.
pub struct OllamaCatalogEntry {
    pub slug: String,
    pub display_name: String,
    pub description: String,
    pub priority: i32,
    pub tool_mode: Option<ToolMode>,
    /// The metadata is a generic fallback rather than the catalog's own.
    pub used_fallback_model_metadata: bool,
}

/// The catalog entry for an `/api/tags` listing entry whose `name` field is
/// `name` (`None` when it has no string name): the name without its
/// `:latest` tag as slug and display name, the fixed description, priority
/// 0, code mode, and authoritative metadata.
pub fn ollama_model_info(name: Option<&str>) -> (r: Option<OllamaCatalogEntry>)
    ensures
        match name {
            None => r is None,
            Some(n) => r matches Some(e) && {
                &&& e.slug@ == spec_normalize_ollama_model_name(n@)
                &&& e.display_name@ == e.slug@
                &&& e.description@ == OLLAMA_MODEL_DESCRIPTION@
                &&& e.priority == 0
                &&& e.tool_mode == Some(ToolMode::CodeMode)
                &&& !e.used_fallback_model_metadata
            },
        },
{
    match name {
        None => None,
        Some(n) => {
            let slug = normalize_ollama_model_name(n);
            Some(
                OllamaCatalogEntry {
                    slug: slug.clone(),
                    display_name: slug,
                    description: String::from_str(OLLAMA_MODEL_DESCRIPTION),
                    priority: 0,
                    tool_mode: Some(ToolMode::CodeMode),
                    used_fallback_model_metadata: false,
                },
            )
        },
    }
}

/// The priority of the catalog entry at `index`: its position, capped at
/// the largest `i32`.
pub open spec fn catalog_priority(index: int) -> i32 {
    if index <= i32::MAX {
        index as i32
    } else {
        i32::MAX
    }
}

/// The names of the catalog entries: the entries of the listing that carry
/// a name, in order.
pub open spec fn named_entries(names: Seq<Option<String>>) -> Seq<Seq<char>>
    decreases names.len(),
{
    if names.len() == 0 {
        Seq::empty()
    } else {
        let rest = named_entries(names.drop_last());
        match names.last() {
            Some(n) => rest.push(n@),
            None => rest,
        }
    }
}

/// The catalog built from the names in an Ollama `/api/tags` listing
/// (`None` for an entry without a name): one entry per name, with the
/// `:latest` tag removed, the fixed description, its position as priority,
/// code mode and authoritative metadata.
pub fn ollama_catalog(names: Vec<Option<String>>) -> (r: Vec<OllamaCatalogEntry>)
    ensures
        r@.len() == named_entries(names@).len(),
        forall|i: int|
            0 <= i < r@.len() ==> {
                &&& (#[trigger] r@[i]).slug@ == spec_normalize_ollama_model_name(
                    named_entries(names@)[i],
                )
                &&& r@[i].display_name@ == r@[i].slug@
                &&& r@[i].description@ == OLLAMA_MODEL_DESCRIPTION@
                &&& r@[i].priority == catalog_priority(i)
                &&& r@[i].tool_mode == Some(ToolMode::CodeMode)
                &&& !r@[i].used_fallback_model_metadata
            },
{
    let mut out: Vec<OllamaCatalogEntry> = Vec::new();
    let n = names.len();
    let mut i: usize = 0;
    while i < n
        invariant
            n == names@.len(),
            i <= n,
            out@.len() == named_entries(names@.take(i as int)).len(),
            forall|k: int|
                0 <= k < out@.len() ==> {
                    &&& (#[trigger] out@[k]).slug@ == spec_normalize_ollama_model_name(
                        named_entries(names@.take(i as int))[k],
                    )
                    &&& out@[k].display_name@ == out@[k].slug@
                    &&& out@[k].description@ == OLLAMA_MODEL_DESCRIPTION@
                    &&& out@[k].priority == catalog_priority(k)
                    &&& out@[k].tool_mode == Some(ToolMode::CodeMode)
                    &&& !out@[k].used_fallback_model_metadata
                },
        decreases n - i,
    {
        assert(names@.take(i + 1).drop_last() =~= names@.take(i as int));
        assert(names@.take(i + 1).last() == names@[i as int]);
        let name: Option<&str> = match &names[i] {
            Some(n) => Some(n.as_str()),
            None => None,
        };
        if let Some(mut entry) = ollama_model_info(name) {
            let priority: i32 = if out.len() <= 2147483647 {
                out.len() as i32
            } else {
                2147483647
            };
            entry.priority = priority;
            out.push(entry);
        }
        i = i + 1;
    }
    assert(names@.take(n as int) =~= names@);
    out
}

/// The error for a catalog reply with a status outside 2xx, as the HTTP
/// status is displayed: its code and its canonical reason, or
/// `<unknown status code>` when it has none.
pub open spec fn spec_tags_status_error(status: u16, canonical_reason: Option<Seq<char>>) -> Option<
    Seq<char>,
> {
    if 200 <= status < 300 {
        None
    } else {
        Some(
            "failed to list Ollama models: HTTP "@ + decimal(status as nat) + " "@ + match canonical_reason {
                Some(reason) => reason,
                None => "<unknown status code>"@,
            },
        )
    }
}

/// Whether the catalog reply's status `status` (with its canonical reason)
/// refuses the listing, and with which error.
pub fn tags_status_error(status: u16, canonical_reason: Option<&str>) -> (r: Option<String>)
    ensures
        match spec_tags_status_error(
            status,
            match canonical_reason {
                Some(t) => Some(t@),
                None => None,
            },
        ) {
            Some(m) => r matches Some(s) && s@ == m,
            None => r is None,
        },
{
    if 200 <= status && status < 300 {
        return None;
    }
    let mut out = chars_of("failed to list Ollama models: HTTP ");
    push_decimal(&mut out, status as u64);
    extend_chars(&mut out, &chars_of(" "));
    match canonical_reason {
        Some(reason) => extend_chars(&mut out, &chars_of(reason)),
        None => extend_chars(&mut out, &chars_of("<unknown status code>")),
    }
    Some(string_of(&out))
}

} // verus!
