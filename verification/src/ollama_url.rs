//! Recognising Ollama endpoints from a provider `base_url`.

use vstd::prelude::*;

use crate::text::{
    ascii_lower, ascii_lower_vec, chars_eq, chars_of, ends_with, find_char, has_char, is_suffix_of,
    split_once, split_once_idx, string_of, sub_chars, take_until_char, take_until_char_vec,
    trim_end_char, trim_end_char_vec, trim_end_seq, trim_end_seq_vec,
};

verus! {

/// The trimmed base URL ends in `/v1`.
pub open spec fn spec_is_openai_compatible_base_url(base_url: Seq<char>) -> bool {
    is_suffix_of("/v1"@, trim_end_char(base_url, '/'))
}

/// The native Ollama host root of a provider base URL: trailing slashes go,
/// and so do trailing `/v1` segments.
pub open spec fn spec_base_url_to_host_root(base_url: Seq<char>) -> Seq<char> {
    let trimmed = trim_end_char(base_url, '/');
    if is_suffix_of("/v1"@, trimmed) {
        trim_end_char(trim_end_seq(trimmed, "/v1"@), '/')
    } else {
        trimmed
    }
}

/// The host named by a URL authority (`host:port` or `[v6]:port`).
pub open spec fn authority_host(authority: Seq<char>) -> Seq<char> {
    if authority.len() > 0 && authority[0] == '[' && has_char(authority.drop_first(), ']') {
        take_until_char(authority.drop_first(), ']')
    } else {
        take_until_char(authority, ':')
    }
}

/// The host part of the host root of a provider base URL.
pub open spec fn base_url_host(base_url: Seq<char>) -> Seq<char> {
    let host_root = spec_base_url_to_host_root(base_url);
    let without_scheme = match split_once(host_root, "://"@) {
        Some(parts) => parts.1,
        None => host_root,
    };
    authority_host(take_until_char(without_scheme, '/'))
}

/// A loopback host name: `localhost` in any ASCII case, `127.0.0.1` or `::1`.
pub open spec fn is_loopback_host(host: Seq<char>) -> bool {
    ascii_lower(host) == "localhost"@ || host == "127.0.0.1"@ || host == "::1"@
}

/// The base URL points at an Ollama server on this machine.
pub open spec fn spec_is_local_ollama_base_url(base_url: Seq<char>) -> bool {
    is_loopback_host(base_url_host(base_url))
}

/// Identify whether a base_url points at an OpenAI-compatible root (".../v1").
pub fn is_openai_compatible_base_url(base_url: &str) -> (r: bool)
    ensures
        r == spec_is_openai_compatible_base_url(base_url@),
{
    let s = chars_of(base_url);
    let trimmed = trim_end_char_vec(&s, '/');
    let v1 = chars_of("/v1");
    ends_with(&trimmed, &v1)
}

fn host_root_chars(base_url: &str) -> (r: Vec<char>)
    ensures
        r@ == spec_base_url_to_host_root(base_url@),
{
    let s = chars_of(base_url);
    let trimmed = trim_end_char_vec(&s, '/');
    let v1 = chars_of("/v1");
    proof {
        reveal_strlit("/v1");
    }
    if ends_with(&trimmed, &v1) {
        let stripped = trim_end_seq_vec(&trimmed, &v1);
        trim_end_char_vec(&stripped, '/')
    } else {
        trimmed
    }
}

/// Convert a provider base_url into the native Ollama host root.
/// For example, "http://localhost:11434/v1" -> "http://localhost:11434".
pub fn base_url_to_host_root(base_url: &str) -> (r: String)
    ensures
        r@ == spec_base_url_to_host_root(base_url@),
{
    let root = host_root_chars(base_url);
    string_of(&root)
}

fn authority_host_chars(authority: &[char]) -> (r: Vec<char>)
    ensures
        r@ == authority_host(authority@),
{
    if authority.len() > 0 && authority[0] == '[' {
        let rest = sub_chars(authority, 1, authority.len());
        assert(rest@ =~= authority@.drop_first());
        match find_char(&rest, ']') {
            Some(_) => {
                return take_until_char_vec(&rest, ']');
            },
            None => {},
        }
    }
    take_until_char_vec(authority, ':')
}

/// Whether `base_url` names an Ollama server on the local machine.
pub fn is_local_ollama_base_url(base_url: &str) -> (r: bool)
    ensures
        r == spec_is_local_ollama_base_url(base_url@),
{
    let host_root = host_root_chars(base_url);
    let sep = chars_of("://");
    let without_scheme = match split_once_idx(&host_root, &sep) {
        Some(i) => {
            assert(host_root@.len() == host_root.len());
            let rest = sub_chars(&host_root, i + sep.len(), host_root.len());
            assert(rest@ =~= host_root@.skip(i + sep@.len()));
            rest
        },
        None => host_root,
    };
    let authority = take_until_char_vec(&without_scheme, '/');
    let host = authority_host_chars(&authority);
    let lowered = ascii_lower_vec(&host);
    let localhost = chars_of("localhost");
    let v4 = chars_of("127.0.0.1");
    let v6 = chars_of("::1");
    chars_eq(&lowered, &localhost) || chars_eq(&host, &v4) || chars_eq(&host, &v6)
}

} // verus!
