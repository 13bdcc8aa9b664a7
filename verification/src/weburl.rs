//! URLs, parsed and edited by the `url` crate.
//!
//! The library carries, beside each `url::Url`, the serialization it had
//! after the last operation, and names what each operation of the crate
//! yields as a function of that serialization. That rests on the crate's own
//! invariant check (`Url::check_invariants`): re-parsing `as_str()` gives the
//! same URL. The check admits one exception, a URL without host that
//! re-parses with an empty host, which `set_path` can produce when a URL
//! without host is given a path that begins with `//` (the crate parses the
//! new path as if the URL had a host). The only operations offered here are
//! `parse`, `set_port`, `set_query(None)`, `set_fragment(None)` and
//! `set_path` with a plain path (empty, or `/` followed by ASCII letters and
//! digits), which cannot produce it.

use vstd::prelude::*;

use crate::text::is_ascii_alnum;

verus! {

/// `url::Url`, opaque to the library; `WebUrl` carries its serialization.
#[verifier::external_type_specification]
#[verifier::external_body]
pub struct ExUrl(url::Url);

/// What `url::Url::parse` yields for `input`: the serialization of the parsed
/// URL, or the text of the `url::ParseError`.
pub uninterp spec fn url_parse_result(input: Seq<char>) -> Result<Seq<char>, Seq<char>>;

/// What `url::Url::set_port(Some(port))` does to the URL serialized as
/// `serialization`: the new serialization, or `None` when it returns `Err(())`.
pub uninterp spec fn url_set_port_result(serialization: Seq<char>, port: u16) -> Option<Seq<char>>;

/// The serialization after `url::Url::set_path(path)`.
pub uninterp spec fn url_set_path_result(serialization: Seq<char>, path: Seq<char>) -> Seq<char>;

/// The serialization after `url::Url::set_query(None)`.
pub uninterp spec fn url_clear_query_result(serialization: Seq<char>) -> Seq<char>;

/// The serialization after `url::Url::set_fragment(None)`.
pub uninterp spec fn url_clear_fragment_result(serialization: Seq<char>) -> Seq<char>;

/// What `url::Url::host_str` returns.
pub uninterp spec fn url_host_str_result(serialization: Seq<char>) -> Option<Seq<char>>;

/// What `url::Url::port_or_known_default` returns.
pub uninterp spec fn url_port_or_known_default_result(serialization: Seq<char>) -> Option<u16>;

/// What `url::Url::path` returns.
pub uninterp spec fn url_path_result(serialization: Seq<char>) -> Seq<char>;

/// A path that `set_path` is given here: empty, or `/` followed by ASCII
/// letters and digits.
pub open spec fn is_plain_path(path: Seq<char>) -> bool {
    path.len() == 0 || (path[0] == '/' && forall|i: int|
        1 <= i < path.len() ==> is_ascii_alnum(#[trigger] path[i]))
}

/// A parsed absolute URL together with its current serialization.
pub struct WebUrl {
    inner: url::Url,
    text: String,
}

impl WebUrl {
    /// The serialization of this URL (`url::Url::as_str`).
    pub closed spec fn serialization(&self) -> Seq<char> {
        self.text@
    }

    /// `url::Url::parse`: the contract claims that the outcome, read as the
    /// serialization of the parsed URL or the text of the parse error,
    /// depends on `input` alone.
    #[verifier::external_body]
    pub(crate) fn parse(input: &str) -> (r: Result<WebUrl, String>)
        ensures
            match url_parse_result(input@) {
                Ok(s) => r matches Ok(u) && u.serialization() == s,
                Err(e) => r matches Err(m) && m@ == e,
            },
    {
        match url::Url::parse(input) {
            Ok(inner) => {
                let text = inner.as_str().to_string();
                Ok(WebUrl { inner, text })
            },
            Err(err) => Err(err.to_string()),
        }
    }

    /// `url::Url::set_port(Some(port))`: the contract claims the outcome is a
    /// function of the serialization and the port, and, as the crate's
    /// source shows, that a refusal leaves the URL unchanged.
    #[verifier::external_body]
    pub(crate) fn set_port(&mut self, port: u16) -> (ok: bool)
        ensures
            match url_set_port_result(old(self).serialization(), port) {
                Some(s) => ok && final(self).serialization() == s,
                None => !ok && final(self).serialization() == old(self).serialization(),
            },
    {
        let ok = self.inner.set_port(Some(port)).is_ok();
        self.text = self.inner.as_str().to_string();
        ok
    }

    /// `url::Url::set_path` with a plain path: the contract claims the new
    /// serialization is a function of the old one and the path.
    #[verifier::external_body]
    pub(crate) fn set_path(&mut self, path: &str)
        requires
            is_plain_path(path@),
        ensures
            final(self).serialization() == url_set_path_result(old(self).serialization(), path@),
    {
        self.inner.set_path(path);
        self.text = self.inner.as_str().to_string();
    }

    /// `url::Url::set_query(None)`: the contract claims the new serialization
    /// is a function of the old one.
    #[verifier::external_body]
    pub(crate) fn clear_query(&mut self)
        ensures
            final(self).serialization() == url_clear_query_result(old(self).serialization()),
    {
        self.inner.set_query(None);
        self.text = self.inner.as_str().to_string();
    }

    /// `url::Url::set_fragment(None)`: the contract claims the new
    /// serialization is a function of the old one.
    #[verifier::external_body]
    pub(crate) fn clear_fragment(&mut self)
        ensures
            final(self).serialization() == url_clear_fragment_result(old(self).serialization()),
    {
        self.inner.set_fragment(None);
        self.text = self.inner.as_str().to_string();
    }

    /// `url::Url::host_str`: the contract claims the host is a function of
    /// the serialization.
    #[verifier::external_body]
    pub(crate) fn host_str(&self) -> (r: Option<String>)
        ensures
            match url_host_str_result(self.serialization()) {
                Some(h) => r matches Some(s) && s@ == h,
                None => r is None,
            },
    {
        self.inner.host_str().map(|h| h.to_string())
    }

    /// `url::Url::port_or_known_default`: the contract claims the port is a
    /// function of the serialization.
    #[verifier::external_body]
    pub(crate) fn port_or_known_default(&self) -> (r: Option<u16>)
        ensures
            r == url_port_or_known_default_result(self.serialization()),
    {
        self.inner.port_or_known_default()
    }

    /// `url::Url::path`: the contract claims the path is a function of the
    /// serialization.
    #[verifier::external_body]
    pub(crate) fn path(&self) -> (r: String)
        ensures
            r@ == url_path_result(self.serialization()),
    {
        self.inner.path().to_string()
    }

    /// The serialization of this URL (`url::Url::as_str`).
    pub fn as_str(&self) -> (r: &str)
        ensures
            r@ == self.serialization(),
    {
        self.text.as_str()
    }

    /// The serialization of this URL (`String::from(url)`).
    pub fn into_string(self) -> (r: String)
        ensures
            r@ == self.serialization(),
    {
        self.text
    }
}

} // verus!
