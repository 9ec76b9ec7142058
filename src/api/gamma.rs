//! Endpoint addressing for the Gamma REST API.
use vstd::prelude::*;
use crate::text::{trim_end_char, trim_start_char, strip_end, strip_start};

verus! {

/// The URL of `path` under `base`: one `/` between them, however many the
/// base ends with or the path starts with; the bare base for an empty path.
pub open spec fn joined_url(base: Seq<char>, path: Seq<char>) -> Seq<char> {
    let b = strip_end(base, '/');
    let p = strip_start(path, '/');
    if p.len() == 0 { b } else { b + "/"@ + p }
}

/// Addresses of the Gamma API's resources.
#[derive(Clone, Debug)]
pub struct GammaClient {
    base_url: String,
}

impl GammaClient {
    pub closed spec fn base(&self) -> Seq<char> {
        self.base_url@
    }

    /// A client for the public Gamma API.
    pub fn new() -> (r: Self)
        ensures
            r.base() == "https://gamma-api.polymarket.com"@,
    {
        GammaClient { base_url: String::from_str("https://gamma-api.polymarket.com") }
    }

    /// The same client against another base URL.
    pub fn with_base_url(self, url: &str) -> (r: Self)
        ensures
            r.base() == url@,
    {
        GammaClient { base_url: String::from_str(url) }
    }

    fn build_url(&self, path: &str) -> (r: String)
        ensures
            r@ == joined_url(self.base(), path@),
    {
        let base = trim_end_char(self.base_url.as_str(), '/');
        let path = trim_start_char(path, '/');
        let mut url = String::from_str(base);
        if path.unicode_len() > 0 {
            url.append("/");
            url.append(path);
        }
        url
    }

    /// The full URL of `path` on this client's base.
    pub fn gamma_url(&self, path: &str) -> (r: String)
        ensures
            r@ == joined_url(self.base(), path@),
    {
        self.build_url(path)
    }
}

impl Default for GammaClient {
    fn default() -> (r: Self)
        ensures
            r.base() == "https://gamma-api.polymarket.com"@,
    {
        Self::new()
    }
}

} // verus!
