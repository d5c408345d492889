//! Externally reachable host names the handlers redirect to and from.

use vstd::prelude::*;

verus! {

/// The two externally visible base URLs the session handlers need: the
/// API's own host (used to build the OAuth2 redirect URI) and the
/// dashboard web page (the target of post-login redirects).
#[derive(Debug, Clone)]
pub struct ServerInfo {
    api_host: String,
    webpage: String,
}

impl ServerInfo {
    /// The externally reachable API host, as a character sequence.
    pub closed spec fn spec_api_host(&self) -> Seq<char> {
        self.api_host@
    }

    /// The dashboard web page base URL, as a character sequence.
    pub closed spec fn spec_webpage(&self) -> Seq<char> {
        self.webpage@
    }

    /// Builds the record from the two configured base URLs.
    pub fn new(api_host: String, webpage: String) -> (r: Self)
        ensures
            r.spec_api_host() == api_host@,
            r.spec_webpage() == webpage@,
    {
        ServerInfo { api_host, webpage }
    }

    /// The externally reachable API host.
    pub fn api_host(&self) -> (r: &str)
        ensures
            r@ == self.spec_api_host(),
    {
        self.api_host.as_str()
    }

    /// The dashboard web page base URL.
    pub fn webpage(&self) -> (r: &str)
        ensures
            r@ == self.spec_webpage(),
    {
        self.webpage.as_str()
    }
}

} // verus!
