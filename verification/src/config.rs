//! Where the relay connects to.

use crate::text::same_text;
use vstd::prelude::*;
use vstd::string::StringExecFns;

verus! {

/// Default WebSocket path for the relay endpoint.
pub const DEFAULT_RELAY_PATH: &'static str = "brp-relay";

/// The protocol of a page that was loaded over a secure transport.
pub const SECURE_PAGE_PROTOCOL: &'static str = "https:";

/// The settings of the relay as its user writes them.
#[derive(Debug)]
pub struct BrpWebSocketRelayPlugin {
    /// Full WebSocket URL to connect to.
    ///
    /// If `None`, the endpoint is derived from the location of the page that
    /// hosts the application, using [`Self::path`]
    /// (e.g. `ws://localhost:1334/brp-relay`).
    pub url: Option<String>,
    /// WebSocket path appended when the endpoint is derived.
    ///
    /// Ignored when [`Self::url`] is set. Defaults to [`DEFAULT_RELAY_PATH`].
    pub path: String,
}

/// The settings that the connection is made with. They are fixed before the
/// connection is started.
#[derive(Debug)]
pub struct RelayConfig {
    pub url: Option<String>,
    pub path: String,
}

/// Where the hosting page was loaded from.
#[derive(Debug)]
pub struct PageLocation {
    /// The protocol of the page with its colon, such as `https:`.
    pub protocol: String,
    /// The host of the page, with the port if there is one.
    pub host: String,
}

/// The mathematical model of an optional string.
pub open spec fn optional_text(text: Option<String>) -> Option<Seq<char>> {
    match text {
        Some(text) => Some(text@),
        None => None,
    }
}

/// The WebSocket scheme that goes with a page: the secure one for a page
/// loaded over `https:`, the plain one for every other.
pub open spec fn scheme_for(page_protocol: Seq<char>) -> Seq<char> {
    if page_protocol == SECURE_PAGE_PROTOCOL@ {
        "wss:"@
    } else {
        "ws:"@
    }
}

/// The endpoint on the host of the page: `<scheme>//<host>/<path>`.
pub open spec fn derived_endpoint(page_protocol: Seq<char>, host: Seq<char>, path: Seq<char>) -> Seq<char> {
    scheme_for(page_protocol) + "//"@ + host + "/"@ + path
}

/// The endpoint to connect to: the explicit URL where one is set, else the
/// one derived from the page, and none where neither is known.
pub open spec fn endpoint_of(
    url: Option<Seq<char>>,
    path: Seq<char>,
    page: Option<(Seq<char>, Seq<char>)>,
) -> Option<Seq<char>> {
    match url {
        Some(url) => Some(url),
        None => match page {
            Some((protocol, host)) => Some(derived_endpoint(protocol, host, path)),
            None => None,
        },
    }
}

impl Default for BrpWebSocketRelayPlugin {
    /// No explicit URL, and the default path.
    fn default() -> (plugin: Self)
        ensures
            plugin.url is None,
            plugin.path@ == DEFAULT_RELAY_PATH@,
    {
        BrpWebSocketRelayPlugin { url: None, path: String::from_str(DEFAULT_RELAY_PATH) }
    }
}

impl BrpWebSocketRelayPlugin {
    /// The settings that the connection is made with: a copy of these.
    pub fn config(&self) -> (config: RelayConfig)
        ensures
            optional_text(config.url) == optional_text(self.url),
            config.path@ == self.path@,
    {
        let url = match &self.url {
            Some(url) => Some(url.clone()),
            None => None,
        };
        RelayConfig { url, path: self.path.clone() }
    }
}

/// The WebSocket scheme that goes with a page.
pub fn socket_scheme(page_protocol: &str) -> (scheme: &'static str)
    ensures
        scheme@ == scheme_for(page_protocol@),
{
    if same_text(page_protocol, SECURE_PAGE_PROTOCOL) {
        "wss:"
    } else {
        "ws:"
    }
}

/// Derives the endpoint from the location of the hosting page.
pub fn derive_endpoint(page_protocol: &str, host: &str, path: &str) -> (endpoint: String)
    ensures
        endpoint@ == derived_endpoint(page_protocol@, host@, path@),
{
    let mut endpoint = String::from_str(socket_scheme(page_protocol));
    endpoint.append("//");
    endpoint.append(host);
    endpoint.append("/");
    endpoint.append(path);
    endpoint
}

impl PageLocation {
    /// The model of an optional location: its protocol and its host.
    pub open spec fn optional_view(page: Option<&PageLocation>) -> Option<(Seq<char>, Seq<char>)> {
        match page {
            Some(page) => Some((page.protocol@, page.host@)),
            None => None,
        }
    }
}

impl RelayConfig {
    /// Whether the endpoint has to be derived from the hosting page, which is
    /// the case exactly where no explicit URL is set.
    pub fn needs_page(&self) -> (needed: bool)
        ensures
            needed == (self.url is None),
    {
        self.url.is_none()
    }

    /// The endpoint to connect to. An explicit URL is taken as it is, and the
    /// page is not looked at; without one the endpoint is derived from the
    /// page. `None` where there is neither.
    pub fn endpoint(&self, page: Option<&PageLocation>) -> (endpoint: Option<String>)
        ensures
            optional_text(endpoint) == endpoint_of(
                optional_text(self.url),
                self.path@,
                PageLocation::optional_view(page),
            ),
    {
        match &self.url {
            Some(url) => Some(url.clone()),
            None => match page {
                Some(page) => Some(
                    derive_endpoint(page.protocol.as_str(), page.host.as_str(), self.path.as_str()),
                ),
                None => None,
            },
        }
    }
}

} // verus!
