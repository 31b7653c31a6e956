//! The disguised-transport bridge configuration: a URL-addressed
//! endpoint whose web-facing scheme is rewritten to the WebSocket
//! scheme before any connection is attempted.
//!
//! `http` becomes `ws`, `https` becomes `wss`, the two WebSocket
//! schemes pass through unchanged, and any other scheme is a
//! configuration error caught before any I/O. Host, port and path are
//! preserved verbatim.

use vstd::prelude::*;
use vstd::string::*;
use crate::error::TorError;
use crate::numfmt::{dec_of, format_u64};

verus! {

/// The scheme of `s` as the URL library parses it, when it parses.
pub uninterp spec fn url_scheme_of(s: Seq<char>) -> Seq<char>;

/// The host of `s` as the URL library parses it, when one is present.
pub uninterp spec fn url_host_of(s: Seq<char>) -> Seq<char>;

/// The port of `s` as the URL library reports it: a written port,
/// except that the scheme's default port is reported as absent.
pub uninterp spec fn url_port_of(s: Seq<char>) -> Option<u16>;

/// The path of `s` as the URL library parses it.
pub uninterp spec fn url_path_of(s: Seq<char>) -> Seq<char>;

/// True iff the URL library accepts `s` as a URL.
pub uninterp spec fn url_parses(s: Seq<char>) -> bool;

/// True iff the URL library finds a host component in `s`.
pub uninterp spec fn url_has_host(s: Seq<char>) -> bool;

/// The plain components of a parsed URL.
pub struct UrlParts {
    pub scheme: String,
    pub host: String,
    pub port: Option<u16>,
    pub path: String,
}

/// Relies on `url::Url::parse` and its `scheme`, `host_str`, `port`
/// and `path` accessors: parsing is a function of the text alone, and
/// the accessors return the components of the parsed URL.
#[verifier::external_body]
fn split_url(s: &str) -> (r: Result<Option<UrlParts>, String>)
    ensures
        (r is Ok) == url_parses(s@),
        r matches Ok(o) ==> ((o is Some) == url_has_host(s@)),
        r matches Ok(Some(p)) ==> p.scheme@ == url_scheme_of(s@) && p.host@ == url_host_of(s@)
            && p.port == url_port_of(s@) && p.path@ == url_path_of(s@),
{
    match url::Url::parse(s) {
        Err(e) => Err(e.to_string()),
        Ok(u) => match u.host_str() {
            None => Ok(None),
            Some(h) => Ok(Some(UrlParts {
                scheme: u.scheme().to_string(), host: h.to_string(),
                port: u.port(), path: u.path().to_string(),
            })),
        },
    }
}

/// The disguised-transport scheme for a web-facing scheme: `http`
/// maps to `ws`, `https` to `wss`, the WebSocket schemes map to
/// themselves, and everything else is rejected.
pub open spec fn mapped_scheme(s: Seq<char>) -> Option<Seq<char>> {
    if s == "https"@ {
        Some("wss"@)
    } else if s == "http"@ {
        Some("ws"@)
    } else if s == "ws"@ || s == "wss"@ {
        Some(s)
    } else {
        None
    }
}

/// Rewrite a scheme to its disguised-transport form, or reject it.
fn map_scheme(scheme: &String) -> (r: Option<String>)
    ensures
        match mapped_scheme(scheme@) {
            Some(t) => r matches Some(x) && x@ == t,
            None => r is None,
        },
{
    let https = String::from_str("https");
    let http = String::from_str("http");
    let ws = String::from_str("ws");
    let wss = String::from_str("wss");
    if *scheme == https {
        Some(String::from_str("wss"))
    } else if *scheme == http {
        Some(String::from_str("ws"))
    } else if *scheme == ws || *scheme == wss {
        Some(scheme.clone())
    } else {
        None
    }
}

/// The rewriting of the scheme map is stable: a scheme it produces is
/// mapped to itself by a second application.
pub proof fn lemma_scheme_map_idempotent(s: Seq<char>)
    ensures
        mapped_scheme(s) matches Some(t) ==> mapped_scheme(t) == Some(t),
{
    reveal_strlit("https");
    reveal_strlit("http");
    reveal_strlit("ws");
    reveal_strlit("wss");
    assert("wss"@.len() == 3);
    assert("ws"@.len() == 2);
    assert("https"@.len() == 5);
    assert("http"@.len() == 4);
}

/// The full endpoint text for the given components: scheme, `://`,
/// host, an explicit `:port` only when one was present, then the path.
pub open spec fn endpoint_chars(
    scheme: Seq<char>,
    host: Seq<char>,
    port: Option<u16>,
    path: Seq<char>,
) -> Seq<char> {
    scheme + "://"@ + host + (match port {
        Some(p) => ":"@ + dec_of(p as nat),
        None => Seq::<char>::empty(),
    }) + path
}

/// Connection parameters for the disguised-transport bridge.
#[derive(Debug)]
pub struct WebTunnelConfig {
    /// Full URL of the bridge endpoint.
    pub url: String,
    /// Bridge identity fingerprint, used by the external handshake
    /// layer and not by the transport itself.
    pub fingerprint: String,
    /// Optional override of the server name for TLS; the connection
    /// layer currently derives the name from the URL instead.
    pub server_name: Option<String>,
    /// Connection timeout, in milliseconds.
    pub connection_timeout_ms: u64,
}

impl WebTunnelConfig {
    /// Configuration for `url` and `fingerprint` with the default
    /// 30-second connection timeout.
    pub fn new(url: String, fingerprint: String) -> (r: WebTunnelConfig)
        ensures
            r.url@ == url@,
            r.fingerprint@ == fingerprint@,
            r.server_name is None,
            r.connection_timeout_ms == 30000,
    {
        WebTunnelConfig { url, fingerprint, server_name: None, connection_timeout_ms: 30000 }
    }

    /// The same configuration with another connection timeout.
    pub fn with_timeout(self, timeout_ms: u64) -> (r: WebTunnelConfig)
        ensures
            r.url@ == self.url@,
            r.fingerprint@ == self.fingerprint@,
            r.server_name == self.server_name,
            r.connection_timeout_ms == timeout_ms,
    {
        WebTunnelConfig { connection_timeout_ms: timeout_ms, ..self }
    }

    /// The server name is taken from the URL by the connection layer,
    /// so this returns the configuration unchanged.
    pub fn with_server_name(self, _name: String) -> (r: WebTunnelConfig)
        ensures
            r == self,
    {
        self
    }

    /// Resolve the configured endpoint: rewrite the web-facing scheme
    /// to the WebSocket scheme, preserving host, port and path
    /// verbatim. A URL that does not parse, has no host, or carries an
    /// unrecognized scheme is a configuration error, reported before
    /// any connection attempt.
    pub fn to_wss_url(&self) -> (r: Result<String, TorError>)
        ensures
            (r is Err) == (!url_parses(self.url@) || !url_has_host(self.url@) || mapped_scheme(
                url_scheme_of(self.url@),
            ) is None),
            r matches Err(e) ==> e is Configuration,
            r matches Ok(w) ==> mapped_scheme(url_scheme_of(self.url@)) matches Some(sch)
                && w@ == endpoint_chars(
                sch,
                url_host_of(self.url@),
                url_port_of(self.url@),
                url_path_of(self.url@),
            ),
    {
        match split_url(self.url.as_str()) {
            Err(msg) => {
                let mut e = String::from_str("Invalid WebTunnel URL: ");
                e.append(msg.as_str());
                Err(TorError::Configuration(e))
            },
            Ok(None) => Err(TorError::Configuration(String::from_str("WebTunnel URL missing host"))),
            Ok(Some(parts)) => {
                match map_scheme(&parts.scheme) {
                    None => {
                        let mut e = String::from_str("Invalid WebTunnel URL scheme: ");
                        e.append(parts.scheme.as_str());
                        e.append(". Expected https, http, wss, or ws.");
                        Err(TorError::Configuration(e))
                    },
                    Some(sch) => {
                        let mut s = sch;
                        s.append("://");
                        s.append(parts.host.as_str());
                        match parts.port {
                            Some(p) => {
                                s.append(":");
                                let ps = format_u64(p as u64);
                                s.append(ps.as_str());
                            },
                            None => {},
                        }
                        s.append(parts.path.as_str());
                        proof {
                            let m = mapped_scheme(url_scheme_of(self.url@));
                            assert(s@ =~= endpoint_chars(
                                m.unwrap(),
                                url_host_of(self.url@),
                                url_port_of(self.url@),
                                url_path_of(self.url@),
                            ));
                        }
                        Ok(s)
                    },
                }
            },
        }
    }
}

/// The disguised-transport bridge: resolves its configured endpoint;
/// the connection itself is performed by the platform's WebSocket
/// layer outside this crate.
pub struct WebTunnelBridge {
    /// The connection parameters this bridge was created with.
    pub config: WebTunnelConfig,
}

impl WebTunnelBridge {
    /// Create a bridge for the given configuration.
    pub fn new(config: WebTunnelConfig) -> (r: WebTunnelBridge)
        ensures
            r.config == config,
    {
        WebTunnelBridge { config }
    }

    /// The endpoint the bridge will connect to, with the scheme
    /// resolved to its disguised-transport form.
    pub fn endpoint(&self) -> (r: Result<String, TorError>)
        ensures
            (r is Err) == (!url_parses(self.config.url@) || !url_has_host(self.config.url@)
                || mapped_scheme(url_scheme_of(self.config.url@)) is None),
            r matches Err(e) ==> e is Configuration,
            r matches Ok(w) ==> mapped_scheme(url_scheme_of(self.config.url@)) matches Some(sch)
                && w@ == endpoint_chars(
                sch,
                url_host_of(self.config.url@),
                url_port_of(self.config.url@),
                url_path_of(self.config.url@),
            ),
    {
        self.config.to_wss_url()
    }
}

} // verus!
