//! The four ways a request can travel, and the rule that picks one.

use crate::text::same_text;
use vstd::prelude::*;
use vstd::string::*;

verus! {

/// How a request reaches its server.
#[derive(Debug, Clone, Copy, PartialEq, Eq)]
pub enum WirePath {
    /// Through an `http` proxy that relays the request: the request names
    /// its target by the absolute form of the URL, and goes out in plain
    /// text whatever the scheme of the target.
    ProxyForward,
    /// Through a proxy of any other scheme, which is asked for a tunnel to
    /// the target first.
    ProxyTunnel,
    /// Straight to an `http` target, in plain text.
    DirectPlain,
    /// Straight to the target, over TLS.
    DirectTls,
}

/// Whether `scheme` is `http`.
pub open spec fn is_http(scheme: Seq<char>) -> bool {
    scheme == "http"@
}

/// Whether `scheme` is `https`.
pub open spec fn is_https(scheme: Seq<char>) -> bool {
    scheme == "https"@
}

/// The path of a request, from the scheme of its proxy, if it has one, and
/// the scheme of its target. A proxy decides first; without one, only an
/// `http` target is reached in plain text.
pub open spec fn route(proxy: Option<Seq<char>>, target: Seq<char>) -> WirePath {
    match proxy {
        Some(scheme) => if is_http(scheme) {
            WirePath::ProxyForward
        } else {
            WirePath::ProxyTunnel
        },
        None => if is_http(target) {
            WirePath::DirectPlain
        } else {
            WirePath::DirectTls
        },
    }
}

/// Whether the request itself, once a connection or a tunnel to the target
/// stands, is wrapped in TLS.
pub open spec fn secured(path: WirePath, target: Seq<char>) -> bool {
    match path {
        WirePath::ProxyForward => false,
        WirePath::ProxyTunnel => !is_http(target),
        WirePath::DirectPlain => false,
        WirePath::DirectTls => true,
    }
}

/// Whether `scheme` is `http`.
pub fn scheme_is_http(scheme: &str) -> (yes: bool)
    ensures
        yes == is_http(scheme@),
{
    same_text(scheme, "http")
}

/// Whether `scheme` is `https`.
pub fn scheme_is_https(scheme: &str) -> (yes: bool)
    ensures
        yes == is_https(scheme@),
{
    same_text(scheme, "https")
}

/// Picks the path of a request.
pub fn select_path(proxy: Option<&str>, target: &str) -> (path: WirePath)
    ensures
        path == route(
            match proxy {
                Some(scheme) => Some(scheme@),
                None => None,
            },
            target@,
        ),
{
    match proxy {
        Some(scheme) => if scheme_is_http(scheme) {
            WirePath::ProxyForward
        } else {
            WirePath::ProxyTunnel
        },
        None => if scheme_is_http(target) {
            WirePath::DirectPlain
        } else {
            WirePath::DirectTls
        },
    }
}

/// The two schemes are different texts.
pub proof fn lemma_http_is_not_https(scheme: Seq<char>)
    ensures
        !(is_http(scheme) && is_https(scheme)),
{
    reveal_strlit("http");
    reveal_strlit("https");
    assert("http"@.len() != "https"@.len());
}

/// A request takes exactly one path, and TLS goes with it as follows:
/// never through a relaying proxy, never to an `http` target, and
/// always otherwise.
pub proof fn lemma_route_table(proxy: Option<Seq<char>>, target: Seq<char>)
    ensures
        route(proxy, target) is ProxyForward <==> (proxy matches Some(s) && is_http(s)),
        route(proxy, target) is ProxyTunnel <==> (proxy matches Some(s) && !is_http(s)),
        route(proxy, target) is DirectPlain <==> proxy is None && is_http(target),
        route(proxy, target) is DirectTls <==> proxy is None && !is_http(target),
        secured(route(proxy, target), target) <==> !is_http(target) && !(proxy matches Some(s)
            && is_http(s)),
{
}

} // verus!
