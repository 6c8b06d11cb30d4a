//! The request descriptor: everything one request needs, gathered by a
//! chain of builder calls, and the exact text and bytes that it becomes.

use crate::error::{HttpError, HttpErrorView};
use crate::route::{
    is_http, is_https, lemma_http_is_not_https, route, scheme_is_http, scheme_is_https, secured,
    select_path, WirePath,
};
use crate::text::{decimal, decimal_value, lemma_decimal};
use crate::url::{parse_url, url_parse, ParsedUrl, UrlView};
use crate::wire::{
    clone_headers, connect_block, connect_request, connection_line, content_length_line,
    header_block, header_fields, header_line, header_lines, headers_of, host_line,
    lemma_header_order, push_content_length, push_header_lines, push_host_line, push_request_line,
    request_line, Header,
};
use vstd::prelude::*;
use vstd::string::*;
use vstd::utf8::encode_utf8;

verus! {

/// The method of a request: one of the usual six, or any other token.
#[derive(Debug, PartialEq, Eq)]
pub enum Methods {
    Get,
    Post,
    Put,
    Head,
    Delete,
    Options,
    Custom(String),
}

/// A [`Methods`] with the token of a custom method as characters.
pub enum MethodsView {
    Get,
    Post,
    Put,
    Head,
    Delete,
    Options,
    Custom(Seq<char>),
}

impl MethodsView {
    /// The method as it is written in a request line.
    pub open spec fn token(self) -> Seq<char> {
        match self {
            MethodsView::Get => "GET"@,
            MethodsView::Post => "POST"@,
            MethodsView::Put => "PUT"@,
            MethodsView::Head => "HEAD"@,
            MethodsView::Delete => "DELETE"@,
            MethodsView::Options => "OPTIONS"@,
            MethodsView::Custom(token) => token,
        }
    }
}

impl View for Methods {
    type V = MethodsView;

    open spec fn view(&self) -> MethodsView {
        match self {
            Methods::Get => MethodsView::Get,
            Methods::Post => MethodsView::Post,
            Methods::Put => MethodsView::Put,
            Methods::Head => MethodsView::Head,
            Methods::Delete => MethodsView::Delete,
            Methods::Options => MethodsView::Options,
            Methods::Custom(token) => MethodsView::Custom(token@),
        }
    }
}

impl Clone for Methods {
    fn clone(&self) -> (copy: Self)
        ensures
            copy@ == self@,
    {
        match self {
            Methods::Get => Methods::Get,
            Methods::Post => Methods::Post,
            Methods::Put => Methods::Put,
            Methods::Head => Methods::Head,
            Methods::Delete => Methods::Delete,
            Methods::Options => Methods::Options,
            Methods::Custom(token) => Methods::Custom(token.clone()),
        }
    }
}

impl Methods {
    /// The method as it is written in a request line.
    pub fn to_text(&self) -> (text: String)
        ensures
            text@ == self@.token(),
    {
        match self {
            Methods::Get => "GET".to_owned(),
            Methods::Post => "POST".to_owned(),
            Methods::Put => "PUT".to_owned(),
            Methods::Head => "HEAD".to_owned(),
            Methods::Delete => "DELETE".to_owned(),
            Methods::Options => "OPTIONS".to_owned(),
            Methods::Custom(token) => token.clone(),
        }
    }
}

/// Where a request is headed: the address of the server, and the request
/// target in both of its forms, made once from the URL.
#[derive(Debug, PartialEq, Eq)]
pub struct Target {
    pub scheme: String,
    pub host: String,
    pub port: u16,
    /// Path and query, for the server itself.
    pub origin: String,
    /// The whole URL, for a proxy that relays the request.
    pub absolute: String,
}

/// A [`Target`] with its texts as sequences of characters.
pub struct TargetView {
    pub scheme: Seq<char>,
    pub host: Seq<char>,
    pub port: u16,
    pub origin: Seq<char>,
    pub absolute: Seq<char>,
}

impl View for Target {
    type V = TargetView;

    open spec fn view(&self) -> TargetView {
        TargetView {
            scheme: self.scheme@,
            host: self.host@,
            port: self.port,
            origin: self.origin@,
            absolute: self.absolute@,
        }
    }
}

impl Clone for Target {
    fn clone(&self) -> (copy: Self)
        ensures
            copy@ == self@,
    {
        Target {
            scheme: self.scheme.clone(),
            host: self.host.clone(),
            port: self.port,
            origin: self.origin.clone(),
            absolute: self.absolute.clone(),
        }
    }
}

/// The address of a proxy.
#[derive(Debug, PartialEq, Eq)]
pub struct Proxy {
    pub scheme: String,
    pub host: String,
    pub port: u16,
}

/// A [`Proxy`] with its texts as sequences of characters.
pub struct ProxyView {
    pub scheme: Seq<char>,
    pub host: Seq<char>,
    pub port: u16,
}

impl View for Proxy {
    type V = ProxyView;

    open spec fn view(&self) -> ProxyView {
        ProxyView { scheme: self.scheme@, host: self.host@, port: self.port }
    }
}

impl Clone for Proxy {
    fn clone(&self) -> (copy: Self)
        ensures
            copy@ == self@,
    {
        Proxy { scheme: self.scheme.clone(), host: self.host.clone(), port: self.port }
    }
}

/// The bytes of an optional body.
pub open spec fn bytes_of(body: Option<Vec<u8>>) -> Option<Seq<u8>> {
    match body {
        Some(b) => Some(b@),
        None => None,
    }
}

/// The length of an optional body.
pub open spec fn length_of(body: Option<Seq<u8>>) -> Option<nat> {
    match body {
        Some(b) => Some(b.len()),
        None => None,
    }
}

/// The bytes that go out for a request: its head, then its body if it has
/// one.
pub open spec fn wire_image(head: Seq<u8>, body: Option<Seq<u8>>) -> Seq<u8> {
    match body {
        Some(b) => head + b,
        None => head,
    }
}

/// What a request descriptor holds.
pub struct ClientView {
    pub target: TargetView,
    pub method: MethodsView,
    pub headers: Seq<Header>,
    pub body: Option<Seq<u8>>,
    pub timeout: u64,
    pub proxy: Option<ProxyView>,
    pub verify: bool,
}

impl ClientView {
    /// The rules that every descriptor obeys: certificate checking is
    /// switched off only for an `https` target, and an `https` target is
    /// never paired with an `http` proxy.
    pub open spec fn wf(self) -> bool {
        &&& !self.verify ==> is_https(self.target.scheme)
        &&& self.proxy matches Some(p) ==> !(is_https(self.target.scheme) && is_http(p.scheme))
    }

    /// The descriptor made from the parts of a URL: a `GET` of that URL
    /// with no headers, no body, no proxy, a timeout of 30 seconds and
    /// certificate checking on. A URL without a host gives none.
    pub open spec fn created(url: UrlView) -> Result<ClientView, HttpErrorView> {
        match url.host {
            Some(host) => Ok(
                ClientView {
                    target: TargetView {
                        scheme: url.scheme,
                        host: host,
                        port: url.port,
                        origin: url.origin_form(),
                        absolute: url.absolute_form(),
                    },
                    method: MethodsView::Get,
                    headers: Seq::empty(),
                    body: None,
                    timeout: 30,
                    proxy: None,
                    verify: true,
                },
            ),
            None => Err(HttpErrorView::Parse("url parse error"@)),
        }
    }

    /// The descriptor with certificate checking set to `verify`, which is
    /// a setting of `https` targets only.
    pub open spec fn with_verify(self, verify: bool) -> Result<ClientView, HttpErrorView> {
        if is_https(self.target.scheme) {
            Ok(ClientView { verify: verify, ..self })
        } else {
            Err(HttpErrorView::Config("Verify setting only for https"@))
        }
    }

    /// The descriptor with the proxy at `url`. An `http` proxy is refused
    /// for an `https` target, whatever the proxy could do; after that, a
    /// proxy URL without a host is refused.
    pub open spec fn with_proxy(self, url: UrlView) -> Result<ClientView, HttpErrorView> {
        if is_https(self.target.scheme) && is_http(url.scheme) {
            Err(HttpErrorView::Proxy("Http proxy can only use http scheme."@))
        } else {
            match url.host {
                Some(host) => Ok(
                    ClientView {
                        proxy: Some(ProxyView { scheme: url.scheme, host: host, port: url.port }),
                        ..self
                    },
                ),
                None => Err(HttpErrorView::Parse("proxy url parse error"@)),
            }
        }
    }

    /// The scheme of the proxy, if there is one.
    pub open spec fn proxy_scheme(self) -> Option<Seq<char>> {
        match self.proxy {
            Some(p) => Some(p.scheme),
            None => None,
        }
    }

    /// The path that the request takes.
    pub open spec fn wire_path(self) -> WirePath {
        route(self.proxy_scheme(), self.target.scheme)
    }

    /// The host and port to connect to: the proxy where there is one, else
    /// the target.
    pub open spec fn peer(self) -> (Seq<char>, u16) {
        match self.proxy {
            Some(p) => (p.host, p.port),
            None => (self.target.host, self.target.port),
        }
    }

    /// The request target as written in the request line: the absolute
    /// form for a proxy that relays the request, the origin form on
    /// every other path.
    pub open spec fn request_target(self) -> Seq<char> {
        if self.wire_path() is ProxyForward {
            self.target.absolute
        } else {
            self.target.origin
        }
    }

    /// The head of the request.
    pub open spec fn header_text(self) -> Seq<char> {
        header_block(
            self.method.token(),
            self.request_target(),
            self.target.host,
            self.target.port,
            length_of(self.body),
            self.headers,
        )
    }

    /// The bytes of the request: its head, then its body if it has one.
    pub open spec fn request_image(self) -> Seq<u8> {
        wire_image(encode_utf8(self.header_text()), self.body)
    }

    /// The bytes that ask a proxy for a tunnel to the target.
    pub open spec fn connect_image(self) -> Seq<u8> {
        encode_utf8(connect_block(self.target.host, self.target.port))
    }
}

/// A descriptor made from a URL obeys the rules of descriptors.
pub proof fn lemma_created_obeys_rules(url: UrlView)
    ensures
        ClientView::created(url) matches Ok(c) ==> c.wf(),
{
}

/// Setting the certificate check keeps the rules, where it succeeds; and
/// it succeeds for `https` targets only.
pub proof fn lemma_with_verify_keeps_rules(c: ClientView, verify: bool)
    requires
        c.wf(),
    ensures
        c.with_verify(verify) is Ok <==> is_https(c.target.scheme),
        c.with_verify(verify) matches Ok(d) ==> d.wf(),
        c.with_verify(verify) matches Err(e) ==> e is Config,
{
}

/// Setting a proxy keeps the rules, where it succeeds.
pub proof fn lemma_with_proxy_keeps_rules(c: ClientView, url: UrlView)
    requires
        c.wf(),
    ensures
        c.with_proxy(url) matches Ok(d) ==> d.wf(),
{
}

/// What the rules mean for the transport: a proxy that relays never
/// relays a request for an `https` target, and the certificate check is
/// off only on requests that are wrapped in TLS.
pub proof fn lemma_rules_on_the_wire(c: ClientView)
    requires
        c.wf(),
    ensures
        c.wire_path() is ProxyForward ==> !is_https(c.target.scheme),
        !c.verify ==> secured(c.wire_path(), c.target.scheme),
{
    lemma_http_is_not_https(c.target.scheme);
}

/// A request that goes straight to an `http` target names it in origin
/// form: the request line holds the path and query, not the whole URL.
pub proof fn lemma_direct_plain_uses_origin_form(c: ClientView)
    requires
        c.proxy is None,
        is_http(c.target.scheme),
    ensures
        c.wire_path() is DirectPlain,
        c.request_target() == c.target.origin,
        c.header_text() == request_line(c.method.token(), c.target.origin) + header_fields(
            c.target.host,
            c.target.port,
            length_of(c.body),
            c.headers,
        ),
{
}

/// A request that a proxy relays names its target in absolute form.
pub proof fn lemma_proxy_forward_uses_absolute_form(c: ClientView)
    requires
        c.wire_path() is ProxyForward,
    ensures
        c.request_target() == c.target.absolute,
        c.header_text() == request_line(c.method.token(), c.target.absolute) + header_fields(
            c.target.host,
            c.target.port,
            length_of(c.body),
            c.headers,
        ),
{
}

/// On every path but the one through a relaying proxy, a request names
/// its target in origin form.
pub proof fn lemma_other_paths_use_origin_form(c: ClientView)
    requires
        !(c.wire_path() is ProxyForward),
    ensures
        c.request_target() == c.target.origin,
        c.header_text() == request_line(c.method.token(), c.target.origin) + header_fields(
            c.target.host,
            c.target.port,
            length_of(c.body),
            c.headers,
        ),
{
}

/// The headers of a descriptor appear in the head in the order in which
/// they were given, each as its own line and none changed: the line of the
/// header at `at` follows the lines of the headers before it and comes
/// before the lines of the headers after it, repeated names included.
pub proof fn lemma_headers_keep_their_order(c: ClientView, at: int)
    requires
        0 <= at < c.headers.len(),
    ensures
        c.header_text() == request_line(c.method.token(), c.request_target()) + host_line(
            c.target.host,
            c.target.port,
        ) + connection_line() + content_length_line(length_of(c.body)) + header_lines(
            c.headers.take(at),
        ) + header_line(c.headers[at]) + header_lines(c.headers.skip(at + 1)) + "\r\n"@,
{
    lemma_header_order(c.headers, at);
    let lead = request_line(c.method.token(), c.request_target()) + host_line(
        c.target.host,
        c.target.port,
    ) + connection_line() + content_length_line(length_of(c.body));
    assert(c.header_text() =~= lead + header_lines(c.headers) + "\r\n"@);
    assert(lead + header_lines(c.headers) =~= lead + header_lines(c.headers.take(at))
        + header_line(c.headers[at]) + header_lines(c.headers.skip(at + 1)));
}

/// The head holds a `Content-Length` line exactly when the descriptor has
/// a body. The line stands between `Connection` and the caller's headers,
/// its numeral denotes the number of bytes of the body, and those bytes
/// follow the head on the wire.
pub proof fn lemma_content_length_follows_body(c: ClientView)
    ensures
        c.body is None ==> c.header_text() == request_line(c.method.token(), c.request_target())
            + host_line(c.target.host, c.target.port) + connection_line() + header_lines(c.headers)
            + "\r\n"@ && c.request_image() == encode_utf8(c.header_text()),
        c.body matches Some(b) ==> c.header_text() == request_line(
            c.method.token(),
            c.request_target(),
        ) + host_line(c.target.host, c.target.port) + connection_line() + ("Content-Length: "@
            + decimal(b.len()) + "\r\n"@) + header_lines(c.headers) + "\r\n"@ && decimal_value(
            decimal(b.len()),
        ) == b.len() && c.request_image() == encode_utf8(c.header_text()) + b,
{
    let lead = request_line(c.method.token(), c.request_target()) + host_line(
        c.target.host,
        c.target.port,
    ) + connection_line();
    match c.body {
        Some(b) => {
            lemma_decimal(b.len());
            assert(c.header_text() =~= lead + ("Content-Length: "@ + decimal(b.len()) + "\r\n"@)
                + header_lines(c.headers) + "\r\n"@);
        },
        None => {
            assert(c.header_text() =~= lead + header_lines(c.headers) + "\r\n"@);
        },
    }
}

/// A request descriptor.
///
/// It is made from a URL, changed by builder calls, and read by the
/// transport, any number of times.
#[derive(Debug, PartialEq, Eq)]
pub struct Client {
    target: Target,
    method: Methods,
    headers: Vec<(String, String)>,
    body: Option<Vec<u8>>,
    timeout: u64,
    proxy: Option<Proxy>,
    verify: bool,
}

impl View for Client {
    type V = ClientView;

    closed spec fn view(&self) -> ClientView {
        ClientView {
            target: self.target@,
            method: self.method@,
            headers: headers_of(self.headers@),
            body: bytes_of(self.body),
            timeout: self.timeout,
            proxy: match self.proxy {
                Some(p) => Some(p@),
                None => None,
            },
            verify: self.verify,
        }
    }
}

impl Clone for Client {
    fn clone(&self) -> (copy: Self)
        ensures
            copy@ == self@,
    {
        proof {
            use_type_invariant(self);
        }
        Client {
            target: self.target.clone(),
            method: self.method.clone(),
            headers: clone_headers(&self.headers),
            body: match &self.body {
                Some(b) => Some(b.clone()),
                None => None,
            },
            timeout: self.timeout,
            proxy: match &self.proxy {
                Some(p) => Some(p.clone()),
                None => None,
            },
            verify: self.verify,
        }
    }
}

impl Client {
    #[verifier::type_invariant]
    spec fn well_formed(self) -> bool {
        self@.wf()
    }

    /// Makes the descriptor of a `GET` request for `url`.
    ///
    /// Fails where the URL names no host.
    pub fn new(url: &str) -> (made: Result<Self, HttpError>)
        ensures
            match made {
                Ok(client) => ClientView::created(url_parse(url@)) == Ok::<
                    ClientView,
                    HttpErrorView,
                >(client@),
                Err(e) => ClientView::created(url_parse(url@)) == Err::<ClientView, HttpErrorView>(
                    e@,
                ),
            },
    {
        Self::from_parts(parse_url(url))
    }

    /// Makes the descriptor of a `GET` request for a URL that has been
    /// split into its parts.
    ///
    /// Fails where the URL names no host.
    pub fn from_parts(url: ParsedUrl) -> (made: Result<Self, HttpError>)
        ensures
            match made {
                Ok(client) => ClientView::created(url@) == Ok::<ClientView, HttpErrorView>(
                    client@,
                ) && client@.wf(),
                Err(e) => ClientView::created(url@) == Err::<ClientView, HttpErrorView>(e@),
            },
    {
        let origin = url.request_string();
        let absolute = url.as_string();
        match url.host {
            Some(host) => {
                let client = Client {
                    target: Target { scheme: url.scheme, host, port: url.port, origin, absolute },
                    method: Methods::Get,
                    headers: Vec::new(),
                    body: None,
                    timeout: 30,
                    proxy: None,
                    verify: true,
                };
                assert(client@.headers =~= Seq::empty());
                Ok(client)
            },
            None => Err(HttpError::Parse("url parse error")),
        }
    }

    /// Makes this a `GET` request.
    pub fn get(&mut self) -> (ret: &mut Self)
        ensures
            ret@ == (ClientView { method: MethodsView::Get, ..old(self)@ }),
            *final(self) == *final(ret),
    {
        proof {
            use_type_invariant(&*self);
        }
        self.method = Methods::Get;
        self
    }

    /// Makes this a `POST` request.
    pub fn post(&mut self) -> (ret: &mut Self)
        ensures
            ret@ == (ClientView { method: MethodsView::Post, ..old(self)@ }),
            *final(self) == *final(ret),
    {
        proof {
            use_type_invariant(&*self);
        }
        self.method = Methods::Post;
        self
    }

    /// Makes this a `PUT` request.
    pub fn put(&mut self) -> (ret: &mut Self)
        ensures
            ret@ == (ClientView { method: MethodsView::Put, ..old(self)@ }),
            *final(self) == *final(ret),
    {
        proof {
            use_type_invariant(&*self);
        }
        self.method = Methods::Put;
        self
    }

    /// Makes this a `HEAD` request.
    pub fn head(&mut self) -> (ret: &mut Self)
        ensures
            ret@ == (ClientView { method: MethodsView::Head, ..old(self)@ }),
            *final(self) == *final(ret),
    {
        proof {
            use_type_invariant(&*self);
        }
        self.method = Methods::Head;
        self
    }

    /// Makes this a `DELETE` request.
    pub fn delete(&mut self) -> (ret: &mut Self)
        ensures
            ret@ == (ClientView { method: MethodsView::Delete, ..old(self)@ }),
            *final(self) == *final(ret),
    {
        proof {
            use_type_invariant(&*self);
        }
        self.method = Methods::Delete;
        self
    }

    /// Makes this an `OPTIONS` request.
    pub fn options(&mut self) -> (ret: &mut Self)
        ensures
            ret@ == (ClientView { method: MethodsView::Options, ..old(self)@ }),
            *final(self) == *final(ret),
    {
        proof {
            use_type_invariant(&*self);
        }
        self.method = Methods::Options;
        self
    }

    /// Gives the request a method of the caller's choosing, written into
    /// the request line as it is.
    pub fn request(&mut self, method: &str) -> (ret: &mut Self)
        ensures
            ret@ == (ClientView { method: MethodsView::Custom(method@), ..old(self)@ }),
            *final(self) == *final(ret),
    {
        proof {
            use_type_invariant(&*self);
        }
        self.method = Methods::Custom(method.to_owned());
        self
    }

    /// Replaces the headers of the request by `data`. Nothing of the old
    /// list stays, and nothing of the new one is merged, dropped or moved.
    pub fn headers(&mut self, data: Vec<(String, String)>) -> (ret: &mut Self)
        ensures
            ret@ == (ClientView { headers: headers_of(data@), ..old(self)@ }),
            *final(self) == *final(ret),
    {
        proof {
            use_type_invariant(&*self);
        }
        self.headers = data;
        self
    }

    /// Gives the request the body `data`.
    pub fn body(&mut self, data: Vec<u8>) -> (ret: &mut Self)
        ensures
            ret@ == (ClientView { body: Some(data@), ..old(self)@ }),
            *final(self) == *final(ret),
    {
        proof {
            use_type_invariant(&*self);
        }
        self.body = Some(data);
        self
    }

    /// Gives the request the bytes of `text`, in UTF-8, as its body.
    pub fn body_str(&mut self, text: &str) -> (ret: &mut Self)
        ensures
            ret@ == (ClientView { body: Some(encode_utf8(text@)), ..old(self)@ }),
            *final(self) == *final(ret),
    {
        proof {
            use_type_invariant(&*self);
        }
        self.body = Some(text.as_bytes_vec());
        self
    }

    /// Sets the time, in seconds, that a read or a write on the connection
    /// may take.
    pub fn timeout(&mut self, time: u64) -> (ret: &mut Self)
        ensures
            ret@ == (ClientView { timeout: time, ..old(self)@ }),
            *final(self) == *final(ret),
    {
        proof {
            use_type_invariant(&*self);
        }
        self.timeout = time;
        self
    }

    /// Switches the checking of the server's certificate on or off.
    ///
    /// Only an `https` request has the setting. On any other request the
    /// call fails and changes nothing.
    pub fn verify(&mut self, verify: bool) -> (ret: Result<&mut Self, HttpError>)
        ensures
            match ret {
                Ok(r) => old(self)@.with_verify(verify) == Ok::<ClientView, HttpErrorView>(r@)
                    && *final(self) == *final(r),
                Err(e) => old(self)@.with_verify(verify) == Err::<ClientView, HttpErrorView>(e@)
                    && *final(self) == *old(self),
            },
    {
        proof {
            use_type_invariant(&*self);
        }
        if scheme_is_https(self.target.scheme.as_str()) {
            self.verify = verify;
            Ok(self)
        } else {
            Err(HttpError::Config("Verify setting only for https"))
        }
    }

    /// Sends the request through the proxy at the URL `proxy`.
    ///
    /// Fails, and changes nothing, where the target is `https` and the
    /// proxy `http`, or where the URL of the proxy names no host. A later
    /// call replaces the proxy of an earlier one.
    pub fn proxy(&mut self, proxy: &str) -> (ret: Result<&mut Self, HttpError>)
        ensures
            match ret {
                Ok(r) => old(self)@.with_proxy(url_parse(proxy@)) == Ok::<
                    ClientView,
                    HttpErrorView,
                >(r@) && *final(self) == *final(r),
                Err(e) => old(self)@.with_proxy(url_parse(proxy@)) == Err::<
                    ClientView,
                    HttpErrorView,
                >(e@) && *final(self) == *old(self),
            },
    {
        self.proxy_from_parts(parse_url(proxy))
    }

    /// Sends the request through the proxy whose URL has been split into
    /// the parts `url`.
    ///
    /// Fails, and changes nothing, where the target is `https` and the
    /// proxy `http`, or where the URL of the proxy names no host.
    pub fn proxy_from_parts(&mut self, url: ParsedUrl) -> (ret: Result<&mut Self, HttpError>)
        ensures
            match ret {
                Ok(r) => old(self)@.with_proxy(url@) == Ok::<ClientView, HttpErrorView>(r@)
                    && *final(self) == *final(r),
                Err(e) => old(self)@.with_proxy(url@) == Err::<ClientView, HttpErrorView>(e@)
                    && *final(self) == *old(self),
            },
    {
        proof {
            use_type_invariant(&*self);
        }
        if scheme_is_https(self.target.scheme.as_str()) && scheme_is_http(url.scheme.as_str()) {
            return Err(HttpError::Proxy("Http proxy can only use http scheme."));
        }
        match url.host {
            Some(host) => {
                self.proxy = Some(Proxy { scheme: url.scheme, host, port: url.port });
                Ok(self)
            },
            None => Err(HttpError::Parse("proxy url parse error")),
        }
    }

    /// The target of the request.
    pub fn target(&self) -> (target: &Target)
        ensures
            target@ == self@.target,
    {
        &self.target
    }

    /// The method of the request.
    pub fn method(&self) -> (method: &Methods)
        ensures
            method@ == self@.method,
    {
        &self.method
    }

    /// The headers of the request, in their order.
    pub fn header_list(&self) -> (list: &Vec<(String, String)>)
        ensures
            headers_of(list@) == self@.headers,
    {
        &self.headers
    }

    /// The body of the request, if it has one.
    pub fn payload(&self) -> (body: Option<&Vec<u8>>)
        ensures
            match body {
                Some(b) => self@.body == Some(b@),
                None => self@.body is None,
            },
    {
        match &self.body {
            Some(b) => Some(b),
            None => None,
        }
    }

    /// The time, in seconds, that a read or a write may take.
    pub fn timeout_secs(&self) -> (secs: u64)
        ensures
            secs == self@.timeout,
    {
        self.timeout
    }

    /// The proxy of the request, if it has one.
    pub fn proxy_server(&self) -> (proxy: Option<&Proxy>)
        ensures
            match proxy {
                Some(p) => self@.proxy == Some(p@),
                None => self@.proxy is None,
            },
    {
        match &self.proxy {
            Some(p) => Some(p),
            None => None,
        }
    }

    /// Whether the certificate of the server is checked.
    pub fn verifies(&self) -> (on: bool)
        ensures
            on == self@.verify,
    {
        self.verify
    }

    /// The path that the request takes. Every descriptor obeys its rules,
    /// so a path through a relaying proxy never leads to an `https`
    /// target.
    pub fn wire_path(&self) -> (path: WirePath)
        ensures
            path == self@.wire_path(),
            self@.wf(),
    {
        proof {
            use_type_invariant(self);
        }
        match &self.proxy {
            Some(p) => select_path(Some(p.scheme.as_str()), self.target.scheme.as_str()),
            None => select_path(None, self.target.scheme.as_str()),
        }
    }

    /// Builds the head of the request: request line, `Host`, `Connection`,
    /// `Content-Length` where there is a body, the headers in their order,
    /// and the empty line.
    pub fn build_header(&self) -> (head: String)
        ensures
            head@ == self@.header_text(),
    {
        let method = self.method.to_text();
        let target = match self.wire_path() {
            WirePath::ProxyForward => &self.target.absolute,
            _ => &self.target.origin,
        };
        let length = match &self.body {
            Some(b) => Some(b.len()),
            None => None,
        };
        let mut head = String::new();
        push_request_line(&mut head, method.as_str(), target.as_str());
        push_host_line(&mut head, self.target.host.as_str(), self.target.port);
        head.append("Connection: Close\r\n");
        push_content_length(&mut head, length);
        push_header_lines(&mut head, &self.headers);
        head.append("\r\n");
        assert(head@ =~= self@.header_text());
        head
    }

    /// Writes a request to `stream`: the bytes of its head, then its body
    /// if it has one.
    pub fn write_all(stream: &mut Vec<u8>, body: Option<&Vec<u8>>, headers: &[u8])
        ensures
            final(stream)@ == old(stream)@ + wire_image(
                headers@,
                match body {
                    Some(b) => Some(b@),
                    None => None,
                },
            ),
    {
        stream.extend_from_slice(headers);
        if let Some(b) = body {
            stream.extend_from_slice(b.as_slice());
        }
        assert(stream@ =~= old(stream)@ + wire_image(
            headers@,
            match body {
                Some(b) => Some(b@),
                None => None,
            },
        ));
    }

    /// The bytes of the request, as they go out.
    pub fn request_bytes(&self) -> (bytes: Vec<u8>)
        ensures
            bytes@ == self@.request_image(),
    {
        let head = self.build_header();
        let mut bytes: Vec<u8> = Vec::new();
        Self::write_all(&mut bytes, self.payload(), head.as_str().as_bytes());
        assert(bytes@ =~= self@.request_image());
        bytes
    }

    /// The bytes that ask a proxy for a tunnel to the target.
    pub fn connect_bytes(&self) -> (bytes: Vec<u8>)
        ensures
            bytes@ == self@.connect_image(),
    {
        let text = connect_request(self.target.host.as_str(), self.target.port);
        let mut bytes: Vec<u8> = Vec::new();
        Self::write_all(&mut bytes, None, text.as_str().as_bytes());
        assert(bytes@ =~= self@.connect_image());
        bytes
    }
}

} // verus!
