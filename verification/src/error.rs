//! The error type shared by the descriptor and the transport.

use vstd::prelude::*;
use vstd::string::*;

verus! {

/// Why a builder call or a send did not succeed.
///
/// Configuration errors carry a fixed message. Errors raised by the
/// connection carry the text that the driver reported for them.
#[derive(Debug, PartialEq, Eq)]
pub enum HttpError {
    /// A URL has no host.
    Parse(&'static str),
    /// A setting does not apply to this request.
    Config(&'static str),
    /// The proxy cannot serve this request, or refused the tunnel.
    Proxy(&'static str),
    /// Connecting, reading or writing failed.
    IO(String),
    /// The TLS layer could not be set up.
    SSL(String),
    /// The TLS handshake failed.
    SSLHandshake(String),
}

/// An [`HttpError`] with its message as a sequence of characters.
pub enum HttpErrorView {
    Parse(Seq<char>),
    Config(Seq<char>),
    Proxy(Seq<char>),
    IO(Seq<char>),
    SSL(Seq<char>),
    SSLHandshake(Seq<char>),
}

impl HttpErrorView {
    /// The line shown to a person: the kind of error, then its message.
    pub open spec fn text(self) -> Seq<char> {
        match self {
            HttpErrorView::Parse(m) => "Parse error: "@ + m,
            HttpErrorView::Config(m) => "Config error: "@ + m,
            HttpErrorView::Proxy(m) => "Proxy error : "@ + m,
            HttpErrorView::IO(m) => "IO error: "@ + m,
            HttpErrorView::SSL(m) => "SSL error: "@ + m,
            HttpErrorView::SSLHandshake(m) => "SSL handshake error: "@ + m,
        }
    }
}

impl View for HttpError {
    type V = HttpErrorView;

    open spec fn view(&self) -> HttpErrorView {
        match self {
            HttpError::Parse(m) => HttpErrorView::Parse(m@),
            HttpError::Config(m) => HttpErrorView::Config(m@),
            HttpError::Proxy(m) => HttpErrorView::Proxy(m@),
            HttpError::IO(m) => HttpErrorView::IO(m@),
            HttpError::SSL(m) => HttpErrorView::SSL(m@),
            HttpError::SSLHandshake(m) => HttpErrorView::SSLHandshake(m@),
        }
    }
}

impl Clone for HttpError {
    fn clone(&self) -> (copy: Self)
        ensures
            copy@ == self@,
    {
        match self {
            HttpError::Parse(m) => HttpError::Parse(*m),
            HttpError::Config(m) => HttpError::Config(*m),
            HttpError::Proxy(m) => HttpError::Proxy(*m),
            HttpError::IO(m) => HttpError::IO(m.clone()),
            HttpError::SSL(m) => HttpError::SSL(m.clone()),
            HttpError::SSLHandshake(m) => HttpError::SSLHandshake(m.clone()),
        }
    }
}

impl HttpError {
    /// Renders the error as one line of text.
    pub fn to_text(&self) -> (s: String)
        ensures
            s@ == self@.text(),
    {
        let mut s = String::new();
        match self {
            HttpError::Parse(m) => {
                s.append("Parse error: ");
                s.append(m);
            },
            HttpError::Config(m) => {
                s.append("Config error: ");
                s.append(m);
            },
            HttpError::Proxy(m) => {
                s.append("Proxy error : ");
                s.append(m);
            },
            HttpError::IO(m) => {
                s.append("IO error: ");
                s.append(m.as_str());
            },
            HttpError::SSL(m) => {
                s.append("SSL error: ");
                s.append(m.as_str());
            },
            HttpError::SSLHandshake(m) => {
                s.append("SSL handshake error: ");
                s.append(m.as_str());
            },
        }
        s
    }
}

} // verus!
