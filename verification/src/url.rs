//! The parts of a URL that a request needs, and the two ways of writing a
//! URL as a request target.
//!
//! Splitting a URL into its parts is left to the `miniurl` crate. What is
//! done with the parts is defined and proved here.

use vstd::prelude::*;
use vstd::string::*;

verus! {

/// A URL split into parts.
///
/// `path` is never meant to be empty: a URL without a path has the path `/`.
/// `query` and `fragment` are held without their leading `?` and `#`.
/// `netloc` is the authority as written, user information included, while
/// `host` is the host alone, in lower case, and absent when the URL names
/// none.
#[derive(Debug, PartialEq, Eq)]
pub struct ParsedUrl {
    pub scheme: String,
    pub netloc: String,
    pub path: String,
    pub query: Option<String>,
    pub fragment: Option<String>,
    pub host: Option<String>,
    pub port: u16,
}

/// A [`ParsedUrl`] with its texts as sequences of characters.
pub struct UrlView {
    pub scheme: Seq<char>,
    pub netloc: Seq<char>,
    pub path: Seq<char>,
    pub query: Option<Seq<char>>,
    pub fragment: Option<Seq<char>>,
    pub host: Option<Seq<char>>,
    pub port: u16,
}

/// The characters of an optional text.
pub open spec fn text_of(part: Option<String>) -> Option<Seq<char>> {
    match part {
        Some(t) => Some(t@),
        None => None,
    }
}

/// An optional part behind its mark, or nothing where the part is absent.
pub open spec fn marked(mark: Seq<char>, part: Option<Seq<char>>) -> Seq<char> {
    match part {
        Some(t) => mark + t,
        None => Seq::empty(),
    }
}

impl UrlView {
    /// The origin form of the URL: its path, then `?` and the query if there
    /// is one, then `#` and the fragment if there is one.
    pub open spec fn origin_form(self) -> Seq<char> {
        self.path + marked("?"@, self.query) + marked("#"@, self.fragment)
    }

    /// The absolute form of the URL: scheme, `://`, authority, and the
    /// origin form.
    pub open spec fn absolute_form(self) -> Seq<char> {
        self.scheme + "://"@ + self.netloc + self.origin_form()
    }
}

impl View for ParsedUrl {
    type V = UrlView;

    open spec fn view(&self) -> UrlView {
        UrlView {
            scheme: self.scheme@,
            netloc: self.netloc@,
            path: self.path@,
            query: text_of(self.query),
            fragment: text_of(self.fragment),
            host: text_of(self.host),
            port: self.port,
        }
    }
}

/// A copy of an optional text.
pub fn clone_text(part: &Option<String>) -> (copy: Option<String>)
    ensures
        text_of(copy) == text_of(*part),
{
    match part {
        Some(t) => Some(t.clone()),
        None => None,
    }
}

impl Clone for ParsedUrl {
    fn clone(&self) -> (copy: Self)
        ensures
            copy@ == self@,
    {
        ParsedUrl {
            scheme: self.scheme.clone(),
            netloc: self.netloc.clone(),
            path: self.path.clone(),
            query: clone_text(&self.query),
            fragment: clone_text(&self.fragment),
            host: clone_text(&self.host),
            port: self.port,
        }
    }
}

/// The parts into which `miniurl` splits the text of a URL.
pub uninterp spec fn url_parse(text: Seq<char>) -> UrlView;

/// `miniurl::Url::parse`: splits `text` into the parts of a URL. The split is
/// a function of the text alone, and it is taken on trust: the result is
/// known here only as `url_parse` of the text. The user name and password,
/// which no request reads, are left behind.
#[verifier::external_body]
pub(crate) fn parse_url(text: &str) -> (parts: ParsedUrl)
    ensures
        parts@ == url_parse(text@),
{
    let url = miniurl::Url::parse(text);
    ParsedUrl {
        scheme: url.scheme,
        netloc: url.netloc,
        path: url.path,
        query: url.query,
        fragment: url.fragment,
        host: url.host,
        port: url.port,
    }
}

/// Appends `mark` and `part` to `out` where `part` is present.
fn push_marked(out: &mut String, mark: &str, part: &Option<String>)
    ensures
        final(out)@ == old(out)@ + marked(mark@, text_of(*part)),
{
    match part {
        Some(t) => {
            out.append(mark);
            out.append(t.as_str());
            assert(out@ =~= old(out)@ + (mark@ + t@));
        },
        None => {
            assert(out@ =~= old(out)@ + Seq::<char>::empty());
        },
    }
}

impl ParsedUrl {
    /// The URL as a request target in origin form, as sent to the server
    /// that owns the resource.
    pub fn request_string(&self) -> (s: String)
        ensures
            s@ == self@.origin_form(),
    {
        let mut s = self.path.clone();
        push_marked(&mut s, "?", &self.query);
        push_marked(&mut s, "#", &self.fragment);
        s
    }

    /// The URL as a request target in absolute form, as sent to a proxy
    /// that forwards the request.
    pub fn as_string(&self) -> (s: String)
        ensures
            s@ == self@.absolute_form(),
    {
        let mut s = self.scheme.clone();
        s.append("://");
        s.append(self.netloc.as_str());
        s.append(self.path.as_str());
        push_marked(&mut s, "?", &self.query);
        push_marked(&mut s, "#", &self.fragment);
        assert(s@ =~= self@.absolute_form());
        s
    }
}

} // verus!
