//! The text of an HTTP/1.1 request head, line by line.
//!
//! Every function here is about characters only: which request is being
//! described, and where it is sent, is decided elsewhere.

use crate::text::{decimal, decimal_value, lemma_decimal, push_decimal};
use vstd::prelude::*;
use vstd::string::*;

verus! {

/// A header: its name and its value.
pub type Header = (Seq<char>, Seq<char>);

/// The headers of a list, each as a pair of character sequences.
pub open spec fn headers_of(list: Seq<(String, String)>) -> Seq<Header> {
    list.map_values(|h: (String, String)| (h.0@, h.1@))
}

/// A copy of a list of headers.
pub fn clone_headers(list: &Vec<(String, String)>) -> (copy: Vec<(String, String)>)
    ensures
        headers_of(copy@) == headers_of(list@),
{
    let count = list.len();
    let mut copy: Vec<(String, String)> = Vec::new();
    let mut at: usize = 0;
    while at < count
        invariant
            count == list.len(),
            at <= count,
            copy.len() == at,
            forall|k: int| 0 <= k < at ==> copy@[k].0@ == list@[k].0@ && copy@[k].1@ == list@[k].1@,
        decreases count - at,
    {
        copy.push((list[at].0.clone(), list[at].1.clone()));
        at += 1;
    }
    assert(headers_of(copy@) =~= headers_of(list@));
    copy
}

/// The first line of a request: method, request target and protocol version.
pub open spec fn request_line(method: Seq<char>, target: Seq<char>) -> Seq<char> {
    method + " "@ + target + " HTTP/1.1\r\n"@
}

/// A host and a port, joined by a colon.
pub open spec fn authority(host: Seq<char>, port: u16) -> Seq<char> {
    host + ":"@ + decimal(port as nat)
}

/// The `Host` line.
pub open spec fn host_line(host: Seq<char>, port: u16) -> Seq<char> {
    "Host: "@ + authority(host, port) + "\r\n"@
}

/// The `Connection` line. The connection is never kept open.
pub open spec fn connection_line() -> Seq<char> {
    "Connection: Close\r\n"@
}

/// The `Content-Length` line of a request with a body of `length` bytes;
/// nothing for a request without a body.
pub open spec fn content_length_line(length: Option<nat>) -> Seq<char> {
    match length {
        Some(n) => "Content-Length: "@ + decimal(n) + "\r\n"@,
        None => Seq::empty(),
    }
}

/// The line of one header.
pub open spec fn header_line(header: Header) -> Seq<char> {
    header.0 + ": "@ + header.1 + "\r\n"@
}

/// The lines of a list of headers: one line each, in the order of the list.
pub open spec fn header_lines(headers: Seq<Header>) -> Seq<char>
    decreases headers.len(),
{
    if headers.len() == 0 {
        Seq::empty()
    } else {
        header_lines(headers.drop_last()) + header_line(headers.last())
    }
}

/// Everything in the head of a request after the request line: `Host`,
/// `Connection`, `Content-Length` where there is a body, the caller's
/// headers, and the empty line that ends the head.
pub open spec fn header_fields(
    host: Seq<char>,
    port: u16,
    length: Option<nat>,
    headers: Seq<Header>,
) -> Seq<char> {
    host_line(host, port) + connection_line() + content_length_line(length) + header_lines(headers)
        + "\r\n"@
}

/// The head of a request: the request line, then the header fields.
pub open spec fn header_block(
    method: Seq<char>,
    target: Seq<char>,
    host: Seq<char>,
    port: u16,
    length: Option<nat>,
    headers: Seq<Header>,
) -> Seq<char> {
    request_line(method, target) + header_fields(host, port, length, headers)
}

/// The request that asks a proxy for a tunnel to `host` and `port`.
pub open spec fn connect_block(host: Seq<char>, port: u16) -> Seq<char> {
    request_line("CONNECT"@, authority(host, port)) + host_line(host, port) + "\r\n"@
}

/// A list with one more header has the same lines, then the line of that
/// header.
pub proof fn lemma_header_lines_push(headers: Seq<Header>, header: Header)
    ensures
        header_lines(headers.push(header)) == header_lines(headers) + header_line(header),
{
    assert(headers.push(header).drop_last() =~= headers);
}

/// The lines of two lists put together are the lines of the first, then
/// the lines of the second.
pub proof fn lemma_header_lines_concat(first: Seq<Header>, second: Seq<Header>)
    ensures
        header_lines(first + second) == header_lines(first) + header_lines(second),
    decreases second.len(),
{
    if second.len() == 0 {
        assert(first + second =~= first);
        assert(header_lines(first) + header_lines(second) =~= header_lines(first));
    } else {
        lemma_header_lines_concat(first, second.drop_last());
        assert((first + second).drop_last() =~= first + second.drop_last());
        assert((first + second).last() == second.last());
        assert(header_lines(first + second) =~= header_lines(first) + header_lines(second));
    }
}

/// Order is kept: the line of the header at `at` stands after the lines of
/// all headers before it and before the lines of all headers after it,
/// whatever their names and values, repeated names included.
pub proof fn lemma_header_order(headers: Seq<Header>, at: int)
    requires
        0 <= at < headers.len(),
    ensures
        header_lines(headers) == header_lines(headers.take(at)) + header_line(headers[at])
            + header_lines(headers.skip(at + 1)),
{
    let before = headers.take(at);
    let after = headers.skip(at + 1);
    assert(headers =~= before.push(headers[at]) + after);
    lemma_header_lines_concat(before.push(headers[at]), after);
    lemma_header_lines_push(before, headers[at]);
}

/// A `Content-Length` line is written exactly when there is a body, and the
/// numeral in it denotes the length of the body.
pub proof fn lemma_content_length(length: Option<nat>)
    ensures
        content_length_line(length).len() > 0 <==> length is Some,
        length matches Some(n) ==> content_length_line(length) == "Content-Length: "@ + decimal(n)
            + "\r\n"@ && decimal_value(decimal(n)) == n,
{
    if let Some(n) = length {
        lemma_decimal(n);
    }
}

/// Appends `host`, a colon and `port`.
pub fn push_authority(out: &mut String, host: &str, port: u16)
    ensures
        final(out)@ == old(out)@ + authority(host@, port),
{
    out.append(host);
    out.append(":");
    push_decimal(out, port as u64);
    assert(out@ =~= old(out)@ + authority(host@, port));
}

/// Appends the `Host` line.
pub fn push_host_line(out: &mut String, host: &str, port: u16)
    ensures
        final(out)@ == old(out)@ + host_line(host@, port),
{
    out.append("Host: ");
    push_authority(out, host, port);
    out.append("\r\n");
    assert(out@ =~= old(out)@ + host_line(host@, port));
}

/// Appends the request line.
pub fn push_request_line(out: &mut String, method: &str, target: &str)
    ensures
        final(out)@ == old(out)@ + request_line(method@, target@),
{
    out.append(method);
    out.append(" ");
    out.append(target);
    out.append(" HTTP/1.1\r\n");
    assert(out@ =~= old(out)@ + request_line(method@, target@));
}

/// Appends the `Content-Length` line for a body of `length` bytes, or
/// nothing where there is no body.
pub fn push_content_length(out: &mut String, length: Option<usize>)
    ensures
        final(out)@ == old(out)@ + content_length_line(
            match length {
                Some(n) => Some(n as nat),
                None => None,
            },
        ),
{
    match length {
        Some(n) => {
            out.append("Content-Length: ");
            push_decimal(out, n as u64);
            out.append("\r\n");
            assert(out@ =~= old(out)@ + ("Content-Length: "@ + decimal(n as nat) + "\r\n"@));
        },
        None => {
            assert(out@ =~= old(out)@ + Seq::<char>::empty());
        },
    }
}

/// Appends one line for each header of `headers`, in their order.
pub fn push_header_lines(out: &mut String, headers: &Vec<(String, String)>)
    ensures
        final(out)@ == old(out)@ + header_lines(headers_of(headers@)),
{
    let ghost all = headers_of(headers@);
    let count = headers.len();
    let mut at: usize = 0;
    assert(out@ =~= old(out)@ + header_lines(all.take(0)));
    while at < count
        invariant
            count == headers.len(),
            all == headers_of(headers@),
            at <= count,
            out@ == old(out)@ + header_lines(all.take(at as int)),
        decreases count - at,
    {
        let ghost before = out@;
        out.append(headers[at].0.as_str());
        out.append(": ");
        out.append(headers[at].1.as_str());
        out.append("\r\n");
        proof {
            assert(all.take(at + 1) =~= all.take(at as int).push(all[at as int]));
            lemma_header_lines_push(all.take(at as int), all[at as int]);
            assert(out@ =~= before + header_line(all[at as int]));
            assert(out@ =~= old(out)@ + header_lines(all.take(at + 1)));
        }
        at += 1;
    }
    assert(all.take(count as int) =~= all);
}

/// The request that asks a proxy for a tunnel to `host` and `port`.
pub fn connect_request(host: &str, port: u16) -> (text: String)
    ensures
        text@ == connect_block(host@, port),
{
    let mut text = String::new();
    let target = {
        let mut t = String::new();
        push_authority(&mut t, host, port);
        t
    };
    assert(target@ =~= authority(host@, port));
    push_request_line(&mut text, "CONNECT", target.as_str());
    push_host_line(&mut text, host, port);
    text.append("\r\n");
    assert(text@ =~= connect_block(host@, port));
    text
}

} // verus!
