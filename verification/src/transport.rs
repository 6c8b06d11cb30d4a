//! The transport: what to do next on the connection, given what has just
//! happened on it.
//!
//! A send is a short conversation between this module and a driver that
//! owns the socket. The driver reports an [`Event`]; [`step`] answers with
//! the next [`Phase`] and an [`Action`] for the driver to perform. The first
//! event is [`Event::Begin`], and the conversation is over when the action
//! is [`Action::Done`] or [`Action::Fail`]. Nothing is kept from one send to
//! the next.

use crate::error::{HttpError, HttpErrorView};
use crate::request::{Client, ClientView};
use crate::route::{is_http, scheme_is_http, secured, WirePath};
use crate::tunnel::{
    check_tunnel_reply, contains_ignoring_case, established_phrase, tunnel_verdict, REPLY_LIMIT,
};
use vstd::prelude::*;
use vstd::string::*;

verus! {

/// How far a send has come.
#[derive(Debug, Clone, Copy, PartialEq, Eq)]
pub enum Phase {
    /// Nothing has been done yet.
    Idle,
    /// The connection is being opened.
    Connecting,
    /// The request for a tunnel is being written to the proxy.
    TunnelOpening,
    /// The proxy's answer to the request for a tunnel is awaited.
    TunnelAwaiting,
    /// The TLS handshake is under way.
    Securing,
    /// The request is being written.
    Sending,
    /// The response is being read.
    Receiving,
    /// The response has been handed over.
    Finished,
    /// The send has failed.
    Failed,
}

impl Phase {
    /// Whether the send is over.
    pub open spec fn is_terminal(self) -> bool {
        self is Finished || self is Failed
    }
}

/// What the driver reports.
#[derive(Debug, PartialEq, Eq)]
pub enum Event {
    /// A send was asked for.
    Begin,
    /// The connection is open, and its timeouts are set.
    Connected,
    /// The bytes have been written and flushed.
    Written,
    /// The bytes that one read of the proxy's answer gave.
    Reply(Vec<u8>),
    /// The TLS handshake has succeeded.
    Secured,
    /// The peer has closed the connection; these are all the bytes it sent.
    Closed(Vec<u8>),
    /// Connecting, reading or writing failed, or took too long.
    IoFailed(String),
    /// The TLS layer could not be set up.
    TlsFailed(String),
    /// The TLS handshake failed.
    HandshakeFailed(String),
}

/// An [`Event`] with its bytes and texts as sequences.
pub enum EventView {
    Begin,
    Connected,
    Written,
    Reply(Seq<u8>),
    Secured,
    Closed(Seq<u8>),
    IoFailed(Seq<char>),
    TlsFailed(Seq<char>),
    HandshakeFailed(Seq<char>),
}

impl View for Event {
    type V = EventView;

    open spec fn view(&self) -> EventView {
        match self {
            Event::Begin => EventView::Begin,
            Event::Connected => EventView::Connected,
            Event::Written => EventView::Written,
            Event::Reply(bytes) => EventView::Reply(bytes@),
            Event::Secured => EventView::Secured,
            Event::Closed(bytes) => EventView::Closed(bytes@),
            Event::IoFailed(why) => EventView::IoFailed(why@),
            Event::TlsFailed(why) => EventView::TlsFailed(why@),
            Event::HandshakeFailed(why) => EventView::HandshakeFailed(why@),
        }
    }
}

/// What the driver is to do.
#[derive(Debug, PartialEq, Eq)]
pub enum Action {
    /// Open a TCP connection to `host` and `port`, and let no read or write
    /// on it take longer than `timeout` seconds.
    Connect { host: String, port: u16, timeout: u64 },
    /// Write all of these bytes, and flush.
    Write(Vec<u8>),
    /// Read once, at most this many bytes.
    ReadReply(usize),
    /// Start TLS on the connection, for the server `server_name`, checking
    /// its certificate if `verify` is set.
    StartTls { server_name: String, verify: bool },
    /// Read until the peer closes the connection.
    ReadToEnd,
    /// Hand these bytes, the raw response, to the caller.
    Done(Vec<u8>),
    /// Give up, with this error.
    Fail(HttpError),
    /// Nothing: the send was over before.
    Halt,
}

/// An [`Action`] with its bytes and texts as sequences.
pub enum ActionView {
    Connect { host: Seq<char>, port: u16, timeout: u64 },
    Write(Seq<u8>),
    ReadReply(usize),
    StartTls { server_name: Seq<char>, verify: bool },
    ReadToEnd,
    Done(Seq<u8>),
    Fail(HttpErrorView),
    Halt,
}

impl View for Action {
    type V = ActionView;

    open spec fn view(&self) -> ActionView {
        match self {
            Action::Connect { host, port, timeout } => ActionView::Connect {
                host: host@,
                port: *port,
                timeout: *timeout,
            },
            Action::Write(bytes) => ActionView::Write(bytes@),
            Action::ReadReply(limit) => ActionView::ReadReply(*limit),
            Action::StartTls { server_name, verify } => ActionView::StartTls {
                server_name: server_name@,
                verify: *verify,
            },
            Action::ReadToEnd => ActionView::ReadToEnd,
            Action::Done(bytes) => ActionView::Done(bytes@),
            Action::Fail(e) => ActionView::Fail(e@),
            Action::Halt => ActionView::Halt,
        }
    }
}

/// The error for an event that cannot follow the phase it is reported in.
pub open spec fn out_of_order() -> HttpErrorView {
    HttpErrorView::IO("unexpected transport event"@)
}

/// Giving up with the error `e`.
pub open spec fn fail(e: HttpErrorView) -> (Phase, ActionView) {
    (Phase::Failed, ActionView::Fail(e))
}

/// Opening the connection: to the proxy where there is one, else to the
/// target, and always with the timeout of the request.
pub open spec fn open_connection(c: ClientView) -> (Phase, ActionView) {
    (Phase::Connecting, ActionView::Connect { host: c.peer().0, port: c.peer().1, timeout: c.timeout })
}

/// Writing the request.
pub open spec fn send_request(c: ClientView) -> (Phase, ActionView) {
    (Phase::Sending, ActionView::Write(c.request_image()))
}

/// Starting TLS, with the host of the target as the server name.
pub open spec fn start_tls(c: ClientView) -> (Phase, ActionView) {
    (Phase::Securing, ActionView::StartTls { server_name: c.target.host, verify: c.verify })
}

/// What follows once a connection or a tunnel to the target stands: TLS
/// first where the path asks for it, else the request at once.
pub open spec fn proceed(c: ClientView) -> (Phase, ActionView) {
    if secured(c.wire_path(), c.target.scheme) {
        start_tls(c)
    } else {
        send_request(c)
    }
}

/// The transport as a table: the phase and the action that follow when
/// `event` is reported in `phase` during a send of `c`.
///
/// A finished or failed send stays as it is. A failure reported by the
/// driver ends the send with the matching error. Every other event moves
/// the send one step along its path, or, where it cannot follow the phase,
/// fails it.
pub open spec fn transition(c: ClientView, phase: Phase, event: EventView) -> (Phase, ActionView) {
    if phase.is_terminal() {
        (phase, ActionView::Halt)
    } else {
        match event {
            EventView::IoFailed(why) => fail(HttpErrorView::IO(why)),
            EventView::TlsFailed(why) => fail(HttpErrorView::SSL(why)),
            EventView::HandshakeFailed(why) => fail(HttpErrorView::SSLHandshake(why)),
            EventView::Begin => if phase is Idle {
                open_connection(c)
            } else {
                fail(out_of_order())
            },
            EventView::Connected => if phase is Connecting {
                if c.wire_path() is ProxyTunnel {
                    (Phase::TunnelOpening, ActionView::Write(c.connect_image()))
                } else {
                    proceed(c)
                }
            } else {
                fail(out_of_order())
            },
            EventView::Written => if phase is TunnelOpening {
                (Phase::TunnelAwaiting, ActionView::ReadReply(REPLY_LIMIT))
            } else if phase is Sending {
                (Phase::Receiving, ActionView::ReadToEnd)
            } else {
                fail(out_of_order())
            },
            EventView::Reply(bytes) => if phase is TunnelAwaiting {
                match tunnel_verdict(bytes) {
                    Ok(_) => proceed(c),
                    Err(e) => fail(e),
                }
            } else {
                fail(out_of_order())
            },
            EventView::Secured => if phase is Securing {
                send_request(c)
            } else {
                fail(out_of_order())
            },
            EventView::Closed(bytes) => if phase is Receiving {
                (Phase::Finished, ActionView::Done(bytes))
            } else {
                fail(out_of_order())
            },
        }
    }
}

/// The actions that a send of `c` answers with, one for each of `events`,
/// when it stands in `phase` before the first of them.
pub open spec fn run(c: ClientView, phase: Phase, events: Seq<EventView>) -> Seq<ActionView>
    decreases events.len(),
{
    if events.len() == 0 {
        Seq::empty()
    } else {
        let (next, action) = transition(c, phase, events.first());
        seq![action] + run(c, next, events.drop_first())
    }
}

/// The first event is answered by its transition; the rest by a run from
/// the phase that the transition leads to.
pub proof fn lemma_run_unfolds(c: ClientView, phase: Phase, first: EventView, rest: Seq<EventView>)
    ensures
        run(c, phase, seq![first] + rest) == seq![transition(c, phase, first).1] + run(
            c,
            transition(c, phase, first).0,
            rest,
        ),
{
    let events = seq![first] + rest;
    assert(events.first() == first);
    assert(events.drop_first() =~= rest);
}

/// A send that is over does nothing more, whatever is reported to it.
pub proof fn lemma_over_is_over(c: ClientView, phase: Phase, events: Seq<EventView>)
    requires
        phase.is_terminal(),
    ensures
        run(c, phase, events).len() == events.len(),
        forall|i: int| 0 <= i < events.len() ==> #[trigger] run(c, phase, events)[i] is Halt,
    decreases events.len(),
{
    if events.len() > 0 {
        lemma_over_is_over(c, phase, events.drop_first());
    }
}

/// A proxy's reply without the words `connection established`, in
/// whatever case, ends the send with a proxy error, and nothing is written
/// after it: every later event is answered by [`ActionView::Halt`].
pub proof fn lemma_refused_tunnel_sends_nothing(
    c: ClientView,
    reply: Seq<u8>,
    later: Seq<EventView>,
)
    requires
        !contains_ignoring_case(reply, established_phrase()),
    ensures
        transition(c, Phase::TunnelAwaiting, EventView::Reply(reply)).0 is Failed,
        transition(c, Phase::TunnelAwaiting, EventView::Reply(reply)).1 matches ActionView::Fail(
            HttpErrorView::Proxy(_),
        ),
        run(c, Phase::TunnelAwaiting, seq![EventView::Reply(reply)] + later).len() == 1
            + later.len(),
        forall|i: int|
            1 <= i <= later.len() ==> #[trigger] run(
                c,
                Phase::TunnelAwaiting,
                seq![EventView::Reply(reply)] + later,
            )[i] is Halt,
{
    lemma_run_unfolds(c, Phase::TunnelAwaiting, EventView::Reply(reply), later);
    lemma_over_is_over(c, Phase::Failed, later);
}

/// Every connection is opened with the timeout of the request, to the
/// proxy where there is one and to the target otherwise.
pub proof fn lemma_connect_uses_timeout(c: ClientView, phase: Phase, event: EventView)
    ensures
        transition(c, phase, event).1 matches ActionView::Connect { host, port, timeout } ==> {
            &&& timeout == c.timeout
            &&& (host, port) == c.peer()
            &&& phase is Idle
        },
{
}

/// TLS is started only where the path asks for it, for the host of the
/// target, and with the certificate check of the request.
pub proof fn lemma_tls_follows_path(c: ClientView, phase: Phase, event: EventView)
    ensures
        transition(c, phase, event).1 matches ActionView::StartTls { server_name, verify } ==> {
            &&& secured(c.wire_path(), c.target.scheme)
            &&& server_name == c.target.host
            &&& verify == c.verify
        },
{
}

/// Only two things are ever written: the request for a tunnel, once the
/// connection to a tunnelling proxy is open, and the request itself.
pub proof fn lemma_what_is_written(c: ClientView, phase: Phase, event: EventView)
    ensures
        transition(c, phase, event).1 matches ActionView::Write(bytes) ==> {
            ||| bytes == c.request_image() && transition(c, phase, event).0 is Sending
            ||| bytes == c.connect_image() && c.wire_path() is ProxyTunnel && phase is Connecting
        },
{
}

/// Straight to an `http` target: connect to the target, write the
/// request, read to the end.
pub proof fn lemma_direct_plain_script(c: ClientView, response: Seq<u8>)
    requires
        c.wire_path() is DirectPlain,
    ensures
        run(
            c,
            Phase::Idle,
            seq![
                EventView::Begin,
                EventView::Connected,
                EventView::Written,
                EventView::Closed(response),
            ],
        ) == seq![
            ActionView::Connect { host: c.target.host, port: c.target.port, timeout: c.timeout },
            ActionView::Write(c.request_image()),
            ActionView::ReadToEnd,
            ActionView::Done(response),
        ],
{
    let e3 = seq![EventView::Closed(response)];
    let e2 = seq![EventView::Written] + e3;
    let e1 = seq![EventView::Connected] + e2;
    let e0 = seq![EventView::Begin] + e1;
    lemma_run_unfolds(c, Phase::Idle, EventView::Begin, e1);
    lemma_run_unfolds(c, Phase::Connecting, EventView::Connected, e2);
    lemma_run_unfolds(c, Phase::Sending, EventView::Written, e3);
    lemma_run_unfolds(c, Phase::Receiving, EventView::Closed(response), Seq::empty());
    assert(e3 =~= seq![EventView::Closed(response)] + Seq::empty());
    assert(e0 =~= seq![
        EventView::Begin,
        EventView::Connected,
        EventView::Written,
        EventView::Closed(response),
    ]);
    assert(run(c, Phase::Idle, e0) =~= seq![
        ActionView::Connect { host: c.target.host, port: c.target.port, timeout: c.timeout },
        ActionView::Write(c.request_image()),
        ActionView::ReadToEnd,
        ActionView::Done(response),
    ]);
}

/// Straight to any other target: connect to the target, start TLS, write
/// the request, read to the end.
pub proof fn lemma_direct_tls_script(c: ClientView, response: Seq<u8>)
    requires
        c.wire_path() is DirectTls,
    ensures
        run(
            c,
            Phase::Idle,
            seq![
                EventView::Begin,
                EventView::Connected,
                EventView::Secured,
                EventView::Written,
                EventView::Closed(response),
            ],
        ) == seq![
            ActionView::Connect { host: c.target.host, port: c.target.port, timeout: c.timeout },
            ActionView::StartTls { server_name: c.target.host, verify: c.verify },
            ActionView::Write(c.request_image()),
            ActionView::ReadToEnd,
            ActionView::Done(response),
        ],
{
    let e4 = seq![EventView::Closed(response)];
    let e3 = seq![EventView::Written] + e4;
    let e2 = seq![EventView::Secured] + e3;
    let e1 = seq![EventView::Connected] + e2;
    let e0 = seq![EventView::Begin] + e1;
    lemma_run_unfolds(c, Phase::Idle, EventView::Begin, e1);
    lemma_run_unfolds(c, Phase::Connecting, EventView::Connected, e2);
    lemma_run_unfolds(c, Phase::Securing, EventView::Secured, e3);
    lemma_run_unfolds(c, Phase::Sending, EventView::Written, e4);
    lemma_run_unfolds(c, Phase::Receiving, EventView::Closed(response), Seq::empty());
    assert(e4 =~= seq![EventView::Closed(response)] + Seq::empty());
    assert(e0 =~= seq![
        EventView::Begin,
        EventView::Connected,
        EventView::Secured,
        EventView::Written,
        EventView::Closed(response),
    ]);
    assert(run(c, Phase::Idle, e0) =~= seq![
        ActionView::Connect { host: c.target.host, port: c.target.port, timeout: c.timeout },
        ActionView::StartTls { server_name: c.target.host, verify: c.verify },
        ActionView::Write(c.request_image()),
        ActionView::ReadToEnd,
        ActionView::Done(response),
    ]);
}

/// Through a proxy that relays: connect to the proxy, write the request,
/// read to the end. TLS is never started.
pub proof fn lemma_proxy_forward_script(c: ClientView, response: Seq<u8>)
    requires
        c.wire_path() is ProxyForward,
    ensures
        c.proxy is Some,
        run(
            c,
            Phase::Idle,
            seq![
                EventView::Begin,
                EventView::Connected,
                EventView::Written,
                EventView::Closed(response),
            ],
        ) == seq![
            ActionView::Connect {
                host: c.proxy->0.host,
                port: c.proxy->0.port,
                timeout: c.timeout,
            },
            ActionView::Write(c.request_image()),
            ActionView::ReadToEnd,
            ActionView::Done(response),
        ],
{
    let e3 = seq![EventView::Closed(response)];
    let e2 = seq![EventView::Written] + e3;
    let e1 = seq![EventView::Connected] + e2;
    let e0 = seq![EventView::Begin] + e1;
    lemma_run_unfolds(c, Phase::Idle, EventView::Begin, e1);
    lemma_run_unfolds(c, Phase::Connecting, EventView::Connected, e2);
    lemma_run_unfolds(c, Phase::Sending, EventView::Written, e3);
    lemma_run_unfolds(c, Phase::Receiving, EventView::Closed(response), Seq::empty());
    assert(e3 =~= seq![EventView::Closed(response)] + Seq::empty());
    assert(e0 =~= seq![
        EventView::Begin,
        EventView::Connected,
        EventView::Written,
        EventView::Closed(response),
    ]);
    assert(run(c, Phase::Idle, e0) =~= seq![
        ActionView::Connect { host: c.proxy->0.host, port: c.proxy->0.port, timeout: c.timeout },
        ActionView::Write(c.request_image()),
        ActionView::ReadToEnd,
        ActionView::Done(response),
    ]);
}

/// Through a proxy that tunnels: connect to the proxy, ask for the tunnel
/// and read the answer before anything else; then, where the answer grants
/// the tunnel, start TLS unless the target is `http`, write the request and
/// read to the end.
pub proof fn lemma_proxy_tunnel_script(c: ClientView, reply: Seq<u8>, response: Seq<u8>)
    requires
        c.wire_path() is ProxyTunnel,
        tunnel_verdict(reply) is Ok,
    ensures
        c.proxy is Some,
        run(
            c,
            Phase::Idle,
            seq![
                EventView::Begin,
                EventView::Connected,
                EventView::Written,
                EventView::Reply(reply),
            ],
        ) == seq![
            ActionView::Connect {
                host: c.proxy->0.host,
                port: c.proxy->0.port,
                timeout: c.timeout,
            },
            ActionView::Write(c.connect_image()),
            ActionView::ReadReply(REPLY_LIMIT),
            proceed(c).1,
        ],
        is_http(c.target.scheme) ==> proceed(c) == send_request(c) && run(
            c,
            Phase::Sending,
            seq![EventView::Written, EventView::Closed(response)],
        ) == seq![ActionView::ReadToEnd, ActionView::Done(response)],
        !is_http(c.target.scheme) ==> proceed(c) == start_tls(c) && run(
            c,
            Phase::Securing,
            seq![EventView::Secured, EventView::Written, EventView::Closed(response)],
        ) == seq![
            ActionView::Write(c.request_image()),
            ActionView::ReadToEnd,
            ActionView::Done(response),
        ],
{
    let e3 = seq![EventView::Reply(reply)];
    let e2 = seq![EventView::Written] + e3;
    let e1 = seq![EventView::Connected] + e2;
    let e0 = seq![EventView::Begin] + e1;
    lemma_run_unfolds(c, Phase::Idle, EventView::Begin, e1);
    lemma_run_unfolds(c, Phase::Connecting, EventView::Connected, e2);
    lemma_run_unfolds(c, Phase::TunnelOpening, EventView::Written, e3);
    lemma_run_unfolds(c, Phase::TunnelAwaiting, EventView::Reply(reply), Seq::empty());
    assert(e3 =~= seq![EventView::Reply(reply)] + Seq::empty());
    assert(e0 =~= seq![
        EventView::Begin,
        EventView::Connected,
        EventView::Written,
        EventView::Reply(reply),
    ]);
    assert(run(c, Phase::Idle, e0) =~= seq![
        ActionView::Connect { host: c.proxy->0.host, port: c.proxy->0.port, timeout: c.timeout },
        ActionView::Write(c.connect_image()),
        ActionView::ReadReply(REPLY_LIMIT),
        proceed(c).1,
    ]);
    let t1 = seq![EventView::Closed(response)];
    let t0 = seq![EventView::Written] + t1;
    let s0 = seq![EventView::Secured] + t0;
    lemma_run_unfolds(c, Phase::Securing, EventView::Secured, t0);
    lemma_run_unfolds(c, Phase::Sending, EventView::Written, t1);
    lemma_run_unfolds(c, Phase::Receiving, EventView::Closed(response), Seq::empty());
    assert(t1 =~= seq![EventView::Closed(response)] + Seq::empty());
    assert(t0 =~= seq![EventView::Written, EventView::Closed(response)]);
    assert(s0 =~= seq![EventView::Secured, EventView::Written, EventView::Closed(response)]);
    assert(run(c, Phase::Sending, t0) =~= seq![ActionView::ReadToEnd, ActionView::Done(response)]);
    assert(run(c, Phase::Securing, s0) =~= seq![
        ActionView::Write(c.request_image()),
        ActionView::ReadToEnd,
        ActionView::Done(response),
    ]);
}

/// Gives up on an event that cannot follow the phase it was reported in.
fn refuse() -> (r: (Phase, Action))
    ensures
        (r.0, r.1@) == fail(out_of_order()),
{
    (Phase::Failed, Action::Fail(HttpError::IO("unexpected transport event".to_owned())))
}

/// Writes the request.
fn send(client: &Client) -> (r: (Phase, Action))
    ensures
        (r.0, r.1@) == send_request(client@),
{
    (Phase::Sending, Action::Write(client.request_bytes()))
}

/// Starts TLS where the path asks for it, else writes the request.
fn go_on(client: &Client) -> (r: (Phase, Action))
    ensures
        (r.0, r.1@) == proceed(client@),
{
    let tls = match client.wire_path() {
        WirePath::ProxyForward => false,
        WirePath::ProxyTunnel => !scheme_is_http(client.target().scheme.as_str()),
        WirePath::DirectPlain => false,
        WirePath::DirectTls => true,
    };
    if tls {
        (
            Phase::Securing,
            Action::StartTls {
                server_name: client.target().host.clone(),
                verify: client.verifies(),
            },
        )
    } else {
        send(client)
    }
}

/// Opens the connection.
fn open(client: &Client) -> (r: (Phase, Action))
    ensures
        (r.0, r.1@) == open_connection(client@),
{
    let timeout = client.timeout_secs();
    let action = match client.proxy_server() {
        Some(p) => Action::Connect { host: p.host.clone(), port: p.port, timeout },
        None => Action::Connect {
            host: client.target().host.clone(),
            port: client.target().port,
            timeout,
        },
    };
    (Phase::Connecting, action)
}

/// Moves a send of `client` one step: from `phase`, on `event`, to the
/// phase and the action that the table gives.
pub fn step(client: &Client, phase: Phase, event: Event) -> (r: (Phase, Action))
    ensures
        (r.0, r.1@) == transition(client@, phase, event@),
{
    match phase {
        Phase::Finished | Phase::Failed => {
            return (phase, Action::Halt);
        },
        _ => {},
    }
    match event {
        Event::IoFailed(why) => (Phase::Failed, Action::Fail(HttpError::IO(why))),
        Event::TlsFailed(why) => (Phase::Failed, Action::Fail(HttpError::SSL(why))),
        Event::HandshakeFailed(why) => (Phase::Failed, Action::Fail(HttpError::SSLHandshake(why))),
        Event::Begin => match phase {
            Phase::Idle => open(client),
            _ => refuse(),
        },
        Event::Connected => match phase {
            Phase::Connecting => match client.wire_path() {
                WirePath::ProxyTunnel => (
                    Phase::TunnelOpening,
                    Action::Write(client.connect_bytes()),
                ),
                _ => go_on(client),
            },
            _ => refuse(),
        },
        Event::Written => match phase {
            Phase::TunnelOpening => (Phase::TunnelAwaiting, Action::ReadReply(REPLY_LIMIT)),
            Phase::Sending => (Phase::Receiving, Action::ReadToEnd),
            _ => refuse(),
        },
        Event::Reply(bytes) => match phase {
            Phase::TunnelAwaiting => match check_tunnel_reply(bytes.as_slice()) {
                Ok(_) => go_on(client),
                Err(e) => (Phase::Failed, Action::Fail(e)),
            },
            _ => refuse(),
        },
        Event::Secured => match phase {
            Phase::Securing => send(client),
            _ => refuse(),
        },
        Event::Closed(bytes) => match phase {
            Phase::Receiving => (Phase::Finished, Action::Done(bytes)),
            _ => refuse(),
        },
    }
}

} // verus!
