//! The steps of the transport, phase by phase.

use smolhttp::request::Client;
use smolhttp::transport::{step, Action, Event, Phase};
use smolhttp::HttpError;

const GRANTED: &[u8] = b"HTTP/1.1 200 Connection Established\r\nProxy-Agent: t\r\n\r\n";

fn drive(client: &Client, events: Vec<Event>) -> (Phase, Vec<Action>) {
    let mut phase = Phase::Idle;
    let mut actions = Vec::new();
    for event in events {
        let (next, action) = step(client, phase, event);
        phase = next;
        actions.push(action);
    }
    (phase, actions)
}

fn all_events() -> Vec<Event> {
    vec![
        Event::Begin,
        Event::Connected,
        Event::Written,
        Event::Reply(GRANTED.to_vec()),
        Event::Secured,
        Event::Closed(b"x".to_vec()),
        Event::IoFailed("io".to_string()),
        Event::TlsFailed("tls".to_string()),
        Event::HandshakeFailed("hs".to_string()),
    ]
}

#[test]
fn direct_plain_path() {
    let mut client = Client::new("http://example.com:8080/x").unwrap();
    client.timeout(5);
    let (phase, actions) = drive(
        &client,
        vec![Event::Begin, Event::Connected, Event::Written, Event::Closed(b"raw".to_vec())],
    );
    assert_eq!(phase, Phase::Finished);
    assert_eq!(
        actions,
        vec![
            Action::Connect { host: "example.com".to_string(), port: 8080, timeout: 5 },
            Action::Write(
                b"GET /x HTTP/1.1\r\nHost: example.com:8080\r\nConnection: Close\r\n\r\n".to_vec()
            ),
            Action::ReadToEnd,
            Action::Done(b"raw".to_vec()),
        ]
    );
}

#[test]
fn proxy_forward_path_connects_to_the_proxy_and_never_starts_tls() {
    let mut client = Client::new("http://example.com/x").unwrap();
    client.proxy("http://proxy:3128").unwrap().timeout(9);
    let (phase, actions) = drive(
        &client,
        vec![Event::Begin, Event::Connected, Event::Written, Event::Closed(Vec::new())],
    );
    assert_eq!(phase, Phase::Finished);
    assert_eq!(
        actions,
        vec![
            Action::Connect { host: "proxy".to_string(), port: 3128, timeout: 9 },
            Action::Write(
                b"GET http://example.com/x HTTP/1.1\r\nHost: example.com:80\r\nConnection: Close\r\n\r\n"
                    .to_vec()
            ),
            Action::ReadToEnd,
            Action::Done(Vec::new()),
        ]
    );
}

#[test]
fn tunnel_to_http_target_goes_on_in_plain_text() {
    let mut client = Client::new("http://example.com/x").unwrap();
    client.proxy("https://proxy:8443").unwrap();
    let (phase, actions) = drive(
        &client,
        vec![
            Event::Begin,
            Event::Connected,
            Event::Written,
            Event::Reply(GRANTED.to_vec()),
            Event::Written,
            Event::Closed(b"raw".to_vec()),
        ],
    );
    assert_eq!(phase, Phase::Finished);
    assert_eq!(
        actions,
        vec![
            Action::Connect { host: "proxy".to_string(), port: 8443, timeout: 30 },
            Action::Write(b"CONNECT example.com:80 HTTP/1.1\r\nHost: example.com:80\r\n\r\n".to_vec()),
            Action::ReadReply(1024),
            Action::Write(
                b"GET /x HTTP/1.1\r\nHost: example.com:80\r\nConnection: Close\r\n\r\n".to_vec()
            ),
            Action::ReadToEnd,
            Action::Done(b"raw".to_vec()),
        ]
    );
}

#[test]
fn tunnel_to_https_target_honours_the_verify_flag() {
    let mut client = Client::new("https://example.com/").unwrap();
    client.verify(false).unwrap().proxy("https://proxy:8443").unwrap();
    let (phase, actions) = drive(
        &client,
        vec![Event::Begin, Event::Connected, Event::Written, Event::Reply(GRANTED.to_vec())],
    );
    assert_eq!(phase, Phase::Securing);
    assert_eq!(
        actions[3],
        Action::StartTls { server_name: "example.com".to_string(), verify: false }
    );
}

#[test]
fn refused_tunnel_fails_and_nothing_more_is_sent() {
    let mut client = Client::new("https://example.com/").unwrap();
    client.proxy("https://proxy:8443").unwrap();
    let (phase, actions) = drive(
        &client,
        vec![
            Event::Begin,
            Event::Connected,
            Event::Written,
            Event::Reply(b"HTTP/1.1 407 Proxy Authentication Required\r\n\r\n".to_vec()),
            Event::Secured,
            Event::Written,
            Event::Connected,
            Event::Begin,
            Event::Closed(b"late".to_vec()),
        ],
    );
    assert_eq!(phase, Phase::Failed);
    assert_eq!(actions[3], Action::Fail(HttpError::Proxy("Proxy server response error.")));
    assert!(actions[4..].iter().all(|a| *a == Action::Halt));
    let writes = actions.iter().filter(|a| matches!(a, Action::Write(_))).count();
    assert_eq!(writes, 1);
}

#[test]
fn malformed_tunnel_reply_fails_with_a_proxy_error() {
    let mut client = Client::new("http://example.com/").unwrap();
    client.proxy("https://proxy:8443").unwrap();
    let (phase, action) = step(&client, Phase::TunnelAwaiting, Event::Reply(vec![0xff, 0x00]));
    assert_eq!(phase, Phase::Failed);
    assert_eq!(action, Action::Fail(HttpError::Proxy("parse proxy server response error.")));
}

#[test]
fn failures_of_the_driver_end_the_send_in_every_live_phase() {
    let client = Client::new("https://example.com/").unwrap();
    for phase in [
        Phase::Idle,
        Phase::Connecting,
        Phase::TunnelOpening,
        Phase::TunnelAwaiting,
        Phase::Securing,
        Phase::Sending,
        Phase::Receiving,
    ] {
        assert_eq!(
            step(&client, phase, Event::IoFailed("timed out".to_string())),
            (Phase::Failed, Action::Fail(HttpError::IO("timed out".to_string())))
        );
        assert_eq!(
            step(&client, phase, Event::TlsFailed("no roots".to_string())),
            (Phase::Failed, Action::Fail(HttpError::SSL("no roots".to_string())))
        );
        assert_eq!(
            step(&client, phase, Event::HandshakeFailed("bad cert".to_string())),
            (Phase::Failed, Action::Fail(HttpError::SSLHandshake("bad cert".to_string())))
        );
    }
}

#[test]
fn a_send_that_is_over_halts_on_every_event() {
    let client = Client::new("http://example.com/").unwrap();
    for phase in [Phase::Finished, Phase::Failed] {
        for event in all_events() {
            assert_eq!(step(&client, phase, event), (phase, Action::Halt));
        }
    }
}

#[test]
fn events_out_of_order_fail_the_send() {
    let client = Client::new("http://example.com/").unwrap();
    let refused =
        (Phase::Failed, Action::Fail(HttpError::IO("unexpected transport event".to_string())));
    assert_eq!(step(&client, Phase::Idle, Event::Connected), refused);
    assert_eq!(step(&client, Phase::Idle, Event::Written), refused);
    assert_eq!(step(&client, Phase::Connecting, Event::Begin), refused);
    assert_eq!(step(&client, Phase::Connecting, Event::Secured), refused);
    assert_eq!(step(&client, Phase::TunnelOpening, Event::Reply(GRANTED.to_vec())), refused);
    assert_eq!(step(&client, Phase::TunnelAwaiting, Event::Written), refused);
    assert_eq!(step(&client, Phase::Securing, Event::Written), refused);
    assert_eq!(step(&client, Phase::Sending, Event::Closed(Vec::new())), refused);
    assert_eq!(step(&client, Phase::Receiving, Event::Written), refused);
    assert_eq!(step(&client, Phase::Receiving, Event::Reply(GRANTED.to_vec())), refused);
}

#[test]
fn every_live_phase_has_exactly_its_own_events() {
    let client = Client::new("http://example.com/").unwrap();
    let expected = [
        (Phase::Idle, 1),
        (Phase::Connecting, 1),
        (Phase::TunnelOpening, 1),
        (Phase::TunnelAwaiting, 1),
        (Phase::Securing, 1),
        (Phase::Sending, 1),
        (Phase::Receiving, 1),
    ];
    for (phase, count) in expected {
        let moved = all_events()
            .into_iter()
            .map(|e| step(&client, phase, e))
            .filter(|(next, _)| *next != Phase::Failed)
            .count();
        assert_eq!(moved, count, "{:?}", phase);
    }
}

#[test]
fn timeout_goes_into_the_connect_action_unchanged() {
    let mut client = Client::new("https://example.com/").unwrap();
    for secs in [0, 1, 30, u64::MAX] {
        client.timeout(secs);
        assert_eq!(
            step(&client, Phase::Idle, Event::Begin).1,
            Action::Connect { host: "example.com".to_string(), port: 443, timeout: secs }
        );
    }
}

#[test]
fn target_of_unknown_scheme_is_reached_over_tls() {
    let client = Client::new("gopher://example.com:70/").unwrap();
    let (phase, action) = step(&client, Phase::Connecting, Event::Connected);
    assert_eq!(phase, Phase::Securing);
    assert_eq!(action, Action::StartTls { server_name: "example.com".to_string(), verify: true });
}
