//! Whole requests, from a URL to the bytes on the wire and the steps of the
//! transport, against a scripted connection instead of a real one.

use smolhttp::request::Client;
use smolhttp::route::WirePath;
use smolhttp::transport::{step, Action, Event, Phase};
use smolhttp::HttpError;

const PAGE: &[u8] = b"HTTP/1.1 200 OK\r\nContent-Length: 5\r\nServer: test\r\n\r\nhello";

fn drive(client: &Client, events: Vec<Event>) -> Vec<Action> {
    let mut phase = Phase::Idle;
    let mut actions = Vec::new();
    for event in events {
        let (next, action) = step(client, phase, event);
        phase = next;
        actions.push(action);
    }
    actions
}

#[test]
fn get_without_proxy_serializes_origin_form() {
    let client = Client::new("http://example.com/a?b=1").unwrap();
    assert_eq!(
        client.build_header(),
        "GET /a?b=1 HTTP/1.1\r\nHost: example.com:80\r\nConnection: Close\r\n\r\n"
    );
    assert_eq!(
        client.request_bytes(),
        b"GET /a?b=1 HTTP/1.1\r\nHost: example.com:80\r\nConnection: Close\r\n\r\n".to_vec()
    );
}

#[test]
fn get_through_http_proxy_serializes_absolute_form() {
    let mut client = Client::new("http://example.com/a?b=1").unwrap();
    client.proxy("http://proxy:8080").unwrap();
    assert_eq!(client.wire_path(), WirePath::ProxyForward);
    assert_eq!(
        client.build_header(),
        "GET http://example.com/a?b=1 HTTP/1.1\r\nHost: example.com:80\r\nConnection: Close\r\n\r\n"
    );
}

#[test]
fn https_through_tunnel_sends_connect_before_tls() {
    let mut client = Client::new("https://example.com/").unwrap();
    client.proxy("https://proxy:8080").unwrap();
    assert_eq!(client.wire_path(), WirePath::ProxyTunnel);
    let actions = drive(
        &client,
        vec![
            Event::Begin,
            Event::Connected,
            Event::Written,
            Event::Reply(b"HTTP/1.1 200 Connection established\r\n\r\n".to_vec()),
            Event::Secured,
            Event::Written,
            Event::Closed(PAGE.to_vec()),
        ],
    );
    assert_eq!(
        actions,
        vec![
            Action::Connect { host: "proxy".to_string(), port: 8080, timeout: 30 },
            Action::Write(
                b"CONNECT example.com:443 HTTP/1.1\r\nHost: example.com:443\r\n\r\n".to_vec()
            ),
            Action::ReadReply(1024),
            Action::StartTls { server_name: "example.com".to_string(), verify: true },
            Action::Write(
                b"GET / HTTP/1.1\r\nHost: example.com:443\r\nConnection: Close\r\n\r\n".to_vec()
            ),
            Action::ReadToEnd,
            Action::Done(PAGE.to_vec()),
        ]
    );
    assert_eq!(
        client.connect_bytes(),
        b"CONNECT example.com:443 HTTP/1.1\r\nHost: example.com:443\r\n\r\n".to_vec()
    );
}

#[test]
fn body_adds_content_length_and_follows_head() {
    let mut client = Client::new("http://example.com/a?b=1").unwrap();
    client.post().body(b"hello".to_vec());
    assert_eq!(
        client.build_header(),
        "POST /a?b=1 HTTP/1.1\r\nHost: example.com:80\r\nConnection: Close\r\nContent-Length: 5\r\n\r\n"
    );
    let bytes = client.request_bytes();
    let head = client.build_header();
    assert_eq!(&bytes[..head.len()], head.as_bytes());
    assert_eq!(&bytes[head.len()..], b"hello");
}

#[test]
fn https_get() {
    let mut http = Client::new("https://docs.rs/").unwrap();
    http.verify(false).unwrap().get();
    let actions = drive(
        &http,
        vec![
            Event::Begin,
            Event::Connected,
            Event::Secured,
            Event::Written,
            Event::Closed(PAGE.to_vec()),
        ],
    );
    assert_eq!(
        actions,
        vec![
            Action::Connect { host: "docs.rs".to_string(), port: 443, timeout: 30 },
            Action::StartTls { server_name: "docs.rs".to_string(), verify: false },
            Action::Write(b"GET / HTTP/1.1\r\nHost: docs.rs:443\r\nConnection: Close\r\n\r\n".to_vec()),
            Action::ReadToEnd,
            Action::Done(PAGE.to_vec()),
        ]
    );
    let status = minihttpse::Response::new(PAGE.to_vec()).unwrap().status_code();
    println!("{}", status);
    assert_eq!(status, 200);
}

#[test]
fn http_post() {
    let mut http = Client::new("https://docs.rs/").unwrap();
    http.body("username=bob".as_bytes().to_vec()).post();
    let actions = drive(&http, vec![Event::Begin, Event::Connected, Event::Secured]);
    assert_eq!(
        actions[2],
        Action::Write(
            b"POST / HTTP/1.1\r\nHost: docs.rs:443\r\nConnection: Close\r\nContent-Length: 12\r\n\r\nusername=bob"
                .to_vec()
        )
    );
    println!("{}", minihttpse::Response::new(PAGE.to_vec()).unwrap().status_code());
}

#[test]
fn http_get_set_header() {
    let mut http = Client::new("https://docs.rs/").unwrap();
    http.headers(vec![("Content-Type".to_string(), "text/html; charset=utf-8".to_string())]).get();
    assert_eq!(
        http.build_header(),
        "GET / HTTP/1.1\r\nHost: docs.rs:443\r\nConnection: Close\r\nContent-Type: text/html; charset=utf-8\r\n\r\n"
    );
    println!("{}", minihttpse::Response::new(PAGE.to_vec()).unwrap().status_code());
}

#[test]
fn http_get_back_header() {
    let mut http = Client::new("https://docs.rs/").unwrap();
    http.get();
    let mut actions = drive(
        &http,
        vec![
            Event::Begin,
            Event::Connected,
            Event::Secured,
            Event::Written,
            Event::Closed(PAGE.to_vec()),
        ],
    );
    let raw = match actions.pop() {
        Some(Action::Done(raw)) => raw,
        other => panic!("the send did not finish: {:?}", other),
    };
    let headers = minihttpse::Response::new(raw).unwrap().headers();
    for (k, v) in &headers {
        println!("{}:{}", k, v);
    }
    assert_eq!(headers.get("Server"), Some(&"test".to_string()));
}

#[test]
fn http_proxy() {
    let mut http = Client::new("https://docs.rs/").unwrap();
    http.proxy("https://127.0.0.1:1080").unwrap().get();
    let actions = drive(&http, vec![Event::Begin, Event::Connected]);
    assert_eq!(
        actions,
        vec![
            Action::Connect { host: "127.0.0.1".to_string(), port: 1080, timeout: 30 },
            Action::Write(b"CONNECT docs.rs:443 HTTP/1.1\r\nHost: docs.rs:443\r\n\r\n".to_vec()),
        ]
    );
    let res = minihttpse::Response::new(PAGE.to_vec()).unwrap();
    println!("{}", res.status_code());
}

#[test]
fn http_proxy_for_https_target_is_refused_when_it_is_set() {
    // The relaying path would carry any target in plain text, but an `http`
    // proxy is never accepted for an `https` target in the first place: the
    // refusal at configuration is the policy, and the relaying path only
    // ever sees targets of other schemes.
    let mut client = Client::new("https://example.com/").unwrap();
    let before = client.clone();
    assert_eq!(
        client.proxy("http://proxy:8080").err(),
        Some(HttpError::Proxy("Http proxy can only use http scheme."))
    );
    assert_eq!(client, before);
    assert_eq!(client.wire_path(), WirePath::DirectTls);

    let mut plain = Client::new("http://example.com/").unwrap();
    plain.proxy("http://proxy:8080").unwrap();
    assert_eq!(plain.wire_path(), WirePath::ProxyForward);
    let actions = drive(&plain, vec![Event::Begin, Event::Connected, Event::Written]);
    assert!(actions.iter().all(|a| !matches!(a, Action::StartTls { .. })));
}
