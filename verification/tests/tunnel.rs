//! The proxy's answer to a request for a tunnel.

use smolhttp::tunnel::{check_tunnel_reply, contains_ignore_case, to_ascii_lower, REPLY_LIMIT};
use smolhttp::HttpError;

#[test]
fn reply_with_the_words_is_accepted_in_any_case() {
    assert_eq!(check_tunnel_reply(b"HTTP/1.1 200 Connection established\r\n\r\n"), Ok(()));
    assert_eq!(check_tunnel_reply(b"HTTP/1.0 200 Connection Established\r\n\r\n"), Ok(()));
    assert_eq!(check_tunnel_reply(b"HTTP/1.1 200 CONNECTION ESTABLISHED\r\n\r\n"), Ok(()));
    assert_eq!(check_tunnel_reply(b"connection established"), Ok(()));
    assert_eq!(check_tunnel_reply(b"xxcOnNeCtIoN eStAbLiShEd"), Ok(()));
}

#[test]
fn reply_padded_with_zero_bytes_is_accepted() {
    let mut reply = b"HTTP/1.1 200 Connection established\r\n\r\n".to_vec();
    reply.resize(REPLY_LIMIT, 0);
    assert_eq!(check_tunnel_reply(&reply), Ok(()));
}

#[test]
fn reply_without_the_words_is_refused() {
    let refused = Err(HttpError::Proxy("Proxy server response error."));
    assert_eq!(check_tunnel_reply(b"HTTP/1.1 403 Forbidden\r\n\r\n"), refused);
    assert_eq!(check_tunnel_reply(b"HTTP/1.1 200 OK\r\n\r\n"), refused);
    assert_eq!(check_tunnel_reply(b""), refused);
    assert_eq!(check_tunnel_reply(b"connection  established"), refused);
    assert_eq!(check_tunnel_reply(b"connection establishe"), refused);
    assert_eq!(check_tunnel_reply(b"onnection established"), refused);
}

#[test]
fn reply_that_is_not_text_is_malformed() {
    let malformed = Err(HttpError::Proxy("parse proxy server response error."));
    assert_eq!(check_tunnel_reply(b"\xff\xfe"), malformed);
    assert_eq!(
        check_tunnel_reply(b"HTTP/1.1 200 Connection established\r\n\r\n\xc3"),
        malformed
    );
    assert_eq!(check_tunnel_reply(b"\x80connection established"), malformed);
}

#[test]
fn search_ignores_the_case_of_the_haystack_only() {
    assert!(contains_ignore_case(b"Hello World", b"world"));
    assert!(contains_ignore_case(b"Hello World", b"hello"));
    assert!(contains_ignore_case(b"Hello World", b"o w"));
    assert!(!contains_ignore_case(b"Hello World", b"World"));
    assert!(!contains_ignore_case(b"Hello World", b"worlds"));
    assert!(!contains_ignore_case(b"abc", b"abcd"));
    assert!(contains_ignore_case(b"abc", b""));
    assert!(contains_ignore_case(b"", b""));
    assert!(!contains_ignore_case(b"", b"a"));
    assert!(contains_ignore_case(b"aab", b"ab"));
    assert!(contains_ignore_case(b"[\\]^_`{", b"[\\]^_`{"));
    assert!(!contains_ignore_case(b"@", b"`"));
}

#[test]
fn lower_case_of_bytes() {
    assert_eq!(to_ascii_lower(b'A'), b'a');
    assert_eq!(to_ascii_lower(b'Z'), b'z');
    assert_eq!(to_ascii_lower(b'a'), b'a');
    assert_eq!(to_ascii_lower(b'@'), b'@');
    assert_eq!(to_ascii_lower(b'['), b'[');
    assert_eq!(to_ascii_lower(0xc9), 0xc9);
    for b in 0..=255u8 {
        assert_eq!(to_ascii_lower(b), b.to_ascii_lowercase());
    }
}
