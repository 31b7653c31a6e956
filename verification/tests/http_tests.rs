use webtor::directory::dir_consensus_request;
use webtor::httpmsg::{
    body_after_headers, build_http_request, consensus_request_path, find_separator,
};
use webtor::netdoc::format_ipv4;
use webtor::numfmt::format_u64;

#[test]
fn decimal_formatting() {
    assert_eq!(format_u64(0), "0");
    assert_eq!(format_u64(7), "7");
    assert_eq!(format_u64(80), "80");
    assert_eq!(format_u64(9131), "9131");
    assert_eq!(format_u64(65535), "65535");
    assert_eq!(format_u64(u64::MAX), "18446744073709551615");
}

#[test]
fn ipv4_formatting() {
    assert_eq!(format_ipv4(128, 31, 0, 39), "128.31.0.39");
    assert_eq!(format_ipv4(0, 0, 0, 0), "0.0.0.0");
    assert_eq!(format_ipv4(255, 255, 255, 255), "255.255.255.255");
}

#[test]
fn request_building() {
    assert_eq!(
        consensus_request_path(),
        "/tor/status-vote/current/consensus-microdesc"
    );
    assert_eq!(
        build_http_request("/p", "h.example"),
        "GET /p HTTP/1.0\r\nHost: h.example\r\nConnection: close\r\n\r\n"
    );
    assert_eq!(
        dir_consensus_request(),
        "GET /tor/status-vote/current/consensus-microdesc HTTP/1.0\r\n\
         Host: directory\r\nConnection: close\r\n\r\n"
    );
}

#[test]
fn separator_positions() {
    assert_eq!(find_separator(b"abc\r\n\r\ndef"), Some(3));
    assert_eq!(find_separator(b"\r\n\r\n"), Some(0));
    assert_eq!(find_separator(b"no separator"), None);
    assert_eq!(find_separator(b""), None);
    // The first of two separators wins.
    assert_eq!(find_separator(b"x\r\n\r\ny\r\n\r\nz"), Some(1));
}

#[test]
fn header_stripping() {
    let response = b"HTTP/1.0 200 OK\r\nContent-Type: text/plain\r\n\r\nnetwork-status".to_vec();
    assert_eq!(body_after_headers(&response), b"network-status".to_vec());
    // No separator: the whole payload is treated as the body.
    let raw = b"no headers here".to_vec();
    assert_eq!(body_after_headers(&raw), raw);
    // A separator at the very end yields an empty body.
    let empty_body = b"HTTP/1.0 200 OK\r\n\r\n".to_vec();
    assert_eq!(body_after_headers(&empty_body), Vec::<u8>::new());
}
