use webpad::web::origin::validate_origin;
use webpad::web::server::StatusCode;

fn check(origin: Option<&str>, host: Option<&str>) -> bool {
    match validate_origin(origin.map(|o| o.as_bytes()), host.map(|h| h.as_bytes())) {
        Ok(()) => true,
        Err(status) => {
            assert_eq!(status, StatusCode::Forbidden);
            false
        }
    }
}

#[test]
fn client_without_origin_passes() {
    assert!(check(None, Some("example.org")));
    assert!(check(None, None));
}

#[test]
fn same_origin_passes() {
    assert!(check(Some("https://192.168.1.5:8443"), Some("192.168.1.5:8443")));
    assert!(check(Some("http://192.168.1.5:8443"), Some("192.168.1.5:8443")));
    assert!(check(Some("192.168.1.5:8443"), Some("192.168.1.5:8443")));
    assert!(check(Some("https://"), Some("")));
}

#[test]
fn other_origin_is_refused() {
    assert!(!check(Some("https://evil.example"), Some("192.168.1.5:8443")));
    assert!(!check(Some("https://192.168.1.5:9000"), Some("192.168.1.5:8443")));
    assert!(!check(Some("ftp://192.168.1.5:8443"), Some("192.168.1.5:8443")));
    assert!(!check(Some("null"), Some("192.168.1.5:8443")));
    assert!(!check(Some("http://https://a"), Some("a")));
}

#[test]
fn origin_without_host_is_refused() {
    assert!(!check(Some("https://192.168.1.5:8443"), None));
}

#[test]
fn names_of_the_machine_are_the_same() {
    assert!(check(Some("https://localhost:8443"), Some("127.0.0.1:8443")));
    assert!(check(Some("https://127.0.0.1:8443"), Some("localhost:8443")));
    assert!(check(Some("http://0.0.0.0"), Some("localhost")));
    assert!(!check(Some("https://localhost"), Some("192.168.1.5")));
    assert!(!check(Some("https://evil.example"), Some("localhost")));
    assert!(!check(Some("https://localhost.evil.example"), Some("localhost")));
}

#[test]
fn another_port_of_the_machine_is_another_origin() {
    assert!(!check(Some("http://localhost:3000"), Some("localhost:8443")));
    assert!(!check(Some("https://localhost:3000"), Some("127.0.0.1:8443")));
    assert!(!check(Some("https://localhost"), Some("127.0.0.1:8443")));
    assert!(!check(Some("https://[::1]:3000"), Some("localhost:8443")));
}

#[test]
fn bracketed_address_matches_only_itself() {
    assert!(check(Some("https://[::1]:8443"), Some("[::1]:8443")));
    assert!(check(Some("https://[::1]"), Some("[::1]")));
    assert!(!check(Some("http://[::1]:8443"), Some("localhost:8443")));
    assert!(!check(Some("https://127.0.0.1"), Some("[::1]")));
    assert!(!check(Some("https://[::1]:8443"), Some("[::1]:3000")));
}

#[test]
fn unreadable_headers_are_refused() {
    assert_eq!(
        validate_origin(Some(&[0x68, 0x80]), Some(&[0x68, 0x80])),
        Err(StatusCode::Forbidden)
    );
    assert_eq!(validate_origin(Some(b"a"), Some(&[0x61, 0x7f])), Err(StatusCode::Forbidden));
    assert_eq!(validate_origin(Some(b"a\tb"), Some(b"a\tb")), Ok(()));
    assert_eq!(validate_origin(None, Some(&[0xff])), Ok(()));
}
