use webpad::net::SocketAddrV4;
use webpad::web::handler::IndexQuery;
use webpad::web::page::{index, index_html};
use webpad::web::server::{
    dispatch, redirect_location, redirect_to_tls, security_headers, server_url, Dispatch, StatusCode,
};
use webpad::web::ConnectionLimiter;

#[test]
fn limiter_starts_with_zero_used() {
    let limiter = ConnectionLimiter::new(8, 3);
    assert_eq!(limiter.total_used(), 0);
    assert_eq!(limiter.unauth_used(), 0);
}

#[test]
fn limiter_acquire_increments_used() {
    let mut limiter = ConnectionLimiter::new(2, 1);
    let _t1 = limiter.try_acquire_total().unwrap();
    assert_eq!(limiter.total_used(), 1);
    let _u1 = limiter.try_acquire_unauth().unwrap();
    assert_eq!(limiter.unauth_used(), 1);
}

#[test]
fn limiter_drop_decrements_used() {
    let mut limiter = ConnectionLimiter::new(2, 1);
    let t = limiter.try_acquire_total().unwrap();
    let u = limiter.try_acquire_unauth().unwrap();
    assert_eq!(limiter.total_used(), 1);
    assert_eq!(limiter.unauth_used(), 1);
    limiter.release_total(t);
    limiter.release_unauth(u);
    assert_eq!(limiter.total_used(), 0);
    assert_eq!(limiter.unauth_used(), 0);
}

#[test]
fn limiter_total_limit_rejected() {
    let mut limiter = ConnectionLimiter::new(1, 1);
    let _t1 = limiter.try_acquire_total().unwrap();
    assert!(limiter.try_acquire_total().is_none());
    assert!(limiter.try_acquire_unauth().is_some());
}

#[test]
fn limiter_unauth_limit_rejected() {
    let mut limiter = ConnectionLimiter::new(10, 1);
    let _u1 = limiter.try_acquire_unauth().unwrap();
    assert!(limiter.try_acquire_unauth().is_none());
    assert!(limiter.try_acquire_total().is_some());
}

#[test]
fn limiter_zero_permits_rejects_all() {
    let mut limiter = ConnectionLimiter::new(0, 0);
    assert!(limiter.try_acquire_total().is_none());
    assert!(limiter.try_acquire_unauth().is_none());
    assert_eq!(limiter.total_used(), 0);
    assert_eq!(limiter.unauth_used(), 0);
}

#[test]
fn released_permit_can_be_acquired_again() {
    let mut limiter = ConnectionLimiter::new(1, 1);
    let t = limiter.try_acquire_total().unwrap();
    assert!(limiter.try_acquire_total().is_none());
    limiter.release_total(t);
    assert!(limiter.try_acquire_total().is_some());
}

#[test]
fn index_returns_200() {
    let page = index(&IndexQuery { token: None });
    assert_eq!(page.status.as_u16(), 200);
}

#[test]
fn index_returns_html() {
    let page = index(&IndexQuery { token: Some("ignored".to_string()) });
    assert!(page.content_type.contains("text/html"));
    assert_eq!(page.content_type, "text/html; charset=utf-8");
    assert_eq!(page.body, index_html());
}

#[test]
fn page_is_whole() {
    let html = index_html();
    assert_eq!(html.lines().count(), 1410);
    assert!(html.starts_with("<!DOCTYPE html>\n<html lang=\"zh-CN\">"));
    assert!(html.ends_with("</body>\n</html>"));
    assert_eq!(html.matches("<script>").count(), 1);
    assert_eq!(html.matches("</script>").count(), 1);
    assert_eq!(html.matches("<style>").count(), html.matches("</style>").count());
}

#[test]
fn status_numbers() {
    assert_eq!(StatusCode::Success.as_u16(), 200);
    assert_eq!(StatusCode::MovedPermanently.as_u16(), 301);
    assert_eq!(StatusCode::BadRequest.as_u16(), 400);
    assert_eq!(StatusCode::Forbidden.as_u16(), 403);
    assert_eq!(StatusCode::ServiceUnavailable.as_u16(), 503);
}

#[test]
fn headers_are_exact() {
    let headers: Vec<(&str, &str)> =
        security_headers().iter().map(|h| (h.name, h.value)).collect();
    assert_eq!(
        headers,
        vec![
            ("x-content-type-options", "nosniff"),
            ("x-frame-options", "DENY"),
            (
                "content-security-policy",
                "default-src 'self'; script-src 'self' 'unsafe-inline'; style-src 'self' 'unsafe-inline'; img-src 'self' data:; connect-src 'self' wss: ws:"
            ),
            ("referrer-policy", "no-referrer"),
            (
                "permissions-policy",
                "geolocation=(), microphone=(), camera=(), payment=(), usb=(), bluetooth=()"
            ),
            ("strict-transport-security", "max-age=31536000; includeSubDomains"),
        ]
    );
}

#[test]
fn connections_are_told_apart_by_their_first_bytes() {
    let hello = [0x16, 0x03, 0x01, 0x02, 0x00];
    let get = b"GET /";
    assert_eq!(dispatch(&hello, true), Dispatch::ServeTls);
    assert_eq!(dispatch(&hello, false), Dispatch::Refuse);
    assert_eq!(dispatch(get, true), Dispatch::RedirectToTls);
    assert_eq!(dispatch(get, false), Dispatch::ServePlain);
    assert_eq!(dispatch(&[0x16, 0x02], true), Dispatch::ServeTls);
    assert_eq!(dispatch(&[0x16, 0x04], true), Dispatch::RedirectToTls);
    assert_eq!(dispatch(&[0x16], true), Dispatch::RedirectToTls);
    assert_eq!(dispatch(&[], false), Dispatch::ServePlain);
}

#[test]
fn redirect_keeps_host_and_path() {
    assert_eq!(
        redirect_location("192.168.1.5:8443", "/ws?token=a"),
        "https://192.168.1.5:8443/ws?token=a"
    );
}

#[test]
fn server_urls() {
    let addr = SocketAddrV4 { octets: (192, 168, 0, 10), port: 8443 };
    assert_eq!(server_url(true, &addr), "https://192.168.0.10:8443");
    assert_eq!(server_url(false, &addr), "http://192.168.0.10:8443");
}

#[test]
fn plain_requests_are_sent_to_tls() {
    let r = redirect_to_tls(Some("pad.local:8443"), "/");
    assert_eq!(r.status.as_u16(), 301);
    assert_eq!(r.location.unwrap(), "https://pad.local:8443/");
    let r = redirect_to_tls(None, "/");
    assert_eq!(r.status.as_u16(), 400);
    assert!(r.location.is_none());
}
