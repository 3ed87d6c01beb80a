use request_write::{chunk_frame, is_idempotent, last_chunk, FinishError, RequestWrite, ResponseHead, Unit};

fn unit(method: &str, url: &str, redirects: u32, chunked: bool) -> Unit {
    Unit::new(method.to_string(), url.to_string(), redirects, chunked, None)
}

fn head(status: u16, bad: bool, location: Option<&str>) -> ResponseHead {
    ResponseHead { status, bad_status_read: bad, location: location.map(|l| l.to_string()) }
}

#[test]
fn idempotent_methods_with_empty_body_are_retryable() {
    for m in ["DELETE", "GET", "HEAD", "OPTIONS", "PUT", "TRACE"] {
        assert!(is_idempotent(&m.to_string()));
        let w = RequestWrite::new(unit(m, "http://a/", 5, false), true);
        assert!(w.is_retryable());
    }
}

#[test]
fn method_set_is_case_sensitive_and_fixed() {
    for m in ["get", "Get", "POST", "PATCH", "CONNECT", ""] {
        assert!(!is_idempotent(&m.to_string()));
        let w = RequestWrite::new(unit(m, "http://a/", 5, false), true);
        assert!(!w.is_retryable());
    }
}

#[test]
fn non_empty_body_is_never_retryable() {
    for m in ["GET", "PUT", "POST"] {
        let mut w = RequestWrite::new(unit(m, "http://a/", 5, false), true);
        let out = w.write(b"x");
        assert_eq!(out, b"x".to_vec());
        assert!(!w.body_empty());
        assert!(!w.is_retryable());
    }
}

#[test]
fn empty_write_then_finish_keeps_body_empty() {
    let mut w = RequestWrite::new(unit("GET", "http://a/", 5, true), true);
    let out = w.write(b"");
    assert!(out.is_empty());
    assert!(w.body_empty());
    let sent = w.finish();
    assert_eq!(sent, Some(b"0\r\n\r\n".to_vec()));
    assert!(w.body_empty());
    assert!(w.is_retryable());
    assert!(w.should_retry(&head(500, true, None)));
}

#[test]
fn chunked_write_sends_one_frame() {
    let mut w = RequestWrite::new(unit("POST", "http://a/", 5, true), false);
    assert_eq!(w.write(b"hello"), b"5\r\nhello\r\n".to_vec());
    assert!(!w.body_empty());
}

#[test]
fn chunk_frame_size_is_lowercase_hex() {
    let payload = vec![7u8; 300];
    let frame = chunk_frame(&payload);
    assert_eq!(&frame[..5], b"12c\r\n");
    assert_eq!(&frame[5..305], &payload[..]);
    assert_eq!(&frame[305..], b"\r\n");
    assert_eq!(chunk_frame(&[1u8; 16])[..4], b"10\r\n"[..]);
    assert_eq!(chunk_frame(b""), b"0\r\n\r\n".to_vec());
    assert_eq!(last_chunk(), b"0\r\n\r\n".to_vec());
}

#[test]
fn finish_runs_only_once() {
    let mut w = RequestWrite::new(unit("GET", "http://a/", 5, true), false);
    assert!(!w.is_finished());
    assert_eq!(w.finish(), Some(last_chunk()));
    assert!(w.is_finished());
    assert_eq!(w.finish(), None);
    assert!(w.is_finished());
}

#[test]
fn unfinished_plain_writer_finishes_with_nothing_to_send() {
    let mut w = RequestWrite::new(unit("GET", "http://a/", 5, false), false);
    assert_eq!(w.finish(), Some(Vec::new()));
}

#[test]
fn bad_status_on_recycled_retryable_connection_retries_once() {
    let mut w = RequestWrite::new(unit("GET", "http://a/", 5, true), true);
    w.finish();
    let broken = head(500, true, None);
    assert!(w.should_retry(&broken));
    w.reconnect(false);
    assert_eq!(w.do_finish(), last_chunk());
    assert!(!w.should_retry(&broken));
}

#[test]
fn bad_status_without_all_conditions_does_not_retry() {
    let broken = head(500, true, None);
    let fresh = RequestWrite::new(unit("GET", "http://a/", 5, false), false);
    assert!(!fresh.should_retry(&broken));
    let post = RequestWrite::new(unit("POST", "http://a/", 5, false), true);
    assert!(!post.should_retry(&broken));
    let mut with_body = RequestWrite::new(unit("GET", "http://a/", 5, false), true);
    with_body.write(b"abc");
    assert!(!with_body.should_retry(&broken));
    let ok = RequestWrite::new(unit("GET", "http://a/", 5, false), true);
    assert!(!ok.should_retry(&head(200, false, None)));
}

#[test]
fn budget_of_one_on_302_is_too_many_redirects() {
    let w = RequestWrite::new(unit("GET", "http://a/", 1, false), false);
    assert!(matches!(w.redirect_plan(&head(302, false, Some("/x"))), Err(FinishError::TooManyRedirects)));
}

#[test]
fn budget_of_two_on_302_follows_once() {
    let w = RequestWrite::new(unit("GET", "http://a/", 2, false), false);
    let plan = w.redirect_plan(&head(302, false, Some("/x")));
    assert!(matches!(&plan, Ok(Some(l)) if l == "/x"));
    let next = w.follow(302, &"/x".to_string(), Some("http://a/x".to_string()));
    match next {
        Ok(Some(u)) => {
            assert_eq!(u.redirects, 1);
            assert_eq!(u.url, "http://a/x");
            assert_eq!(u.method, "GET");
        }
        _ => panic!("expected a followed redirect"),
    }
}

#[test]
fn get_301_relative_location_redirects_within_host() {
    let mut w = RequestWrite::new(unit("GET", "http://a.test/old", 5, false), false);
    assert_eq!(w.finish(), Some(Vec::new()));
    let resp = head(301, false, Some("/new"));
    assert!(!w.should_retry(&resp));
    let plan = w.redirect_plan(&resp);
    let loc = match plan {
        Ok(Some(l)) => l,
        _ => panic!("expected a location to resolve"),
    };
    assert_eq!(loc, "/new");
    match w.follow(301, &loc, Some("http://a.test/new".to_string())) {
        Ok(Some(u)) => {
            assert_eq!(u.url, "http://a.test/new");
            assert_eq!(u.redirects, 4);
        }
        _ => panic!("expected exactly one new request"),
    }
}

#[test]
fn temporary_and_permanent_redirects_are_not_followed() {
    let w = RequestWrite::new(unit("GET", "http://a/", 5, false), false);
    for status in [307u16, 308] {
        assert!(matches!(w.redirect_plan(&head(status, false, Some("/y"))), Ok(Some(_))));
        assert!(matches!(w.follow(status, &"/y".to_string(), Some("http://a/y".to_string())), Ok(None)));
    }
    for status in [301u16, 302, 303] {
        assert!(matches!(w.follow(status, &"/y".to_string(), Some("http://a/y".to_string())), Ok(Some(_))));
    }
}

#[test]
fn unresolvable_location_is_bad_url() {
    let w = RequestWrite::new(unit("GET", "http://a/", 5, false), false);
    match w.follow(302, &"http://[".to_string(), None) {
        Err(FinishError::BadUrl(l)) => assert_eq!(l, "http://["),
        _ => panic!("expected a bad url error"),
    }
}

#[test]
fn redirect_without_location_or_budget_keeps_response() {
    let w = RequestWrite::new(unit("GET", "http://a/", 5, false), false);
    assert!(matches!(w.redirect_plan(&head(302, false, None)), Ok(None)));
    assert!(matches!(w.redirect_plan(&head(200, false, Some("/z"))), Ok(None)));
    let none_left = RequestWrite::new(unit("GET", "http://a/", 0, false), false);
    assert!(matches!(none_left.redirect_plan(&head(302, false, Some("/z"))), Ok(None)));
}

#[test]
fn hand_off_returns_url_and_unit() {
    let mut w = RequestWrite::new(unit("HEAD", "http://a/p", 3, true), false);
    w.finish();
    let (url, u) = w.hand_off();
    assert_eq!(url, "http://a/p");
    assert_eq!(u.method, "HEAD");
    assert_eq!(u.redirects, 3);
    assert!(u.is_chunked);
    assert!(w.is_handed_off());
}

#[test]
fn redirect_to_keeps_method_and_deadline() {
    let u = Unit::new("PUT".to_string(), "http://a/".to_string(), 3, true, Some(99));
    let n = u.redirect_to("http://b/".to_string());
    assert_eq!(n.method, "PUT");
    assert_eq!(n.url, "http://b/");
    assert_eq!(n.redirects, 2);
    assert!(n.is_chunked);
    assert_eq!(n.deadline, Some(99));
    let d = n.duplicate();
    assert_eq!(d.url, "http://b/");
    assert_eq!(d.redirects, 2);
}

#[test]
fn describe_names_method_and_url() {
    let w = RequestWrite::new(unit("GET", "http://a/p?q=1", 5, false), false);
    assert_eq!(w.describe(), "RequestWrite(GET http://a/p?q=1)");
}
