use scrobbler::bytes::{
    bytes_eq, bytes_eq_ignore_case, find_byte, find_first, parse_length, skip_run, text_bytes,
};
use scrobbler::endpoint::{
    parse_head, plan, reply_for, reply_head, Method, Reply, RequestHead, Route, Step, Target,
};

const CORS: &str = "Access-Control-Allow-Origin: *\r\nAccess-Control-Allow-Methods: GET, POST, OPTIONS\r\nAccess-Control-Allow-Headers: Content-Type\r\n\r\n";

fn body_of<'a>(buf: &'a [u8], step: Step) -> (Route, &'a [u8]) {
    match step {
        Step::Respond { route, body_start, body_end } => (route, &buf[body_start..body_end]),
        Step::ReadMore => panic!("the request is complete"),
    }
}

#[test]
fn preflight_is_answered_with_no_content() {
    for path in ["/playback", "/settings", "/else"] {
        let req = format!("OPTIONS {} HTTP/1.1\r\nOrigin: https://soundcloud.com\r\n\r\n", path);
        let (route, body) = body_of(req.as_bytes(), plan(req.as_bytes(), false));
        assert_eq!(route, Route::Preflight);
        assert!(body.is_empty());
        let reply = reply_for(route, false);
        assert_eq!(reply, Reply::NoContent);
        assert_eq!(reply_head(reply), format!("HTTP/1.1 204 No Content\r\n{}", CORS));
    }
}

#[test]
fn preflight_with_a_length_does_not_wait_for_a_body() {
    let req = b"OPTIONS /playback HTTP/1.1\r\nContent-Length: 10\r\n\r\n";
    let (route, _) = body_of(req, plan(req, false));
    assert_eq!(route, Route::Preflight);
}

#[test]
fn a_request_is_read_until_the_header_block_ends() {
    let req = b"POST /playback HTTP/1.1\r\nContent-Length: 2\r\n\r\n{}";
    for cut in 0..(req.len() - 2) {
        assert_eq!(plan(&req[..cut], false), Step::ReadMore);
    }
    assert_eq!(plan(&req[..req.len() - 1], false), Step::ReadMore);
    let (route, body) = body_of(req, plan(req, false));
    assert_eq!(route, Route::Playback);
    assert_eq!(body, b"{}");
}

#[test]
fn the_body_is_as_long_as_the_length_says() {
    let req = b"POST /playback HTTP/1.1\r\nContent-Length: 2\r\n\r\n{}extra";
    let (route, body) = body_of(req, plan(req, false));
    assert_eq!(route, Route::Playback);
    assert_eq!(body, b"{}");
}

#[test]
fn a_closed_connection_is_answered_with_what_came() {
    let short = b"POST /settings HTTP/1.1\r\nContent-Length: 20\r\n\r\n{\"thr";
    let (route, body) = body_of(short, plan(short, true));
    assert_eq!(route, Route::WriteSettings);
    assert_eq!(body, b"{\"thr");
    let headless = b"POST /settings HTTP/1.1\r\nContent-Le";
    let (route, body) = body_of(headless, plan(headless, true));
    assert_eq!(route, Route::Plain);
    assert!(body.is_empty());
    let (route, body) = body_of(b"", plan(b"", true));
    assert_eq!(route, Route::Plain);
    assert!(body.is_empty());
}

#[test]
fn a_post_without_a_length_is_refused() {
    for path in ["/playback", "/settings", "/else"] {
        let req = format!("POST {} HTTP/1.1\r\nHost: 127.0.0.1\r\n\r\n", path);
        let (route, _) = body_of(req.as_bytes(), plan(req.as_bytes(), false));
        assert_eq!(route, Route::LengthRequired);
        assert_eq!(
            reply_head(reply_for(route, false)),
            format!("HTTP/1.1 411 Length Required\r\n{}", CORS)
        );
    }
    let bad = b"POST /playback HTTP/1.1\r\nContent-Length: many\r\n\r\n";
    let (route, _) = body_of(bad, plan(bad, false));
    assert_eq!(route, Route::LengthRequired);
}

#[test]
fn settings_are_read_and_written() {
    let get = b"GET /settings HTTP/1.1\r\nHost: x\r\n\r\n";
    let (route, _) = body_of(get, plan(get, false));
    assert_eq!(route, Route::ReadSettings);
    assert_eq!(reply_for(route, false), Reply::Settings);
    let post = b"POST /settings HTTP/1.1\r\ncontent-length: 17\r\n\r\n{\"threshold\":1.5}";
    let (route, body) = body_of(post, plan(post, false));
    assert_eq!(route, Route::WriteSettings);
    assert_eq!(body, b"{\"threshold\":1.5}");
    assert_eq!(reply_for(route, true), Reply::Settings);
    assert_eq!(reply_for(route, false), Reply::Confirmed);
    assert_eq!(
        reply_head(Reply::Settings),
        format!("HTTP/1.1 200 OK\r\nContent-Type: application/json\r\n{}", CORS)
    );
}

#[test]
fn anything_else_is_confirmed() {
    let reqs: [&[u8]; 4] = [
        b"GET /playback HTTP/1.1\r\n\r\n",
        b"GET / HTTP/1.1\r\n\r\n",
        b"GET /settings HTTP/1.1\r\nContent-Length: 0\r\n\r\n",
        b"PUT /other HTTP/1.1\r\nContent-Length: 0\r\n\r\n",
    ];
    for req in reqs {
        let (route, _) = body_of(req, plan(req, false));
        assert_eq!(route, Route::Plain);
    }
    assert_eq!(reply_for(Route::Plain, false), Reply::Confirmed);
    assert_eq!(reply_for(Route::Playback, false), Reply::Confirmed);
    assert_eq!(
        reply_head(Reply::Confirmed),
        format!("HTTP/1.1 200 OK\r\nContent-Type: text/plain\r\n{}ok", CORS)
    );
}

#[test]
fn telemetry_is_taken_by_any_method_that_gives_a_length() {
    let req = b"PUT /playback HTTP/1.1\r\nContent-Length: 0\r\n\r\n";
    let (route, body) = body_of(req, plan(req, false));
    assert_eq!(route, Route::Playback);
    assert!(body.is_empty());
}

#[test]
fn a_length_too_large_to_hold_is_waited_for() {
    let req = format!("POST /playback HTTP/1.1\r\nContent-Length: {}\r\n\r\nab", usize::MAX);
    assert_eq!(plan(req.as_bytes(), false), Step::ReadMore);
    let (route, body) = body_of(req.as_bytes(), plan(req.as_bytes(), true));
    assert_eq!(route, Route::Playback);
    assert_eq!(body, b"ab");
}

#[test]
fn the_head_is_read_from_the_first_line_and_the_length_lines() {
    let head = parse_head(b"POST /settings HTTP/1.1\r\nHost: a\r\nCONTENT-LENGTH:  12 \r\nX: y");
    assert_eq!(
        head,
        RequestHead { method: Method::Post, target: Target::Settings, content_length: Some(12) }
    );
    let two = parse_head(b"GET /playback\r\nContent-Length: 1\r\nContent-Length: 22");
    assert_eq!(
        two,
        RequestHead { method: Method::Get, target: Target::Playback, content_length: Some(22) }
    );
    let kept = parse_head(b"GET /x\r\nContent-Length: 5\r\nContent-Length: x");
    assert_eq!(
        kept,
        RequestHead { method: Method::Get, target: Target::Other, content_length: Some(5) }
    );
    let none = parse_head(b"  OPTIONS\t/playback  HTTP/1.1\r\nContent-Length : 5\r\n Content-Length: 6");
    assert_eq!(
        none,
        RequestHead { method: Method::Options, target: Target::Playback, content_length: None }
    );
    let empty = parse_head(b"");
    assert_eq!(
        empty,
        RequestHead { method: Method::Other, target: Target::Other, content_length: None }
    );
    let lower = parse_head(b"post /settings");
    assert_eq!(lower.method, Method::Other);
}

#[test]
fn lengths_are_decimal_numbers() {
    assert_eq!(parse_length(b"0"), Some(0));
    assert_eq!(parse_length(b" 42\r"), Some(42));
    assert_eq!(parse_length(b"+7"), Some(7));
    assert_eq!(parse_length(b"007"), Some(7));
    assert_eq!(parse_length(b""), None);
    assert_eq!(parse_length(b"   "), None);
    assert_eq!(parse_length(b"+"), None);
    assert_eq!(parse_length(b"-1"), None);
    assert_eq!(parse_length(b"1 2"), None);
    assert_eq!(parse_length(b"12a"), None);
    assert_eq!(parse_length(b"++1"), None);
    assert_eq!(parse_length(usize::MAX.to_string().as_bytes()), Some(usize::MAX));
    assert_eq!(parse_length(b"99999999999999999999999999"), None);
    assert_eq!(parse_length(b"18446744073709551616"), None);
}

#[test]
fn the_first_occurrence_is_found() {
    assert_eq!(find_first(b"ab\r\n\r\ncd\r\n\r\n", b"\r\n\r\n"), Some(2));
    assert_eq!(find_first(b"\r\n\r\n", b"\r\n\r\n"), Some(0));
    assert_eq!(find_first(b"ab\r\n\rcd", b"\r\n\r\n"), None);
    assert_eq!(find_first(b"\r\n", b"\r\n\r\n"), None);
    assert_eq!(find_first(b"abc", b""), Some(0));
    assert_eq!(find_first(b"aaab", b"ab"), Some(2));
    assert_eq!(find_first(b"abc", b"c"), Some(2));
}

#[test]
fn byte_strings_are_compared_and_scanned() {
    assert!(bytes_eq(b"GET", b"GET"));
    assert!(!bytes_eq(b"GET", b"GETS"));
    assert!(!bytes_eq(b"GET", b"GEt"));
    assert!(bytes_eq_ignore_case(b"Content-Length", b"content-length"));
    assert!(!bytes_eq_ignore_case(b"Content-Length", b"content_length"));
    assert!(!bytes_eq_ignore_case(b"@", b"`"));
    assert_eq!(text_bytes("a/b"), b"a/b");
    assert_eq!(text_bytes("\u{e9}"), [0xc3, 0xa9]);
    assert_eq!(find_byte(b"a:b:c", b':', 0), 1);
    assert_eq!(find_byte(b"a:b:c", b':', 2), 3);
    assert_eq!(find_byte(b"a:b:c", b':', 4), 5);
    assert_eq!(skip_run(b"  \t\x0b\x0c\r\nx y", 0, true), 7);
    assert_eq!(skip_run(b"  x\x00y z", 2, false), 5);
    assert_eq!(skip_run(b"abc", 3, false), 3);
    assert_eq!(skip_run(b"abc", 9, false), 9);
    assert_eq!(find_byte(b"abc", b'c', 9), 9);
}

#[test]
fn an_answered_request_stays_answered() {
    let reqs: [&[u8]; 4] = [
        b"POST /playback HTTP/1.1\r\nContent-Length: 2\r\n\r\n{}",
        b"OPTIONS /settings HTTP/1.1\r\n\r\n",
        b"GET /settings HTTP/1.1\r\n\r\n",
        b"POST /settings HTTP/1.1\r\n\r\n",
    ];
    for req in reqs {
        let answered = plan(req, false);
        assert_ne!(answered, Step::ReadMore);
        assert_eq!(plan(req, true), answered);
        let mut longer = req.to_vec();
        longer.extend_from_slice(b"\r\n\r\nPOST /settings HTTP/1.1\r\nContent-Length: 9\r\n\r\n");
        assert_eq!(plan(&longer, false), answered);
        assert_eq!(plan(&longer, true), answered);
    }
}
