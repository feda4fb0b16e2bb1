use scrobbler::callback::{
    callback_reply, callback_token, dev_callback_url, find_token, token_from_request,
    CallbackError, DEV_CALLBACK_URL, SCHEME_CALLBACK_URL,
};

fn pairs(items: &[(&str, &str)]) -> Vec<(String, String)> {
    items.iter().map(|(k, v)| (k.to_string(), v.to_string())).collect()
}

#[test]
fn the_token_comes_from_the_query() {
    assert_eq!(callback_token("mscd://lastfm-callback?token=abc123"), Ok("abc123".to_string()));
    assert_eq!(
        callback_token("http://127.0.0.1:35729/callback?a=1&token=x%20y&token=z"),
        Ok("x y".to_string())
    );
    assert_eq!(callback_token("mscd://lastfm-callback?token="), Ok(String::new()));
}

#[test]
fn a_url_without_a_token_is_refused() {
    assert_eq!(callback_token("mscd://lastfm-callback"), Err(CallbackError::MissingToken));
    assert_eq!(callback_token("mscd://lastfm-callback?tokens=1"), Err(CallbackError::MissingToken));
}

#[test]
fn a_text_that_is_no_url_is_refused() {
    assert_eq!(callback_token("not a url"), Err(CallbackError::InvalidUrl));
    assert_eq!(callback_token(""), Err(CallbackError::InvalidUrl));
    assert_eq!(callback_token("?token=abc"), Err(CallbackError::InvalidUrl));
}

#[test]
fn the_first_token_pair_counts() {
    assert_eq!(find_token(&pairs(&[("a", "1"), ("token", "t"), ("token", "u")])), Some("t".to_string()));
    assert_eq!(find_token(&pairs(&[("Token", "t")])), None);
    assert_eq!(find_token(&pairs(&[])), None);
}

#[test]
fn a_request_brings_its_token() {
    assert_eq!(
        token_from_request(b"GET /callback?token=abc HTTP/1.1\r\nHost: x\r\n\r\n"),
        Some(b"abc".to_vec())
    );
    assert_eq!(
        token_from_request(b"GET /callback?x=1&novalue&token=a=b&token=c HTTP/1.1\r\n\r\n"),
        Some(b"a=b".to_vec())
    );
    assert_eq!(token_from_request(b"GET /callback?token= HTTP/1.1\r\n"), Some(Vec::new()));
    assert_eq!(token_from_request(b"GET /callback?x=1?token=5 HTTP/1.1\r\n"), None);
    assert_eq!(token_from_request(b"GET /callback?atoken=5 HTTP/1.1\r\n"), None);
    assert_eq!(token_from_request(b"GET /callback HTTP/1.1\r\n"), None);
    assert_eq!(token_from_request(b"GET\r\nX: /callback?token=abc\r\n"), None);
    assert_eq!(token_from_request(b""), None);
}

#[test]
fn the_loopback_url_carries_the_token() {
    assert_eq!(DEV_CALLBACK_URL, "http://127.0.0.1:35729/callback");
    assert_eq!(SCHEME_CALLBACK_URL, "mscd://lastfm-callback");
    assert_eq!(dev_callback_url("abc"), "http://127.0.0.1:35729/callback?token=abc");
    assert_eq!(callback_token(&dev_callback_url("abc")), Ok("abc".to_string()));
}

#[test]
fn the_loopback_page_confirms_or_refuses() {
    assert_eq!(
        callback_reply(true),
        "HTTP/1.1 200 OK\r\nContent-Type: text/plain\r\n\r\nYou can close this tab.\r\n"
    );
    assert_eq!(
        callback_reply(false),
        "HTTP/1.1 400 Bad Request\r\nContent-Type: text/plain\r\n\r\nMissing token.\r\n"
    );
}
