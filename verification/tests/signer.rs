use scrobbler::signer::{key_no_later, sign_lastfm, sign_text, sort_by_key, to_hex_lower};

fn pairs(items: &[(&str, &str)]) -> Vec<(String, String)> {
    items.iter().map(|(k, v)| (k.to_string(), v.to_string())).collect()
}

#[test]
fn signature_of_a_session_request() {
    let mut params = pairs(&[("api_key", "K"), ("method", "auth.getSession"), ("token", "T")]);
    assert_eq!(sign_lastfm(&mut params, "S"), "a9b7c596842f7f7bf14e3f42ba211de8");
}

#[test]
fn signature_does_not_depend_on_the_order_given() {
    let orders: [[usize; 3]; 6] =
        [[0, 1, 2], [0, 2, 1], [1, 0, 2], [1, 2, 0], [2, 0, 1], [2, 1, 0]];
    let items = [("api_key", "K"), ("method", "auth.getSession"), ("token", "T")];
    for order in orders {
        let mut params = pairs(&[items[order[0]], items[order[1]], items[order[2]]]);
        assert_eq!(sign_lastfm(&mut params, "S"), "a9b7c596842f7f7bf14e3f42ba211de8");
        assert_eq!(params, pairs(&items));
    }
}

#[test]
fn signature_changes_with_a_value() {
    let mut params = pairs(&[("api_key", "K"), ("method", "auth.getSession"), ("token", "X")]);
    assert_eq!(sign_lastfm(&mut params, "S"), "10f9180a0a4bafe7e0beac49d51cf566");
    let mut other = pairs(&[("api_key", "K"), ("method", "auth.getSession"), ("token", "T")]);
    assert_ne!(sign_lastfm(&mut other, "S"), "10f9180a0a4bafe7e0beac49d51cf566");
    let mut third = pairs(&[("api_key", "K"), ("method", "auth.getSession"), ("token", "T")]);
    assert_ne!(sign_lastfm(&mut third, "Z"), "a9b7c596842f7f7bf14e3f42ba211de8");
}

#[test]
fn signature_of_no_parameters_is_the_digest_of_the_secret() {
    let mut params: Vec<(String, String)> = Vec::new();
    assert_eq!(sign_lastfm(&mut params, "abc"), "900150983cd24fb0d6963f7d28e17f72");
    assert!(params.is_empty());
}

#[test]
fn digest_of_known_texts() {
    assert_eq!(sign_text(""), "d41d8cd98f00b204e9800998ecf8427e");
    assert_eq!(sign_text("abc"), "900150983cd24fb0d6963f7d28e17f72");
}

#[test]
fn hex_is_lower_case_with_two_digits_a_byte() {
    assert_eq!(to_hex_lower(&[]), "");
    assert_eq!(to_hex_lower(&[0x00, 0x0f, 0xa0, 0xff, 0x9c]), "000fa0ff9c");
    assert_eq!(
        to_hex_lower(&[0x01, 0x23, 0x45, 0x67, 0x89, 0xab, 0xcd, 0xef]),
        "0123456789abcdef"
    );
}

#[test]
fn keys_are_ordered_as_strings_are() {
    assert!(key_no_later("api_key", "method"));
    assert!(!key_no_later("method", "api_key"));
    assert!(key_no_later("track", "track"));
    assert!(key_no_later("track", "track[0]"));
    assert!(!key_no_later("track[0]", "track"));
    assert!(key_no_later("", "a"));
    assert!(key_no_later("Z", "a"));
    assert!(key_no_later("z", "\u{e9}"));
}

#[test]
fn sorting_keeps_equal_keys_in_their_order() {
    let mut params = pairs(&[("b", "1"), ("a", "2"), ("b", "3"), ("a", "4"), ("c", "5")]);
    sort_by_key(&mut params);
    assert_eq!(params, pairs(&[("a", "2"), ("a", "4"), ("b", "1"), ("b", "3"), ("c", "5")]));
}

#[test]
fn signature_and_format_are_not_signed() {
    let mut params = pairs(&[
        ("format", "json"),
        ("api_key", "K"),
        ("api_sig", "x"),
        ("method", "auth.getSession"),
        ("token", "T"),
    ]);
    assert_eq!(sign_lastfm(&mut params, "S"), "a9b7c596842f7f7bf14e3f42ba211de8");
    assert_eq!(
        params,
        pairs(&[
            ("api_key", "K"),
            ("api_sig", "x"),
            ("format", "json"),
            ("method", "auth.getSession"),
            ("token", "T"),
        ])
    );
    let mut only = pairs(&[("api_sig", "x"), ("format", "json")]);
    assert_eq!(sign_lastfm(&mut only, "abc"), "900150983cd24fb0d6963f7d28e17f72");
    let mut near = pairs(&[("api_sig2", "x"), ("Format", "json")]);
    assert_ne!(sign_lastfm(&mut near, "abc"), "900150983cd24fb0d6963f7d28e17f72");
}

#[test]
fn a_signature_has_32_characters() {
    assert_eq!(sign_text("").len(), 32);
    let mut params = pairs(&[("b", "1"), ("a", "2")]);
    assert_eq!(sign_lastfm(&mut params, "S").len(), 32);
}
